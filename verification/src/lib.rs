//! The front end of a small imperative language: from the text of a source
//! file to its abstract syntax tree, or to the first failure met on the way.
//!
//! [`frontend::grammar`] says which texts are programs and which parse tree
//! each of them has; [`frontend::matcher`] finds that tree.
//! [`frontend::meaning`] says which syntax tree a parse tree denotes;
//! [`frontend::parser`] builds it. [`frontend::laws`] holds what is proved of
//! all texts and all trees.
pub mod frontend;
