//! Syntax: the trees, the grammar and the way from a text to a program.
pub mod ast;
pub mod failure;
pub mod grammar;
pub mod laws;
pub mod lexical;
pub mod matcher;
pub mod meaning;
pub mod parser;
pub mod tree;
