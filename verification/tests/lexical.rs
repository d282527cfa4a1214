use chi_frontend::frontend::ast::{Bop, Uop};
use chi_frontend::frontend::grammar::{CharClass, Keyword};
use chi_frontend::frontend::lexical::{
    binary_operator, chars_of, parse_bool, parse_char, parse_int, unary_operator,
};
use chi_frontend::frontend::matcher;
use chi_frontend::frontend::tree::Rule;

fn chars(text: &str) -> Vec<char> {
    text.chars().collect()
}

#[test]
fn characters_of_a_string() {
    assert_eq!(chars_of(""), Vec::<char>::new());
    assert_eq!(chars_of("aé☃"), vec!['a', 'é', '☃']);
}

#[test]
fn table_of_binary_operators() {
    assert_eq!(binary_operator("+"), Some(Bop::Add));
    assert_eq!(binary_operator("-"), Some(Bop::Sub));
    assert_eq!(binary_operator("*"), Some(Bop::Mul));
    assert_eq!(binary_operator("/"), Some(Bop::Div));
    assert_eq!(binary_operator("%"), Some(Bop::Mod));
    assert_eq!(binary_operator("=="), Some(Bop::Eq));
    assert_eq!(binary_operator("!="), Some(Bop::Neq));
    assert_eq!(binary_operator("<"), Some(Bop::Lt));
    assert_eq!(binary_operator("<="), Some(Bop::Lte));
    assert_eq!(binary_operator(">"), Some(Bop::Gt));
    assert_eq!(binary_operator(">="), Some(Bop::Gte));
    assert_eq!(binary_operator("&"), Some(Bop::And));
    assert_eq!(binary_operator("|"), Some(Bop::Or));
    assert_eq!(binary_operator("*>>"), Some(Bop::HMul));
    for token in ["", "!", "=", "++", "=>", "*>", ">>", "*>>=", "a", " +"] {
        assert_eq!(binary_operator(token), None, "{:?}", token);
    }
}

#[test]
fn table_of_unary_operators() {
    assert_eq!(unary_operator("-"), Some(Uop::Neg));
    assert_eq!(unary_operator("!"), Some(Uop::Not));
    for token in ["", "+", "--", "!!", "~"] {
        assert_eq!(unary_operator(token), None);
    }
}

#[test]
fn decimal_integers() {
    assert_eq!(parse_int("0"), Some(0));
    assert_eq!(parse_int("42"), Some(42));
    assert_eq!(parse_int("-42"), Some(-42));
    assert_eq!(parse_int("+42"), Some(42));
    assert_eq!(parse_int("000123"), Some(123));
    assert_eq!(parse_int("9223372036854775807"), Some(i64::MAX));
    assert_eq!(parse_int("-9223372036854775808"), Some(i64::MIN));
    assert_eq!(parse_int("-9223372036854775807"), Some(i64::MIN + 1));
    assert_eq!(parse_int("9223372036854775808"), None);
    assert_eq!(parse_int("-9223372036854775809"), None);
    assert_eq!(parse_int("18446744073709551616"), None);
    assert_eq!(parse_int("99999999999999999999999999999999999999999"), None);
    assert_eq!(parse_int(""), None);
    assert_eq!(parse_int("-"), None);
    assert_eq!(parse_int("+"), None);
    assert_eq!(parse_int("+-1"), None);
    assert_eq!(parse_int("1_000"), None);
    assert_eq!(parse_int(" 1"), None);
    assert_eq!(parse_int("1 "), None);
    assert_eq!(parse_int("٣"), None);
    assert_eq!(parse_int("0x10"), None);
}

#[test]
fn decimal_integers_agree_with_the_standard_conversion() {
    let texts = [
        "0", "7", "-7", "+7", "", "-", "+", "12345678901234567890", "-12345678901234567890",
        "9223372036854775807", "9223372036854775808", "-9223372036854775808", "00", "-00", "1a",
        "a1", "1-", "--1", "９",
    ];
    for text in texts {
        assert_eq!(parse_int(text), text.parse::<i64>().ok(), "{:?}", text);
    }
}

#[test]
fn truth_values_and_characters() {
    assert_eq!(parse_bool("true"), Some(true));
    assert_eq!(parse_bool("false"), Some(false));
    for text in ["", "TRUE", "true ", "f", "falsey", "1"] {
        assert_eq!(parse_bool(text), None);
        assert_eq!(parse_bool(text), text.parse::<bool>().ok());
    }
    assert_eq!(parse_char("a"), Some('a'));
    assert_eq!(parse_char("'a'"), Some('\''));
    assert_eq!(parse_char("éa"), Some('é'));
    assert_eq!(parse_char(""), None);
}

#[test]
fn text_between_two_positions() {
    let src = chars("int é = 5;");
    assert_eq!(matcher::text_of(&src, 0, 3), "int");
    assert_eq!(matcher::text_of(&src, 4, 5), "é");
    assert_eq!(matcher::text_of(&src, 4, 4), "");
    assert_eq!(matcher::text_of(&src, 0, src.len()), "int é = 5;");
    let leaf = matcher::make_leaf(Rule::Identifier, &src, 4, 5);
    assert_eq!(leaf.text, "é");
    assert!(leaf.children.is_empty());
    let node = matcher::make(Rule::Primary, &src, 8, 9, matcher::one(leaf));
    assert_eq!(node.text, "5");
    assert_eq!(node.children.len(), 1);
    let longer = matcher::and(node.children, matcher::make_leaf(Rule::Semi, &src, 9, 10));
    assert_eq!(longer.len(), 2);
    assert_eq!(longer[1].text, ";");
}

#[test]
fn runs_of_characters() {
    let src = chars("  \t\r\nabc_1 9 \"q\"");
    assert_eq!(matcher::skip(&src, 0), 5);
    assert_eq!(matcher::skip(&src, 5), 5);
    assert_eq!(matcher::run_end(&src, 5, CharClass::Word), 10);
    assert_eq!(matcher::run_end(&src, 5, CharClass::Digit), 5);
    assert_eq!(matcher::run_end(&src, 11, CharClass::Digit), 12);
    assert_eq!(matcher::run_end(&src, 14, CharClass::Quoted), 15);
    assert_eq!(matcher::run_end(&src, src.len(), CharClass::Space), src.len());
    assert_eq!(matcher::word_at(&src, 5), Some(10));
    assert_eq!(matcher::word_at(&src, 9), None);
    assert_eq!(matcher::word_at(&src, src.len()), None);
    assert!(matcher::symbol_at(&src, 13, '"'));
    assert!(!matcher::symbol_at(&src, 12, '"'));
    assert!(!matcher::symbol_at(&src, src.len(), '"'));
    assert!(matcher::in_class(CharClass::Word, 'Z'));
    assert!(!matcher::in_class(CharClass::Word, 'é'));
    assert!(matcher::is_word_start('_'));
    assert!(!matcher::is_word_start('1'));
}

#[test]
fn reserved_words() {
    let words = [
        ("use", Keyword::Use),
        ("int", Keyword::Int),
        ("bool", Keyword::Bool),
        ("char", Keyword::Char),
        ("string", Keyword::String),
        ("void", Keyword::Void),
        ("if", Keyword::If),
        ("else", Keyword::Else),
        ("while", Keyword::While),
        ("return", Keyword::Return),
        ("true", Keyword::True),
        ("false", Keyword::False),
    ];
    for (word, keyword) in words {
        let src = chars(word);
        assert_eq!(matcher::keyword_of(&src, 0, src.len()), Some(keyword));
        assert_eq!(matcher::keyword_at(&src, 0, keyword), Some(src.len()));
        assert!(matcher::identifier(&src, 0).is_none());
        let longer = chars(&format!("{}s", word));
        assert_eq!(matcher::keyword_of(&longer, 0, longer.len()), None);
        assert_eq!(matcher::keyword_at(&longer, 0, keyword), None);
        assert!(matcher::identifier(&longer, 0).is_some());
    }
    assert_eq!(matcher::keyword_at(&chars("if"), 0, Keyword::Else), None);
    let src = chars("Int x");
    assert_eq!(matcher::keyword_of(&src, 0, 3), None);
    assert_eq!(matcher::keyword_of(&src, 0, 0), None);
}

#[test]
fn matchers_say_where_a_construct_ends() {
    let src = chars("a+b , c ;");
    let (node, end) = matcher::expr(&src, 0).unwrap();
    assert_eq!(end, 3);
    assert_eq!(node.rule, Rule::Expr);
    assert_eq!(node.text, "a+b");
    assert_eq!(node.children[0].rule, Rule::BinaryExpr);
    let (list, end) = matcher::expr_list(&src, 0).unwrap();
    assert_eq!(end, 7);
    assert_eq!(list.text, "a+b , c");
    assert_eq!(list.children.len(), 2);
    assert!(matcher::expr(&src, 3).is_none());
    assert!(matcher::expr(&src, src.len()).is_none());
    assert_eq!(matcher::brackets_end(&chars("x [ ] [] [ y"), 1), 8);
    assert_eq!(matcher::binary_op(&chars("<=>"), 0).unwrap().1, 2);
    assert_eq!(matcher::binary_op(&chars("*>>"), 0).unwrap().1, 3);
    assert_eq!(matcher::binary_op(&chars("*>"), 0).unwrap().1, 1);
    assert!(matcher::binary_op(&chars("="), 0).is_none());
    assert!(matcher::binary_op(&chars("!"), 0).is_none());
    assert_eq!(matcher::unary_op(&chars("!"), 0).unwrap().1, 1);
    assert_eq!(matcher::program(&chars("use a; int")), Err(7));
    assert_eq!(matcher::whole_expr(&chars(" 1 1")), Err(3));
}
