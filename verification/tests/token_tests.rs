use emmylua_parser::kind::lua_syntax_kind::LuaSyntaxKind;
use emmylua_parser::kind::lua_token_kind::LuaTokenKind;
use emmylua_parser::parser::lua_parser::LuaParser;
use emmylua_parser::parser::parser_config::ParserConfig;
use emmylua_parser::parser::parser_error::{LuaParseErrorKind, token_kind_debug};
use emmylua_parser::syntax::node::token::string_analyzer::{string_token_is_readable, string_token_value};
use emmylua_parser::syntax::node::token::tokens::LuaStringToken;
use emmylua_parser::syntax::traits::LuaAstToken;
use emmylua_parser::syntax::tree::green_builder::LuaGreenNodeBuilder;
use emmylua_parser::text::text_range::SourceRange;
use emmylua_parser::syntax::tree::syntax_tree::{LuaSyntaxElement, LuaSyntaxNode, LuaSyntaxToken};

/// The first string token under `node`, in preorder.
fn first_string_token<'a>(node: LuaSyntaxNode<'a>) -> Option<LuaSyntaxToken<'a>> {
    for element in node.children_with_tokens() {
        match element {
            LuaSyntaxElement::Token(t) => {
                if t.kind() == LuaTokenKind::TkString || t.kind() == LuaTokenKind::TkLongString {
                    return Some(t);
                }
            }
            LuaSyntaxElement::Node(n) => {
                if let Some(t) = first_string_token(n) {
                    return Some(t);
                }
            }
        }
    }
    None
}

/// The value of the string literal `literal`, read from `local s = <literal>`.
fn value_of(literal: &str) -> Result<String, LuaParseErrorKind> {
    let code = format!("local s = {}", literal);
    let tree = LuaParser::parse(&code, ParserConfig::default());
    let token = first_string_token(tree.get_red_root()).unwrap();
    assert_eq!(token.text_string(), literal);
    string_token_value(&token).map_err(|e| e.kind)
}

/// The value of a lone token of kind `kind` with text `text`.
fn token_value(text: &str, kind: LuaTokenKind) -> Result<String, LuaParseErrorKind> {
    let mut builder = LuaGreenNodeBuilder::new();
    builder.start_node(LuaSyntaxKind::Chunk);
    builder.token(kind, SourceRange { start_offset: 0, length: text.len() }, text.chars().collect());
    builder.finish_node();
    let tree = builder.finish(Vec::new());
    let token = first_string_token(tree.get_red_root()).unwrap();
    string_token_value(&token).map_err(|e| e.kind)
}

#[test]
fn test_multi_line() {
    let code = r#"'\
        aaa'"#;
    let expected = r#"
        aaa"#;
    assert_eq!(token_value(code, LuaTokenKind::TkString).unwrap(), expected.to_string());
}

#[test]
fn test_multi_line2() {
    let code = r#"'\z
        aaa'"#;
    let expected = r#"aaa"#;
    assert_eq!(token_value(code, LuaTokenKind::TkString).unwrap(), expected.to_string());
}

#[test]
fn test_string_token_value_normal() {
    assert_eq!(token_value("\"hello\"", LuaTokenKind::TkString).unwrap(), "hello");
}

#[test]
fn test_string_token_value_normal_2() {
    assert_eq!(token_value("'hello'", LuaTokenKind::TkString).unwrap(), "hello");
}

#[test]
fn test_string_token_value_long() {
    assert_eq!(token_value("[[hello]]", LuaTokenKind::TkLongString).unwrap(), "hello");
}

#[test]
fn test_string_token_value_escaped_quote() {
    assert_eq!(token_value("\"he\\\"llo\"", LuaTokenKind::TkString).unwrap(), "he\"llo");
}

#[test]
fn test_string_token_value_escaped_single_quote() {
    assert_eq!(token_value("'he\\'llo'", LuaTokenKind::TkString).unwrap(), "he'llo");
}

#[test]
fn test_string_token_value_empty() {
    assert_eq!(token_value("\"\"", LuaTokenKind::TkString).unwrap(), "");
}

#[test]
fn test_string_token_value_empty_single() {
    assert_eq!(token_value("''", LuaTokenKind::TkString).unwrap(), "");
}

#[test]
fn test_string_token_value_long_multiline() {
    assert_eq!(token_value("[[hello\nworld]]", LuaTokenKind::TkLongString).unwrap(), "hello\nworld");
}

#[test]
fn test_string_token_value_long_multiline2() {
    assert_eq!(token_value("[===[\nhello]===]", LuaTokenKind::TkLongString).unwrap(), "hello");
}

#[test]
fn test_string_token_value_long_multiline3() {
    assert_eq!(token_value("[===[\r\n\r\nhello]===]", LuaTokenKind::TkLongString).unwrap(), "\r\nhello");
}

#[test]
fn test_string_token_value_hex() {
    assert_eq!(token_value("\"\\x68\\x65\\x6c\\x6c\\x6f\"", LuaTokenKind::TkString).unwrap(), "hello");
}

#[test]
fn test_string_token_value_utf8() {
    assert_eq!(token_value("\"\\u{1F600}\"", LuaTokenKind::TkString).unwrap(), "😀");
}

#[test]
fn test_string_token_value_mixed() {
    assert_eq!(token_value("\"hello\\x20\\u{1F600}\"", LuaTokenKind::TkString).unwrap(), "hello 😀");
}

#[test]
fn decimal_escapes_take_at_most_three_digits() {
    assert_eq!(value_of("'\\65\\0661'").unwrap(), "AB1");
    // a value above 255 is dropped
    assert_eq!(value_of("'a\\256b'").unwrap(), "ab");
}

#[test]
fn simple_escapes_decode() {
    assert_eq!(value_of("'\\a\\b\\f\\n\\r\\t\\v\\\\'").unwrap(), "\u{7}\u{8}\u{c}\n\r\t\u{b}\\");
}

#[test]
fn unicode_escape_with_plus_and_bad_digits() {
    assert_eq!(value_of("'\\u{+48}i'").unwrap(), "Hi");
    // digits that do not form a number are skipped
    assert_eq!(value_of("'a\\u{zz}b'").unwrap(), "ab");
}

#[test]
fn escape_errors_are_syntax_errors() {
    assert_eq!(value_of("'\\q'"), Err(LuaParseErrorKind::SyntaxError));
    assert_eq!(value_of("'\\x4'"), Err(LuaParseErrorKind::SyntaxError));
    assert_eq!(value_of("'\\u{D800}'"), Err(LuaParseErrorKind::SyntaxError));
}

#[test]
fn get_value_is_empty_on_errors() {
    let code = "local s = '\\q'\nlocal t = 'ok\\65'";
    let tree = LuaParser::parse(code, ParserConfig::default());
    let root = tree.get_red_root();
    let first = LuaStringToken::cast(first_string_token(root).unwrap()).unwrap();
    assert_eq!(first.get_value(), "");
    let block = root.children()[0];
    let second_stat = block.children()[1];
    let second = LuaStringToken::cast(first_string_token(second_stat).unwrap()).unwrap();
    assert_eq!(second.get_value(), "okA");
}

#[test]
fn z_escape_continues_a_string_over_line_ends() {
    assert_eq!(value_of("'\\z\n        aaa'").unwrap(), "aaa");
}

/// Whether a lone token of kind `kind` with text `text` can be read.
fn token_readable(text: &str, kind: LuaTokenKind) -> bool {
    let mut builder = LuaGreenNodeBuilder::new();
    builder.start_node(LuaSyntaxKind::Chunk);
    builder.token(kind, SourceRange { start_offset: 0, length: text.len() }, text.chars().collect());
    builder.finish_node();
    let tree = builder.finish(Vec::new());
    let token = first_string_token(tree.get_red_root()).unwrap();
    string_token_is_readable(&token)
}

#[test]
fn long_strings_are_cut_on_char_boundaries() {
    assert!(token_readable("[[hello]]", LuaTokenKind::TkLongString));
    assert!(token_readable("'x", LuaTokenKind::TkString));
    // the closing bracket would start inside the two bytes of `é`
    assert!(!token_readable("[[\u{e9}a", LuaTokenKind::TkLongString));
    assert!(token_readable("[[a\u{e9}", LuaTokenKind::TkLongString));
    assert_eq!(token_value("[[a\u{e9}", LuaTokenKind::TkLongString).unwrap(), "a");
}

#[test]
fn plain_strings_read_back_their_body() {
    for body in ["", "abc", "a b\tc", "\u{e9}t\u{e9}", "x\"y"] {
        let literal = format!("'{}'", body);
        assert_eq!(token_value(&literal, LuaTokenKind::TkString).unwrap(), body);
    }
}

/// The error message for the string literal `literal`.
fn message_of(literal: &str) -> String {
    let code = format!("local s = {}", literal);
    let tree = LuaParser::parse(&code, ParserConfig::default());
    let token = first_string_token(tree.get_red_root()).unwrap();
    string_token_value(&token).unwrap_err().message
}

#[test]
fn bad_escapes_are_quoted_in_the_error() {
    assert_eq!(message_of("\"a\\xZZ\""), "Invalid hex escape sequence '\\xZZ'");
    assert_eq!(message_of("\"a\\q\""), "Invalid escape sequence '\\q'");
    assert_eq!(message_of("\"\\u{110000}\""), "Invalid unicode escape sequence '\\u{{110000}}'");
}

#[test]
fn token_kind_names_are_their_debug_text() {
    for kind in [LuaTokenKind::TkName, LuaTokenKind::TkEof, LuaTokenKind::TkDocContinueOr, LuaTokenKind::NoneKind] {
        assert_eq!(token_kind_debug(kind), format!("{:?}", kind));
    }
}
