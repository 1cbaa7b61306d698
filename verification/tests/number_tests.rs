use emmylua_parser::kind::lua_language_level::LuaLanguageLevel;
use emmylua_parser::kind::lua_token_kind::LuaTokenKind;
use emmylua_parser::parser::lua_parser::LuaParser;
use emmylua_parser::parser::parser_config::ParserConfig;
use emmylua_parser::parser::parser_error::LuaParseErrorKind;
use emmylua_parser::syntax::node::token::number_analyzer::{int_literal_value, int_token_value, IntLiteral};
use emmylua_parser::syntax::tree::syntax_tree::{LuaSyntaxElement, LuaSyntaxNode, LuaSyntaxToken};

fn first_int_token<'a>(node: LuaSyntaxNode<'a>) -> Option<LuaSyntaxToken<'a>> {
    for element in node.children_with_tokens() {
        match element {
            LuaSyntaxElement::Token(t) => {
                if t.kind() == LuaTokenKind::TkInt {
                    return Some(t);
                }
            }
            LuaSyntaxElement::Node(n) => {
                if let Some(t) = first_int_token(n) {
                    return Some(t);
                }
            }
        }
    }
    None
}

fn literal(s: &str) -> Result<IntLiteral, String> {
    let chars: Vec<char> = s.chars().collect();
    int_literal_value(&chars)
}

#[test]
fn decimal_literals_fitting_i64_are_ints() {
    assert_eq!(literal("0"), Ok(IntLiteral::Int(0)));
    assert_eq!(literal("9223372036854775807"), Ok(IntLiteral::Int(i64::MAX)));
}

#[test]
fn decimal_literals_past_i64_are_digits_for_a_float() {
    assert_eq!(
        literal("9223372036854775808"),
        Ok(IntLiteral::Beyond { radix: 10, digits: "9223372036854775808".chars().collect() })
    );
}

#[test]
fn hex_literals_wrap_within_64_bits() {
    assert_eq!(literal("0xff"), Ok(IntLiteral::Int(255)));
    assert_eq!(literal("0xFFFFFFFFFFFFFFFF"), Ok(IntLiteral::Int(-1)));
    assert_eq!(literal("0x8000000000000000"), Ok(IntLiteral::Int(i64::MIN)));
    assert_eq!(
        literal("0x10000000000000000"),
        Ok(IntLiteral::Beyond { radix: 16, digits: "10000000000000000".chars().collect() })
    );
}

#[test]
fn binary_literals_read_in_base_two() {
    assert_eq!(literal("0b101"), Ok(IntLiteral::Int(5)));
}

#[test]
fn luajit_suffixes_are_dropped_and_ull_is_unsigned() {
    assert_eq!(literal("42LL"), Ok(IntLiteral::Int(42)));
    assert_eq!(literal("42ULL"), Ok(IntLiteral::Int(42)));
    assert_eq!(literal("18446744073709551615ULL"), Ok(IntLiteral::Uint(u64::MAX)));
    assert_eq!(literal("18446744073709551616ULL"), Err("malformed number".to_string()));
}

#[test]
fn digits_that_do_not_read_are_errors() {
    assert_eq!(
        literal("0x"),
        Err("Failed to parse integer literal 0x: cannot parse integer from empty string".to_string())
    );
    assert_eq!(literal("12z"), Err("Failed to parse integer literal 12z: invalid digit found in string".to_string()));
}

#[test]
fn int_token_value_reads_the_token_text() {
    let tree = LuaParser::parse("local a = 0x7fffffffffffffff", ParserConfig::default());
    let token = first_int_token(tree.get_red_root()).unwrap();
    assert_eq!(int_token_value(&token).ok(), Some(IntLiteral::Int(i64::MAX)));
}

#[test]
fn malformed_int_token_is_a_syntax_error_at_the_token() {
    let tree = LuaParser::parse("local a = 99999999999999999999ULL", ParserConfig::with_level(LuaLanguageLevel::LuaJIT));
    let token = first_int_token(tree.get_red_root()).unwrap();
    let e = int_token_value(&token).unwrap_err();
    assert_eq!(e.kind, LuaParseErrorKind::SyntaxError);
    assert_eq!(e.message, "malformed number");
    assert_eq!(e.range, token.text_range());
}
