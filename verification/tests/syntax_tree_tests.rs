use emmylua_parser::parser::lua_parser::LuaParser;
use emmylua_parser::kind::lua_language_level::LuaLanguageLevel;
use emmylua_parser::parser::parser_config::ParserConfig;
use emmylua_parser::syntax::tree::syntax_tree::LuaSyntaxNode;

/// An outline of `node`: its kind and range, then its children, indented.
fn outline(node: LuaSyntaxNode, depth: usize, out: &mut String) {
    let range = node.text_range();
    out.push_str(&format!(
        "{}{:?}@{}..{}\n",
        "  ".repeat(depth),
        node.kind(),
        range.start_offset,
        range.start_offset + range.length
    ));
    for child in node.children() {
        outline(child, depth + 1, out);
    }
}

#[test]
fn test_bad_syntax() {
    let code = r#"
JsonData.this[] = nil

---@param key string
---@return boolean
local t
        "#;

    let _ = LuaParser::parse(code, ParserConfig::default());
}

#[test]
fn test_lua51() {
    let code = r#"
if a ~= b then
end
        "#;
    let parse_config = ParserConfig::new(LuaLanguageLevel::Lua51, Vec::new());
    let tree = LuaParser::parse(code, parse_config);
    assert_eq!(tree.get_errors().len(), 0);
}

#[test]
fn test_tree_struct() {
    let code = r#"
function f()
    -- hh
    local t
end
        "#;
    let tree = LuaParser::parse(code, ParserConfig::default());
    let mut text = String::new();
    outline(tree.get_red_root(), 0, &mut text);
    println!("{}", text);
}

#[test]
fn test_error() {
    let code = r#"
local
"#;
    let tree = LuaParser::parse(code, ParserConfig::default());
    let errors = tree.get_errors();
    for error in errors {
        println!("{:?}", error);
    }
}

#[test]
fn test_without_emmylua() {
    let code = r#"
        ---@param key string
        ---@return boolean
        local t
        "#;

    let c = ParserConfig::new(LuaLanguageLevel::Lua54, Vec::new());
    let t = LuaParser::parse(code, c);
    let mut text = String::new();
    outline(t.get_red_root(), 0, &mut text);
    println!("{}", text);
}

fn check_tokens(node: LuaSyntaxNode, code: &str) {
    for element in node.children_with_tokens() {
        match element {
            emmylua_parser::syntax::tree::syntax_tree::LuaSyntaxElement::Token(t) => {
                let r = t.text_range();
                assert_eq!(t.text_string(), &code[r.start_offset..r.start_offset + r.length]);
            }
            emmylua_parser::syntax::tree::syntax_tree::LuaSyntaxElement::Node(n) => check_tokens(n, code),
        }
    }
}

#[test]
fn every_token_holds_the_text_of_its_range() {
    let code = "local t = { a = 'é', [1] = 2 } -- note\n---@class A\nfunction t.f(x) return x .. \"ü\" end\n";
    let tree = LuaParser::parse(code, ParserConfig::default());
    check_tokens(tree.get_red_root(), code);
}

fn spell(node: LuaSyntaxNode, out: &mut String) {
    for element in node.children_with_tokens() {
        match element {
            emmylua_parser::syntax::tree::syntax_tree::LuaSyntaxElement::Token(t) => out.push_str(&t.text_string()),
            emmylua_parser::syntax::tree::syntax_tree::LuaSyntaxElement::Node(n) => spell(n, out),
        }
    }
}

#[test]
fn tree_tokens_spell_the_text_in_order() {
    let code = "local t = { a = 'é', [1] = 2 } -- note\n---@class A\n---@field x integer\nfunction t.f(x) return x .. \"ü\" end\n";
    let tree = LuaParser::parse(code, ParserConfig::default());
    let mut out = String::new();
    spell(tree.get_red_root(), &mut out);
    assert_eq!(out, code);
}

#[test]
fn attribute_use_tag_parses_without_error() {
    let code = "---@[deprecated]\nlocal a = 1\n";
    let tree = LuaParser::parse(code, ParserConfig::default());
    let mut out = String::new();
    outline(tree.get_red_root(), 0, &mut out);
    assert!(!tree.has_syntax_errors(), "{:?}\n{}", tree.get_errors(), out);
    assert!(out.contains("DocTagAttributeUse"));
    assert!(out.contains("DocAttributeUse"));
}

#[test]
fn texts_with_comments_and_doc_errors_are_spelled_whole() {
    let code = "---@type )\n--[[@as number]] local x = 1 --[==[ long\n comment ]==]\n-- plain\n";
    let tree = LuaParser::parse(code, ParserConfig::default());
    let mut out = String::new();
    spell(tree.get_red_root(), &mut out);
    assert_eq!(out, code);
    assert!(tree.get_errors().iter().any(|e| e.message == "expect type"), "{:?}", tree.get_errors());
}

#[test]
fn doc_comment_trees_are_spelled_whole() {
    let code = "  ---@class A: B\n  ---@field x integer # the x\n  --[[ long ]]\n";
    let tree = emmylua_parser::parser::lua_doc_parser::parse_doc_comment(code);
    let mut out = String::new();
    spell(tree.get_red_root(), &mut out);
    assert_eq!(out, code);
}
