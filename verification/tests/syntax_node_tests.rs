use emmylua_parser::syntax::node::doc::LuaComment;
use emmylua_parser::syntax::node::doc::tag::LuaDocTagCast;
use emmylua_parser::syntax::node::lua::LuaAst;
use emmylua_parser::parser::lua_parser::LuaParser;
use emmylua_parser::parser::parser_config::ParserConfig;
use emmylua_parser::syntax::node::doc::LuaDocDescription;
use emmylua_parser::syntax::node::lua::expr::{LuaCallExpr, LuaExpr, LuaIndexExpr, LuaTableExpr};
use emmylua_parser::syntax::node::lua::LuaLocalStat;
use emmylua_parser::syntax::traits::LuaAstNode;
use emmylua_parser::syntax::tree::syntax_tree::{LuaSyntaxNode, LuaSyntaxTree};

/// The first node of type `N` in the subtree of `node`, in preorder.
fn first_node<'a, N: LuaAstNode<'a>>(node: LuaSyntaxNode<'a>) -> Option<N> {
    if let Some(n) = N::cast(node) {
        return Some(n);
    }
    for child in node.children() {
        if let Some(n) = first_node::<N>(child) {
            return Some(n);
        }
    }
    None
}

fn get_ast_node<'a, N: LuaAstNode<'a>>(tree: &'a LuaSyntaxTree) -> N {
    let chunk = tree.get_chunk_node();
    first_node::<N>(*chunk.syntax()).unwrap()
}

fn syntax_debug(node: &LuaSyntaxNode) -> String {
    let range = node.text_range();
    format!("Syntax({:?})@{}..{}", node.kind(), range.start_offset, range.start_offset + range.length)
}

#[test]
fn test_local_stat1() {
    let code = "local a = 123";
    let tree = LuaParser::parse(code, ParserConfig::default());
    let local_stat = get_ast_node::<LuaLocalStat>(&tree);
    let name_list = local_stat.get_local_name_list();
    let local_name = name_list[0];
    assert_eq!(
        format!("LuaLocalName {{ syntax: {} }}", syntax_debug(local_name.syntax())),
        r#"LuaLocalName { syntax: Syntax(LocalName)@6..7 }"#
    );
    let expr_list = local_stat.get_value_exprs();
    let expr = expr_list[0];
    let text = match expr {
        LuaExpr::LiteralExpr(e) => format!("LiteralExpr(LuaLiteralExpr {{ syntax: {} }})", syntax_debug(e.syntax())),
        _ => String::from("not a literal"),
    };
    assert_eq!(text, r#"LiteralExpr(LuaLiteralExpr { syntax: Syntax(LiteralExpr)@10..13 })"#);
}

#[test]
fn test_name_token() {
    let code = "local a<const> = 123";
    let tree = LuaParser::parse(code, ParserConfig::default());
    let local_stat = get_ast_node::<LuaLocalStat>(&tree);
    let name_list = local_stat.get_local_name_list();
    let local_name1 = name_list[0];
    let name = local_name1.get_name_token().unwrap();
    assert_eq!(name.get_name_text(), "a");
    let attrib = local_name1.get_attrib().unwrap();
    assert!(attrib.is_const());
}

#[test]
fn test_comment_description() {
    let code = r#"
            ---hello
            ---world
            ---      hihihi
        "#;
    let tree = LuaParser::parse(code, ParserConfig::default());
    let description = get_ast_node::<LuaDocDescription>(&tree);
    let expected = r#"hello
world
      hihihi"#;
    assert_eq!(description.get_description_text(), expected);

    let code2 = r#"
        ---Command-line arguments of Lua Standalone.
        ---
        ---[View documents](command:extension.lua.doc?["en-us/54/manual.html/pdf-arg"])
        "#;

    let tree2 = LuaParser::parse(code2, ParserConfig::default());
    let description2 = get_ast_node::<LuaDocDescription>(&tree2);
    let expected2 = r#"Command-line arguments of Lua Standalone.

[View documents](command:extension.lua.doc?["en-us/54/manual.html/pdf-arg"])"#;
    assert_eq!(description2.get_description_text(), expected2);
}

#[test]
fn call_expr_kinds_and_arguments() {
    let code = "local m = require('a.b')\nobj:method(1, 2, 3)\n";
    let tree = LuaParser::parse(code, ParserConfig::default());
    let chunk = tree.get_chunk_node();
    let first = first_node::<LuaCallExpr>(*chunk.syntax()).unwrap();
    assert!(first.is_require());
    assert!(!first.is_colon_call());
    assert_eq!(first.get_args_count(), Some(1));
    let block = chunk.get_block().unwrap();
    let stats = block.get_stats();
    assert_eq!(stats.len(), 2);
    let second = first_node::<LuaCallExpr>(*stats[1].syntax()).unwrap();
    assert!(!second.is_require());
    assert!(second.is_colon_call());
    assert_eq!(second.get_args_count(), Some(3));
}

#[test]
fn table_kinds_and_index_names() {
    let tree = LuaParser::parse("local t = {1, 2}\nlocal u = {a = 1}\nlocal v = {}\nx = t.field", ParserConfig::default());
    let chunk = tree.get_chunk_node();
    let stats = chunk.get_block().unwrap().get_stats();
    let t1 = first_node::<LuaTableExpr>(*stats[0].syntax()).unwrap();
    let t2 = first_node::<LuaTableExpr>(*stats[1].syntax()).unwrap();
    let t3 = first_node::<LuaTableExpr>(*stats[2].syntax()).unwrap();
    assert!(t1.is_array() && !t1.is_object() && !t1.is_empty());
    assert_eq!(t1.get_fields().len(), 2);
    assert!(t2.is_object());
    assert!(t3.is_empty());
    let index = first_node::<LuaIndexExpr>(*stats[3].syntax()).unwrap();
    assert_eq!(index.get_index_name_token().unwrap().text_string(), "field");
    assert_eq!(index.get_name_token().unwrap().get_name_text(), "field");
}

#[test]
fn description_text_drops_dashes_and_indentation() {
    let tree = LuaParser::parse("-- one\n  -- two\nlocal x", ParserConfig::default());
    let description = get_ast_node::<LuaDocDescription>(&tree);
    assert_eq!(description.get_description_text(), "one\ntwo");
}

/// The source text that `node` spans.
fn node_text(code: &str, node: &LuaSyntaxNode) -> String {
    let range = node.text_range();
    code[range.start_offset..range.start_offset + range.length].to_string()
}

#[test]
fn test_comment() {
    let code = r#"
        -- 1 comment
        local t = 123 -- 2 comment

        local c = {
            aa = 1123, -- 3 comment
            bb = 123, --[[4 comment]]
            -- 5 comment
            qi = 123,
        }
        "#;

    let tree = LuaParser::parse(code, ParserConfig::default());
    let root = tree.get_chunk_node();
    let mut comments: Vec<LuaComment> = Vec::new();
    all_nodes(*root.syntax(), &mut comments);
    let mut comment_iter = comments.into_iter();
    let comment_1 = comment_iter.next().unwrap();
    assert_eq!(comment_1.get_description().unwrap().get_description_text(), "1 comment");
    assert_eq!(node_text(code, comment_1.get_owner().unwrap().syntax()), "local t = 123");

    let comment_2 = comment_iter.next().unwrap();
    assert_eq!(comment_2.get_description().unwrap().get_description_text(), "2 comment");
    assert_eq!(node_text(code, comment_2.get_owner().unwrap().syntax()), "local t = 123");

    let comment_3 = comment_iter.next().unwrap();
    assert_eq!(comment_3.get_description().unwrap().get_description_text(), "3 comment");
    assert_eq!(node_text(code, comment_3.get_owner().unwrap().syntax()), "aa = 1123");

    let comment_4 = comment_iter.next().unwrap();
    assert_eq!(comment_4.get_description().unwrap().get_description_text(), "4 comment");
    assert_eq!(node_text(code, comment_4.get_owner().unwrap().syntax()), "bb = 123");

    let comment_5 = comment_iter.next().unwrap();
    assert_eq!(comment_5.get_description().unwrap().get_description_text(), "5 comment");
    assert_eq!(node_text(code, comment_5.get_owner().unwrap().syntax()), "qi = 123");
}

#[test]
fn test_description() {
    let code = r#"
--- yeysysf
---@class Test
--- oooo
---@class Test2
---
---hhhh
---@field a string

        "#;
    let tree = LuaParser::parse(code, ParserConfig::default());
    let mut descriptions: Vec<LuaDocDescription> = Vec::new();
    all_nodes(*tree.get_chunk_node().syntax(), &mut descriptions);
    for d in descriptions {
        println!("{}", d.get_description_text());
    }
}

fn all_nodes<'a, N: LuaAstNode<'a>>(node: LuaSyntaxNode<'a>, out: &mut Vec<N>) {
    if let Some(n) = N::cast(node) {
        out.push(n);
    }
    for child in node.children() {
        all_nodes::<N>(child, out);
    }
}

#[test]
fn comment_owner_is_the_documented_statement() {
    let code = "---@class A\nlocal a = 1\nlocal b = 2 -- trailing\n\n-- alone\n\nlocal c = 3\n";
    let tree = LuaParser::parse(code, ParserConfig::default());
    let mut comments: Vec<LuaComment> = Vec::new();
    all_nodes(*tree.get_chunk_node().syntax(), &mut comments);
    assert_eq!(comments.len(), 3);
    match comments[0].get_owner() {
        Some(LuaAst::LuaLocalStat(stat)) => assert_eq!(stat.syntax().text_range().start_offset, 12),
        _ => panic!("the class comment documents the statement below it"),
    }
    match comments[1].get_owner() {
        Some(LuaAst::LuaLocalStat(stat)) => assert_eq!(stat.syntax().text_range().start_offset, 24),
        _ => panic!("a trailing comment documents the statement before it"),
    }
    assert!(comments[2].get_owner().is_none());
}

#[test]
fn cast_tag_names_its_expression() {
    let tree = LuaParser::parse("---@cast x string\nlocal y = x\n", ParserConfig::default());
    let cast = get_ast_node::<LuaDocTagCast>(&tree);
    match cast.get_key_expr() {
        Some(LuaExpr::NameExpr(name)) => assert_eq!(name.get_name_text(), Some(String::from("x"))),
        _ => panic!("the cast names x"),
    }
}
