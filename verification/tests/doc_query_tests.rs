use emmylua_parser::parser::lua_parser::LuaParser;
use emmylua_parser::parser::parser_config::ParserConfig;
use emmylua_parser::syntax::node::doc::description_trait::LuaDocDescriptionOwner;
use emmylua_parser::syntax::node::doc::tag::{LuaDocTagClass, LuaDocTagField, LuaDocTagParam};
use emmylua_parser::syntax::node::doc::types::{LuaDocConditionalType, LuaDocMappedType};
use emmylua_parser::syntax::node::lua::expr::LuaIndexExpr;
use emmylua_parser::syntax::node::lua::index_key::LuaIndexKey;
use emmylua_parser::syntax::children::{LuaAstChildren, LuaAstTokenChildren};
use emmylua_parser::syntax::node::lua::LuaLocalStat;
use emmylua_parser::syntax::node::token::tokens::LuaKeywordToken;
use emmylua_parser::syntax::traits::{LuaAstNode, LuaAstToken};
use emmylua_parser::syntax::tree::syntax_tree::{LuaSyntaxNode, LuaSyntaxTree};

fn all_nodes<'a, N: LuaAstNode<'a>>(node: LuaSyntaxNode<'a>, out: &mut Vec<N>) {
    if let Some(n) = N::cast(node) {
        out.push(n);
    }
    for child in node.children() {
        all_nodes::<N>(child, out);
    }
}

fn nodes<'a, N: LuaAstNode<'a>>(tree: &'a LuaSyntaxTree) -> Vec<N> {
    let mut v = Vec::new();
    all_nodes(tree.get_red_root(), &mut v);
    v
}

fn parse(code: &str) -> LuaSyntaxTree {
    LuaParser::parse(code, ParserConfig::default())
}

#[test]
fn mapped_type_modifiers() {
    let tree = parse("---@type { readonly [K in T]?: string; }\nlocal a\n");
    let mapped = nodes::<LuaDocMappedType>(&tree);
    assert_eq!(mapped.len(), 1);
    assert!(mapped[0].is_readonly());
    assert!(mapped[0].is_optional());

    let tree2 = parse("---@type { -readonly [K in T]-?: string; }\nlocal b\n");
    let mapped2 = nodes::<LuaDocMappedType>(&tree2);
    assert_eq!(mapped2.len(), 1);
    assert!(!mapped2[0].is_readonly());
    assert!(!mapped2[0].is_optional());

    let tree3 = parse("---@type { [K in T]: string; }\nlocal c\n");
    let mapped3 = nodes::<LuaDocMappedType>(&tree3);
    assert_eq!(mapped3.len(), 1);
    assert!(!mapped3[0].is_readonly());
    assert!(!mapped3[0].is_optional());
}

#[test]
fn conditional_type_constructor_check() {
    let tree = parse("---@alias C T extends new fun() and A or B\n");
    let cond = nodes::<LuaDocConditionalType>(&tree);
    assert_eq!(cond.len(), 1);
    assert_eq!(cond[0].has_new(), Some(true));

    let tree2 = parse("---@alias D T extends fun() and A or B\n");
    let cond2 = nodes::<LuaDocConditionalType>(&tree2);
    assert_eq!(cond2.len(), 1);
    assert_eq!(cond2[0].has_new(), Some(false));

    let tree3 = parse("---@alias E T extends string and A or B\n");
    let cond3 = nodes::<LuaDocConditionalType>(&tree3);
    assert_eq!(cond3.len(), 1);
    assert_eq!(cond3[0].has_new(), None);
}

#[test]
fn class_reach_ends_at_the_next_class() {
    let tree = parse("---@class A\n---@field x number\n---@class B\nlocal a\n");
    let classes = nodes::<LuaDocTagClass>(&tree);
    let fields = nodes::<LuaDocTagField>(&tree);
    assert_eq!(classes.len(), 2);
    assert_eq!(fields.len(), 1);
    let reach = classes[0].get_effective_range();
    let own = classes[0].syntax().text_range();
    let field = fields[0].syntax().text_range();
    assert_eq!((own.start_offset, own.start_offset + own.length), (4, 11));
    assert_eq!((field.start_offset, field.start_offset + field.length), (16, 30));
    // up to the empty description that ends the field's line
    assert_eq!((reach.start_offset, reach.start_offset + reach.length), (4, 31));
    // the last class reaches only as far as its own tag
    let last = classes[1].get_effective_range();
    let last_own = classes[1].syntax().text_range();
    assert_eq!(last.start_offset, last_own.start_offset);
    assert_eq!(last.start_offset + last.length, last_own.start_offset + last_own.length);
}

#[test]
fn tag_descriptions() {
    let tree = parse("---@param x number the x\nlocal function f(x) end\n");
    let params = nodes::<LuaDocTagParam>(&tree);
    assert_eq!(params.len(), 1);
    let d = params[0].get_description().unwrap();
    assert_eq!(d.get_description_text(), "the x");
    assert_eq!(params[0].get_descriptions().len(), 1);

    let tree2 = parse("---hello\n---@class A\nlocal a\n");
    let classes = nodes::<LuaDocTagClass>(&tree2);
    assert_eq!(classes.len(), 1);
    // the class tag ends in an empty description of its own line
    assert_eq!(classes[0].get_description().unwrap().get_description_text(), "");
    let ds = classes[0].get_descriptions();
    assert_eq!(ds.len(), 2);
    assert_eq!(ds[0].get_description_text(), "hello");
    assert_eq!(ds[1].get_description_text(), "");
}

#[test]
fn index_keys() {
    let tree = parse("x = t.field\ny = t[\"s\"]\nz = t[1]\nw = t[a]\n");
    let index = nodes::<LuaIndexExpr>(&tree);
    assert_eq!(index.len(), 4);
    match index[0].get_index_key() {
        Some(LuaIndexKey::Name(n)) => assert_eq!(n.get_name_text(), "field"),
        _ => panic!("a name key"),
    }
    match index[1].get_index_key() {
        Some(LuaIndexKey::String(s)) => assert_eq!(s.get_value(), "s"),
        _ => panic!("a string key"),
    }
    match index[2].get_index_key() {
        Some(LuaIndexKey::Integer(i)) => assert_eq!(i.syntax().text_string(), "1"),
        _ => panic!("a number key"),
    }
    match index[3].get_index_key() {
        Some(LuaIndexKey::Expr(e)) => assert!(e.syntax().text_range().length == 1),
        _ => panic!("an expression key"),
    }
}

#[test]
fn children_walks_find_typed_children() {
    let tree = parse("local a = 1\nprint(a)\nlocal b = 2\n");
    let block = tree.get_chunk_node().get_block().unwrap();
    let mut walk = LuaAstChildren::<LuaLocalStat>::new(block.syntax());
    let first = walk.next().unwrap();
    let second = walk.next().unwrap();
    assert!(walk.next().is_none());
    assert!(walk.next().is_none());
    assert_eq!(first.syntax().text_range().start_offset, 0);
    assert_eq!(second.syntax().text_range().start_offset, 21);

    let mut tokens = LuaAstTokenChildren::<LuaKeywordToken>::new(first.syntax());
    let keyword = tokens.next().unwrap();
    assert_eq!(keyword.syntax().text_string(), "local");
    assert!(tokens.next().is_none());
}

#[test]
fn index_keys_are_readable_unless_a_comment_follows_the_bracket() {
    let tree = parse("x = t.b\ny = t[a]\nz = t[--[[c]] 1]\n");
    let index = nodes::<LuaIndexExpr>(&tree);
    assert_eq!(index.len(), 3);
    assert!(index[0].index_key_is_readable());
    assert!(index[1].index_key_is_readable());
    assert!(!index[2].index_key_is_readable());
}
