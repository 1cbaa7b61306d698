use emmylua_parser::lexer::lua_doc_lexer::LuaDocLexer;
use emmylua_parser::lexer::lua_doc_lexer::LuaDocLexerState;
use emmylua_parser::LuaTokenKind;
use emmylua_parser::SourceRange;

#[test]
fn test_lex() {
    let text = r#"-- comment"#;
    let mut lexer = LuaDocLexer::new(text);
    lexer.reset(LuaTokenKind::TkShortComment, SourceRange::new(0, 10));
    let k1 = lexer.lex();
    assert_eq!(k1, LuaTokenKind::TkNormalStart);
    let k2 = lexer.lex();
    let range = lexer.current_token_range();
    let text = text[range.start_offset..range.end_offset()].to_string();
    assert_eq!(text, " comment");
    assert_eq!(k2, LuaTokenKind::TkDocTrivia);
}

fn lex_all(text: &str, kind: LuaTokenKind, states: &[(usize, LuaDocLexerState)]) -> Vec<(LuaTokenKind, String)> {
    let mut lexer = LuaDocLexer::new(text);
    lexer.reset(kind, SourceRange::new(0, text.len()));
    let mut out = Vec::new();
    let mut n = 0;
    loop {
        for (at, st) in states {
            if *at == n {
                lexer.set_state(*st);
            }
        }
        let k = lexer.lex();
        if k == LuaTokenKind::TkEof {
            break;
        }
        let r = lexer.current_token_range();
        out.push((k, text[r.start_offset..r.end_offset()].to_string()));
        n += 1;
    }
    out
}

#[test]
fn doc_lexer_reads_a_param_tag() {
    let toks = lex_all(
        "---@param a? string|integer # the value",
        LuaTokenKind::TkShortComment,
        &[(1, LuaDocLexerState::Tag), (2, LuaDocLexerState::Normal)],
    );
    let expected = vec![
        (LuaTokenKind::TkDocStart, "---@"),
        (LuaTokenKind::TkTagParam, "param"),
        (LuaTokenKind::TkWhitespace, " "),
        (LuaTokenKind::TkName, "a"),
        (LuaTokenKind::TkDocQuestion, "?"),
        (LuaTokenKind::TkWhitespace, " "),
        (LuaTokenKind::TkName, "string"),
        (LuaTokenKind::TkDocOr, "|"),
        (LuaTokenKind::TkName, "integer"),
        (LuaTokenKind::TkWhitespace, " "),
        (LuaTokenKind::TkDocDetail, "# the value"),
    ];
    let got: Vec<(LuaTokenKind, &str)> = toks.iter().map(|(k, s)| (*k, s.as_str())).collect();
    assert_eq!(got, expected);
}

#[test]
fn doc_lexer_names_dots_and_templates() {
    let toks = lex_all("a.b... `T` x-y --", LuaTokenKind::TkShortComment, &[(0, LuaDocLexerState::Normal)]);
    let got: Vec<(LuaTokenKind, &str)> = toks.iter().map(|(k, s)| (*k, s.as_str())).collect();
    assert_eq!(
        got,
        vec![
            (LuaTokenKind::TkName, "a.b"),
            (LuaTokenKind::TkDots, "..."),
            (LuaTokenKind::TkWhitespace, " "),
            (LuaTokenKind::TkStringTemplateType, "`T`"),
            (LuaTokenKind::TkWhitespace, " "),
            (LuaTokenKind::TkName, "x-y"),
            (LuaTokenKind::TkWhitespace, " "),
            (LuaTokenKind::TkDocTrivia, "--"),
        ]
    );
}

#[test]
fn doc_lexer_long_comment_markers() {
    let toks = lex_all("--[[@as number]]", LuaTokenKind::TkLongComment, &[(1, LuaDocLexerState::Tag), (2, LuaDocLexerState::Normal)]);
    let got: Vec<(LuaTokenKind, &str)> = toks.iter().map(|(k, s)| (*k, s.as_str())).collect();
    assert_eq!(
        got,
        vec![
            (LuaTokenKind::TkDocLongStart, "--[[@"),
            (LuaTokenKind::TkTagAs, "as"),
            (LuaTokenKind::TkWhitespace, " "),
            (LuaTokenKind::TkName, "number"),
            (LuaTokenKind::TkLongCommentEnd, "]]"),
        ]
    );
}

#[test]
fn doc_lexer_version_and_region() {
    let toks = lex_all(">=5.1, JIT", LuaTokenKind::TkShortComment, &[(0, LuaDocLexerState::Version)]);
    let got: Vec<(LuaTokenKind, &str)> = toks.iter().map(|(k, s)| (*k, s.as_str())).collect();
    assert_eq!(
        got,
        vec![
            (LuaTokenKind::TkGe, ">="),
            (LuaTokenKind::TkDocVersionNumber, "5.1"),
            (LuaTokenKind::TkComma, ","),
            (LuaTokenKind::TkWhitespace, " "),
            (LuaTokenKind::TkDocVersionNumber, "JIT"),
        ]
    );
    let toks = lex_all("-- #region x", LuaTokenKind::TkShortComment, &[(1, LuaDocLexerState::NormalDescription)]);
    let got: Vec<(LuaTokenKind, &str)> = toks.iter().map(|(k, s)| (*k, s.as_str())).collect();
    assert_eq!(got[0], (LuaTokenKind::TkNormalStart, "--"));
    assert_eq!(got[2], (LuaTokenKind::TkDocRegion, "#region"));
}
