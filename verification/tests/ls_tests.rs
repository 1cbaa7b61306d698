use emmylua_parser::ls::require_path::{ModuleRename, dotted_module_path, replace, require_path_edit};
use emmylua_parser::ls::{
    can_process_during_init, get_file_type, get_symbol_kind, is_lua_file, lsp_watcher_globs, match_symbol,
    InitSignal, MessageKind, ServerMessageProcessor, SymbolKind, TextDocumentCapabilities, TextDocumentSyncKind,
    WatchedFileType, WorkspaceCapabilities, WorkspaceSymbolCapabilities, FileChange, WatchedFileAction, watched_file_action,
};

#[test]
fn only_responses_and_two_notifications_pass_during_init() {
    assert!(can_process_during_init(MessageKind::Response, "anything"));
    assert!(can_process_during_init(MessageKind::Notification, "$/cancelRequest"));
    assert!(can_process_during_init(MessageKind::Notification, "initialized"));
    assert!(!can_process_during_init(MessageKind::Notification, "textDocument/didOpen"));
    assert!(!can_process_during_init(MessageKind::Request, "initialized"));
}

#[test]
fn initialization_completes_once() {
    let mut p = ServerMessageProcessor::new();
    assert!(!p.check_initialization_complete(InitSignal::Pending));
    assert!(!p.is_initialization_complete());
    assert!(p.check_initialization_complete(InitSignal::Closed));
    assert!(p.is_initialization_complete());
    assert!(!p.check_initialization_complete(InitSignal::Ready));
}

#[test]
fn lua_files_by_extension() {
    let extensions = vec![String::from(".luau")];
    assert!(is_lua_file("/a/b.lua", &extensions));
    assert!(is_lua_file("/a/b.luau", &extensions));
    assert!(!is_lua_file("/a/b.txt", &extensions));
    assert!(!is_lua_file("lua", &Vec::new()));
}

#[test]
fn watched_file_types() {
    assert_eq!(get_file_type(".editorconfig"), WatchedFileType::Editorconfig);
    assert_eq!(get_file_type(".luarc.json"), WatchedFileType::Emmyrc);
    assert_eq!(get_file_type(".emmyrc.json"), WatchedFileType::Emmyrc);
    assert_eq!(get_file_type("main.lua"), WatchedFileType::Lua);
}

#[test]
fn symbol_matching_is_case_aware() {
    assert!(match_symbol("MyClass", "myc"));
    assert!(match_symbol("MyClass", "MyC"));
    assert!(!match_symbol("myclass", "MyC"));
    assert!(match_symbol("anything", ""));
    assert!(!match_symbol("abc", "abcd"));
}

#[test]
fn symbol_kinds_by_priority() {
    assert_eq!(get_symbol_kind(true, true, true), SymbolKind::Function);
    assert_eq!(get_symbol_kind(false, true, true), SymbolKind::Constant);
    assert_eq!(get_symbol_kind(false, false, true), SymbolKind::Class);
    assert_eq!(get_symbol_kind(false, false, false), SymbolKind::Variable);
}

#[test]
fn announced_capabilities() {
    let sync = TextDocumentCapabilities::text_document_sync();
    assert!(sync.open_close);
    assert_eq!(sync.change, TextDocumentSyncKind::Full);
    assert!(!sync.include_text_on_save);
    let filter = WorkspaceCapabilities::did_rename_filter();
    assert_eq!(filter.scheme, "file");
    assert_eq!(filter.glob, "**/*");
    assert!(filter.ignore_case);
    assert!(WorkspaceSymbolCapabilities::workspace_symbol_provider());
    assert_eq!(lsp_watcher_globs(), vec!["**/*.lua", "**/.editorconfig", "**/.luarc.json", "**/.emmyrc.json"]);
}

#[test]
fn replace_agrees_with_str_replace() {
    let cases = [
        ("a/b/c", "/", "."),
        ("abc", "", "-"),
        ("", "", "-"),
        ("aaaa", "aa", "b"),
        ("x.y.z", ".", "::"),
        ("no match", "zz", "q"),
    ];
    for (s, p, w) in cases {
        assert_eq!(replace(s, p, w), s.replace(p, w));
    }
}

#[test]
fn module_paths_are_dotted() {
    assert_eq!(dotted_module_path("a\\b/c"), "a.b.c");
    assert_eq!(dotted_module_path("plain"), "plain");
}

#[test]
fn require_paths_follow_renames() {
    let renames = vec![ModuleRename {
        old_module_path: String::from("lib.util"),
        new_module_path: String::from("lib.helpers.util"),
    }];
    assert_eq!(require_path_edit("lib/util", "/", false, &renames), Some(String::from("'lib/helpers/util'")));
    assert_eq!(require_path_edit("lib.util", ".", true, &renames), Some(String::from("'lib.helpers.util'")));
    // a suffix of the old path matches only when matching is not strict
    assert_eq!(require_path_edit("util", ".", false, &renames), Some(String::from("'lib.helpers.util'")));
    assert_eq!(require_path_edit("util", ".", true, &renames), None);
    assert_eq!(require_path_edit("other", ".", false, &renames), None);
}

#[test]
fn watched_file_events_decide_actions() {
    let lua = Some(WatchedFileType::Lua);
    assert_eq!(
        watched_file_action(lua, FileChange::Deleted, false, true, false),
        WatchedFileAction::Remove { clear_pushed_diagnostics: true }
    );
    assert_eq!(
        watched_file_action(lua, FileChange::Deleted, true, true, true),
        WatchedFileAction::Remove { clear_pushed_diagnostics: false }
    );
    assert_eq!(watched_file_action(lua, FileChange::Changed, false, true, true), WatchedFileAction::Reload);
    assert_eq!(watched_file_action(lua, FileChange::Created, false, true, true), WatchedFileAction::Reload);
    // open files come from the editor, files outside the workspace are ignored
    assert_eq!(watched_file_action(lua, FileChange::Changed, true, true, true), WatchedFileAction::Skip);
    assert_eq!(watched_file_action(lua, FileChange::Changed, false, false, true), WatchedFileAction::Skip);
    assert_eq!(watched_file_action(lua, FileChange::Other, false, true, true), WatchedFileAction::Skip);
    assert_eq!(
        watched_file_action(Some(WatchedFileType::Editorconfig), FileChange::Changed, false, false, true),
        WatchedFileAction::UpdateEditorconfig
    );
    assert_eq!(
        watched_file_action(Some(WatchedFileType::Emmyrc), FileChange::Created, false, false, true),
        WatchedFileAction::UpdateEmmyrc
    );
    assert_eq!(
        watched_file_action(Some(WatchedFileType::Emmyrc), FileChange::Deleted, false, false, true),
        WatchedFileAction::Skip
    );
    assert_eq!(watched_file_action(None, FileChange::Changed, false, true, true), WatchedFileAction::Skip);
}
