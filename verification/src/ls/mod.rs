pub mod require_path;

use vstd::prelude::*;

use crate::text::strings::{str_to_chars, vec_eq_str};

verus! {

// ---------------------------------------------------------------------------
// Capabilities the language server announces
// ---------------------------------------------------------------------------

/// How the client sends document changes.
#[derive(Debug, Clone, Copy, PartialEq, Eq, Structural)]
pub enum TextDocumentSyncKind {
    None_,
    Full,
    Incremental,
}

/// The text document synchronisation the server asks for.
#[derive(Debug, Clone, Copy, PartialEq, Eq, Structural)]
pub struct TextDocumentSyncSettings {
    pub open_close: bool,
    pub change: TextDocumentSyncKind,
    pub include_text_on_save: bool,
}

/// The text document capabilities of the server.
pub struct TextDocumentCapabilities;

impl TextDocumentCapabilities {
    /// Open and close notifications, full text on change, save
    /// notifications without the text.
    pub fn text_document_sync() -> (s: TextDocumentSyncSettings)
        ensures
            s == (TextDocumentSyncSettings {
                open_close: true,
                change: TextDocumentSyncKind::Full,
                include_text_on_save: false,
            }),
    {
        TextDocumentSyncSettings { open_close: true, change: TextDocumentSyncKind::Full, include_text_on_save: false }
    }
}

/// The files whose renames the server wants to hear of.
pub struct FileRenameFilter {
    pub scheme: String,
    pub glob: String,
    pub ignore_case: bool,
}

/// The workspace capabilities of the server.
pub struct WorkspaceCapabilities;

impl WorkspaceCapabilities {
    /// Renames of any file (`**/*`) under the `file` scheme, ignoring case.
    pub fn did_rename_filter() -> (f: FileRenameFilter)
        ensures
            f.scheme@ == "file"@,
            f.glob@ == "**/*"@,
            f.ignore_case,
    {
        let mut scheme = String::new();
        crate::text::strings::push_str(&mut scheme, "file");
        let mut glob = String::new();
        crate::text::strings::push_str(&mut glob, "**/*");
        FileRenameFilter { scheme, glob, ignore_case: true }
    }
}

/// The workspace symbol capability of the server.
pub struct WorkspaceSymbolCapabilities;

impl WorkspaceSymbolCapabilities {
    /// The server answers workspace symbol requests.
    pub fn workspace_symbol_provider() -> (b: bool)
        ensures
            b,
    {
        true
    }
}

/// The file patterns the server asks a client that can watch files to watch.
pub fn lsp_watcher_globs() -> (v: Vec<&'static str>)
    ensures
        v@.len() == 4,
        v@[0]@ == "**/*.lua"@,
        v@[1]@ == "**/.editorconfig"@,
        v@[2]@ == "**/.luarc.json"@,
        v@[3]@ == "**/.emmyrc.json"@,
{
    vec!["**/*.lua", "**/.editorconfig", "**/.luarc.json", "**/.emmyrc.json"]
}

// ---------------------------------------------------------------------------
// Messages during initialization
// ---------------------------------------------------------------------------

/// The three kinds of messages of the protocol.
#[derive(Debug, Clone, Copy, PartialEq, Eq, Structural)]
pub enum MessageKind {
    Request,
    Response,
    Notification,
}

/// What the initialization task has signalled.
#[derive(Debug, Clone, Copy, PartialEq, Eq, Structural)]
pub enum InitSignal {
    /// It finished.
    Ready,
    /// Nothing yet.
    Pending,
    /// It ended without a word.
    Closed,
}

/// Whether a message can be handled while the server initializes: every
/// response, and the notifications `$/cancelRequest` and `initialized`.
pub fn can_process_during_init(kind: MessageKind, method: &str) -> (b: bool)
    ensures
        b == (kind == MessageKind::Response || (kind == MessageKind::Notification && (method@
            == "$/cancelRequest"@ || method@ == "initialized"@))),
{
    match kind {
        MessageKind::Response => true,
        MessageKind::Notification => {
            let m = str_to_chars(method);
            vec_eq_str(&m, "$/cancelRequest") || vec_eq_str(&m, "initialized")
        },
        MessageKind::Request => false,
    }
}

/// Whether the server has finished initializing.
pub struct ServerMessageProcessor {
    initialization_complete: bool,
}

impl ServerMessageProcessor {
    pub closed spec fn spec_complete(&self) -> bool {
        self.initialization_complete
    }

    pub fn new() -> (p: ServerMessageProcessor)
        ensures
            !p.spec_complete(),
    {
        ServerMessageProcessor { initialization_complete: false }
    }

    pub fn is_initialization_complete(&self) -> (b: bool)
        ensures
            b == self.spec_complete(),
    {
        self.initialization_complete
    }

    /// Takes the signal of the initialization task: once it has finished (or
    /// ended), initialization is complete, and this says so once, so that
    /// the messages held back can be handled.
    pub fn check_initialization_complete(&mut self, signal: InitSignal) -> (held_back_ready: bool)
        ensures
            old(self).spec_complete() ==> !held_back_ready && final(self).spec_complete(),
            !old(self).spec_complete() ==> held_back_ready == (signal != InitSignal::Pending)
                && final(self).spec_complete() == held_back_ready,
    {
        if !self.initialization_complete {
            match signal {
                InitSignal::Ready | InitSignal::Closed => {
                    self.initialization_complete = true;
                    return true;
                },
                InitSignal::Pending => {},
            }
        }
        false
    }
}

// ---------------------------------------------------------------------------
// Files
// ---------------------------------------------------------------------------

/// Whether `s` ends with `suffix`.
pub open spec fn spec_ends_with(s: Seq<char>, suffix: Seq<char>) -> bool {
    suffix.len() <= s.len() && s.subrange(s.len() - suffix.len(), s.len() as int) == suffix
}

fn ends_with(s: &Vec<char>, suffix: &str) -> (b: bool)
    ensures
        b == spec_ends_with(s@, suffix@),
{
    let n = suffix.unicode_len();
    if n > s.len() {
        return false;
    }
    crate::text::strings::chars_eq_str(s, s.len() - n, s.len(), suffix)
}

/// Whether a file is a Lua file: its name ends with `.lua` or with one of
/// the extensions the client configured.
pub fn is_lua_file(file_name: &str, extensions: &Vec<String>) -> (b: bool)
    ensures
        b == (spec_ends_with(file_name@, ".lua"@) || exists|i: int|
            0 <= i < extensions@.len() && spec_ends_with(file_name@, #[trigger] extensions@[i]@)),
{
    let name = str_to_chars(file_name);
    if ends_with(&name, ".lua") {
        return true;
    }
    let mut i: usize = 0;
    while i < extensions.len()
        invariant
            i <= extensions@.len(),
            name@ == file_name@,
            !spec_ends_with(file_name@, ".lua"@),
            forall|j: int| 0 <= j < i ==> !spec_ends_with(file_name@, #[trigger] extensions@[j]@),
        decreases extensions@.len() - i,
    {
        if ends_with(&name, extensions[i].as_str()) {
            return true;
        }
        i += 1;
    }
    false
}

/// The kinds of watched files.
#[derive(Debug, Clone, Copy, PartialEq, Eq, Structural)]
pub enum WatchedFileType {
    Editorconfig,
    Emmyrc,
    Lua,
}

/// The kind of a watched file, by its name.
pub fn get_file_type(file_name: &str) -> (t: WatchedFileType)
    ensures
        t == (if file_name@ == ".editorconfig"@ {
            WatchedFileType::Editorconfig
        } else if file_name@ == ".emmyrc.json"@ || file_name@ == ".luarc.json"@ {
            WatchedFileType::Emmyrc
        } else {
            WatchedFileType::Lua
        }),
{
    let name = str_to_chars(file_name);
    if vec_eq_str(&name, ".editorconfig") {
        WatchedFileType::Editorconfig
    } else if vec_eq_str(&name, ".emmyrc.json") || vec_eq_str(&name, ".luarc.json") {
        WatchedFileType::Emmyrc
    } else {
        WatchedFileType::Lua
    }
}

/// How a watched file changed.
#[derive(Debug, Clone, Copy, PartialEq, Eq, Structural)]
pub enum FileChange {
    Created,
    Changed,
    Deleted,
    /// a change kind the server does not know
    Other,
}

/// What the server does for one watched-file event.
#[derive(Debug, Clone, Copy, PartialEq, Eq, Structural)]
pub enum WatchedFileAction {
    /// Drop the file from the analysis, and clear the diagnostics pushed for
    /// it when the client does not pull them.
    Remove { clear_pushed_diagnostics: bool },
    /// Read the file again and analyse it.
    Reload,
    /// Nothing to do for this event.
    Skip,
    /// Read the changed `.editorconfig` again.
    UpdateEditorconfig,
    /// Reload the configuration in the changed file's directory.
    UpdateEmmyrc,
}

/// The action for a watched-file event: a deleted Lua file leaves the
/// analysis; a created or changed one is read again when it is a workspace
/// file not open in the editor (the editor sends open files itself); a
/// changed or created config file is read again; deleted config files are
/// ignored.
pub open spec fn spec_watched_file_action(
    file_type: Option<WatchedFileType>,
    change: FileChange,
    is_open: bool,
    is_workspace_file: bool,
    supports_pull_diagnostic: bool,
) -> WatchedFileAction {
    match file_type {
        Some(WatchedFileType::Lua) => if change == FileChange::Deleted {
            WatchedFileAction::Remove { clear_pushed_diagnostics: !supports_pull_diagnostic }
        } else if !is_open && is_workspace_file && (change == FileChange::Created || change == FileChange::Changed) {
            WatchedFileAction::Reload
        } else {
            WatchedFileAction::Skip
        },
        Some(WatchedFileType::Editorconfig) => if change == FileChange::Deleted {
            WatchedFileAction::Skip
        } else {
            WatchedFileAction::UpdateEditorconfig
        },
        Some(WatchedFileType::Emmyrc) => if change == FileChange::Deleted {
            WatchedFileAction::Skip
        } else {
            WatchedFileAction::UpdateEmmyrc
        },
        None => WatchedFileAction::Skip,
    }
}

/// The action for one watched-file event.
pub fn watched_file_action(
    file_type: Option<WatchedFileType>,
    change: FileChange,
    is_open: bool,
    is_workspace_file: bool,
    supports_pull_diagnostic: bool,
) -> (a: WatchedFileAction)
    ensures
        a == spec_watched_file_action(file_type, change, is_open, is_workspace_file, supports_pull_diagnostic),
{
    match file_type {
        Some(WatchedFileType::Lua) => {
            if change == FileChange::Deleted {
                return WatchedFileAction::Remove { clear_pushed_diagnostics: !supports_pull_diagnostic };
            }
            if is_open || !is_workspace_file {
                return WatchedFileAction::Skip;
            }
            match change {
                FileChange::Created | FileChange::Changed => WatchedFileAction::Reload,
                _ => WatchedFileAction::Skip,
            }
        },
        Some(WatchedFileType::Editorconfig) => {
            if change == FileChange::Deleted {
                WatchedFileAction::Skip
            } else {
                WatchedFileAction::UpdateEditorconfig
            }
        },
        Some(WatchedFileType::Emmyrc) => {
            if change == FileChange::Deleted {
                WatchedFileAction::Skip
            } else {
                WatchedFileAction::UpdateEmmyrc
            }
        },
        None => WatchedFileAction::Skip,
    }
}

// ---------------------------------------------------------------------------
// Workspace symbols
// ---------------------------------------------------------------------------

/// The kinds of symbols the server reports.
#[derive(Debug, Clone, Copy, PartialEq, Eq, Structural)]
pub enum SymbolKind {
    Function,
    Constant,
    Class,
    Variable,
}

/// The kind of a symbol from what its type is: a function, a constant, a
/// definition, or else a variable.
pub fn get_symbol_kind(is_function: bool, is_const: bool, is_def: bool) -> (k: SymbolKind)
    ensures
        k == (if is_function {
            SymbolKind::Function
        } else if is_const {
            SymbolKind::Constant
        } else if is_def {
            SymbolKind::Class
        } else {
            SymbolKind::Variable
        }),
{
    if is_function {
        SymbolKind::Function
    } else if is_const {
        SymbolKind::Constant
    } else if is_def {
        SymbolKind::Class
    } else {
        SymbolKind::Variable
    }
}

/// Whether a char is uppercase, as `char::is_uppercase` says (the Unicode
/// `Uppercase` property).
pub uninterp spec fn unicode_is_uppercase(c: char) -> bool;

/// The lowercase of a text, as `str::to_lowercase` gives it.
pub uninterp spec fn unicode_to_lowercase(s: Seq<char>) -> Seq<char>;

/// `char::is_uppercase`: the result is the Unicode `Uppercase` property of
/// the char, which is a function of the char alone.
#[verifier::external_body]
fn char_is_uppercase(c: char) -> (b: bool)
    ensures
        b == unicode_is_uppercase(c),
{
    c.is_uppercase()
}

/// `str::to_lowercase`: the result is the Unicode lowercase mapping of the
/// text, a function of the text alone.
#[verifier::external_body]
fn str_to_lowercase(s: &str) -> (r: String)
    ensures
        r@ == unicode_to_lowercase(s@),
{
    s.to_lowercase()
}

/// Whether `needle` occurs in `hay` at some position.
pub open spec fn spec_contains(hay: Seq<char>, needle: Seq<char>) -> bool {
    exists|i: int| 0 <= i && i + needle.len() <= hay.len() && #[trigger] hay.subrange(i, i + needle.len()) == needle
}

fn contains(hay: &Vec<char>, needle: &str) -> (b: bool)
    ensures
        b == spec_contains(hay@, needle@),
{
    let n = needle.unicode_len();
    if n > hay.len() {
        assert forall|i: int| 0 <= i && i + needle@.len() <= hay@.len() implies #[trigger] hay@.subrange(i, i + needle@.len()) != needle@ by {}
        return false;
    }
    let len = hay.len();
    let last = len - n;
    let mut i: usize = 0;
    loop
        invariant
            len == hay@.len(),
            n == needle@.len(),
            n <= hay@.len(),
            last == hay@.len() - n,
            i <= last,
            forall|j: int| 0 <= j < i ==> #[trigger] hay@.subrange(j, j + n) != needle@,
        ensures
            forall|j: int| 0 <= j <= last ==> #[trigger] hay@.subrange(j, j + n) != needle@,
        decreases last - i,
    {
        if crate::text::strings::chars_eq_str(hay, i, i + n, needle) {
            return true;
        }
        if i == last {
            break;
        }
        i += 1;
    }
    assert forall|j: int| 0 <= j && j + needle@.len() <= hay@.len() implies #[trigger] hay@.subrange(j, j + needle@.len()) != needle@ by {
        assert(j <= last);
    }
    false
}

/// Whether a symbol's name matches a query: case-sensitively when the query
/// has an uppercase char, and ignoring case otherwise.
pub fn match_symbol(text: &str, query: &str) -> (b: bool)
    ensures
        b == if exists|i: int| 0 <= i < query@.len() && unicode_is_uppercase(#[trigger] query@[i]) {
            spec_contains(text@, query@)
        } else {
            spec_contains(unicode_to_lowercase(text@), unicode_to_lowercase(query@))
        },
{
    let q = str_to_chars(query);
    let mut has_upper = false;
    let mut i: usize = 0;
    while i < q.len()
        invariant
            i <= q@.len(),
            q@ == query@,
            has_upper == exists|j: int| 0 <= j < i && unicode_is_uppercase(#[trigger] query@[j]),
        decreases q@.len() - i,
    {
        if char_is_uppercase(q[i]) {
            has_upper = true;
        }
        i += 1;
    }
    if has_upper {
        let t = str_to_chars(text);
        contains(&t, query)
    } else {
        let lower_text = str_to_lowercase(text);
        let lower_query = str_to_lowercase(query);
        let t = str_to_chars(lower_text.as_str());
        contains(&t, lower_query.as_str())
    }
}

} // verus!
