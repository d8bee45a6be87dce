//! The session state and the commands of the front end. A command never
//! touches a file: it is given what reading or writing gave, decides, and
//! hands back the reply together with the text to write to the configuration
//! file, where there is one.

use crate::config::{is_document_of, is_text_of, loaded, stored_config, stored_view, ConfigView};
use crate::store::{lemma_document_round_trip, load_config, path_view, save_config};
use serde_json::Value;
use vstd::prelude::*;

verus! {

/// What the running process remembers: the file that was opened last.
#[derive(Debug, Clone, PartialEq, Eq)]
pub struct AppState {
    pub last_file_path: Option<String>,
}

impl View for AppState {
    type V = Option<Seq<char>>;

    open spec fn view(&self) -> Option<Seq<char>> {
        path_view(&self.last_file_path)
    }
}

impl Default for AppState {
    fn default() -> (state: AppState)
        ensures
            state@ is None,
    {
        AppState { last_file_path: None }
    }
}

/// The reply to a file that could not be read, `reason` saying why.
pub open spec fn read_failure(reason: Seq<char>) -> Seq<char> {
    "Failed to read file: "@ + reason
}

/// The reply to a file that could not be written, `reason` saying why.
pub open spec fn save_failure(reason: Seq<char>) -> Seq<char> {
    "Failed to save file: "@ + reason
}

/// The greeting for `name`.
pub open spec fn greeting(name: Seq<char>) -> Seq<char> {
    "Hello, "@ + name + "! You've been greeted from Rust!"@
}

/// What the session remembers once `path` was asked to be opened: `path`
/// where the file could be read, and what it remembered before where not.
pub open spec fn session_after_open(session: Option<Seq<char>>, path: Seq<char>, read: bool) -> Option<
    Seq<char>,
> {
    if read {
        Some(path)
    } else {
        session
    }
}

/// The last file, given what the session remembers and the configuration that
/// is stored: the session comes first, the stored path counts only where the
/// session remembers nothing.
pub open spec fn last_file_in(session: Option<Seq<char>>, config: ConfigView) -> Option<Seq<char>> {
    match session {
        Some(path) => Some(path),
        None => config.last_file_path,
    }
}

/// The last file, given what the session remembers and the text of the
/// configuration file.
pub open spec fn last_file(session: Option<Seq<char>>, stored: Option<Seq<char>>) -> Option<
    Seq<char>,
> {
    last_file_in(session, stored_config(stored))
}

/// Greets `name`.
pub fn greet(name: &str) -> (text: String)
    ensures
        text@ == greeting(name@),
{
    String::from_str("Hello, ").concat(name).concat("! You've been greeted from Rust!")
}

/// Decides on a file that was asked to be opened. `outcome` is what reading
/// `path` gave: the content, or the reason why it failed; `stored` is the text
/// of the configuration file. Where the file was read, the session remembers
/// `path`, the reply is the content, and the second part of the result is the
/// text to write to the configuration file, with `path` as the last file and
/// the stored MCP list kept. Where it was not, the reply is the failure,
/// nothing changes and nothing is to be written.
pub fn open_file(
    path: String,
    state: &mut AppState,
    outcome: Result<String, String>,
    stored: Option<&str>,
) -> (r: (Result<String, String>, Option<String>))
    ensures
        final(state)@ == session_after_open(old(state)@, path@, outcome is Ok),
        match outcome {
            Ok(content) => {
                &&& r.0 matches Ok(reply) && reply@ == content@
                &&& r.1 matches Some(text) && is_text_of(
                    text@,
                    stored_config(stored_view(stored)).with_last_file_path(Some(path@)),
                )
            },
            Err(reason) => {
                &&& r.0 matches Err(reply) && reply@ == read_failure(reason@)
                &&& r.1 is None
            },
        },
{
    match outcome {
        Ok(content) => {
            let remembered = Some(path);
            let text = save_config(stored, &remembered);
            state.last_file_path = remembered;
            (Ok(content), Some(text))
        },
        Err(reason) => {
            (Err(String::from_str("Failed to read file: ").concat(reason.as_str())), None)
        },
    }
}

/// The reply to a file that was asked to be saved, `outcome` being what
/// writing it gave. Neither the session nor the configuration is touched.
pub fn save_file(outcome: Result<(), String>) -> (r: Result<(), String>)
    ensures
        match outcome {
            Ok(_) => r is Ok,
            Err(reason) => r matches Err(reply) && reply@ == save_failure(reason@),
        },
{
    match outcome {
        Ok(_) => Ok(()),
        Err(reason) => Err(String::from_str("Failed to save file: ").concat(reason.as_str())),
    }
}

/// The last file: what the session remembers, and otherwise what the
/// configuration file holds, which the session then remembers from here on.
/// Nothing is to be written.
pub fn get_last_file(state: &mut AppState, stored: Option<&str>) -> (path: Option<String>)
    ensures
        path_view(&path) == last_file(old(state)@, stored_view(stored)),
        final(state)@ == last_file(old(state)@, stored_view(stored)),
{
    if state.last_file_path.is_none() {
        state.last_file_path = load_config(stored);
    }
    state.last_file_path.clone()
}

/// The reply to a request for the content of the last file. `outcome` is
/// `None` where `get_last_file` knew of no file, and otherwise what reading
/// that file gave.
pub fn read_last_file(outcome: Option<Result<String, String>>) -> (r: Result<String, String>)
    ensures
        match outcome {
            None => r matches Err(reply) && reply@ == "No previous file"@,
            Some(Ok(content)) => r matches Ok(reply) && reply@ == content@,
            Some(Err(reason)) => r matches Err(reply) && reply@ == read_failure(reason@),
        },
{
    match outcome {
        None => Err(String::from_str("No previous file")),
        Some(Ok(content)) => Ok(content),
        Some(Err(reason)) => Err(
            String::from_str("Failed to read file: ").concat(reason.as_str()),
        ),
    }
}

/// Forgets the last file, in the session and in the configuration: the result
/// is the text to write to the configuration file, with no last file and the
/// stored MCP list kept.
pub fn reset_last_file(state: &mut AppState, stored: Option<&str>) -> (text: String)
    ensures
        final(state)@ is None,
        is_text_of(text@, stored_config(stored_view(stored)).with_last_file_path(None)),
{
    state.last_file_path = None;
    save_config(stored, &None)
}

/// Once a file was opened, it is the last file whatever the configuration
/// file holds: the session comes before what is stored.
pub proof fn lemma_session_precedence(
    session: Option<Seq<char>>,
    path: Seq<char>,
    stored: Option<Seq<char>>,
)
    ensures
        last_file(session_after_open(session, path, true), stored) == Some(path),
{
}

/// After a file was opened and the last file was then reset, there is no last
/// file: the session remembers none, and the configuration file holds none,
/// so that neither this process nor a later one finds it. `opened` is any
/// document written when `path` was opened over a file that held `stored`,
/// `cleared` any document that the reset wrote over `opened`.
pub proof fn lemma_reset_forgets(
    stored: Option<Seq<char>>,
    path: Seq<char>,
    opened: Value,
    cleared: Value,
)
    requires
        is_document_of(opened, stored_config(stored).with_last_file_path(Some(path))),
        is_document_of(cleared, loaded(Some(opened)).with_last_file_path(None)),
    ensures
        loaded(Some(opened)).last_file_path == Some(path),
        loaded(Some(cleared)).last_file_path is None,
        last_file_in(None, loaded(Some(cleared))) is None,
        loaded(Some(cleared)).mcp_list == loaded(Some(opened)).mcp_list,
{
    lemma_document_round_trip(opened, stored_config(stored).with_last_file_path(Some(path)));
    lemma_document_round_trip(cleared, loaded(Some(opened)).with_last_file_path(None));
}

} // verus!
