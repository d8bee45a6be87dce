//! The configuration store, with the file itself kept outside: whoever calls
//! reads the file and hands its text in, and writes the text that comes back.
//! Every update is a read-modify-write, so that setting one field leaves the
//! other as it was stored.

use crate::config::{
    document_config, is_document_of, is_text_of, lemma_keys_differ, list_key, loaded, path_key,
    stored_config, stored_view, AppConfig, ConfigView,
};
use crate::json::{json_parse, json_text, members_of, node_of, parse, render};
use serde_json::Value;
use vstd::prelude::*;

verus! {

/// The path as a mathematical value.
pub open spec fn path_view(path: &Option<String>) -> Option<Seq<char>> {
    match path {
        Some(path) => Some(path@),
        None => None,
    }
}

/// Loads the configuration from the text of the file, `None` standing for a
/// file that could not be read. Never fails: a missing file, text that is no
/// JSON and a document of another shape all give the configuration with both
/// fields absent.
pub fn load_full_config(stored: Option<&str>) -> (config: AppConfig)
    ensures
        config@ == stored_config(stored_view(stored)),
        stored is None ==> config@ == ConfigView::absent(),
{
    match stored {
        Some(text) => match parse(text) {
            Some(doc) => match AppConfig::from_document(&doc) {
                Some(config) => config,
                None => AppConfig::default(),
            },
            None => AppConfig::default(),
        },
        None => AppConfig::default(),
    }
}

/// The text to write to the file for `config`: the whole document, in full.
pub fn save_full_config(config: &AppConfig) -> (text: String)
    ensures
        is_text_of(text@, config@),
{
    let doc = config.to_document();
    let text = render(&doc);
    assert(is_document_of(doc, config@) && text@ == json_text(doc));
    text
}

/// Sets the last file path and leaves the stored MCP list as it is: the text
/// to write, given the text that the file holds now.
pub fn save_config(stored: Option<&str>, path: &Option<String>) -> (text: String)
    ensures
        is_text_of(text@, stored_config(stored_view(stored)).with_last_file_path(path_view(path))),
{
    let mut config = load_full_config(stored);
    config.last_file_path = path.clone();
    save_full_config(&config)
}

/// The last file path that the file holds.
pub fn load_config(stored: Option<&str>) -> (path: Option<String>)
    ensures
        path_view(&path) == stored_config(stored_view(stored)).last_file_path,
{
    load_full_config(stored).last_file_path
}

/// Sets the MCP list and leaves the stored last file path as it is: the text
/// to write, given the text that the file holds now.
pub fn save_mcp_list(stored: Option<&str>, mcp_list: Value) -> (text: String)
    ensures
        is_text_of(text@, stored_config(stored_view(stored)).with_mcp_list(Some(mcp_list))),
{
    let mut config = load_full_config(stored);
    config.mcp_list = Some(mcp_list);
    save_full_config(&config)
}

/// The MCP list that the file holds.
pub fn load_mcp_list(stored: Option<&str>) -> (list: Option<Value>)
    ensures
        list == stored_config(stored_view(stored)).mcp_list,
{
    load_full_config(stored).mcp_list
}

/// A document that was written for a configuration reads back as that
/// configuration, settled: both fields come back as they were written, but
/// for an MCP list that is the JSON `null`, which comes back absent.
pub proof fn lemma_document_round_trip(doc: Value, config: ConfigView)
    requires
        is_document_of(doc, config),
    ensures
        document_config(doc) == Some(config.settled()),
        loaded(Some(doc)) == config.settled(),
{
    lemma_keys_differ();
    assert(members_of(doc).contains_key(path_key()));
    assert(members_of(doc).contains_key(list_key()));
}

/// Where `serde_json` parses the text that it rendered for `doc` back to
/// `doc`, the file that holds that text is loaded as the document is.
pub proof fn lemma_text_round_trip(doc: Value, config: ConfigView)
    requires
        is_document_of(doc, config),
        json_parse(json_text(doc)) == Some(doc),
    ensures
        stored_config(Some(json_text(doc))) == config.settled(),
{
    lemma_document_round_trip(doc, config);
}

/// An MCP list that is saved is the MCP list that is loaded afterwards,
/// whatever the file held before. `doc` is any document written by
/// `save_mcp_list` for `list` over a file that held `stored`. The JSON `null`
/// is left out: it is stored as `null` and loads as absent.
pub proof fn lemma_mcp_list_round_trip(stored: Option<Seq<char>>, list: Value, doc: Value)
    requires
        is_document_of(doc, stored_config(stored).with_mcp_list(Some(list))),
        !(node_of(list) is Null),
    ensures
        loaded(Some(doc)).mcp_list == Some(list),
        json_parse(json_text(doc)) == Some(doc) ==> stored_config(Some(json_text(doc))).mcp_list
            == Some(list),
{
    lemma_document_round_trip(doc, stored_config(stored).with_mcp_list(Some(list)));
}

/// Setting the last file path and then the MCP list leaves the path as it
/// was set: `first` is any document written for the first update over a file
/// that held `stored`, `second` any document written for the second update
/// over `first`.
pub proof fn lemma_path_survives_list(
    stored: Option<Seq<char>>,
    path: Option<Seq<char>>,
    list: Value,
    first: Value,
    second: Value,
)
    requires
        is_document_of(first, stored_config(stored).with_last_file_path(path)),
        is_document_of(second, loaded(Some(first)).with_mcp_list(Some(list))),
    ensures
        loaded(Some(first)).last_file_path == path,
        loaded(Some(second)).last_file_path == path,
{
    lemma_document_round_trip(first, stored_config(stored).with_last_file_path(path));
    lemma_document_round_trip(second, loaded(Some(first)).with_mcp_list(Some(list)));
}

/// Setting the MCP list and then the last file path leaves the list as it was
/// set: `first` and `second` as in `lemma_path_survives_list`, the two updates
/// in the other order. The JSON `null` is left out as a list: it loads as
/// absent.
pub proof fn lemma_list_survives_path(
    stored: Option<Seq<char>>,
    list: Value,
    path: Option<Seq<char>>,
    first: Value,
    second: Value,
)
    requires
        is_document_of(first, stored_config(stored).with_mcp_list(Some(list))),
        is_document_of(second, loaded(Some(first)).with_last_file_path(path)),
        !(node_of(list) is Null),
    ensures
        loaded(Some(first)).mcp_list == Some(list),
        loaded(Some(second)).mcp_list == Some(list),
        loaded(Some(second)).last_file_path == path,
{
    lemma_document_round_trip(first, stored_config(stored).with_mcp_list(Some(list)));
    lemma_document_round_trip(second, loaded(Some(first)).with_last_file_path(path));
}

} // verus!
