//! The persisted configuration: a JSON object with the two members
//! `last_file_path` and `mcp_list`, read leniently and rewritten in full.

use crate::json::{
    json_parse, json_text, member, members_of, node_of, null_value, set_member, text_value, Node,
};
use serde_json::Value;
use vstd::prelude::*;

verus! {

/// The configuration as the rest of the program sees it.
#[derive(Debug, Clone, PartialEq)]
pub struct AppConfig {
    /// The file that was opened last, absent when none is remembered.
    pub last_file_path: Option<String>,
    /// The MCP list, kept as the JSON value that the front end handed over.
    pub mcp_list: Option<Value>,
}

/// The mathematical content of an `AppConfig`.
pub struct ConfigView {
    pub last_file_path: Option<Seq<char>>,
    pub mcp_list: Option<Value>,
}

impl ConfigView {
    /// The configuration with both fields absent.
    pub open spec fn absent() -> ConfigView {
        ConfigView { last_file_path: None, mcp_list: None }
    }

    /// This configuration with another last file path.
    pub open spec fn with_last_file_path(self, path: Option<Seq<char>>) -> ConfigView {
        ConfigView { last_file_path: path, mcp_list: self.mcp_list }
    }

    /// This configuration with another MCP list.
    pub open spec fn with_mcp_list(self, list: Option<Value>) -> ConfigView {
        ConfigView { last_file_path: self.last_file_path, mcp_list: list }
    }

    /// This configuration as it is read back once written: an MCP list that
    /// is the JSON `null` is written as `null`, and `null` reads as absent.
    pub open spec fn settled(self) -> ConfigView {
        match self.mcp_list {
            Some(list) if node_of(list) is Null => self.with_mcp_list(None),
            _ => self,
        }
    }
}

impl View for AppConfig {
    type V = ConfigView;

    open spec fn view(&self) -> ConfigView {
        ConfigView {
            last_file_path: match self.last_file_path {
                Some(path) => Some(path@),
                None => None,
            },
            mcp_list: self.mcp_list,
        }
    }
}

impl Default for AppConfig {
    fn default() -> (r: AppConfig)
        ensures
            r@ == ConfigView::absent(),
    {
        AppConfig { last_file_path: None, mcp_list: None }
    }
}

/// The name of the member that holds the last file path.
pub open spec fn path_key() -> Seq<char> {
    "last_file_path"@
}

/// The name of the member that holds the MCP list.
pub open spec fn list_key() -> Seq<char> {
    "mcp_list"@
}

/// The two member names differ.
pub proof fn lemma_keys_differ()
    ensures
        path_key() != list_key(),
{
    reveal_strlit("last_file_path");
    reveal_strlit("mcp_list");
    assert(path_key().len() == 14);
    assert(list_key().len() == 8);
}

/// Whether the member under `key` is acceptable as a last file path: missing,
/// `null` or a string.
pub open spec fn path_member_fits(members: Map<Seq<char>, Value>, key: Seq<char>) -> bool {
    members.contains_key(key) ==> node_of(members[key]) is Null || node_of(members[key]) is Text
}

/// The string under `key`, absent where the member is missing or not a string.
pub open spec fn text_member(members: Map<Seq<char>, Value>, key: Seq<char>) -> Option<Seq<char>> {
    if members.contains_key(key) {
        match node_of(members[key]) {
            Node::Text(text) => Some(text),
            _ => None,
        }
    } else {
        None
    }
}

/// The value under `key`, absent where the member is missing or `null`.
pub open spec fn value_member(members: Map<Seq<char>, Value>, key: Seq<char>) -> Option<Value> {
    if members.contains_key(key) && !(node_of(members[key]) is Null) {
        Some(members[key])
    } else {
        None
    }
}

/// The configuration that a JSON document stands for. A document has the
/// expected shape when it is an object whose `last_file_path`, if there is
/// one, is `null` or a string; `mcp_list` may be any value, and any other
/// member is ignored. `None` for every other document.
pub open spec fn document_config(doc: Value) -> Option<ConfigView> {
    if node_of(doc) is Record && path_member_fits(members_of(doc), path_key()) {
        Some(
            ConfigView {
                last_file_path: text_member(members_of(doc), path_key()),
                mcp_list: value_member(members_of(doc), list_key()),
            },
        )
    } else {
        None
    }
}

/// Whether `doc` is a document that is written for `config`: an object with
/// exactly the two members, each `null` where the field is absent.
pub open spec fn is_document_of(doc: Value, config: ConfigView) -> bool {
    &&& node_of(doc) is Record
    &&& members_of(doc).dom() == set![path_key(), list_key()]
    &&& match config.last_file_path {
        Some(path) => node_of(members_of(doc)[path_key()]) == Node::Text(path),
        None => node_of(members_of(doc)[path_key()]) is Null,
    }
    &&& match config.mcp_list {
        Some(list) => members_of(doc)[list_key()] == list,
        None => node_of(members_of(doc)[list_key()]) is Null,
    }
}

/// What loading makes of a parsed document, or of the lack of one: the
/// document's configuration where it has the expected shape, and both fields
/// absent in every other case.
pub open spec fn loaded(doc: Option<Value>) -> ConfigView {
    match doc {
        Some(doc) => match document_config(doc) {
            Some(config) => config,
            None => ConfigView::absent(),
        },
        None => ConfigView::absent(),
    }
}

/// What loading makes of the configuration file: `stored` is its text, or
/// `None` where the file could not be read.
pub open spec fn stored_config(stored: Option<Seq<char>>) -> ConfigView {
    match stored {
        Some(text) => loaded(json_parse(text)),
        None => ConfigView::absent(),
    }
}

/// Whether `text` is what is written to the file for `config`: the rendering
/// of a document that is written for it.
pub open spec fn is_text_of(text: Seq<char>, config: ConfigView) -> bool {
    exists|doc: Value| is_document_of(doc, config) && text == #[trigger] json_text(doc)
}

/// The text of the file as a mathematical value.
pub open spec fn stored_view(stored: Option<&str>) -> Option<Seq<char>> {
    match stored {
        Some(text) => Some(text@),
        None => None,
    }
}

impl AppConfig {
    /// Reads a configuration out of a parsed document, `None` where the
    /// document has not the expected shape.
    pub fn from_document(doc: &Value) -> (r: Option<AppConfig>)
        ensures
            match r {
                Some(config) => document_config(*doc) == Some(config@),
                None => document_config(*doc) is None,
            },
    {
        if !doc.is_object() {
            return None;
        }
        let last_file_path = match member(doc, "last_file_path") {
            None => None,
            Some(found) => {
                if found.is_null() {
                    None
                } else {
                    match found.as_str() {
                        Some(path) => Some(path.to_owned()),
                        None => {
                            return None;
                        },
                    }
                }
            },
        };
        let mcp_list = match member(doc, "mcp_list") {
            None => None,
            Some(found) => {
                if found.is_null() {
                    None
                } else {
                    Some(found.clone())
                }
            },
        };
        Some(AppConfig { last_file_path, mcp_list })
    }

    /// Builds the document that is written for this configuration.
    pub fn to_document(&self) -> (doc: Value)
        ensures
            is_document_of(doc, self@),
    {
        let path_value = match &self.last_file_path {
            Some(path) => text_value(path.clone()),
            None => null_value(),
        };
        let list_value = match &self.mcp_list {
            Some(list) => list.clone(),
            None => null_value(),
        };
        let mut doc = null_value();
        set_member(&mut doc, "last_file_path", path_value);
        set_member(&mut doc, "mcp_list", list_value);
        proof {
            lemma_keys_differ();
            assert(members_of(doc).dom() =~= set![path_key(), list_key()]);
        }
        doc
    }
}

} // verus!
