//! Backend logic of a small desktop text editor: the persisted configuration
//! document (last opened file, MCP list) and the per-process session state,
//! with the file system kept outside and handed in as plain values.

pub mod config;
pub mod json;
pub mod paths;
pub mod session;
pub mod store;
