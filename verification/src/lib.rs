//! An offline index of command-line cheatsheets: parsers that turn pages
//! and help texts into records, the tokenizing and escaping of indexed
//! texts and queries, and the steps that keep a search index in line with
//! the records.

pub mod api;
pub mod archive;
pub mod capture;
pub mod config;
pub mod learn;
pub mod listing;
pub mod maintenance;
pub mod query;
pub mod search;
pub mod storage;
pub mod text;
pub mod tui;
pub mod update;
