//! A verified core for a tool-augmented terminal chat agent.
//!
//! The library holds the logic that mediates between a language model and a
//! fixed set of side-effecting tools: the agent dispatch loop, the tool
//! registry, and the file-edit engine with its create-vs-patch decision tree.
//! All input/output (filesystem, network, the model itself) is performed by
//! the surrounding program; the library computes every decision and every
//! piece of content from plain values and states what it computes in
//! contracts.

pub mod agent;
pub mod edit_file;
mod errors;
pub mod list_files;
pub mod messages;
pub mod registry;
pub mod markdown_to_html;
pub mod read_file;
pub mod scraper;
mod text;

pub use edit_file::EditFile;
pub use errors::ErrorKind;
pub use list_files::ListFiles;
pub use markdown_to_html::MarkdownToHTML;
pub use read_file::FileReader;
pub use scraper::Scraper;
pub use text::{
    contains_char, contains_char_spec, is_exit_command, is_exit_spec, is_space_char,
    law_missing_pattern_keeps_text, law_single_occurrence_replacement, matches_exit_keyword,
    occurs, occurs_at, replace_all, replace_seq, str_eq, trim_back_spec, trim_front_spec,
    trim_spec,
};
