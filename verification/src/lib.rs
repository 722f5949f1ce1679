//! Retrieval of a serialized web novel: the decisions of the download
//! pipeline, the site extractors, and document assembly, with their contracts.

pub mod cache;
pub mod calibre;
pub mod cmd_line;
pub mod files;
pub mod matching;
pub mod novels;
pub mod run;
pub mod scraping;
pub mod url;
pub mod workers;
