//! Extraction of bibliographic metadata and body text from PMC-style article
//! markup, with the projections that batch jobs build on it: aligned batch
//! results, columns, and content search.

pub mod batch;
pub mod context;
pub mod event;
pub mod extract;
pub mod laws;
pub mod machine;
pub mod metadata;
pub mod reader;
pub mod rules;
pub mod search;
pub mod table;
pub mod text;

pub use extract::{extract_article_metadata, ParseError};
pub use metadata::ArticleMetadata;
pub use search::search_xml_content;
