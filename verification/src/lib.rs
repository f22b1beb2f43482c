//! Query-processing core of a code-generation service: context retrieval,
//! two-pass generation planning, dependency research, code synthesis replies,
//! build validation and response formatting, with machine-checked contracts.

pub mod containers;
pub mod context;
pub mod feedback;
pub mod html;
pub mod ingestion;
pub mod json;
pub mod llm;
pub mod pipeline;
pub mod research;
pub mod sandbox;
pub mod service;
pub mod settings;
pub mod text;
pub mod web_scraper;
pub mod web_search;

pub use pipeline::process_query;
pub use settings::AppSettings;
