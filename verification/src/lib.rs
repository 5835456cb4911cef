//! Scanning a JSON document registry for entries of one identifier type,
//! resolving where their PDF files lie and reporting what was extracted.

pub mod cli;
pub mod error;
pub mod filter;
pub mod json;
pub mod loader;
pub mod report;
pub mod resolver;
pub mod scan;
pub mod text;
