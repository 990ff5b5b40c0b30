//! Core logic of a small news-headline reader.
//!
//! The library holds the pieces of the application that are plain data and
//! decisions: the persisted user preferences with their defaults, the article
//! records shown in the headline list, the mapping from a news-API response to
//! those records, and the state transitions driven by the user interface. The
//! window layout, the config file on disk and the HTTP request itself live
//! outside the library; they hand plain values in and take plain values back.

pub mod config;
pub mod fetch;
pub mod news;
pub mod state;
