//! Identifies the anime that a playing music track belongs to, by reconciling
//! a streaming service's track metadata with an anime-song catalog and an
//! anime-metadata graph.
pub mod text;
pub mod japanese_processing;
pub mod anilist;
pub mod spotify;
pub mod ranking;
pub mod error;
pub mod anisong;
pub mod types;
pub mod regex_search;
pub mod copies;
pub mod databasetypes;
pub mod database;
pub mod ordering;
pub mod engine;
