pub mod bot;
pub mod config;
pub mod dates;
pub mod db;
pub mod error;
pub mod imdb;
pub mod notion;
pub mod text;
pub mod transcripts;
