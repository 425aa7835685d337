//! A comment store: comments posted against a path, cached in memory,
//! persisted one document per comment, and reloaded on request.

pub mod utils;
pub mod gravatar;
pub mod markdown;
pub mod comment;
pub mod notifier;
pub mod reload;
pub mod model;
pub mod persistence;
pub mod repository;
pub mod laws;
pub mod cors;
pub mod webapi;
pub mod importer;
