//! Client-side logic for a discovery service that answers free-text queries
//! with lists of records, either on the same connection or by pushing them to
//! a local callback listener.

pub mod text;
pub mod json;
pub mod decode;
pub mod format;
pub mod listener;
pub mod query;
pub mod config;
