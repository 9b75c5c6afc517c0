//! Client-side core of the Madome HTTP API: declarative endpoint descriptions,
//! the signature normaliser used when generating endpoint functions, and the
//! request/response pipeline that those functions run through.
pub mod text;
pub mod syntax;
pub mod query;
pub mod path;
pub mod json;
pub mod error;
pub mod cookie;
pub mod token;
pub mod endpoint;
pub mod header;
pub mod auth;
pub mod base_url;
pub mod library;
pub mod old_library;
pub mod user;
