//! Request resolution for a development server: a request is walked through a
//! tree of content sources until one of them yields servable content.
//!
//! The crate holds the decisions of that walk. Calling a content source is
//! left to the caller, who feeds each answer back into [`resolve::ResolveState`].

pub mod cache_buster;
pub mod data;
pub mod error;
pub mod headers;
pub mod json_module;
pub mod query;
pub mod request;
pub mod resolve;
pub mod text;
pub mod uri;
pub mod vary;
