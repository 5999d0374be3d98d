//! Normalisation and routing logic of a content-retrieval gateway for
//! software-development sources: search-result metadata classification,
//! question-and-answer transcripts, flattened discussion threads and the
//! dispatch of a resource URL to the adapter that serves it.

pub mod classify;
pub mod dispatch;
pub mod document;
pub mod error;
pub mod meta;
pub mod qa;
pub mod reclassify;
pub mod request;
pub mod search;
pub mod text;
pub mod thread;
