//! A gateway that decides whether a natural-language query needs a live web
//! search and, when it does, prepares the search for one of several providers.
//!
//! The crate holds the decisions of that pipeline: reading and admitting a
//! request, judging the completion service's tool call, bounding the retries,
//! shaping the provider's request and assembling the reply. Transport, the
//! completion service and the provider calls are left to the caller.

pub mod json;
pub mod search;
pub mod backend;
