//! Resolution-and-download pipeline for video posts: the rules that decide
//! what each item of a batch does next, the text handling around the resolver
//! service, and the bookkeeping that bounds how many items run at once.
//!
//! The crate performs no I/O. A driver performs the requests, sleeps and file
//! operations that the state machines here ask for, and reports back what
//! happened.

pub mod error;
pub mod batch;
pub mod pattern;
pub mod markup;
pub mod calendar;
pub mod decimal;
pub mod post_info;
pub mod fetch;
pub mod deobfuscate;
pub mod resolver;
pub mod naming;
pub mod workflow;
pub mod posts;
