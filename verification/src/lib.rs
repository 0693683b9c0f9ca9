//! The `Location` object of a browsing context, as a pure decision core.
//!
//! A script reads and rewrites the components of the active document's URL
//! through a [`Location`] proxy. Every operation takes the state of the
//! surrounding windows as plain values and answers with the value read, or
//! with the navigation that the embedder has to perform.

pub mod context;
pub mod error;
pub mod fields;
pub mod laws;
pub mod location;
pub mod navigation;
pub mod origin;
pub mod text;
pub mod url_calls;
pub mod url_value;
