//! Plain-text access to a platform clipboard that lives in a managed runtime.
//!
//! The runtime calls themselves are made by a bridge outside this crate. The
//! crate decides, step by step, which call comes next and what each reply
//! means (`protocol`), and offers an in-memory bridge (`memory`) that runs the
//! same protocol against a modelled clipboard.
pub mod context;
pub mod error;
pub mod laws;
pub mod memory;
pub mod protocol;
