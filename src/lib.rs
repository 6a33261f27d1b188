//! Markdown syntax trees and their exchange encoding.
//!
//! `options` holds the caller's configuration record and its translation into
//! the parser engine's three option groups; `tree` the syntax-tree model;
//! `exchange` the tagged exchange records and what it means for one to encode
//! a tree; `encoder` the encoder; `engine` the calls into the parser engine.

use vstd::prelude::*;

pub mod options;
pub mod tree;
pub mod exchange;
pub mod encoder;
pub mod engine;

verus! {

} // verus!
