//! Backend-for-frontend core for a micro-frontend shell page.
//!
//! The library assembles the data behind the shell's entry page: it merges
//! the asset manifests of the independently deployed portal bundles into one
//! import map, resolves the root orchestration script's URL, combines both
//! with the fixed vendor import map and the page secrets into a render model,
//! and states the cache-control headers the final response must carry.

use vstd::prelude::*;

pub mod compose;
pub mod config;
pub mod error;
pub mod json;
pub mod manifest;
pub mod string_map;
pub mod text;
pub mod vendor;

verus! {

} // verus!
