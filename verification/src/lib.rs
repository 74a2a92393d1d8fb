//! Building blocks of a concurrent cache-header prober: URL and header-list
//! handling, response inspection, the per-URL attempt machine, the permit
//! pool that bounds concurrency, and the framing of the streamed result
//! document.

use vstd::prelude::*;

pub mod cache_checker;
pub mod config;
pub mod dns_resolver;
pub mod headers;
pub mod jitter;
pub mod json;
pub mod pool;
pub mod run;
pub mod scheduler;
pub mod sink;
pub mod text;

verus! {

} // verus!
