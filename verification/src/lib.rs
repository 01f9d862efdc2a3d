//! An in-memory and on-disk string cache, and the request handling of the
//! service that serves it.
use vstd::prelude::*;

pub mod cache;
pub mod key;
pub mod server;
pub mod text;

verus! {

} // verus!
