//! The local bridge through which a browser or a phone hands data to the
//! desktop application: a one-shot listener that captures an OAuth
//! authorization code, and a relay that turns uploads and callbacks into
//! events for the application.
use vstd::prelude::*;

pub mod config;
pub mod laws;
pub mod listener;
pub mod platform;
pub mod relay;
pub mod request_line;
pub mod text;

verus! {

} // verus!
