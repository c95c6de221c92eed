//! A counter whose every new value is announced to subscribers over a bounded,
//! lossy broadcast channel.
use vstd::prelude::*;

pub mod models;
pub mod repositories;
pub mod broadcast;
pub mod counter_use_case;
pub mod laws;

verus! {

} // verus!
