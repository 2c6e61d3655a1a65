//! The storage layer.
use vstd::prelude::*;

pub mod types;

verus! {

/// Marker for state that is passed through the application.
pub trait State {}

} // verus!
