//! Seal for the traits that only this crate may implement.
use crate::ic;
use vstd::prelude::*;

verus! {

/// Implemented only inside this crate.
pub trait Sealed {}

impl Sealed for ic::Mcp41x {}

impl Sealed for ic::Mcp42x {}

} // verus!
