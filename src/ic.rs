//! Device variant markers.
use vstd::prelude::*;

verus! {

/// MCP41XXX marker: a single-channel device.
pub struct Mcp41x;

/// MCP42XXX marker: a dual-channel device.
pub struct Mcp42x;

} // verus!
