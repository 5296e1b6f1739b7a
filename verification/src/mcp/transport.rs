//! The two ways a tooling server can be reached. Both are markers: the
//! transports themselves are made by the caller.

use vstd::prelude::*;

verus! {

/// Reached over HTTP, for callers on another machine.
#[derive(Debug, Clone, Copy, PartialEq, Eq, Structural)]
pub struct ZksHttpTransport;

impl ZksHttpTransport {
    /// The marker.
    pub fn new() -> (t: ZksHttpTransport)
        ensures
            t == ZksHttpTransport,
    {
        ZksHttpTransport
    }
}

impl Default for ZksHttpTransport {
    fn default() -> (t: ZksHttpTransport)
        ensures
            t == ZksHttpTransport,
    {
        ZksHttpTransport::new()
    }
}

/// Reached over standard input and output, for callers on this machine.
#[derive(Debug, Clone, Copy, PartialEq, Eq, Structural)]
pub struct ZksStdioTransport;

impl ZksStdioTransport {
    /// The marker.
    pub fn new() -> (t: ZksStdioTransport)
        ensures
            t == ZksStdioTransport,
    {
        ZksStdioTransport
    }
}

impl Default for ZksStdioTransport {
    fn default() -> (t: ZksStdioTransport)
        ensures
            t == ZksStdioTransport,
    {
        ZksStdioTransport::new()
    }
}

} // verus!
