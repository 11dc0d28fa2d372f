//! Transport providers that a server can be served on.

use vstd::prelude::*;

verus! {

/// Provides a transport over the process's standard input and output.
#[derive(Debug, Clone, Copy, Default)]
pub struct StdioTransport;

/// The provider of a transport over standard input and output.
pub fn stdio() -> (t: StdioTransport)
    ensures
        t == StdioTransport,
{
    StdioTransport
}

} // verus!
