use vstd::prelude::*;
use crate::rpc::Endpoint;

verus! {

/// Faults surfaced by the protocol core or by a transport on its behalf.
#[derive(Debug)]
pub enum Error {
    /// A transport-level failure while calling the named peer; recovered
    /// locally by counting the peer as a non-grant / non-ack.
    RPC(Endpoint, String),
    /// An attempt to move a node's term backward: terms are a monotonically
    /// increasing logical clock, so this is a protocol-logic fault.
    Term { current: usize, proposed: usize },
}

impl From<(Endpoint, String)> for Error {
    fn from(err: (Endpoint, String)) -> (r: Error) {
        Error::RPC(err.0, err.1)
    }
}

impl vstd::std_specs::convert::FromSpecImpl<(Endpoint, String)> for Error {
    open spec fn obeys_from_spec() -> bool {
        true
    }

    open spec fn from_spec(err: (Endpoint, String)) -> Error {
        Error::RPC(err.0, err.1)
    }
}

} // verus!
