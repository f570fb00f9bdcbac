use vstd::prelude::*;
use crate::error::Error;
use crate::logger::SequenceID;
use crate::role::{Receipt, Vote};

verus! {

/// A peer's network address, as handed to the core at construction time.
pub type Endpoint = String;

/// The capability a node uses to talk to one peer, decoupled from any
/// concrete transport. The transport collaborator outside this core
/// implements it, one client per peer endpoint; the driver loop calls it.
/// Nothing is assumed of a transport's answers: the decision logic is
/// verified for every response a call may return.
pub trait PeerClientRPC: Send + Clone + 'static {
    /// Build a client bound to one peer; failure to connect surfaces on the
    /// first call, not at construction.
    fn connect(host: Endpoint) -> Self;

    /// Replication / heartbeat call: the receipt carries the responder's
    /// term so a stale leader can detect it and step down.
    fn append(
        &self,
        leader: Endpoint,
        term: usize,
        seq_ids: Option<Vec<SequenceID>>,
    ) -> Result<Receipt, Error>;

    /// Election call: ask this peer for its vote.
    fn request_vote(
        &self,
        host: Endpoint,
        term: usize,
        seq_id: Option<SequenceID>,
    ) -> Result<Vote, Error>;
}

} // verus!
