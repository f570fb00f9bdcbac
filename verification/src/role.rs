use vstd::prelude::*;
use crate::logger::SequenceID;
use crate::rpc::Endpoint;

verus! {

/// Lower bound, in milliseconds, of the jittered election timeout.
pub const ELECTION_INTERVAL_MIN: u64 = 100;

/// Upper bound, in milliseconds, of the jittered election timeout.
pub const ELECTION_INTERVAL_MAX: u64 = 500;

/// The fixed leader heartbeat period: half the minimum election timeout, so
/// a follower reliably sees a heartbeat before its own timeout fires.
pub const HEARTBEAT_INTERVAL: u64 = ELECTION_INTERVAL_MIN / 2;

/// A jittered election timeout, re-rolled on every transition into Candidate
/// and every return to Follower so that peers desynchronize.
///
/// Relies on rand's `random_range`: a uniformly random draw within the given
/// inclusive, non-empty range. Nothing more is assumed of the draw than its
/// bounds, which hold of every outcome.
#[verifier::external_body]
pub(crate) fn election_interval() -> (r: u64)
    ensures
        ELECTION_INTERVAL_MIN <= r <= ELECTION_INTERVAL_MAX,
{
    rand::random_range(ELECTION_INTERVAL_MIN..=ELECTION_INTERVAL_MAX)
}

/// A snapshot of `(endpoint, term, last log position)` taken at the moment a
/// vote or RPC is issued; it stamps outgoing requests and vote decisions.
#[derive(Debug)]
pub struct Signature {
    pub endpoint: Endpoint,
    pub term: usize,
    pub seq_id: Option<SequenceID>,
}

impl Signature {
    pub fn new(endpoint: Endpoint, term: usize, seq_id: Option<SequenceID>) -> (r: Signature)
        ensures
            r == (Signature { endpoint, term, seq_id }),
    {
        Signature { endpoint, term, seq_id }
    }
}

/// A vote response: whether the vote was granted, stamped with the
/// responder's own signature so the requester can detect a higher term.
#[derive(Debug)]
pub struct Vote {
    pub granted: bool,
    pub peer: Signature,
}

impl Vote {
    pub fn grant(peer: Signature) -> (r: Vote)
        ensures
            r.granted,
            r.peer == peer,
    {
        Vote { granted: true, peer }
    }

    pub fn deny(peer: Signature) -> (r: Vote)
        ensures
            !r.granted,
            r.peer == peer,
    {
        Vote { granted: false, peer }
    }
}

/// An append/heartbeat response: whether the call was accepted, together
/// with the responder's endpoint and term so a stale leader can step down.
#[derive(Debug)]
pub struct Receipt {
    pub success: bool,
    pub term: usize,
    pub endpoint: Endpoint,
}

/// Per-follower replication progress, created fresh whenever a node becomes
/// Leader and destroyed when it steps down.
#[derive(Debug)]
pub struct Diverged {
    /// Index of the next entry to send to this follower.
    pub next: usize,
    /// Highest log position known to match on this follower, once learned.
    pub matched: Option<SequenceID>,
}

impl Diverged {
    pub fn new(next: usize) -> (r: Diverged)
        ensures
            r.next == next,
            r.matched is None,
    {
        Diverged { next, matched: None }
    }
}

/// The role a node is acting in; exactly one variant is active at a time.
pub enum Role {
    Follower {
        /// The candidate this node granted its vote to in the current term,
        /// if any.
        voted: Option<Endpoint>,
        /// Whether a heartbeat arrived since the follower last stepped; the
        /// driver steps once per election interval, so a false flag means
        /// the leader stayed silent for a whole interval.
        leader_alive: bool,
    },
    Candidate,
    Leader {
        /// Replication progress per peer, aligned index-for-index with the
        /// node's peer list.
        followers: Vec<(Endpoint, Diverged)>,
    },
}

impl Role {
    /// The initial role of every node.
    pub fn new() -> (r: Role)
        ensures
            r == (Role::Follower { voted: None, leader_alive: false }),
    {
        Role::follower()
    }

    /// A fresh follower: no vote cast, no heartbeat seen yet.
    pub fn follower() -> (r: Role)
        ensures
            r == (Role::Follower { voted: None, leader_alive: false }),
    {
        Role::Follower { voted: None, leader_alive: false }
    }

    pub fn candidate() -> (r: Role)
        ensures
            r is Candidate,
    {
        Role::Candidate
    }

    /// A fresh leader: one progress record per peer, each starting at the
    /// leader's apply cursor with no match learned yet.
    pub fn leader(peers: &Vec<Endpoint>, applied: usize) -> (r: Role)
        ensures
            r matches Role::Leader { followers } && {
                &&& followers@.len() == peers@.len()
                &&& forall|i: int|
                    0 <= i < peers@.len() ==> {
                        &&& (#[trigger] followers@[i]).0@ == peers@[i]@
                        &&& followers@[i].1.next == applied
                        &&& followers@[i].1.matched is None
                    }
            },
    {
        let ghost peers_view = peers@;
        let mut followers: Vec<(Endpoint, Diverged)> = Vec::new();
        let mut k: usize = 0;
        while k < peers.len()
            invariant
                peers@ == peers_view,
                k <= peers@.len(),
                followers@.len() == k,
                forall|i: int|
                    0 <= i < k ==> {
                        &&& (#[trigger] followers@[i]).0@ == peers@[i]@
                        &&& followers@[i].1.next == applied
                        &&& followers@[i].1.matched is None
                    },
            decreases peers@.len() - k,
        {
            followers.push((peers[k].clone(), Diverged::new(applied)));
            k = k + 1;
        }
        Role::Leader { followers }
    }
}

} // verus!
