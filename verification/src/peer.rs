use vstd::prelude::*;
use crate::logger::{entries_ordered, opt_le, opt_seq_le, Logger, SequenceID};
use crate::role::{
    election_interval, Diverged, Receipt, Role, Signature, Vote, ELECTION_INTERVAL_MAX,
    ELECTION_INTERVAL_MIN, HEARTBEAT_INTERVAL,
};
use crate::rpc::Endpoint;

verus! {

/// What the driver loop must do after a step. The driver performs the
/// outside work — sleeping, fanning RPCs out to every peer concurrently,
/// racing them against a timer — and hands the responses back to
/// `conclude_election` / `handle_receipt`.
pub enum Action {
    /// Nothing is due: the follower saw a heartbeat within the last
    /// election interval.
    Wait,
    /// Solicit votes from every peer concurrently, racing the given jittered
    /// timeout, then hand whatever responses arrived to `conclude_election`.
    Campaign { term: usize, seq_id: Option<SequenceID>, timeout_ms: u64 },
    /// Broadcast an append/heartbeat carrying this term to every peer and
    /// hand each receipt to `handle_receipt`.
    Heartbeat { term: usize },
}

/// A jittered election timeout lies within the fixed bounded range.
pub open spec fn in_election_range(ms: u64) -> bool {
    ELECTION_INTERVAL_MIN <= ms <= ELECTION_INTERVAL_MAX
}

/// Whether a follower role has seen a heartbeat since it last stepped.
pub open spec fn alive_of(r: Role) -> bool {
    match r {
        Role::Follower { leader_alive, .. } => leader_alive,
        _ => false,
    }
}

/// The vote-granting decision, a function of nothing but the voter's role
/// kind, term, recorded vote and newest log position, and the candidate's
/// signature:
/// - a candidate behind the voter's term is denied unconditionally;
/// - a candidate ahead of it is granted exactly when its log is at least as
///   up to date (the voter adopts the term first, which voids any vote cast
///   in an older term);
/// - at an equal term only a follower may grant, and only if it has not yet
///   voted for someone else and the candidate's log is at least as up to
///   date. A candidate or leader already stands on its own claim to the
///   term and denies.
pub open spec fn grant_ok(
    follower: bool,
    term: usize,
    voted: Option<Seq<char>>,
    last: Option<SequenceID>,
    c_end: Seq<char>,
    c_term: usize,
    c_seq: Option<SequenceID>,
) -> bool {
    if c_term < term {
        false
    } else if c_term > term {
        opt_seq_le(last, c_seq)
    } else {
        follower && (voted is None || voted == Some(c_end)) && opt_seq_le(last, c_seq)
    }
}

/// Number of granted votes among the responses of one election round.
pub open spec fn count_granted(s: Seq<Vote>) -> int
    decreases s.len(),
{
    if s.len() == 0 {
        0
    } else {
        count_granted(s.drop_last()) + if s.last().granted {
            1int
        } else {
            0int
        }
    }
}

/// The highest responder term among the responses (0 when there are none).
pub open spec fn max_response_term(s: Seq<Vote>) -> int
    decreases s.len(),
{
    if s.len() == 0 {
        0
    } else {
        let rest = max_response_term(s.drop_last());
        if s.last().peer.term > rest {
            s.last().peer.term as int
        } else {
            rest
        }
    }
}

/// A node of the cluster: its identity, its peer set, its log state, and
/// the role it is currently acting in. The driver loop repeatedly asks
/// `interval`, sleeps, calls `step`, and performs the returned action;
/// incoming RPCs are handed to `grant_for` / `append`. All of those entry
/// points must be serialized against each other (one critical section per
/// node).
pub struct Peer {
    /// This node's own endpoint.
    pub endpoint: Endpoint,
    /// The other members of the cluster, fixed at startup.
    pub peers: Vec<Endpoint>,
    /// Term and log-position state.
    pub logger: Logger,
    /// The currently active role.
    pub role: Role,
    /// Milliseconds until the next step is due; `None` while a Candidate is
    /// actively campaigning, meaning "step immediately".
    pub interval: Option<u64>,
}

impl Peer {
    /// Well-formedness: the log is well formed and the wake interval agrees
    /// with the role — a follower waits a jittered election timeout, a
    /// campaigning candidate does not wait, a leader heartbeats at the fixed
    /// period and tracks exactly its peers, in order.
    pub open spec fn wf(self) -> bool {
        &&& self.logger.wf()
        &&& match self.role {
            Role::Follower { .. } => self.interval matches Some(ms) && in_election_range(ms),
            Role::Candidate => self.interval is None,
            Role::Leader { followers } => {
                &&& self.interval == Some(HEARTBEAT_INTERVAL)
                &&& followers@.len() == self.peers@.len()
                &&& forall|i: int|
                    0 <= i < followers@.len() ==> (#[trigger] followers@[i]).0@ == self.peers@[i]@
            },
        }
    }

    pub open spec fn is_follower(self) -> bool {
        self.role is Follower
    }

    /// The endpoint this node's vote is committed to in its current term:
    /// the recorded vote of a follower; a candidate or leader stands on its
    /// own claim, which `grant_ok` treats as a committed vote.
    pub open spec fn voted_of(self) -> Option<Seq<char>> {
        match self.role {
            Role::Follower { voted: Some(e), .. } => Some(e@),
            _ => None,
        }
    }

    /// The decision `grant` makes from this state for candidate `c`.
    pub open spec fn grants(self, c: Signature) -> bool {
        grant_ok(
            self.is_follower(),
            self.logger.term,
            self.voted_of(),
            self.logger.spec_last_seq_id(),
            c.endpoint@,
            c.term,
            c.seq_id,
        )
    }

    /// The parts of a node that no RPC handler and no step may change: who
    /// it is, its peer set, and the contents and cursors of its log.
    pub open spec fn same_identity(self, pre: Peer) -> bool {
        &&& self.endpoint == pre.endpoint
        &&& self.peers == pre.peers
        &&& self.logger.entries == pre.logger.entries
        &&& self.logger.committed == pre.logger.committed
        &&& self.logger.applied == pre.logger.applied
    }

    /// Construct a node from its own endpoint, the log positions recovered
    /// from persistence, and the endpoints of the other cluster members.
    /// Every node starts as a Follower with no vote cast and a jittered
    /// election timeout.
    pub fn new(endpoint: Endpoint, seq_ids: Vec<SequenceID>, peer_hosts: Vec<Endpoint>) -> (r:
        Peer)
        requires
            entries_ordered(seq_ids@),
        ensures
            r.wf(),
            r.endpoint == endpoint,
            r.peers == peer_hosts,
            r.role == (Role::Follower { voted: None, leader_alive: false }),
            r.logger.entries@ == seq_ids@,
            r.logger.committed == 0,
            r.logger.applied == 0,
            r.logger.term == (if seq_ids@.len() == 0 {
                0usize
            } else {
                seq_ids@.last().term
            }),
    {
        Peer {
            endpoint,
            peers: peer_hosts,
            logger: Logger::new(seq_ids),
            role: Role::follower(),
            interval: Some(election_interval()),
        }
    }

    /// How long until the next step is due; `None` while a Candidate is
    /// actively waiting on votes, meaning "step immediately".
    pub fn interval(&self) -> (r: Option<u64>)
        ensures
            r == self.interval,
    {
        self.interval
    }

    /// Stamp this node's current `(endpoint, term, last log position)`.
    pub fn sign(&self) -> (r: Signature)
        ensures
            r.endpoint@ == self.endpoint@,
            r.term == self.logger.term,
            r.seq_id == self.logger.spec_last_seq_id(),
    {
        Signature::new(self.endpoint.clone(), self.logger.term(), self.logger.last_seq_id())
    }

    /// Step down to Follower: drop any vote or leader bookkeeping and
    /// re-roll the election timeout so peers desynchronize.
    pub fn become_follower(&mut self)
        ensures
            final(self).role == (Role::Follower { voted: None, leader_alive: false }),
            final(self).interval matches Some(ms) && in_election_range(ms),
            final(self).logger == old(self).logger,
            final(self).endpoint == old(self).endpoint,
            final(self).peers == old(self).peers,
            old(self).logger.wf() ==> final(self).wf(),
    {
        self.interval = Some(election_interval());
        self.role = Role::follower();
    }

    /// Become a campaigning Candidate: no wake interval while the election
    /// races its timeout.
    pub fn become_candidate(&mut self)
        ensures
            final(self).role is Candidate,
            final(self).interval is None,
            final(self).logger == old(self).logger,
            final(self).endpoint == old(self).endpoint,
            final(self).peers == old(self).peers,
            old(self).logger.wf() ==> final(self).wf(),
    {
        self.interval = None;
        self.role = Role::candidate();
    }

    /// Take leadership: fresh per-follower progress for every peer, seeded
    /// at the apply cursor, and the fixed heartbeat period.
    pub fn become_leader(&mut self)
        ensures
            fresh_leader(*old(self), *final(self)),
            final(self).logger == old(self).logger,
            final(self).endpoint == old(self).endpoint,
            final(self).peers == old(self).peers,
            old(self).logger.wf() ==> final(self).wf(),
    {
        self.interval = Some(HEARTBEAT_INTERVAL);
        self.role = Role::leader(&self.peers, self.logger.applied());
    }

    /// Decide a vote request carried by `candidate`'s signature, whatever
    /// role is active (spec'd by `grant_post`).
    pub fn grant(&mut self, candidate: Signature) -> (v: Vote)
        requires
            old(self).wf(),
        ensures
            grant_post(*old(self), *final(self), candidate, v),
    {
        if candidate.term < self.logger.term() {
            return Vote::deny(self.sign());
        }
        if candidate.term > self.logger.term() {
            // adopt the higher term and step down before evaluating the
            // request; the vote this node may have cast belonged to the old
            // term and is void
            self.become_follower();
            match self.logger.set_term(candidate.term) {
                Ok(()) => {},
                Err(_) => {
                    // unreachable: the adopted term is strictly higher
                    assert(false);
                },
            }
            return self.follower_grant(candidate);
        }
        match &self.role {
            Role::Follower { .. } => self.follower_grant(candidate),
            _ => Vote::deny(self.sign()),
        }
    }

    /// Decide a vote request given as plain values, as the RPC layer hands
    /// it over; same contract as `grant`.
    pub fn grant_for(&mut self, candidate: Endpoint, term: usize, log_seq: Option<SequenceID>)
        -> (v: Vote)
        requires
            old(self).wf(),
        ensures
            grant_post(
                *old(self),
                *final(self),
                (Signature { endpoint: candidate, term, seq_id: log_seq }),
                v,
            ),
    {
        self.grant(Signature::new(candidate, term, log_seq))
    }

    /// Evaluate a vote request as a Follower whose term already matches the
    /// candidate's. `grant` calls this once staleness and term adoption are
    /// settled; calling it in any other state is a protocol-logic fault,
    /// which the precondition excludes.
    pub fn follower_grant(&mut self, candidate: Signature) -> (v: Vote)
        requires
            old(self).wf(),
            old(self).role is Follower,
            candidate.term == old(self).logger.term,
        ensures
            grant_post(*old(self), *final(self), candidate, v),
    {
        let may_vote: bool = match &self.role {
            Role::Follower { voted, .. } => match voted {
                None => true,
                Some(v) => *v == candidate.endpoint,
            },
            _ => false,
        };
        if !may_vote {
            return Vote::deny(self.sign());
        }
        let last = self.logger.last_seq_id();
        if opt_le(&last, &candidate.seq_id) {
            // candidate's log is at least as up to date: record the vote
            let alive: bool = match &self.role {
                Role::Follower { leader_alive, .. } => *leader_alive,
                _ => false,
            };
            self.role = Role::Follower { voted: Some(candidate.endpoint), leader_alive: alive };
            Vote::grant(self.sign())
        } else {
            Vote::deny(self.sign())
        }
    }

    /// Decide an incoming append/heartbeat claiming leadership of `term`.
    /// A stale term is rejected with this node's own, higher term, so the
    /// sender steps down; otherwise the node adopts the term if it is
    /// newer, clears its vote, marks the leader alive, and accepts. An
    /// append from another leader of this node's own term would mean two
    /// leaders share a term, a protocol-logic fault the precondition
    /// excludes.
    #[allow(unused_variables)]
    pub fn append(&mut self, leader: Endpoint, term: usize) -> (r: Receipt)
        requires
            old(self).wf(),
            old(self).role is Leader ==> term != old(self).logger.term,
        ensures
            final(self).wf(),
            final(self).same_identity(*old(self)),
            r.endpoint@ == old(self).endpoint@,
            final(self).logger.term >= old(self).logger.term,
            term < old(self).logger.term ==> {
                &&& !r.success
                &&& r.term == old(self).logger.term
                &&& final(self).logger.term == old(self).logger.term
                &&& final(self).role == old(self).role
                &&& final(self).interval == old(self).interval
            },
            term >= old(self).logger.term ==> {
                &&& r.success
                &&& r.term == term
                &&& final(self).logger.term == term
                &&& final(self).role == (Role::Follower { voted: None, leader_alive: true })
                &&& (if old(self).role is Follower {
                    final(self).interval == old(self).interval
                } else {
                    final(self).interval matches Some(ms) && in_election_range(ms)
                })
            },
    {
        if term < self.logger.term() {
            return Receipt {
                success: false,
                term: self.logger.term(),
                endpoint: self.endpoint.clone(),
            };
        }
        if term > self.logger.term() {
            match self.logger.set_term(term) {
                Ok(()) => {},
                Err(_) => {
                    // unreachable: the adopted term is strictly higher
                    assert(false);
                },
            }
        }
        let was_follower: bool = match &self.role {
            Role::Follower { .. } => true,
            _ => false,
        };
        if !was_follower {
            // a candidate or a deposed leader returns to following: re-roll
            // its election timeout
            self.interval = Some(election_interval());
        }
        self.role = Role::Follower { voted: None, leader_alive: true };
        Receipt { success: true, term: self.logger.term(), endpoint: self.endpoint.clone() }
    }

    /// Drive the node one step, dispatching on the active role.
    pub fn step(&mut self) -> (a: Action)
        requires
            old(self).wf(),
            old(self).role is Candidate || (old(self).role matches Role::Follower {
                leader_alive,
                ..
            } && !leader_alive) ==> old(self).logger.term < usize::MAX,
        ensures
            final(self).wf(),
            final(self).same_identity(*old(self)),
            final(self).logger.term >= old(self).logger.term,
            old(self).role matches Role::Follower { voted, leader_alive } ==> (if leader_alive {
                &&& a is Wait
                &&& final(self).role == (Role::Follower { voted, leader_alive: false })
                &&& final(self).interval == old(self).interval
                &&& final(self).logger == old(self).logger
            } else {
                step_campaigns(*old(self), *final(self), a)
            }),
            old(self).role is Candidate ==> step_campaigns(*old(self), *final(self), a),
            old(self).role is Leader ==> *final(self) == *old(self) && a == (Action::Heartbeat {
                term: old(self).logger.term,
            }),
    {
        match &self.role {
            Role::Follower { .. } => self.follower_step(),
            Role::Candidate => self.candidate_step(),
            Role::Leader { .. } => self.leader_step(),
        }
    }

    /// One step as Follower: if a heartbeat arrived since the last step,
    /// spend the flag and keep waiting; otherwise the leader stayed silent
    /// for a whole election interval, so stand for election immediately.
    pub fn follower_step(&mut self) -> (a: Action)
        requires
            old(self).wf(),
            old(self).role is Follower,
            !alive_of(old(self).role) ==> old(self).logger.term < usize::MAX,
        ensures
            final(self).wf(),
            final(self).same_identity(*old(self)),
            old(self).role matches Role::Follower { voted, leader_alive } ==> (if leader_alive {
                &&& a is Wait
                &&& final(self).role == (Role::Follower { voted, leader_alive: false })
                &&& final(self).interval == old(self).interval
                &&& final(self).logger == old(self).logger
            } else {
                step_campaigns(*old(self), *final(self), a)
            }),
    {
        let mut expired = true;
        match &mut self.role {
            Role::Follower { leader_alive, .. } => {
                if *leader_alive {
                    *leader_alive = false;
                    expired = false;
                }
            },
            _ => {},
        }
        if expired {
            self.become_candidate();
            self.candidate_step()
        } else {
            Action::Wait
        }
    }

    /// Begin a fresh election round as Candidate: advance to a new term and
    /// hand the driver the campaign to fan out, with a re-rolled timeout.
    pub fn candidate_step(&mut self) -> (a: Action)
        requires
            old(self).wf(),
            old(self).role is Candidate,
            old(self).logger.term < usize::MAX,
        ensures
            final(self).wf(),
            final(self).same_identity(*old(self)),
            step_campaigns(*old(self), *final(self), a),
    {
        let term = self.logger.new_term();
        let timeout_ms = election_interval();
        Action::Campaign { term, seq_id: self.logger.last_seq_id(), timeout_ms }
    }

    /// One step as Leader: broadcast a heartbeat carrying the current term.
    pub fn leader_step(&self) -> (a: Action)
        requires
            self.role is Leader,
        ensures
            a == (Action::Heartbeat { term: self.logger.term }),
    {
        Action::Heartbeat { term: self.logger.term() }
    }

    /// Settle an election round from the vote responses that arrived before
    /// the driver's timeout fired (responses arriving later are discarded
    /// by the driver, not handed here). A response revealing a higher term
    /// ends the candidacy at once; otherwise the node takes leadership
    /// exactly when at least half of its peers granted — together with its
    /// own vote, a majority of the cluster. With neither, the node stays a
    /// Candidate and will retry with a fresh term on its next step.
    pub fn conclude_election(&mut self, votes: &Vec<Vote>)
        requires
            old(self).wf(),
            old(self).role is Candidate,
        ensures
            final(self).wf(),
            final(self).same_identity(*old(self)),
            final(self).logger.term >= old(self).logger.term,
            max_response_term(votes@) > old(self).logger.term ==> {
                &&& final(self).logger.term == max_response_term(votes@)
                &&& final(self).role == (Role::Follower { voted: None, leader_alive: false })
                &&& final(self).interval matches Some(ms) && in_election_range(ms)
            },
            max_response_term(votes@) <= old(self).logger.term ==> final(self).logger.term == old(
                self,
            ).logger.term,
            final(self).role is Leader <==> (max_response_term(votes@) <= old(self).logger.term
                && count_granted(votes@) >= old(self).peers@.len() / 2),
            final(self).role is Leader ==> fresh_leader(*old(self), *final(self)),
            max_response_term(votes@) <= old(self).logger.term && count_granted(votes@) < old(
                self,
            ).peers@.len() / 2 ==> *final(self) == *old(self),
    {
        let ghost all = votes@;
        let mut granted: usize = 0;
        let mut top: usize = 0;
        let n = votes.len();
        let mut i: usize = 0;
        while i < n
            invariant
                votes@ == all,
                n == all.len(),
                i <= n,
                granted <= i,
                granted as int == count_granted(all.take(i as int)),
                top as int == max_response_term(all.take(i as int)),
            decreases n - i,
        {
            let v = &votes[i];
            if v.granted {
                granted = granted + 1;
            }
            if v.peer.term > top {
                top = v.peer.term;
            }
            proof {
                assert(all.take(i as int + 1).drop_last() =~= all.take(i as int));
                assert(all.take(i as int + 1).last() == all[i as int]);
            }
            i = i + 1;
        }
        proof {
            assert(all.take(n as int) =~= all);
        }
        if top > self.logger.term() {
            // abandon the election: someone out there is ahead of us
            match self.logger.set_term(top) {
                Ok(()) => {},
                Err(_) => {
                    // unreachable: the adopted term is strictly higher
                    assert(false);
                },
            }
            self.become_follower();
        } else if granted >= self.peers.len() / 2 {
            self.become_leader();
        }
    }

    /// Digest one append/heartbeat receipt. A receipt carrying a higher
    /// term demotes this node to Follower at that term, whatever its role;
    /// an acknowledged heartbeat leaves the follower's progress as it
    /// stands (a heartbeat replicates nothing); a refused append backs that
    /// follower's cursor up one entry, to be retried closer to where the
    /// logs diverged.
    pub fn handle_receipt(&mut self, receipt: &Receipt)
        requires
            old(self).wf(),
        ensures
            final(self).wf(),
            final(self).same_identity(*old(self)),
            final(self).logger.term >= old(self).logger.term,
            receipt.term > old(self).logger.term ==> {
                &&& final(self).logger.term == receipt.term
                &&& final(self).role == (Role::Follower { voted: None, leader_alive: false })
                &&& final(self).interval matches Some(ms) && in_election_range(ms)
            },
            receipt.term <= old(self).logger.term ==> final(self).logger.term == old(
                self,
            ).logger.term,
            receipt.term <= old(self).logger.term && (receipt.success || !(old(self).role
                is Leader)) ==> *final(self) == *old(self),
            receipt.term <= old(self).logger.term && !receipt.success ==> (old(
                self,
            ).role matches Role::Leader { followers } ==> {
                &&& final(self).interval == old(self).interval
                &&& final(self).role matches Role::Leader { followers: after } && {
                    &&& after@.len() == followers@.len()
                    &&& forall|i: int|
                        0 <= i < after@.len() ==> {
                            &&& (#[trigger] after@[i]).0 == followers@[i].0
                            &&& after@[i].1.matched == followers@[i].1.matched
                            &&& after@[i].1.next == (if followers@[i].0@ == receipt.endpoint@
                                && followers@[i].1.next > 0 {
                                followers@[i].1.next - 1
                            } else {
                                followers@[i].1.next as int
                            })
                        }
                }
            }),
    {
        if receipt.term > self.logger.term() {
            // the cluster has moved on to a newer term: step down
            match self.logger.set_term(receipt.term) {
                Ok(()) => {},
                Err(_) => {
                    // unreachable: the adopted term is strictly higher
                    assert(false);
                },
            }
            self.become_follower();
            return;
        }
        if receipt.success {
            return;
        }
        match &mut self.role {
            Role::Leader { followers } => {
                let ghost before = followers@;
                let n = followers.len();
                let mut i: usize = 0;
                while i < n
                    invariant
                        n == before.len(),
                        followers@.len() == before.len(),
                        i <= n,
                        forall|k: int|
                            i <= k < before.len() ==> (#[trigger] followers@[k]) == before[k],
                        forall|k: int|
                            0 <= k < i ==> {
                                &&& (#[trigger] followers@[k]).0 == before[k].0
                                &&& followers@[k].1.matched == before[k].1.matched
                                &&& followers@[k].1.next == (if before[k].0@ == receipt.endpoint@
                                    && before[k].1.next > 0 {
                                    before[k].1.next - 1
                                } else {
                                    before[k].1.next as int
                                })
                            },
                    decreases n - i,
                {
                    if followers[i].0 == receipt.endpoint {
                        if followers[i].1.next > 0 {
                            followers[i].1.next = followers[i].1.next - 1;
                        }
                    }
                    i = i + 1;
                }
            },
            _ => {},
        }
    }
}

/// The node stands for election: a fresh term, no wake interval while the
/// campaign races its timeout, and a campaign action, stamped with the new
/// term and the node's newest log position, for the driver to fan out.
pub open spec fn step_campaigns(pre: Peer, post: Peer, a: Action) -> bool {
    &&& post.role is Candidate
    &&& post.interval is None
    &&& post.logger.term == pre.logger.term + 1
    &&& a matches Action::Campaign { term, seq_id, timeout_ms } && term == post.logger.term
        && seq_id == pre.logger.spec_last_seq_id() && in_election_range(timeout_ms)
}

/// Fresh leader bookkeeping: one progress record per peer, in peer order,
/// each starting at the leader's apply cursor with no match learned yet,
/// and the fixed heartbeat period.
pub open spec fn fresh_leader(pre: Peer, post: Peer) -> bool {
    &&& post.interval == Some(HEARTBEAT_INTERVAL)
    &&& post.role matches Role::Leader { followers } && {
        &&& followers@.len() == pre.peers@.len()
        &&& forall|i: int|
            0 <= i < followers@.len() ==> {
                &&& (#[trigger] followers@[i]).0@ == pre.peers@[i]@
                &&& followers@[i].1.next == pre.logger.applied
                &&& followers@[i].1.matched is None
            }
    }
}

/// Everything `grant` promises: the decision is exactly `grant_ok` over the
/// pre-state and the candidate's signature; the response is stamped with
/// this node's own signature; a higher candidate term is adopted (and
/// demotes to Follower) whether or not the vote is then granted; a granted
/// vote is recorded as `voted_for`; a denial at or below this node's term
/// changes nothing.
pub open spec fn grant_post(pre: Peer, post: Peer, c: Signature, v: Vote) -> bool {
    &&& post.wf()
    &&& post.same_identity(pre)
    &&& v.granted == pre.grants(c)
    &&& v.peer.endpoint@ == pre.endpoint@
    &&& v.peer.term == post.logger.term
    &&& v.peer.seq_id == pre.logger.spec_last_seq_id()
    &&& post.logger.term == (if c.term > pre.logger.term {
        c.term
    } else {
        pre.logger.term
    })
    &&& c.term > pre.logger.term ==> post.is_follower() && !alive_of(post.role) && (post.interval
        matches Some(ms) && in_election_range(ms))
    &&& v.granted ==> post.is_follower() && post.voted_of() == Some(c.endpoint@)
    &&& !v.granted && c.term > pre.logger.term ==> post.voted_of() is None
    &&& !v.granted && c.term <= pre.logger.term ==> post.role == pre.role && post.interval
        == pre.interval
    &&& v.granted && c.term == pre.logger.term ==> alive_of(post.role) == alive_of(pre.role)
        && post.interval == pre.interval
}

/// A vote is granted at most once per `(voter, term)` pair: when a voter
/// grants `c1` and, from the state that left behind, grants a second
/// request of the same term, the second request can only have come from
/// the same candidate — repeating a request never casts a second vote, so
/// at most one leader can gather a quorum for any one term cluster-wide.
/// The two `grant_post` hypotheses are exactly the postconditions of two
/// consecutive calls of `grant`.
pub proof fn lemma_vote_unique_in_term(
    pre: Peer,
    mid: Peer,
    c1: Signature,
    v1: Vote,
    post: Peer,
    c2: Signature,
    v2: Vote,
)
    requires
        grant_post(pre, mid, c1, v1),
        grant_post(mid, post, c2, v2),
        v1.granted,
        v2.granted,
        c2.term == c1.term,
    ensures
        c2.endpoint@ == c1.endpoint@,
{
}

/// The vote decision is deterministic: it depends only on the voter's role
/// kind, term, recorded vote and newest log position, together with the
/// candidate's signature. Two nodes (or one node at two moments) agreeing
/// on those four observations decide any vote request identically.
pub proof fn lemma_grant_deterministic(a: Peer, b: Peer, c: Signature)
    requires
        a.is_follower() == b.is_follower(),
        a.logger.term == b.logger.term,
        a.voted_of() == b.voted_of(),
        a.logger.spec_last_seq_id() == b.logger.spec_last_seq_id(),
    ensures
        a.grants(c) == b.grants(c),
{
}

/// Repeating an identical vote request is idempotent: once a request is
/// granted, the same request evaluated against the state the grant left
/// behind — the candidate's term, `voted_for` recording the candidate, the
/// log unchanged — is granted again.
pub proof fn lemma_grant_idempotent(pre: Peer, post: Peer, c: Signature, v: Vote)
    requires
        grant_post(pre, post, c, v),
        v.granted,
    ensures
        post.grants(c),
{
}

} // verus!
