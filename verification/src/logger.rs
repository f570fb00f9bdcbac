use vstd::prelude::*;
use crate::error::Error;

verus! {

/// A log position: a `(term, index)` pair. Positions are ordered by term
/// first, then index. The order is written out explicitly rather than
/// derived, so that the comparison used for vote eligibility is exactly the
/// protocol's order even when term and index diverge.
#[derive(Clone, Copy, Debug, PartialEq, Eq, Structural)]
pub struct SequenceID {
    pub term: usize,
    pub index: usize,
}

impl SequenceID {
    /// `self` comes no later than `other` in term-then-index order.
    pub open spec fn spec_le(self, other: SequenceID) -> bool {
        self.term < other.term || (self.term == other.term && self.index <= other.index)
    }

    /// `self` comes strictly before `other` in term-then-index order.
    pub open spec fn spec_lt(self, other: SequenceID) -> bool {
        self.spec_le(other) && self != other
    }

    /// Executable form of the term-then-index order.
    pub fn le(&self, other: &SequenceID) -> (r: bool)
        ensures
            r == self.spec_le(*other),
    {
        self.term < other.term || (self.term == other.term && self.index <= other.index)
    }
}

/// `a` is at most `b` as a log-position claim, where an absent position (an
/// empty log) comes before every present one.
pub open spec fn opt_seq_le(a: Option<SequenceID>, b: Option<SequenceID>) -> bool {
    match a {
        None => true,
        Some(x) => match b {
            None => false,
            Some(y) => x.spec_le(y),
        },
    }
}

/// Executable form of `opt_seq_le`.
pub fn opt_le(a: &Option<SequenceID>, b: &Option<SequenceID>) -> (r: bool)
    ensures
        r == opt_seq_le(*a, *b),
{
    match a {
        None => true,
        Some(x) => match b {
            None => false,
            Some(y) => x.le(y),
        },
    }
}

/// The positions of a correct log ascend strictly in term-then-index order:
/// a node never issues two entries at the same position.
pub open spec fn entries_ordered(s: Seq<SequenceID>) -> bool {
    forall|i: int, j: int|
        #![trigger s[i], s[j]]
        0 <= i < j < s.len() ==> s[i].spec_lt(s[j])
}

/// A node's term and log-position state: the current term, the ordered
/// positions of the entries it holds, and the volatile commit/apply cursors.
pub struct Logger {
    /// Current term; persistent, never moves backward.
    pub term: usize,
    /// Ordered positions of the log's entries, rehydrated at startup.
    /// Entry payloads live with the persistence collaborator, outside this
    /// core; the decision logic reads positions only.
    pub entries: Vec<SequenceID>,
    /// Volatile commit cursor.
    pub committed: usize,
    /// Volatile apply cursor.
    pub applied: usize,
}

impl Logger {
    /// Well-formedness: cursors stay within the log and the term is at least
    /// as new as the newest entry.
    pub open spec fn wf(self) -> bool {
        &&& self.applied <= self.committed <= self.entries@.len()
        &&& entries_ordered(self.entries@)
        &&& self.entries@.len() > 0 ==> self.entries@.last().term <= self.term
    }

    /// The position of the newest entry, or `None` for an empty log.
    pub open spec fn spec_last_seq_id(self) -> Option<SequenceID> {
        if self.entries@.len() == 0 {
            None
        } else {
            Some(self.entries@.last())
        }
    }

    /// Rehydrate from a possibly-empty ordered sequence of persisted
    /// positions; a non-empty log seeds the term from its last entry.
    pub fn new(seq_ids: Vec<SequenceID>) -> (r: Logger)
        requires
            entries_ordered(seq_ids@),
        ensures
            r.wf(),
            r.entries@ == seq_ids@,
            r.committed == 0,
            r.applied == 0,
            r.term == (if seq_ids@.len() == 0 {
                0usize
            } else {
                seq_ids@.last().term
            }),
    {
        if seq_ids.len() == 0 {
            Logger { term: 0, entries: seq_ids, committed: 0, applied: 0 }
        } else {
            let term = seq_ids[seq_ids.len() - 1].term;
            Logger { term, entries: seq_ids, committed: 0, applied: 0 }
        }
    }

    /// The newest log position, the anchor for vote eligibility and the
    /// heartbeat's log-position claim.
    pub fn last_seq_id(&self) -> (r: Option<SequenceID>)
        ensures
            r == self.spec_last_seq_id(),
    {
        if self.entries.len() == 0 {
            None
        } else {
            Some(self.entries[self.entries.len() - 1])
        }
    }

    /// The apply cursor, used to seed a fresh leader's per-follower progress.
    pub fn applied(&self) -> (r: usize)
        ensures
            r == self.applied,
    {
        self.applied
    }

    /// The current term.
    pub fn term(&self) -> (r: usize)
        ensures
            r == self.term,
    {
        self.term
    }

    /// Increment the term and return it; called only when starting an
    /// election as a fresh Candidate.
    pub fn new_term(&mut self) -> (r: usize)
        requires
            old(self).term < usize::MAX,
        ensures
            final(self).term == old(self).term + 1,
            r == final(self).term,
            final(self).entries == old(self).entries,
            final(self).committed == old(self).committed,
            final(self).applied == old(self).applied,
            old(self).wf() ==> final(self).wf(),
    {
        self.term = self.term + 1;
        self.term
    }

    /// Force-set the term to a strictly higher value observed from a peer.
    /// Terms never move backward: any other argument is refused and the
    /// state is left unchanged.
    pub fn set_term(&mut self, term: usize) -> (r: Result<(), Error>)
        ensures
            old(self).term < term ==> r is Ok && final(self).term == term,
            old(self).term >= term ==> {
                &&& r matches Err(Error::Term { current, proposed }) && current == old(self).term
                    && proposed == term
                &&& final(self).term == old(self).term
            },
            final(self).term >= old(self).term,
            final(self).entries == old(self).entries,
            final(self).committed == old(self).committed,
            final(self).applied == old(self).applied,
            old(self).wf() ==> final(self).wf(),
    {
        if self.term < term {
            self.term = term;
            Ok(())
        } else {
            Err(Error::Term { current: self.term, proposed: term })
        }
    }
}

} // verus!
