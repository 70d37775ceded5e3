//! Pacing of paints: for each user, the time of the last paint that was let
//! through.

use crate::time::Timestamp;
use std::collections::HashMap;
use vstd::prelude::*;

verus! {

broadcast use vstd::std_specs::hash::group_hash_axioms;

/// The answer of the pace table to one paint.
#[derive(Clone, Copy, Debug, PartialEq, Eq)]
pub enum Pace {
    /// The paint is let through, and its time was recorded.
    Admit,
    /// The paint comes too soon after the user's last one; nothing was
    /// recorded.
    TooFast,
}

/// The last recorded time of `uid` in `table`, if there is one.
pub open spec fn prior_in(table: Map<i32, Timestamp>, uid: i32) -> Option<Timestamp> {
    if table.contains_key(uid) {
        Some(table[uid])
    } else {
        None
    }
}

/// Whether a paint at `now` keeps the interval after `prior`: it does where
/// there is no earlier paint, or where at least `min_interval_ms`
/// milliseconds lie between the two.
pub open spec fn paced(prior: Option<Timestamp>, now: Timestamp, min_interval_ms: u32) -> bool {
    match prior {
        None => true,
        Some(p) => now.as_nanos() - p.as_nanos() >= min_interval_ms as int * 1_000_000,
    }
}

/// The table after one paint of `uid` at `now` was put to it.
pub open spec fn marked(
    table: Map<i32, Timestamp>,
    uid: i32,
    now: Timestamp,
    min_interval_ms: u32,
) -> Map<i32, Timestamp> {
    if paced(prior_in(table, uid), now, min_interval_ms) {
        table.insert(uid, now)
    } else {
        table
    }
}

/// The table after a run of paints, each a user and a time, was put to it
/// in order.
pub open spec fn after_calls(
    table: Map<i32, Timestamp>,
    calls: Seq<(i32, Timestamp)>,
    min_interval_ms: u32,
) -> Map<i32, Timestamp>
    decreases calls.len(),
{
    if calls.len() == 0 {
        table
    } else {
        marked(
            after_calls(table, calls.drop_last(), min_interval_ms),
            calls.last().0,
            calls.last().1,
            min_interval_ms,
        )
    }
}

/// Whether the paint at position `i` of a run is let through.
pub open spec fn admitted_at(
    table: Map<i32, Timestamp>,
    calls: Seq<(i32, Timestamp)>,
    min_interval_ms: u32,
    i: int,
) -> bool {
    paced(
        prior_in(after_calls(table, calls.take(i), min_interval_ms), calls[i].0),
        calls[i].1,
        min_interval_ms,
    )
}

/// Once a paint was let through, the table keeps for its user a time that
/// is no earlier, whatever is put to it afterwards.
pub proof fn lemma_record_never_goes_back(
    table: Map<i32, Timestamp>,
    calls: Seq<(i32, Timestamp)>,
    min_interval_ms: u32,
    i: int,
    k: int,
)
    requires
        0 <= i < k <= calls.len(),
        admitted_at(table, calls, min_interval_ms, i),
    ensures
        prior_in(after_calls(table, calls.take(k), min_interval_ms), calls[i].0) is Some,
        prior_in(after_calls(table, calls.take(k), min_interval_ms), calls[i].0)->0.as_nanos()
            >= calls[i].1.as_nanos(),
    decreases k - i,
{
    assert(calls.take(k).drop_last() =~= calls.take(k - 1));
    if k > i + 1 {
        lemma_record_never_goes_back(table, calls, min_interval_ms, i, k - 1);
    }
}

/// Any two paints of one user that were both let through lie at least the
/// minimum interval apart.
pub proof fn lemma_admitted_paints_are_spaced(
    table: Map<i32, Timestamp>,
    calls: Seq<(i32, Timestamp)>,
    min_interval_ms: u32,
    i: int,
    j: int,
)
    requires
        0 <= i < calls.len(),
        0 <= j < calls.len(),
        calls[i].0 == calls[j].0,
        admitted_at(table, calls, min_interval_ms, i),
        admitted_at(table, calls, min_interval_ms, j),
        calls[i].1.as_nanos() < calls[j].1.as_nanos(),
    ensures
        calls[j].1.as_nanos() - calls[i].1.as_nanos() >= min_interval_ms as int * 1_000_000,
{
    if i < j {
        lemma_record_never_goes_back(table, calls, min_interval_ms, i, j);
    } else if j < i {
        lemma_record_never_goes_back(table, calls, min_interval_ms, j, i);
    }
}

/// For each user, the time of the last paint that was let through. A user
/// without an entry has not painted yet.
pub struct PaceTable {
    last: HashMap<i32, Timestamp>,
}

impl View for PaceTable {
    type V = Map<i32, Timestamp>;

    closed spec fn view(&self) -> Map<i32, Timestamp> {
        self.last@
    }
}

impl PaceTable {
    /// A table without entries.
    pub fn new() -> (table: PaceTable)
        ensures
            table@ == Map::<i32, Timestamp>::empty(),
    {
        PaceTable { last: HashMap::new() }
    }

    /// The last recorded time of `uid`, if there is one.
    pub fn last_accept(&self, uid: i32) -> (prior: Option<Timestamp>)
        ensures
            prior == prior_in(self@, uid),
    {
        match self.last.get(&uid) {
            Some(t) => Some(*t),
            None => None,
        }
    }

    /// Puts one paint of `uid` at `now` to the table: where it keeps the
    /// interval, records `now` and admits it; otherwise leaves the table as
    /// it is.
    pub fn check_and_mark(&mut self, uid: i32, now: Timestamp, min_interval_ms: u32) -> (pace: Pace)
        ensures
            final(self)@ == marked(old(self)@, uid, now, min_interval_ms),
            pace == (if paced(prior_in(old(self)@, uid), now, min_interval_ms) {
                Pace::Admit
            } else {
                Pace::TooFast
            }),
    {
        let ok: bool = match self.last_accept(uid) {
            None => true,
            Some(prior) => now.nanos_since(&prior) >= min_interval_ms as i128 * 1_000_000,
        };
        if ok {
            self.last.insert(uid, now);
            Pace::Admit
        } else {
            Pace::TooFast
        }
    }
}

} // verus!
