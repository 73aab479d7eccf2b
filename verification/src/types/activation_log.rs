//! The activation log: the one entity that tasks of different priorities
//! share. It counts the activations of the hardware event server modulo 100
//! and keeps the instant of the latest one.

use vstd::prelude::*;
use crate::types::generic::{ActivationEntry, TimeInstant};

verus! {

/// The counter wraps at this value.
pub const MOD: u8 = 100;

/// What a reader is told while nothing has been logged.
pub const NOT_LOGGED: &'static str = "no external event server activation logged";

/// The entry that a write at `now` leaves, given the entry before it.
pub open spec fn written(before: Option<ActivationEntry>, now: TimeInstant) -> Option<ActivationEntry> {
    match before {
        Some(entry) => Some((((entry.0 + 1) % 100) as u8, now)),
        None => Some((1u8, now)),
    }
}

/// The entry after one write at each instant of `stamps`, in order, to a log
/// that starts unwritten.
pub open spec fn after_writes(stamps: Seq<TimeInstant>) -> Option<ActivationEntry>
    decreases stamps.len(),
{
    if stamps.len() == 0 {
        None
    } else {
        written(after_writes(stamps.drop_last()), stamps.last())
    }
}

/// The log itself: unwritten, or the count and instant of the latest
/// activation. Whoever holds it exclusively may write; the lock of the shared
/// resource sees to it that only one task does at a time.
pub struct ActivationLog {
    entry: Option<ActivationEntry>,
}

impl View for ActivationLog {
    type V = Option<ActivationEntry>;

    closed spec fn view(&self) -> Option<ActivationEntry> {
        self.entry
    }
}

impl ActivationLog {
    /// A written log holds a counter below 100.
    pub open spec fn wf(&self) -> bool {
        self@ is Some ==> self@->Some_0.0 < 100
    }

    /// An unwritten log.
    pub fn build() -> (log: ActivationLog)
        ensures
            log@ is None,
            log.wf(),
    {
        ActivationLog { entry: None }
    }

    /// Logs one activation at `now`: the counter advances by one modulo 100
    /// (the first write sets it to 1) and the timestamp becomes `now`.
    pub fn write(&mut self, now: TimeInstant)
        requires
            old(self).wf(),
        ensures
            final(self)@ == written(old(self)@, now),
            final(self).wf(),
    {
        self.entry = match self.entry {
            Some(entry) => Some(((entry.0 + 1) % MOD, now)),
            None => Some((1, now)),
        };
    }

    /// The latest entry, or the message `NOT_LOGGED` while the log is
    /// unwritten.
    pub fn read(&self) -> (entry: Result<ActivationEntry, &'static str>)
        ensures
            self@ is Some ==> entry == Ok::<ActivationEntry, &'static str>(self@->Some_0),
            self@ is None ==> entry is Err && entry->Err_0@ == NOT_LOGGED@,
    {
        match self.entry {
            Some(entry) => Ok(entry),
            None => Err(NOT_LOGGED),
        }
    }
}

/// After `k` writes the counter is `k mod 100` and the timestamp is the
/// instant of the `k`-th write; before any write the log is unwritten.
pub proof fn lemma_counter_after_writes(stamps: Seq<TimeInstant>)
    ensures
        stamps.len() == 0 ==> after_writes(stamps) is None,
        stamps.len() > 0 ==> after_writes(stamps) == Some(
            ((stamps.len() % 100) as u8, stamps.last()),
        ),
    decreases stamps.len(),
{
    if stamps.len() > 0 {
        lemma_counter_after_writes(stamps.drop_last());
    }
}

/// The timestamp follows the clock: where the writes come at instants that
/// never go back, the timestamp after the first `later` of them is no
/// earlier than after the first `sooner` of them.
pub proof fn lemma_timestamp_never_goes_back(stamps: Seq<TimeInstant>, sooner: int, later: int)
    requires
        forall|i: int, j: int| 0 <= i <= j < stamps.len() ==> stamps[i].ticks <= stamps[j].ticks,
        0 < sooner <= later <= stamps.len(),
    ensures
        after_writes(stamps.take(sooner)) is Some,
        after_writes(stamps.take(later)) is Some,
        after_writes(stamps.take(sooner))->Some_0.1.ticks <= after_writes(
            stamps.take(later),
        )->Some_0.1.ticks,
{
    lemma_counter_after_writes(stamps.take(sooner));
    lemma_counter_after_writes(stamps.take(later));
}

} // verus!
