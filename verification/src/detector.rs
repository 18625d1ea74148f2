//! Change detection: whether a newly read modification time warrants a
//! compiler run.

use vstd::prelude::*;

verus! {

/// Nanoseconds in one second.
pub const NANOS_PER_SEC: i128 = 1_000_000_000;

/// A file's modification time, in nanoseconds since the Unix epoch
/// (negative before it).
#[derive(Clone, Copy, Debug, PartialEq, Eq, Structural)]
pub struct Timestamp {
    pub nanos: i128,
}

impl View for Timestamp {
    type V = int;

    open spec fn view(&self) -> int {
        self.nanos as int
    }
}

impl Timestamp {
    /// The time `nanos` nanoseconds after the Unix epoch, or before it
    /// where `nanos` is negative.
    pub fn from_unix_nanos(nanos: i128) -> (t: Timestamp)
        ensures
            t@ == nanos,
    {
        Timestamp { nanos }
    }

    /// The time that lies `secs` seconds and `subsec_nanos` nanoseconds
    /// from the Unix epoch, before it or after it.
    pub fn from_epoch_offset(before_epoch: bool, secs: u64, subsec_nanos: u32) -> (t: Timestamp)
        ensures
            t@ == if before_epoch {
                -(secs * NANOS_PER_SEC + subsec_nanos)
            } else {
                secs * NANOS_PER_SEC + subsec_nanos
            },
    {
        let offset: i128 = (secs as i128) * NANOS_PER_SEC + (subsec_nanos as i128);
        if before_epoch {
            Timestamp { nanos: -offset }
        } else {
            Timestamp { nanos: offset }
        }
    }

    /// Whether this time is strictly later than `other`.
    pub fn is_after(&self, other: &Timestamp) -> (b: bool)
        ensures
            b == (self@ > other@),
    {
        self.nanos > other.nanos
    }
}

/// What the watcher remembers between two polls: the modification time it
/// saw last, or nothing before the first poll.
#[derive(Clone, Copy, Debug, PartialEq, Eq, Structural)]
pub struct WatchState {
    pub last_modified: Option<Timestamp>,
}

impl View for WatchState {
    type V = Option<int>;

    open spec fn view(&self) -> Option<int> {
        match self.last_modified {
            Some(t) => Some(t@),
            None => None,
        }
    }
}

/// The decision of one poll: the first poll always asks for a compiler
/// run, a later one only when the file is strictly newer than at the poll
/// before.
pub open spec fn should_recompile(last: Option<int>, observed: int) -> bool {
    match last {
        None => true,
        Some(previous) => observed > previous,
    }
}

/// How many compiler runs a series of polls asks for, starting from the
/// remembered time `last`.
pub open spec fn compiles(last: Option<int>, readings: Seq<int>) -> nat
    decreases readings.len(),
{
    if readings.len() == 0 {
        0
    } else {
        let first: nat = if should_recompile(last, readings[0]) {
            1
        } else {
            0
        };
        first + compiles(Some(readings[0]), readings.drop_first())
    }
}

/// Whether no reading is later than the one before it.
pub open spec fn never_newer(readings: Seq<int>) -> bool {
    forall|i: int| 0 < i < readings.len() ==> readings[i] <= #[trigger] readings[i - 1]
}

impl WatchState {
    /// The state before the first poll.
    pub fn new() -> (s: WatchState)
        ensures
            s@ == None::<int>,
    {
        WatchState { last_modified: None }
    }

    /// Whether no poll has been made yet.
    pub fn is_first_tick(&self) -> (b: bool)
        ensures
            b == (self@ is None),
    {
        self.last_modified.is_none()
    }

    /// Takes the modification time read at one poll. Returns whether the
    /// compiler is to run, and the state to keep for the next poll.
    pub fn poll(self, observed: Timestamp) -> (r: (bool, WatchState))
        ensures
            r.0 == should_recompile(self@, observed@),
            r.1@ == Some(observed@),
    {
        let changed = match self.last_modified {
            None => true,
            Some(previous) => observed.is_after(&previous),
        };
        (changed, WatchState { last_modified: Some(observed) })
    }
}

/// Polls over a file that never gets newer ask for at most one compiler
/// run: the first of them, and only where that poll by itself asks for one.
pub proof fn lemma_one_change_one_compile(last: Option<int>, readings: Seq<int>)
    requires
        never_newer(readings),
    ensures
        compiles(last, readings) == if readings.len() > 0 && should_recompile(last, readings[0]) {
            1nat
        } else {
            0nat
        },
    decreases readings.len(),
{
    if readings.len() > 0 {
        let rest = readings.drop_first();
        assert forall|i: int| 0 < i < rest.len() implies rest[i] <= #[trigger] rest[i - 1] by {
            assert(readings[i + 1] <= readings[i + 1 - 1]);
        }
        lemma_one_change_one_compile(Some(readings[0]), rest);
        if rest.len() > 0 {
            assert(readings[1] <= readings[1 - 1]);
            assert(rest[0] == readings[1]);
        }
    }
}

/// However often a poll reads the same time again, the compiler runs at
/// most once: repeating a reading asks for nothing new.
pub proof fn lemma_repeated_polls_compile_once(last: Option<int>, observed: int, polls: nat)
    ensures
        compiles(last, Seq::new(polls, |i: int| observed)) <= 1,
        polls > 0 ==> compiles(last, Seq::new(polls, |i: int| observed)) == compiles(
            last,
            seq![observed],
        ),
{
    lemma_one_change_one_compile(last, Seq::new(polls, |i: int| observed));
    lemma_one_change_one_compile(last, seq![observed]);
}

} // verus!
