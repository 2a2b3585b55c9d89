//! The turn scheduler: a pure mapping from wall-clock time to a turn number
//! and an owner index. Time is carried in integer milliseconds; the process
//! boundary converts clock readings before they reach this module.

use vstd::prelude::*;

verus! {

/// The turn number at time `t_ms`: how many whole turn durations have elapsed.
pub open spec fn turn_of(t_ms: int, turn_duration_ms: int) -> int
    recommends
        turn_duration_ms >= 1,
{
    t_ms / turn_duration_ms
}

/// The index of the participant that owns the address at time `t_ms`.
pub open spec fn owner_of(t_ms: int, turn_duration_ms: int, total_participants: int) -> int
    recommends
        turn_duration_ms >= 1,
        total_participants >= 1,
{
    turn_of(t_ms, turn_duration_ms) % total_participants
}

/// Whether the participant with index `i` owns the address at time `t_ms`.
pub open spec fn holds_at(t_ms: int, turn_duration_ms: int, total_participants: int, i: int) -> bool {
    owner_of(t_ms, turn_duration_ms, total_participants) == i
}

/// The round-robin cycle as seen from one participant: the size of the
/// participant set, this host's place in it, and the length of a turn.
pub struct Schedule {
    pub total_participants: u64,
    pub local_index: u64,
    pub turn_duration_ms: u64,
}

impl Schedule {
    /// A schedule is well formed when there is at least one participant, the
    /// local index lies inside the set, and a turn lasts at least a millisecond.
    pub open spec fn wf(self) -> bool {
        &&& self.total_participants >= 1
        &&& self.local_index < self.total_participants
        &&& self.turn_duration_ms >= 1
    }

    pub fn new(total_participants: u64, local_index: u64, turn_duration_ms: u64) -> (r: Result<
        Schedule,
        crate::error::SimpleError,
    >)
        ensures
            r is Ok <==> (total_participants >= 1 && local_index < total_participants
                && turn_duration_ms >= 1),
            r matches Ok(s) ==> s == (Schedule { total_participants, local_index, turn_duration_ms })
                && s.wf(),
    {
        if total_participants >= 1 && local_index < total_participants && turn_duration_ms >= 1 {
            Ok(Schedule { total_participants, local_index, turn_duration_ms })
        } else {
            Err(crate::error::SimpleError(
                "participant set or turn duration out of range".to_owned(),
            ))
        }
    }

    /// The turn number at time `t_ms`.
    pub fn turn_number(&self, t_ms: u64) -> (r: u64)
        requires
            self.wf(),
        ensures
            r == turn_of(t_ms as int, self.turn_duration_ms as int),
    {
        t_ms / self.turn_duration_ms
    }

    /// The index of the participant that owns the address at time `t_ms`.
    pub fn owner_index(&self, t_ms: u64) -> (r: u64)
        requires
            self.wf(),
        ensures
            r == owner_of(t_ms as int, self.turn_duration_ms as int, self.total_participants as int),
            r < self.total_participants,
    {
        (t_ms / self.turn_duration_ms) % self.total_participants
    }

    /// Whether this host owns the address at time `t_ms`.
    pub fn is_local_turn(&self, t_ms: u64) -> (r: bool)
        requires
            self.wf(),
        ensures
            r == holds_at(
                t_ms as int,
                self.turn_duration_ms as int,
                self.total_participants as int,
                self.local_index as int,
            ),
    {
        self.owner_index(t_ms) == self.local_index
    }

    /// Milliseconds from `t_ms` to the next turn boundary. The scheduling
    /// loop sleeps this long, plus a small epsilon, before re-evaluating.
    pub fn remaining_ms(&self, t_ms: u64) -> (r: u64)
        requires
            self.wf(),
        ensures
            r == self.turn_duration_ms - t_ms as int % self.turn_duration_ms as int,
            1 <= r <= self.turn_duration_ms,
    {
        self.turn_duration_ms - t_ms % self.turn_duration_ms
    }
}

/// The owner index always lies inside the participant set.
pub proof fn lemma_owner_in_range(t_ms: int, turn_duration_ms: int, total_participants: int)
    requires
        t_ms >= 0,
        turn_duration_ms >= 1,
        total_participants >= 1,
    ensures
        0 <= owner_of(t_ms, turn_duration_ms, total_participants) < total_participants,
{
    assert(t_ms / turn_duration_ms >= 0) by (nonlinear_arith)
        requires
            t_ms >= 0,
            turn_duration_ms >= 1,
    ;
    let q = t_ms / turn_duration_ms;
    assert(0 <= q % total_participants < total_participants) by (nonlinear_arith)
        requires
            q >= 0,
            total_participants >= 1,
    ;
}

/// Exclusivity: at any instant, among participants `0 .. total_participants`
/// of one synchronized cycle, exactly one — the one whose index equals the
/// owner index — holds the address.
pub proof fn lemma_exactly_one_owner(t_ms: int, turn_duration_ms: int, total_participants: int)
    requires
        t_ms >= 0,
        turn_duration_ms >= 1,
        total_participants >= 1,
    ensures
        0 <= owner_of(t_ms, turn_duration_ms, total_participants) < total_participants,
        forall|i: int|
            0 <= i < total_participants ==> (holds_at(t_ms, turn_duration_ms, total_participants, i)
                <==> i == owner_of(t_ms, turn_duration_ms, total_participants)),
{
    lemma_owner_in_range(t_ms, turn_duration_ms, total_participants);
}

/// Determinism: the owner index is a pure function of the time, the turn
/// duration and the participant count; equal inputs give equal owners.
pub proof fn lemma_owner_deterministic(
    t1: int,
    d1: int,
    n1: int,
    t2: int,
    d2: int,
    n2: int,
)
    requires
        t1 == t2,
        d1 == d2,
        n1 == n2,
    ensures
        owner_of(t1, d1, n1) == owner_of(t2, d2, n2),
{
}

} // verus!
