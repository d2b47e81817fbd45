//! The rules of the latency probe. A probe tries the addresses that an
//! endpoint resolves to, in the order of resolution, and stops at the first
//! that takes the connection.

use vstd::prelude::*;

verus! {

/// The latency that stands for "unreachable": no latency of this many
/// milliseconds or more is ever reported.
pub const UNREACHABLE_MS: u16 = 9999;

/// How one attempt to connect ended.
#[derive(Debug, Clone, Copy)]
pub enum Attempt {
    /// The connection was made; so many milliseconds had gone by since the
    /// probe began.
    Connected { elapsed_ms: u128 },
    /// The connection was refused or timed out.
    Failed,
}

/// What the probe does next.
#[derive(Debug, Clone, Copy, PartialEq, Eq, Structural)]
pub enum ProbeStep {
    /// Try the next address.
    TryNext,
    /// Stop: the endpoint answered after so many milliseconds.
    Reachable(u16),
    /// Stop: no address is left to try.
    Unreachable,
}

/// The latency that an attempt shows: what it measured where it connected
/// in less than [`UNREACHABLE_MS`] milliseconds, and nothing otherwise.
pub open spec fn attempt_latency(attempt: Attempt) -> Option<u16> {
    match attempt {
        Attempt::Connected { elapsed_ms } => if elapsed_ms < UNREACHABLE_MS {
            Some(elapsed_ms as u16)
        } else {
            None
        },
        Attempt::Failed => None,
    }
}

/// The outcome of a probe that made `attempts` in this order: the latency
/// of the first attempt that shows one, or `None` where no attempt does.
pub open spec fn measured(attempts: Seq<Attempt>) -> Option<u16>
    decreases attempts.len(),
{
    if attempts.len() == 0 {
        None
    } else {
        match attempt_latency(attempts[0]) {
            Some(ms) => Some(ms),
            None => measured(attempts.skip(1)),
        }
    }
}

/// The step that follows an attempt when `left` addresses are still
/// untried.
pub open spec fn step_after(attempt: Attempt, left: nat) -> ProbeStep {
    match attempt_latency(attempt) {
        Some(ms) => ProbeStep::Reachable(ms),
        None => if left == 0 {
            ProbeStep::Unreachable
        } else {
            ProbeStep::TryNext
        },
    }
}

/// The first step of a probe of an endpoint that resolved to `candidates`
/// addresses. An endpoint that did not resolve has none.
pub fn probe_begin(candidates: usize) -> (step: ProbeStep)
    ensures
        step == if candidates == 0 {
            ProbeStep::Unreachable
        } else {
            ProbeStep::TryNext
        },
{
    if candidates == 0 {
        ProbeStep::Unreachable
    } else {
        ProbeStep::TryNext
    }
}

/// The step that follows an attempt when `left` addresses are still
/// untried.
pub fn probe_next(attempt: Attempt, left: usize) -> (step: ProbeStep)
    ensures
        step == step_after(attempt, left as nat),
{
    match attempt {
        Attempt::Connected { elapsed_ms } => {
            if elapsed_ms < 9999 {
                return ProbeStep::Reachable(elapsed_ms as u16);
            }
        },
        Attempt::Failed => {},
    }
    if left == 0 {
        ProbeStep::Unreachable
    } else {
        ProbeStep::TryNext
    }
}

/// The outcome of a probe that made all of `attempts`, as far as it got.
pub fn probe_outcome(attempts: &Vec<Attempt>) -> (latency: Option<u16>)
    ensures
        latency == measured(attempts@),
{
    let mut i: usize = 0;
    assert(attempts@.skip(0) =~= attempts@);
    while i < attempts.len()
        invariant
            i <= attempts@.len(),
            measured(attempts@) == measured(attempts@.skip(i as int)),
        decreases attempts@.len() - i,
    {
        let ghost rest = attempts@.skip(i as int);
        assert(rest[0] == attempts@[i as int]);
        assert(rest.skip(1) =~= attempts@.skip(i + 1));
        match probe_next(attempts[i], attempts.len() - 1 - i) {
            ProbeStep::Reachable(ms) => {
                return Some(ms);
            },
            _ => {},
        }
        i = i + 1;
    }
    assert(attempts@.skip(i as int).len() == 0);
    None
}

/// The steps of a probe lead to its outcome: the probe goes on exactly
/// while no attempt has shown a latency and an address is left, and where
/// it stops it reports what `measured` says of the attempts made.
pub proof fn lemma_steps_reach_outcome(attempts: Seq<Attempt>, made: int)
    requires
        0 <= made < attempts.len(),
        forall|j: int| 0 <= j < made ==> attempt_latency(attempts[j]) is None,
    ensures
        match step_after(attempts[made], (attempts.len() - 1 - made) as nat) {
            ProbeStep::TryNext => made + 1 < attempts.len() && attempt_latency(attempts[made])
                is None,
            ProbeStep::Reachable(ms) => measured(attempts) == Some(ms),
            ProbeStep::Unreachable => measured(attempts) is None,
        },
{
    lemma_measured_skips_failures(attempts, made);
    let rest = attempts.skip(made);
    assert(rest[0] == attempts[made]);
    if attempt_latency(attempts[made]) is None && made + 1 == attempts.len() {
        assert(rest.skip(1).len() == 0);
        assert(measured(rest.skip(1)) is None);
    }
}

/// Attempts that show no latency do not count towards the outcome.
pub proof fn lemma_measured_skips_failures(attempts: Seq<Attempt>, made: int)
    requires
        0 <= made <= attempts.len(),
        forall|j: int| 0 <= j < made ==> attempt_latency(attempts[j]) is None,
    ensures
        measured(attempts) == measured(attempts.skip(made)),
    decreases made,
{
    if made == 0 {
        assert(attempts.skip(0) =~= attempts);
    } else {
        lemma_measured_skips_failures(attempts, made - 1);
        let rest = attempts.skip(made - 1);
        assert(rest[0] == attempts[made - 1]);
        assert(rest.skip(1) =~= attempts.skip(made));
    }
}

} // verus!
