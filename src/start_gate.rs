use vstd::prelude::*;

verus! {

/// How many times `start` tries to open the start-gate by default.
pub const START_ATTEMPTS: u32 = 4;

/// What the caller does after an attempt to open the start-gate.
#[derive(Clone, Copy, PartialEq, Eq, Debug, Structural)]
pub enum StartStep {
    /// The start-gate was opened and drained: the container's process goes on.
    Started,
    /// The attempt failed and the bound is not reached: try again at once.
    Retry,
    /// The last allowed attempt failed: its error is the result of `start`.
    GiveUp,
}

/// The retry policy of `start`: attempts to open the start-gate are made
/// until one succeeds or `max_attempts` of them have failed. At least one
/// attempt is always made, even with a bound of zero.
#[derive(Clone, Copy, Debug)]
pub struct StartGate {
    pub max_attempts: u32,
    pub failures: u32,
}

/// The number of attempts that a gate with bound `max_attempts` allows.
pub open spec fn attempt_bound(max_attempts: u32) -> nat {
    if max_attempts == 0 {
        1
    } else {
        max_attempts as nat
    }
}

/// The start-gate after one attempt whose outcome is `opened`, and what comes next.
pub open spec fn step(g: StartGate, opened: bool) -> (StartGate, StartStep) {
    if g.failures >= attempt_bound(g.max_attempts) {
        (g, StartStep::GiveUp)
    } else if opened {
        (g, StartStep::Started)
    } else {
        let next = StartGate { max_attempts: g.max_attempts, failures: (g.failures + 1) as u32 };
        if next.failures >= attempt_bound(g.max_attempts) {
            (next, StartStep::GiveUp)
        } else {
            (next, StartStep::Retry)
        }
    }
}

/// Feeds attempt outcomes to a gate until it says `Started` or `GiveUp`:
/// what it said last, and how many attempts were made.
pub open spec fn run(g: StartGate, outcomes: Seq<bool>) -> (StartStep, nat)
    decreases outcomes.len(),
{
    if outcomes.len() == 0 {
        (StartStep::Retry, 0)
    } else {
        let (next, s) = step(g, outcomes[0]);
        if s == StartStep::Retry {
            let (last, n) = run(next, outcomes.drop_first());
            (last, n + 1)
        } else {
            (s, 1)
        }
    }
}

impl StartGate {
    /// A gate for a fresh `start`, with no attempt made yet.
    pub fn new(max_attempts: u32) -> (r: StartGate)
        ensures
            r.max_attempts == max_attempts,
            r.failures == 0,
    {
        StartGate { max_attempts, failures: 0 }
    }

    /// Records the outcome of one attempt to open the start-gate and says what
    /// the caller does next.
    pub fn record(&mut self, opened: bool) -> (r: StartStep)
        ensures
            (*final(self), r) == step(*old(self), opened),
    {
        if self.failures >= self.max_attempts && (self.max_attempts > 0 || self.failures >= 1) {
            return StartStep::GiveUp;
        }
        if opened {
            return StartStep::Started;
        }
        self.failures = self.failures + 1;
        if self.failures >= self.max_attempts {
            StartStep::GiveUp
        } else {
            StartStep::Retry
        }
    }
}

proof fn lemma_run_from(g: StartGate, outcomes: Seq<bool>)
    requires
        g.failures < attempt_bound(g.max_attempts),
        outcomes.len() >= attempt_bound(g.max_attempts) - g.failures,
    ensures
        ({
            let (last, n) = run(g, outcomes);
            let left = attempt_bound(g.max_attempts) - g.failures;
            &&& last != StartStep::Retry
            &&& 1 <= n <= left
            &&& (last == StartStep::Started <==> exists|i: int|
                0 <= i < left && #[trigger] outcomes[i])
            &&& (last == StartStep::Started ==> outcomes[n - 1] && forall|i: int|
                0 <= i < n - 1 ==> !#[trigger] outcomes[i])
            &&& (last == StartStep::GiveUp ==> n == left)
        }),
    decreases outcomes.len(),
{
    let (next, s) = step(g, outcomes[0]);
    let left = attempt_bound(g.max_attempts) - g.failures;
    if s == StartStep::Retry {
        let rest = outcomes.drop_first();
        lemma_run_from(next, rest);
        let (last, n) = run(next, rest);
        assert(run(g, outcomes) == (last, n + 1));
        if last == StartStep::Started {
            assert(outcomes[n as int] == rest[n - 1]);
            assert forall|i: int| 0 <= i < n ==> !#[trigger] outcomes[i] by {
                if 0 < i < n {
                    assert(outcomes[i] == rest[i - 1]);
                }
            }
        } else {
            assert forall|i: int| 0 <= i < left implies !#[trigger] outcomes[i] by {
                if 0 < i {
                    assert(outcomes[i] == rest[i - 1]);
                    if rest[i - 1] {
                        assert(exists|j: int| 0 <= j < left - 1 && #[trigger] rest[j]);
                    }
                }
            }
        }
        if exists|i: int| 0 <= i < left && #[trigger] outcomes[i] {
            let i = choose|i: int| 0 <= i < left && #[trigger] outcomes[i];
            if 0 < i {
                assert(rest[i - 1] == outcomes[i]);
            }
        }
    } else {
        assert(run(g, outcomes) == (s, 1nat));
        if s == StartStep::GiveUp {
            assert forall|i: int| 0 <= i < left implies !#[trigger] outcomes[i] by {}
        }
    }
}

/// Bounded start: for a fresh gate with bound `max_attempts`, and any
/// outcomes of the successive attempts to open the start-gate, `start`
/// stops after at most that many attempts (one if the bound is zero). It
/// starts the container exactly when one of the allowed attempts opens the
/// gate, and then at the first one that does; when none does, it gives up
/// after the last allowed attempt.
pub proof fn lemma_start_is_bounded(max_attempts: u32, outcomes: Seq<bool>)
    requires
        outcomes.len() >= attempt_bound(max_attempts),
    ensures
        ({
            let (last, n) = run(StartGate { max_attempts, failures: 0 }, outcomes);
            let bound = attempt_bound(max_attempts);
            &&& last != StartStep::Retry
            &&& 1 <= n <= bound
            &&& (last == StartStep::Started <==> exists|i: int|
                0 <= i < bound && #[trigger] outcomes[i])
            &&& (last == StartStep::Started ==> outcomes[n - 1] && forall|i: int|
                0 <= i < n - 1 ==> !#[trigger] outcomes[i])
            &&& (last == StartStep::GiveUp ==> n == bound)
        }),
{
    lemma_run_from(StartGate { max_attempts, failures: 0 }, outcomes);
}

} // verus!
