//! The controller's security-unlock state machine and the bounded polling
//! loop that drives it. The fixture may only arm the unlock (move a locked
//! controller towards `PrepareUnlock`); the transition to `Unlock` happens
//! outside the system, by a physical button press observed on a later poll.

use vstd::prelude::*;

use crate::errors::TestError;

verus! {

/// Security state reported by a controller.
#[derive(Clone, Copy, PartialEq, Eq, Structural, Debug)]
pub enum SecurityState {
    Lock,
    PrepareLock,
    Unlock,
    PrepareUnlock,
}

/// An unlock-arm command is due exactly for the two locked states.
pub open spec fn needs_prepare_unlock(s: SecurityState) -> bool {
    s == SecurityState::Lock || s == SecurityState::PrepareLock
}

/// The arm command is issued only for `Lock` and `PrepareLock`, never for
/// a controller that is already unlocked or already armed.
pub proof fn lemma_arm_only_when_locked()
    ensures
        forall|s: SecurityState| #[trigger]
            needs_prepare_unlock(s) ==> s != SecurityState::Unlock && s
                != SecurityState::PrepareUnlock,
{
}

/// Executable form of the arming rule.
pub fn should_arm_unlock(s: &SecurityState) -> (r: bool)
    ensures
        r == needs_prepare_unlock(*s),
{
    match s {
        SecurityState::Lock => true,
        SecurityState::PrepareLock => true,
        SecurityState::Unlock => false,
        SecurityState::PrepareUnlock => false,
    }
}

/// Every controller in the round reports `Unlock`.
pub open spec fn all_unlocked(states: Seq<SecurityState>) -> bool {
    forall|i: int| 0 <= i < states.len() ==> states[i] == SecurityState::Unlock
}

/// How many controllers in the round report `Unlock`.
pub open spec fn count_unlocked(states: Seq<SecurityState>) -> int
    decreases states.len(),
{
    if states.len() == 0 {
        0
    } else {
        count_unlocked(states.drop_last()) + if states.last() == SecurityState::Unlock {
            1int
        } else {
            0int
        }
    }
}

proof fn lemma_count_unlocked_bounds(states: Seq<SecurityState>)
    ensures
        0 <= count_unlocked(states) <= states.len(),
        (count_unlocked(states) == states.len()) <==> all_unlocked(states),
    decreases states.len(),
{
    if states.len() > 0 {
        lemma_count_unlocked_bounds(states.drop_last());
        if count_unlocked(states) == states.len() {
            assert forall|i: int| 0 <= i < states.len() implies states[i]
                == SecurityState::Unlock by {
                if i < states.len() - 1 {
                    assert(states.drop_last()[i] == states[i]);
                }
            }
        } else {
            if all_unlocked(states) {
                assert(all_unlocked(states.drop_last()));
            }
        }
    }
}

/// What one poll of every controller decided: `arm[j]` is true exactly
/// when controller `j` was commanded to prepare for unlock, and `unlocked`
/// counts the controllers already reporting `Unlock`.
pub struct PollRound {
    pub arm: Vec<bool>,
    pub unlocked: usize,
}

/// Decides one poll round from the states just read: which controllers to
/// arm, and whether every controller has reached `Unlock`.
pub fn poll_round(states: &Vec<SecurityState>) -> (r: PollRound)
    ensures
        r.arm@.len() == states@.len(),
        forall|j: int|
            0 <= j < states@.len() ==> r.arm@[j] == needs_prepare_unlock(states@[j]),
        r.unlocked == count_unlocked(states@),
        (r.unlocked == states@.len()) == all_unlocked(states@),
{
    let n = states.len();
    let mut arm: Vec<bool> = Vec::new();
    let mut unlocked: usize = 0;
    let mut j: usize = 0;
    while j < n
        invariant
            n == states@.len(),
            0 <= j <= n,
            arm@.len() == j,
            forall|k: int| 0 <= k < j ==> arm@[k] == needs_prepare_unlock(states@[k]),
            unlocked == count_unlocked(states@.take(j as int)),
            unlocked <= j,
        decreases n - j,
    {
        arm.push(should_arm_unlock(&states[j]));
        let is_unlocked = match states[j] {
            SecurityState::Unlock => true,
            _ => false,
        };
        if is_unlocked {
            unlocked = unlocked + 1;
        }
        proof {
            assert(states@.take(j + 1).drop_last() =~= states@.take(j as int));
            assert(states@.take(j + 1).last() == states@[j as int]);
        }
        j = j + 1;
    }
    proof {
        assert(states@.take(n as int) =~= states@);
        lemma_count_unlocked_bounds(states@);
    }
    PollRound { arm, unlocked }
}

/// The whole unlock phase as decided over a sequence of poll rounds:
/// the arm commands issued on each round consumed, the number of rounds
/// consumed, and the verdict.
pub struct UnlockRun {
    pub arm_commands: Vec<Vec<bool>>,
    pub attempts: usize,
    pub result: Result<(), TestError>,
}

/// Drives the unlock state machine over the given poll rounds, bounded by
/// `max_attempts`. `rounds[k][j]` is the state controller `j` reported on
/// poll `k`; every round reads the same `ec_count` controllers. The run
/// stops on the first round in which every controller reports `Unlock`;
/// if the budget runs out first, it fails with how many controllers were
/// still not unlocked on the last round read.
pub fn run_unlock(rounds: &Vec<Vec<SecurityState>>, ec_count: usize, max_attempts: usize) -> (r:
    UnlockRun)
    requires
        rounds@.len() >= max_attempts,
        forall|i: int| 0 <= i < rounds@.len() ==> (#[trigger] rounds@[i])@.len() == ec_count,
    ensures
        r.attempts <= max_attempts,
        r.arm_commands@.len() == r.attempts,
        forall|i: int|
            0 <= i < r.attempts ==> (#[trigger] r.arm_commands@[i])@.len() == ec_count,
        forall|i: int, j: int|
            0 <= i < r.attempts && 0 <= j < ec_count ==> (#[trigger] r.arm_commands@[i]@[j])
                == needs_prepare_unlock(rounds@[i]@[j]),
        (r.result is Ok) <==> (exists|k: int|
            0 <= k < max_attempts && all_unlocked(#[trigger] rounds@[k]@)),
        r.result is Ok ==> {
            &&& 1 <= r.attempts
            &&& all_unlocked(rounds@[r.attempts - 1]@)
            &&& forall|k: int| 0 <= k < r.attempts - 1 ==> !all_unlocked(rounds@[k]@)
        },
        r.result is Err ==> {
            &&& r.attempts == max_attempts
            &&& r.result == Err::<(), TestError>(
                TestError::UnlockTimeout { locked: locked_after(rounds@, ec_count, max_attempts) },
            )
        },
{
    let mut arm_commands: Vec<Vec<bool>> = Vec::new();
    let mut attempt: usize = 0;
    while attempt < max_attempts
        invariant
            rounds@.len() >= max_attempts,
            forall|i: int| 0 <= i < rounds@.len() ==> (#[trigger] rounds@[i])@.len() == ec_count,
            0 <= attempt <= max_attempts,
            arm_commands@.len() == attempt,
            forall|i: int|
                0 <= i < attempt ==> (#[trigger] arm_commands@[i])@.len() == ec_count,
            forall|i: int, j: int|
                0 <= i < attempt && 0 <= j < ec_count ==> (#[trigger] arm_commands@[i]@[j])
                    == needs_prepare_unlock(rounds@[i]@[j]),
            forall|k: int| 0 <= k < attempt ==> !all_unlocked(rounds@[k]@),
        decreases max_attempts - attempt,
    {
        let round = poll_round(&rounds[attempt]);
        arm_commands.push(round.arm);
        let done = round.unlocked == ec_count;
        attempt = attempt + 1;
        if done {
            return UnlockRun { arm_commands, attempts: attempt, result: Ok(()) };
        }
    }
    if max_attempts == 0 {
        UnlockRun {
            arm_commands,
            attempts: max_attempts,
            result: Err(TestError::UnlockTimeout { locked: ec_count }),
        }
    } else {
        let last = poll_round(&rounds[max_attempts - 1]);
        proof {
            lemma_count_unlocked_bounds(rounds@[max_attempts - 1]@);
        }
        UnlockRun {
            arm_commands,
            attempts: max_attempts,
            result: Err(TestError::UnlockTimeout { locked: ec_count - last.unlocked }),
        }
    }
}

/// How many controllers the timed-out run left locked: those of the last
/// round read that did not report `Unlock` (all of them if no round was
/// read at all).
pub open spec fn locked_after(rounds: Seq<Vec<SecurityState>>, ec_count: usize, max_attempts: usize) -> usize {
    if max_attempts == 0 {
        ec_count
    } else {
        (ec_count - count_unlocked(rounds[max_attempts - 1]@)) as usize
    }
}

} // verus!
