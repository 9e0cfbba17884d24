//! What to do after a request to a device: stop, or try again after a pause.
//!
//! The host sends the request and tells what came of it; the functions here
//! decide the rest. A request that brought a success status ends the firing
//! at once. One that was rejected or that brought no response is repeated
//! until the policy's ceiling of attempts is reached, with a pause that
//! doubles from attempt to attempt up to the policy's longest pause.

use vstd::prelude::*;
use crate::time::Wait;

verus! {

/// What one request came to.
#[derive(Clone, Copy, Debug, PartialEq, Eq, Structural)]
pub enum AttemptOutcome {
    /// A response with a success status.
    Delivered,
    /// A response with any other status.
    RemoteRejected,
    /// No response: the connection failed, timed out, or the name did not
    /// resolve.
    TransportFailure,
}

/// Why a firing, or a whole loop, did not do its work.
#[derive(Clone, Copy, Debug, PartialEq, Eq, Structural)]
pub enum FailureReason {
    /// The last attempt was answered with a status other than success.
    RemoteRejected,
    /// The last attempt brought no response.
    TransportFailure,
    /// The trigger was a fixed instant that had passed before the loop
    /// could wait for it.
    ElapsedTrigger,
    /// The loop had not finished when the time allowed for shutting down
    /// was over.
    ShutdownTimeout,
}

/// How a firing ended.
#[derive(Clone, Copy, Debug, PartialEq, Eq, Structural)]
pub enum DispatchResult {
    /// The request got through at attempt number `attempts`.
    Delivered { attempts: u32 },
    /// Every attempt that the policy allows failed; `reason` tells how the
    /// last of the `attempts` failed.
    DispatchFailed { reason: FailureReason, attempts: u32 },
}

/// What the host does after an attempt.
#[derive(Clone, Copy, Debug, PartialEq, Eq, Structural)]
pub enum DispatchStep {
    /// The firing is over.
    Finished(DispatchResult),
    /// Pause for this long, then send the request again.
    RetryAfter(Wait),
}

/// How often a request is sent at most, and how long the pauses between
/// attempts are.
#[derive(Clone, Copy, Debug, PartialEq, Eq, Structural)]
pub struct RetryPolicy {
    /// The ceiling of attempts for one firing. The first attempt is always
    /// made, so 0 allows as much as 1 does.
    pub max_attempts: u32,
    /// The pause after the first failed attempt.
    pub base_delay: Wait,
    /// The longest pause.
    pub max_delay: Wait,
}

/// The ceiling of attempts of the default policy.
pub const DEFAULT_MAX_ATTEMPTS: u32 = 3;

/// The first pause of the default policy: half a second.
pub const DEFAULT_BASE_DELAY_NANOS: u64 = 500_000_000;

/// The longest pause of the default policy: thirty seconds.
pub const DEFAULT_MAX_DELAY_NANOS: u64 = 30_000_000_000;

/// The outcome that a response's status code stands for, `None` meaning
/// that no response came: success is a code from 200 to 299.
pub open spec fn outcome_of(status: Option<u16>) -> AttemptOutcome {
    match status {
        None => AttemptOutcome::TransportFailure,
        Some(code) => if 200 <= code <= 299 {
            AttemptOutcome::Delivered
        } else {
            AttemptOutcome::RemoteRejected
        },
    }
}

/// Sorts what came of a request into one of the three outcomes. `status`
/// is the status code of the response, or `None` if there was no response.
pub fn classify(status: Option<u16>) -> (outcome: AttemptOutcome)
    ensures
        outcome == outcome_of(status),
{
    match status {
        None => AttemptOutcome::TransportFailure,
        Some(code) => if 200 <= code && code <= 299 {
            AttemptOutcome::Delivered
        } else {
            AttemptOutcome::RemoteRejected
        },
    }
}

/// The reason that a failed attempt gives: what the attempt came to.
/// (For a delivered attempt there is none; the function then answers like
/// for a rejected one.)
pub open spec fn reason_of(outcome: AttemptOutcome) -> FailureReason {
    if outcome is TransportFailure {
        FailureReason::TransportFailure
    } else {
        FailureReason::RemoteRejected
    }
}

/// `base` doubled `times` times.
pub open spec fn doubled(base: nat, times: nat) -> nat
    decreases times,
{
    if times == 0 {
        base
    } else {
        2 * doubled(base, (times - 1) as nat)
    }
}

impl RetryPolicy {
    /// The most attempts that a firing under this policy makes: the
    /// ceiling, but at least one.
    pub open spec fn ceiling(self) -> nat {
        if self.max_attempts == 0 {
            1
        } else {
            self.max_attempts as nat
        }
    }

    /// The pause, in nanoseconds, after failed attempt number `attempt`
    /// (counted from 1): the base pause doubled once for every earlier
    /// failure, but no more than the longest pause.
    pub open spec fn backoff_nanos(self, attempt: nat) -> nat {
        let earlier: nat = if attempt == 0 {
            0
        } else {
            (attempt - 1) as nat
        };
        let grown = doubled(self.base_delay.nanos as nat, earlier);
        if grown <= self.max_delay.nanos {
            grown
        } else {
            self.max_delay.nanos as nat
        }
    }

    /// What follows attempt number `attempt` (counted from 1) that came to
    /// `outcome`.
    pub open spec fn step_after(self, attempt: u32, outcome: AttemptOutcome) -> DispatchStep {
        if outcome is Delivered {
            DispatchStep::Finished(DispatchResult::Delivered { attempts: attempt })
        } else if attempt >= self.max_attempts {
            DispatchStep::Finished(
                DispatchResult::DispatchFailed { reason: reason_of(outcome), attempts: attempt },
            )
        } else {
            DispatchStep::RetryAfter(Wait { nanos: self.backoff_nanos(attempt as nat) as u64 })
        }
    }

    /// How a firing ends whose attempts come to `outcomes`, one after the
    /// other, when `made` of them have been made and have failed; `None`
    /// when the outcomes run out before the firing is over.
    pub open spec fn result_from(self, outcomes: Seq<AttemptOutcome>, made: nat) -> Option<
        DispatchResult,
    >
        decreases outcomes.len() - made,
    {
        if made >= outcomes.len() {
            None
        } else {
            match self.step_after((made + 1) as u32, outcomes[made as int]) {
                DispatchStep::Finished(result) => Some(result),
                DispatchStep::RetryAfter(_) => self.result_from(outcomes, made + 1),
            }
        }
    }

    /// How a firing ends whose attempts come to `outcomes`, one after the
    /// other; `None` when the outcomes run out before the firing is over.
    pub open spec fn result_of(self, outcomes: Seq<AttemptOutcome>) -> Option<DispatchResult> {
        self.result_from(outcomes, 0)
    }

    /// The policy used where the host names none: three attempts, pauses
    /// from half a second up to thirty seconds.
    pub fn standard() -> (policy: RetryPolicy)
        ensures
            policy.max_attempts == DEFAULT_MAX_ATTEMPTS,
            policy.base_delay.nanos == DEFAULT_BASE_DELAY_NANOS,
            policy.max_delay.nanos == DEFAULT_MAX_DELAY_NANOS,
    {
        RetryPolicy {
            max_attempts: DEFAULT_MAX_ATTEMPTS,
            base_delay: Wait { nanos: DEFAULT_BASE_DELAY_NANOS },
            max_delay: Wait { nanos: DEFAULT_MAX_DELAY_NANOS },
        }
    }

    /// The pause after failed attempt number `attempt` (counted from 1).
    pub fn backoff(&self, attempt: u32) -> (pause: Wait)
        ensures
            pause.nanos == self.backoff_nanos(attempt as nat),
            pause.nanos <= self.max_delay.nanos,
    {
        let longest: u64 = self.max_delay.nanos;
        let earlier: u32 = if attempt == 0 {
            0
        } else {
            attempt - 1
        };
        if self.base_delay.nanos >= longest {
            proof {
                lemma_doubled_grows(self.base_delay.nanos as nat, 0, earlier as nat);
            }
            return Wait { nanos: longest };
        }
        let mut pause: u64 = self.base_delay.nanos;
        let mut done: u32 = 0;
        while done < earlier && 0 < pause && pause < longest
            invariant
                done <= earlier,
                longest == self.max_delay.nanos,
                pause <= longest,
                pause == doubled(self.base_delay.nanos as nat, done as nat) || (pause == longest
                    && longest <= doubled(self.base_delay.nanos as nat, done as nat)),
            decreases earlier - done,
        {
            if pause > longest / 2 {
                pause = longest;
            } else {
                pause = pause * 2;
            }
            done = done + 1;
        }
        proof {
            let base = self.base_delay.nanos as nat;
            lemma_doubled_grows(base, done as nat, earlier as nat);
            if pause == 0 {
                lemma_doubled_zero(earlier as nat);
                if base != 0 {
                    lemma_doubled_grows(base, 0, done as nat);
                }
            }
        }
        Wait { nanos: pause }
    }

    /// Decides what follows attempt number `attempt` of a firing, counted
    /// from 1, that came to `outcome`.
    ///
    /// A delivered attempt ends the firing. A failed one ends it when the
    /// ceiling of attempts is reached, and is else followed by a pause and
    /// attempt number `attempt + 1`.
    pub fn after_attempt(&self, attempt: u32, outcome: AttemptOutcome) -> (step: DispatchStep)
        ensures
            step == self.step_after(attempt, outcome),
    {
        match outcome {
            AttemptOutcome::Delivered => DispatchStep::Finished(
                DispatchResult::Delivered { attempts: attempt },
            ),
            AttemptOutcome::RemoteRejected => {
                if attempt >= self.max_attempts {
                    DispatchStep::Finished(
                        DispatchResult::DispatchFailed {
                            reason: FailureReason::RemoteRejected,
                            attempts: attempt,
                        },
                    )
                } else {
                    DispatchStep::RetryAfter(self.backoff(attempt))
                }
            },
            AttemptOutcome::TransportFailure => {
                if attempt >= self.max_attempts {
                    DispatchStep::Finished(
                        DispatchResult::DispatchFailed {
                            reason: FailureReason::TransportFailure,
                            attempts: attempt,
                        },
                    )
                } else {
                    DispatchStep::RetryAfter(self.backoff(attempt))
                }
            },
        }
    }
}

/// None of the outcomes from place `from` up to, not including, place `to`
/// is a delivery.
pub open spec fn all_failed(outcomes: Seq<AttemptOutcome>, from: int, to: int) -> bool {
    forall|j: int| from <= j < to && 0 <= j < outcomes.len() ==> !(#[trigger] outcomes[j] is Delivered)
}

proof fn lemma_result_from(policy: RetryPolicy, outcomes: Seq<AttemptOutcome>, made: nat)
    requires
        made < policy.ceiling(),
    ensures
        match policy.result_from(outcomes, made) {
            None => outcomes.len() < policy.ceiling() && all_failed(
                outcomes,
                made as int,
                outcomes.len() as int,
            ),
            Some(DispatchResult::Delivered { attempts }) => {
                &&& made < attempts <= policy.ceiling()
                &&& attempts <= outcomes.len()
                &&& outcomes[attempts - 1] is Delivered
                &&& all_failed(outcomes, made as int, attempts - 1)
            },
            Some(DispatchResult::DispatchFailed { reason, attempts }) => {
                &&& attempts == policy.ceiling()
                &&& attempts <= outcomes.len()
                &&& reason == reason_of(outcomes[attempts - 1])
                &&& all_failed(outcomes, made as int, attempts as int)
            },
        },
    decreases outcomes.len() - made,
{
    if made < outcomes.len() {
        match policy.step_after((made + 1) as u32, outcomes[made as int]) {
            DispatchStep::Finished(_) => {},
            DispatchStep::RetryAfter(_) => {
                lemma_result_from(policy, outcomes, made + 1);
            },
        }
    }
}

/// How a firing ends, told from the outcomes of its attempts alone.
///
/// It is delivered at the first attempt that gets through, if that
/// attempt is within the ceiling, and the count of attempts is that
/// attempt's number. It has failed when as many attempts as the ceiling
/// allows have failed, with the reason of the last of them, and the count
/// is the ceiling. It is still under way only while fewer attempts than the
/// ceiling have been made and all of them have failed. So no firing makes
/// more attempts than the ceiling.
pub proof fn lemma_result_of_firing(policy: RetryPolicy, outcomes: Seq<AttemptOutcome>)
    ensures
        match policy.result_of(outcomes) {
            None => outcomes.len() < policy.ceiling() && all_failed(
                outcomes,
                0,
                outcomes.len() as int,
            ),
            Some(DispatchResult::Delivered { attempts }) => {
                &&& 1 <= attempts <= policy.ceiling()
                &&& attempts <= outcomes.len()
                &&& outcomes[attempts - 1] is Delivered
                &&& all_failed(outcomes, 0, attempts - 1)
            },
            Some(DispatchResult::DispatchFailed { reason, attempts }) => {
                &&& attempts == policy.ceiling()
                &&& attempts <= outcomes.len()
                &&& reason == reason_of(outcomes[attempts - 1])
                &&& (reason is RemoteRejected || reason is TransportFailure)
                &&& all_failed(outcomes, 0, attempts as int)
            },
        },
{
    lemma_result_from(policy, outcomes, 0);
}

/// A pause is never longer than the policy's longest, never shorter than
/// the shorter of its first and its longest, and does not get shorter from
/// one failed attempt to the next.
pub proof fn lemma_backoff_bounded_and_growing(policy: RetryPolicy, attempt: nat)
    ensures
        policy.backoff_nanos(attempt) <= policy.max_delay.nanos,
        policy.backoff_nanos(attempt) >= policy.base_delay.nanos || policy.backoff_nanos(attempt)
            == policy.max_delay.nanos,
        policy.backoff_nanos(attempt) <= policy.backoff_nanos(attempt + 1),
{
    let base = policy.base_delay.nanos as nat;
    let earlier: nat = if attempt == 0 {
        0
    } else {
        (attempt - 1) as nat
    };
    lemma_doubled_grows(base, 0, earlier);
}

/// Doubling more often never gives less.
pub proof fn lemma_doubled_grows(base: nat, fewer: nat, more: nat)
    requires
        fewer <= more,
    ensures
        doubled(base, fewer) <= doubled(base, more),
    decreases more,
{
    if fewer < more {
        lemma_doubled_grows(base, fewer, (more - 1) as nat);
    }
}

/// Zero stays zero however often it is doubled.
pub proof fn lemma_doubled_zero(times: nat)
    ensures
        doubled(0, times) == 0,
    decreases times,
{
    if times > 0 {
        lemma_doubled_zero((times - 1) as nat);
    }
}

} // verus!
