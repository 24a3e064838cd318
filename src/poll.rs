//! Deciding, verdict by verdict, whether to keep polling a submission.
//!
//! The caller fetches a verdict, hands it to `step`, and waits and fetches
//! again for as long as the state stays `Pending`.
use vstd::prelude::*;
use crate::status::SolutionResult;

verus! {

/// Where polling of one submission stands.
#[derive(Clone, Copy, Debug, PartialEq, Eq, Structural)]
pub enum PollState {
    /// No final verdict yet; `attempts` fetches have come back pending.
    Pending { attempts: u32 },
    /// A final verdict was observed.
    Terminal(SolutionResult),
    /// The attempt budget ran out before a final verdict came.
    TimedOut,
}

/// What the caller does next.
#[derive(Clone, Copy, Debug, PartialEq, Eq, Structural)]
pub enum PollAction {
    /// Wait the fixed delay, then fetch the verdict again.
    WaitAndFetch,
    /// Stop polling.
    Stop,
}

/// The state after observing `observed` in state `s`, with at most
/// `max_attempts` pending fetches allowed.
pub open spec fn next_state(s: PollState, observed: SolutionResult, max_attempts: u32) -> PollState {
    match s {
        PollState::Pending { attempts } => if !(observed is Other) {
            PollState::Terminal(observed)
        } else if attempts as int + 1 >= max_attempts as int {
            PollState::TimedOut
        } else {
            PollState::Pending { attempts: (attempts + 1) as u32 }
        },
        _ => s,
    }
}

/// The state after observing each verdict of `observed` in turn.
pub open spec fn run(s: PollState, observed: Seq<SolutionResult>, max_attempts: u32) -> PollState
    decreases observed.len(),
{
    if observed.len() == 0 {
        s
    } else {
        next_state(run(s, observed.drop_last(), max_attempts), observed.last(), max_attempts)
    }
}

impl PollState {
    /// The state for a submission whose verdict, as first listed, is `first`.
    pub fn start(first: SolutionResult) -> (r: PollState)
        ensures
            r == (if first is Other { PollState::Pending { attempts: 0 } } else { PollState::Terminal(first) }),
    {
        if first.is_terminal() {
            PollState::Terminal(first)
        } else {
            PollState::Pending { attempts: 0 }
        }
    }

    /// Records one fetched verdict.
    pub fn step(&self, observed: SolutionResult, max_attempts: u32) -> (r: PollState)
        ensures
            r == next_state(*self, observed, max_attempts),
    {
        match *self {
            PollState::Pending { attempts } => {
                if observed.is_terminal() {
                    PollState::Terminal(observed)
                } else if attempts >= max_attempts || max_attempts - attempts <= 1 {
                    PollState::TimedOut
                } else {
                    PollState::Pending { attempts: attempts + 1 }
                }
            },
            other => other,
        }
    }

    /// What to do in this state: fetch again only while pending.
    pub fn action(&self) -> (r: PollAction)
        ensures
            r == (if *self is Pending { PollAction::WaitAndFetch } else { PollAction::Stop }),
    {
        match self {
            PollState::Pending { .. } => PollAction::WaitAndFetch,
            _ => PollAction::Stop,
        }
    }
}

/// A terminal state is final: whatever verdicts are observed afterwards, for
/// this submission or any other, the recorded verdict stays.
pub proof fn lemma_terminal_is_final(v: SolutionResult, observed: Seq<SolutionResult>, max_attempts: u32)
    ensures
        run(PollState::Terminal(v), observed, max_attempts) == PollState::Terminal(v),
    decreases observed.len(),
{
    if observed.len() > 0 {
        lemma_terminal_is_final(v, observed.drop_last(), max_attempts);
    }
}

/// Polling is bounded: from the start, after `max_attempts` fetched verdicts
/// (and at least one) the state has left `Pending`, and a recorded final verdict is never `Other`.
pub proof fn lemma_poll_bounded(observed: Seq<SolutionResult>, max_attempts: u32)
    requires
        observed.len() >= max_attempts,
        observed.len() > 0,
    ensures
        !(run(PollState::Pending { attempts: 0 }, observed, max_attempts) is Pending),
        run(PollState::Pending { attempts: 0 }, observed, max_attempts) matches PollState::Terminal(v) ==> !(v is Other),
{
    lemma_poll_progress(observed, max_attempts);
}

/// After `k` observations from the start, the state is either still pending
/// with `k` attempts spent, or has left `Pending` for good.
proof fn lemma_poll_progress(observed: Seq<SolutionResult>, max_attempts: u32)
    ensures
        run(PollState::Pending { attempts: 0 }, observed, max_attempts) matches PollState::Pending { attempts }
            ==> attempts == observed.len() && (observed.len() == 0 || observed.len() < max_attempts),
        run(PollState::Pending { attempts: 0 }, observed, max_attempts) matches PollState::Terminal(v) ==> !(v is Other),
    decreases observed.len(),
{
    if observed.len() > 0 {
        lemma_poll_progress(observed.drop_last(), max_attempts);
    }
}

} // verus!
