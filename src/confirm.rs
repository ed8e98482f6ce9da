use vstd::prelude::*;
use crate::error::LezardError;

verus! {

/// Waits for the engine's block height to move past `initial`, giving up once
/// more than `timeout_ms` milliseconds have passed since the wait began.
#[derive(Clone, Copy, Debug, PartialEq, Eq)]
pub struct ConfirmationWaiter {
    pub initial: u64,
    pub timeout_ms: u64,
}

/// What the waiter does after one reading of the block height.
#[derive(Clone, Copy, Debug, PartialEq, Eq)]
pub enum WaitStep {
    /// A height above the initial one was seen: the wait succeeds with it.
    Progressed(u64),
    /// No progress yet and time is left: sleep one poll interval, read again.
    Sleep,
    /// No progress and the time is up: fail, stalled at the given height.
    TimedOut(u64),
}

pub open spec fn poll_decision(initial: u64, timeout_ms: u64, current: u64, elapsed_ms: u64) -> WaitStep {
    if current > initial {
        WaitStep::Progressed(current)
    } else if elapsed_ms > timeout_ms {
        WaitStep::TimedOut(initial)
    } else {
        WaitStep::Sleep
    }
}

impl ConfirmationWaiter {
    pub fn new(initial: u64, timeout_ms: u64) -> (r: ConfirmationWaiter)
        ensures
            r.initial == initial,
            r.timeout_ms == timeout_ms,
    {
        ConfirmationWaiter { initial, timeout_ms }
    }

    /// Decides what follows a reading of `current` taken `elapsed_ms`
    /// milliseconds after the wait began.
    pub fn on_poll(&self, current: u64, elapsed_ms: u64) -> (r: WaitStep)
        ensures
            r == poll_decision(self.initial, self.timeout_ms, current, elapsed_ms),
            r matches WaitStep::Progressed(h) ==> h > self.initial,
    {
        if current > self.initial {
            WaitStep::Progressed(current)
        } else if elapsed_ms > self.timeout_ms {
            WaitStep::TimedOut(self.initial)
        } else {
            WaitStep::Sleep
        }
    }
}

/// Outcome of a wait whose `i`-th height reading (from zero) is `readings[i]`,
/// taken after `i + 1` sleeps of `poll_ms` milliseconds. Running out of
/// readings means the engine stopped answering.
pub open spec fn await_outcome(
    initial: u64,
    poll_ms: u64,
    timeout_ms: u64,
    readings: Seq<u64>,
    i: nat,
) -> Result<u64, LezardError>
    decreases readings.len() - i,
{
    if i >= readings.len() {
        Err(LezardError::Network)
    } else if readings[i as int] > initial {
        Ok(readings[i as int])
    } else if (i + 1) * poll_ms > timeout_ms {
        Err(LezardError::Timeout { stalled_at: initial })
    } else {
        await_outcome(initial, poll_ms, timeout_ms, readings, i + 1)
    }
}

/// A wait never succeeds with a height at or below the one it started from,
/// and fails only by timing out or by losing the engine.
pub proof fn lemma_await_outcome_progress(
    initial: u64,
    poll_ms: u64,
    timeout_ms: u64,
    readings: Seq<u64>,
    i: nat,
)
    ensures
        await_outcome(initial, poll_ms, timeout_ms, readings, i) matches Ok(h) ==> h > initial,
        await_outcome(initial, poll_ms, timeout_ms, readings, i) matches Err(e) ==> (e
            == LezardError::Timeout { stalled_at: initial } || e == LezardError::Network),
    decreases readings.len() - i,
{
    if i < readings.len() && readings[i as int] <= initial && (i + 1) * poll_ms <= timeout_ms {
        lemma_await_outcome_progress(initial, poll_ms, timeout_ms, readings, i + 1);
    }
}

/// Whether the wait timed out after reading `readings[0..=n]`: each of those
/// heights is at or below `initial`, and the `n + 1`-th sleep took the time
/// past `timeout_ms` while the `n` before it had not.
pub open spec fn stalled_through(
    initial: u64,
    poll_ms: u64,
    timeout_ms: u64,
    readings: Seq<u64>,
    n: int,
) -> bool {
    &&& 0 <= n < readings.len()
    &&& n * poll_ms <= timeout_ms < (n + 1) * poll_ms
    &&& forall|j: int| 0 <= j <= n ==> readings[j] <= initial
}

/// When the readings last past the timeout, a wait has two outcomes only: a
/// height above the initial one, or a timeout once the time is up, with every
/// height read until then at or below the initial one.
pub proof fn lemma_await_outcome_bounded(
    initial: u64,
    poll_ms: u64,
    timeout_ms: u64,
    readings: Seq<u64>,
    i: nat,
)
    requires
        readings.len() * poll_ms > timeout_ms,
        i * poll_ms <= timeout_ms,
        forall|j: int| 0 <= j < i ==> readings[j] <= initial,
    ensures
        await_outcome(initial, poll_ms, timeout_ms, readings, i) matches Ok(h) ==> h > initial,
        await_outcome(initial, poll_ms, timeout_ms, readings, i) matches Err(e) ==> (e
            == LezardError::Timeout { stalled_at: initial } && exists|n: int|
            stalled_through(initial, poll_ms, timeout_ms, readings, n)),
    decreases readings.len() - i,
{
    if i >= readings.len() {
        assert(i * poll_ms >= readings.len() * poll_ms) by (nonlinear_arith)
            requires
                i >= readings.len(),
        ;
    }
    if readings[i as int] <= initial {
        if (i + 1) * poll_ms > timeout_ms {
            assert(stalled_through(initial, poll_ms, timeout_ms, readings, i as int));
        } else {
            lemma_await_outcome_bounded(initial, poll_ms, timeout_ms, readings, i + 1);
        }
    }
}

/// Runs the wait against a recorded series of height readings, sleeping
/// `poll_ms` before each reading.
pub fn await_progress(initial: u64, poll_ms: u64, timeout_ms: u64, readings: &Vec<u64>) -> (r: Result<
    u64,
    LezardError,
>)
    ensures
        r == await_outcome(initial, poll_ms, timeout_ms, readings@, 0),
        r matches Ok(h) ==> h > initial,
        r matches Err(e) ==> (e == LezardError::Timeout { stalled_at: initial } || e
            == LezardError::Network),
        readings@.len() * poll_ms > timeout_ms ==> (r matches Err(e) ==> (e
            == LezardError::Timeout { stalled_at: initial } && exists|n: int|
            stalled_through(initial, poll_ms, timeout_ms, readings@, n))),
{
    proof {
        lemma_await_outcome_progress(initial, poll_ms, timeout_ms, readings@, 0);
        if readings@.len() * poll_ms > timeout_ms {
            lemma_await_outcome_bounded(initial, poll_ms, timeout_ms, readings@, 0);
        }
    }
    let mut i: usize = 0;
    let mut elapsed: u128 = 0;
    while i < readings.len()
        invariant
            i <= readings@.len(),
            elapsed == i * poll_ms,
            elapsed <= timeout_ms,
            await_outcome(initial, poll_ms, timeout_ms, readings@, i as nat) == await_outcome(
                initial,
                poll_ms,
                timeout_ms,
                readings@,
                0,
            ),
            readings@.len() * poll_ms > timeout_ms ==> (await_outcome(
                initial,
                poll_ms,
                timeout_ms,
                readings@,
                0,
            ) matches Err(e) ==> (e == LezardError::Timeout { stalled_at: initial } && exists|
                n: int,
            | stalled_through(initial, poll_ms, timeout_ms, readings@, n))),
        decreases readings@.len() - i,
    {
        proof {
            assert((i + 1) * poll_ms == i * poll_ms + poll_ms) by (nonlinear_arith);
        }
        elapsed = elapsed + poll_ms as u128;
        if readings[i] > initial {
            return Ok(readings[i]);
        }
        if elapsed > timeout_ms as u128 {
            return Err(LezardError::Timeout { stalled_at: initial });
        }
        i = i + 1;
    }
    Err(LezardError::Network)
}

} // verus!
