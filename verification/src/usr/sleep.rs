//! The sleep test program: it yields until five seconds have passed.
use vstd::prelude::*;
use crate::usr::sys_call::TimeVal;

verus! {

/// How long the program sleeps, in microseconds.
pub const SLEEP_US: usize = 5_000_000;

/// How many times the program reads the clock before giving up.
pub const MAX_POLLS: usize = 10_000_000;

/// The time in microseconds from the answer of a `get_time` call: `None`
/// when the call failed (returned non-zero).
pub fn now_us(ret: isize, ts: TimeVal) -> (t: Option<usize>)
    requires
        ret == 0 ==> ts.sec * 1_000_000 + ts.usec <= usize::MAX,
    ensures
        ret != 0 ==> t is None,
        ret == 0 ==> t == Some((ts.sec * 1_000_000 + ts.usec) as usize),
{
    if ret != 0 {
        return None;
    }
    Some(ts.sec * 1_000_000 + ts.usec)
}

/// How the test ends.
#[derive(Clone, Copy, Debug, PartialEq, Eq, Structural)]
pub enum SleepOutcome {
    /// The deadline was reached.
    Passed,
    /// Reading the time failed.
    TimeError,
    /// The clock was read `MAX_POLLS` times without reaching the deadline.
    PollLimit,
}

impl SleepOutcome {
    /// The program's exit code: 0 when it passed, -1 otherwise.
    pub fn exit_code(&self) -> (code: i32)
        ensures
            code == (if *self == SleepOutcome::Passed { 0i32 } else { -1i32 }),
    {
        match self {
            SleepOutcome::Passed => 0,
            _ => -1,
        }
    }
}

/// The next step of the test.
#[derive(Clone, Copy, Debug, PartialEq, Eq, Structural)]
pub enum SleepStep {
    /// Yield, then read the clock again.
    Yield,
    /// Stop with this outcome.
    Done(SleepOutcome),
}

/// The state of the test: the deadline and how many times the clock was
/// read since the start.
#[derive(Clone, Copy, Debug, PartialEq, Eq, Structural)]
pub struct SleepTest {
    pub deadline: usize,
    pub polls: usize,
}

impl SleepTest {
    /// Starts the test from the first reading of the clock: the deadline is
    /// `SLEEP_US` later; a failed reading ends the test.
    pub fn start(now: Option<usize>) -> (r: Result<SleepTest, SleepOutcome>)
        requires
            now matches Some(t) ==> t + SLEEP_US <= usize::MAX,
        ensures
            now is None ==> r == Err::<SleepTest, SleepOutcome>(SleepOutcome::TimeError),
            now matches Some(t) ==> r == Ok::<SleepTest, SleepOutcome>(SleepTest { deadline: (t + SLEEP_US) as usize, polls: 0 }),
    {
        match now {
            None => Err(SleepOutcome::TimeError),
            Some(t) => Ok(SleepTest { deadline: t + SLEEP_US, polls: 0 }),
        }
    }

    /// Whether the clock has been read `MAX_POLLS` times, after which the
    /// test gives up.
    pub fn finished_polling(&self) -> (r: bool)
        ensures
            r == (self.polls >= MAX_POLLS),
    {
        self.polls >= MAX_POLLS
    }

    /// One reading of the clock: the test passes once the deadline is
    /// reached, fails if the reading failed, and otherwise yields.
    pub fn poll(&mut self, now: Option<usize>) -> (step: SleepStep)
        requires
            old(self).polls < MAX_POLLS,
        ensures
            now is None ==> step == SleepStep::Done(SleepOutcome::TimeError) && *final(self) == *old(self),
            now matches Some(t) && t >= old(self).deadline ==> step == SleepStep::Done(SleepOutcome::Passed)
                && *final(self) == *old(self),
            now matches Some(t) && t < old(self).deadline ==> step == SleepStep::Yield && final(self).deadline
                == old(self).deadline && final(self).polls == old(self).polls + 1,
    {
        match now {
            None => SleepStep::Done(SleepOutcome::TimeError),
            Some(t) => if t >= self.deadline {
                SleepStep::Done(SleepOutcome::Passed)
            } else {
                self.polls = self.polls + 1;
                SleepStep::Yield
            },
        }
    }
}

/// Reading back a stored time gives the time that was stored: the kernel
/// splits `t` microseconds into `t / 1_000_000` seconds and
/// `t % 1_000_000` microseconds, the latter below one second, and user code
/// that joins them again gets `t`, without overflow.
pub proof fn law_time_round_trip(t: usize)
    ensures
        (t / 1_000_000) * 1_000_000 + t % 1_000_000 == t,
        t % 1_000_000 < 1_000_000,
{
}

} // verus!
