//! The background reader's decisions.
//!
//! The reader loop itself runs outside the library, because it blocks on the
//! transport and calls back into the host. Each pass of that loop reads the
//! closing flag ([`ReaderState::poll`]), then, if it goes on, reads one chunk
//! and hands the outcome to [`ReaderState::handle_read`], which says which
//! callback to fire and whether the loop ends.

use vstd::prelude::*;

verus! {

/// The largest number of bytes one read asks of the transport.
pub const READ_CHUNK: usize = 1024;

/// What one bounded read of the transport gave.
#[derive(Clone, Copy, Debug, PartialEq, Eq, Structural)]
pub enum ReadOutcome {
    /// This many bytes were read into the chunk buffer.
    Received(usize),
    /// The read timed out: a normal polling condition.
    TimedOut,
    /// The remote end is gone (broken pipe).
    PipeClosed,
    /// Any other read error.
    Failed,
}

/// What the reader does after a read.
#[derive(Clone, Copy, Debug, PartialEq, Eq, Structural)]
pub enum ReaderAction {
    /// Hand the first this many bytes of the chunk buffer to the data callback.
    Deliver(usize),
    /// Fire the disconnect callback.
    NotifyDisconnect,
    /// Fire nothing.
    Continue,
}

/// Whether the reader loop still runs.
#[derive(Clone, Copy, Debug, PartialEq, Eq, Structural)]
pub enum ReaderState {
    Running,
    Terminated,
}

/// The callback that a read outcome fires, if any.
pub open spec fn action_for(o: ReadOutcome) -> ReaderAction {
    match o {
        ReadOutcome::Received(n) => if n > 0 {
            ReaderAction::Deliver(n)
        } else {
            ReaderAction::Continue
        },
        ReadOutcome::TimedOut => ReaderAction::Continue,
        ReadOutcome::PipeClosed => ReaderAction::NotifyDisconnect,
        ReadOutcome::Failed => ReaderAction::NotifyDisconnect,
    }
}

/// The state after a read: only a closed pipe ends the loop.
pub open spec fn after_read(o: ReadOutcome) -> ReaderState {
    if o is PipeClosed {
        ReaderState::Terminated
    } else {
        ReaderState::Running
    }
}

/// Whether a pass that finds the reader in state `s` and the closing flag
/// as `closing` reads the transport.
pub open spec fn reads_now(s: ReaderState, closing: bool) -> bool {
    s is Running && !closing
}

/// The callbacks fired by the reader from state `s`, where the i-th pass of
/// the loop finds the closing flag as `ticks[i].0` and, if it reads, gets
/// `ticks[i].1`.
pub open spec fn fired(s: ReaderState, ticks: Seq<(bool, ReadOutcome)>) -> Seq<ReaderAction>
    decreases ticks.len(),
{
    if ticks.len() == 0 || !reads_now(s, ticks[0].0) {
        seq![]
    } else {
        let a = action_for(ticks[0].1);
        let now = if a is Continue {
            seq![]
        } else {
            seq![a]
        };
        now + fired(after_read(ticks[0].1), ticks.drop_first())
    }
}

/// The number of reads that the reader makes from state `s` over `ticks`.
pub open spec fn reads_made(s: ReaderState, ticks: Seq<(bool, ReadOutcome)>) -> nat
    decreases ticks.len(),
{
    if ticks.len() == 0 || !reads_now(s, ticks[0].0) {
        0
    } else {
        1 + reads_made(after_read(ticks[0].1), ticks.drop_first())
    }
}

/// `n` passes, each with the flag clear and a read that timed out.
pub open spec fn timeouts(n: nat) -> Seq<(bool, ReadOutcome)> {
    Seq::new(n, |i: int| (false, ReadOutcome::TimedOut))
}

impl ReaderState {
    /// A reader that has just been started.
    pub fn start() -> (r: ReaderState)
        ensures
            r == ReaderState::Running,
    {
        ReaderState::Running
    }

    pub fn is_running(&self) -> (r: bool)
        ensures
            r == (*self is Running),
    {
        match self {
            ReaderState::Running => true,
            ReaderState::Terminated => false,
        }
    }

    /// The top of a pass: says whether to read now. A set closing flag ends
    /// the loop, and an ended loop stays ended.
    pub fn poll(&mut self, closing: bool) -> (go: bool)
        ensures
            go == reads_now(*old(self), closing),
            *final(self) == (if go {
                ReaderState::Running
            } else {
                ReaderState::Terminated
            }),
    {
        if closing {
            *self = ReaderState::Terminated;
        }
        self.is_running()
    }

    /// The rest of a pass: the callback to fire for `outcome`, and the state
    /// after it. Timeouts and empty reads fire nothing; every error but a
    /// closed pipe is reported and the loop goes on.
    pub fn handle_read(&mut self, outcome: ReadOutcome) -> (a: ReaderAction)
        requires
            *old(self) is Running,
        ensures
            a == action_for(outcome),
            *final(self) == after_read(outcome),
    {
        match outcome {
            ReadOutcome::Received(n) => if n > 0 {
                ReaderAction::Deliver(n)
            } else {
                ReaderAction::Continue
            },
            ReadOutcome::TimedOut => ReaderAction::Continue,
            ReadOutcome::PipeClosed => {
                *self = ReaderState::Terminated;
                ReaderAction::NotifyDisconnect
            },
            ReadOutcome::Failed => ReaderAction::NotifyDisconnect,
        }
    }
}

/// A reader that finds the closing flag set on its first pass (as after an
/// open followed at once by a disconnect) reads nothing and fires no callback.
pub proof fn closed_before_first_read(ticks: Seq<(bool, ReadOutcome)>)
    requires
        ticks.len() > 0,
        ticks[0].0,
    ensures
        fired(ReaderState::Running, ticks) == Seq::<ReaderAction>::empty(),
        reads_made(ReaderState::Running, ticks) == 0,
{
}

/// A terminated reader reads nothing and fires no callback, whatever comes.
pub proof fn terminated_stays_silent(ticks: Seq<(bool, ReadOutcome)>)
    ensures
        fired(ReaderState::Terminated, ticks) == Seq::<ReaderAction>::empty(),
        reads_made(ReaderState::Terminated, ticks) == 0,
{
}

/// Timeouts fire no callback and do not end the loop: after any number of
/// them the reader goes on exactly as it would have without them.
pub proof fn timeouts_are_absorbed(n: nat, rest: Seq<(bool, ReadOutcome)>)
    ensures
        fired(ReaderState::Running, timeouts(n) + rest) == fired(ReaderState::Running, rest),
        reads_made(ReaderState::Running, timeouts(n) + rest) == n + reads_made(
            ReaderState::Running,
            rest,
        ),
    decreases n,
{
    let ticks = timeouts(n) + rest;
    if n > 0 {
        assert(ticks[0] == (false, ReadOutcome::TimedOut));
        assert(ticks.drop_first() =~= timeouts((n - 1) as nat) + rest);
        timeouts_are_absorbed((n - 1) as nat, rest);
    } else {
        assert(ticks =~= rest);
    }
}

/// After any number of timeouts, a read of `k > 0` bytes is still delivered.
pub proof fn data_after_timeouts(n: nat, k: usize)
    requires
        k > 0,
    ensures
        fired(ReaderState::Running, timeouts(n).push((false, ReadOutcome::Received(k)))) == seq![
            ReaderAction::Deliver(k),
        ],
{
    let last = seq![(false, ReadOutcome::Received(k))];
    assert(timeouts(n).push((false, ReadOutcome::Received(k))) =~= timeouts(n) + last);
    timeouts_are_absorbed(n, last);
    assert(last.drop_first() =~= Seq::<(bool, ReadOutcome)>::empty());
    assert(fired(ReaderState::Running, last.drop_first()) == Seq::<ReaderAction>::empty());
    assert(action_for(last[0].1) == ReaderAction::Deliver(k));
    assert(seq![ReaderAction::Deliver(k)] + Seq::<ReaderAction>::empty() =~= seq![
        ReaderAction::Deliver(k),
    ]);
}

/// A closed pipe fires the disconnect callback once and ends the loop: after
/// it no read is made and no callback fires, whatever the later passes hold.
pub proof fn pipe_closure_ends_reading(
    before: Seq<(bool, ReadOutcome)>,
    after: Seq<(bool, ReadOutcome)>,
)
    requires
        forall|i: int| 0 <= i < before.len() ==> !before[i].0 && !(before[i].1 is PipeClosed),
    ensures
        fired(ReaderState::Running, before + seq![(false, ReadOutcome::PipeClosed)] + after)
            == fired(ReaderState::Running, before).push(ReaderAction::NotifyDisconnect),
        reads_made(ReaderState::Running, before + seq![(false, ReadOutcome::PipeClosed)] + after)
            == before.len() + 1,
    decreases before.len(),
{
    let ticks = before + seq![(false, ReadOutcome::PipeClosed)] + after;
    if before.len() == 0 {
        assert(ticks[0] == (false, ReadOutcome::PipeClosed));
        terminated_stays_silent(ticks.drop_first());
        assert(fired(ReaderState::Running, ticks) =~= seq![ReaderAction::NotifyDisconnect]);
    } else {
        let tail = before.drop_first();
        assert(ticks[0] == before[0]);
        assert(ticks.drop_first() =~= tail + seq![(false, ReadOutcome::PipeClosed)] + after);
        assert forall|i: int| 0 <= i < tail.len() implies !tail[i].0 && !(
        tail[i].1 is PipeClosed) by {
            assert(tail[i] == before[i + 1]);
        }
        pipe_closure_ends_reading(tail, after);
        let a = action_for(before[0].1);
        let now = if a is Continue {
            Seq::<ReaderAction>::empty()
        } else {
            seq![a]
        };
        assert(now + fired(ReaderState::Running, tail).push(ReaderAction::NotifyDisconnect) =~= (
        now + fired(ReaderState::Running, tail)).push(ReaderAction::NotifyDisconnect));
    }
}

} // verus!
