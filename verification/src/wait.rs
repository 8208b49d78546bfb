//! The decisions of the wait-for-state protocol: when waiting for a screen
//! ends, how, and what each readiness event asks for. Polling and reading
//! are the caller's part.

use vstd::prelude::*;

verus! {

/// What a wait knows of the program under test.
#[derive(Clone, Copy, Debug, PartialEq, Eq, Structural)]
pub struct WaitState {
    /// The program has exited.
    pub exited: bool,
    /// Output arrived in the poll cycle that has just ended.
    pub had_data: bool,
}

/// How a wait goes on after a look at the screen.
#[derive(Clone, Copy, Debug, PartialEq, Eq, Structural)]
pub enum Verdict {
    /// The screen matches: the wait succeeds.
    Matched,
    /// The screen does not match and the time is up.
    TimedOut,
    /// The screen does not match and the program cannot change it any more.
    ProcessExited,
    /// The screen does not match yet: poll once more.
    KeepWaiting,
}

/// The verdict on a screen that matches or not, with the time up or not, in
/// the given state. A match counts before anything else, the time before the
/// exit, and an exit only after a cycle in which no output arrived.
pub open spec fn verdict(matches: bool, expired: bool, state: WaitState) -> Verdict {
    if matches {
        Verdict::Matched
    } else if expired {
        Verdict::TimedOut
    } else if state.exited && !state.had_data {
        Verdict::ProcessExited
    } else {
        Verdict::KeepWaiting
    }
}

/// Where a readiness event comes from.
#[derive(Clone, Copy, Debug, PartialEq, Eq, Structural)]
pub enum EventSource {
    /// The descriptor that reports the child's life cycle.
    ChildEvent,
    /// The descriptor of the terminal's output.
    Read,
    /// Anything else.
    Other,
}

/// One readiness event of a poll.
#[derive(Clone, Copy, Debug, PartialEq, Eq, Structural)]
pub struct PollEvent {
    pub source: EventSource,
    /// The descriptor has data to read. A hang-up alone brings none.
    pub readable: bool,
}

/// What a readiness event asks the caller to do.
#[derive(Clone, Copy, Debug, PartialEq, Eq, Structural)]
pub enum EventAction {
    /// Ask whether the child has exited, and report it with `child_event`.
    QueryChild,
    /// Read from the terminal, and report the outcome.
    Read,
    /// Nothing.
    Ignore,
}

/// The action that an event asks for. The terminal is read only if it has
/// data, so not on a hang-up alone.
pub open spec fn action_for(event: PollEvent) -> EventAction {
    match event.source {
        EventSource::ChildEvent => EventAction::QueryChild,
        EventSource::Read => if event.readable {
            EventAction::Read
        } else {
            EventAction::Ignore
        },
        EventSource::Other => EventAction::Ignore,
    }
}

/// The action that an event asks for.
pub fn on_event(event: &PollEvent) -> (action: EventAction)
    ensures
        action == action_for(*event),
{
    match event.source {
        EventSource::ChildEvent => EventAction::QueryChild,
        EventSource::Read => {
            if event.readable {
                EventAction::Read
            } else {
                // no I/O on a terminal that has nothing to say
                EventAction::Ignore
            }
        },
        EventSource::Other => EventAction::Ignore,
    }
}

/// What the caller found when it did what an event asked for.
pub enum Notice {
    /// The child was asked for its state; true if it has exited.
    ChildEvent(bool),
    /// The terminal was read and gave this many bytes.
    Read(nat),
}

impl WaitState {
    /// The state in which a wait starts.
    pub open spec fn initial() -> WaitState {
        WaitState { exited: false, had_data: false }
    }

    /// The state at the start of a poll cycle: no output has arrived in it.
    pub open spec fn after_cycle_start(self) -> WaitState {
        WaitState { had_data: false, ..self }
    }

    /// The state after one notice.
    pub open spec fn after_notice(self, notice: Notice) -> WaitState {
        match notice {
            Notice::ChildEvent(exited) => WaitState { exited: self.exited || exited, ..self },
            Notice::Read(count) => WaitState { had_data: self.had_data || count > 0, ..self },
        }
    }

    /// The state after the notices, taken in their order.
    pub open spec fn after_notices(self, notices: Seq<Notice>) -> WaitState
        decreases notices.len(),
    {
        if notices.len() == 0 {
            self
        } else {
            self.after_notices(notices.drop_last()).after_notice(notices.last())
        }
    }

    /// The state after a whole poll cycle in which the notices came.
    pub open spec fn after_cycle(self, notices: Seq<Notice>) -> WaitState {
        self.after_cycle_start().after_notices(notices)
    }

    /// The state in which a wait starts: the program runs, nothing has
    /// arrived.
    pub fn new() -> (state: WaitState)
        ensures
            state == WaitState::initial(),
    {
        WaitState { exited: false, had_data: false }
    }

    /// Starts a poll cycle.
    pub fn begin_cycle(&mut self)
        ensures
            *final(self) == old(self).after_cycle_start(),
    {
        self.had_data = false;
    }

    /// Takes note of what the child said of its state.
    pub fn child_event(&mut self, exited: bool)
        ensures
            *final(self) == old(self).after_notice(Notice::ChildEvent(exited)),
    {
        if exited {
            self.exited = true;
        }
    }

    /// Takes note of a read that gave `count` bytes.
    pub fn data_read(&mut self, count: usize)
        ensures
            *final(self) == old(self).after_notice(Notice::Read(count as nat)),
    {
        if count > 0 {
            self.had_data = true;
        }
    }

    /// The verdict in this state.
    pub fn decide(&self, matches: bool, expired: bool) -> (v: Verdict)
        ensures
            v == verdict(matches, expired, *self),
    {
        if matches {
            Verdict::Matched
        } else if expired {
            Verdict::TimedOut
        } else if !self.had_data && self.exited {
            Verdict::ProcessExited
        } else {
            Verdict::KeepWaiting
        }
    }
}

/// True if one of the notices says that the child has exited.
pub open spec fn exit_noticed(notices: Seq<Notice>) -> bool {
    exists|i: int| 0 <= i < notices.len() && #[trigger] notices[i] == Notice::ChildEvent(true)
}

/// True if one of the notices is a read that gave bytes.
pub open spec fn output_noticed(notices: Seq<Notice>) -> bool {
    exists|i: int|
        0 <= i < notices.len() && (#[trigger] notices[i] matches Notice::Read(count) && count > 0)
}

/// After some notices the program counts as exited if it did before or one of
/// them said so, and output counts as arrived if it did before or one of them
/// was a read that gave bytes.
pub proof fn lemma_after_notices(state: WaitState, notices: Seq<Notice>)
    ensures
        state.after_notices(notices).exited == (state.exited || exit_noticed(notices)),
        state.after_notices(notices).had_data == (state.had_data || output_noticed(notices)),
    decreases notices.len(),
{
    if notices.len() > 0 {
        let front = notices.drop_last();
        lemma_after_notices(state, front);
        if exit_noticed(notices) {
            let i = choose|i: int|
                0 <= i < notices.len() && #[trigger] notices[i] == Notice::ChildEvent(true);
            if i < front.len() {
                assert(front[i] == Notice::ChildEvent(true));
            }
        }
        if output_noticed(notices) {
            let i = choose|i: int|
                0 <= i < notices.len() && (#[trigger] notices[i] matches Notice::Read(count)
                    && count > 0);
            if i < front.len() {
                assert(front[i] == notices[i]);
            }
        }
    }
}

/// A screen that matches ends the wait with success at once: whether the time
/// is up, the program has exited or output has just arrived makes no
/// difference.
pub proof fn lemma_match_succeeds_at_once(expired: bool, state: WaitState)
    ensures
        verdict(true, expired, state) == Verdict::Matched,
{
}

/// Once the program has exited, a poll cycle without output settles it: if
/// the screen still does not match, the wait ends with `ProcessExited`
/// although the time is not up.
pub proof fn lemma_quiet_exit_is_final(state: WaitState, notices: Seq<Notice>)
    requires
        state.exited || exit_noticed(notices),
        !output_noticed(notices),
    ensures
        verdict(false, false, state.after_cycle(notices)) == Verdict::ProcessExited,
{
    lemma_after_notices(state.after_cycle_start(), notices);
}

/// Output that arrives in the same cycle as the child's exit is looked at
/// first: after such a cycle the wait never ends with `ProcessExited`, and it
/// succeeds if the screen matches.
pub proof fn lemma_output_defers_exit(
    state: WaitState,
    notices: Seq<Notice>,
    matches: bool,
    expired: bool,
)
    requires
        output_noticed(notices),
    ensures
        state.after_cycle(notices).had_data,
        verdict(matches, expired, state.after_cycle(notices)) != Verdict::ProcessExited,
        matches ==> verdict(matches, expired, state.after_cycle(notices)) == Verdict::Matched,
{
    lemma_after_notices(state.after_cycle_start(), notices);
}

/// A wait never ends with `ProcessExited` before the child's exit was noticed.
pub proof fn lemma_no_exit_unnoticed(notices: Seq<Notice>, matches: bool, expired: bool)
    requires
        !exit_noticed(notices),
    ensures
        verdict(matches, expired, WaitState::initial().after_cycle(notices))
            != Verdict::ProcessExited,
{
    lemma_after_notices(WaitState::initial().after_cycle_start(), notices);
}

} // verus!
