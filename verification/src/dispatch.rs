//! The render loop's event dispatcher: a state machine over host events.
//!
//! Each loop iteration dispatches one event. A close request or an Escape
//! key press moves the loop to its terminal `Exiting` state; the
//! "all events processed" marker triggers one frame and schedules the next
//! wake-up; every other event is ignored.

use vstd::prelude::*;
use crate::pacing::FRAME_BUDGET_NS;

verus! {

/// A pressed key, reduced to what the dispatcher distinguishes.
#[derive(Copy, Clone, Debug, PartialEq, Eq, Structural)]
pub enum Key {
    Escape,
    /// Any key other than Escape, including unrecognized ones.
    Other,
}

/// One event handed to the dispatcher by the host's event pump.
#[derive(Copy, Clone, Debug, PartialEq, Eq, Structural)]
pub enum Event {
    /// The user asked to close the window.
    CloseRequested,
    /// A key was pressed while the window had focus.
    KeyPressed(Key),
    /// Any other window event.
    OtherWindow,
    /// All pending events are drained; time to produce a frame.
    MainEventsCleared,
    /// Any other host event.
    OtherHost,
}

/// The loop's own state. `Exiting` is terminal.
#[derive(Copy, Clone, Debug, PartialEq, Eq, Structural)]
pub enum LoopState {
    Running,
    Exiting,
}

/// What the host scheduler is told after an iteration. This loop only ever
/// asks for `WaitingUntil` (frame pacing) or `Exiting`; `Continuing` is the
/// host's busy-poll default and is never requested here.
#[derive(Copy, Clone, Debug, PartialEq, Eq, Structural)]
pub enum ControlFlowState {
    Continuing,
    /// Sleep until the given instant, in nanoseconds on the host's
    /// monotonic clock, then run the next iteration.
    WaitingUntil(u64),
    Exiting,
}

/// Whether the iteration should draw a frame.
#[derive(Copy, Clone, Debug, PartialEq, Eq, Structural)]
pub enum FrameDirective {
    Idle,
    DrawFrame,
}

/// Everything one dispatch decides: the next loop state, the scheduler
/// request, and whether to draw.
#[derive(Copy, Clone, Debug, PartialEq, Eq, Structural)]
pub struct StepOutcome {
    pub state: LoopState,
    pub control_flow: ControlFlowState,
    pub directive: FrameDirective,
}

/// The transition function of the loop state: a close request or Escape
/// ends the loop, everything else leaves it as it is.
pub open spec fn next_state(s: LoopState, ev: Event) -> LoopState {
    match s {
        LoopState::Exiting => LoopState::Exiting,
        LoopState::Running => match ev {
            Event::CloseRequested => LoopState::Exiting,
            Event::KeyPressed(Key::Escape) => LoopState::Exiting,
            _ => LoopState::Running,
        },
    }
}

/// A frame is drawn exactly when the loop is still running and the event
/// queue has just been drained.
pub open spec fn frame_directive(s: LoopState, ev: Event) -> FrameDirective {
    if s is Running && ev is MainEventsCleared {
        FrameDirective::DrawFrame
    } else {
        FrameDirective::Idle
    }
}

/// The scheduler request after dispatching `ev` at instant `now_ns`: exit
/// when the loop is over, otherwise wake up one frame budget from now.
pub open spec fn control_flow_after(s: LoopState, ev: Event, now_ns: u64) -> ControlFlowState {
    if next_state(s, ev) is Exiting {
        ControlFlowState::Exiting
    } else {
        ControlFlowState::WaitingUntil((now_ns + FRAME_BUDGET_NS) as u64)
    }
}

/// Dispatch one event: the executable form of the three spec functions
/// above. A close request from any state, and Escape from `Running`, end
/// the loop with no frame drawn; any other key or event leaves the state
/// unchanged.
pub fn step(state: LoopState, ev: Event, now_ns: u64) -> (r: StepOutcome)
    requires
        now_ns + FRAME_BUDGET_NS <= u64::MAX,
    ensures
        r.state == next_state(state, ev),
        r.directive == frame_directive(state, ev),
        r.control_flow == control_flow_after(state, ev, now_ns),
        ev is CloseRequested ==> r.state is Exiting && r.directive is Idle,
        ev == Event::KeyPressed(Key::Escape) ==> r.state is Exiting && r.directive is Idle,
        state is Running && !(ev is CloseRequested) && ev != Event::KeyPressed(Key::Escape)
            ==> r.state is Running,
        r.state is Exiting <==> r.control_flow is Exiting,
        !(r.control_flow is Continuing),
{
    let next = match state {
        LoopState::Exiting => LoopState::Exiting,
        LoopState::Running => match ev {
            Event::CloseRequested => LoopState::Exiting,
            Event::KeyPressed(Key::Escape) => LoopState::Exiting,
            _ => LoopState::Running,
        },
    };
    let directive = match (state, ev) {
        (LoopState::Running, Event::MainEventsCleared) => FrameDirective::DrawFrame,
        _ => FrameDirective::Idle,
    };
    let control_flow = match next {
        LoopState::Exiting => ControlFlowState::Exiting,
        LoopState::Running => ControlFlowState::WaitingUntil(now_ns + FRAME_BUDGET_NS),
    };
    StepOutcome { state: next, control_flow, directive }
}

/// The loop state after dispatching a whole sequence of events in order.
pub open spec fn state_after(s0: LoopState, evs: Seq<Event>) -> LoopState
    decreases evs.len(),
{
    if evs.len() == 0 {
        s0
    } else {
        next_state(state_after(s0, evs.drop_last()), evs.last())
    }
}

/// Dispatching splits over concatenation of event sequences.
pub proof fn lemma_state_after_append(s0: LoopState, a: Seq<Event>, b: Seq<Event>)
    ensures
        state_after(s0, a + b) == state_after(state_after(s0, a), b),
    decreases b.len(),
{
    if b.len() == 0 {
        assert(a + b =~= a);
    } else {
        lemma_state_after_append(s0, a, b.drop_last());
        assert((a + b).drop_last() =~= a + b.drop_last());
    }
}

/// `Exiting` is terminal: no sequence of further events leaves it.
pub proof fn lemma_exiting_is_terminal(evs: Seq<Event>)
    ensures
        state_after(LoopState::Exiting, evs) == LoopState::Exiting,
    decreases evs.len(),
{
    if evs.len() > 0 {
        lemma_exiting_is_terminal(evs.drop_last());
    }
}

/// Once a close request has been dispatched, the loop is in `Exiting` for
/// every later event, and no later event draws a frame.
pub proof fn lemma_no_frame_after_close(s0: LoopState, evs: Seq<Event>, i: int, j: int)
    requires
        0 <= i < j < evs.len(),
        evs[i] is CloseRequested,
    ensures
        state_after(s0, evs.take(j)) is Exiting,
        frame_directive(state_after(s0, evs.take(j)), evs[j]) is Idle,
{
    lemma_exiting_after(s0, evs, i, j);
}

/// Once Escape has been dispatched, the loop is in `Exiting` for every
/// later event, and no later event draws a frame.
pub proof fn lemma_no_frame_after_escape(s0: LoopState, evs: Seq<Event>, i: int, j: int)
    requires
        0 <= i < j < evs.len(),
        evs[i] == Event::KeyPressed(Key::Escape),
    ensures
        state_after(s0, evs.take(j)) is Exiting,
        frame_directive(state_after(s0, evs.take(j)), evs[j]) is Idle,
{
    lemma_exiting_after(s0, evs, i, j);
}

/// Shared argument: if the event at position `i` ends the loop from any
/// state, the state before every later position `j` is `Exiting`.
proof fn lemma_exiting_after(s0: LoopState, evs: Seq<Event>, i: int, j: int)
    requires
        0 <= i < j < evs.len(),
        forall|s: LoopState| next_state(s, evs[i]) is Exiting,
    ensures
        state_after(s0, evs.take(j)) is Exiting,
        frame_directive(state_after(s0, evs.take(j)), evs[j]) is Idle,
{
    let a = evs.take(i + 1);
    let b = evs.take(j).skip(i + 1);
    assert(evs.take(j) =~= a + b);
    lemma_state_after_append(s0, a, b);
    assert(a.drop_last() =~= evs.take(i));
    assert(state_after(s0, a) == next_state(state_after(s0, evs.take(i)), evs[i]));
    lemma_exiting_is_terminal(b);
}

} // verus!
