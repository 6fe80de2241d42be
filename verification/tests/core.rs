use rust_in_peace::ControlFlowState;
use rust_in_peace::Event;
use rust_in_peace::FrameDirective;
use rust_in_peace::Key;
use rust_in_peace::LoopState;
use rust_in_peace::center_position;
use rust_in_peace::frame_budget_ns;
use rust_in_peace::next_frame_deadline;
use rust_in_peace::step;
use rust_in_peace::FRAME_BUDGET_NS;
use rust_in_peace::TARGET_FPS;

#[test]
fn window_is_centered_on_full_hd_monitor() {
    let (x, y) = center_position(1920, 1080, 1280, 600);
    assert_eq!((x, y), (320, 240));
}

#[test]
fn centering_formula_on_other_sizes() {
    assert_eq!(center_position(1920, 1080, 1920, 1080), (0, 0));
    assert_eq!(center_position(2560, 1440, 1280, 600), (640, 420));
    // Odd differences round down.
    assert_eq!(center_position(1921, 1081, 1280, 600), (320, 240));
}

#[test]
fn frame_budget_at_sixty_fps_is_exact() {
    assert_eq!(frame_budget_ns(60), 16_666_666);
    assert_eq!(frame_budget_ns(TARGET_FPS), FRAME_BUDGET_NS);
}

#[test]
fn frame_budget_rounds_down() {
    assert_eq!(frame_budget_ns(1), 1_000_000_000);
    assert_eq!(frame_budget_ns(3), 333_333_333);
    assert_eq!(frame_budget_ns(144), 6_944_444);
}

#[test]
fn next_frame_deadline_adds_the_budget() {
    assert_eq!(next_frame_deadline(0), FRAME_BUDGET_NS);
    assert_eq!(next_frame_deadline(1_000), 1_000 + FRAME_BUDGET_NS);
}

#[test]
fn close_request_exits_with_no_frame() {
    let out = step(LoopState::Running, Event::CloseRequested, 0);
    assert_eq!(out.state, LoopState::Exiting);
    assert_eq!(out.directive, FrameDirective::Idle);
    assert_eq!(out.control_flow, ControlFlowState::Exiting);
}

#[test]
fn close_request_exits_from_exiting_state_too() {
    let out = step(LoopState::Exiting, Event::CloseRequested, 0);
    assert_eq!(out.state, LoopState::Exiting);
    assert_eq!(out.directive, FrameDirective::Idle);
    assert_eq!(out.control_flow, ControlFlowState::Exiting);
}

#[test]
fn escape_exits_with_no_frame() {
    let out = step(LoopState::Running, Event::KeyPressed(Key::Escape), 7);
    assert_eq!(out.state, LoopState::Exiting);
    assert_eq!(out.directive, FrameDirective::Idle);
    assert_eq!(out.control_flow, ControlFlowState::Exiting);
}

#[test]
fn other_key_leaves_the_loop_running() {
    let out = step(LoopState::Running, Event::KeyPressed(Key::Other), 100);
    assert_eq!(out.state, LoopState::Running);
    assert_eq!(out.directive, FrameDirective::Idle);
    assert_eq!(out.control_flow, ControlFlowState::WaitingUntil(100 + FRAME_BUDGET_NS));
}

#[test]
fn other_events_leave_the_loop_running() {
    for ev in [Event::OtherWindow, Event::OtherHost] {
        let out = step(LoopState::Running, ev, 42);
        assert_eq!(out.state, LoopState::Running);
        assert_eq!(out.directive, FrameDirective::Idle);
        assert_eq!(out.control_flow, ControlFlowState::WaitingUntil(42 + FRAME_BUDGET_NS));
    }
}

#[test]
fn drained_queue_draws_and_schedules_next_frame() {
    let out = step(LoopState::Running, Event::MainEventsCleared, 1_000_000);
    assert_eq!(out.state, LoopState::Running);
    assert_eq!(out.directive, FrameDirective::DrawFrame);
    assert_eq!(out.control_flow, ControlFlowState::WaitingUntil(1_000_000 + FRAME_BUDGET_NS));
}

#[test]
fn exiting_state_never_draws() {
    for ev in [
        Event::MainEventsCleared,
        Event::KeyPressed(Key::Other),
        Event::OtherWindow,
        Event::OtherHost,
    ] {
        let out = step(LoopState::Exiting, ev, 0);
        assert_eq!(out.state, LoopState::Exiting);
        assert_eq!(out.directive, FrameDirective::Idle);
        assert_eq!(out.control_flow, ControlFlowState::Exiting);
    }
}

#[test]
fn no_frame_is_drawn_after_a_close_request() {
    // Dispatch a whole session: a few frames, then a close request, then
    // more events; nothing after the close request may draw.
    let events = [
        Event::MainEventsCleared,
        Event::OtherWindow,
        Event::MainEventsCleared,
        Event::CloseRequested,
        Event::MainEventsCleared,
        Event::KeyPressed(Key::Other),
        Event::MainEventsCleared,
    ];
    let mut state = LoopState::Running;
    let mut frames_after_close = 0;
    let mut closed = false;
    for ev in events {
        let out = step(state, ev, 0);
        if closed && out.directive == FrameDirective::DrawFrame {
            frames_after_close += 1;
        }
        if ev == Event::CloseRequested {
            closed = true;
        }
        state = out.state;
    }
    assert!(closed);
    assert_eq!(state, LoopState::Exiting);
    assert_eq!(frames_after_close, 0);
}
