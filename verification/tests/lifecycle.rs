use gradient_window::lifecycle::Action;
use gradient_window::lifecycle::Controller;
use gradient_window::lifecycle::DrawOutcome;
use gradient_window::lifecycle::Phase;
use gradient_window::lifecycle::WindowSignal;

#[test]
fn first_activation_initializes_display() {
    let mut c = Controller::new();
    assert_eq!(c.phase, Phase::Uninitialized);
    assert!(!c.closed);
    assert_eq!(c.on_activate(), Action::InitializeDisplay);
    assert_eq!(c.phase, Phase::Ready);
    assert!(!c.closed);
}

#[test]
fn second_activation_is_a_no_op() {
    let mut c = Controller::new();
    assert_eq!(c.on_activate(), Action::InitializeDisplay);
    let after_first = c;
    assert_eq!(c.on_activate(), Action::RequestRedraw);
    assert_eq!(c, after_first);
    assert_eq!(c.on_activate(), Action::RequestRedraw);
    assert_eq!(c, after_first);
}

#[test]
fn close_exits_the_loop() {
    let mut c = Controller::new();
    c.on_activate();
    assert_eq!(c.on_window_event(WindowSignal::CloseRequested), Action::ExitLoop);
    assert!(c.closed);
}

#[test]
fn events_after_close_are_ignored() {
    let mut c = Controller::new();
    c.on_activate();
    assert_eq!(c.on_window_event(WindowSignal::CloseRequested), Action::ExitLoop);
    let closed = c;
    assert_eq!(c.on_window_event(WindowSignal::RedrawRequested), Action::Nothing);
    assert_eq!(c, closed);
    assert_eq!(c.on_window_event(WindowSignal::Resized), Action::Nothing);
    assert_eq!(c, closed);
    assert_eq!(c.on_window_event(WindowSignal::CloseRequested), Action::Nothing);
    assert_eq!(c, closed);
    assert_eq!(c.on_activate(), Action::Nothing);
    assert_eq!(c, closed);
}

#[test]
fn resize_requests_redraw_when_ready() {
    let mut c = Controller::new();
    assert_eq!(c.on_window_event(WindowSignal::Resized), Action::Nothing);
    c.on_activate();
    assert_eq!(c.on_window_event(WindowSignal::Resized), Action::RequestRedraw);
}

#[test]
fn redraw_draws_when_ready() {
    let mut c = Controller::new();
    assert_eq!(c.on_window_event(WindowSignal::RedrawRequested), Action::Nothing);
    c.on_activate();
    assert_eq!(c.on_window_event(WindowSignal::RedrawRequested), Action::Draw);
}

#[test]
fn other_events_are_ignored() {
    let mut c = Controller::new();
    c.on_activate();
    let before = c;
    assert_eq!(c.on_window_event(WindowSignal::Other), Action::Nothing);
    assert_eq!(c, before);
}

#[test]
fn draw_outcomes_report_only_failures() {
    let mut c = Controller::new();
    c.on_activate();
    assert!(!c.on_draw_outcome(&DrawOutcome::Presented));
    assert!(!c.on_draw_outcome(&DrawOutcome::Skipped));
    let failed = DrawOutcome::Failed { cause: String::from("present refused") };
    assert!(c.on_draw_outcome(&failed));
}

#[test]
fn present_failure_is_not_latched() {
    let mut c = Controller::new();
    c.on_activate();
    assert_eq!(c.on_window_event(WindowSignal::RedrawRequested), Action::Draw);
    let before = c;
    let failed = DrawOutcome::Failed { cause: String::from("surface lost") };
    assert!(c.on_draw_outcome(&failed));
    assert_eq!(c, before);
    assert_eq!(c.on_window_event(WindowSignal::RedrawRequested), Action::Draw);
    assert_eq!(c, before);
}
