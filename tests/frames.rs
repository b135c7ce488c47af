use frame_host::events::{Dispatch, EventKind};
use frame_host::window::{AcquirePlan, FrameError, RenderPlan, Window};

fn started() -> Window {
    Window::init(&vec![true; 5]).unwrap()
}

#[test]
fn close_event_ends_loop_after_at_most_one_frame() {
    let mut w = started();
    let events = vec![EventKind::Other, EventKind::Other, EventKind::Quit];
    let routes = w.handle_events(&events);
    let handled = routes.iter().filter(|d| **d == Dispatch::OverlayAndHandler).count();
    assert_eq!(handled, 2);
    assert!(w.should_quit);
    let mut frames = 0;
    while w.keep_running() {
        frames += 1;
        w.handle_events(&Vec::new());
        w.prepare_frame().unwrap();
        w.new_imgui_frame();
        w.render();
    }
    assert!(frames <= 1);
}

#[test]
fn quit_flag_stays_set() {
    let mut w = started();
    w.handle_events(&vec![EventKind::Quit]);
    assert!(w.should_quit);
    w.handle_events(&vec![EventKind::Other]);
    assert!(w.should_quit);
    w.handle_events(&vec![EventKind::Quit, EventKind::Quit]);
    assert!(w.should_quit);
    assert!(!w.keep_running());
}

#[test]
fn thousand_iterations_leave_no_open_frame() {
    let mut w = started();
    for i in 0..1000 {
        let routes = w.handle_events(&Vec::new());
        assert!(routes.is_empty());
        assert_eq!(w.prepare_frame(), Ok(()));
        assert_eq!(w.new_imgui_frame(), AcquirePlan::Open);
        assert_eq!(w.render(), RenderPlan::Finalize);
        assert!(w.keep_running(), "iteration {}", i);
    }
    assert_eq!(w.prepare_frame(), Err(FrameError::EventsNotPolled));
    assert_eq!(w.render(), RenderPlan::RepeatPrevious);
}

#[test]
fn prepare_needs_poll() {
    let mut w = started();
    assert_eq!(w.prepare_frame(), Err(FrameError::EventsNotPolled));
    w.handle_events(&Vec::new());
    assert_eq!(w.prepare_frame(), Ok(()));
    assert_eq!(w.prepare_frame(), Err(FrameError::EventsNotPolled));
}

#[test]
fn prepare_refused_while_frame_open() {
    let mut w = started();
    w.handle_events(&Vec::new());
    assert_eq!(w.new_imgui_frame(), AcquirePlan::PrepareThenOpen);
    assert_eq!(w.prepare_frame(), Err(FrameError::FrameOpen));
}

#[test]
fn acquire_before_first_prepare_prepares_first() {
    let mut w = started();
    assert_eq!(w.new_imgui_frame(), AcquirePlan::PrepareThenOpen);
    assert_eq!(w.new_imgui_frame(), AcquirePlan::Reuse);
    assert_eq!(w.render(), RenderPlan::Finalize);
    assert_eq!(w.new_imgui_frame(), AcquirePlan::Open);
}

#[test]
fn render_without_acquire() {
    let mut w = started();
    assert_eq!(w.render(), RenderPlan::EmptyFrame { prepare_first: true });
    assert_eq!(w.render(), RenderPlan::RepeatPrevious);
    let mut v = started();
    v.handle_events(&Vec::new());
    v.prepare_frame().unwrap();
    assert_eq!(v.render(), RenderPlan::EmptyFrame { prepare_first: false });
    assert_eq!(v.new_imgui_frame(), AcquirePlan::Open);
    assert_eq!(v.render(), RenderPlan::Finalize);
    assert_eq!(v.render(), RenderPlan::RepeatPrevious);
}
