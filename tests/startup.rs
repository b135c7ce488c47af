use frame_host::init::{first_failure, stage_of, InitError, InitStage, INIT_STAGES};
use frame_host::window::Window;

#[test]
fn all_steps_succeed() {
    let w = Window::init(&vec![true; INIT_STAGES]).unwrap();
    assert!(!w.should_quit);
    assert!(w.keep_running());
}

#[test]
fn no_display_fails_at_display() {
    let r = Window::init(&vec![false]);
    assert_eq!(r.err(), Some(InitError { stage: InitStage::Display }));
    let r = Window::init(&vec![false, true, true, true, true]);
    assert_eq!(r.err(), Some(InitError { stage: InitStage::Display }));
    let r = Window::init(&Vec::new());
    assert_eq!(r.err(), Some(InitError { stage: InitStage::Display }));
}

#[test]
fn repeated_attempts_without_display_all_fail() {
    for _ in 0..10 {
        let r = Window::init(&vec![false]);
        assert!(matches!(r, Err(InitError { stage: InitStage::Display })));
    }
}

#[test]
fn each_step_can_fail() {
    assert_eq!(
        Window::init(&vec![true, false]).err(),
        Some(InitError { stage: InitStage::Surface })
    );
    assert_eq!(
        Window::init(&vec![true, true, false]).err(),
        Some(InitError { stage: InitStage::GpuContext })
    );
    assert_eq!(
        Window::init(&vec![true, true, true, false, true]).err(),
        Some(InitError { stage: InitStage::Renderer })
    );
    assert_eq!(
        Window::init(&vec![true, true, true, true]).err(),
        Some(InitError { stage: InitStage::EventSource })
    );
}

#[test]
fn first_failure_positions() {
    assert_eq!(first_failure(&vec![true; 5]), 5);
    assert_eq!(first_failure(&vec![true, true, false, false]), 2);
    assert_eq!(first_failure(&vec![true; 7]), 5);
    assert_eq!(stage_of(0), InitStage::Display);
    assert_eq!(stage_of(4), InitStage::EventSource);
}
