use desktop_caster::capture_thread::CaptureControl;
use desktop_caster::desktop_caster::FpsMode;

#[test]
fn manual_fps_is_always_in_the_safe_range() {
    assert_eq!(CaptureControl::clamp_manual_fps(0), 1);
    assert_eq!(CaptureControl::clamp_manual_fps(30), 30);
    assert_eq!(CaptureControl::clamp_manual_fps(1_000), 240);
}

#[test]
fn clamping_keeps_the_ends_of_the_range() {
    assert_eq!(CaptureControl::clamp_manual_fps(1), 1);
    assert_eq!(CaptureControl::clamp_manual_fps(240), 240);
    assert_eq!(CaptureControl::clamp_manual_fps(241), 240);
    assert_eq!(CaptureControl::clamp_manual_fps(u32::MAX), 240);
}

#[test]
fn modes_survive_their_numbers() {
    assert_eq!(FpsMode::Manual.as_u8(), 0);
    assert_eq!(FpsMode::Vsync.as_u8(), 1);
    assert_eq!(FpsMode::from_u8(0), FpsMode::Manual);
    assert_eq!(FpsMode::from_u8(1), FpsMode::Vsync);
    assert_eq!(FpsMode::from_u8(2), FpsMode::Manual);
    assert_eq!(FpsMode::from_u8(255), FpsMode::Manual);
}

#[test]
fn a_new_control_is_clamped_and_has_no_error() {
    let mut control = CaptureControl::new(FpsMode::Vsync, 0);
    assert_eq!(control.fps_mode(), FpsMode::Vsync);
    assert_eq!(control.target_fps(), 1);
    assert_eq!(control.last_error(), "");
    assert_eq!(control.take_pending_error(), None);
}

#[test]
fn settings_are_stored_and_wake_the_worker() {
    let mut control = CaptureControl::new(FpsMode::Manual, 30);
    let ticket = control.wait();
    assert!(!control.is_woken(ticket));
    control.set_fps_mode(FpsMode::Vsync);
    assert_eq!(control.fps_mode(), FpsMode::Vsync);
    assert!(control.is_woken(ticket));

    let ticket = control.wait();
    assert_eq!(control.set_target_fps(1_000), 240);
    assert_eq!(control.target_fps(), 240);
    assert!(control.is_woken(ticket));

    let ticket = control.wait();
    control.notify();
    assert!(control.is_woken(ticket));
}

#[test]
fn an_error_is_reported_once_while_it_stands() {
    let mut control = CaptureControl::new(FpsMode::Manual, 30);
    let ticket = control.wait();
    control.report_error("no display".to_owned());
    control.report_error("no display".to_owned());
    assert_eq!(control.last_error(), "no display");
    assert_eq!(control.take_pending_error(), Some("no display".to_owned()));
    assert_eq!(control.take_pending_error(), None);
    control.report_error("no display".to_owned());
    assert_eq!(control.take_pending_error(), None);
    assert_eq!(control.last_error(), "no display");
    assert!(!control.is_woken(ticket));
}

#[test]
fn another_error_replaces_the_pending_one() {
    let mut control = CaptureControl::new(FpsMode::Manual, 30);
    control.report_error("first".to_owned());
    control.report_error("second".to_owned());
    assert_eq!(control.last_error(), "second");
    assert_eq!(control.take_pending_error(), Some("second".to_owned()));
}

#[test]
fn a_cleared_error_stays_pending_and_can_come_again() {
    let mut control = CaptureControl::new(FpsMode::Manual, 30);
    control.report_error("no display".to_owned());
    control.clear_error();
    assert_eq!(control.last_error(), "");
    assert_eq!(control.take_pending_error(), Some("no display".to_owned()));
    control.report_error("no display".to_owned());
    assert_eq!(control.take_pending_error(), Some("no display".to_owned()));
}
