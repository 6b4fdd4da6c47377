use flyline::app_state::{AppRunningState, ExitState};
use flyline::event_loop::{
    after_poll, stop_after_draw, AfterPoll,
    after_draw, event_step, housekeeping, redraw_after_event, refresh_interval_ms, show_terminal_cursor, signal_exit,
    LoopEvent, LoopFlags, LoopTimes, TerminalSize,
};

fn flags() -> LoopFlags {
    LoopFlags {
        has_requested_cpr: false,
        has_enabled_focus_tracking: false,
        needs_cpr_after_resize: false,
        needs_full_redraw: false,
        term_has_focus: true,
    }
}

#[test]
fn startup_requests_wait_a_moment() {
    let early = housekeeping(flags(), LoopTimes { since_start_ms: 99, since_resize_ms: None, leader_key_active_ms: None });
    assert!(!early.request_cpr && !early.enable_focus_tracking);
    let later = housekeeping(flags(), LoopTimes { since_start_ms: 100, since_resize_ms: None, leader_key_active_ms: None });
    assert!(later.request_cpr && later.enable_focus_tracking);
    let mut done = flags();
    done.has_requested_cpr = true;
    done.has_enabled_focus_tracking = true;
    let h = housekeeping(done, LoopTimes { since_start_ms: 5000, since_resize_ms: None, leader_key_active_ms: None });
    assert!(!h.request_cpr && !h.enable_focus_tracking);
}

#[test]
fn resize_and_leader_key_timers() {
    let mut f = flags();
    f.needs_cpr_after_resize = true;
    let h = housekeeping(f, LoopTimes { since_start_ms: 0, since_resize_ms: Some(150), leader_key_active_ms: Some(999) });
    assert!(!h.cpr_after_resize && !h.leader_key_expired);
    let h = housekeeping(f, LoopTimes { since_start_ms: 0, since_resize_ms: Some(200), leader_key_active_ms: Some(1000) });
    assert!(h.cpr_after_resize && h.leader_key_expired);
}

#[test]
fn terminal_cursor_visibility() {
    assert!(show_terminal_cursor(true, true, false, false, false));
    assert!(!show_terminal_cursor(false, true, false, false, false));
    assert!(show_terminal_cursor(false, false, false, false, false));
    assert!(!show_terminal_cursor(true, true, true, true, true));
    assert!(show_terminal_cursor(true, true, true, true, false));
}

#[test]
fn failed_draw_leaves_without_command() {
    assert_eq!(after_draw(AppRunningState::Running, true), AppRunningState::Running);
    assert_eq!(
        after_draw(AppRunningState::Running, false),
        AppRunningState::Exiting(ExitState::WithoutCommand)
    );
}

#[test]
fn refresh_intervals() {
    assert_eq!(refresh_interval_ms(0, 60), 16);
    assert_eq!(refresh_interval_ms(29_999, 30), 33);
    assert_eq!(refresh_interval_ms(30_000, 60), 5000);
    assert_eq!(refresh_interval_ms(0, 0), u64::MAX);
}

#[test]
fn events_change_the_loop() {
    let s = event_step(flags(), LoopEvent::Key, false);
    assert!(s.redraw && s.activity && s.exit.is_none());
    let s = event_step(flags(), LoopEvent::Mouse { redraw: false }, false);
    assert!(!s.redraw && s.activity);
    let s = event_step(flags(), LoopEvent::Paste, false);
    assert!(s.redraw && !s.activity);
    let s = event_step(flags(), LoopEvent::Resized { cols: 80, rows: 24 }, false);
    assert!(s.redraw && s.flags.needs_cpr_after_resize && s.flags.needs_full_redraw);
    assert_eq!(s.new_size, Some(TerminalSize { cols: 80, rows: 24 }));
    let s = event_step(flags(), LoopEvent::FocusLost, true);
    assert!(!s.redraw && !s.flags.term_has_focus && !s.enable_mouse);
    let s = event_step(LoopFlags { term_has_focus: false, ..flags() }, LoopEvent::FocusGained, true);
    assert!(s.flags.term_has_focus && s.enable_mouse && !s.redraw);
    let s = event_step(flags(), LoopEvent::NoEvent, false);
    assert!(s.redraw);
    let s = event_step(flags(), LoopEvent::Other, false);
    assert!(!s.redraw);
    let s = event_step(flags(), LoopEvent::ReadFailed, false);
    assert_eq!(s.exit, Some(ExitState::EOF));
}

#[test]
fn periodic_redraw_and_signals() {
    assert!(redraw_after_event(true, 0, 100));
    assert!(!redraw_after_event(false, 100, 100));
    assert!(redraw_after_event(false, 101, 100));
    assert_eq!(signal_exit(0), None);
    assert_eq!(signal_exit(2), Some(ExitState::WithoutCommand));
}

#[test]
fn after_poll_order() {
    let chosen = AppRunningState::Exiting(ExitState::WithCommand("ls".to_string()));
    let step = event_step(flags(), LoopEvent::Key, false);
    assert_eq!(
        after_poll(chosen.clone(), step, 2),
        AfterPoll { mode: AppRunningState::Exiting(ExitState::WithoutCommand), stop: true }
    );
    let step = event_step(flags(), LoopEvent::Key, false);
    assert_eq!(after_poll(chosen.clone(), step, 0), AfterPoll { mode: chosen.clone(), stop: false });
    let step = event_step(flags(), LoopEvent::ReadFailed, false);
    assert_eq!(
        after_poll(AppRunningState::Running, step, 15),
        AfterPoll { mode: AppRunningState::Exiting(ExitState::EOF), stop: true }
    );
    assert!(stop_after_draw(&chosen));
    assert!(!stop_after_draw(&AppRunningState::Running));
}
