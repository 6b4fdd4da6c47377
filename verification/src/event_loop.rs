//! The decisions of the editor's main loop: when to ask the terminal for
//! the cursor position, how each terminal event changes the loop's state,
//! how often to redraw, when to stop, and whether the terminal's own cursor
//! is shown. The loop itself, which reads events, draws and writes to the
//! terminal, carries these decisions out.
use vstd::prelude::*;

use crate::app_state::{AppRunningState, ExitState};

verus! {

/// How long after start the cursor position is first asked for and focus
/// tracking turned on, in milliseconds.
pub const STARTUP_DELAY_MS: u64 = 100;

/// How long after a resize the cursor position is asked for again.
pub const RESIZE_SETTLE_MS: u64 = 200;

/// How long the leader key stays active.
pub const LEADER_KEY_TIMEOUT_MS: u64 = 1000;

/// After this much inactivity the editor is idle.
pub const IDLE_TIMEOUT_MS: u64 = 30000;

/// The redraw interval while idle (a rate of 0.2 frames a second).
pub const IDLE_REFRESH_MS: u64 = 5000;

/// What the loop keeps between iterations besides the editor itself.
#[derive(Debug, Clone, Copy, PartialEq, Eq, Structural)]
pub struct LoopFlags {
    /// The terminal has answered a cursor-position request.
    pub has_requested_cpr: bool,
    pub has_enabled_focus_tracking: bool,
    /// A resize happened and the cursor position must be asked for again.
    pub needs_cpr_after_resize: bool,
    /// The next draw repaints everything.
    pub needs_full_redraw: bool,
    pub term_has_focus: bool,
}

/// Elapsed times the loop reads at the top of an iteration, in
/// milliseconds.
#[derive(Debug, Clone, Copy, PartialEq, Eq, Structural)]
pub struct LoopTimes {
    pub since_start_ms: u64,
    /// Since the last resize, if any.
    pub since_resize_ms: Option<u64>,
    /// Since the leader key was pressed, while it is active.
    pub leader_key_active_ms: Option<u64>,
}

/// What to do at the top of an iteration, before drawing.
#[derive(Debug, Clone, Copy, PartialEq, Eq, Structural)]
pub struct Housekeeping {
    /// Ask the terminal for the cursor position (the answer, if any, sets
    /// `has_requested_cpr`).
    pub request_cpr: bool,
    pub enable_focus_tracking: bool,
    /// Ask for the cursor position once more after a resize (and clear
    /// `needs_cpr_after_resize`).
    pub cpr_after_resize: bool,
    /// The leader key has timed out: deactivate it and redraw.
    pub leader_key_expired: bool,
}

/// The housekeeping an iteration does before drawing.
pub fn housekeeping(flags: LoopFlags, times: LoopTimes) -> (r: Housekeeping)
    ensures
        r.request_cpr == (times.since_start_ms >= STARTUP_DELAY_MS && !flags.has_requested_cpr),
        r.enable_focus_tracking == (times.since_start_ms >= STARTUP_DELAY_MS && !flags.has_enabled_focus_tracking),
        r.cpr_after_resize == (flags.needs_cpr_after_resize && (times.since_resize_ms matches Some(t) && t
            >= RESIZE_SETTLE_MS)),
        r.leader_key_expired == (times.leader_key_active_ms matches Some(t) && t >= LEADER_KEY_TIMEOUT_MS),
{
    let started = times.since_start_ms >= STARTUP_DELAY_MS;
    let settled = match times.since_resize_ms {
        Some(t) => t >= RESIZE_SETTLE_MS,
        None => false,
    };
    let expired = match times.leader_key_active_ms {
        Some(t) => t >= LEADER_KEY_TIMEOUT_MS,
        None => false,
    };
    Housekeeping {
        request_cpr: started && !flags.has_requested_cpr,
        enable_focus_tracking: started && !flags.has_enabled_focus_tracking,
        cpr_after_resize: flags.needs_cpr_after_resize && settled,
        leader_key_expired: expired,
    }
}

/// Whether the terminal draws its own cursor: when it is the cursor backend
/// or the editor is leaving, except while the left button drags a selection
/// in the command buffer.
pub fn show_terminal_cursor(
    backend_is_terminal: bool,
    running: bool,
    left_button_down: bool,
    has_selection: bool,
    over_command: bool,
) -> (r: bool)
    ensures
        r == ((backend_is_terminal || !running) && !(left_button_down && has_selection && over_command)),
{
    (backend_is_terminal || !running) && !(left_button_down && has_selection && over_command)
}

/// The running state after a draw: a failed draw leaves the editor without a
/// command.
pub fn after_draw(mode: AppRunningState, draw_ok: bool) -> (r: AppRunningState)
    ensures
        r == (if draw_ok { mode } else { AppRunningState::Exiting(ExitState::WithoutCommand) }),
{
    if draw_ok {
        mode
    } else {
        AppRunningState::Exiting(ExitState::WithoutCommand)
    }
}

/// The redraw interval in milliseconds at `frame_rate` frames a second,
/// slowed to the idle rate after a period without activity; with a frame
/// rate of 0, never.
pub open spec fn spec_refresh_interval_ms(since_activity_ms: u64, frame_rate: u32) -> u64 {
    if frame_rate == 0 {
        u64::MAX
    } else if since_activity_ms >= IDLE_TIMEOUT_MS {
        IDLE_REFRESH_MS
    } else {
        (1000u32 / frame_rate) as u64
    }
}

/// How long the loop waits for an event before redrawing anyway.
pub fn refresh_interval_ms(since_activity_ms: u64, frame_rate: u32) -> (r: u64)
    ensures
        r == spec_refresh_interval_ms(since_activity_ms, frame_rate),
{
    if frame_rate == 0 {
        u64::MAX
    } else if since_activity_ms >= IDLE_TIMEOUT_MS {
        IDLE_REFRESH_MS
    } else {
        (1000u32 / frame_rate) as u64
    }
}

/// The redraw interval: with a frame rate of 0 the loop never redraws on its
/// own; after the idle timeout it redraws every 5 seconds; otherwise the
/// interval is the whole number of milliseconds that `frame_rate` frames
/// fit in a second: `frame_rate` of them take at most a second, one more
/// would take longer.
pub proof fn law_refresh_interval(since_activity_ms: u64, frame_rate: u32)
    ensures
        frame_rate == 0 ==> spec_refresh_interval_ms(since_activity_ms, frame_rate) == u64::MAX,
        frame_rate > 0 && since_activity_ms >= IDLE_TIMEOUT_MS ==> spec_refresh_interval_ms(
            since_activity_ms,
            frame_rate,
        ) == 5000,
        frame_rate > 0 && since_activity_ms < IDLE_TIMEOUT_MS ==> {
            let r = spec_refresh_interval_ms(since_activity_ms, frame_rate) as int;
            r * frame_rate <= 1000 < (r + 1) * frame_rate
        },
{
    if frame_rate > 0 && since_activity_ms < IDLE_TIMEOUT_MS {
        let q: int = (1000u32 / frame_rate) as int;
        let f: int = frame_rate as int;
        assert(q == 1000int / f);
        assert(q * f <= 1000 < (q + 1) * f) by (nonlinear_arith)
            requires
                f > 0,
                q == 1000int / f,
        ;
    }
}

/// What the terminal delivered while the loop waited.
#[derive(Debug, Clone, Copy, PartialEq, Eq, Structural)]
pub enum LoopEvent {
    /// A key press, already handled.
    Key,
    /// A mouse event, already handled; whether its handling asked for a
    /// redraw.
    Mouse { redraw: bool },
    Resized { cols: u16, rows: u16 },
    FocusLost,
    FocusGained,
    /// Pasted text, already inserted.
    Paste,
    /// Some other event.
    Other,
    /// Nothing arrived in time.
    NoEvent,
    /// Reading from the terminal failed.
    ReadFailed,
}

/// A terminal size.
#[derive(Debug, Clone, Copy, PartialEq, Eq, Structural)]
pub struct TerminalSize {
    pub cols: u16,
    pub rows: u16,
}

/// How an event changes the loop.
#[derive(Debug, Clone)]
pub struct EventStep {
    pub flags: LoopFlags,
    /// Redraw on the next iteration.
    pub redraw: bool,
    /// The event counts as user activity.
    pub activity: bool,
    /// The new terminal size, after a resize; the viewport top is
    /// forgotten and the resize time recorded.
    pub new_size: Option<TerminalSize>,
    /// Turn mouse capture back on.
    pub enable_mouse: bool,
    /// Stop the loop with this exit state.
    pub exit: Option<ExitState>,
}

/// How the loop reacts to an event: key and mouse events are activity; a
/// key or a paste redraws, a mouse event as its handling said; a resize records the size and asks for a full redraw and a new
/// cursor-position request; focus changes are recorded and do not redraw,
/// and regaining focus in smart mouse mode turns mouse capture back on; a
/// wait without an event redraws; a failed read ends the editor as at end
/// of input.
pub fn event_step(flags: LoopFlags, event: LoopEvent, smart_mouse_mode: bool) -> (r: EventStep)
    ensures
        r == (match event {
            LoopEvent::Key | LoopEvent::Paste => EventStep {
                flags, redraw: true, activity: event == LoopEvent::Key, new_size: None, enable_mouse: false, exit: None,
            },
            LoopEvent::Mouse { redraw } => EventStep {
                flags, redraw, activity: true, new_size: None, enable_mouse: false, exit: None,
            },
            LoopEvent::Resized { cols, rows } => EventStep {
                flags: LoopFlags { needs_cpr_after_resize: true, needs_full_redraw: true, ..flags },
                redraw: true, activity: false, new_size: Some(TerminalSize { cols, rows }), enable_mouse: false, exit: None,
            },
            LoopEvent::FocusLost => EventStep {
                flags: LoopFlags { term_has_focus: false, ..flags },
                redraw: false, activity: false, new_size: None, enable_mouse: false, exit: None,
            },
            LoopEvent::FocusGained => EventStep {
                flags: LoopFlags { term_has_focus: true, ..flags },
                redraw: false, activity: false, new_size: None, enable_mouse: smart_mouse_mode, exit: None,
            },
            LoopEvent::Other => EventStep {
                flags, redraw: false, activity: false, new_size: None, enable_mouse: false, exit: None,
            },
            LoopEvent::NoEvent => EventStep {
                flags, redraw: true, activity: false, new_size: None, enable_mouse: false, exit: None,
            },
            LoopEvent::ReadFailed => EventStep {
                flags, redraw: false, activity: false, new_size: None, enable_mouse: false, exit: Some(ExitState::EOF),
            },
        }),
{
    match event {
        LoopEvent::Key => EventStep { flags, redraw: true, activity: true, new_size: None, enable_mouse: false, exit: None },
        LoopEvent::Paste => EventStep { flags, redraw: true, activity: false, new_size: None, enable_mouse: false, exit: None },
        LoopEvent::Mouse { redraw } => EventStep { flags, redraw, activity: true, new_size: None, enable_mouse: false, exit: None },
        LoopEvent::Resized { cols, rows } => EventStep {
            flags: LoopFlags { needs_cpr_after_resize: true, needs_full_redraw: true, ..flags },
            redraw: true,
            activity: false,
            new_size: Some(TerminalSize { cols, rows }),
            enable_mouse: false,
            exit: None,
        },
        LoopEvent::FocusLost => EventStep {
            flags: LoopFlags { term_has_focus: false, ..flags },
            redraw: false,
            activity: false,
            new_size: None,
            enable_mouse: false,
            exit: None,
        },
        LoopEvent::FocusGained => EventStep {
            flags: LoopFlags { term_has_focus: true, ..flags },
            redraw: false,
            activity: false,
            new_size: None,
            enable_mouse: smart_mouse_mode,
            exit: None,
        },
        LoopEvent::Other => EventStep { flags, redraw: false, activity: false, new_size: None, enable_mouse: false, exit: None },
        LoopEvent::NoEvent => EventStep { flags, redraw: true, activity: false, new_size: None, enable_mouse: false, exit: None },
        LoopEvent::ReadFailed => EventStep {
            flags,
            redraw: false,
            activity: false,
            new_size: None,
            enable_mouse: false,
            exit: Some(ExitState::EOF),
        },
    }
}

/// Whether to redraw after an event: if the event asked for it, or if more
/// than one redraw interval has passed since the last draw (to keep
/// animations going).
pub fn redraw_after_event(event_redraw: bool, since_draw_ms: u64, refresh_ms: u64) -> (r: bool)
    ensures
        r == (event_redraw || since_draw_ms > refresh_ms),
{
    event_redraw || since_draw_ms > refresh_ms
}

/// The exit state when the shell received a terminating signal (any
/// nonzero one): leave without a command.
pub fn signal_exit(terminating_signal: i32) -> (r: Option<ExitState>)
    ensures
        r == (if terminating_signal != 0 { Some(ExitState::WithoutCommand) } else { None }),
{
    if terminating_signal != 0 {
        Some(ExitState::WithoutCommand)
    } else {
        None
    }
}

/// The loop's state after a poll: the running state, and whether the loop
/// stops now.
#[derive(Debug, Clone, PartialEq, Eq)]
pub struct AfterPoll {
    pub mode: AppRunningState,
    pub stop: bool,
}

/// What follows a poll, in the loop's order: a failed read stops the loop at
/// end of input; otherwise, after the event is handled, a terminating
/// signal stops it without a command, replacing any command chosen while
/// handling the event; otherwise the loop goes on (and stops at the top of
/// the next iteration if the editor is no longer running).
pub open spec fn spec_after_poll(mode: AppRunningState, event_exit: Option<ExitState>, terminating_signal: i32) -> AfterPoll {
    match event_exit {
        Some(e) => AfterPoll { mode: AppRunningState::Exiting(e), stop: true },
        None => if terminating_signal != 0 {
            AfterPoll { mode: AppRunningState::Exiting(ExitState::WithoutCommand), stop: true }
        } else {
            AfterPoll { mode, stop: false }
        },
    }
}

/// Decides the loop's state after a poll, from the running state once the
/// event is handled, what the event step says of exiting, and the
/// terminating signal the shell has received (0 for none).
pub fn after_poll(mode: AppRunningState, step: EventStep, terminating_signal: i32) -> (r: AfterPoll)
    ensures
        r == spec_after_poll(mode, step.exit, terminating_signal),
{
    match step.exit {
        Some(e) => AfterPoll { mode: AppRunningState::Exiting(e), stop: true },
        None => match signal_exit(terminating_signal) {
            Some(e) => AfterPoll { mode: AppRunningState::Exiting(e), stop: true },
            None => AfterPoll { mode, stop: false },
        },
    }
}

/// The loop stops at the top of an iteration, after drawing, once the
/// editor is no longer running.
pub fn stop_after_draw(mode: &AppRunningState) -> (r: bool)
    ensures
        r == !(*mode is Running),
{
    !mode.is_running()
}

/// A terminating signal never lets a command through: whatever command was
/// chosen while handling the event, the loop stops without one.
pub proof fn law_signal_discards_command(mode: AppRunningState, terminating_signal: i32)
    requires
        terminating_signal != 0,
    ensures
        spec_after_poll(mode, None, terminating_signal) == (AfterPoll {
            mode: AppRunningState::Exiting(ExitState::WithoutCommand),
            stop: true,
        }),
{
}

/// Without an exit from the event and without a signal the loop goes on in
/// the state the event left.
pub proof fn law_poll_goes_on(mode: AppRunningState)
    ensures
        spec_after_poll(mode, None, 0) == (AfterPoll { mode, stop: false }),
{
}

/// A failed read stops the loop at end of input, signal or not.
pub proof fn law_failed_read_is_end_of_input(mode: AppRunningState, terminating_signal: i32)
    ensures
        spec_after_poll(mode, Some(ExitState::EOF), terminating_signal) == (AfterPoll {
            mode: AppRunningState::Exiting(ExitState::EOF),
            stop: true,
        }),
{
}

} // verus!
