use flyline::app_state::ExitState;
use flyline::input_stream::{
    is_flyline_stream, load_step, plan_get_char, plan_load, plan_teardown, should_defer_unload, streams_to_replace,
    unload_step, LOAD_FAILURE, LOAD_SUCCESS,
    Flyline, GetCharPlan, LoadOutcome, LoadPlan, StreamType, Teardown, EOF,
};

#[test]
fn new_stream_needs_a_command() {
    let f = Flyline::new();
    assert!(f.needs_command());
}

#[test]
fn loaded_command_is_read_byte_by_byte_then_eof() {
    let mut f = Flyline::new();
    assert_eq!(f.load(&ExitState::WithCommand("ls".to_string())), LoadOutcome::Loaded);
    assert!(!f.needs_command());
    assert_eq!(f.get_byte(), b'l' as i32);
    assert_eq!(f.get_byte(), b's' as i32);
    assert_eq!(f.get_byte(), b'\n' as i32);
    assert!(f.needs_command());
    assert_eq!(f.get_byte(), EOF);
    assert_eq!(f.get_byte(), EOF);
}

#[test]
fn unget_gives_back_the_last_byte() {
    let mut f = Flyline::new();
    f.load(&ExitState::WithCommand("ab".to_string()));
    let a = f.get_byte();
    assert_eq!(f.unget(a), b'a' as i32);
    assert_eq!(f.get_byte(), b'a' as i32);
    assert_eq!(f.get_byte(), b'b' as i32);
    assert_eq!(f.unget(0), b'b' as i32);
    assert_eq!(f.get_byte(), b'b' as i32);
}

#[test]
fn unget_at_start_returns_its_argument() {
    let mut f = Flyline::new();
    assert_eq!(f.unget(42), 42);
    f.load(&ExitState::WithoutCommand);
    assert_eq!(f.unget(7), 7);
    assert_eq!(f.get_byte(), b'\n' as i32);
}

#[test]
fn multibyte_command_is_utf8() {
    let mut f = Flyline::new();
    f.load(&ExitState::WithCommand("é".to_string()));
    assert_eq!(f.next_byte(), Some(0xC3));
    assert_eq!(f.next_byte(), Some(0xA9));
    assert_eq!(f.next_byte(), Some(b'\n'));
    assert_eq!(f.next_byte(), None);
}

#[test]
fn eof_leaves_stream_unchanged() {
    let mut f = Flyline::new();
    f.load(&ExitState::WithCommand("x".to_string()));
    assert_eq!(f.load(&ExitState::EOF), LoadOutcome::EndOfInput);
    assert_eq!(f.get_byte(), b'x' as i32);
}

#[test]
fn flyline_streams_are_recognised_by_name() {
    assert!(is_flyline_stream(Some("flyline")));
    assert!(is_flyline_stream(Some("flyline input")));
    assert!(!is_flyline_stream(Some("readline")));
    assert!(!is_flyline_stream(Some("fly")));
    assert!(!is_flyline_stream(None));
}

#[test]
fn load_plans() {
    assert_eq!(plan_load(true, false, None, None), LoadPlan::AlreadyLoaded);
    assert_eq!(plan_load(false, false, Some("readline stdin"), None), LoadPlan::NotInteractive);
    assert_eq!(plan_load(false, true, Some("readline stdin"), None), LoadPlan::PushAndTakeOverCurrent);
    assert_eq!(plan_load(false, true, Some("flyline"), None), LoadPlan::TakeOverCurrent);
    let saved = vec![StreamType::Other, StreamType::Stdin, StreamType::NoStream];
    assert_eq!(plan_load(false, true, Some("string"), Some(&saved)), LoadPlan::TakeOverSaved(1));
    let none_takeable = vec![StreamType::Other];
    assert_eq!(plan_load(false, true, None, Some(&none_takeable)), LoadPlan::NoStreamFound);
    assert_eq!(plan_load(false, true, None, None), LoadPlan::NothingToTakeOver);
}

#[test]
fn teardown_plans() {
    assert_eq!(plan_teardown(false, true, true), Teardown::ReplaceSavedFlylineStreams);
    assert_eq!(plan_teardown(true, true, false), Teardown::RestoreStdin);
    assert_eq!(plan_teardown(true, false, true), Teardown::ReplaceAllFlylineStreams);
    assert_eq!(plan_teardown(true, false, false), Teardown::PopStream);
}

#[test]
fn unload_is_deferred_while_busy() {
    assert!(should_defer_unload(1, true));
    assert!(should_defer_unload(0, false));
    assert!(!should_defer_unload(0, true));
}

#[test]
fn get_char_plans() {
    assert_eq!(plan_get_char(true, true, true), GetCharPlan::FinishUnloadAndEndLine);
    assert_eq!(plan_get_char(false, true, false), GetCharPlan::ReadFromEditor);
    assert_eq!(plan_get_char(false, false, true), GetCharPlan::RestoreStdinAndEndLine);
    assert_eq!(plan_get_char(false, false, false), GetCharPlan::EndOfInput);
}

#[test]
fn saved_flyline_streams_are_found_in_order() {
    let names = vec![
        Some("flyline".to_string()),
        None,
        Some("readline".to_string()),
        Some("flyline-2".to_string()),
    ];
    assert_eq!(streams_to_replace(&names), vec![0, 3]);
    assert!(streams_to_replace(&Vec::new()).is_empty());
}

#[test]
fn load_step_return_codes_and_install() {
    let s = load_step(true, 1, 0, Some("readline"), None);
    assert_eq!(s.plan, LoadPlan::AlreadyLoaded);
    assert_eq!(s.return_code, LOAD_SUCCESS);
    assert!(!s.install && s.release_kept_library);
    let s = load_step(false, 0, 0, Some("readline"), None);
    assert_eq!((s.plan, s.return_code, s.install), (LoadPlan::NotInteractive, LOAD_FAILURE, false));
    let s = load_step(false, 1, 1, Some("readline"), None);
    assert_eq!(s.plan, LoadPlan::NotInteractive);
    let s = load_step(false, 1, 0, Some("readline stdin"), None);
    assert_eq!((s.plan, s.return_code, s.install), (LoadPlan::PushAndTakeOverCurrent, LOAD_SUCCESS, true));
    let saved = vec![StreamType::Other];
    let s = load_step(false, 1, 0, None, Some(&saved));
    assert_eq!((s.plan, s.return_code, s.install), (LoadPlan::NoStreamFound, LOAD_FAILURE, false));
    let s = load_step(false, 1, 0, None, None);
    assert_eq!((s.plan, s.return_code, s.install), (LoadPlan::NothingToTakeOver, LOAD_SUCCESS, false));
}

#[test]
fn unload_step_defers_or_tears_down() {
    let s = unload_step(1, true, true, false, false);
    assert!(s.unset_version && s.defer && !s.drop_instance && s.teardown.is_none());
    let s = unload_step(0, false, true, false, false);
    assert!(s.defer);
    let s = unload_step(0, true, true, false, false);
    assert!(!s.defer && s.drop_instance);
    assert_eq!(s.teardown, Some(Teardown::PopStream));
    let s = unload_step(0, true, false, false, false);
    assert!(s.drop_instance && s.teardown.is_none());
    let s = unload_step(0, true, true, true, false);
    assert_eq!(s.teardown, Some(Teardown::RestoreStdin));
}

#[test]
fn get_char_values() {
    assert_eq!(flyline::input_stream::get_char_value(GetCharPlan::FinishUnloadAndEndLine, 0), 10);
    assert_eq!(flyline::input_stream::get_char_value(GetCharPlan::ReadFromEditor, 65), 65);
    assert_eq!(flyline::input_stream::get_char_value(GetCharPlan::RestoreStdinAndEndLine, 0), 10);
    assert_eq!(flyline::input_stream::get_char_value(GetCharPlan::EndOfInput, 65), EOF);
}

#[test]
fn blank_command_advances_the_tutorial() {
    let blank = ExitState::WithCommand("  \t".to_string());
    let u = flyline::input_stream::tutorial_update(&blank, true, true);
    assert!(u.advance && !u.stop);
    let u = flyline::input_stream::tutorial_update(&blank, true, false);
    assert!(u.advance && u.stop);
    let u = flyline::input_stream::tutorial_update(&ExitState::WithCommand("ls".to_string()), true, true);
    assert!(!u.advance && !u.stop);
    let u = flyline::input_stream::tutorial_update(&blank, false, true);
    assert!(!u.advance);
    let u = flyline::input_stream::tutorial_update(&ExitState::WithoutCommand, true, true);
    assert!(!u.advance);
    let u = flyline::input_stream::tutorial_update(&ExitState::WithCommand("\u{3000}".to_string()), true, true);
    assert!(u.advance);
}
