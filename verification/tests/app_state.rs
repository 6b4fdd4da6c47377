use flyline::app_state::{
    agent_final_arg, command_display, final_exit_state, signal_name, signal_to_str, viewport_shift,
    AppRunningState, Coord, ExitState, FuzzyHistorySource, SIGNAL_NAMES,
};

#[test]
fn coordinates_are_row_then_column() {
    let c = Coord::new(3, 9);
    assert_eq!(c.row, 3);
    assert_eq!(c.col, 9);
}

#[test]
fn running_state() {
    assert!(AppRunningState::Running.is_running());
    assert!(!AppRunningState::Exiting(ExitState::EOF).is_running());
}

#[test]
fn final_exit_states() {
    assert_eq!(
        final_exit_state(AppRunningState::Exiting(ExitState::WithCommand("ls".to_string()))),
        ExitState::WithCommand("ls".to_string())
    );
    assert_eq!(final_exit_state(AppRunningState::Exiting(ExitState::EOF)), ExitState::EOF);
    assert_eq!(
        final_exit_state(AppRunningState::Exiting(ExitState::WithoutCommand)),
        ExitState::WithoutCommand
    );
    assert_eq!(final_exit_state(AppRunningState::Running), ExitState::WithoutCommand);
}

#[test]
fn fuzzy_history_labels() {
    assert_eq!(FuzzyHistorySource::PastCommands.label(), "Fuzzy search");
    assert_eq!(FuzzyHistorySource::CancelledCommands.label(), "Cancelled commands");
    assert_eq!(FuzzyHistorySource::AgentPrompts.label(), "Agent prompts");
}

#[test]
fn viewport_moves_up_by_the_overflow() {
    assert_eq!(viewport_shift(10, 5, 20), None);
    assert_eq!(viewport_shift(10, 10, 20), None);
    assert_eq!(viewport_shift(18, 5, 20), Some(15));
    assert_eq!(viewport_shift(2, 30, 20), Some(0));
}

#[test]
fn signal_names_follow_the_numbers_given() {
    let mut numbers = [0i32; 15];
    for (i, n) in numbers.iter_mut().enumerate() {
        *n = 100 + i as i32;
    }
    assert_eq!(signal_name(101, &numbers), "SIGINT");
    assert_eq!(signal_name(114, &numbers), "SIGTERM");
    assert_eq!(signal_name(5, &numbers), "Unknown signal");
    assert_eq!(SIGNAL_NAMES.len(), 15);
}

#[test]
fn signal_names_of_this_platform() {
    assert_eq!(signal_to_str(libc::SIGINT), "SIGINT");
    assert_eq!(signal_to_str(libc::SIGTERM), "SIGTERM");
    assert_eq!(signal_to_str(libc::SIGKILL), "SIGKILL");
    assert_eq!(signal_to_str(-5), "Unknown signal");
    assert_eq!(signal_to_str(0), "Unknown signal");
    assert_eq!(signal_to_str(2), "SIGINT");
    assert_eq!(signal_to_str(9), "SIGKILL");
    assert_eq!(signal_to_str(15), "SIGTERM");
    assert_eq!(signal_to_str(libc::SIGUSR1), "SIGUSR1");
    assert_eq!(signal_to_str(libc::SIGBUS), "SIGBUS");
}

#[test]
fn agent_argument_with_and_without_prompt() {
    assert_eq!(agent_final_arg(Some("be brief"), "list files"), "be brief\nlist files");
    assert_eq!(agent_final_arg(None, "list files"), "list files");
}

#[test]
fn command_display_quotes_words_with_spaces() {
    let cmd = vec!["myagent".to_string(), "-p".to_string()];
    assert_eq!(command_display(&cmd, "list files"), "myagent -p 'list files'");
    assert_eq!(command_display(&cmd, "ls"), "myagent -p ls");
    assert_eq!(command_display(&Vec::new(), "it's here"), "'it'\\''s here'");
    let spaced = vec!["my agent".to_string()];
    assert_eq!(command_display(&spaced, "x"), "'my agent' x");
}

#[test]
fn enter_submits_or_inserts_newline() {
    assert_eq!(
        flyline::app_state::submit_or_newline("ls", false, true),
        flyline::app_state::SubmitDecision::Submit("ls".to_string())
    );
    assert_eq!(
        flyline::app_state::submit_or_newline("if true; then", false, false),
        flyline::app_state::SubmitDecision::InsertNewline
    );
    assert_eq!(
        flyline::app_state::submit_or_newline("fi", true, false),
        flyline::app_state::SubmitDecision::Submit("fi".to_string())
    );
}

#[test]
fn agent_start_plans() {
    let cmd = vec!["myagent".to_string(), "-p".to_string()];
    let p = flyline::app_state::agent_start_plan(&cmd, Some("be brief"), "ai: list files", "list files");
    assert_eq!(p.history_entry, "ai: list files");
    assert_eq!(p.program, "myagent");
    assert_eq!(p.args, vec!["-p".to_string()]);
    assert_eq!(p.final_arg, "be brief\nlist files");
    assert_eq!(p.display, "myagent -p 'be brief\nlist files'");
    assert_eq!(flyline::app_state::agent_start_outcome(true, "x"), flyline::app_state::AgentStartOutcome::Waiting);
    assert_eq!(
        flyline::app_state::agent_start_outcome(false, "x"),
        flyline::app_state::AgentStartOutcome::Failed { dismissed_buffer: "x".to_string() }
    );
}
