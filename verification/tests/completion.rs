use flyline::completion::{completion_action, CompletionAction, CompletionInputs, CompletionMode};

fn inputs(mode: CompletionMode, new_wuc: &str) -> CompletionInputs {
    CompletionInputs {
        left_dragging: false,
        navigated_history: false,
        buffer_empty: false,
        dismissed_wuc: None,
        new_wuc: new_wuc.to_string(),
        fresh_key_char: None,
        auto_suggest: false,
        mode,
        wuc_same_as_current: false,
        wuc_overlaps_current: false,
    }
}

fn active(original: &str, current: &str, auto_started: bool) -> CompletionMode {
    CompletionMode::Active {
        original_wuc: original.to_string(),
        current_wuc: current.to_string(),
        auto_started,
    }
}

#[test]
fn dragging_history_and_empty_buffer_discard() {
    let mut i = inputs(active("gi", "gi", false), "git");
    i.left_dragging = true;
    assert_eq!(completion_action(&i), CompletionAction::Discard);
    let mut i = inputs(active("gi", "gi", false), "git");
    i.navigated_history = true;
    assert_eq!(completion_action(&i), CompletionAction::Discard);
    let mut i = inputs(CompletionMode::Normal, "");
    i.buffer_empty = true;
    i.auto_suggest = true;
    assert_eq!(completion_action(&i), CompletionAction::Discard);
}

#[test]
fn dismissed_word_stays_dismissed() {
    let mut i = inputs(CompletionMode::Normal, "git");
    i.auto_suggest = true;
    i.dismissed_wuc = Some("git".to_string());
    assert_eq!(completion_action(&i), CompletionAction::Keep);
}

#[test]
fn auto_suggest_starts_completion_in_normal_mode() {
    let mut i = inputs(CompletionMode::Normal, "gi");
    i.auto_suggest = true;
    assert_eq!(completion_action(&i), CompletionAction::Restart { carry_over: false });
    let i = inputs(CompletionMode::Normal, "gi");
    assert_eq!(completion_action(&i), CompletionAction::Keep);
}

#[test]
fn trigger_keys_restart_automatic_completion() {
    let mut i = inputs(active("cd", "cd", true), "cd src/");
    i.fresh_key_char = Some('/');
    assert_eq!(completion_action(&i), CompletionAction::Restart { carry_over: false });
    let mut i = inputs(active("ls", "ls", true), "--");
    i.fresh_key_char = Some('-');
    assert_eq!(completion_action(&i), CompletionAction::Restart { carry_over: true });
    let mut i = inputs(active("ls", "ls", false), "ls/");
    i.fresh_key_char = Some('/');
    i.wuc_overlaps_current = true;
    assert_eq!(completion_action(&i), CompletionAction::Update);
}

#[test]
fn active_completion_refinement() {
    let mut i = inputs(active("gi", "git", false), "git");
    i.wuc_same_as_current = true;
    assert_eq!(completion_action(&i), CompletionAction::Keep);
    let i = inputs(active("gi", "git", false), "");
    assert_eq!(completion_action(&i), CompletionAction::Discard);
    let mut i = inputs(active("gi", "git", false), "gits");
    i.wuc_overlaps_current = true;
    assert_eq!(completion_action(&i), CompletionAction::Update);
    let mut i = inputs(active("gi", "git", false), "gitsta");
    i.wuc_overlaps_current = true;
    assert_eq!(completion_action(&i), CompletionAction::Restart { carry_over: true });
    let i = inputs(active("gi", "git", false), "xyz");
    assert_eq!(completion_action(&i), CompletionAction::Discard);
}

#[test]
fn shorter_word_restarts_automatic_completion() {
    let i = inputs(active("git", "git", true), "gi");
    assert_eq!(completion_action(&i), CompletionAction::Restart { carry_over: true });
    let w = CompletionMode::Waiting { wuc: "git".to_string(), auto_started: true };
    let i = inputs(w, "g");
    assert_eq!(completion_action(&i), CompletionAction::Restart { carry_over: true });
}

#[test]
fn waiting_completion_for_unrelated_word() {
    let w = CompletionMode::Waiting { wuc: "git".to_string(), auto_started: false };
    let i = inputs(w, "ls");
    assert_eq!(completion_action(&i), CompletionAction::Discard);
    let w = CompletionMode::Waiting { wuc: "git".to_string(), auto_started: false };
    let i = inputs(w, "gitx");
    assert_eq!(completion_action(&i), CompletionAction::Keep);
}
