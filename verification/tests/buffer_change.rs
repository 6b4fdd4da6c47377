use flyline::app_state::FuzzyHistorySource;
use flyline::buffer_change::{
    agent_prefix_match, mode_after_change, plan_inline_suggestion, resolve_agent_command, BufferChangeInputs,
};
use flyline::mouse::ContentModeKind;

fn prefixes() -> Vec<Option<String>> {
    vec![Some("ai:".to_string()), None, Some("??".to_string())]
}

#[test]
fn prefix_match_strips_the_prefix() {
    assert_eq!(agent_prefix_match(&prefixes(), "ai:  list files"), Some((0, "  list files".to_string())));
    assert_eq!(agent_prefix_match(&prefixes(), "?? why"), Some((2, " why".to_string())));
    assert_eq!(agent_prefix_match(&prefixes(), "ls -la"), None);
}

#[test]
fn resolve_uses_prefix_then_default_then_first() {
    assert_eq!(
        resolve_agent_command(&prefixes(), "ai: \t list files", true),
        Some((0, "list files".to_string()))
    );
    assert_eq!(resolve_agent_command(&prefixes(), "list files", true), None);
    assert_eq!(
        resolve_agent_command(&prefixes(), "list files", false),
        Some((1, "list files".to_string()))
    );
    let only_prefixed = vec![Some("x:".to_string())];
    assert_eq!(
        resolve_agent_command(&only_prefixed, "hello", false),
        Some((0, "hello".to_string()))
    );
    assert_eq!(resolve_agent_command(&Vec::new(), "hello", false), None);
}

#[test]
fn resolve_trims_unicode_white_space() {
    let p = vec![Some("ai:".to_string())];
    assert_eq!(resolve_agent_command(&p, "ai:\u{3000}\u{a0}go", true), Some((0, "go".to_string())));
    assert_eq!(resolve_agent_command(&p, "ai:   ", true), Some((0, String::new())));
}

fn inputs(mode: ContentModeKind, buffer: &str) -> BufferChangeInputs {
    BufferChangeInputs {
        mode,
        ai_selection_buffer: None,
        cursor_at_start: true,
        navigated_history: false,
        buffer: buffer.to_string(),
        dismissed_agent_buffer: None,
        starts_with_agent_prefix: false,
    }
}

#[test]
fn agent_prefix_opens_prompt_search() {
    let mut i = inputs(ContentModeKind::Normal, "ai: hi");
    i.starts_with_agent_prefix = true;
    let o = mode_after_change(&i);
    assert_eq!(o.mode, ContentModeKind::FuzzyHistorySearch(FuzzyHistorySource::AgentPrompts));
    assert!(o.open_agent_prompt_search);
    i.navigated_history = true;
    let o = mode_after_change(&i);
    assert_eq!(o.mode, ContentModeKind::Normal);
    assert!(!o.open_agent_prompt_search);
}

#[test]
fn dismissed_buffer_keeps_agent_mode_closed() {
    let mut i = inputs(ContentModeKind::Normal, "ai: hi");
    i.starts_with_agent_prefix = true;
    i.dismissed_agent_buffer = Some("ai: hi".to_string());
    let o = mode_after_change(&i);
    assert_eq!(o.mode, ContentModeKind::Normal);
    assert_eq!(o.dismissed_agent_buffer, Some("ai: hi".to_string()));
    i.buffer = "ai: hi!".to_string();
    let o = mode_after_change(&i);
    assert_eq!(o.dismissed_agent_buffer, None);
    assert_eq!(o.mode, ContentModeKind::FuzzyHistorySearch(FuzzyHistorySource::AgentPrompts));
}

#[test]
fn prompt_search_closes_without_prefix() {
    let i = inputs(ContentModeKind::FuzzyHistorySearch(FuzzyHistorySource::AgentPrompts), "ls");
    assert_eq!(mode_after_change(&i).mode, ContentModeKind::Normal);
    let other = inputs(ContentModeKind::FuzzyHistorySearch(FuzzyHistorySource::PastCommands), "ls");
    assert_eq!(
        mode_after_change(&other).mode,
        ContentModeKind::FuzzyHistorySearch(FuzzyHistorySource::PastCommands)
    );
}

#[test]
fn agent_error_closes_once_buffer_changes() {
    let mut i = inputs(ContentModeKind::AgentError, "oops");
    i.dismissed_agent_buffer = Some("oops".to_string());
    assert_eq!(mode_after_change(&i).mode, ContentModeKind::AgentError);
    i.buffer = "oops2".to_string();
    assert_eq!(mode_after_change(&i).mode, ContentModeKind::Normal);
}

#[test]
fn directory_selection_ends_when_cursor_moves() {
    let mut i = inputs(ContentModeKind::PromptDirSelect(2), "");
    assert_eq!(mode_after_change(&i).mode, ContentModeKind::PromptDirSelect(2));
    i.cursor_at_start = false;
    i.buffer = "a".to_string();
    assert_eq!(mode_after_change(&i).mode, ContentModeKind::Normal);
}

#[test]
fn agent_selection_resets_when_buffer_changes() {
    let mut i = inputs(ContentModeKind::AgentOutputSelection, "git status");
    i.ai_selection_buffer = Some("git stat".to_string());
    assert!(mode_after_change(&i).reset_ai_selection);
    i.ai_selection_buffer = Some("git status".to_string());
    assert!(!mode_after_change(&i).reset_ai_selection);
}

#[test]
fn inline_suggestion_lookup() {
    let p = plan_inline_suggestion(true, "git", &None);
    assert!(p.look_up);
    let p = plan_inline_suggestion(true, "", &None);
    assert!(!p.look_up);
    let p = plan_inline_suggestion(false, "git", &None);
    assert!(!p.look_up);
    let p = plan_inline_suggestion(true, "git", &Some("git".to_string()));
    assert!(!p.look_up);
    assert_eq!(p.dismissed, Some("git".to_string()));
    let p = plan_inline_suggestion(true, "gi", &Some("git".to_string()));
    assert!(p.look_up);
    assert_eq!(p.dismissed, None);
}
