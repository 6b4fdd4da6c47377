//! Deciding what happens to tab completion after the buffer may have changed.
use vstd::prelude::*;

use crate::text::{chars_eq, chars_of, seq_starts_with, starts_with};

verus! {

/// What to do with tab-completion suggestions.
#[derive(Debug, Clone, Copy, PartialEq, Eq, Structural)]
pub enum CompletionAction {
    /// Leave them as they are.
    Keep,
    /// Start completing again; `carry_over` shows the old suggestions while
    /// the new ones load.
    Restart { carry_over: bool },
    /// Drop them.
    Discard,
    /// Filter them again for the new word under the cursor.
    Update,
}

/// The tab-completion state of the editor.
#[derive(Debug, Clone)]
pub enum CompletionMode {
    /// No completion in progress (normal editing).
    Normal,
    /// Completion is running for the word `wuc`.
    Waiting { wuc: String, auto_started: bool },
    /// Suggestions are shown; they were made for `original_wuc` and are
    /// filtered for `current_wuc`.
    Active { original_wuc: String, current_wuc: String, auto_started: bool },
    /// Some other mode.
    Other,
}

/// What the decision reads of the editor.
pub struct CompletionInputs {
    /// The left button is dragging.
    pub left_dragging: bool,
    /// The last key moved through history.
    pub navigated_history: bool,
    pub buffer_empty: bool,
    /// The word under the cursor when completion was last dismissed.
    pub dismissed_wuc: Option<String>,
    /// The word under the cursor now.
    pub new_wuc: String,
    /// The character of the last key press, if it is new and was typed
    /// without Ctrl or Alt.
    pub fresh_key_char: Option<char>,
    /// The setting that starts completion automatically.
    pub auto_suggest: bool,
    pub mode: CompletionMode,
    /// The word under the cursor is the same (text and place) as the one the
    /// shown suggestions are filtered for.
    pub wuc_same_as_current: bool,
    /// The word under the cursor overlaps that one.
    pub wuc_overlaps_current: bool,
}

/// A key that restarts an automatic completion: `/ $ ~ . + =`, or `-` while
/// the word is all dashes (a flag being typed).
pub open spec fn is_trigger_char(c: char, wuc: Seq<char>) -> bool {
    c == '/' || c == '$' || c == '~' || c == '.' || c == '+' || c == '=' || (c == '-' && forall|i: int|
        0 <= i < wuc.len() ==> wuc[i] == '-')
}

/// The mode, as plain values.
pub open spec fn mode_auto_started(m: CompletionMode) -> bool {
    match m {
        CompletionMode::Waiting { auto_started, .. } => auto_started,
        CompletionMode::Active { auto_started, .. } => auto_started,
        _ => false,
    }
}

/// The decision for a waiting or active completion, if those rules give one.
pub open spec fn spec_refine(inp: CompletionInputs) -> Option<CompletionAction> {
    let new_wuc = inp.new_wuc@;
    match inp.mode {
        CompletionMode::Waiting { wuc, auto_started } => {
            let old_wuc = wuc@;
            if auto_started && new_wuc.len() < old_wuc.len() {
                Some(CompletionAction::Restart { carry_over: true })
            } else if !seq_starts_with(new_wuc, old_wuc) && !seq_starts_with(old_wuc, new_wuc) {
                if inp.auto_suggest {
                    Some(CompletionAction::Restart { carry_over: false })
                } else {
                    Some(CompletionAction::Discard)
                }
            } else {
                None
            }
        },
        CompletionMode::Active { original_wuc, current_wuc, auto_started } => {
            if auto_started && new_wuc.len() < original_wuc@.len() {
                Some(CompletionAction::Restart { carry_over: true })
            } else if inp.wuc_same_as_current {
                Some(CompletionAction::Keep)
            } else if new_wuc.len() == 0 && original_wuc@.len() != 0 {
                Some(CompletionAction::Discard)
            } else if inp.wuc_overlaps_current {
                let old_len = current_wuc@.len() as int;
                let new_len = new_wuc.len() as int;
                if old_len - new_len > 1 || new_len - old_len > 1 {
                    Some(CompletionAction::Restart { carry_over: true })
                } else {
                    Some(CompletionAction::Update)
                }
            } else if inp.auto_suggest {
                Some(CompletionAction::Restart { carry_over: false })
            } else {
                Some(CompletionAction::Discard)
            }
        },
        _ => None,
    }
}

/// What to do with tab completion, the first rule that applies winning:
/// drop it while dragging, after moving through history or on an empty
/// buffer; keep it dismissed for the word it was dismissed on; restart an
/// automatic completion on a trigger key; start one when automatic
/// suggestions are on; otherwise refine a waiting or active one; else keep.
pub open spec fn spec_completion_action(inp: CompletionInputs) -> CompletionAction {
    if inp.left_dragging {
        CompletionAction::Discard
    } else if inp.navigated_history || inp.buffer_empty {
        CompletionAction::Discard
    } else if inp.dismissed_wuc matches Some(d) && d@ == inp.new_wuc@ {
        CompletionAction::Keep
    } else if mode_auto_started(inp.mode) && (inp.fresh_key_char matches Some(c) && is_trigger_char(
        c,
        inp.new_wuc@,
    )) {
        CompletionAction::Restart { carry_over: inp.fresh_key_char == Some('-') || inp.fresh_key_char == Some('.') }
    } else if inp.auto_suggest && inp.mode is Normal {
        CompletionAction::Restart { carry_over: false }
    } else if spec_refine(inp) is Some {
        spec_refine(inp)->0
    } else {
        CompletionAction::Keep
    }
}

/// While suggestions are shown, moving to a different word (one that does
/// not overlap the word they are filtered for, is not the same, was not
/// emptied, and is not a shortening of an automatic completion's word)
/// restarts completion for the new word when automatic suggestions are on,
/// and drops the suggestions when they are off. Nothing here depends on a
/// trigger key, so the law leaves none pressed.
pub proof fn law_moving_to_another_word(inp: CompletionInputs)
    requires
        inp.mode matches CompletionMode::Active { original_wuc, current_wuc, auto_started } && !(auto_started
            && inp.new_wuc@.len() < original_wuc@.len()) && !(inp.new_wuc@.len() == 0 && original_wuc@.len() != 0),
        !inp.wuc_same_as_current,
        !inp.wuc_overlaps_current,
        !inp.left_dragging,
        !inp.navigated_history,
        !inp.buffer_empty,
        inp.dismissed_wuc is None,
        inp.fresh_key_char is None,
    ensures
        inp.auto_suggest ==> spec_completion_action(inp) == (CompletionAction::Restart { carry_over: false }),
        !inp.auto_suggest ==> spec_completion_action(inp) == CompletionAction::Discard,
{
}

/// While suggestions are shown, a new word that overlaps the one they are
/// filtered for and differs from it in length by at most one character
/// filters them again; a larger change of length restarts completion,
/// keeping the old suggestions on show meanwhile.
pub proof fn law_overlapping_word_updates(inp: CompletionInputs)
    requires
        inp.mode matches CompletionMode::Active { original_wuc, current_wuc, auto_started } && !(auto_started
            && inp.new_wuc@.len() < original_wuc@.len()) && !(inp.new_wuc@.len() == 0 && original_wuc@.len() != 0),
        !inp.wuc_same_as_current,
        inp.wuc_overlaps_current,
        !inp.left_dragging,
        !inp.navigated_history,
        !inp.buffer_empty,
        inp.dismissed_wuc is None,
        inp.fresh_key_char is None,
        !(inp.auto_suggest && inp.mode is Normal),
    ensures
        ({
            let cur = inp.mode->current_wuc@.len() as int;
            let new = inp.new_wuc@.len() as int;
            &&& (cur - new <= 1 && new - cur <= 1) ==> spec_completion_action(inp) == CompletionAction::Update
            &&& !(cur - new <= 1 && new - cur <= 1) ==> spec_completion_action(inp) == (CompletionAction::Restart {
                carry_over: true,
            })
        }),
{
}

/// Dragging with the mouse, moving through history, or emptying the buffer
/// drops the suggestions, whatever else holds.
pub proof fn law_drag_history_or_empty_discards(inp: CompletionInputs)
    requires
        inp.left_dragging || inp.navigated_history || inp.buffer_empty,
    ensures
        spec_completion_action(inp) == CompletionAction::Discard,
{
}

/// Suggestions dismissed for a word stay dismissed while the cursor is on
/// that word.
pub proof fn law_dismissed_word_keeps(inp: CompletionInputs)
    requires
        !inp.left_dragging,
        !inp.navigated_history,
        !inp.buffer_empty,
        inp.dismissed_wuc matches Some(d) && d@ == inp.new_wuc@,
    ensures
        spec_completion_action(inp) == CompletionAction::Keep,
{
}

/// With automatic suggestions on and no completion in progress, an edit
/// starts one, with nothing to carry over.
pub proof fn law_auto_suggest_starts(inp: CompletionInputs)
    requires
        !inp.left_dragging,
        !inp.navigated_history,
        !inp.buffer_empty,
        inp.dismissed_wuc is None,
        inp.auto_suggest,
        inp.mode is Normal,
    ensures
        spec_completion_action(inp) == (CompletionAction::Restart { carry_over: false }),
{
}

/// In an automatically started completion, typing `/`, `$`, `~`, `+` or
/// `=` restarts it afresh, and `.` restarts it keeping the old suggestions
/// on show.
pub proof fn law_trigger_key_restarts(inp: CompletionInputs, c: char)
    requires
        !inp.left_dragging,
        !inp.navigated_history,
        !inp.buffer_empty,
        inp.dismissed_wuc is None,
        inp.mode matches CompletionMode::Active { auto_started, .. } && auto_started,
        inp.fresh_key_char == Some(c),
        c == '/' || c == '$' || c == '~' || c == '+' || c == '=' || c == '.',
    ensures
        spec_completion_action(inp) == (CompletionAction::Restart { carry_over: c == '.' }),
{
}

/// In an automatically started completion, typing `-` while the word under
/// the cursor is all dashes (a flag being started) restarts it, keeping the
/// old suggestions on show; `-` inside another word, and any letter or
/// digit, is no trigger.
pub proof fn law_dash_and_plain_keys(inp: CompletionInputs, c: char, w: Seq<char>)
    requires
        !inp.left_dragging,
        !inp.navigated_history,
        !inp.buffer_empty,
        inp.dismissed_wuc is None,
        mode_auto_started(inp.mode),
        inp.fresh_key_char == Some('-'),
        forall|i: int| 0 <= i < inp.new_wuc@.len() ==> inp.new_wuc@[i] == '-',
    ensures
        spec_completion_action(inp) == (CompletionAction::Restart { carry_over: true }),
        (exists|i: int| 0 <= i < w.len() && w[i] != '-') ==> !is_trigger_char('-', w),
        ('a' <= c && c <= 'z') || ('A' <= c && c <= 'Z') || ('0' <= c && c <= '9') ==> !is_trigger_char(c, w),
{
}

/// A word shorter than the one an automatic completion started from
/// restarts it, keeping the old suggestions on show; with suggestions shown
/// for the very word under the cursor they are kept; a word emptied out
/// drops them.
pub proof fn law_active_word_changes(inp: CompletionInputs)
    requires
        !inp.left_dragging,
        !inp.navigated_history,
        !inp.buffer_empty,
        inp.dismissed_wuc is None,
        inp.fresh_key_char is None,
        inp.mode is Active,
    ensures
        ({
            let orig = inp.mode->original_wuc@;
            let auto = inp.mode->Active_auto_started;
            let new = inp.new_wuc@;
            &&& (auto && new.len() < orig.len()) ==> spec_completion_action(inp) == (CompletionAction::Restart {
                carry_over: true,
            })
            &&& (!(auto && new.len() < orig.len()) && inp.wuc_same_as_current) ==> spec_completion_action(inp)
                == CompletionAction::Keep
            &&& (!(auto && new.len() < orig.len()) && !inp.wuc_same_as_current && new.len() == 0 && orig.len()
                != 0) ==> spec_completion_action(inp) == CompletionAction::Discard
        }),
{
}

/// While completion runs for a word: a word shorter than an automatic
/// completion's restarts it, keeping what is shown; a word that neither
/// extends nor is extended by the old one restarts completion when
/// automatic suggestions are on and drops it when they are off; an
/// extension either way keeps it running.
pub proof fn law_waiting_word_changes(inp: CompletionInputs)
    requires
        !inp.left_dragging,
        !inp.navigated_history,
        !inp.buffer_empty,
        inp.dismissed_wuc is None,
        inp.fresh_key_char is None,
        inp.mode is Waiting,
    ensures
        ({
            let old = inp.mode->wuc@;
            let auto = inp.mode->Waiting_auto_started;
            let new = inp.new_wuc@;
            let related = (new.len() >= old.len() && new.subrange(0, old.len() as int) == old) || (old.len()
                >= new.len() && old.subrange(0, new.len() as int) == new);
            &&& (auto && new.len() < old.len()) ==> spec_completion_action(inp) == (CompletionAction::Restart {
                carry_over: true,
            })
            &&& (!(auto && new.len() < old.len()) && !related && inp.auto_suggest) ==> spec_completion_action(inp)
                == (CompletionAction::Restart { carry_over: false })
            &&& (!(auto && new.len() < old.len()) && !related && !inp.auto_suggest) ==> spec_completion_action(inp)
                == CompletionAction::Discard
            &&& (!(auto && new.len() < old.len()) && related) ==> spec_completion_action(inp) == CompletionAction::Keep
        }),
{
}

fn all_dashes(w: &Vec<char>) -> (r: bool)
    ensures
        r == (forall|i: int| 0 <= i < w@.len() ==> w@[i] == '-'),
{
    let mut i: usize = 0;
    while i < w.len()
        invariant
            i <= w@.len(),
            forall|j: int| 0 <= j < i ==> w@[j] == '-',
        decreases w.len() - i,
    {
        if w[i] != '-' {
            return false;
        }
        i += 1;
    }
    true
}

fn refine(inp: &CompletionInputs) -> (r: Option<CompletionAction>)
    ensures
        r == spec_refine(*inp),
{
    let new_wuc = chars_of(inp.new_wuc.as_str());
    match &inp.mode {
        CompletionMode::Waiting { wuc, auto_started } => {
            let old_wuc = chars_of(wuc.as_str());
            if *auto_started && new_wuc.len() < old_wuc.len() {
                Some(CompletionAction::Restart { carry_over: true })
            } else if !starts_with(&new_wuc, &old_wuc) && !starts_with(&old_wuc, &new_wuc) {
                if inp.auto_suggest {
                    Some(CompletionAction::Restart { carry_over: false })
                } else {
                    Some(CompletionAction::Discard)
                }
            } else {
                None
            }
        },
        CompletionMode::Active { original_wuc, current_wuc, auto_started } => {
            let orig = chars_of(original_wuc.as_str());
            if *auto_started && new_wuc.len() < orig.len() {
                Some(CompletionAction::Restart { carry_over: true })
            } else if inp.wuc_same_as_current {
                Some(CompletionAction::Keep)
            } else if new_wuc.len() == 0 && orig.len() != 0 {
                Some(CompletionAction::Discard)
            } else if inp.wuc_overlaps_current {
                let old_len = chars_of(current_wuc.as_str()).len();
                let new_len = new_wuc.len();
                let diff = if old_len >= new_len { old_len - new_len } else { new_len - old_len };
                if diff > 1 {
                    Some(CompletionAction::Restart { carry_over: true })
                } else {
                    Some(CompletionAction::Update)
                }
            } else if inp.auto_suggest {
                Some(CompletionAction::Restart { carry_over: false })
            } else {
                Some(CompletionAction::Discard)
            }
        },
        _ => None,
    }
}

/// Decides what happens to tab completion after the buffer may have changed.
pub fn completion_action(inp: &CompletionInputs) -> (r: CompletionAction)
    ensures
        r == spec_completion_action(*inp),
{
    if inp.left_dragging {
        return CompletionAction::Discard;
    }
    if inp.navigated_history || inp.buffer_empty {
        return CompletionAction::Discard;
    }
    let new_wuc = chars_of(inp.new_wuc.as_str());
    if let Some(d) = &inp.dismissed_wuc {
        if chars_eq(&chars_of(d.as_str()), &new_wuc) {
            return CompletionAction::Keep;
        }
    }
    let auto_started = match &inp.mode {
        CompletionMode::Waiting { auto_started, .. } => *auto_started,
        CompletionMode::Active { auto_started, .. } => *auto_started,
        _ => false,
    };
    if auto_started {
        if let Some(c) = inp.fresh_key_char {
            let trigger = c == '/' || c == '$' || c == '~' || c == '.' || c == '+' || c == '=' || (c
                == '-' && all_dashes(&new_wuc));
            if trigger {
                return CompletionAction::Restart { carry_over: c == '-' || c == '.' };
            }
        }
    }
    if inp.auto_suggest && matches!(inp.mode, CompletionMode::Normal) {
        return CompletionAction::Restart { carry_over: false };
    }
    match refine(inp) {
        Some(a) => a,
        None => CompletionAction::Keep,
    }
}

} // verus!
