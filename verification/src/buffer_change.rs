//! What the editor decides after the command buffer may have changed: which
//! agent command a buffer calls for, which content mode follows, and whether
//! the inline history suggestion is looked up.
use vstd::prelude::*;

use crate::app_state::FuzzyHistorySource;
use crate::mouse::ContentModeKind;
use crate::text::{chars_eq, chars_of, seq_starts_with, starts_with, string_from_chars};

verus! {

// ---------------------------------------------------------------------------
// Agent command prefixes
// ---------------------------------------------------------------------------

/// The trigger prefixes of the configured agent commands as plain values.
pub open spec fn prefixes_view(prefixes: Seq<Option<String>>) -> Seq<Option<Seq<char>>> {
    prefixes.map_values(|p: Option<String>| match p {
        Some(s) => Some(s@),
        None => None,
    })
}

/// The first agent command, from index `i` on, whose trigger prefix starts
/// `buf`.
pub open spec fn prefix_match_from(prefixes: Seq<Option<Seq<char>>>, buf: Seq<char>, i: int) -> Option<int>
    decreases prefixes.len() - i,
{
    if i < 0 || i >= prefixes.len() {
        None
    } else if prefixes[i] matches Some(p) && seq_starts_with(buf, p) {
        Some(i)
    } else {
        prefix_match_from(prefixes, buf, i + 1)
    }
}

/// The first agent command, from index `i` on, without a trigger prefix.
pub open spec fn default_command_from(prefixes: Seq<Option<Seq<char>>>, i: int) -> Option<int>
    decreases prefixes.len() - i,
{
    if i < 0 || i >= prefixes.len() {
        None
    } else if prefixes[i] is None {
        Some(i)
    } else {
        default_command_from(prefixes, i + 1)
    }
}

/// Whether `c` has the Unicode `White_Space` property: the tab, line feed,
/// vertical tab, form feed and carriage return controls, space, next line,
/// no-break space, ogham space mark, the spaces U+2000 to U+200A, line and
/// paragraph separators, narrow no-break space, medium mathematical space
/// and ideographic space.
pub open spec fn white_space(c: char) -> bool {
    let u = c as u32;
    (0x09 <= u && u <= 0x0D) || u == 0x20 || u == 0x85 || u == 0xA0 || u == 0x1680 || (0x2000 <= u && u
        <= 0x200A) || u == 0x2028 || u == 0x2029 || u == 0x202F || u == 0x205F || u == 0x3000
}

/// `char::is_whitespace` from std: whether `c` has the Unicode `White_Space`
/// property, which the Unicode Character Database (PropList.txt) lists as
/// the code points that `white_space` names.
#[verifier::external_body]
pub(crate) fn is_whitespace(c: char) -> (r: bool)
    ensures
        r == white_space(c),
{
    c.is_whitespace()
}

/// The number of leading white-space characters of `s[i..]`.
pub open spec fn leading_white_space(s: Seq<char>, i: int) -> int
    decreases s.len() - i,
{
    if i < 0 || i >= s.len() || !white_space(s[i]) {
        0
    } else {
        1 + leading_white_space(s, i + 1)
    }
}

/// `s` without its leading white space, as `str::trim_start` gives it.
pub open spec fn trim_start_spec(s: Seq<char>) -> Seq<char> {
    s.skip(leading_white_space(s, 0))
}

proof fn lemma_leading_white_space_bounds(s: Seq<char>, i: int)
    requires
        0 <= i <= s.len(),
    ensures
        0 <= leading_white_space(s, i) <= s.len() - i,
    decreases s.len() - i,
{
    if i < s.len() && white_space(s[i]) {
        lemma_leading_white_space_bounds(s, i + 1);
    }
}

fn trim_start_chars(v: &Vec<char>) -> (r: Vec<char>)
    ensures
        r@ == trim_start_spec(v@),
{
    let mut i: usize = 0;
    proof {
        lemma_leading_white_space_bounds(v@, 0);
    }
    while i < v.len() && is_whitespace(v[i])
        invariant
            i <= v@.len(),
            leading_white_space(v@, 0) == i + leading_white_space(v@, i as int),
        decreases v.len() - i,
    {
        i += 1;
    }
    let mut out: Vec<char> = Vec::new();
    let start = i;
    while i < v.len()
        invariant
            start <= i <= v@.len(),
            out@ == v@.subrange(start as int, i as int),
        decreases v.len() - i,
    {
        out.push(v[i]);
        assert(v@.subrange(start as int, i + 1) =~= v@.subrange(start as int, i as int).push(v@[i as int]));
        i += 1;
    }
    assert(out@ =~= trim_start_spec(v@));
    out
}

/// The agent command whose trigger prefix starts `buffer` (the first, in the
/// order given), with the rest of the buffer after the prefix.
pub fn agent_prefix_match(prefixes: &Vec<Option<String>>, buffer: &str) -> (r: Option<(usize, String)>)
    ensures
        match r {
            Some((i, rest)) => prefix_match_from(prefixes_view(prefixes@), buffer@, 0) == Some(i as int)
                && rest@ == buffer@.skip(prefixes_view(prefixes@)[i as int]->0.len() as int),
            None => prefix_match_from(prefixes_view(prefixes@), buffer@, 0) is None,
        },
{
    let ghost pv = prefixes_view(prefixes@);
    let buf = chars_of(buffer);
    let mut i: usize = 0;
    while i < prefixes.len()
        invariant
            i <= prefixes@.len(),
            pv == prefixes_view(prefixes@),
            buf@ == buffer@,
            prefix_match_from(pv, buffer@, 0) == prefix_match_from(pv, buffer@, i as int),
        decreases prefixes.len() - i,
    {
        if let Some(p) = &prefixes[i] {
            let pc = chars_of(p.as_str());
            if starts_with(&buf, &pc) {
                let mut rest: Vec<char> = Vec::new();
                let mut k: usize = pc.len();
                while k < buf.len()
                    invariant
                        pc@.len() <= k <= buf@.len(),
                        rest@ == buf@.subrange(pc@.len() as int, k as int),
                    decreases buf.len() - k,
                {
                    rest.push(buf[k]);
                    assert(buf@.subrange(pc@.len() as int, k + 1) =~= buf@.subrange(pc@.len() as int, k as int).push(buf@[k as int]));
                    k += 1;
                }
                assert(rest@ =~= buffer@.skip(pv[i as int]->0.len() as int));
                return Some((i, string_from_chars(&rest)));
            }
        }
        i += 1;
    }
    None
}

/// Which agent command runs the buffer, and on what text: the one whose
/// trigger prefix starts it, on the rest without leading white space;
/// otherwise (unless a prefix is needed) the command without a prefix, or
/// else the first one, on the whole buffer.
pub open spec fn spec_resolve_agent_command(
    prefixes: Seq<Option<Seq<char>>>,
    buf: Seq<char>,
    needs_prefix: bool,
) -> Option<(int, Seq<char>)> {
    match prefix_match_from(prefixes, buf, 0) {
        Some(i) => Some((i, trim_start_spec(buf.skip(prefixes[i]->0.len() as int)))),
        None => if needs_prefix {
            None
        } else {
            match default_command_from(prefixes, 0) {
                Some(j) => Some((j, buf)),
                None => if prefixes.len() > 0 {
                    Some((0, buf))
                } else {
                    None
                },
            }
        },
    }
}

fn default_command(prefixes: &Vec<Option<String>>) -> (r: Option<usize>)
    ensures
        match r {
            Some(j) => default_command_from(prefixes_view(prefixes@), 0) == Some(j as int),
            None => default_command_from(prefixes_view(prefixes@), 0) is None,
        },
{
    let ghost pv = prefixes_view(prefixes@);
    let mut j: usize = 0;
    while j < prefixes.len()
        invariant
            j <= prefixes@.len(),
            pv == prefixes_view(prefixes@),
            default_command_from(pv, 0) == default_command_from(pv, j as int),
        decreases prefixes.len() - j,
    {
        if prefixes[j].is_none() {
            return Some(j);
        }
        j += 1;
    }
    None
}

/// Resolves which agent command to run for the buffer (see
/// `spec_resolve_agent_command`); `prefixes` are the trigger prefixes of the
/// configured commands, in the order they are walked.
pub fn resolve_agent_command(prefixes: &Vec<Option<String>>, buffer: &str, needs_prefix: bool) -> (r: Option<(usize, String)>)
    ensures
        match r {
            Some((i, text)) => spec_resolve_agent_command(prefixes_view(prefixes@), buffer@, needs_prefix) == Some(
                (i as int, text@),
            ),
            None => spec_resolve_agent_command(prefixes_view(prefixes@), buffer@, needs_prefix) is None,
        },
{
    if let Some((i, rest)) = agent_prefix_match(prefixes, buffer) {
        let t = trim_start_chars(&chars_of(rest.as_str()));
        return Some((i, string_from_chars(&t)));
    }
    if needs_prefix {
        return None;
    }
    match default_command(prefixes) {
        Some(j) => Some((j, crate::text::owned(buffer))),
        None => if prefixes.len() > 0 {
            Some((0, crate::text::owned(buffer)))
        } else {
            None
        },
    }
}

proof fn lemma_leading_white_space_stops(s: Seq<char>, i: int)
    requires
        0 <= i <= s.len(),
    ensures
        i + leading_white_space(s, i) < s.len() ==> !white_space(s[i + leading_white_space(s, i)]),
        forall|k: int| i <= k < i + leading_white_space(s, i) ==> white_space(#[trigger] s[k]),
    decreases s.len() - i,
{
    if i < s.len() && white_space(s[i]) {
        lemma_leading_white_space_stops(s, i + 1);
    }
}

/// Trimming keeps the end of the text: what is left is a suffix, every
/// character removed is white space, and what is left does not start with
/// white space.
pub proof fn law_trim_start_removes_only_leading_space(s: Seq<char>)
    ensures
        s.len() - trim_start_spec(s).len() >= 0,
        trim_start_spec(s) == s.subrange(s.len() - trim_start_spec(s).len(), s.len() as int),
        forall|k: int| 0 <= k < s.len() - trim_start_spec(s).len() ==> white_space(#[trigger] s[k]),
        trim_start_spec(s).len() > 0 ==> !white_space(trim_start_spec(s)[0]),
{
    lemma_leading_white_space_bounds(s, 0);
    lemma_leading_white_space_stops(s, 0);
    let n = leading_white_space(s, 0);
    assert(trim_start_spec(s) =~= s.subrange(n, s.len() as int));
}

/// A buffer that starts with an agent command's trigger prefix goes to that
/// command, whether or not a prefix is required, with the prefix and the
/// white space after it removed.
pub proof fn law_prefixed_buffer_goes_to_its_command(prefixes: Seq<Option<Seq<char>>>, buf: Seq<char>, needs_prefix: bool)
    requires
        prefix_match_from(prefixes, buf, 0) is Some,
    ensures
        spec_resolve_agent_command(prefixes, buf, needs_prefix) == Some((
            prefix_match_from(prefixes, buf, 0)->0,
            trim_start_spec(buf.skip(prefixes[prefix_match_from(prefixes, buf, 0)->0]->0.len() as int)),
        )),
{
}

proof fn lemma_prefix_match_from(prefixes: Seq<Option<Seq<char>>>, buf: Seq<char>, i: int)
    requires
        0 <= i,
    ensures
        prefix_match_from(prefixes, buf, i) matches Some(k) ==> i <= k < prefixes.len() && (prefixes[k] matches Some(
            p,
        ) && seq_starts_with(buf, p)) && forall|j: int|
            i <= j < k ==> !(#[trigger] prefixes[j] matches Some(q) && seq_starts_with(buf, q)),
        prefix_match_from(prefixes, buf, i) is None ==> forall|j: int|
            i <= j < prefixes.len() ==> !(#[trigger] prefixes[j] matches Some(q) && seq_starts_with(buf, q)),
    decreases prefixes.len() - i,
{
    if i < prefixes.len() && !(prefixes[i] matches Some(p) && seq_starts_with(buf, p)) {
        lemma_prefix_match_from(prefixes, buf, i + 1);
    }
}

proof fn lemma_default_command_from(prefixes: Seq<Option<Seq<char>>>, i: int)
    requires
        0 <= i,
    ensures
        default_command_from(prefixes, i) matches Some(k) ==> i <= k < prefixes.len() && prefixes[k] is None
            && forall|j: int| i <= j < k ==> #[trigger] prefixes[j] is Some,
        default_command_from(prefixes, i) is None ==> forall|j: int| i <= j < prefixes.len() ==> #[trigger] prefixes[j] is Some,
    decreases prefixes.len() - i,
{
    if i < prefixes.len() && prefixes[i] is Some {
        lemma_default_command_from(prefixes, i + 1);
    }
}

/// The command chosen for a buffer: the first command, in the order given,
/// whose trigger prefix starts the buffer, on the rest of the buffer without
/// its leading white space; without one (and when no prefix is required),
/// the first command that has no prefix, on the whole buffer; failing that,
/// the first command; with no commands, none.
pub proof fn law_agent_command_choice(prefixes: Seq<Option<Seq<char>>>, buf: Seq<char>, needs_prefix: bool)
    ensures
        spec_resolve_agent_command(prefixes, buf, needs_prefix) matches Some((i, _)) ==> 0 <= i < prefixes.len(),
        (exists|j: int| 0 <= j < prefixes.len() && (#[trigger] prefixes[j] matches Some(q) && seq_starts_with(buf, q)))
            ==> ({
            let r = spec_resolve_agent_command(prefixes, buf, needs_prefix);
            let chosen = r->0;
            let i = chosen.0;
            &&& r is Some
            &&& 0 <= i < prefixes.len()
            &&& prefixes[i] is Some && seq_starts_with(buf, prefixes[i]->0)
            &&& chosen.1 == trim_start_spec(buf.skip(prefixes[i]->0.len() as int))
            &&& forall|j: int| 0 <= j < i ==> !(#[trigger] prefixes[j] matches Some(q) && seq_starts_with(buf, q))
        }),
        (forall|j: int| 0 <= j < prefixes.len() ==> !(#[trigger] prefixes[j] matches Some(q) && seq_starts_with(buf, q)))
            && !needs_prefix && prefixes.len() > 0 ==> ({
            let r = spec_resolve_agent_command(prefixes, buf, needs_prefix);
            let chosen = r->0;
            let i = chosen.0;
            &&& r is Some
            &&& chosen.1 == buf
            &&& 0 <= i < prefixes.len()
            &&& prefixes[i] is None || (i == 0 && forall|j: int| 0 <= j < prefixes.len() ==> #[trigger] prefixes[j] is Some)
            &&& forall|j: int| 0 <= j < i ==> #[trigger] prefixes[j] is Some
        }),
        prefixes.len() == 0 ==> spec_resolve_agent_command(prefixes, buf, needs_prefix) is None,
{
    lemma_prefix_match_from(prefixes, buf, 0);
    lemma_default_command_from(prefixes, 0);
}

/// When a prefix is required, a buffer without one goes to no command.
pub proof fn law_no_prefix_no_command(prefixes: Seq<Option<Seq<char>>>, buf: Seq<char>)
    requires
        prefix_match_from(prefixes, buf, 0) is None,
    ensures
        spec_resolve_agent_command(prefixes, buf, true) is None,
{
}

// ---------------------------------------------------------------------------
// Content mode after a buffer change
// ---------------------------------------------------------------------------

/// What the mode decision reads of the editor.
pub struct BufferChangeInputs {
    pub mode: ContentModeKind,
    /// The buffer the agent suggestions were last shown for, while they are.
    pub ai_selection_buffer: Option<String>,
    /// The cursor is at the start of the buffer.
    pub cursor_at_start: bool,
    /// The last key moved through history.
    pub navigated_history: bool,
    pub buffer: String,
    /// The buffer on which agent mode was dismissed, if any.
    pub dismissed_agent_buffer: Option<String>,
    /// The buffer starts with the trigger prefix of an agent command.
    pub starts_with_agent_prefix: bool,
}

/// What the editor does after the buffer may have changed.
pub struct BufferChangeOutcome {
    pub mode: ContentModeKind,
    pub dismissed_agent_buffer: Option<String>,
    /// Forget the selected agent suggestion (the buffer changed under it).
    pub reset_ai_selection: bool,
    /// Agent-prompt search was just opened: warm its cache.
    pub open_agent_prompt_search: bool,
}

/// The plain view of an optional string.
pub open spec fn opt_view(o: Option<String>) -> Option<Seq<char>> {
    match o {
        Some(s) => Some(s@),
        None => None,
    }
}

/// The dismissed buffer is forgotten once the buffer differs from it.
pub open spec fn spec_keep_dismissed(dismissed: Option<Seq<char>>, buf: Seq<char>) -> Option<Seq<char>> {
    if dismissed matches Some(b) && b != buf { None } else { dismissed }
}

/// The content mode after a buffer change: leave directory selection once
/// the cursor left the start; leave an agent error once its buffer changed;
/// open the agent-prompt search when a normal buffer starts with an agent
/// prefix (not while moving through history, nor on a dismissed buffer);
/// close that search once the prefix is gone.
pub open spec fn spec_mode_after_change(
    mode: ContentModeKind,
    cursor_at_start: bool,
    navigated_history: bool,
    dismissed: Option<Seq<char>>,
    starts_with_agent_prefix: bool,
) -> ContentModeKind {
    let m1 = if mode is PromptDirSelect && !cursor_at_start { ContentModeKind::Normal } else { mode };
    let m2 = if m1 == ContentModeKind::AgentError && dismissed is None { ContentModeKind::Normal } else { m1 };
    if !navigated_history && m2 == ContentModeKind::Normal {
        if dismissed is None && starts_with_agent_prefix {
            ContentModeKind::FuzzyHistorySearch(FuzzyHistorySource::AgentPrompts)
        } else {
            m2
        }
    } else if m2 == ContentModeKind::FuzzyHistorySearch(FuzzyHistorySource::AgentPrompts) && !starts_with_agent_prefix {
        ContentModeKind::Normal
    } else {
        m2
    }
}

fn keep_dismissed(dismissed: &Option<String>, buf: &Vec<char>) -> (r: Option<String>)
    ensures
        opt_view(r) == spec_keep_dismissed(opt_view(*dismissed), buf@),
{
    match dismissed {
        Some(b) => {
            if chars_eq(&chars_of(b.as_str()), buf) {
                Some(crate::text::owned(b.as_str()))
            } else {
                None
            }
        },
        None => None,
    }
}

/// Decides the content mode and the agent-mode bookkeeping after the buffer
/// may have changed.
pub fn mode_after_change(inp: &BufferChangeInputs) -> (r: BufferChangeOutcome)
    ensures
        opt_view(r.dismissed_agent_buffer) == spec_keep_dismissed(opt_view(inp.dismissed_agent_buffer), inp.buffer@),
        r.mode == spec_mode_after_change(
            inp.mode,
            inp.cursor_at_start,
            inp.navigated_history,
            spec_keep_dismissed(opt_view(inp.dismissed_agent_buffer), inp.buffer@),
            inp.starts_with_agent_prefix,
        ),
        r.reset_ai_selection == (inp.mode == ContentModeKind::AgentOutputSelection && (inp.ai_selection_buffer
            matches Some(b) && b@ != inp.buffer@)),
        r.open_agent_prompt_search == (r.mode == ContentModeKind::FuzzyHistorySearch(FuzzyHistorySource::AgentPrompts)
            && !inp.navigated_history && inp.mode != ContentModeKind::FuzzyHistorySearch(FuzzyHistorySource::AgentPrompts)),
{
    let buf = chars_of(inp.buffer.as_str());
    let reset_ai_selection = match (&inp.mode, &inp.ai_selection_buffer) {
        (ContentModeKind::AgentOutputSelection, Some(b)) => !chars_eq(&chars_of(b.as_str()), &buf),
        _ => false,
    };
    let mut mode = inp.mode;
    if matches!(mode, ContentModeKind::PromptDirSelect(_)) && !inp.cursor_at_start {
        mode = ContentModeKind::Normal;
    }
    let dismissed = keep_dismissed(&inp.dismissed_agent_buffer, &buf);
    if mode == ContentModeKind::AgentError && dismissed.is_none() {
        mode = ContentModeKind::Normal;
    }
    let mut open_agent_prompt_search = false;
    let agent_search = ContentModeKind::FuzzyHistorySearch(FuzzyHistorySource::AgentPrompts);
    if !inp.navigated_history && mode == ContentModeKind::Normal {
        if dismissed.is_none() && inp.starts_with_agent_prefix {
            mode = agent_search;
            open_agent_prompt_search = true;
        }
    } else if mode == agent_search && !inp.starts_with_agent_prefix {
        mode = ContentModeKind::Normal;
    }
    BufferChangeOutcome { mode, dismissed_agent_buffer: dismissed, reset_ai_selection, open_agent_prompt_search }
}

/// A dismissed buffer is kept exactly while the buffer still equals it.
pub proof fn law_dismissed_buffer_kept_while_unchanged(dismissed: Option<Seq<char>>, buf: Seq<char>)
    ensures
        dismissed == Some(buf) ==> spec_keep_dismissed(dismissed, buf) == Some(buf),
        dismissed != Some(buf) ==> spec_keep_dismissed(dismissed, buf) is None,
{
}

/// How each content mode fares when the buffer may have changed (`dismissed`
/// is the dismissed buffer that was kept):
/// - a normal buffer that starts with an agent prefix opens the agent-prompt
///   search, unless the key moved through history or agent mode was
///   dismissed on this buffer; otherwise it stays normal;
/// - directory selection stays while the cursor is at the start, and is left
///   once it is not;
/// - an agent error stays while its buffer is unchanged, and is left once it
///   changed;
/// - the agent-prompt search stays exactly while the prefix is there;
/// - every other mode is left as it is;
/// - the agent-prompt search is never the outcome without a prefix.
pub proof fn law_mode_after_change_cases(
    mode: ContentModeKind,
    cursor_at_start: bool,
    navigated_history: bool,
    dismissed: Option<Seq<char>>,
    starts_with_agent_prefix: bool,
)
    ensures
        ({
            let r = spec_mode_after_change(mode, cursor_at_start, navigated_history, dismissed, starts_with_agent_prefix);
            let search = ContentModeKind::FuzzyHistorySearch(FuzzyHistorySource::AgentPrompts);
            &&& mode == ContentModeKind::Normal && !navigated_history && dismissed is None && starts_with_agent_prefix
                ==> r == search
            &&& mode == ContentModeKind::Normal && (navigated_history || dismissed is Some || !starts_with_agent_prefix)
                ==> r == ContentModeKind::Normal
            &&& mode is PromptDirSelect && cursor_at_start ==> r == mode
            &&& mode is PromptDirSelect && !cursor_at_start && !starts_with_agent_prefix ==> r == ContentModeKind::Normal
            &&& mode == ContentModeKind::AgentError && dismissed is Some ==> r == ContentModeKind::AgentError
            &&& mode == ContentModeKind::AgentError && dismissed is None && !starts_with_agent_prefix
                ==> r == ContentModeKind::Normal
            &&& mode == search && starts_with_agent_prefix ==> r == search
            &&& mode == search && !starts_with_agent_prefix ==> r == ContentModeKind::Normal
            &&& mode != ContentModeKind::Normal && !(mode is PromptDirSelect) && mode != ContentModeKind::AgentError
                && mode != search ==> r == mode
            &&& r == search ==> starts_with_agent_prefix
        }),
{
}

// ---------------------------------------------------------------------------
// Inline history suggestion
// ---------------------------------------------------------------------------

/// Whether to look up an inline history suggestion, and the dismissed
/// buffer that is kept.
pub struct InlineSuggestionPlan {
    pub look_up: bool,
    pub dismissed: Option<String>,
}

/// A suggestion is looked up when the setting is on, the buffer is not
/// empty and no suggestion was dismissed on this very buffer.
pub fn plan_inline_suggestion(show_inline_history: bool, buffer: &str, dismissed: &Option<String>) -> (r: InlineSuggestionPlan)
    ensures
        opt_view(r.dismissed) == spec_keep_dismissed(opt_view(*dismissed), buffer@),
        r.look_up == (show_inline_history && buffer@.len() > 0 && spec_keep_dismissed(opt_view(*dismissed), buffer@) is None),
{
    let buf = chars_of(buffer);
    let kept = keep_dismissed(dismissed, &buf);
    let look_up = show_inline_history && buf.len() > 0 && kept.is_none();
    InlineSuggestionPlan { look_up, dismissed: kept }
}

} // verus!
