//! Small pieces of the line editor's application state.
use vstd::prelude::*;

use crate::text::{chars_of, push_chars, seq_starts_with, starts_with, string_from_chars};

verus! {

/// A cell position: row, then column.
#[derive(Debug, Clone, Copy, PartialEq, Eq, Structural)]
pub struct Coord {
    pub row: u16,
    pub col: u16,
}

impl Coord {
    pub open spec fn new_spec(row: u16, col: u16) -> Coord {
        Coord { row, col }
    }

    pub fn new(row: u16, col: u16) -> (r: Coord)
        ensures
            r == Coord::new_spec(row, col),
    {
        Coord { row, col }
    }
}

/// How the editor session ended.
#[derive(Debug, Clone, PartialEq, Eq)]
pub enum ExitState {
    /// A command line to hand to the shell.
    WithCommand(String),
    /// Nothing to run (the line was abandoned).
    WithoutCommand,
    /// End of input.
    EOF,
}

/// Whether the editor is still running or is exiting, and how.
#[derive(Debug, Clone, PartialEq, Eq)]
pub enum AppRunningState {
    Running,
    Exiting(ExitState),
}

impl AppRunningState {
    /// Whether the editor is still running.
    pub fn is_running(&self) -> (r: bool)
        ensures
            r == (*self is Running),
    {
        match self {
            AppRunningState::Running => true,
            AppRunningState::Exiting(_) => false,
        }
    }
}

/// Which history a fuzzy search runs over.
#[derive(Debug, Clone, Copy, PartialEq, Eq, Structural)]
pub enum FuzzyHistorySource {
    PastCommands,
    CancelledCommands,
    AgentPrompts,
}

/// The answer chosen in the "synthesize completions?" prompt.
#[derive(Debug, Clone, Copy, PartialEq, Eq, Structural)]
pub enum FlycompPromptSelection {
    Yes,
    No,
    DontAsk,
}


impl FuzzyHistorySource {
    /// The title shown above the search.
    pub open spec fn spec_label(self) -> Seq<char> {
        match self {
            FuzzyHistorySource::PastCommands => "Fuzzy search"@,
            FuzzyHistorySource::CancelledCommands => "Cancelled commands"@,
            FuzzyHistorySource::AgentPrompts => "Agent prompts"@,
        }
    }

    /// The title shown above the search.
    pub fn label(&self) -> (r: &'static str)
        ensures
            r@ == self.spec_label(),
    {
        match self {
            FuzzyHistorySource::PastCommands => "Fuzzy search",
            FuzzyHistorySource::CancelledCommands => "Cancelled commands",
            FuzzyHistorySource::AgentPrompts => "Agent prompts",
        }
    }
}

/// The text that the right-click menu copies, with where it came from.
#[derive(Debug, Clone, PartialEq, Eq)]
pub enum RightClickCopyTarget {
    Selection(String),
    Buffer(String),
    HistoryEntry(String),
    Cwd(String),
    Suggestion(String),
    AiResult(String),
    Clipboard(String),
}

/// The state that the editor leaves with once it stops running: its exit
/// state, or no command when it was still running.
pub open spec fn spec_final_exit_state(mode: AppRunningState) -> ExitState {
    match mode {
        AppRunningState::Exiting(ExitState::WithCommand(cmd)) => ExitState::WithCommand(cmd),
        AppRunningState::Exiting(ExitState::EOF) => ExitState::EOF,
        _ => ExitState::WithoutCommand,
    }
}

/// How the editor session ends, given its running state when the loop stops.
pub fn final_exit_state(mode: AppRunningState) -> (r: ExitState)
    ensures
        r == spec_final_exit_state(mode),
{
    match mode {
        AppRunningState::Exiting(ExitState::WithCommand(cmd)) => ExitState::WithCommand(cmd),
        AppRunningState::Exiting(ExitState::EOF) => ExitState::EOF,
        _ => ExitState::WithoutCommand,
    }
}

/// The session ends as the editor was exiting: with its command, without
/// one, or at end of input; an editor still running leaves without a
/// command.
pub proof fn law_final_exit_state(mode: AppRunningState)
    ensures
        mode matches AppRunningState::Exiting(e) ==> spec_final_exit_state(mode) == e,
        mode is Running ==> spec_final_exit_state(mode) == ExitState::WithoutCommand,
{
}

/// The new top row of the inline viewport when content of height
/// `desired_height` would run past the bottom of a terminal `terminal_height`
/// rows high: moved up by the overflow (not above row 0); `None` when it fits.
pub open spec fn spec_viewport_shift(top: u16, desired_height: u16, terminal_height: u16) -> Option<u16> {
    let overflow = top + desired_height - terminal_height;
    if overflow > 0 {
        Some(if top >= overflow { (top - overflow) as u16 } else { 0 })
    } else {
        None
    }
}

/// A shifted viewport ends on the terminal's last row when the content fits
/// in the terminal, and starts on row 0 when it does not; it only ever moves
/// up. No shift is made exactly when the content already ends on screen.
pub proof fn law_viewport_shift_keeps_content_on_screen(top: u16, desired_height: u16, terminal_height: u16)
    ensures
        match spec_viewport_shift(top, desired_height, terminal_height) {
            Some(t) => t < top || t == 0,
            None => top + desired_height <= terminal_height,
        },
        spec_viewport_shift(top, desired_height, terminal_height) matches Some(t) ==> (desired_height
            <= terminal_height ==> t + desired_height == terminal_height) && (desired_height > terminal_height
            ==> t == 0),
{
}

/// Keeps the inline viewport on screen.
pub fn viewport_shift(top: u16, desired_height: u16, terminal_height: u16) -> (r: Option<u16>)
    requires
        top + desired_height <= u16::MAX,
    ensures
        r == spec_viewport_shift(top, desired_height, terminal_height),
{
    let overflow = (top + desired_height).saturating_sub(terminal_height);
    if overflow > 0 {
        Some(top.saturating_sub(overflow))
    } else {
        None
    }
}

// ---------------------------------------------------------------------------
// Signals
// ---------------------------------------------------------------------------

/// The names of the signals that `signal_to_str` knows, in the order of
/// `libc_signal_numbers`.
pub const SIGNAL_NAMES: [&'static str; 15] = [
    "SIGHUP", "SIGINT", "SIGQUIT", "SIGILL", "SIGTRAP", "SIGABRT", "SIGBUS", "SIGFPE", "SIGKILL",
    "SIGUSR1", "SIGSEGV", "SIGUSR2", "SIGPIPE", "SIGALRM", "SIGTERM",
];

/// What holds of the libc signal numbers on every target that has all of
/// them: they are positive and pairwise distinct, and `SIGHUP`, `SIGINT`,
/// `SIGQUIT`, `SIGILL`, `SIGABRT`, `SIGFPE`, `SIGKILL`, `SIGSEGV`, `SIGALRM`
/// and `SIGTERM` are 1, 2, 3, 4, 6, 8, 9, 11, 14 and 15 (the numbers of
/// `SIGTRAP`, `SIGBUS`, `SIGUSR1`, `SIGUSR2` and `SIGPIPE` differ between
/// targets).
pub open spec fn portable_signal_numbers(ns: Seq<i32>) -> bool {
    &&& ns.len() == 15
    &&& forall|i: int| 0 <= i < 15 ==> #[trigger] ns[i] > 0
    &&& forall|i: int, j: int| 0 <= i < j < 15 ==> #[trigger] ns[i] != #[trigger] ns[j]
    &&& ns[0] == 1 && ns[1] == 2 && ns[2] == 3 && ns[3] == 4 && ns[5] == 6 && ns[7] == 8
    &&& ns[8] == 9 && ns[10] == 11 && ns[13] == 14 && ns[14] == 15
}

/// The libc constants `SIGHUP`, `SIGINT`, `SIGQUIT`, `SIGILL`, `SIGTRAP`,
/// `SIGABRT`, `SIGBUS`, `SIGFPE`, `SIGKILL`, `SIGUSR1`, `SIGSEGV`, `SIGUSR2`,
/// `SIGPIPE`, `SIGALRM` and `SIGTERM`, in that order. The contract states
/// what every target's definitions share (`portable_signal_numbers`); the
/// numbers that differ between targets are left unsaid.
#[verifier::external_body]
fn libc_signal_numbers() -> (r: [i32; 15])
    ensures
        portable_signal_numbers(r@),
{
    [
        libc::SIGHUP, libc::SIGINT, libc::SIGQUIT, libc::SIGILL, libc::SIGTRAP, libc::SIGABRT,
        libc::SIGBUS, libc::SIGFPE, libc::SIGKILL, libc::SIGUSR1, libc::SIGSEGV, libc::SIGUSR2,
        libc::SIGPIPE, libc::SIGALRM, libc::SIGTERM,
    ]
}

/// The name of the first entry of `numbers`, from index `i` on, equal to `sig`.
pub open spec fn signal_name_from(sig: i32, numbers: Seq<i32>, i: int) -> Seq<char>
    decreases numbers.len() - i,
{
    if i < 0 || i >= numbers.len() || i >= 15 {
        "Unknown signal"@
    } else if numbers[i] == sig {
        SIGNAL_NAMES@[i]@
    } else {
        signal_name_from(sig, numbers, i + 1)
    }
}

/// The name of signal `sig`, where `numbers` are the signal numbers in the
/// order of `SIGNAL_NAMES`.
pub fn signal_name(sig: i32, numbers: &[i32; 15]) -> (r: &'static str)
    ensures
        r@ == signal_name_from(sig, numbers@, 0),
{
    let names = SIGNAL_NAMES;
    let mut i: usize = 0;
    while i < 15
        invariant
            i <= 15,
            numbers@.len() == 15,
            names@ == SIGNAL_NAMES@,
            signal_name_from(sig, numbers@, 0) == signal_name_from(sig, numbers@, i as int),
        decreases 15 - i,
    {
        if numbers[i] == sig {
            return names[i];
        }
        i += 1;
    }
    "Unknown signal"
}

proof fn lemma_signal_name_found(sig: i32, ns: Seq<i32>, i: int, k: int)
    requires
        ns.len() == 15,
        0 <= i <= k < 15,
        ns[k] == sig,
        forall|j: int| 0 <= j < k ==> #[trigger] ns[j] != sig,
    ensures
        signal_name_from(sig, ns, i) == SIGNAL_NAMES@[k]@,
    decreases k - i,
{
    if i < k {
        lemma_signal_name_found(sig, ns, i + 1, k);
    }
}

proof fn lemma_signal_name_unknown(sig: i32, ns: Seq<i32>, i: int)
    requires
        ns.len() == 15,
        0 <= i <= 15,
        forall|j: int| 0 <= j < 15 ==> #[trigger] ns[j] != sig,
    ensures
        signal_name_from(sig, ns, i) == "Unknown signal"@,
    decreases 15 - i,
{
    if i < 15 {
        lemma_signal_name_unknown(sig, ns, i + 1);
    }
}

/// The name of the signal numbered `sig` on this target, or
/// "Unknown signal": each of the fifteen signals named in `SIGNAL_NAMES` gets
/// its own name.
pub open spec fn spec_signal_name_on(sig: i32, ns: Seq<i32>) -> Seq<char> {
    signal_name_from(sig, ns, 0)
}

/// The name of a terminating signal, for the log. The numbers that every
/// target shares are named outright; the others (`SIGTRAP`, `SIGBUS`,
/// `SIGUSR1`, `SIGUSR2`, `SIGPIPE`) go by this target's numbers.
pub fn signal_to_str(sig: i32) -> (r: &'static str)
    ensures
        exists|ns: Seq<i32>| #[trigger] portable_signal_numbers(ns) && r@ == spec_signal_name_on(sig, ns),
        sig == 1 ==> r@ == "SIGHUP"@,
        sig == 2 ==> r@ == "SIGINT"@,
        sig == 3 ==> r@ == "SIGQUIT"@,
        sig == 4 ==> r@ == "SIGILL"@,
        sig == 6 ==> r@ == "SIGABRT"@,
        sig == 8 ==> r@ == "SIGFPE"@,
        sig == 9 ==> r@ == "SIGKILL"@,
        sig == 11 ==> r@ == "SIGSEGV"@,
        sig == 14 ==> r@ == "SIGALRM"@,
        sig == 15 ==> r@ == "SIGTERM"@,
        sig <= 0 ==> r@ == "Unknown signal"@,
{
    let numbers = libc_signal_numbers();
    let r = signal_name(sig, &numbers);
    proof {
        let ns = numbers@;
        assert(portable_signal_numbers(ns));
        let names = SIGNAL_NAMES@;
        if sig <= 0 {
            assert forall|j: int| 0 <= j < 15 implies #[trigger] ns[j] != sig by {
                assert(ns[j] > 0);
            }
            lemma_signal_name_unknown(sig, ns, 0);
        } else {
            let k: int = if sig == 1 { 0 } else if sig == 2 { 1 } else if sig == 3 { 2 } else if sig == 4 { 3 }
                else if sig == 6 { 5 } else if sig == 8 { 7 } else if sig == 9 { 8 } else if sig == 11 { 10 }
                else if sig == 14 { 13 } else { 14 };
            if ns[k] == sig {
                assert forall|j: int| 0 <= j < k implies #[trigger] ns[j] != sig by {
                    assert(ns[j] != ns[k]);
                }
                lemma_signal_name_found(sig, ns, 0, k);
            }
        }
    }
    r
}

// ---------------------------------------------------------------------------
// Agent commands
// ---------------------------------------------------------------------------

/// The last argument handed to the agent: the system prompt, a newline and
/// the buffer, or the buffer alone.
pub open spec fn spec_agent_final_arg(system_prompt: Option<Seq<char>>, buffer: Seq<char>) -> Seq<char> {
    match system_prompt {
        Some(p) => p + seq!['\n'] + buffer,
        None => buffer,
    }
}

/// Builds the last argument handed to the agent.
pub fn agent_final_arg(system_prompt: Option<&str>, buffer: &str) -> (r: String)
    ensures
        r@ == spec_agent_final_arg(
            match system_prompt {
                Some(p) => Some(p@),
                None => None,
            },
            buffer@,
        ),
{
    let mut out: Vec<char> = Vec::new();
    if let Some(p) = system_prompt {
        out = chars_of(p);
        out.push('\n');
    }
    let b = chars_of(buffer);
    let mut i: usize = 0;
    let ghost start = out@;
    while i < b.len()
        invariant
            i <= b@.len(),
            out@ == start + b@.subrange(0, i as int),
        decreases b.len() - i,
    {
        out.push(b[i]);
        assert(b@.subrange(0, i + 1) =~= b@.subrange(0, i as int).push(b@[i as int]));
        i += 1;
    }
    assert(b@.subrange(0, b@.len() as int) =~= b@);
    match system_prompt {
        Some(p) => assert(out@ =~= p@ + seq!['\n'] + buffer@),
        None => assert(out@ =~= buffer@),
    }
    string_from_chars(&out)
}

/// The final argument: without a system prompt it is the buffer itself;
/// with one it is the prompt, then one newline, then the buffer.
pub proof fn law_agent_final_arg(system_prompt: Option<Seq<char>>, buffer: Seq<char>)
    ensures
        system_prompt is None ==> spec_agent_final_arg(system_prompt, buffer) == buffer,
        system_prompt matches Some(p) ==> {
            let a = spec_agent_final_arg(system_prompt, buffer);
            &&& a.len() == p.len() + 1 + buffer.len()
            &&& a.subrange(0, p.len() as int) == p
            &&& a[p.len() as int] == '\n'
            &&& a.subrange(p.len() as int + 1, a.len() as int) == buffer
        },
{
    if let Some(p) = system_prompt {
        let a = spec_agent_final_arg(system_prompt, buffer);
        assert(a.subrange(0, p.len() as int) =~= p);
        assert(a.subrange(p.len() as int + 1, a.len() as int) =~= buffer);
    }
}

/// A word with every `'` written as `'\''`, the shell idiom for a quote
/// inside single quotes.
pub open spec fn escape_single_quotes(w: Seq<char>) -> Seq<char>
    decreases w.len(),
{
    if w.len() == 0 {
        seq![]
    } else {
        (if w[0] == '\'' {
            seq!['\'', '\\', '\'', '\'']
        } else {
            seq![w[0]]
        }) + escape_single_quotes(w.drop_first())
    }
}

/// How a word of the agent command is shown: in single quotes when it holds
/// a space.
pub open spec fn display_word(w: Seq<char>) -> Seq<char> {
    if w.contains(' ') {
        seq!['\''] + escape_single_quotes(w) + seq!['\'']
    } else {
        w
    }
}

/// The words of `ws` shown one after another, separated by single spaces.
pub open spec fn display_words(ws: Seq<Seq<char>>) -> Seq<char>
    decreases ws.len(),
{
    if ws.len() == 0 {
        seq![]
    } else if ws.len() == 1 {
        display_word(ws[0])
    } else {
        display_words(ws.drop_last()) + seq![' '] + display_word(ws.last())
    }
}

proof fn lemma_escape_without_quotes(w: Seq<char>)
    requires
        !w.contains('\''),
    ensures
        escape_single_quotes(w) == w,
    decreases w.len(),
{
    if w.len() > 0 {
        assert(w[0] != '\'') by {
            if w[0] == '\'' {
                assert(w.contains('\''));
            }
        }
        assert forall|k: int| 0 <= k < w.drop_first().len() implies w.drop_first()[k] != '\'' by {
            assert(w.drop_first()[k] == w[k + 1]);
            if w[k + 1] == '\'' {
                assert(w.contains('\''));
            }
        }
        lemma_escape_without_quotes(w.drop_first());
        assert(seq![w[0]] + w.drop_first() =~= w);
    }
}

/// How a word of the agent command is shown: a word without a space as it
/// is; a word with a space and no quote inside single quotes; a quote inside
/// a quoted word closes the quotes, writes an escaped quote and opens them
/// again. A command shows its words in order, separated by one space each.
pub proof fn law_display_word(w: Seq<char>, a: Seq<char>, b: Seq<char>)
    ensures
        !w.contains(' ') ==> display_word(w) == w,
        w.contains(' ') && !w.contains('\'') ==> display_word(w) == seq!['\''] + w + seq!['\''],
        escape_single_quotes(seq!['\'']) == seq!['\'', '\\', '\'', '\''],
        display_words(seq![a]) == display_word(a),
        display_words(seq![a, b]) == display_word(a) + seq![' '] + display_word(b),
{
    if w.contains(' ') && !w.contains('\'') {
        lemma_escape_without_quotes(w);
    }
    assert(seq!['\''].drop_first() =~= Seq::<char>::empty());
    assert(escape_single_quotes(Seq::<char>::empty()) == Seq::<char>::empty());
    assert(seq![a, b].drop_last() =~= seq![a]);
    assert(seq![a, b].last() == b);
    assert(display_words(seq![a]) == display_word(a));
}

proof fn lemma_escape_append(w: Seq<char>, c: char)
    ensures
        escape_single_quotes(w.push(c)) == escape_single_quotes(w) + (if c == '\'' {
            seq!['\'', '\\', '\'', '\'']
        } else {
            seq![c]
        }),
    decreases w.len(),
{
    if w.len() == 0 {
        assert(w.push(c).drop_first() =~= Seq::<char>::empty());
        assert(escape_single_quotes(Seq::<char>::empty()) =~= Seq::<char>::empty());
    } else {
        lemma_escape_append(w.drop_first(), c);
        assert(w.push(c).drop_first() =~= w.drop_first().push(c));
    }
}

fn push_display_word(out: &mut Vec<char>, w: &Vec<char>)
    ensures
        final(out)@ == old(out)@ + display_word(w@),
{
    let mut has_space = false;
    let mut i: usize = 0;
    while i < w.len()
        invariant
            i <= w@.len(),
            has_space == (exists|j: int| 0 <= j < i && w@[j] == ' '),
        decreases w.len() - i,
    {
        if w[i] == ' ' {
            has_space = true;
        }
        i += 1;
    }
    assert(has_space == w@.contains(' '));
    if !has_space {
        let ghost before = out@;
        let mut k: usize = 0;
        while k < w.len()
            invariant
                k <= w@.len(),
                out@ == before + w@.subrange(0, k as int),
            decreases w.len() - k,
        {
            out.push(w[k]);
            assert(w@.subrange(0, k + 1) =~= w@.subrange(0, k as int).push(w@[k as int]));
            k += 1;
        }
        assert(w@.subrange(0, w@.len() as int) =~= w@);
        return;
    }
    let ghost before = out@;
    out.push('\'');
    let mut k: usize = 0;
    assert(escape_single_quotes(w@.subrange(0, 0)) =~= Seq::<char>::empty());
    while k < w.len()
        invariant
            k <= w@.len(),
            out@ == before + seq!['\''] + escape_single_quotes(w@.subrange(0, k as int)),
        decreases w.len() - k,
    {
        proof {
            lemma_escape_append(w@.subrange(0, k as int), w@[k as int]);
            assert(w@.subrange(0, k + 1) =~= w@.subrange(0, k as int).push(w@[k as int]));
        }
        if w[k] == '\'' {
            out.push('\'');
            out.push('\\');
            out.push('\'');
            out.push('\'');
        } else {
            out.push(w[k]);
        }
        assert(out@ =~= before + seq!['\''] + escape_single_quotes(w@.subrange(0, k + 1)));
        k += 1;
    }
    out.push('\'');
    assert(w@.subrange(0, w@.len() as int) =~= w@);
    assert(out@ =~= before + display_word(w@));
}

/// The agent command as shown to the user: its words, then the final
/// argument, each in single quotes when it holds a space, separated by spaces.
pub fn command_display(command: &Vec<String>, final_arg: &str) -> (r: String)
    ensures
        r@ == display_words(command@.map_values(|s: String| s@).push(final_arg@)),
{
    let ghost words = command@.map_values(|s: String| s@).push(final_arg@);
    let n = command.len();
    let mut out: Vec<char> = Vec::new();
    let mut i: usize = 0;
    assert(words.subrange(0, 0) =~= Seq::<Seq<char>>::empty());
    while i < n
        invariant
            n == command@.len(),
            words == command@.map_values(|s: String| s@).push(final_arg@),
            i <= n,
            out@ == display_words(words.subrange(0, i as int)),
        decreases n - i,
    {
        let w = chars_of(command[i].as_str());
        if i > 0 {
            out.push(' ');
        }
        push_display_word(&mut out, &w);
        assert(words.subrange(0, i + 1).drop_last() =~= words.subrange(0, i as int));
        assert(words.subrange(0, i + 1).last() == words[i as int]);
        i += 1;
    }
    let w = chars_of(final_arg);
    if n > 0 {
        out.push(' ');
    }
    push_display_word(&mut out, &w);
    assert(words.subrange(0, n + 1).drop_last() =~= words.subrange(0, n as int));
    assert(words.subrange(0, n + 1) =~= words);
    string_from_chars(&out)
}


// ---------------------------------------------------------------------------
// Submitting the buffer and starting the agent
// ---------------------------------------------------------------------------

/// What pressing Enter does to the buffer.
#[derive(Debug, Clone, PartialEq, Eq)]
pub enum SubmitDecision {
    /// Leave the editor and run this command.
    Submit(String),
    /// Insert a newline into the buffer instead.
    InsertNewline,
}

/// Submits the buffer when bash would accept it as a complete command, or
/// when the previous command was left unfinished; otherwise asks for a
/// newline to be inserted. `bash_accepts` is bash's verdict on the buffer.
pub fn submit_or_newline(buffer: &str, unfinished_from_prev_command: bool, bash_accepts: bool) -> (r: SubmitDecision)
    ensures
        (unfinished_from_prev_command || bash_accepts) ==> (r matches SubmitDecision::Submit(cmd) && cmd@ == buffer@),
        !(unfinished_from_prev_command || bash_accepts) ==> r == SubmitDecision::InsertNewline,
{
    if unfinished_from_prev_command || bash_accepts {
        SubmitDecision::Submit(crate::text::owned(buffer))
    } else {
        SubmitDecision::InsertNewline
    }
}

/// How the agent command is started: the buffer recorded in the agent-prompt
/// history, the program and its arguments, the final argument appended to
/// them, and the command as shown to the user.
pub struct AgentStartPlan {
    pub history_entry: String,
    pub program: String,
    pub args: Vec<String>,
    pub final_arg: String,
    pub display: String,
}

/// Plans starting the agent command `command` (program first) on
/// `buffer_text` (the buffer with any trigger prefix removed): the whole
/// `buffer` goes into the agent-prompt history, and the final argument is
/// the system prompt, if any, a newline and `buffer_text`.
pub fn agent_start_plan(command: &Vec<String>, system_prompt: Option<&str>, buffer: &str, buffer_text: &str) -> (r: AgentStartPlan)
    requires
        command@.len() > 0,
    ensures
        r.history_entry@ == buffer@,
        r.program@ == command@[0]@,
        r.args@.map_values(|a: String| a@) == command@.drop_first().map_values(|a: String| a@),
        r.final_arg@ == spec_agent_final_arg(
            match system_prompt {
                Some(p) => Some(p@),
                None => None,
            },
            buffer_text@,
        ),
        r.display@ == display_words(command@.map_values(|s: String| s@).push(r.final_arg@)),
{
    let final_arg = agent_final_arg(system_prompt, buffer_text);
    let display = command_display(command, final_arg.as_str());
    let mut args: Vec<String> = Vec::new();
    let mut i: usize = 1;
    while i < command.len()
        invariant
            1 <= i <= command@.len(),
            args@.len() == i - 1,
            forall|k: int| 0 <= k < args@.len() ==> (#[trigger] args@[k])@ == command@[k + 1]@,
        decreases command.len() - i,
    {
        args.push(crate::text::owned(command[i].as_str()));
        i += 1;
    }
    assert(args@.map_values(|a: String| a@) =~= command@.drop_first().map_values(|a: String| a@));
    AgentStartPlan {
        history_entry: crate::text::owned(buffer),
        program: crate::text::owned(command[0].as_str()),
        args,
        final_arg,
        display,
    }
}

/// The content mode after trying to start the agent: waiting for it when it
/// started, else an error shown for the current buffer.
#[derive(Debug, Clone, PartialEq, Eq)]
pub enum AgentStartOutcome {
    Waiting,
    /// The agent could not be started; agent mode is dismissed for
    /// `dismissed_buffer`.
    Failed { dismissed_buffer: String },
}

/// What follows an attempt to start the agent.
pub fn agent_start_outcome(spawned: bool, buffer: &str) -> (r: AgentStartOutcome)
    ensures
        spawned ==> r == AgentStartOutcome::Waiting,
        !spawned ==> (r matches AgentStartOutcome::Failed { dismissed_buffer } && dismissed_buffer@ == buffer@),
{
    if spawned {
        AgentStartOutcome::Waiting
    } else {
        AgentStartOutcome::Failed { dismissed_buffer: crate::text::owned(buffer) }
    }
}

} // verus!
