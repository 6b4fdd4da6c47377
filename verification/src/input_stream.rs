//! The input stream that the shell reads command lines from, and the
//! decisions taken when the builtin is loaded, unloaded and read from.
use vstd::prelude::*;

use crate::app_state::ExitState;
use crate::buffer_change::{is_whitespace, white_space};
use crate::text::{chars_of, seq_starts_with, starts_with};
use vstd::string::StrSliceExecFns;

verus! {

/// The end-of-file value that the shell's input getter returns.
pub const EOF: i32 = -1;

/// The bytes of the last command line, served one at a time to the shell.
pub struct Flyline {
    content: Vec<u8>,
    position: usize,
}

/// What loading an editor result into the stream did.
#[derive(Debug, Clone, Copy, PartialEq, Eq, Structural)]
pub enum LoadOutcome {
    /// A line is ready to be read.
    Loaded,
    /// The editor signalled the end of input.
    EndOfInput,
}

impl Flyline {
    /// The bytes of the current line.
    pub closed spec fn content_view(self) -> Seq<u8> {
        self.content@
    }

    /// How many bytes of the current line have been read.
    pub closed spec fn position_view(self) -> nat {
        self.position as nat
    }

    /// The read position lies within the line.
    pub closed spec fn wf(self) -> bool {
        self.position <= self.content@.len()
    }

    /// An empty stream.
    pub fn new() -> (r: Self)
        ensures
            r.wf(),
            r.content_view() == Seq::<u8>::empty(),
            r.position_view() == 0,
    {
        Flyline { content: Vec::new(), position: 0 }
    }

    /// Every byte of the current line has been read: the editor must run for
    /// the next one.
    pub fn needs_command(&self) -> (r: bool)
        requires
            self.wf(),
        ensures
            r == (self.position_view() >= self.content_view().len()),
    {
        self.content.len() == 0 || self.position >= self.content.len()
    }

    /// Loads what the editor returned: a command becomes the next line (its
    /// UTF-8 bytes and a newline); no command becomes an empty line; the end of
    /// input leaves the stream as it is.
    pub fn load(&mut self, result: &ExitState) -> (r: LoadOutcome)
        requires
            old(self).wf(),
        ensures
            final(self).wf(),
            match *result {
                ExitState::WithCommand(cmd) => r == LoadOutcome::Loaded && final(self).content_view()
                    == vstd::utf8::encode_utf8(cmd@).push(10u8) && final(self).position_view() == 0,
                ExitState::WithoutCommand => r == LoadOutcome::Loaded && final(self).content_view()
                    == seq![10u8] && final(self).position_view() == 0,
                ExitState::EOF => r == LoadOutcome::EndOfInput && *final(self) == *old(self),
            },
    {
        match result {
            ExitState::WithCommand(cmd) => {
                let mut bytes = cmd.as_str().as_bytes_vec();
                bytes.push(10u8);
                self.content = bytes;
                self.position = 0;
                LoadOutcome::Loaded
            },
            ExitState::WithoutCommand => {
                let mut bytes: Vec<u8> = Vec::new();
                bytes.push(10u8);
                self.content = bytes;
                self.position = 0;
                LoadOutcome::Loaded
            },
            ExitState::EOF => LoadOutcome::EndOfInput,
        }
    }

    /// The next byte of the line, or `None` once it has all been read.
    pub fn next_byte(&mut self) -> (r: Option<u8>)
        requires
            old(self).wf(),
        ensures
            final(self).wf(),
            final(self).content_view() == old(self).content_view(),
            old(self).position_view() < old(self).content_view().len() ==> r == Some(
                old(self).content_view()[old(self).position_view() as int],
            ) && final(self).position_view() == old(self).position_view() + 1,
            old(self).position_view() >= old(self).content_view().len() ==> r is None && *final(self)
                == *old(self),
    {
        if self.position < self.content.len() {
            let b = self.content[self.position];
            self.position = self.position + 1;
            Some(b)
        } else {
            None
        }
    }

    /// The value the shell's getter returns for the next byte: the byte, or
    /// `EOF` once the line is used up.
    pub fn get_byte(&mut self) -> (r: i32)
        requires
            old(self).wf(),
        ensures
            final(self).wf(),
            final(self).content_view() == old(self).content_view(),
            old(self).position_view() < old(self).content_view().len() ==> r == old(self).content_view()[old(
            self,
            ).position_view() as int] as i32 && final(self).position_view() == old(self).position_view() + 1,
            old(self).position_view() >= old(self).content_view().len() ==> r == EOF && *final(self)
                == *old(self),
            (r, final(self).position_view()) == read_at(old(self).content_view(), old(self).position_view()),
    {
        match self.next_byte() {
            Some(b) => b as i32,
            None => EOF,
        }
    }

    /// Gives back the last byte read: steps back one byte and returns it; with
    /// nothing read yet, returns `c` and changes nothing.
    pub fn unget(&mut self, c: i32) -> (r: i32)
        requires
            old(self).wf(),
        ensures
            final(self).wf(),
            final(self).content_view() == old(self).content_view(),
            old(self).position_view() > 0 ==> final(self).position_view() == old(self).position_view() - 1
                && r == old(self).content_view()[old(self).position_view() - 1] as i32,
            old(self).position_view() == 0 ==> r == c && *final(self) == *old(self),
            (r, final(self).position_view()) == unget_at(old(self).content_view(), old(self).position_view(), c),
    {
        if self.position > 0 {
            self.position = self.position - 1;
            self.content[self.position] as i32
        } else {
            c
        }
    }
}

/// What the shell's getter returns when `pos` bytes of `content` have been
/// read, and the read position after it: the next byte and one step on, or
/// `EOF` and no move once the line is used up.
pub open spec fn read_at(content: Seq<u8>, pos: nat) -> (i32, nat) {
    if pos < content.len() {
        (content[pos as int] as i32, pos + 1)
    } else {
        (EOF, pos)
    }
}

/// What giving back `c` returns at read position `pos`, and the position
/// after it: the byte one step back and that position, or `c` and no move at
/// the start of the line.
pub open spec fn unget_at(content: Seq<u8>, pos: nat, c: i32) -> (i32, nat) {
    if pos > 0 {
        (content[pos - 1] as i32, (pos - 1) as nat)
    } else {
        (c, pos)
    }
}

/// Giving back a byte right after reading one undoes the read: the same byte
/// comes back and the read position is where it was.
pub proof fn law_unget_undoes_read(content: Seq<u8>, pos: nat, c: i32)
    requires
        pos < content.len(),
    ensures
        unget_at(content, read_at(content, pos).1, c) == (read_at(content, pos).0, pos),
{
}

/// At the end of the line reading returns `EOF` and does not move, however
/// often it is repeated.
pub proof fn law_read_at_end_is_eof(content: Seq<u8>, pos: nat)
    requires
        pos >= content.len(),
    ensures
        read_at(content, pos) == (EOF, pos),
        read_at(content, read_at(content, pos).1) == (EOF, pos),
{
}

/// Every character of `s` is white space: `s.trim()` is empty.
pub open spec fn is_blank(s: Seq<char>) -> bool {
    forall|k: int| 0 <= k < s.len() ==> white_space(#[trigger] s[k])
}

fn blank(s: &str) -> (r: bool)
    ensures
        r == is_blank(s@),
{
    let cs = chars_of(s);
    let mut i: usize = 0;
    while i < cs.len()
        invariant
            cs@ == s@,
            i <= cs@.len(),
            forall|k: int| 0 <= k < i ==> white_space(#[trigger] cs@[k]),
        decreases cs.len() - i,
    {
        if !is_whitespace(cs[i]) {
            return false;
        }
        i += 1;
    }
    true
}

/// What the editor's result does to the tutorial.
#[derive(Debug, Clone, Copy, PartialEq, Eq, Structural)]
pub struct TutorialUpdate {
    /// Move to the next tutorial step.
    pub advance: bool,
    /// That step ends the tutorial: stop running it.
    pub stop: bool,
}

/// A blank command entered while the tutorial is active moves it to its
/// next step; if that step is past the end, the tutorial stops running.
/// `active_after_advance` says whether the next step is still part of the
/// tutorial.
pub fn tutorial_update(result: &ExitState, tutorial_active: bool, active_after_advance: bool) -> (r: TutorialUpdate)
    ensures
        r.advance == (tutorial_active && (*result matches ExitState::WithCommand(cmd) && is_blank(cmd@))),
        r.stop == (r.advance && !active_after_advance),
{
    let advance = match result {
        ExitState::WithCommand(cmd) => tutorial_active && blank(cmd.as_str()),
        _ => false,
    };
    TutorialUpdate { advance, stop: advance && !active_after_advance }
}

// ---------------------------------------------------------------------------
// Loading, reading and unloading
// ---------------------------------------------------------------------------

/// An input stream named `name` belongs to this editor.
pub open spec fn spec_is_flyline_stream(name: Option<Seq<char>>) -> bool {
    name matches Some(n) && seq_starts_with(n, "flyline"@)
}

/// Whether an input stream with this name (if it has one) is the editor's.
pub fn is_flyline_stream(name: Option<&str>) -> (r: bool)
    ensures
        r == spec_is_flyline_stream(
            match name {
                Some(n) => Some(n@),
                None => None,
            },
        ),
{
    match name {
        Some(n) => starts_with(&chars_of(n), &chars_of("flyline")),
        None => false,
    }
}

/// The type of a shell input stream.
#[derive(Debug, Clone, Copy, PartialEq, Eq, Structural)]
pub enum StreamType {
    /// No stream (`st_none`).
    NoStream,
    /// Standard input (`st_stdin`).
    Stdin,
    /// Any other source (a string, a file, ...).
    Other,
}

/// How the builtin installs its input stream when loaded.
#[derive(Debug, Clone, Copy, PartialEq, Eq, Structural)]
pub enum LoadPlan {
    /// It is already installed: nothing to do.
    AlreadyLoaded,
    /// Not an interactive shell with line editing: refuse to load.
    NotInteractive,
    /// The shell reads from readline: save that stream, then take over the
    /// current one.
    PushAndTakeOverCurrent,
    /// The current stream is already the editor's: take it over again.
    TakeOverCurrent,
    /// Take over the saved stream at this index.
    TakeOverSaved(usize),
    /// No saved stream can be taken over: fail.
    NoStreamFound,
    /// There is no saved stream list: load without taking a stream over.
    NothingToTakeOver,
}

/// The first saved stream, from index `i` on, of type standard input or none.
pub open spec fn first_takeable_from(saved: Seq<StreamType>, i: int) -> Option<int>
    decreases saved.len() - i,
{
    if i < 0 || i >= saved.len() {
        None
    } else if saved[i] == StreamType::Stdin || saved[i] == StreamType::NoStream {
        Some(i)
    } else {
        first_takeable_from(saved, i + 1)
    }
}

/// How to install the input stream, given whether the editor is already
/// loaded, whether the shell is interactive with line editing, the name of
/// the current stream, and the types of the saved streams (`None` when the
/// shell keeps no list of them).
pub open spec fn spec_plan_load(
    already_loaded: bool,
    interactive: bool,
    current_name: Option<Seq<char>>,
    saved: Option<Seq<StreamType>>,
) -> LoadPlan {
    if already_loaded {
        LoadPlan::AlreadyLoaded
    } else if !interactive {
        LoadPlan::NotInteractive
    } else if current_name matches Some(n) && seq_starts_with(n, "readline"@) {
        LoadPlan::PushAndTakeOverCurrent
    } else if current_name matches Some(n) && seq_starts_with(n, "flyline"@) {
        LoadPlan::TakeOverCurrent
    } else {
        match saved {
            None => LoadPlan::NothingToTakeOver,
            Some(s) => match first_takeable_from(s, 0) {
                Some(i) => LoadPlan::TakeOverSaved(i as usize),
                None => LoadPlan::NoStreamFound,
            },
        }
    }
}

/// Decides how to install the editor's input stream when the builtin loads.
pub fn plan_load(
    already_loaded: bool,
    interactive: bool,
    current_name: Option<&str>,
    saved: Option<&Vec<StreamType>>,
) -> (r: LoadPlan)
    ensures
        r == spec_plan_load(
            already_loaded,
            interactive,
            match current_name {
                Some(n) => Some(n@),
                None => None,
            },
            match saved {
                Some(s) => Some(s@),
                None => None,
            },
        ),
{
    if already_loaded {
        return LoadPlan::AlreadyLoaded;
    }
    if !interactive {
        return LoadPlan::NotInteractive;
    }
    if let Some(n) = current_name {
        let c = chars_of(n);
        if starts_with(&c, &chars_of("readline")) {
            return LoadPlan::PushAndTakeOverCurrent;
        } else if starts_with(&c, &chars_of("flyline")) {
            return LoadPlan::TakeOverCurrent;
        }
    }
    match saved {
        None => LoadPlan::NothingToTakeOver,
        Some(s) => match first_takeable(s) {
            Some(i) => LoadPlan::TakeOverSaved(i),
            None => LoadPlan::NoStreamFound,
        },
    }
}

fn first_takeable(s: &Vec<StreamType>) -> (r: Option<usize>)
    ensures
        r matches Some(i) ==> first_takeable_from(s@, 0) == Some(i as int),
        r is None ==> first_takeable_from(s@, 0) is None,
{
    let mut i: usize = 0;
    while i < s.len()
        invariant
            i <= s@.len(),
            first_takeable_from(s@, 0) == first_takeable_from(s@, i as int),
        decreases s.len() - i,
    {
        if s[i] == StreamType::Stdin || s[i] == StreamType::NoStream {
            return Some(i);
        }
        i += 1;
    }
    None
}

proof fn lemma_first_takeable(saved: Seq<StreamType>, i: int)
    requires
        0 <= i,
    ensures
        first_takeable_from(saved, i) matches Some(k) ==> i <= k < saved.len() && (saved[k]
            == StreamType::Stdin || saved[k] == StreamType::NoStream) && forall|j: int|
            i <= j < k ==> #[trigger] saved[j] == StreamType::Other,
        first_takeable_from(saved, i) is None ==> forall|j: int| i <= j < saved.len() ==> #[trigger] saved[j]
            == StreamType::Other,
    decreases saved.len() - i,
{
    if i < saved.len() && !(saved[i] == StreamType::Stdin || saved[i] == StreamType::NoStream) {
        lemma_first_takeable(saved, i + 1);
    }
}

/// Loading the builtin: an editor already loaded is left alone; a shell that
/// is not interactive with line editing is refused; a shell reading from
/// readline has that stream saved and the current one taken over; a current
/// stream of the editor's is taken over again; otherwise the first saved
/// stream that reads standard input (or nothing) is taken over, every saved
/// stream before it reading from elsewhere, and loading fails when there is
/// none.
pub proof fn law_plan_load_cases(
    already_loaded: bool,
    interactive: bool,
    current_name: Option<Seq<char>>,
    saved: Option<Seq<StreamType>>,
)
    requires
        saved is Some ==> saved->0.len() <= usize::MAX,
    ensures
        ({
            let r = spec_plan_load(already_loaded, interactive, current_name, saved);
            let other_name = !(current_name matches Some(n) && (seq_starts_with(n, "readline"@)
                || seq_starts_with(n, "flyline"@)));
            &&& already_loaded ==> r == LoadPlan::AlreadyLoaded
            &&& !already_loaded && !interactive ==> r == LoadPlan::NotInteractive
            &&& !already_loaded && interactive && (current_name matches Some(n) && seq_starts_with(n, "readline"@))
                ==> r == LoadPlan::PushAndTakeOverCurrent
            &&& !already_loaded && interactive && (current_name matches Some(n) && seq_starts_with(n, "flyline"@))
                ==> r == LoadPlan::TakeOverCurrent
            &&& !already_loaded && interactive && other_name && saved is None ==> r == LoadPlan::NothingToTakeOver
            &&& (r matches LoadPlan::TakeOverSaved(k) ==> saved is Some && k < saved->0.len() && (saved->0[k as int]
                == StreamType::Stdin || saved->0[k as int] == StreamType::NoStream) && forall|j: int|
                0 <= j < k ==> #[trigger] saved->0[j] == StreamType::Other)
            &&& r == LoadPlan::NoStreamFound ==> saved is Some && forall|j: int|
                0 <= j < saved->0.len() ==> #[trigger] saved->0[j] == StreamType::Other
            &&& !already_loaded && interactive && other_name && (saved matches Some(s) && exists|j: int|
                0 <= j < s.len() && #[trigger] s[j] != StreamType::Other) ==> r is TakeOverSaved
        }),
{
    reveal_strlit("readline");
    reveal_strlit("flyline");
    if let Some(s) = saved {
        lemma_first_takeable(s, 0);
    }
    if let Some(n) = current_name {
        if seq_starts_with(n, "readline"@) && seq_starts_with(n, "flyline"@) {
            assert(n.subrange(0, 8)[0] == n[0]);
            assert(n.subrange(0, 7)[0] == n[0]);
            assert(false);
        }
    }
}

/// The load hook's answer: an editor already loaded, or a shell without a
/// list of saved streams, loads without taking a stream over and succeeds;
/// a shell that is not interactive, or has line editing off, is refused
/// without installing anything; whenever a stream is installed, loading
/// succeeds.
pub proof fn law_load_step_answers(plan: LoadPlan, instance_present: bool, interactive_shell: i32, no_line_editing: i32)
    ensures
        plan == LoadPlan::AlreadyLoaded ==> load_return_code(plan) == LOAD_SUCCESS && !plan_installs(plan),
        plan == LoadPlan::NothingToTakeOver ==> load_return_code(plan) == LOAD_SUCCESS && !plan_installs(plan),
        plan == LoadPlan::NotInteractive ==> load_return_code(plan) == LOAD_FAILURE && !plan_installs(plan),
        plan == LoadPlan::NoStreamFound ==> load_return_code(plan) == LOAD_FAILURE && !plan_installs(plan),
        plan_installs(plan) ==> load_return_code(plan) == LOAD_SUCCESS,
        !instance_present && (interactive_shell == 0 || no_line_editing != 0) ==> spec_plan_load(
            instance_present,
            interactive_shell != 0 && no_line_editing == 0,
            None,
            None,
        ) == LoadPlan::NotInteractive,
{
}

/// The value the builtin's load hook returns when it refuses to load.
pub const LOAD_FAILURE: i32 = 0;

/// The value the builtin's load hook returns when it is loaded.
pub const LOAD_SUCCESS: i32 = 1;

/// Everything the load hook does, in order: release the extra reference to
/// the library kept by an earlier deferred unload; decide how to install the
/// input stream; install it (a fresh editor instance, the stream's callbacks
/// and the exported version variable) where the plan takes a stream over;
/// and return its result code.
#[derive(Debug, Clone, Copy, PartialEq, Eq, Structural)]
pub struct LoadStep {
    pub release_kept_library: bool,
    pub plan: LoadPlan,
    pub install: bool,
    pub return_code: i32,
}

/// Whether `plan` takes an input stream over.
pub open spec fn plan_installs(plan: LoadPlan) -> bool {
    plan is PushAndTakeOverCurrent || plan is TakeOverCurrent || plan is TakeOverSaved
}

/// The load hook's result code for `plan`: failure when the shell is not
/// interactive or no stream can be taken over, success otherwise.
pub open spec fn load_return_code(plan: LoadPlan) -> i32 {
    if plan is NotInteractive || plan is NoStreamFound { LOAD_FAILURE } else { LOAD_SUCCESS }
}

/// Decides everything the load hook does, from whether an editor instance
/// exists, the shell's `interactive_shell` and `no_line_editing` flags, the
/// name of the current input stream and the types of the saved streams.
pub fn load_step(
    instance_present: bool,
    interactive_shell: i32,
    no_line_editing: i32,
    current_name: Option<&str>,
    saved: Option<&Vec<StreamType>>,
) -> (r: LoadStep)
    ensures
        r.release_kept_library,
        r.plan == spec_plan_load(
            instance_present,
            interactive_shell != 0 && no_line_editing == 0,
            match current_name {
                Some(n) => Some(n@),
                None => None,
            },
            match saved {
                Some(s) => Some(s@),
                None => None,
            },
        ),
        r.install == plan_installs(r.plan),
        r.return_code == load_return_code(r.plan),
{
    let plan = plan_load(instance_present, interactive_shell != 0 && no_line_editing == 0, current_name, saved);
    let install = match plan {
        LoadPlan::PushAndTakeOverCurrent | LoadPlan::TakeOverCurrent | LoadPlan::TakeOverSaved(_) => true,
        _ => false,
    };
    let return_code = match plan {
        LoadPlan::NotInteractive | LoadPlan::NoStreamFound => LOAD_FAILURE,
        _ => LOAD_SUCCESS,
    };
    LoadStep { release_kept_library: true, plan, install, return_code }
}

/// How the editor's streams are torn down.
#[derive(Debug, Clone, Copy, PartialEq, Eq, Structural)]
pub enum Teardown {
    /// No saved streams: set up standard input (readline) again.
    RestoreStdin,
    /// The top saved stream is the editor's too: replace every editor stream
    /// by the one it replaced at load time.
    ReplaceAllFlylineStreams,
    /// Restore the top saved stream.
    PopStream,
    /// The shell is reading from a nested source: replace the saved editor
    /// streams only.
    ReplaceSavedFlylineStreams,
}

/// How to tear the streams down, given whether the current stream is the
/// editor's, whether the list of saved streams is empty, and whether its top
/// is the editor's.
pub open spec fn spec_plan_teardown(current_is_flyline: bool, saved_empty: bool, top_saved_is_flyline: bool) -> Teardown {
    if !current_is_flyline {
        Teardown::ReplaceSavedFlylineStreams
    } else if saved_empty {
        Teardown::RestoreStdin
    } else if top_saved_is_flyline {
        Teardown::ReplaceAllFlylineStreams
    } else {
        Teardown::PopStream
    }
}

/// Decides how to tear the editor's streams down.
pub fn plan_teardown(current_is_flyline: bool, saved_empty: bool, top_saved_is_flyline: bool) -> (r: Teardown)
    ensures
        r == spec_plan_teardown(current_is_flyline, saved_empty, top_saved_is_flyline),
{
    if !current_is_flyline {
        Teardown::ReplaceSavedFlylineStreams
    } else if saved_empty {
        Teardown::RestoreStdin
    } else if top_saved_is_flyline {
        Teardown::ReplaceAllFlylineStreams
    } else {
        Teardown::PopStream
    }
}

/// An unload must wait while the editor's code is on the call stack or the
/// shell reads from a nested source.
pub fn should_defer_unload(call_depth: usize, current_is_flyline: bool) -> (r: bool)
    ensures
        r == (call_depth > 0 || !current_is_flyline),
{
    call_depth > 0 || !current_is_flyline
}

/// Everything the unload hook does, in order: unset the exported version
/// variable; then either defer (keep the library mapped and mark the unload
/// pending, leaving the editor instance in place) or drop the editor
/// instance and, if there was one, tear its streams down.
#[derive(Debug, Clone, Copy, PartialEq, Eq, Structural)]
pub struct UnloadStep {
    pub unset_version: bool,
    pub defer: bool,
    pub drop_instance: bool,
    pub teardown: Option<Teardown>,
}

/// Decides everything the unload hook does, from the depth of editor calls
/// on the stack, whether the current stream is the editor's, whether an
/// editor instance exists, and the state of the saved streams.
pub fn unload_step(
    call_depth: usize,
    current_is_flyline: bool,
    has_instance: bool,
    saved_empty: bool,
    top_saved_is_flyline: bool,
) -> (r: UnloadStep)
    ensures
        r.unset_version,
        r.defer == (call_depth > 0 || !current_is_flyline),
        r.drop_instance == !r.defer,
        r.teardown == (if r.defer || !has_instance {
            None
        } else {
            Some(spec_plan_teardown(current_is_flyline, saved_empty, top_saved_is_flyline))
        }),
{
    if should_defer_unload(call_depth, current_is_flyline) {
        return UnloadStep { unset_version: true, defer: true, drop_instance: false, teardown: None };
    }
    let teardown = if has_instance {
        Some(plan_teardown(current_is_flyline, saved_empty, top_saved_is_flyline))
    } else {
        None
    };
    UnloadStep { unset_version: true, defer: false, drop_instance: true, teardown }
}

/// What the shell's input getter does.
#[derive(Debug, Clone, Copy, PartialEq, Eq, Structural)]
pub enum GetCharPlan {
    /// Finish the deferred unload and end the line.
    FinishUnloadAndEndLine,
    /// Serve the next byte from the editor.
    ReadFromEditor,
    /// The editor is gone but the stream is still its: restore standard input
    /// and end the line.
    RestoreStdinAndEndLine,
    /// Report end of input.
    EndOfInput,
}

/// What the getter does, given whether an unload is pending, whether the
/// editor is loaded, and whether the current stream is the editor's.
pub open spec fn spec_plan_get_char(unload_pending: bool, has_instance: bool, current_is_flyline: bool) -> GetCharPlan {
    if unload_pending {
        GetCharPlan::FinishUnloadAndEndLine
    } else if has_instance {
        GetCharPlan::ReadFromEditor
    } else if current_is_flyline {
        GetCharPlan::RestoreStdinAndEndLine
    } else {
        GetCharPlan::EndOfInput
    }
}

/// Decides what the shell's input getter does.
pub fn plan_get_char(unload_pending: bool, has_instance: bool, current_is_flyline: bool) -> (r: GetCharPlan)
    ensures
        r == spec_plan_get_char(unload_pending, has_instance, current_is_flyline),
{
    if unload_pending {
        GetCharPlan::FinishUnloadAndEndLine
    } else if has_instance {
        GetCharPlan::ReadFromEditor
    } else if current_is_flyline {
        GetCharPlan::RestoreStdinAndEndLine
    } else {
        GetCharPlan::EndOfInput
    }
}

/// The newline that ends a line.
pub const NEWLINE: i32 = 10;

/// What the shell's getter returns under `plan`: a newline after finishing a
/// deferred unload or restoring standard input (so that a login shell does
/// not take the unload for the end of input), the byte the editor served,
/// or `EOF`.
pub open spec fn spec_get_char_value(plan: GetCharPlan, editor_byte: i32) -> i32 {
    match plan {
        GetCharPlan::FinishUnloadAndEndLine => NEWLINE,
        GetCharPlan::ReadFromEditor => editor_byte,
        GetCharPlan::RestoreStdinAndEndLine => NEWLINE,
        GetCharPlan::EndOfInput => EOF,
    }
}

/// The value the shell's getter returns, given its plan and, when it reads
/// from the editor, the byte the editor served.
pub fn get_char_value(plan: GetCharPlan, editor_byte: i32) -> (r: i32)
    ensures
        r == spec_get_char_value(plan, editor_byte),
{
    match plan {
        GetCharPlan::FinishUnloadAndEndLine => NEWLINE,
        GetCharPlan::ReadFromEditor => editor_byte,
        GetCharPlan::RestoreStdinAndEndLine => NEWLINE,
        GetCharPlan::EndOfInput => EOF,
    }
}

/// The getter ends the line with a newline, never with `EOF`, when it
/// finishes a deferred unload or restores standard input; it reports `EOF`
/// on its own only when no unload is pending, no editor is loaded and the
/// stream is not the editor's; while the editor is loaded it serves the
/// editor's byte.
pub proof fn law_get_char_answers(unload_pending: bool, has_instance: bool, current_is_flyline: bool, editor_byte: i32)
    ensures
        ({
            let v = spec_get_char_value(spec_plan_get_char(unload_pending, has_instance, current_is_flyline), editor_byte);
            &&& unload_pending ==> v == NEWLINE
            &&& !unload_pending && has_instance ==> v == editor_byte
            &&& !unload_pending && !has_instance && current_is_flyline ==> v == NEWLINE
            &&& !unload_pending && !has_instance && !current_is_flyline ==> v == EOF
        }),
{
}

/// Unloading: while the editor's code runs or the shell reads from a nested
/// source, the unload waits and nothing is torn down; otherwise the instance
/// is dropped, the streams are torn down only if there was one, standard
/// input is set up again only when no stream was saved, and the saved
/// streams alone are replaced only when the current stream is not the
/// editor's.
pub proof fn law_unload_teardown(current_is_flyline: bool, saved_empty: bool, top_saved_is_flyline: bool)
    ensures
        ({
            let t = spec_plan_teardown(current_is_flyline, saved_empty, top_saved_is_flyline);
            &&& t == Teardown::RestoreStdin <==> current_is_flyline && saved_empty
            &&& t == Teardown::ReplaceSavedFlylineStreams <==> !current_is_flyline
            &&& t == Teardown::ReplaceAllFlylineStreams <==> current_is_flyline && !saved_empty && top_saved_is_flyline
            &&& t == Teardown::PopStream <==> current_is_flyline && !saved_empty && !top_saved_is_flyline
        }),
{
}

/// The indices of the saved streams, among those named `names`, that are the
/// editor's, in order.
pub open spec fn flyline_indices(names: Seq<Option<Seq<char>>>, upto: int) -> Seq<usize>
    decreases upto,
{
    if upto <= 0 {
        seq![]
    } else if spec_is_flyline_stream(names[upto - 1]) {
        flyline_indices(names, upto - 1).push((upto - 1) as usize)
    } else {
        flyline_indices(names, upto - 1)
    }
}

proof fn lemma_flyline_indices(names: Seq<Option<Seq<char>>>, upto: int)
    requires
        0 <= upto <= names.len(),
        names.len() <= usize::MAX,
    ensures
        forall|k: int| 0 <= k < flyline_indices(names, upto).len() ==> (flyline_indices(names, upto)[k] as int) < upto
            && spec_is_flyline_stream(names[#[trigger] flyline_indices(names, upto)[k] as int]),
        forall|k: int, l: int|
            0 <= k < l < flyline_indices(names, upto).len() ==> #[trigger] flyline_indices(names, upto)[k]
                < #[trigger] flyline_indices(names, upto)[l],
        forall|j: int| 0 <= j < upto && spec_is_flyline_stream(#[trigger] names[j]) ==> flyline_indices(names, upto).contains(
            j as usize,
        ),
    decreases upto,
{
    if upto > 0 {
        lemma_flyline_indices(names, upto - 1);
        let prev = flyline_indices(names, upto - 1);
        if spec_is_flyline_stream(names[upto - 1]) {
            let cur = prev.push((upto - 1) as usize);
            assert(cur == flyline_indices(names, upto));
            assert forall|k: int| 0 <= k < cur.len() implies (cur[k] as int) < upto && spec_is_flyline_stream(
                names[cur[k] as int],
            ) by {
                if k < prev.len() {
                    assert(cur[k] == prev[k]);
                }
            }
            assert forall|k: int, l: int| 0 <= k < l < cur.len() implies cur[k] < cur[l] by {
                assert(cur[k] == prev[k]);
                if l < prev.len() {
                    assert(cur[l] == prev[l]);
                }
            }
            assert forall|j: int| 0 <= j < upto && spec_is_flyline_stream(#[trigger] names[j]) implies cur.contains(
                j as usize,
            ) by {
                if j == upto - 1 {
                    assert(cur[prev.len() as int] == j as usize);
                } else {
                    let w = choose|w: int| 0 <= w < prev.len() && prev[w] == j as usize;
                    assert(cur[w] == j as usize);
                }
            }
        }
    }
}

/// The streams replaced on unload are exactly the editor's: each index
/// listed names one of its streams, each of its streams is listed, and the
/// indices come in increasing order.
pub proof fn law_streams_to_replace_are_the_editors(names: Seq<Option<Seq<char>>>)
    requires
        names.len() <= usize::MAX,
    ensures
        forall|k: int| 0 <= k < flyline_indices(names, names.len() as int).len() ==> {
            let i = #[trigger] flyline_indices(names, names.len() as int)[k] as int;
            0 <= i < names.len() && spec_is_flyline_stream(names[i])
        },
        forall|j: int| 0 <= j < names.len() && spec_is_flyline_stream(#[trigger] names[j]) ==> flyline_indices(
            names,
            names.len() as int,
        ).contains(j as usize),
        forall|k: int, l: int|
            0 <= k < l < flyline_indices(names, names.len() as int).len() ==> #[trigger] flyline_indices(
                names,
                names.len() as int,
            )[k] < #[trigger] flyline_indices(names, names.len() as int)[l],
{
    lemma_flyline_indices(names, names.len() as int);
}

/// The plain view of optional names.
pub open spec fn names_view(names: Seq<Option<String>>) -> Seq<Option<Seq<char>>> {
    names.map_values(|n: Option<String>| match n {
        Some(s) => Some(s@),
        None => None,
    })
}

/// The saved streams (by name) that must be replaced on unload: the editor's.
pub fn streams_to_replace(names: &Vec<Option<String>>) -> (r: Vec<usize>)
    ensures
        r@ == flyline_indices(names_view(names@), names@.len() as int),
{
    let mut r: Vec<usize> = Vec::new();
    let mut i: usize = 0;
    while i < names.len()
        invariant
            i <= names@.len(),
            r@ == flyline_indices(names_view(names@), i as int),
        decreases names.len() - i,
    {
        let is_fly = match &names[i] {
            Some(n) => is_flyline_stream(Some(n.as_str())),
            None => is_flyline_stream(None),
        };
        assert(names_view(names@)[i as int] == match names@[i as int] {
            Some(s) => Some(s@),
            None => None::<Seq<char>>,
        });
        if is_fly {
            r.push(i);
        }
        i += 1;
    }
    r
}

} // verus!
