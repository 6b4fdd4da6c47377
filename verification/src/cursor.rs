//! The editor's own cursor: which backend draws it, and where it is.
use vstd::prelude::*;

use crate::app_state::Coord;
use crate::text::{
    ascii_lower_seq, ascii_lowercase, chars_eq, chars_of, contains, lemma_ascii_lower_seq_idempotent, seq_contains,
};

verus! {

/// Cursor intensity used when the terminal has lost focus (or in modes where
/// the cursor should appear dimmed without animation).
pub const CURSOR_INTENSITY_UNFOCUSED: u8 = 80;

/// Which backend renders the cursor.
#[derive(Debug, Clone, Copy, PartialEq, Eq, Structural)]
pub enum CursorBackend {
    /// The editor renders a custom cursor.
    Flyline,
    /// Leave cursor rendering entirely to the terminal emulator.
    Terminal,
}

impl Default for CursorBackend {
    fn default() -> (r: Self)
        ensures
            r == CursorBackend::Flyline,
    {
        CursorBackend::Flyline
    }
}

/// Easing function used for cursor position interpolation or visual effects.
#[derive(Debug, Clone, Copy, PartialEq, Eq, Structural)]
pub enum CursorEasing {
    Linear,
    InQuad,
    OutQuad,
    InOutQuad,
    InCubic,
    OutCubic,
    InOutCubic,
    InQuart,
    OutQuart,
    InOutQuart,
    InQuint,
    OutQuint,
    InOutQuint,
    InSine,
    OutSine,
    InOutSine,
    InCirc,
    OutCirc,
    InOutCirc,
    InExpo,
    OutExpo,
    InOutExpo,
    InElastic,
    OutElastic,
    InOutElastic,
    InBack,
    OutBack,
    InOutBack,
    InBounce,
    OutBounce,
    InOutBounce,
}

impl Default for CursorEasing {
    fn default() -> (r: Self)
        ensures
            r == CursorEasing::Linear,
    {
        CursorEasing::Linear
    }
}

/// Visual effect applied to the cursor.
#[derive(Debug, Clone, Copy, PartialEq, Eq, Structural)]
pub enum CursorEffect {
    /// Smoothly oscillate the cursor brightness (default).
    Fade,
    /// Hard on/off blinking.
    Blink,
    /// No effect; the cursor is always shown at full brightness.
    Steady,
}

impl Default for CursorEffect {
    fn default() -> (r: Self)
        ensures
            r == CursorEffect::Fade,
    {
        CursorEffect::Fade
    }
}

/// The backend that a value of `FLYLINE_CURSOR_BACKEND` names, compared
/// without regard to ASCII case; `None` for a value it does not know.
pub open spec fn spec_parse_backend_env(value: Seq<char>) -> Option<CursorBackend> {
    let l = ascii_lower_seq(value);
    if l == "terminal"@ || l == "native"@ || l == "off"@ || l == "false"@ || l == "0"@ {
        Some(CursorBackend::Terminal)
    } else if l == "flyline"@ || l == "custom"@ || l == "on"@ || l == "true"@ || l == "1"@ {
        Some(CursorBackend::Flyline)
    } else {
        None
    }
}

fn is_one_of(l: &Vec<char>, a: &str, b: &str, c: &str, d: &str, e: &str) -> (r: bool)
    ensures
        r == (l@ == a@ || l@ == b@ || l@ == c@ || l@ == d@ || l@ == e@),
{
    chars_eq(l, &chars_of(a)) || chars_eq(l, &chars_of(b)) || chars_eq(l, &chars_of(c)) || chars_eq(
        l,
        &chars_of(d),
    ) || chars_eq(l, &chars_of(e))
}

/// Parses a value of the `FLYLINE_CURSOR_BACKEND` environment variable.
/// Returns `None` for unknown values (fall back to the default logic).
pub fn parse_backend_env(value: &str) -> (r: Option<CursorBackend>)
    ensures
        r == spec_parse_backend_env(value@),
{
    let l = ascii_lowercase(value);
    if is_one_of(&l, "terminal", "native", "off", "false", "0") {
        Some(CursorBackend::Terminal)
    } else if is_one_of(&l, "flyline", "custom", "on", "true", "1") {
        Some(CursorBackend::Flyline)
    } else {
        None
    }
}

/// The Unicode lower-case form of a string, as `str::to_lowercase` computes it.
pub uninterp spec fn unicode_lowercase(s: Seq<char>) -> Seq<char>;

/// `str::to_lowercase` from std. The contract names its result
/// (`unicode_lowercase`) and states nothing more of it.
#[verifier::external_body]
fn to_lowercase(s: &str) -> (r: String)
    ensures
        r@ == unicode_lowercase(s@),
{
    s.to_lowercase()
}

/// Whether `TERM` / `TERM_PROGRAM` (lower-cased) name the kitty terminal.
pub open spec fn spec_is_kitty_terminal(term: Seq<char>, term_program: Seq<char>) -> bool {
    seq_contains(unicode_lowercase(term), "xterm-kitty"@) || seq_contains(
        unicode_lowercase(term_program),
        "kitty"@,
    )
}

/// Whether the values of `TERM` and `TERM_PROGRAM` show that the terminal is
/// kitty.
pub fn is_kitty_terminal(term: &str, term_program: &str) -> (r: bool)
    ensures
        r == spec_is_kitty_terminal(term@, term_program@),
{
    let t = to_lowercase(term);
    let p = to_lowercase(term_program);
    contains(&chars_of(t.as_str()), &chars_of("xterm-kitty")) || contains(
        &chars_of(p.as_str()),
        &chars_of("kitty"),
    )
}

/// The terminal is taken for kitty exactly when `TERM`, lower-cased, holds
/// `xterm-kitty` or `TERM_PROGRAM`, lower-cased, holds `kitty`; a `TERM` that
/// holds `kitty` only in another form (not `xterm-kitty`) does not count.
pub proof fn law_kitty_detection(term: Seq<char>, term_program: Seq<char>)
    ensures
        seq_contains(unicode_lowercase(term), "xterm-kitty"@) ==> spec_is_kitty_terminal(term, term_program),
        seq_contains(unicode_lowercase(term_program), "kitty"@) ==> spec_is_kitty_terminal(term, term_program),
        !seq_contains(unicode_lowercase(term), "xterm-kitty"@) && !seq_contains(unicode_lowercase(term_program), "kitty"@)
            ==> !spec_is_kitty_terminal(term, term_program),
{
}

/// The backend in effect: the configured one; else the one that
/// `FLYLINE_CURSOR_BACKEND` names; else the terminal's own cursor on kitty and
/// the editor's elsewhere.
pub open spec fn spec_resolve_backend(configured: Option<CursorBackend>, env_value: Option<&str>, is_kitty: bool) -> CursorBackend {
    match configured {
        Some(b) => b,
        None => {
            if env_value matches Some(v) && spec_parse_backend_env(v@) is Some {
                spec_parse_backend_env(env_value->0@)->0
            } else if is_kitty {
                CursorBackend::Terminal
            } else {
                CursorBackend::Flyline
            }
        },
    }
}

/// Resolves the cursor backend to use from the configured one (if any), the
/// value of `FLYLINE_CURSOR_BACKEND` (if set) and whether the terminal is kitty.
pub fn resolve_backend(configured: Option<CursorBackend>, env_value: Option<&str>, is_kitty: bool) -> (r: CursorBackend)
    ensures
        r == spec_resolve_backend(configured, env_value, is_kitty),
{
    match configured {
        Some(b) => b,
        None => {
            if let Some(v) = env_value {
                if let Some(b) = parse_backend_env(v) {
                    return b;
                }
            }
            if is_kitty {
                CursorBackend::Terminal
            } else {
                CursorBackend::Flyline
            }
        },
    }
}

/// Values of `FLYLINE_CURSOR_BACKEND` are compared without regard to ASCII
/// case: a value names the same backend as its lower-case form.
pub proof fn law_parse_backend_env_ignores_case(value: Seq<char>)
    ensures
        spec_parse_backend_env(value) == spec_parse_backend_env(ascii_lower_seq(value)),
{
    lemma_ascii_lower_seq_idempotent(value);
}

/// A configured backend is used whatever the environment and the terminal.
pub proof fn law_configured_backend_wins(b: CursorBackend, env_value: Option<&str>, is_kitty: bool)
    ensures
        spec_resolve_backend(Some(b), env_value, is_kitty) == b,
{
}

/// Without a configured backend, a known value of `FLYLINE_CURSOR_BACKEND`
/// decides, on kitty as elsewhere.
pub proof fn law_backend_env_overrides_terminal(env_value: &str, is_kitty: bool)
    requires
        spec_parse_backend_env(env_value@) is Some,
    ensures
        spec_resolve_backend(None, Some(env_value), is_kitty) == spec_parse_backend_env(env_value@)->0,
{
}

/// The values of `FLYLINE_CURSOR_BACKEND`, in lower case: `terminal`,
/// `native`, `off`, `false` and `0` leave the cursor to the terminal;
/// `flyline`, `custom`, `on`, `true` and `1` have the editor draw it; the
/// empty value names neither.
pub proof fn law_backend_env_values()
    ensures
        spec_parse_backend_env("terminal"@) == Some(CursorBackend::Terminal),
        spec_parse_backend_env("native"@) == Some(CursorBackend::Terminal),
        spec_parse_backend_env("off"@) == Some(CursorBackend::Terminal),
        spec_parse_backend_env("false"@) == Some(CursorBackend::Terminal),
        spec_parse_backend_env("0"@) == Some(CursorBackend::Terminal),
        spec_parse_backend_env("flyline"@) == Some(CursorBackend::Flyline),
        spec_parse_backend_env("custom"@) == Some(CursorBackend::Flyline),
        spec_parse_backend_env("on"@) == Some(CursorBackend::Flyline),
        spec_parse_backend_env("true"@) == Some(CursorBackend::Flyline),
        spec_parse_backend_env("1"@) == Some(CursorBackend::Flyline),
        spec_parse_backend_env(Seq::<char>::empty()) is None,
{
    reveal_strlit("terminal");
    reveal_strlit("native");
    reveal_strlit("off");
    reveal_strlit("false");
    reveal_strlit("0");
    reveal_strlit("flyline");
    reveal_strlit("custom");
    reveal_strlit("on");
    reveal_strlit("true");
    reveal_strlit("1");
    lemma_lower_fixed("terminal"@);
    lemma_lower_fixed("native"@);
    lemma_lower_fixed("off"@);
    lemma_lower_fixed("false"@);
    lemma_lower_fixed("0"@);
    lemma_lower_fixed("flyline"@);
    lemma_lower_fixed("custom"@);
    lemma_lower_fixed("on"@);
    lemma_lower_fixed("true"@);
    lemma_lower_fixed("1"@);
    assert(ascii_lower_seq(Seq::<char>::empty()) =~= Seq::<char>::empty());
    assert("custom"@[0] != "native"@[0]);
    assert("custom"@ != "native"@);
    assert("1"@[0] != "0"@[0]);
    assert("1"@ != "0"@);
}

proof fn lemma_lower_fixed(s: Seq<char>)
    requires
        forall|i: int| 0 <= i < s.len() ==> !('A' <= #[trigger] s[i] && s[i] <= 'Z'),
    ensures
        ascii_lower_seq(s) == s,
{
    assert(ascii_lower_seq(s) =~= s);
}

/// Without a configured backend or a known `FLYLINE_CURSOR_BACKEND` value,
/// kitty keeps its own cursor and every other terminal gets the editor's.
pub proof fn law_backend_default(env_value: Option<&str>, is_kitty: bool)
    requires
        env_value is None || spec_parse_backend_env(env_value->0@) is None,
    ensures
        is_kitty ==> spec_resolve_backend(None, env_value, is_kitty) == CursorBackend::Terminal,
        !is_kitty ==> spec_resolve_backend(None, env_value, is_kitty) == CursorBackend::Flyline,
{
}

#[verifier::external_type_specification]
#[verifier::external_body]
pub struct ExInstant(std::time::Instant);

/// `Instant::now` from std. Nothing is stated of the time it returns.
#[verifier::external_body]
fn instant_now() -> std::time::Instant {
    std::time::Instant::now()
}

/// Where the cursor is heading, where it was, and when it last moved.
pub struct Cursor {
    target_pos: Coord,
    prev_pos: Coord,
    time_of_change: std::time::Instant,
}

impl Cursor {
    /// The position the cursor is heading to.
    pub closed spec fn target(self) -> Coord {
        self.target_pos
    }

    /// The position the cursor moves from.
    pub closed spec fn previous(self) -> Coord {
        self.prev_pos
    }

    /// When the target last changed (or the cursor was made).
    pub closed spec fn changed_at(self) -> std::time::Instant {
        self.time_of_change
    }

    /// A cursor at the origin.
    pub fn new() -> (r: Cursor)
        ensures
            r.target() == Coord::new_spec(0, 0),
            r.previous() == Coord::new_spec(0, 0),
    {
        let now = instant_now();
        Cursor { target_pos: Coord::new(0, 0), prev_pos: Coord::new(0, 0), time_of_change: now }
    }

    /// Moves the cursor's target to `new_pos`. A move away from the origin
    /// starts from the old target, except the first one, which starts (and
    /// stays) at `new_pos`; moving to the current target changes nothing.
    pub fn update_logical_pos(&mut self, new_pos: Coord)
        ensures
            new_pos == old(self).target() ==> *final(self) == *old(self),
            new_pos != old(self).target() ==> final(self).target() == new_pos && final(self).previous() == (
            if old(self).target() == Coord::new_spec(0, 0) {
                new_pos
            } else {
                old(self).target()
            }),
    {
        if new_pos != self.target_pos {
            self.time_of_change = instant_now();
            self.prev_pos = self.target_pos;
            if self.prev_pos == Coord::new(0, 0) {
                self.prev_pos = new_pos;
            }
            self.target_pos = new_pos;
        }
    }

    pub fn target_pos(&self) -> (r: Coord)
        ensures
            r == self.target(),
    {
        self.target_pos
    }

    pub fn prev_pos(&self) -> (r: Coord)
        ensures
            r == self.previous(),
    {
        self.prev_pos
    }

    /// When the target last changed (or the cursor was made).
    pub fn time_of_change(&self) -> (r: std::time::Instant)
        ensures
            r == self.changed_at(),
    {
        self.time_of_change
    }
}

} // verus!
