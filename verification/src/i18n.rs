//! Localization into Simplified Chinese.
//!
//! The language in effect is chosen from `FLYLINE_LANG` (an explicit
//! override), then `LC_ALL`, `LC_MESSAGES` and `LANG`; a string without a
//! translation keeps its English source text.
use vstd::prelude::*;

use crate::text::{
    ascii_lower_seq, ascii_lowercase, chars_eq, chars_of, lemma_ascii_lower_seq_idempotent, owned, push_chars,
    seq_starts_with, starts_with, string_from_chars,
};
use crate::zh_tables::{ZH_HELP_TRANSLATIONS, ZH_TRANSLATIONS};

verus! {

/// A language that user-facing text can be shown in.
#[derive(Debug, Clone, Copy, PartialEq, Eq, Structural)]
pub enum Language {
    En,
    Zh,
}

// ---------------------------------------------------------------------------
// Language detection
// ---------------------------------------------------------------------------

/// What a locale value (such as `zh_CN.UTF-8`) selects, compared without
/// regard to ASCII case: `zh…` is Chinese; `en…`, `C` and `POSIX` are English.
pub open spec fn spec_parse_language(lang: Seq<char>) -> Option<Language> {
    let l = ascii_lower_seq(lang);
    if seq_starts_with(l, "zh"@) {
        Some(Language::Zh)
    } else if seq_starts_with(l, "en"@) || l == "c"@ || l == "posix"@ {
        Some(Language::En)
    } else {
        None
    }
}

/// Parses a locale value into the language it selects, if any.
pub fn parse_language(lang: &str) -> (r: Option<Language>)
    ensures
        r == spec_parse_language(lang@),
{
    let lower = ascii_lowercase(lang);
    if starts_with(&lower, &chars_of("zh")) {
        Some(Language::Zh)
    } else if starts_with(&lower, &chars_of("en")) || chars_eq(&lower, &chars_of("c")) || chars_eq(
        &lower,
        &chars_of("posix"),
    ) {
        Some(Language::En)
    } else {
        None
    }
}

/// The language selected by an optional locale value.
pub open spec fn spec_parse_setting(value: Option<&str>) -> Option<Language> {
    match value {
        Some(v) => spec_parse_language(v@),
        None => None,
    }
}

/// The language chosen from the values of `FLYLINE_LANG`, `LC_ALL`,
/// `LC_MESSAGES` and `LANG` (`None` where unset): the first one that selects a
/// language wins, and English is the default.
pub open spec fn spec_detect_language(
    flyline_lang: Option<&str>,
    lc_all: Option<&str>,
    lc_messages: Option<&str>,
    lang: Option<&str>,
) -> Language {
    if spec_parse_setting(flyline_lang) is Some {
        spec_parse_setting(flyline_lang)->0
    } else if spec_parse_setting(lc_all) is Some {
        spec_parse_setting(lc_all)->0
    } else if spec_parse_setting(lc_messages) is Some {
        spec_parse_setting(lc_messages)->0
    } else if spec_parse_setting(lang) is Some {
        spec_parse_setting(lang)->0
    } else {
        Language::En
    }
}

fn parse_setting(value: Option<&str>) -> (r: Option<Language>)
    ensures
        r == spec_parse_setting(value),
{
    match value {
        Some(v) => parse_language(v),
        None => None,
    }
}

/// Chooses the language from the locale settings, in order of priority.
pub fn detect_language(
    flyline_lang: Option<&str>,
    lc_all: Option<&str>,
    lc_messages: Option<&str>,
    lang: Option<&str>,
) -> (r: Language)
    ensures
        r == spec_detect_language(flyline_lang, lc_all, lc_messages, lang),
{
    if let Some(l) = parse_setting(flyline_lang) {
        return l;
    }
    if let Some(l) = parse_setting(lc_all) {
        return l;
    }
    if let Some(l) = parse_setting(lc_messages) {
        return l;
    }
    if let Some(l) = parse_setting(lang) {
        return l;
    }
    Language::En
}

// ---------------------------------------------------------------------------
// Translation tables
// ---------------------------------------------------------------------------

/// The value of the first entry of `table`, from index `i` on, whose key is
/// `key`.
pub open spec fn lookup_from(table: Seq<(&'static str, &'static str)>, key: Seq<char>, i: int) -> Option<
    &'static str,
>
    decreases table.len() - i,
{
    if i < 0 || i >= table.len() {
        None
    } else if table[i].0@ == key {
        Some(table[i].1)
    } else {
        lookup_from(table, key, i + 1)
    }
}

/// The value of the first entry of `table` whose key is `key`.
pub open spec fn table_lookup(table: Seq<(&'static str, &'static str)>, key: Seq<char>) -> Option<
    &'static str,
> {
    lookup_from(table, key, 0)
}

/// Looks `key` up in `table`.
pub fn lookup(table: &[(&'static str, &'static str)], key: &Vec<char>) -> (r: Option<&'static str>)
    ensures
        r == table_lookup(table@, key@),
{
    let mut i: usize = 0;
    while i < table.len()
        invariant
            i <= table@.len(),
            table_lookup(table@, key@) == lookup_from(table@, key@, i as int),
        decreases table.len() - i,
    {
        let (k, v) = table[i];
        if chars_eq(&chars_of(k), key) {
            return Some(v);
        }
        i += 1;
    }
    None
}

/// The Chinese translation of a user-facing string, if it has one.
pub open spec fn spec_zh_translation(key: Seq<char>) -> Option<&'static str> {
    table_lookup(ZH_TRANSLATIONS@, key)
}

/// Translates `key` to Simplified Chinese, or `None` when it has no
/// translation.
pub fn zh_translation(key: &str) -> (r: Option<&'static str>)
    ensures
        r == spec_zh_translation(key@),
{
    lookup(ZH_TRANSLATIONS.as_slice(), &chars_of(key))
}

/// The Chinese translation of a help string, matched exactly.
pub open spec fn spec_zh_help_translation_exact(key: Seq<char>) -> Option<&'static str> {
    table_lookup(ZH_HELP_TRANSLATIONS@, key)
}

/// Translates a CLI help string to Simplified Chinese, matched exactly.
pub fn zh_help_translation_exact(key: &str) -> (r: Option<&'static str>)
    ensures
        r == spec_zh_help_translation_exact(key@),
{
    lookup(ZH_HELP_TRANSLATIONS.as_slice(), &chars_of(key))
}

/// The Chinese translation of a help string: an exact match, else, for a
/// string that ends in a full stop, the translation of the string without it
/// (clap drops that full stop from doc comments).
pub open spec fn spec_zh_help_translation(key: Seq<char>) -> Option<&'static str> {
    if spec_zh_help_translation_exact(key) is Some {
        spec_zh_help_translation_exact(key)
    } else if key.len() > 0 && key.last() == '.' {
        spec_zh_help_translation_exact(key.drop_last())
    } else {
        None
    }
}

/// Translates a CLI help or description string to Simplified Chinese, or
/// `None` when it has no translation.
pub fn zh_help_translation(key: &str) -> (r: Option<&'static str>)
    ensures
        r == spec_zh_help_translation(key@),
{
    let mut k = chars_of(key);
    let exact = lookup(ZH_HELP_TRANSLATIONS.as_slice(), &k);
    if exact.is_some() {
        return exact;
    }
    if k.len() > 0 && k[k.len() - 1] == '.' {
        k.pop();
        assert(k@ =~= key@.drop_last());
        return lookup(ZH_HELP_TRANSLATIONS.as_slice(), &k);
    }
    None
}

/// The clap help template with Chinese labels.
pub const ZH_HELP_TEMPLATE: &'static str = "{before-help}{about-with-newline}\n用法：{usage}\n\n{all-args}{after-help}";

/// The clap help template (usage, options, ...) with Chinese labels.
pub fn zh_help_template() -> (r: &'static str)
    ensures
        r == ZH_HELP_TEMPLATE,
{
    ZH_HELP_TEMPLATE
}

// ---------------------------------------------------------------------------
// Translating
// ---------------------------------------------------------------------------

/// The text of `key` in `lang`: its translation where there is one, else `key`.
pub open spec fn spec_translate(lang: Language, key: &'static str) -> &'static str {
    match lang {
        Language::En => key,
        Language::Zh => match spec_zh_translation(key@) {
            Some(t) => t,
            None => key,
        },
    }
}

/// Returns the translation of `key` in `lang`, or `key` itself when it has
/// no translation.
pub fn translate(lang: Language, key: &'static str) -> (r: &'static str)
    ensures
        r == spec_translate(lang, key),
{
    match lang {
        Language::En => key,
        Language::Zh => match zh_translation(key) {
            Some(t) => t,
            None => key,
        },
    }
}

/// The help text `text` in `lang`: its help translation where there is one,
/// else `text`.
pub open spec fn spec_localize_help_text(lang: Language, text: Seq<char>) -> Seq<char> {
    match lang {
        Language::En => text,
        Language::Zh => match spec_zh_help_translation(text) {
            Some(t) => t@,
            None => text,
        },
    }
}

/// Localizes a help or description string into `lang`, keeping the English
/// text when no translation exists.
pub fn localize_help_text(lang: Language, text: &str) -> (r: String)
    ensures
        r@ == spec_localize_help_text(lang, text@),
{
    match lang {
        Language::En => owned(text),
        Language::Zh => match zh_help_translation(text) {
            Some(t) => owned(t),
            None => owned(text),
        },
    }
}

// ---------------------------------------------------------------------------
// Filling format templates
// ---------------------------------------------------------------------------

/// The first index `k >= i` with `t[k] == c`, if any.
pub open spec fn find_char_from(t: Seq<char>, c: char, i: int) -> Option<int>
    decreases t.len() - i,
{
    if i < 0 || i >= t.len() {
        None
    } else if t[i] == c {
        Some(i)
    } else {
        find_char_from(t, c, i + 1)
    }
}

/// `template` with each `{...}` placeholder, left to right, replaced by the
/// next of `args`; a placeholder left when `args` run out is kept as it is,
/// and so is an unclosed `{` with everything after it.
pub open spec fn fill_template(template: Seq<char>, args: Seq<Seq<char>>) -> Seq<char>
    decreases template.len(),
{
    match find_char_from(template, '{', 0) {
        None => template,
        Some(start) => match find_char_from(template, '}', start) {
            None => template,
            Some(end) => {
                proof {
                    lemma_find_char_from_bounds(template, '{', 0);
                    lemma_find_char_from_bounds(template, '}', start);
                }
                template.subrange(0, start) + (if args.len() > 0 {
                args[0]
            } else {
                template.subrange(start, end + 1)
            }) + fill_template(
                template.subrange(end + 1, template.len() as int),
                if args.len() > 0 {
                    args.drop_first()
                } else {
                    args
                },
            )
            },
        },
    }
}

/// Where `find_char_from` points, and what it skips.
pub proof fn lemma_find_char_from_bounds(t: Seq<char>, c: char, i: int)
    requires
        0 <= i,
    ensures
        find_char_from(t, c, i) matches Some(k) ==> i <= k < t.len() && t[k] == c,
        find_char_from(t, c, i) is None ==> forall|k: int| i <= k < t.len() ==> t[k] != c,
    decreases t.len() - i,
{
    if i < t.len() && t[i] != c {
        lemma_find_char_from_bounds(t, c, i + 1);
    }
}

/// The index of the first `c` in `t[from..]`.
fn find_char(t: &Vec<char>, c: char, from: usize) -> (r: Option<usize>)
    requires
        from <= t@.len(),
    ensures
        r matches Some(k) ==> find_char_from(t@, c, from as int) == Some(k as int),
        r is None ==> find_char_from(t@, c, from as int) is None,
{
    let mut i = from;
    while i < t.len()
        invariant
            from <= i <= t@.len(),
            find_char_from(t@, c, from as int) == find_char_from(t@, c, i as int),
        decreases t.len() - i,
    {
        if t[i] == c {
            return Some(i);
        }
        i += 1;
    }
    None
}

proof fn lemma_find_shift(t: Seq<char>, c: char, off: int, i: int)
    requires
        0 <= off <= t.len(),
        0 <= i,
    ensures
        find_char_from(t.subrange(off, t.len() as int), c, i) == (match find_char_from(t, c, off + i) {
            Some(k) => Some(k - off),
            None => None,
        }),
    decreases t.len() - off - i,
{
    let s = t.subrange(off, t.len() as int);
    if i < s.len() && s[i] != c {
        lemma_find_shift(t, c, off, i + 1);
    }
}

/// Fills `template` in `lang`: translates it, then substitutes the
/// pre-formatted `args` for its `{}` / `{:?}` placeholders in order.
#[verifier::spinoff_prover]
pub fn translate_fmt(lang: Language, template: &'static str, args: &[String]) -> (r: String)
    ensures
        r@ == fill_template(spec_translate(lang, template)@, args@.map_values(|a: String| a@)),
{
    let translated = translate(lang, template);
    let t = chars_of(translated);
    let ghost all_args = args@.map_values(|a: String| a@);
    let mut out = String::new();
    let mut pos: usize = 0;
    let mut next_arg: usize = 0;
    assert(t@.subrange(0, t@.len() as int) =~= t@);
    assert(all_args.skip(0) =~= all_args);
    loop
        invariant
            pos <= t@.len(),
            next_arg <= args@.len(),
            all_args == args@.map_values(|a: String| a@),
            t@ == spec_translate(lang, template)@,
            fill_template(t@, all_args) == out@ + fill_template(
                t@.subrange(pos as int, t@.len() as int),
                all_args.skip(next_arg as int),
            ),
        decreases t@.len() - pos,
    {
        let ghost rest = t@.subrange(pos as int, t@.len() as int);
        let ghost rest_args = all_args.skip(next_arg as int);
        let open = find_char(&t, '{', pos);
        proof {
            lemma_find_shift(t@, '{', pos as int, 0);
            lemma_find_char_from_bounds(t@, '{', pos as int);
        }
        match open {
            None => {
                assert(fill_template(rest, rest_args) == rest);
                push_chars(&mut out, &t, pos, t.len());
                return out;
            },
            Some(start) => {
                let close = find_char(&t, '}', start);
                proof {
                    lemma_find_shift(t@, '}', pos as int, (start - pos) as int);
                    lemma_find_char_from_bounds(t@, '}', start as int);
                }
                match close {
                    None => {
                        assert(fill_template(rest, rest_args) == rest);
                        push_chars(&mut out, &t, pos, t.len());
                        return out;
                    },
                    Some(end) => {
                        assert(end < t@.len());
                        push_chars(&mut out, &t, pos, start);
                        if next_arg < args.len() {
                            let a = chars_of(args[next_arg].as_str());
                            push_chars(&mut out, &a, 0, a.len());
                            assert(a@.subrange(0, a@.len() as int) =~= rest_args[0]);
                            assert(rest_args.drop_first() =~= all_args.skip(next_arg + 1));
                            next_arg += 1;
                        } else {
                            push_chars(&mut out, &t, start, end + 1);
                        }
                        assert(rest.subrange(0, start - pos) =~= t@.subrange(pos as int, start as int));
                        assert(rest.subrange(start - pos, end + 1 - pos) =~= t@.subrange(start as int, end + 1));
                        assert(rest.subrange(end + 1 - pos, rest.len() as int) =~= t@.subrange(end + 1, t@.len() as int));
                        pos = end + 1;
                    },
                }
            },
        }
    }
}


// ---------------------------------------------------------------------------
// Placeholders of translations
// ---------------------------------------------------------------------------

/// The `{...}` placeholders of `t` from index `i` on, left to right, as
/// `fill_template` finds them.
pub open spec fn placeholders_from(t: Seq<char>, i: int) -> Seq<Seq<char>>
    decreases t.len() - i,
{
    match find_char_from(t, '{', i) {
        None => seq![],
        Some(start) => match find_char_from(t, '}', start) {
            None => seq![],
            Some(end) => {
                proof {
                    if i >= 0 {
                        lemma_find_char_from_bounds(t, '{', i);
                        lemma_find_char_from_bounds(t, '}', start);
                    }
                }
                seq![t.subrange(start, end + 1)] + placeholders_from(t, end + 1)
            },
        },
    }
}

/// The `{...}` placeholders of `t`, left to right.
pub open spec fn placeholders(t: Seq<char>) -> Seq<Seq<char>> {
    placeholders_from(t, 0)
}

/// A translation keeps the placeholders of its English text, in order, so
/// that the same arguments fill the same slots.
pub open spec fn keeps_placeholders(entry: (&'static str, &'static str)) -> bool {
    placeholders(entry.0@) == placeholders(entry.1@)
}

fn placeholders_of(t: &Vec<char>) -> (r: Vec<Vec<char>>)
    ensures
        r@.map_values(|v: Vec<char>| v@) == placeholders(t@),
{
    let mut out: Vec<Vec<char>> = Vec::new();
    let mut pos: usize = 0;
    assert(out@.map_values(|v: Vec<char>| v@) + placeholders_from(t@, 0) =~= placeholders_from(t@, 0));
    loop
        invariant
            pos <= t@.len(),
            placeholders(t@) == out@.map_values(|v: Vec<char>| v@) + placeholders_from(t@, pos as int),
        decreases t@.len() - pos,
    {
        let ghost before = out@.map_values(|v: Vec<char>| v@);
        let open = find_char(t, '{', pos);
        proof {
            lemma_find_char_from_bounds(t@, '{', pos as int);
        }
        match open {
            None => {
                assert(before + Seq::<Seq<char>>::empty() =~= before);
                return out;
            },
            Some(start) => {
                let close = find_char(t, '}', start);
                proof {
                    lemma_find_char_from_bounds(t@, '}', start as int);
                }
                match close {
                    None => {
                        assert(before + Seq::<Seq<char>>::empty() =~= before);
                        return out;
                    },
                    Some(end) => {
                        let mut ph: Vec<char> = Vec::new();
                        let mut k: usize = start;
                        while k <= end
                            invariant
                                start <= k <= end + 1,
                                end < t.len(),
                                ph@ == t@.subrange(start as int, k as int),
                            decreases end + 1 - k,
                        {
                            ph.push(t[k]);
                            assert(t@.subrange(start as int, k + 1) =~= t@.subrange(start as int, k as int).push(t@[k as int]));
                            k += 1;
                        }
                        let ghost phv = ph@;
                        out.push(ph);
                        assert(out@.map_values(|v: Vec<char>| v@) =~= before.push(phv));
                        assert(before + placeholders_from(t@, pos as int) =~= before.push(phv) + placeholders_from(t@, end + 1));
                        pos = end + 1;
                    },
                }
            },
        }
    }
}

fn same_placeholders(a: &Vec<Vec<char>>, b: &Vec<Vec<char>>) -> (r: bool)
    ensures
        r == (a@.map_values(|v: Vec<char>| v@) == b@.map_values(|v: Vec<char>| v@)),
{
    let ghost av = a@.map_values(|v: Vec<char>| v@);
    let ghost bv = b@.map_values(|v: Vec<char>| v@);
    if a.len() != b.len() {
        assert(av.len() != bv.len());
        return false;
    }
    let mut i: usize = 0;
    while i < a.len()
        invariant
            a@.len() == b@.len(),
            i <= a@.len(),
            av == a@.map_values(|v: Vec<char>| v@),
            bv == b@.map_values(|v: Vec<char>| v@),
            forall|j: int| 0 <= j < i ==> av[j] == bv[j],
        decreases a.len() - i,
    {
        if !chars_eq(&a[i], &b[i]) {
            assert(av[i as int] != bv[i as int]);
            return false;
        }
        i += 1;
    }
    assert(av =~= bv);
    true
}

/// Whether every translation of `table` keeps the placeholders of its
/// English text.
pub fn table_keeps_placeholders(table: &[(&'static str, &'static str)]) -> (r: bool)
    ensures
        r == (forall|i: int| 0 <= i < table@.len() ==> #[trigger] keeps_placeholders(table@[i])),
{
    let mut i: usize = 0;
    while i < table.len()
        invariant
            i <= table@.len(),
            forall|j: int| 0 <= j < i ==> #[trigger] keeps_placeholders(table@[j]),
        decreases table.len() - i,
    {
        let (k, v) = table[i];
        let pk = placeholders_of(&chars_of(k));
        let pv = placeholders_of(&chars_of(v));
        if !same_placeholders(&pk, &pv) {
            assert(!keeps_placeholders(table@[i as int]));
            return false;
        }
        i += 1;
    }
    true
}

/// Whether every entry of the help-text table `ZH_HELP_TRANSLATIONS` keeps
/// the placeholders of its English text.
pub fn help_translations_keep_placeholders() -> (r: bool)
    ensures
        r == (forall|i: int| 0 <= i < ZH_HELP_TRANSLATIONS@.len() ==> #[trigger] keeps_placeholders(
            ZH_HELP_TRANSLATIONS@[i],
        )),
{
    table_keeps_placeholders(ZH_HELP_TRANSLATIONS.as_slice())
}

// ---------------------------------------------------------------------------
// Laws
// ---------------------------------------------------------------------------

/// In Chinese, a help text is shown in its exact translation when the help
/// table has one; otherwise, when it ends in a full stop (as clap hands over
/// doc comments), in the translation of the text without that full stop;
/// and as it is when neither exists. In English it is always shown as it is.
pub proof fn law_localized_help(text: Seq<char>)
    ensures
        spec_zh_help_translation_exact(text) matches Some(t) ==> spec_localize_help_text(Language::Zh, text) == t@,
        spec_zh_help_translation_exact(text) is None && text.len() > 0 && text.last() == '.'
            && (spec_zh_help_translation_exact(text.drop_last()) matches Some(t)) ==> spec_localize_help_text(
            Language::Zh,
            text,
        ) == spec_zh_help_translation_exact(text.drop_last())->0@,
        spec_zh_help_translation_exact(text) is None && !(text.len() > 0 && text.last() == '.'
            && spec_zh_help_translation_exact(text.drop_last()) is Some) ==> spec_localize_help_text(
            Language::Zh,
            text,
        ) == text,
        spec_localize_help_text(Language::En, text) == text,
{
}

/// In Chinese, a short string is shown in its translation when the table
/// has one, and as it is otherwise; in English it is shown as it is.
pub proof fn law_translated_text(key: &'static str)
    ensures
        table_lookup(ZH_TRANSLATIONS@, key@) matches Some(t) ==> spec_translate(Language::Zh, key) == t,
        table_lookup(ZH_TRANSLATIONS@, key@) is None ==> spec_translate(Language::Zh, key) == key,
        spec_translate(Language::En, key) == key,
{
}

/// A string without a translation is shown as it is, in either language.
pub proof fn law_untranslated_text_falls_back(lang: Language, key: &'static str)
    requires
        spec_zh_translation(key@) is None,
    ensures
        spec_translate(lang, key) == key,
{
}

/// English text is never translated.
pub proof fn law_english_is_identity(key: &'static str, text: Seq<char>)
    ensures
        spec_translate(Language::En, key) == key,
        spec_localize_help_text(Language::En, text) == text,
{
}

/// Help text without a translation keeps its English text.
pub proof fn law_untranslated_help_falls_back(lang: Language, text: Seq<char>)
    requires
        spec_zh_help_translation(text) is None,
    ensures
        spec_localize_help_text(lang, text) == text,
{
}

/// A help string that ends in a full stop, and has no exact translation,
/// translates as the same string without the full stop.
pub proof fn law_help_trailing_full_stop(text: Seq<char>)
    requires
        spec_zh_help_translation_exact(text.push('.')) is None,
    ensures
        spec_zh_help_translation(text.push('.')) == spec_zh_help_translation_exact(text),
{
    assert(text.push('.').drop_last() =~= text);
}

/// Locale values are compared without regard to ASCII case: a value selects
/// the same language as its lower-case form.
pub proof fn law_parse_language_ignores_case(lang: Seq<char>)
    ensures
        spec_parse_language(lang) == spec_parse_language(ascii_lower_seq(lang)),
{
    lemma_ascii_lower_seq_idempotent(lang);
}

/// `FLYLINE_LANG` overrides the locale variables whenever it selects a
/// language.
pub proof fn law_flyline_lang_wins(
    flyline_lang: &str,
    lc_all: Option<&str>,
    lc_messages: Option<&str>,
    lang: Option<&str>,
)
    requires
        spec_parse_language(flyline_lang@) is Some,
    ensures
        spec_detect_language(Some(flyline_lang), lc_all, lc_messages, lang) == spec_parse_language(flyline_lang@)->0,
{
}

/// The locale variables are consulted in priority order: `LC_ALL` decides
/// whenever `FLYLINE_LANG` selects nothing, whatever `LC_MESSAGES` and
/// `LANG` hold; `LC_MESSAGES` decides when neither of those selects
/// anything, whatever `LANG` holds; and `LANG` decides last.
pub proof fn law_locale_priority(
    flyline_lang: Option<&str>,
    lc_all: Option<&str>,
    lc_messages: Option<&str>,
    lang: Option<&str>,
)
    ensures
        (flyline_lang is None || spec_parse_language(flyline_lang->0@) is None) && (lc_all matches Some(v)
            && spec_parse_language(v@) is Some) ==> spec_detect_language(flyline_lang, lc_all, lc_messages, lang)
            == spec_parse_language(lc_all->0@)->0,
        (flyline_lang is None || spec_parse_language(flyline_lang->0@) is None) && (lc_all is None
            || spec_parse_language(lc_all->0@) is None) && (lc_messages matches Some(v) && spec_parse_language(v@)
            is Some) ==> spec_detect_language(flyline_lang, lc_all, lc_messages, lang) == spec_parse_language(
            lc_messages->0@,
        )->0,
        (flyline_lang is None || spec_parse_language(flyline_lang->0@) is None) && (lc_all is None
            || spec_parse_language(lc_all->0@) is None) && (lc_messages is None || spec_parse_language(
            lc_messages->0@,
        ) is None) && (lang matches Some(v) && spec_parse_language(v@) is Some) ==> spec_detect_language(
            flyline_lang,
            lc_all,
            lc_messages,
            lang,
        ) == spec_parse_language(lang->0@)->0,
        (flyline_lang is None || spec_parse_language(flyline_lang->0@) is None) && (lc_all is None
            || spec_parse_language(lc_all->0@) is None) && (lc_messages is None || spec_parse_language(
            lc_messages->0@,
        ) is None) && (lang is None || spec_parse_language(lang->0@) is None) ==> spec_detect_language(
            flyline_lang,
            lc_all,
            lc_messages,
            lang,
        ) == Language::En,
{
}

/// A Chinese locale value is any value starting with `zh` in either case,
/// an English one any starting with `en`, or exactly `C` or `POSIX`; others
/// select nothing.
pub proof fn law_locale_values(lang: Seq<char>)
    ensures
        lang.len() >= 2 && (lang[0] == 'z' || lang[0] == 'Z') && (lang[1] == 'h' || lang[1] == 'H')
            ==> spec_parse_language(lang) == Some(Language::Zh),
        lang.len() >= 2 && (lang[0] == 'e' || lang[0] == 'E') && (lang[1] == 'n' || lang[1] == 'N')
            ==> spec_parse_language(lang) == Some(Language::En),
        lang == "C"@ || lang == "c"@ ==> spec_parse_language(lang) == Some(Language::En),
{
    reveal_strlit("C");
    reveal_strlit("c");
    reveal_strlit("zh");
    reveal_strlit("en");
    let l = ascii_lower_seq(lang);
    assert(crate::text::ascii_lower('Z') == 'z') by {
        assert(('Z' as u32) + 32 == 'z' as u32);
    }
    assert(crate::text::ascii_lower('H') == 'h') by {
        assert(('H' as u32) + 32 == 'h' as u32);
    }
    assert(crate::text::ascii_lower('E') == 'e') by {
        assert(('E' as u32) + 32 == 'e' as u32);
    }
    assert(crate::text::ascii_lower('N') == 'n') by {
        assert(('N' as u32) + 32 == 'n' as u32);
    }
    if lang.len() >= 2 {
        assert(l[0] == crate::text::ascii_lower(lang[0]));
        assert(l[1] == crate::text::ascii_lower(lang[1]));
        assert(l.subrange(0, 2) =~= seq![l[0], l[1]]);
        assert("zh"@ =~= seq!['z', 'h']);
        assert("en"@ =~= seq!['e', 'n']);
        if l[0] == 'z' && l[1] == 'h' {
            assert(seq_starts_with(l, "zh"@));
        }
        if l[0] == 'e' && l[1] == 'n' {
            assert(!seq_starts_with(l, "zh"@)) by {
                assert(l.subrange(0, 2)[0] != "zh"@[0]);
            }
            assert(seq_starts_with(l, "en"@));
        }
    }
    if lang == "C"@ || lang == "c"@ {
        assert(l =~= "c"@);
    }
}

/// Without a setting that selects a language, the language is English.
pub proof fn law_default_language_is_english()
    ensures
        spec_detect_language(None, None, None, None) == Language::En,
{
}

/// A template without `{` is filled as it is.
pub proof fn law_fill_without_placeholders(template: Seq<char>, args: Seq<Seq<char>>)
    requires
        !template.contains('{'),
    ensures
        fill_template(template, args) == template,
{
    lemma_find_char_from_bounds(template, '{', 0);
    if find_char_from(template, '{', 0) is Some {
        let k = find_char_from(template, '{', 0)->0;
        assert(template[k] == '{');
    }
}

proof fn lemma_find_char_at(t: Seq<char>, c: char, i: int, k: int)
    requires
        0 <= i <= k < t.len(),
        t[k] == c,
        forall|m: int| i <= m < k ==> t[m] != c,
    ensures
        find_char_from(t, c, i) == Some(k),
    decreases k - i,
{
    if i < k {
        lemma_find_char_at(t, c, i + 1, k);
    }
}

/// Filling replaces the first placeholder by the first argument and fills
/// the rest of the template with the other arguments: the text before the
/// first `{` is kept, and the placeholder runs to the first `}` after it.
pub proof fn law_fill_replaces_first_placeholder(
    pre: Seq<char>,
    mid: Seq<char>,
    post: Seq<char>,
    first: Seq<char>,
    rest: Seq<Seq<char>>,
)
    requires
        !pre.contains('{'),
        !mid.contains('}'),
    ensures
        fill_template(pre + seq!['{'] + mid + seq!['}'] + post, seq![first] + rest) == pre + first + fill_template(
            post,
            rest,
        ),
{
    let t = pre + seq!['{'] + mid + seq!['}'] + post;
    let start = pre.len() as int;
    let end = start + 1 + mid.len();
    assert forall|m: int| 0 <= m < start implies t[m] != '{' by {
        assert(t[m] == pre[m]);
        if pre[m] == '{' {
            assert(pre.contains('{'));
        }
    }
    lemma_find_char_at(t, '{', 0, start);
    assert forall|m: int| start <= m < end implies t[m] != '}' by {
        if m > start {
            assert(t[m] == mid[m - start - 1]);
            if mid[m - start - 1] == '}' {
                assert(mid.contains('}'));
            }
        }
    }
    assert(t[end] == '}');
    lemma_find_char_at(t, '}', start, end);
    let args = seq![first] + rest;
    assert(args[0] == first);
    assert(args.drop_first() =~= rest);
    assert(t.subrange(0, start) =~= pre);
    assert(t.subrange(end + 1, t.len() as int) =~= post);
}

/// With no arguments, filling keeps every placeholder: the template comes
/// back unchanged.
pub proof fn law_fill_without_arguments_keeps_template(template: Seq<char>)
    ensures
        fill_template(template, seq![]) == template,
    decreases template.len(),
{
    lemma_find_char_from_bounds(template, '{', 0);
    match find_char_from(template, '{', 0) {
        None => {},
        Some(start) => {
            lemma_find_char_from_bounds(template, '}', start);
            match find_char_from(template, '}', start) {
                None => {},
                Some(end) => {
                    let rest = template.subrange(end + 1, template.len() as int);
                    law_fill_without_arguments_keeps_template(rest);
                    assert(template.subrange(0, start) + template.subrange(start, end + 1) + rest =~= template);
                },
            }
        },
    }
}

} // verus!
