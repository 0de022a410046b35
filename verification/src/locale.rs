//! Locale tags: their normal form, and the locale in force with scoped
//! overrides.

use crate::text::{chars_of, is_whitespace_char, str_eq, to_ascii_lower, ascii_lower};
use vstd::prelude::*;

verus! {

/// Number of whitespace characters at the start of `s[from..to]`.
pub open spec fn leading_space(s: Seq<char>, from: int, to: int) -> nat
    decreases to - from,
{
    if from >= to || from < 0 || from >= s.len() || !is_whitespace_char(s[from]) {
        0
    } else {
        1 + leading_space(s, from + 1, to)
    }
}

/// Number of whitespace characters at the end of `s[from..to]`.
pub open spec fn trailing_space(s: Seq<char>, from: int, to: int) -> nat
    decreases to - from,
{
    if from >= to || to > s.len() || to <= 0 || !is_whitespace_char(s[to - 1]) {
        0
    } else {
        1 + trailing_space(s, from, to - 1)
    }
}

/// Number of characters of `s[from..to]` before the first `c`.
pub open spec fn run_before(s: Seq<char>, c: char, from: int, to: int) -> nat
    decreases to - from,
{
    if from >= to || from < 0 || from >= s.len() || s[from] == c {
        0
    } else {
        1 + run_before(s, c, from + 1, to)
    }
}

/// Where the trimmed part of `s[from..to]` starts.
pub open spec fn trim_start(s: Seq<char>, from: int, to: int) -> int {
    from + leading_space(s, from, to)
}

/// Where the trimmed part of `s[from..to]` ends.
pub open spec fn trim_end(s: Seq<char>, from: int, to: int) -> int {
    to - trailing_space(s, trim_start(s, from, to), to)
}

/// The characters of a tag with every `_` replaced by `-`.
pub open spec fn dashed(s: Seq<char>) -> Seq<char> {
    s.map_values(|c: char| if c == '_' {
        '-'
    } else {
        c
    })
}

/// Whether a tag names the C or POSIX locale, in any case of letters.
pub open spec fn is_c_locale(s: Seq<char>) -> bool {
    s.map_values(|c: char| ascii_lower(c)) == "c"@ || s.map_values(|c: char| ascii_lower(c))
        == "posix"@
}

/// The bounds of the core of a raw locale string: trimmed, cut before the
/// first `@` and then before the first `.`, and trimmed again.
pub open spec fn core_bounds(raw: Seq<char>) -> (int, int) {
    let a = trim_start(raw, 0, raw.len() as int);
    let b = trim_end(raw, 0, raw.len() as int);
    let b1 = a + run_before(raw, '@', a, b);
    let b2 = a + run_before(raw, '.', a, b1);
    (trim_start(raw, a, b2), trim_end(raw, a, b2))
}

/// The normal form of a raw locale string such as `fr_FR.UTF-8`: its core
/// with `-` for `_`, and `en` for the C and POSIX locales. `None` where the
/// string or its core is empty.
pub open spec fn normalized(raw: Seq<char>) -> Option<Seq<char>> {
    let (a, b) = core_bounds(raw);
    if a >= b {
        None
    } else {
        let tag = dashed(raw.subrange(a, b));
        if is_c_locale(tag) {
            Some("en"@)
        } else {
            Some(tag)
        }
    }
}

/// The normal form of a locale, `en` where it has none.
pub open spec fn normalized_or_en(raw: Seq<char>) -> Seq<char> {
    match normalized(raw) {
        Some(tag) => tag,
        None => "en"@,
    }
}

/// The bounds of `chars[from..to]` without the whitespace at either end.
fn trim_bounds(chars: &Vec<char>, from: usize, to: usize) -> (r: (usize, usize))
    requires
        from <= to <= chars@.len(),
    ensures
        r.0 == trim_start(chars@, from as int, to as int),
        r.1 == trim_end(chars@, from as int, to as int),
        from <= r.0 <= r.1 <= to,
{
    let mut a = from;
    while a < to && chars[a].is_whitespace()
        invariant
            from <= a <= to <= chars@.len(),
            from + leading_space(chars@, from as int, to as int) == a + leading_space(
                chars@,
                a as int,
                to as int,
            ),
        decreases to - a,
    {
        a += 1;
    }
    let mut b = to;
    while b > a && chars[b - 1].is_whitespace()
        invariant
            a <= b <= to <= chars@.len(),
            to - trailing_space(chars@, a as int, to as int) == b - trailing_space(
                chars@,
                a as int,
                b as int,
            ),
        decreases b - a,
    {
        b -= 1;
    }
    (a, b)
}

/// The index of the first `c` in `chars[from..to]`, or `to`.
fn find_char(chars: &Vec<char>, c: char, from: usize, to: usize) -> (r: usize)
    requires
        from <= to <= chars@.len(),
    ensures
        r == from + run_before(chars@, c, from as int, to as int),
        from <= r <= to,
{
    let mut i = from;
    while i < to && chars[i] != c
        invariant
            from <= i <= to <= chars@.len(),
            from + run_before(chars@, c, from as int, to as int) == i + run_before(
                chars@,
                c,
                i as int,
                to as int,
            ),
        decreases to - i,
    {
        i += 1;
    }
    i
}

/// The normal form of a raw locale string, or `None` where it has none.
pub fn normalize_locale_raw(raw: &str) -> (r: Option<String>)
    ensures
        match r {
            Some(tag) => normalized(raw@) == Some(tag@),
            None => normalized(raw@).is_none(),
        },
{
    let chars = chars_of(raw);
    let n = chars.len();
    let (a, b) = trim_bounds(&chars, 0, n);
    if a >= b {
        proof {
            lemma_empty_core(raw@);
        }
        return None;
    }
    let b1 = find_char(&chars, '@', a, b);
    let b2 = find_char(&chars, '.', a, b1);
    let (c, d) = trim_bounds(&chars, a, b2);
    if c >= d {
        return None;
    }
    let mut tag = String::new();
    let mut lower = String::new();
    let mut i = c;
    while i < d
        invariant
            c <= i <= d <= chars@.len(),
            tag@ == dashed(chars@.subrange(c as int, i as int)),
            lower@ == dashed(chars@.subrange(c as int, i as int)).map_values(
                |ch: char| ascii_lower(ch),
            ),
        decreases d - i,
    {
        let ch = if chars[i] == '_' {
            '-'
        } else {
            chars[i]
        };
        tag.push(ch);
        lower.push(to_ascii_lower(ch));
        i += 1;
        proof {
            assert(chars@.subrange(c as int, i as int) =~= chars@.subrange(c as int, i - 1).push(
                chars@[i - 1],
            ));
            assert(tag@ =~= dashed(chars@.subrange(c as int, i as int)));
            assert(lower@ =~= dashed(chars@.subrange(c as int, i as int)).map_values(
                |ch: char| ascii_lower(ch),
            ));
        }
    }
    if str_eq(lower.as_str(), "c") || str_eq(lower.as_str(), "posix") {
        Some("en".to_owned())
    } else {
        Some(tag)
    }
}

/// A string that is all whitespace has no core.
pub proof fn lemma_empty_core(raw: Seq<char>)
    requires
        trim_start(raw, 0, raw.len() as int) >= raw.len() || trim_start(raw, 0, raw.len() as int)
            >= trim_end(raw, 0, raw.len() as int),
    ensures
        normalized(raw).is_none(),
{
    let a = trim_start(raw, 0, raw.len() as int);
    let b = trim_end(raw, 0, raw.len() as int);
    let b1 = a + run_before(raw, '@', a, b);
    lemma_run_before(raw, '@', a, b);
    lemma_run_before(raw, '.', a, b1);
    let b2 = a + run_before(raw, '.', a, b1);
    lemma_trim(raw, a, b2);
}

/// A run ends inside its bounds.
pub proof fn lemma_run_before(s: Seq<char>, c: char, from: int, to: int)
    ensures
        from <= to ==> from + run_before(s, c, from, to) <= to,
        from > to ==> run_before(s, c, from, to) == 0,
    decreases to - from,
{
    if !(from >= to || from < 0 || from >= s.len() || s[from] == c) {
        lemma_run_before(s, c, from + 1, to);
    }
}

/// Trimming stays inside its bounds.
pub proof fn lemma_trim(s: Seq<char>, from: int, to: int)
    ensures
        from <= to ==> from <= trim_start(s, from, to) <= to,
        from > to ==> trim_start(s, from, to) == from,
        trim_end(s, from, to) <= to,
        from <= to ==> trim_end(s, from, to) >= trim_start(s, from, to),
{
    lemma_leading(s, from, to);
    lemma_trailing(s, trim_start(s, from, to), to);
}

/// Leading whitespace ends inside its bounds.
pub proof fn lemma_leading(s: Seq<char>, from: int, to: int)
    ensures
        from <= to ==> from + leading_space(s, from, to) <= to,
        from > to ==> leading_space(s, from, to) == 0,
    decreases to - from,
{
    if !(from >= to || from < 0 || from >= s.len() || !is_whitespace_char(s[from])) {
        lemma_leading(s, from + 1, to);
    }
}

/// Trailing whitespace starts inside its bounds.
pub proof fn lemma_trailing(s: Seq<char>, from: int, to: int)
    ensures
        from <= to ==> to - trailing_space(s, from, to) >= from,
        from > to ==> trailing_space(s, from, to) == 0,
    decreases to - from,
{
    if !(from >= to || to > s.len() || to <= 0 || !is_whitespace_char(s[to - 1])) {
        lemma_trailing(s, from, to - 1);
    }
}

/// The normal form of a locale, `en` where it has none.
pub fn normalize_locale(locale: &str) -> (r: String)
    ensures
        r@ == normalized_or_en(locale@),
{
    match normalize_locale_raw(locale) {
        Some(tag) => tag,
        None => "en".to_owned(),
    }
}

/// The locale in force: a base locale, and overrides that are pushed and
/// popped in nested scopes. The version counts the changes of the base
/// locale.
#[derive(Debug, Clone)]
pub struct LocaleContext {
    current: String,
    version: u64,
    overrides: Vec<String>,
}

impl LocaleContext {
    /// The base locale.
    pub closed spec fn spec_base(&self) -> Seq<char> {
        self.current@
    }

    /// The overrides, innermost last.
    pub closed spec fn spec_overrides(&self) -> Seq<Seq<char>> {
        crate::text::strings_view(self.overrides@)
    }

    /// Number of changes of the base locale.
    pub closed spec fn spec_version(&self) -> u64 {
        self.version
    }

    /// The locale in force: the innermost override, else the base locale.
    pub open spec fn spec_current(&self) -> Seq<char> {
        if self.spec_overrides().len() > 0 {
            self.spec_overrides().last()
        } else {
            self.spec_base()
        }
    }

    /// A context with the given base locale, in normal form.
    pub fn new(locale: &str) -> (c: LocaleContext)
        ensures
            c.spec_base() == normalized_or_en(locale@),
            c.spec_overrides() == Seq::<Seq<char>>::empty(),
            c.spec_version() == 0,
    {
        let c = LocaleContext {
            current: normalize_locale(locale),
            version: 0,
            overrides: Vec::new(),
        };
        assert(c.spec_overrides() =~= Seq::<Seq<char>>::empty());
        c
    }

    /// The locale in force.
    pub fn current_locale(&self) -> (r: String)
        ensures
            r@ == self.spec_current(),
    {
        let n = self.overrides.len();
        if n > 0 {
            self.overrides[n - 1].clone()
        } else {
            self.current.clone()
        }
    }

    /// The base locale, whatever the overrides.
    pub fn base_locale(&self) -> (r: String)
        ensures
            r@ == self.spec_base(),
    {
        self.current.clone()
    }

    /// Sets the base locale, in normal form. The version goes up by one
    /// where the locale changes, held at the largest `u64`, and stays where
    /// it does not.
    pub fn set_locale(&mut self, locale: &str)
        ensures
            final(self).spec_base() == normalized_or_en(locale@),
            final(self).spec_overrides() == old(self).spec_overrides(),
            final(self).spec_version() == if old(self).spec_base() == normalized_or_en(locale@)
                || old(self).spec_version() == u64::MAX {
                old(self).spec_version()
            } else {
                (old(self).spec_version() + 1) as u64
            },
    {
        let tag = normalize_locale(locale);
        if !str_eq(self.current.as_str(), tag.as_str()) {
            self.current = tag;
            self.version = self.version.saturating_add(1);
        }
    }

    /// Puts a locale, in normal form, in force until the matching
    /// `pop_override`.
    pub fn push_override(&mut self, locale: &str)
        ensures
            final(self).spec_overrides() == old(self).spec_overrides().push(
                normalized_or_en(locale@),
            ),
            final(self).spec_base() == old(self).spec_base(),
            final(self).spec_version() == old(self).spec_version(),
    {
        let tag = normalize_locale(locale);
        self.overrides.push(tag);
        assert(self.spec_overrides() =~= old(self).spec_overrides().push(
            normalized_or_en(locale@),
        ));
    }

    /// Ends the innermost override and gives its locale; `None` where there
    /// is no override.
    pub fn pop_override(&mut self) -> (r: Option<String>)
        ensures
            final(self).spec_base() == old(self).spec_base(),
            final(self).spec_version() == old(self).spec_version(),
            match r {
                Some(l) => old(self).spec_overrides().len() > 0 && l@ == old(
                    self,
                ).spec_overrides().last() && final(self).spec_overrides() == old(
                    self,
                ).spec_overrides().drop_last(),
                None => old(self).spec_overrides().len() == 0 && final(self).spec_overrides()
                    == old(self).spec_overrides(),
            },
    {
        let r = self.overrides.pop();
        proof {
            if r.is_some() {
                assert(self.spec_overrides() =~= old(self).spec_overrides().drop_last());
            }
        }
        r
    }

    /// Number of changes of the base locale.
    pub fn version(&self) -> (v: u64)
        ensures
            v == self.spec_version(),
    {
        self.version
    }
}

} // verus!
