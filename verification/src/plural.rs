//! Plural rules: from a count to a plural category, for the most common
//! language families, and the choice of a form by category.

use crate::text::{chars_of, str_eq, to_ascii_lower};
use vstd::prelude::*;

verus! {

/// The plural categories.
#[derive(Debug, Clone, Copy, PartialEq, Eq, Hash, Structural)]
pub enum PluralCategory {
    Zero,
    One,
    Two,
    Few,
    Many,
    Other,
}

impl PluralCategory {
    /// The lower-case name of the category.
    pub open spec fn spec_name(self) -> Seq<char> {
        match self {
            PluralCategory::Zero => "zero"@,
            PluralCategory::One => "one"@,
            PluralCategory::Two => "two"@,
            PluralCategory::Few => "few"@,
            PluralCategory::Many => "many"@,
            PluralCategory::Other => "other"@,
        }
    }

    /// The lower-case name of the category.
    pub fn as_str(&self) -> (s: &'static str)
        ensures
            s@ == self.spec_name(),
    {
        match self {
            PluralCategory::Zero => "zero",
            PluralCategory::One => "one",
            PluralCategory::Two => "two",
            PluralCategory::Few => "few",
            PluralCategory::Many => "many",
            PluralCategory::Other => "other",
        }
    }

    /// The lower-case name of the category, owned.
    pub fn to_string(&self) -> (s: String)
        ensures
            s@ == self.spec_name(),
    {
        self.as_str().to_owned()
    }
}

/// The forms of a string, one per category. Only `one` and `other` must be
/// given.
#[derive(Debug, Clone)]
pub struct PluralForms {
    pub zero: Option<String>,
    pub one: String,
    pub two: Option<String>,
    pub few: Option<String>,
    pub many: Option<String>,
    pub other: String,
}

/// The characters of an optional form, or of the fallback where it is absent.
pub open spec fn form_or(form: Option<String>, fallback: String) -> Seq<char> {
    match form {
        Some(s) => s@,
        None => fallback@,
    }
}

impl PluralForms {
    /// The form for `category`: the one given for it, or `other` where none
    /// was given.
    pub open spec fn spec_select(&self, category: PluralCategory) -> Seq<char> {
        match category {
            PluralCategory::Zero => form_or(self.zero, self.other),
            PluralCategory::One => self.one@,
            PluralCategory::Two => form_or(self.two, self.other),
            PluralCategory::Few => form_or(self.few, self.other),
            PluralCategory::Many => form_or(self.many, self.other),
            PluralCategory::Other => self.other@,
        }
    }

    /// The form for `category`, falling back to `other`.
    pub fn select(&self, category: PluralCategory) -> (s: &str)
        ensures
            s@ == self.spec_select(category),
    {
        match category {
            PluralCategory::Zero => match &self.zero {
                Some(s) => s.as_str(),
                None => self.other.as_str(),
            },
            PluralCategory::One => self.one.as_str(),
            PluralCategory::Two => match &self.two {
                Some(s) => s.as_str(),
                None => self.other.as_str(),
            },
            PluralCategory::Few => match &self.few {
                Some(s) => s.as_str(),
                None => self.other.as_str(),
            },
            PluralCategory::Many => match &self.many {
                Some(s) => s.as_str(),
                None => self.other.as_str(),
            },
            PluralCategory::Other => self.other.as_str(),
        }
    }
}

impl Default for PluralForms {
    fn default() -> (f: PluralForms)
        ensures
            f.zero.is_none(),
            f.two.is_none(),
            f.few.is_none(),
            f.many.is_none(),
            f.one@ == Seq::<char>::empty(),
            f.other@ == Seq::<char>::empty(),
    {
        PluralForms {
            zero: None,
            one: String::new(),
            two: None,
            few: None,
            many: None,
            other: String::new(),
        }
    }
}

/// A rule that maps a count to a plural category.
#[derive(Debug, Clone, Copy, PartialEq, Eq, Structural)]
pub enum PluralRule {
    /// `one` for 1, `other` for the rest.
    English,
    /// Slavic, by the last one and two digits.
    Russian,
    /// `zero`, `one`, `two`, then `few` and `many` by the last two digits.
    Arabic,
    /// `one` for 0 and 1, `other` for the rest.
    French,
    /// No plural distinction: always `other`.
    CJK,
    /// `one` for 1 alone, else as Russian between `few` and `many`.
    Polish,
}

/// The magnitude of a count.
pub open spec fn magnitude(count: int) -> nat {
    if count < 0 {
        (-count) as nat
    } else {
        count as nat
    }
}

/// The English rule.
pub open spec fn english_category(n: nat) -> PluralCategory {
    if n == 1 {
        PluralCategory::One
    } else {
        PluralCategory::Other
    }
}

/// The French rule.
pub open spec fn french_category(n: nat) -> PluralCategory {
    if n <= 1 {
        PluralCategory::One
    } else {
        PluralCategory::Other
    }
}

/// The Russian rule.
pub open spec fn russian_category(n: nat) -> PluralCategory {
    let mod10 = n % 10;
    let mod100 = n % 100;
    if mod10 == 1 && mod100 != 11 {
        PluralCategory::One
    } else if 2 <= mod10 <= 4 && !(12 <= mod100 <= 14) {
        PluralCategory::Few
    } else {
        PluralCategory::Many
    }
}

/// The Polish rule.
pub open spec fn polish_category(n: nat) -> PluralCategory {
    let mod10 = n % 10;
    let mod100 = n % 100;
    if n == 1 {
        PluralCategory::One
    } else if 2 <= mod10 <= 4 && !(12 <= mod100 <= 14) {
        PluralCategory::Few
    } else {
        PluralCategory::Many
    }
}

/// The Arabic rule.
pub open spec fn arabic_category(n: nat) -> PluralCategory {
    let mod100 = n % 100;
    if n == 0 {
        PluralCategory::Zero
    } else if n == 1 {
        PluralCategory::One
    } else if n == 2 {
        PluralCategory::Two
    } else if 3 <= mod100 <= 10 {
        PluralCategory::Few
    } else if 11 <= mod100 <= 99 {
        PluralCategory::Many
    } else {
        PluralCategory::Other
    }
}

/// The category that `rule` gives a count. Only the magnitude counts.
pub open spec fn category_of(rule: PluralRule, count: int) -> PluralCategory {
    let n = magnitude(count);
    match rule {
        PluralRule::English => english_category(n),
        PluralRule::Russian => russian_category(n),
        PluralRule::Arabic => arabic_category(n),
        PluralRule::French => french_category(n),
        PluralRule::CJK => PluralCategory::Other,
        PluralRule::Polish => polish_category(n),
    }
}

/// The English rule.
pub fn english_rule(n: u64) -> (c: PluralCategory)
    ensures
        c == english_category(n as nat),
{
    if n == 1 {
        PluralCategory::One
    } else {
        PluralCategory::Other
    }
}

/// The French rule.
pub fn french_rule(n: u64) -> (c: PluralCategory)
    ensures
        c == french_category(n as nat),
{
    if n <= 1 {
        PluralCategory::One
    } else {
        PluralCategory::Other
    }
}

/// The Russian rule.
pub fn russian_rule(n: u64) -> (c: PluralCategory)
    ensures
        c == russian_category(n as nat),
{
    let mod10 = n % 10;
    let mod100 = n % 100;
    if mod10 == 1 && mod100 != 11 {
        PluralCategory::One
    } else if 2 <= mod10 && mod10 <= 4 && !(12 <= mod100 && mod100 <= 14) {
        PluralCategory::Few
    } else if mod10 == 0 || (5 <= mod10 && mod10 <= 9) || (11 <= mod100 && mod100 <= 14) {
        PluralCategory::Many
    } else {
        PluralCategory::Other
    }
}

/// The Polish rule.
pub fn polish_rule(n: u64) -> (c: PluralCategory)
    ensures
        c == polish_category(n as nat),
{
    let mod10 = n % 10;
    let mod100 = n % 100;
    if n == 1 {
        PluralCategory::One
    } else if 2 <= mod10 && mod10 <= 4 && !(12 <= mod100 && mod100 <= 14) {
        PluralCategory::Few
    } else {
        PluralCategory::Many
    }
}

/// The Arabic rule.
pub fn arabic_rule(n: u64) -> (c: PluralCategory)
    ensures
        c == arabic_category(n as nat),
{
    let mod100 = n % 100;
    if n == 0 {
        PluralCategory::Zero
    } else if n == 1 {
        PluralCategory::One
    } else if n == 2 {
        PluralCategory::Two
    } else if 3 <= mod100 && mod100 <= 10 {
        PluralCategory::Few
    } else if 11 <= mod100 && mod100 <= 99 {
        PluralCategory::Many
    } else {
        PluralCategory::Other
    }
}

/// Whether `c` ends the primary language subtag of a locale tag.
pub open spec fn is_subtag_separator(c: char) -> bool {
    c == '-' || c == '_'
}

/// Length of the primary language subtag among the first `n` characters:
/// the characters before the first `-` or `_`.
pub open spec fn primary_len(tag: Seq<char>, n: int) -> int
    decreases n,
{
    if n <= 0 {
        0
    } else {
        let before = primary_len(tag, n - 1);
        if before < n - 1 || is_subtag_separator(tag[n - 1]) {
            before
        } else {
            n
        }
    }
}

/// The primary language subtag of a locale tag, in lower case.
pub open spec fn primary_language(tag: Seq<char>) -> Seq<char> {
    tag.take(primary_len(tag, tag.len() as int)).map_values(|c: char| crate::text::ascii_lower(c))
}

/// The rule of a language, given its lower-case primary subtag. Languages
/// that are not listed take the English rule.
pub open spec fn rule_of_language(lang: Seq<char>) -> PluralRule {
    if lang == "fr"@ || lang == "hi"@ || lang == "bn"@ {
        PluralRule::French
    } else if lang == "ru"@ || lang == "uk"@ || lang == "hr"@ || lang == "sr"@ || lang == "bs"@ {
        PluralRule::Russian
    } else if lang == "pl"@ {
        PluralRule::Polish
    } else if lang == "ar"@ {
        PluralRule::Arabic
    } else if lang == "zh"@ || lang == "ja"@ || lang == "ko"@ || lang == "th"@ || lang == "vi"@
        || lang == "id"@ || lang == "ms"@ {
        PluralRule::CJK
    } else {
        PluralRule::English
    }
}

impl PluralRule {
    /// The plural category of `count` under this rule.
    pub fn categorize(&self, count: i64) -> (c: PluralCategory)
        ensures
            c == category_of(*self, count as int),
    {
        let n: u64 = if count < 0 {
            (-(count + 1)) as u64 + 1
        } else {
            count as u64
        };
        match self {
            PluralRule::English => english_rule(n),
            PluralRule::Russian => russian_rule(n),
            PluralRule::Arabic => arabic_rule(n),
            PluralRule::French => french_rule(n),
            PluralRule::CJK => PluralCategory::Other,
            PluralRule::Polish => polish_rule(n),
        }
    }

    /// The rule for a locale tag such as `en`, `en-US` or `ru_RU`. Unknown
    /// languages take the English rule.
    pub fn for_locale(lang: &str) -> (r: PluralRule)
        ensures
            r == rule_of_language(primary_language(lang@)),
    {
        let chars = chars_of(lang);
        let n = chars.len();
        let mut end: usize = 0;
        while end < n && !(chars[end] == '-' || chars[end] == '_')
            invariant
                n == chars@.len(),
                0 <= end <= n,
                primary_len(chars@, end as int) == end,
            decreases n - end,
        {
            end += 1;
        }
        proof {
            lemma_primary_rest(chars@, end as int, n as int);
        }
        let mut lower = String::new();
        let mut i: usize = 0;
        while i < end
            invariant
                0 <= i <= end <= chars@.len(),
                lower@ == chars@.take(i as int).map_values(|c: char| crate::text::ascii_lower(c)),
            decreases end - i,
        {
            lower.push(to_ascii_lower(chars[i]));
            i += 1;
            assert(lower@ =~= chars@.take(i as int).map_values(
                |c: char| crate::text::ascii_lower(c),
            ));
        }
        let l = lower.as_str();
        if str_eq(l, "fr") || str_eq(l, "hi") || str_eq(l, "bn") {
            PluralRule::French
        } else if str_eq(l, "ru") || str_eq(l, "uk") || str_eq(l, "hr") || str_eq(l, "sr")
            || str_eq(l, "bs") {
            PluralRule::Russian
        } else if str_eq(l, "pl") {
            PluralRule::Polish
        } else if str_eq(l, "ar") {
            PluralRule::Arabic
        } else if str_eq(l, "zh") || str_eq(l, "ja") || str_eq(l, "ko") || str_eq(l, "th")
            || str_eq(l, "vi") || str_eq(l, "id") || str_eq(l, "ms") {
            PluralRule::CJK
        } else {
            PluralRule::English
        }
    }
}

/// Once a separator is met at `end`, or the tag ends there, the primary
/// subtag of any longer prefix stays the first `end` characters.
pub proof fn lemma_primary_rest(tag: Seq<char>, end: int, n: int)
    requires
        0 <= end <= n <= tag.len(),
        primary_len(tag, end) == end,
        end < tag.len() ==> is_subtag_separator(tag[end]),
    ensures
        primary_len(tag, n) == end,
    decreases n - end,
{
    if end < n {
        lemma_primary_rest(tag, end, n - 1);
    }
}

} // verus!
