//! String catalog: lookup by locale and key with a fallback chain, plural
//! forms, and single-pass `{name}` interpolation.

use crate::plural::{category_of, PluralCategory, PluralForms, PluralRule};
use crate::strmap::StrMap;
use crate::text::{chars_of, decimal_of, push_chars, signed_to_string, str_eq, strings_view};
use vstd::prelude::*;

verus! {

/// What can go wrong when a catalog is loaded.
#[derive(Debug, Clone)]
pub enum I18nError {
    /// A locale tag was malformed.
    InvalidLocale(String),
    /// A catalog source could not be parsed.
    ParseError(String),
    /// A key occurs twice in one locale.
    DuplicateKey { locale: String, key: String },
}

impl I18nError {
    /// The message of the error.
    pub open spec fn spec_message(&self) -> Seq<char> {
        match self {
            I18nError::InvalidLocale(l) => "invalid locale: "@ + l@,
            I18nError::ParseError(m) => "parse error: "@ + m@,
            I18nError::DuplicateKey { locale, key } => "duplicate key '"@ + key@ + "' in locale '"@
                + locale@ + "'"@,
        }
    }

    /// The message of the error.
    pub fn to_string(&self) -> (s: String)
        ensures
            s@ == self.spec_message(),
    {
        match self {
            I18nError::InvalidLocale(l) => {
                let mut s = "invalid locale: ".to_owned();
                s.append(l.as_str());
                s
            },
            I18nError::ParseError(m) => {
                let mut s = "parse error: ".to_owned();
                s.append(m.as_str());
                s
            },
            I18nError::DuplicateKey { locale, key } => {
                let mut s = "duplicate key '".to_owned();
                s.append(key.as_str());
                s.append("' in locale '");
                s.append(locale.as_str());
                s.append("'");
                s
            },
        }
    }
}

/// One entry of a locale: a plain string, or plural forms.
#[derive(Debug, Clone)]
pub enum StringEntry {
    /// A string without plural forms.
    Simple(String),
    /// Forms by plural category.
    Plural(PluralForms),
}

/// The text of an entry when no count is given: the string, or the `other`
/// form.
pub open spec fn entry_text(e: StringEntry) -> Seq<char> {
    match e {
        StringEntry::Simple(s) => s@,
        StringEntry::Plural(p) => p.other@,
    }
}

/// The text of an entry for a plural category: the form for it, or the
/// string where the entry has no forms.
pub open spec fn plural_text(e: StringEntry, category: PluralCategory) -> Seq<char> {
    match e {
        StringEntry::Simple(s) => s@,
        StringEntry::Plural(p) => p.spec_select(category),
    }
}

/// The strings of one locale.
#[derive(Debug, Clone)]
pub struct LocaleStrings {
    strings: StrMap<StringEntry>,
}

impl LocaleStrings {
    /// No key occurs twice.
    pub closed spec fn wf(&self) -> bool {
        self.strings.wf()
    }

    /// The entry under `key`, if there is one.
    pub closed spec fn spec_get(&self, key: Seq<char>) -> Option<StringEntry> {
        self.strings.spec_get(key)
    }

    /// Number of entries.
    pub closed spec fn spec_len(&self) -> nat {
        self.strings.spec_len()
    }

    /// Whether `key` has an entry.
    pub open spec fn spec_contains(&self, key: Seq<char>) -> bool {
        self.spec_get(key).is_some()
    }

    /// A locale without strings.
    pub fn new() -> (s: LocaleStrings)
        ensures
            s.wf(),
            s.spec_len() == 0,
            forall|k: Seq<char>| s.spec_get(k).is_none(),
    {
        let s = LocaleStrings { strings: StrMap::new() };
        assert forall|k: Seq<char>| s.spec_get(k).is_none() by {
            crate::strmap::lemma_find_key(s.strings.spec_keys(), k, 0);
        }
        s
    }

    /// Puts a plain string under `key`, in place of any entry it had.
    pub fn insert(&mut self, key: &str, value: &str)
        requires
            old(self).wf(),
        ensures
            final(self).wf(),
            final(self).spec_get(key@) matches Some(StringEntry::Simple(s)) && s@ == value@,
            forall|k: Seq<char>| k != key@ ==> final(self).spec_get(k) == old(self).spec_get(k),
            final(self).spec_len() == old(self).spec_len() + if old(self).spec_contains(key@) {
                0nat
            } else {
                1nat
            },
    {
        self.strings.insert(key.to_owned(), StringEntry::Simple(value.to_owned()));
    }

    /// Puts plural forms under `key`, in place of any entry it had.
    pub fn insert_plural(&mut self, key: &str, forms: PluralForms)
        requires
            old(self).wf(),
        ensures
            final(self).wf(),
            final(self).spec_get(key@) == Some(StringEntry::Plural(forms)),
            forall|k: Seq<char>| k != key@ ==> final(self).spec_get(k) == old(self).spec_get(k),
            final(self).spec_len() == old(self).spec_len() + if old(self).spec_contains(key@) {
                0nat
            } else {
                1nat
            },
    {
        self.strings.insert(key.to_owned(), StringEntry::Plural(forms));
    }

    /// The entry under `key`.
    pub fn get(&self, key: &str) -> (r: Option<&StringEntry>)
        requires
            self.wf(),
        ensures
            match r {
                Some(e) => self.spec_get(key@) == Some(*e),
                None => self.spec_get(key@).is_none(),
            },
    {
        self.strings.get(key)
    }

    /// Number of entries.
    pub fn len(&self) -> (n: usize)
        requires
            self.wf(),
        ensures
            n == self.spec_len(),
    {
        self.strings.len()
    }

    /// Whether the locale has no entry.
    pub fn is_empty(&self) -> (r: bool)
        requires
            self.wf(),
        ensures
            r == (self.spec_len() == 0),
    {
        self.strings.is_empty()
    }
}

/// Names and values of interpolation arguments, as characters.
pub open spec fn args_view(args: Seq<(&str, &str)>) -> Seq<(Seq<char>, Seq<char>)> {
    Seq::new(args.len(), |i: int| (args[i].0@, args[i].1@))
}

/// The value of the first argument among `args[from..]` named `name`.
pub open spec fn arg_value(args: Seq<(Seq<char>, Seq<char>)>, name: Seq<char>, from: int) -> Option<
    Seq<char>,
>
    decreases args.len() - from,
{
    if from < 0 || from >= args.len() {
        None
    } else if args[from].0 == name {
        Some(args[from].1)
    } else {
        arg_value(args, name, from + 1)
    }
}

/// Number of characters from index `from` up to the first `}`, or up to
/// the end of the template where there is none.
pub open spec fn close_gap(t: Seq<char>, from: int) -> nat
    decreases t.len() - from,
{
    if from < 0 || from >= t.len() || t[from] == '}' {
        0
    } else {
        1 + close_gap(t, from + 1)
    }
}

/// The index of the first `}` at or after `from`; an index past the last
/// character where there is none.
pub open spec fn find_close(t: Seq<char>, from: int) -> int {
    from + close_gap(t, from)
}

/// The template from index `i` on, with each `{name}` that has an argument
/// replaced by its value. A token without an argument and an unclosed brace
/// stay as they are; replaced text is not looked at again.
pub open spec fn interpolated_from(
    t: Seq<char>,
    args: Seq<(Seq<char>, Seq<char>)>,
    i: int,
) -> Seq<char>
    decreases t.len() - i,
{
    if i < 0 || i >= t.len() {
        Seq::empty()
    } else if t[i] != '{' {
        seq![t[i]] + interpolated_from(t, args, i + 1)
    } else {
        let close = find_close(t, i + 1);
        if close >= t.len() {
            t.subrange(i, t.len() as int)
        } else {
            let piece = match arg_value(args, t.subrange(i + 1, close), 0) {
                Some(v) => v,
                None => t.subrange(i, close + 1),
            };
            piece + interpolated_from(t, args, close + 1)
        }
    }
}

/// The whole template with its tokens replaced.
pub open spec fn interpolated(t: Seq<char>, args: Seq<(Seq<char>, Seq<char>)>) -> Seq<char> {
    interpolated_from(t, args, 0)
}

/// The value of the first argument named as the characters `token`.
fn lookup_arg<'a>(args: &[(&'a str, &'a str)], token: &str) -> (r: Option<&'a str>)
    ensures
        match r {
            Some(v) => arg_value(args_view(args@), token@, 0) == Some(v@),
            None => arg_value(args_view(args@), token@, 0).is_none(),
        },
{
    let ghost av = args_view(args@);
    let n = args.len();
    let mut i: usize = 0;
    while i < n
        invariant
            n == args@.len(),
            av == args_view(args@),
            0 <= i <= n,
            arg_value(av, token@, 0) == arg_value(av, token@, i as int),
        decreases n - i,
    {
        let (name, value) = args[i];
        if str_eq(name, token) {
            return Some(value);
        }
        i += 1;
    }
    None
}

/// Replaces each `{name}` of the template that has an argument of that
/// name by the argument's value, in a single pass.
pub fn interpolate(template: &str, args: &[(&str, &str)]) -> (r: String)
    ensures
        r@ == interpolated(template@, args_view(args@)),
{
    let t = chars_of(template);
    let n = t.len();
    let ghost av = args_view(args@);
    let mut result = String::new();
    let mut i: usize = 0;
    while i < n
        invariant
            n == t@.len(),
            t@ == template@,
            av == args_view(args@),
            0 <= i <= n,
            result@ + interpolated_from(t@, av, i as int) == interpolated(t@, av),
        decreases n - i,
    {
        let ghost before = result@;
        if t[i] != '{' {
            result.push(t[i]);
            proof {
                assert(result@ + interpolated_from(t@, av, i + 1) =~= before + interpolated_from(
                    t@,
                    av,
                    i as int,
                ));
            }
            i += 1;
        } else {
            let mut close: usize = i + 1;
            while close < n && t[close] != '}'
                invariant
                    n == t@.len(),
                    i + 1 <= close <= n,
                    find_close(t@, i + 1) == find_close(t@, close as int),
                decreases n - close,
            {
                close += 1;
            }
            if close >= n {
                push_chars(&mut result, &t, i, n);
                i = n;
            } else {
                let token = crate::text::string_from_chars(&t, i + 1, close);
                match lookup_arg(args, token.as_str()) {
                    Some(value) => {
                        result.append(value);
                    },
                    None => {
                        push_chars(&mut result, &t, i, close + 1);
                    },
                }
                proof {
                    let piece = match arg_value(av, t@.subrange(i + 1, close as int), 0) {
                        Some(v) => v,
                        None => t@.subrange(i as int, close + 1),
                    };
                    assert(result@ == before + piece);
                    assert(result@ + interpolated_from(t@, av, close + 1) =~= before + (piece
                        + interpolated_from(t@, av, close + 1)));
                }
                i = close + 1;
            }
        }
    }
    proof {
        assert(result@ + Seq::<char>::empty() =~= result@);
    }
    result
}

/// Catalog of the strings of several locales, with a chain of fallback
/// locales and a plural rule per locale.
#[derive(Debug, Clone)]
pub struct StringCatalog {
    locales: StrMap<LocaleStrings>,
    fallback_chain: Vec<String>,
    plural_rules: StrMap<PluralRule>,
}

impl StringCatalog {
    /// The maps are well formed, and so is every locale.
    pub closed spec fn wf(&self) -> bool {
        &&& self.locales.wf()
        &&& self.plural_rules.wf()
        &&& forall|i: int|
            0 <= i < self.locales.spec_vals().len() ==> (#[trigger] self.locales.spec_vals()[i]).wf()
    }

    /// The strings of `locale`, if it was added.
    pub closed spec fn spec_locale(&self, locale: Seq<char>) -> Option<LocaleStrings> {
        self.locales.spec_get(locale)
    }

    /// The tags of the locales added, in the order of their first addition.
    pub closed spec fn spec_locales(&self) -> Seq<Seq<char>> {
        self.locales.spec_keys()
    }

    /// The fallback chain.
    pub closed spec fn spec_chain(&self) -> Seq<Seq<char>> {
        strings_view(self.fallback_chain@)
    }

    /// The plural rule set for `locale`, if any.
    pub closed spec fn spec_rule_entry(&self, locale: Seq<char>) -> Option<PluralRule> {
        self.plural_rules.spec_get(locale)
    }

    /// The plural rule in force for `locale`: the one set, else English.
    pub open spec fn spec_rule(&self, locale: Seq<char>) -> PluralRule {
        match self.spec_rule_entry(locale) {
            Some(r) => r,
            None => PluralRule::English,
        }
    }

    /// The entry that `locale` itself holds under `key`.
    pub open spec fn spec_entry(&self, locale: Seq<char>, key: Seq<char>) -> Option<StringEntry> {
        match self.spec_locale(locale) {
            Some(ls) => ls.spec_get(key),
            None => None,
        }
    }

    /// The entry of the first locale of `chain[from..]` that holds `key`.
    pub open spec fn first_in_chain(
        &self,
        chain: Seq<Seq<char>>,
        key: Seq<char>,
        from: int,
    ) -> Option<StringEntry>
        decreases chain.len() - from,
    {
        if from < 0 || from >= chain.len() {
            None
        } else {
            match self.spec_entry(chain[from], key) {
                Some(e) => Some(e),
                None => self.first_in_chain(chain, key, from + 1),
            }
        }
    }

    /// The entry found for `key`: that of `locale`, else that of the first
    /// fallback locale that has one.
    pub open spec fn spec_resolve(&self, locale: Seq<char>, key: Seq<char>) -> Option<StringEntry> {
        match self.spec_entry(locale, key) {
            Some(e) => Some(e),
            None => self.first_in_chain(self.spec_chain(), key, 0),
        }
    }

    /// The plural text that `locale` itself gives for `key` and `count`,
    /// under its own plural rule.
    pub open spec fn spec_plural_at(
        &self,
        locale: Seq<char>,
        key: Seq<char>,
        count: int,
    ) -> Option<Seq<char>> {
        match self.spec_entry(locale, key) {
            Some(e) => Some(plural_text(e, category_of(self.spec_rule(locale), count))),
            None => None,
        }
    }

    /// The plural text of the first locale of `chain[from..]` that holds
    /// `key`.
    pub open spec fn first_plural_in_chain(
        &self,
        chain: Seq<Seq<char>>,
        key: Seq<char>,
        count: int,
        from: int,
    ) -> Option<Seq<char>>
        decreases chain.len() - from,
    {
        if from < 0 || from >= chain.len() {
            None
        } else {
            match self.spec_plural_at(chain[from], key, count) {
                Some(t) => Some(t),
                None => self.first_plural_in_chain(chain, key, count, from + 1),
            }
        }
    }

    /// The plural text found for `key` and `count`.
    pub open spec fn spec_resolve_plural(
        &self,
        locale: Seq<char>,
        key: Seq<char>,
        count: int,
    ) -> Option<Seq<char>> {
        match self.spec_plural_at(locale, key, count) {
            Some(t) => Some(t),
            None => self.first_plural_in_chain(self.spec_chain(), key, count, 0),
        }
    }

    /// The catalog without locales.
    pub fn new() -> (c: StringCatalog)
        ensures
            c.wf(),
            c.spec_locales() == Seq::<Seq<char>>::empty(),
            c.spec_chain() == Seq::<Seq<char>>::empty(),
            forall|l: Seq<char>| c.spec_locale(l).is_none() && c.spec_rule_entry(l).is_none(),
    {
        let c = StringCatalog {
            locales: StrMap::new(),
            fallback_chain: Vec::new(),
            plural_rules: StrMap::new(),
        };
        assert(c.spec_chain() =~= Seq::<Seq<char>>::empty());
        assert forall|l: Seq<char>| c.spec_locale(l).is_none() && c.spec_rule_entry(
            l,
        ).is_none() by {
            crate::strmap::lemma_find_key(c.locales.spec_keys(), l, 0);
            crate::strmap::lemma_find_key(c.plural_rules.spec_keys(), l, 0);
        }
        c
    }

    /// Adds the strings of a locale, in place of any it had, and sets its
    /// plural rule by its language.
    pub fn add_locale(&mut self, locale: &str, strings: LocaleStrings)
        requires
            old(self).wf(),
            strings.wf(),
        ensures
            final(self).wf(),
            final(self).spec_chain() == old(self).spec_chain(),
            forall|l: Seq<char>|
                #[trigger] final(self).spec_locale(l) == if l == locale@ {
                    Some(strings)
                } else {
                    old(self).spec_locale(l)
                },
            forall|l: Seq<char>|
                #[trigger] final(self).spec_rule_entry(l) == if l == locale@ {
                    Some(crate::plural::rule_of_language(crate::plural::primary_language(locale@)))
                } else {
                    old(self).spec_rule_entry(l)
                },
            final(self).spec_locales() == if old(self).spec_locale(locale@).is_some() {
                old(self).spec_locales()
            } else {
                old(self).spec_locales().push(locale@)
            },
    {
        let rule = PluralRule::for_locale(locale);
        self.plural_rules.insert(locale.to_owned(), rule);
        proof {
            self.locales.lemma_wf();
            crate::strmap::lemma_find_key(
                self.locales.spec_keys(),
                locale@,
                self.locales.spec_keys().len() as int,
            );
        }
        self.locales.insert(locale.to_owned(), strings);
        proof {
            assert forall|i: int| 0 <= i < self.locales.spec_vals().len() implies (
            #[trigger] self.locales.spec_vals()[i]).wf() by {
                if i < old(self).locales.spec_vals().len() && self.locales.spec_vals()[i] != strings {
                    assert(self.locales.spec_vals()[i] == old(self).locales.spec_vals()[i]);
                }
            }
        }
    }

    /// Sets the locales that are tried, in order, when the locale asked for
    /// lacks a key.
    pub fn set_fallback_chain(&mut self, chain: Vec<String>)
        requires
            old(self).wf(),
        ensures
            final(self).wf(),
            final(self).spec_chain() == strings_view(chain@),
            final(self).spec_locales() == old(self).spec_locales(),
            forall|l: Seq<char>| final(self).spec_locale(l) == old(self).spec_locale(l),
            forall|l: Seq<char>| final(self).spec_rule_entry(l) == old(self).spec_rule_entry(l),
    {
        self.fallback_chain = chain;
    }

    /// Sets the plural rule of a locale.
    pub fn set_plural_rule(&mut self, locale: &str, rule: PluralRule)
        requires
            old(self).wf(),
        ensures
            final(self).wf(),
            final(self).spec_chain() == old(self).spec_chain(),
            final(self).spec_locales() == old(self).spec_locales(),
            forall|l: Seq<char>| final(self).spec_locale(l) == old(self).spec_locale(l),
            forall|l: Seq<char>|
                #[trigger] final(self).spec_rule_entry(l) == if l == locale@ {
                    Some(rule)
                } else {
                    old(self).spec_rule_entry(l)
                },
    {
        self.plural_rules.insert(locale.to_owned(), rule);
    }

    /// The strings of a locale.
    pub fn locale(&self, locale: &str) -> (r: Option<&LocaleStrings>)
        requires
            self.wf(),
        ensures
            match r {
                Some(ls) => self.spec_locale(locale@) == Some(*ls) && ls.wf(),
                None => self.spec_locale(locale@).is_none(),
            },
    {
        proof {
            self.locales.lemma_wf();
        }
        match self.locales.position(locale) {
            Some(i) => Some(self.locales.value_at(i)),
            None => None,
        }
    }

    /// The entry that `locale` itself holds under `key`.
    pub fn entry(&self, locale: &str, key: &str) -> (r: Option<&StringEntry>)
        requires
            self.wf(),
        ensures
            match r {
                Some(e) => self.spec_entry(locale@, key@) == Some(*e),
                None => self.spec_entry(locale@, key@).is_none(),
            },
    {
        match self.locale(locale) {
            Some(ls) => ls.get(key),
            None => None,
        }
    }

    /// The plural rule in force for a locale.
    pub fn plural_rule(&self, locale: &str) -> (r: PluralRule)
        requires
            self.wf(),
        ensures
            r == self.spec_rule(locale@),
    {
        match self.plural_rules.get(locale) {
            Some(r) => *r,
            None => PluralRule::English,
        }
    }

    /// Looks a string up by key: in `locale`, then along the fallback chain.
    /// Of plural forms the `other` form is given.
    pub fn get(&self, locale: &str, key: &str) -> (r: Option<&str>)
        requires
            self.wf(),
        ensures
            match r {
                Some(s) => self.spec_resolve(locale@, key@) matches Some(e) && s@ == entry_text(e),
                None => self.spec_resolve(locale@, key@).is_none(),
            },
    {
        match self.entry(locale, key) {
            Some(e) => {
                return Some(text_of(e));
            },
            None => {},
        }
        let n = self.fallback_chain.len();
        let mut i: usize = 0;
        while i < n
            invariant
                self.wf(),
                n == self.fallback_chain@.len(),
                0 <= i <= n,
                self.spec_entry(locale@, key@).is_none(),
                self.first_in_chain(self.spec_chain(), key@, 0) == self.first_in_chain(
                    self.spec_chain(),
                    key@,
                    i as int,
                ),
            decreases n - i,
        {
            let fallback = self.fallback_chain[i].as_str();
            assert(self.spec_chain()[i as int] == fallback@);
            if !str_eq(fallback, locale) {
                match self.entry(fallback, key) {
                    Some(e) => {
                        return Some(text_of(e));
                    },
                    None => {},
                }
            }
            i += 1;
        }
        None
    }

    /// Looks a plural string up by key and count: in `locale`, then along
    /// the fallback chain, each locale under its own plural rule.
    pub fn get_plural(&self, locale: &str, key: &str, count: i64) -> (r: Option<&str>)
        requires
            self.wf(),
        ensures
            match r {
                Some(s) => self.spec_resolve_plural(locale@, key@, count as int) == Some(s@),
                None => self.spec_resolve_plural(locale@, key@, count as int).is_none(),
            },
    {
        let category = self.plural_rule(locale).categorize(count);
        match self.get_plural_from(locale, key, category) {
            Some(s) => {
                return Some(s);
            },
            None => {},
        }
        let n = self.fallback_chain.len();
        let mut i: usize = 0;
        while i < n
            invariant
                self.wf(),
                n == self.fallback_chain@.len(),
                0 <= i <= n,
                self.spec_plural_at(locale@, key@, count as int).is_none(),
                self.first_plural_in_chain(self.spec_chain(), key@, count as int, 0)
                    == self.first_plural_in_chain(self.spec_chain(), key@, count as int, i as int),
            decreases n - i,
        {
            let fallback = self.fallback_chain[i].as_str();
            assert(self.spec_chain()[i as int] == fallback@);
            if !str_eq(fallback, locale) {
                let fb_category = self.plural_rule(fallback).categorize(count);
                match self.get_plural_from(fallback, key, fb_category) {
                    Some(s) => {
                        return Some(s);
                    },
                    None => {},
                }
            }
            i += 1;
        }
        None
    }

    /// The text that `locale` itself gives for `key` in a plural category.
    pub fn get_plural_from(&self, locale: &str, key: &str, category: PluralCategory) -> (r: Option<
        &str,
    >)
        requires
            self.wf(),
        ensures
            match r {
                Some(s) => self.spec_entry(locale@, key@) matches Some(e) && s@ == plural_text(
                    e,
                    category,
                ),
                None => self.spec_entry(locale@, key@).is_none(),
            },
    {
        match self.entry(locale, key) {
            Some(entry) => match entry {
                StringEntry::Plural(forms) => Some(forms.select(category)),
                StringEntry::Simple(s) => Some(s.as_str()),
            },
            None => None,
        }
    }

    /// Looks a string up and replaces its `{name}` tokens by the arguments.
    pub fn format(&self, locale: &str, key: &str, args: &[(&str, &str)]) -> (r: Option<String>)
        requires
            self.wf(),
        ensures
            match r {
                Some(s) => self.spec_resolve(locale@, key@) matches Some(e) && s@ == interpolated(
                    entry_text(e),
                    args_view(args@),
                ),
                None => self.spec_resolve(locale@, key@).is_none(),
            },
    {
        match self.get(locale, key) {
            Some(template) => Some(interpolate(template, args)),
            None => None,
        }
    }

    /// Looks a plural string up and replaces its tokens; `{count}` stands
    /// for the count in decimal, ahead of the other arguments.
    pub fn format_plural(&self, locale: &str, key: &str, count: i64, extra_args: &[(&str, &str)]) -> (r:
        Option<String>)
        requires
            self.wf(),
        ensures
            match r {
                Some(s) => self.spec_resolve_plural(locale@, key@, count as int) matches Some(t)
                    && s@ == interpolated(
                    t,
                    seq![("count"@, decimal_of(count as int))] + args_view(extra_args@),
                ),
                None => self.spec_resolve_plural(locale@, key@, count as int).is_none(),
            },
    {
        match self.get_plural(locale, key, count) {
            Some(template) => {
                let count_str = signed_to_string(count);
                let mut all_args: Vec<(&str, &str)> = Vec::new();
                all_args.push(("count", count_str.as_str()));
                let n = extra_args.len();
                let mut i: usize = 0;
                while i < n
                    invariant
                        n == extra_args@.len(),
                        0 <= i <= n,
                        count_str@ == decimal_of(count as int),
                        all_args@.len() == i + 1,
                        all_args@[0].0@ == "count"@,
                        all_args@[0].1@ == decimal_of(count as int),
                        forall|k: int| 0 <= k < i ==> all_args@[k + 1] == extra_args@[k],
                    decreases n - i,
                {
                    all_args.push(extra_args[i]);
                    i += 1;
                }
                assert(args_view(all_args@) =~= seq![("count"@, decimal_of(count as int))]
                    + args_view(extra_args@));
                Some(interpolate(template, all_args.as_slice()))
            },
            None => None,
        }
    }

    /// The tags of the locales added, in the order of their first addition.
    pub fn locales(&self) -> (r: Vec<&str>)
        requires
            self.wf(),
        ensures
            r@.len() == self.spec_locales().len(),
            forall|i: int| 0 <= i < r@.len() ==> r@[i]@ == self.spec_locales()[i],
    {
        let n = self.locales.len();
        let mut out: Vec<&str> = Vec::new();
        let mut i: usize = 0;
        while i < n
            invariant
                self.wf(),
                n == self.spec_locales().len(),
                0 <= i <= n,
                out@.len() == i,
                forall|k: int| 0 <= k < i ==> out@[k]@ == self.spec_locales()[k],
            decreases n - i,
        {
            out.push(self.locales.key_at(i));
            i += 1;
        }
        out
    }
}

impl Default for StringCatalog {
    fn default() -> (c: StringCatalog)
        ensures
            c.wf(),
            c.spec_locales() == Seq::<Seq<char>>::empty(),
    {
        StringCatalog::new()
    }
}

impl Default for LocaleStrings {
    fn default() -> (s: LocaleStrings)
        ensures
            s.wf(),
            s.spec_len() == 0,
    {
        LocaleStrings::new()
    }
}

/// The text of an entry when no count is given.
fn text_of(e: &StringEntry) -> (s: &str)
    ensures
        s@ == entry_text(*e),
{
    match e {
        StringEntry::Simple(s) => s.as_str(),
        StringEntry::Plural(p) => p.other.as_str(),
    }
}

} // verus!
