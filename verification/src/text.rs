//! Text services: strings as sequences of characters, decimal numbers,
//! and what the Unicode crates tell about width and grapheme clusters.

use unicode_segmentation::UnicodeSegmentation;
use unicode_width::UnicodeWidthStr;
use vstd::prelude::*;

verus! {

broadcast use vstd::string::group_string_axioms;

/// `String::push` of the standard library appends one character to the end
/// of the string.
pub assume_specification[ String::push ](s: &mut String, c: char)
    ensures
        final(s)@ == old(s)@.push(c),
;

/// `String::pop` of the standard library removes the last character and
/// returns it, or returns `None` for the empty string.
pub assume_specification[ String::pop ](s: &mut String) -> (r: Option<char>)
    ensures
        match r {
            Some(c) => old(s)@.len() > 0 && c == old(s)@.last() && final(s)@ == old(s)@.drop_last(),
            None => old(s)@.len() == 0 && final(s)@ == old(s)@,
        },
;

/// `String::clear` of the standard library removes every character.
pub assume_specification[ String::clear ](s: &mut String)
    ensures
        final(s)@ == Seq::<char>::empty(),
;

/// `==` on string slices, of the standard library, holds exactly when the
/// two slices hold the same characters.
pub assume_specification[ <str as PartialEq>::eq ](a: &str, b: &str) -> (r: bool)
    ensures
        r == (a@ == b@),
;

/// Whether the standard library's `char::is_alphanumeric` holds of `c`.
pub uninterp spec fn is_alphanumeric_char(c: char) -> bool;

/// Whether the standard library's `char::is_whitespace` holds of `c`.
pub uninterp spec fn is_whitespace_char(c: char) -> bool;

/// The characters that the standard library's `str::to_lowercase` gives for
/// a string.
pub uninterp spec fn lowercase_of(s: Seq<char>) -> Seq<char>;

/// The number of terminal columns that `unicode_width` gives a string.
pub uninterp spec fn width_of(s: Seq<char>) -> nat;

/// The extended grapheme clusters into which `unicode_segmentation` splits a
/// string, in order.
pub uninterp spec fn clusters_of(s: Seq<char>) -> Seq<Seq<char>>;

/// `char::is_alphanumeric` of the standard library is a function of the
/// character alone; its result is named, not described.
pub assume_specification[ char::is_alphanumeric ](c: char) -> (r: bool)
    ensures
        r == is_alphanumeric_char(c),
;

/// `char::is_whitespace` of the standard library is a function of the
/// character alone; its result is named, not described.
pub assume_specification[ char::is_whitespace ](c: char) -> (r: bool)
    ensures
        r == is_whitespace_char(c),
;

/// Calls `str::to_lowercase` of the standard library. The result depends on
/// the characters alone and is named, not described.
#[verifier::external_body]
pub(crate) fn to_lowercase(s: &str) -> (r: String)
    ensures
        r@ == lowercase_of(s@),
{
    s.to_lowercase()
}

/// Calls `UnicodeWidthStr::width` of `unicode_width`: the displayed width of
/// the string in columns, ambiguous characters counted as narrow. The result
/// depends on the characters alone and is named, not described.
#[verifier::external_body]
pub(crate) fn display_width(s: &str) -> (w: usize)
    ensures
        w == width_of(s@),
{
    UnicodeWidthStr::width(s)
}

/// Calls `UnicodeSegmentation::graphemes` of `unicode_segmentation` with
/// extended clusters and hands each cluster out as an owned string. The
/// clusters depend on the characters alone and are named, not described.
#[verifier::external_body]
pub(crate) fn grapheme_clusters(s: &str) -> (v: Vec<String>)
    ensures
        strings_view(v@) == clusters_of(s@),
{
    UnicodeSegmentation::graphemes(s, true).map(|g| g.to_owned()).collect()
}

/// The characters of each string.
pub open spec fn strings_view(v: Seq<String>) -> Seq<Seq<char>> {
    Seq::new(v.len(), |i: int| v[i]@)
}

/// Whether two string slices hold the same characters.
pub fn str_eq(a: &str, b: &str) -> (r: bool)
    ensures
        r == (a@ == b@),
{
    *a == *b
}

/// The characters of a string.
pub fn chars_of(s: &str) -> (v: Vec<char>)
    ensures
        v@ == s@,
{
    let mut v: Vec<char> = Vec::new();
    for c in it: s.chars()
        invariant
            it.seq() == s@,
            v@.len() == it.index(),
            forall|j: int| 0 <= j < v@.len() ==> v@[j] == it.seq()[j],
    {
        v.push(c);
    }
    assert(v@ =~= s@);
    v
}

/// Appends the characters `v[from..to]` to `out`.
pub fn push_chars(out: &mut String, v: &Vec<char>, from: usize, to: usize)
    requires
        from <= to <= v@.len(),
    ensures
        final(out)@ == old(out)@ + v@.subrange(from as int, to as int),
{
    let mut i: usize = from;
    assert(old(out)@ + v@.subrange(from as int, from as int) =~= old(out)@);
    while i < to
        invariant
            from <= i <= to <= v@.len(),
            out@ == old(out)@ + v@.subrange(from as int, i as int),
        decreases to - i,
    {
        out.push(v[i]);
        i += 1;
        assert(v@.subrange(from as int, i as int) =~= v@.subrange(from as int, i - 1).push(
            v@[i - 1],
        ));
        assert(out@ =~= old(out)@ + v@.subrange(from as int, i as int));
    }
}

/// The string that holds the characters `v[from..to]`.
pub fn string_from_chars(v: &Vec<char>, from: usize, to: usize) -> (s: String)
    requires
        from <= to <= v@.len(),
    ensures
        s@ == v@.subrange(from as int, to as int),
{
    let mut s = String::new();
    push_chars(&mut s, v, from, to);
    assert(Seq::<char>::empty() + v@.subrange(from as int, to as int) =~= v@.subrange(
        from as int,
        to as int,
    ));
    s
}

/// The character of a decimal digit.
pub open spec fn digit_char(d: int) -> char {
    (48 + d) as u8 as char
}

/// A natural number in decimal, most significant digit first, without
/// leading zeros.
pub open spec fn decimal_digits(n: nat) -> Seq<char>
    decreases n,
{
    if n < 10 {
        seq![digit_char(n as int)]
    } else {
        decimal_digits(n / 10).push(digit_char((n % 10) as int))
    }
}

/// An integer in decimal, with a minus sign in front where it is negative.
pub open spec fn decimal_of(n: int) -> Seq<char> {
    if n < 0 {
        seq!['-'] + decimal_digits((-n) as nat)
    } else {
        decimal_digits(n as nat)
    }
}

/// Appends `n` in decimal to `out`.
pub fn push_decimal(out: &mut String, n: u64)
    ensures
        final(out)@ == old(out)@ + decimal_digits(n as nat),
    decreases n,
{
    if n >= 10 {
        push_decimal(out, n / 10);
    }
    let d: u8 = (n % 10) as u8;
    out.push((48 + d) as char);
    proof {
        if n >= 10 {
            assert(out@ =~= old(out)@ + decimal_digits(n as nat));
        } else {
            assert(out@ =~= old(out)@ + decimal_digits(n as nat));
        }
    }
}

/// `n` in decimal.
pub fn unsigned_to_string(n: u64) -> (s: String)
    ensures
        s@ == decimal_of(n as int),
{
    let mut s = String::new();
    push_decimal(&mut s, n);
    assert(Seq::<char>::empty() + decimal_digits(n as nat) =~= decimal_digits(n as nat));
    s
}

/// `n` in decimal, with a minus sign in front where it is negative.
pub fn signed_to_string(n: i64) -> (s: String)
    ensures
        s@ == decimal_of(n as int),
{
    let mut s = String::new();
    if n < 0 {
        s.push('-');
        let magnitude: u64 = (-(n + 1)) as u64 + 1;
        push_decimal(&mut s, magnitude);
        assert(s@ =~= seq!['-'] + decimal_digits((-n) as nat));
    } else {
        push_decimal(&mut s, n as u64);
        assert(s@ =~= decimal_digits(n as nat));
    }
    s
}

/// The lower-case form of an ASCII capital; every other character as it is.
pub open spec fn ascii_lower(c: char) -> char {
    if 'A' <= c && c <= 'Z' {
        ((c as u8) + 32) as char
    } else {
        c
    }
}

/// The lower-case form of an ASCII capital; every other character as it is.
pub fn to_ascii_lower(c: char) -> (r: char)
    ensures
        r == ascii_lower(c),
{
    if 'A' <= c && c <= 'Z' {
        ((c as u8) + 32) as char
    } else {
        c
    }
}

/// Whether two sequences are equal when ASCII letters are compared without
/// regard to case.
pub open spec fn eq_ignore_ascii_case(a: Seq<char>, b: Seq<char>) -> bool {
    a.len() == b.len() && forall|i: int|
        0 <= i < a.len() ==> ascii_lower(#[trigger] a[i]) == ascii_lower(b[i])
}

/// Whether `v[from..to]` equals `word` when ASCII letters are compared
/// without regard to case.
pub fn chars_eq_ignore_ascii_case(v: &Vec<char>, from: usize, to: usize, word: &Vec<char>) -> (r:
    bool)
    requires
        from <= to <= v@.len(),
    ensures
        r == eq_ignore_ascii_case(v@.subrange(from as int, to as int), word@),
{
    if to - from != word.len() {
        return false;
    }
    let n = word.len();
    let mut i: usize = 0;
    while i < n
        invariant
            from <= to <= v@.len(),
            n == word@.len(),
            n == to - from,
            0 <= i <= n,
            forall|k: int|
                0 <= k < i ==> ascii_lower(#[trigger] v@.subrange(from as int, to as int)[k])
                    == ascii_lower(word@[k]),
        decreases n - i,
    {
        if to_ascii_lower(v[from + i]) != to_ascii_lower(word[i]) {
            assert(v@.subrange(from as int, to as int)[i as int] == v@[from + i]);
            return false;
        }
        assert(v@.subrange(from as int, to as int)[i as int] == v@[from + i]);
        i += 1;
    }
    true
}

/// Something that can be read as text: a string slice or an owned string.
pub trait Text {
    /// The characters of the text.
    spec fn text_view(&self) -> Seq<char>;

    /// The text as a string slice.
    fn as_text(&self) -> (s: &str)
        ensures
            s@ == self.text_view(),
    ;
}

impl Text for String {
    open spec fn text_view(&self) -> Seq<char> {
        self@
    }

    fn as_text(&self) -> (s: &str) {
        self.as_str()
    }
}

impl<'a> Text for &'a str {
    open spec fn text_view(&self) -> Seq<char> {
        self@
    }

    fn as_text(&self) -> (s: &str) {
        *self
    }
}

/// The characters of each text.
pub open spec fn texts_view<T: Text>(items: Seq<T>) -> Seq<Seq<char>> {
    Seq::new(items.len(), |i: int| items[i].text_view())
}

/// Owned copies of the texts.
pub fn to_strings<T: Text>(items: &[T]) -> (v: Vec<String>)
    ensures
        strings_view(v@) == texts_view(items@),
{
    let n = items.len();
    let mut v: Vec<String> = Vec::new();
    let mut i: usize = 0;
    while i < n
        invariant
            n == items@.len(),
            0 <= i <= n,
            v@.len() == i,
            forall|k: int| 0 <= k < i ==> v@[k]@ == items@[k].text_view(),
        decreases n - i,
    {
        v.push(items[i].as_text().to_owned());
        i += 1;
    }
    assert(strings_view(v@) =~= texts_view(items@));
    v
}

} // verus!
