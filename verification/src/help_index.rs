//! The index of help content: every token of every entry, in lower case,
//! with the places where it occurs; and the bounded edit distance used to
//! match a query against tokens.

use crate::help_registry::{HelpContent, HelpId, HelpRegistry, Keybinding};
use crate::strmap::{position_of, StrMap};
use crate::text::{
    chars_of, is_alphanumeric_char, lowercase_of, string_from_chars, strings_view, to_lowercase,
};
use vstd::prelude::*;

verus! {

/// The field of an entry in which a match was found.
#[derive(Debug, Clone, Copy, PartialEq, Eq, Structural)]
pub enum MatchedField {
    /// The short description.
    Short,
    /// The long description.
    Long,
    /// The action of a key binding.
    KeybindingAction,
    /// The key combination of a key binding.
    KeybindingKey,
}

impl MatchedField {
    /// The name of the field as shown to the user.
    pub open spec fn spec_name(self) -> Seq<char> {
        match self {
            MatchedField::Short => "description"@,
            MatchedField::Long => "details"@,
            MatchedField::KeybindingAction => "keybinding"@,
            MatchedField::KeybindingKey => "key"@,
        }
    }

    /// The name of the field as shown to the user.
    pub fn as_str(&self) -> (s: &'static str)
        ensures
            s@ == self.spec_name(),
    {
        match self {
            MatchedField::Short => "description",
            MatchedField::Long => "details",
            MatchedField::KeybindingAction => "keybinding",
            MatchedField::KeybindingKey => "key",
        }
    }

    /// The name of the field, owned.
    pub fn to_string(&self) -> (s: String)
        ensures
            s@ == self.spec_name(),
    {
        self.as_str().to_owned()
    }
}

/// One place where a token occurs.
#[derive(Debug, Clone)]
pub struct TokenOccurrence {
    /// The entry.
    pub id: HelpId,
    /// The field of the entry.
    pub field: MatchedField,
    /// The position of the token among the tokens of the field, modulo
    /// 65536.
    pub position: u16,
    /// The text of the field.
    pub field_text: String,
}

/// An occurrence with its text as characters.
pub struct OccurrenceModel {
    pub id: HelpId,
    pub field: MatchedField,
    pub position: u16,
    pub text: Seq<char>,
}

impl View for TokenOccurrence {
    type V = OccurrenceModel;

    open spec fn view(&self) -> OccurrenceModel {
        OccurrenceModel {
            id: self.id,
            field: self.field,
            position: self.position,
            text: self.field_text@,
        }
    }
}

/// The occurrences of a list, as models.
pub open spec fn occurrences_view(v: Seq<TokenOccurrence>) -> Seq<OccurrenceModel> {
    Seq::new(v.len(), |i: int| v[i]@)
}

/// The occurrence lists of an index, as models.
pub open spec fn lists_view(v: Seq<Vec<TokenOccurrence>>) -> Seq<Seq<OccurrenceModel>> {
    Seq::new(v.len(), |i: int| occurrences_view(v[i]@))
}

/// The tokens of an index, in the order of their first occurrence, each
/// with its occurrences in the order in which they were indexed.
pub struct IndexModel {
    pub tokens: Seq<Seq<char>>,
    pub occurrences: Seq<Seq<OccurrenceModel>>,
}

/// Whether a character belongs to a token: letters, digits, `_` and `-`.
pub open spec fn is_token_char(c: char) -> bool {
    is_alphanumeric_char(c) || c == '_' || c == '-'
}

/// Number of token characters in a row from index `from` on.
pub open spec fn token_run(s: Seq<char>, from: int) -> nat
    decreases s.len() - from,
{
    if from < 0 || from >= s.len() || !is_token_char(s[from]) {
        0
    } else {
        1 + token_run(s, from + 1)
    }
}

/// The tokens of a text from index `i` on: the longest runs of token
/// characters, in order.
pub open spec fn tokens_from(s: Seq<char>, i: int) -> Seq<Seq<char>>
    decreases s.len() - i,
{
    if i < 0 || i >= s.len() {
        Seq::empty()
    } else if !is_token_char(s[i]) {
        tokens_from(s, i + 1)
    } else {
        let end = i + 1 + token_run(s, i + 1);
        seq![s.subrange(i, end)] + if end < s.len() {
            tokens_from(s, end)
        } else {
            Seq::empty()
        }
    }
}

/// The tokens of a text.
pub open spec fn tokens_of(s: Seq<char>) -> Seq<Seq<char>> {
    tokens_from(s, 0)
}

/// The index with one more occurrence of a token.
pub open spec fn with_occurrence(m: IndexModel, token: Seq<char>, occ: OccurrenceModel) -> IndexModel {
    match position_of(m.tokens, token) {
        Some(i) => IndexModel {
            tokens: m.tokens,
            occurrences: m.occurrences.update(i, m.occurrences[i].push(occ)),
        },
        None => IndexModel {
            tokens: m.tokens.push(token),
            occurrences: m.occurrences.push(seq![occ]),
        },
    }
}

/// The index with the tokens from index `k` on of a field added, each in
/// lower case and with its position.
pub open spec fn with_tokens(
    m: IndexModel,
    tokens: Seq<Seq<char>>,
    k: int,
    id: HelpId,
    field: MatchedField,
    text: Seq<char>,
) -> IndexModel
    decreases tokens.len() - k,
{
    if k < 0 || k >= tokens.len() {
        m
    } else {
        with_tokens(
            with_occurrence(
                m,
                lowercase_of(tokens[k]),
                OccurrenceModel { id, field, position: (k % 65536) as u16, text },
            ),
            tokens,
            k + 1,
            id,
            field,
            text,
        )
    }
}

/// The index with the text of a field added.
pub open spec fn with_text(m: IndexModel, text: Seq<char>, id: HelpId, field: MatchedField) -> IndexModel {
    with_tokens(m, tokens_of(text), 0, id, field, text)
}

/// The index with the key bindings from index `k` on added: of each the
/// action, then the key.
pub open spec fn with_keybindings(m: IndexModel, bindings: Seq<Keybinding>, k: int, id: HelpId) -> IndexModel
    decreases bindings.len() - k,
{
    if k < 0 || k >= bindings.len() {
        m
    } else {
        with_keybindings(
            with_text(
                with_text(m, bindings[k].action@, id, MatchedField::KeybindingAction),
                bindings[k].key@,
                id,
                MatchedField::KeybindingKey,
            ),
            bindings,
            k + 1,
            id,
        )
    }
}

/// The index with an entry added: short description, long description
/// where there is one, key bindings.
pub open spec fn with_content(m: IndexModel, id: HelpId, content: HelpContent) -> IndexModel {
    let m1 = with_text(m, content.short@, id, MatchedField::Short);
    let m2 = match content.long {
        Some(long) => with_text(m1, long@, id, MatchedField::Long),
        None => m1,
    };
    with_keybindings(m2, content.keybindings@, 0, id)
}

/// The index with the entries from index `k` on added.
pub open spec fn with_entries(
    m: IndexModel,
    ids: Seq<HelpId>,
    contents: Seq<HelpContent>,
    k: int,
) -> IndexModel
    decreases ids.len() - k,
{
    if k < 0 || k >= ids.len() {
        m
    } else {
        with_entries(with_content(m, ids[k], contents[k]), ids, contents, k + 1)
    }
}

/// The smallest of three integers.
pub open spec fn min3(a: int, b: int, c: int) -> int {
    if a <= b && a <= c {
        a
    } else if b <= c {
        b
    } else {
        c
    }
}

/// The edit distance between the first `i` characters of `a` and the
/// first `j` characters of `b`: the least number of insertions, deletions
/// and replacements of a character that turn one into the other.
pub open spec fn edit_distance(a: Seq<char>, b: Seq<char>, i: int, j: int) -> int
    decreases i + j,
{
    if i <= 0 {
        if j <= 0 {
            0
        } else {
            j
        }
    } else if j <= 0 {
        i
    } else {
        min3(
            edit_distance(a, b, i - 1, j) + 1,
            edit_distance(a, b, i, j - 1) + 1,
            edit_distance(a, b, i - 1, j - 1) + if a[i - 1] == b[j - 1] {
                0int
            } else {
                1int
            },
        )
    }
}

/// The edit distance between two texts.
pub open spec fn levenshtein(a: Seq<char>, b: Seq<char>) -> int {
    edit_distance(a, b, a.len() as int, b.len() as int)
}

/// The edit distance lies between the difference of the lengths and their
/// sum.
pub proof fn lemma_distance_bounds(a: Seq<char>, b: Seq<char>, i: int, j: int)
    requires
        0 <= i,
        0 <= j,
    ensures
        edit_distance(a, b, i, j) >= i - j,
        edit_distance(a, b, i, j) >= j - i,
        edit_distance(a, b, i, j) <= i + j,
    decreases i + j,
{
    if i > 0 && j > 0 {
        lemma_distance_bounds(a, b, i - 1, j);
        lemma_distance_bounds(a, b, i, j - 1);
        lemma_distance_bounds(a, b, i - 1, j - 1);
    }
}

/// Where every distance of row `i` is at least `low`, so is every distance
/// of the next row.
pub proof fn lemma_next_row_bound(a: Seq<char>, b: Seq<char>, i: int, n: int, low: int, j: int)
    requires
        0 <= i,
        0 <= j <= n,
        forall|k: int| 0 <= k <= n ==> edit_distance(a, b, i, k) >= low,
    ensures
        edit_distance(a, b, i + 1, j) >= low,
    decreases j,
{
    if j > 0 {
        lemma_next_row_bound(a, b, i, n, low, j - 1);
        assert(edit_distance(a, b, i, j) >= low);
        assert(edit_distance(a, b, i, j - 1) >= low);
    } else {
        assert(edit_distance(a, b, i, 0) >= low);
    }
}

/// Where every distance of row `i` is at least `low`, so is every distance
/// of every later row.
pub proof fn lemma_later_rows_bound(a: Seq<char>, b: Seq<char>, i: int, m: int, n: int, low: int)
    requires
        0 <= i <= m,
        0 <= n,
        forall|k: int| 0 <= k <= n ==> edit_distance(a, b, i, k) >= low,
    ensures
        forall|k: int| 0 <= k <= n ==> edit_distance(a, b, m, k) >= low,
    decreases m - i,
{
    if i < m {
        let next = i + 1;
        assert forall|k: int| 0 <= k <= n implies edit_distance(a, b, next, k) >= low by {
            lemma_next_row_bound(a, b, i, n, low, k);
        }
        lemma_later_rows_bound(a, b, next, m, n, low);
    }
}

/// The index of help content.
#[derive(Debug)]
pub struct HelpIndex {
    inverted: StrMap<Vec<TokenOccurrence>>,
    all_ids: Vec<HelpId>,
}

impl View for HelpIndex {
    type V = IndexModel;

    /// The tokens with their occurrences.
    closed spec fn view(&self) -> IndexModel {
        map_model(&self.inverted)
    }
}

/// The tokens and occurrences that a map holds.
pub open spec fn map_model(map: &StrMap<Vec<TokenOccurrence>>) -> IndexModel {
    IndexModel { tokens: map.spec_keys(), occurrences: lists_view(map.spec_vals()) }
}

/// The index without tokens.
pub open spec fn empty_index() -> IndexModel {
    IndexModel { tokens: Seq::empty(), occurrences: Seq::empty() }
}

impl HelpIndex {
    /// The entries that were indexed.
    pub closed spec fn spec_ids(&self) -> Seq<HelpId> {
        self.all_ids@
    }

    /// The map of tokens is well formed.
    pub closed spec fn wf(&self) -> bool {
        self.inverted.wf()
    }

    /// The tokens of a text, in order.
    pub fn tokenize(text: &str) -> (tokens: Vec<String>)
        ensures
            strings_view(tokens@) == tokens_of(text@),
    {
        let chars = chars_of(text);
        let n = chars.len();
        let mut tokens: Vec<String> = Vec::new();
        let mut i: usize = 0;
        assert(strings_view(tokens@) + tokens_from(chars@, 0) =~= tokens_of(text@));
        while i < n
            invariant
                n == chars@.len(),
                chars@ == text@,
                0 <= i <= n,
                strings_view(tokens@) + tokens_from(chars@, i as int) == tokens_of(text@),
            decreases n - i,
        {
            let c = chars[i];
            if !(c.is_alphanumeric() || c == '_' || c == '-') {
                i += 1;
            } else {
                let mut end: usize = i + 1;
                while end < n && (chars[end].is_alphanumeric() || chars[end] == '_' || chars[end]
                    == '-')
                    invariant
                        n == chars@.len(),
                        i + 1 <= end <= n,
                        i + 1 + token_run(chars@, i + 1) == end + token_run(chars@, end as int),
                    decreases n - end,
                {
                    end += 1;
                }
                let token = string_from_chars(&chars, i, end);
                let ghost before = strings_view(tokens@);
                tokens.push(token);
                proof {
                    assert(strings_view(tokens@) =~= before.push(chars@.subrange(i as int, end as int)));
                    assert(strings_view(tokens@) + tokens_from(chars@, end as int) =~= before + (
                    seq![chars@.subrange(i as int, end as int)] + tokens_from(chars@, end as int)));
                }
                i = end;
            }
        }
        proof {
            assert(strings_view(tokens@) + Seq::<Seq<char>>::empty() =~= strings_view(tokens@));
        }
        tokens
    }

    /// The edit distance between `a` and `b` where it is at most `max`, else
    /// `None`. The texts together must have fewer characters than the largest
    /// `usize`.
    pub fn levenshtein_bounded(a: &str, b: &str, max: usize) -> (r: Option<usize>)
        requires
            a@.len() + b@.len() < usize::MAX,
        ensures
            r == if levenshtein(a@, b@) <= max {
                Some(levenshtein(a@, b@) as usize)
            } else {
                None
            },
    {
        let a_chars = chars_of(a);
        let b_chars = chars_of(b);
        let m = a_chars.len();
        let n = b_chars.len();
        let ghost sa = a@;
        let ghost sb = b@;
        proof {
            lemma_distance_bounds(sa, sb, m as int, n as int);
        }
        let diff = if m >= n {
            m - n
        } else {
            n - m
        };
        if diff > max {
            return None;
        }
        if m == 0 {
            return if n <= max {
                Some(n)
            } else {
                None
            };
        }
        if n == 0 {
            return if m <= max {
                Some(m)
            } else {
                None
            };
        }
        let mut prev: Vec<usize> = Vec::new();
        let mut j: usize = 0;
        while j <= n
            invariant
                0 <= j <= n + 1,
                n < usize::MAX,
                prev@.len() == j,
                forall|k: int| 0 <= k < j ==> prev@[k] == edit_distance(sa, sb, 0, k),
            decreases n + 1 - j,
        {
            prev.push(j);
            j += 1;
        }
        let mut i: usize = 1;
        while i <= m
            invariant
                sa == a@,
                sb == b@,
                a_chars@ == sa,
                b_chars@ == sb,
                m == sa.len(),
                n == sb.len(),
                m + n < usize::MAX,
                1 <= i <= m + 1,
                prev@.len() == n + 1,
                forall|k: int| 0 <= k <= n ==> prev@[k] == edit_distance(sa, sb, i - 1, k),
            decreases m + 1 - i,
        {
            let mut curr: Vec<usize> = Vec::new();
            curr.push(i);
            let mut min_in_row = i;
            let mut j: usize = 1;
            while j <= n
                invariant
                    a_chars@ == sa,
                    b_chars@ == sb,
                    m == sa.len(),
                    n == sb.len(),
                    m + n < usize::MAX,
                    1 <= i <= m,
                    1 <= j <= n + 1,
                    prev@.len() == n + 1,
                    curr@.len() == j,
                    forall|k: int| 0 <= k <= n ==> prev@[k] == edit_distance(sa, sb, i - 1, k),
                    forall|k: int| 0 <= k < j ==> curr@[k] == edit_distance(sa, sb, i as int, k),
                    forall|k: int| 0 <= k < j ==> min_in_row <= curr@[k],
                decreases n + 1 - j,
            {
                proof {
                    lemma_distance_bounds(sa, sb, i - 1, j as int);
                    lemma_distance_bounds(sa, sb, i as int, j - 1);
                    lemma_distance_bounds(sa, sb, i - 1, j - 1);
                }
                let cost: usize = if a_chars[i - 1] == b_chars[j - 1] {
                    0
                } else {
                    1
                };
                let del = prev[j] + 1;
                let ins = curr[j - 1] + 1;
                let sub = prev[j - 1] + cost;
                let best = if del <= ins && del <= sub {
                    del
                } else if ins <= sub {
                    ins
                } else {
                    sub
                };
                curr.push(best);
                if best < min_in_row {
                    min_in_row = best;
                }
                j += 1;
            }
            if min_in_row > max {
                proof {
                    assert forall|k: int| 0 <= k <= n implies edit_distance(sa, sb, i as int, k)
                        >= min_in_row by {
                        assert(curr@[k] == edit_distance(sa, sb, i as int, k));
                    }
                    lemma_later_rows_bound(sa, sb, i as int, m as int, n as int, min_in_row as int);
                }
                return None;
            }
            prev = curr;
            i += 1;
        }
        if prev[n] <= max {
            Some(prev[n])
        } else {
            None
        }
    }

    /// Adds an occurrence of a token.
    fn add_occurrence(inverted: &mut StrMap<Vec<TokenOccurrence>>, token: String, occ: TokenOccurrence)
        requires
            old(inverted).wf(),
        ensures
            final(inverted).wf(),
            map_model(final(inverted)) == with_occurrence(map_model(old(inverted)), token@, occ@),
    {
        proof {
            inverted.lemma_wf();
        }
        let ghost before = map_model(inverted);
        match inverted.position(token.as_str()) {
            Some(i) => {
                let ghost old_vals = inverted.spec_vals();
                let list = inverted.value_at_mut(i);
                list.push(occ);
                proof {
                    let new_vals = inverted.spec_vals();
                    let expected = before.occurrences.update(
                        i as int,
                        before.occurrences[i as int].push(occ@),
                    );
                    assert(new_vals[i as int]@ == old_vals[i as int]@.push(occ));
                    assert forall|idx: int| 0 <= idx < new_vals.len() implies lists_view(
                        new_vals,
                    )[idx] == expected[idx] by {
                        if idx == i {
                            assert(occurrences_view(new_vals[idx]@) =~= occurrences_view(
                                old_vals[idx]@,
                            ).push(occ@));
                        } else {
                            assert(new_vals[idx] == old_vals[idx]);
                        }
                    }
                    assert(map_model(inverted).occurrences =~= expected);
                }
            },
            None => {
                let mut list: Vec<TokenOccurrence> = Vec::new();
                list.push(occ);
                let ghost old_vals = inverted.spec_vals();
                assert(occurrences_view(list@) =~= seq![occ@]);
                inverted.insert(token, list);
                proof {
                    let new_vals = inverted.spec_vals();
                    let expected = before.occurrences.push(seq![occ@]);
                    assert forall|idx: int| 0 <= idx < new_vals.len() implies lists_view(
                        new_vals,
                    )[idx] == expected[idx] by {
                        if idx < old_vals.len() {
                            assert(new_vals[idx] == old_vals[idx]);
                        }
                    }
                    assert(map_model(inverted).occurrences =~= expected);
                }
            },
        }
    }

    /// Adds the tokens of the text of a field.
    pub fn index_text(
        inverted: &mut StrMap<Vec<TokenOccurrence>>,
        text: &str,
        id: HelpId,
        field: MatchedField,
    )
        requires
            old(inverted).wf(),
        ensures
            final(inverted).wf(),
            map_model(final(inverted)) == with_text(map_model(old(inverted)), text@, id, field),
    {
        let tokens = Self::tokenize(text);
        let ghost toks = tokens_of(text@);
        let ghost goal = with_text(map_model(inverted), text@, id, field);
        let n = tokens.len();
        let mut k: usize = 0;
        while k < n
            invariant
                inverted.wf(),
                n == tokens@.len(),
                strings_view(tokens@) == toks,
                0 <= k <= n,
                goal == with_tokens(map_model(inverted), toks, k as int, id, field, text@),
            decreases n - k,
        {
            let token = tokens[k].as_str();
            assert(toks[k as int] == token@);
            let lower = to_lowercase(token);
            let occ = TokenOccurrence {
                id,
                field,
                position: (k % 65536) as u16,
                field_text: text.to_owned(),
            };
            Self::add_occurrence(inverted, lower, occ);
            k += 1;
        }
    }

    /// Adds the tokens of every field of an entry.
    fn index_content(inverted: &mut StrMap<Vec<TokenOccurrence>>, id: HelpId, content: &HelpContent)
        requires
            old(inverted).wf(),
        ensures
            final(inverted).wf(),
            map_model(final(inverted)) == with_content(map_model(old(inverted)), id, *content),
    {
        Self::index_text(inverted, content.short.as_str(), id, MatchedField::Short);
        match &content.long {
            Some(long) => {
                Self::index_text(inverted, long.as_str(), id, MatchedField::Long);
            },
            None => {},
        }
        let ghost goal = with_content(map_model(old(inverted)), id, *content);
        let n = content.keybindings.len();
        let mut k: usize = 0;
        while k < n
            invariant
                inverted.wf(),
                n == content.keybindings@.len(),
                0 <= k <= n,
                goal == with_keybindings(map_model(inverted), content.keybindings@, k as int, id),
            decreases n - k,
        {
            let kb = &content.keybindings[k];
            Self::index_text(inverted, kb.action.as_str(), id, MatchedField::KeybindingAction);
            Self::index_text(inverted, kb.key.as_str(), id, MatchedField::KeybindingKey);
            k += 1;
        }
    }

    /// The index of every entry of a registry, the entries taken in the
    /// order of the registry.
    pub fn build(registry: &HelpRegistry) -> (index: HelpIndex)
        requires
            registry.wf(),
        ensures
            index.wf(),
            index.spec_ids() == registry.spec_ids(),
            index@ == with_entries(
                empty_index(),
                registry.spec_ids(),
                registry.spec_contents(),
                0,
            ),
    {
        proof {
            registry.lemma_wf();
        }
        let mut inverted: StrMap<Vec<TokenOccurrence>> = StrMap::new();
        let mut all_ids: Vec<HelpId> = Vec::new();
        let ghost goal = with_entries(
            empty_index(),
            registry.spec_ids(),
            registry.spec_contents(),
            0,
        );
        proof {
            assert(map_model(&inverted).occurrences =~= empty_index().occurrences);
        }
        let n = registry.len();
        let mut k: usize = 0;
        while k < n
            invariant
                registry.wf(),
                inverted.wf(),
                n == registry.spec_ids().len(),
                n == registry.spec_contents().len(),
                0 <= k <= n,
                all_ids@ == registry.spec_ids().take(k as int),
                goal == with_entries(
                    map_model(&inverted),
                    registry.spec_ids(),
                    registry.spec_contents(),
                    k as int,
                ),
            decreases n - k,
        {
            let id = registry.id_at(k);
            let content = registry.content_at(k);
            all_ids.push(id);
            Self::index_content(&mut inverted, id, content);
            k += 1;
            proof {
                assert(all_ids@ =~= registry.spec_ids().take(k as int));
            }
        }
        proof {
            assert(registry.spec_ids().take(n as int) =~= registry.spec_ids());
        }
        HelpIndex { inverted, all_ids }
    }

    /// Number of entries indexed.
    pub fn len(&self) -> (n: usize)
        ensures
            n == self.spec_ids().len(),
    {
        self.all_ids.len()
    }

    /// Whether no entry was indexed.
    pub fn is_empty(&self) -> (r: bool)
        ensures
            r == (self.spec_ids().len() == 0),
    {
        self.all_ids.len() == 0
    }

    /// The entries indexed, in the order of the registry.
    pub fn ids(&self) -> (r: Vec<HelpId>)
        ensures
            r@ == self.spec_ids(),
    {
        let n = self.all_ids.len();
        let mut out: Vec<HelpId> = Vec::new();
        let mut i: usize = 0;
        while i < n
            invariant
                n == self.all_ids@.len(),
                0 <= i <= n,
                out@ == self.all_ids@.take(i as int),
            decreases n - i,
        {
            out.push(self.all_ids[i]);
            i += 1;
            assert(out@ =~= self.all_ids@.take(i as int));
        }
        assert(self.all_ids@.take(n as int) =~= self.all_ids@);
        out
    }

    /// Number of distinct tokens.
    pub fn token_count(&self) -> (n: usize)
        requires
            self.wf(),
        ensures
            n == self@.tokens.len(),
    {
        self.inverted.len()
    }

    /// The token at index `i`.
    pub fn token_at(&self, i: usize) -> (t: &str)
        requires
            self.wf(),
            i < self@.tokens.len(),
        ensures
            t@ == self@.tokens[i as int],
    {
        self.inverted.key_at(i)
    }

    /// The occurrences of the token at index `i`.
    pub fn occurrences_at(&self, i: usize) -> (r: &Vec<TokenOccurrence>)
        requires
            self.wf(),
            i < self@.tokens.len(),
        ensures
            occurrences_view(r@) == self@.occurrences[i as int],
    {
        proof {
            self.inverted.lemma_wf();
        }
        self.inverted.value_at(i)
    }

    /// The occurrences of a token, which is taken as it is: the tokens of
    /// the index are in lower case.
    pub fn occurrences(&self, token: &str) -> (r: Option<&Vec<TokenOccurrence>>)
        requires
            self.wf(),
        ensures
            match r {
                Some(list) => position_of(self@.tokens, token@) matches Some(i)
                    && occurrences_view(list@) == self@.occurrences[i],
                None => position_of(self@.tokens, token@).is_none(),
            },
    {
        proof {
            self.inverted.lemma_wf();
        }
        match self.inverted.position(token) {
            Some(i) => Some(self.inverted.value_at(i)),
            None => None,
        }
    }
}

} // verus!
