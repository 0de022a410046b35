//! The registry of help content, by help id.

use vstd::prelude::*;

verus! {

/// Identifies an entry of help content.
#[derive(Debug, Clone, Copy, PartialEq, Eq, Hash, Structural)]
pub struct HelpId(pub u64);

/// A key combination and what it does.
#[derive(Debug, Clone)]
pub struct Keybinding {
    pub key: String,
    pub action: String,
}

impl Keybinding {
    /// A key combination and what it does.
    pub fn new(key: &str, action: &str) -> (k: Keybinding)
        ensures
            k.key@ == key@,
            k.action@ == action@,
    {
        Keybinding { key: key.to_owned(), action: action.to_owned() }
    }
}

/// The help for one thing: a short and a long description, key bindings,
/// and related entries.
#[derive(Debug, Clone)]
pub struct HelpContent {
    pub short: String,
    pub long: Option<String>,
    pub keybindings: Vec<Keybinding>,
    pub see_also: Vec<HelpId>,
}

impl HelpContent {
    /// Help that is a short description only.
    pub fn short(text: &str) -> (c: HelpContent)
        ensures
            c.short@ == text@,
            c.long.is_none(),
            c.keybindings@.len() == 0,
            c.see_also@.len() == 0,
    {
        HelpContent {
            short: text.to_owned(),
            long: None,
            keybindings: Vec::new(),
            see_also: Vec::new(),
        }
    }
}

/// The index among the first `n` ids at which `id` stands.
pub open spec fn find_id(ids: Seq<HelpId>, id: HelpId, n: int) -> Option<int>
    decreases n,
{
    if n <= 0 {
        None
    } else {
        match find_id(ids, id, n - 1) {
            Some(i) => Some(i),
            None => if ids[n - 1] == id {
                Some(n - 1)
            } else {
                None
            },
        }
    }
}

/// What a search result says of the ids searched.
pub proof fn lemma_find_id(ids: Seq<HelpId>, id: HelpId, n: int)
    requires
        0 <= n <= ids.len(),
    ensures
        match find_id(ids, id, n) {
            Some(i) => 0 <= i < n && ids[i] == id,
            None => forall|j: int| 0 <= j < n ==> ids[j] != id,
        },
    decreases n,
{
    if n > 0 {
        lemma_find_id(ids, id, n - 1);
    }
}

/// Help content by id, in the order of first registration.
#[derive(Debug, Clone)]
pub struct HelpRegistry {
    ids: Vec<HelpId>,
    contents: Vec<HelpContent>,
}

impl HelpRegistry {
    /// The ids, in the order of first registration.
    pub closed spec fn spec_ids(&self) -> Seq<HelpId> {
        self.ids@
    }

    /// The content of each id, at the index of the id.
    pub closed spec fn spec_contents(&self) -> Seq<HelpContent> {
        self.contents@
    }

    /// Every id has content and no id occurs twice.
    pub closed spec fn wf(&self) -> bool {
        &&& self.ids@.len() == self.contents@.len()
        &&& forall|i: int, j: int| 0 <= i < j < self.ids@.len() ==> self.ids@[i] != self.ids@[j]
    }

    /// The content registered under `id`.
    pub open spec fn spec_peek(&self, id: HelpId) -> Option<HelpContent> {
        match find_id(self.spec_ids(), id, self.spec_ids().len() as int) {
            Some(i) => Some(self.spec_contents()[i]),
            None => None,
        }
    }

    /// What well-formedness says of ids and contents.
    pub proof fn lemma_wf(&self)
        requires
            self.wf(),
        ensures
            self.spec_ids().len() == self.spec_contents().len(),
    {
    }

    /// The empty registry.
    pub fn new() -> (r: HelpRegistry)
        ensures
            r.wf(),
            r.spec_ids() == Seq::<HelpId>::empty(),
            r.spec_contents() == Seq::<HelpContent>::empty(),
    {
        HelpRegistry { ids: Vec::new(), contents: Vec::new() }
    }

    /// Number of entries.
    pub fn len(&self) -> (n: usize)
        ensures
            n == self.spec_ids().len(),
    {
        self.ids.len()
    }

    /// Whether the registry has no entry.
    pub fn is_empty(&self) -> (r: bool)
        ensures
            r == (self.spec_ids().len() == 0),
    {
        self.ids.len() == 0
    }

    /// The index of `id`.
    fn position(&self, id: HelpId) -> (r: Option<usize>)
        ensures
            match r {
                Some(i) => find_id(self.spec_ids(), id, self.spec_ids().len() as int) == Some(
                    i as int,
                ) && i < self.spec_ids().len(),
                None => find_id(self.spec_ids(), id, self.spec_ids().len() as int).is_none(),
            },
    {
        let n = self.ids.len();
        let mut i: usize = 0;
        while i < n
            invariant
                n == self.ids@.len(),
                0 <= i <= n,
                find_id(self.ids@, id, i as int).is_none(),
            decreases n - i,
        {
            if self.ids[i] == id {
                proof {
                    lemma_find_id_stays(self.ids@, id, i + 1, n as int);
                }
                return Some(i);
            }
            i += 1;
        }
        None
    }

    /// Registers content under `id`, in place of any it had.
    pub fn register(&mut self, id: HelpId, content: HelpContent)
        requires
            old(self).wf(),
        ensures
            final(self).wf(),
            match find_id(old(self).spec_ids(), id, old(self).spec_ids().len() as int) {
                Some(i) => {
                    &&& final(self).spec_ids() == old(self).spec_ids()
                    &&& final(self).spec_contents() == old(self).spec_contents().update(
                        i,
                        content,
                    )
                },
                None => {
                    &&& final(self).spec_ids() == old(self).spec_ids().push(id)
                    &&& final(self).spec_contents() == old(self).spec_contents().push(content)
                },
            },
    {
        match self.position(id) {
            Some(i) => {
                self.contents[i] = content;
            },
            None => {
                proof {
                    lemma_find_id(self.ids@, id, self.ids@.len() as int);
                }
                self.ids.push(id);
                self.contents.push(content);
            },
        }
    }

    /// The content registered under `id`.
    pub fn peek(&self, id: HelpId) -> (r: Option<&HelpContent>)
        requires
            self.wf(),
        ensures
            match r {
                Some(c) => self.spec_peek(id) == Some(*c),
                None => self.spec_peek(id).is_none(),
            },
    {
        match self.position(id) {
            Some(i) => Some(&self.contents[i]),
            None => None,
        }
    }

    /// The ids, in the order of first registration.
    pub fn ids(&self) -> (r: Vec<HelpId>)
        ensures
            r@ == self.spec_ids(),
    {
        let n = self.ids.len();
        let mut out: Vec<HelpId> = Vec::new();
        let mut i: usize = 0;
        while i < n
            invariant
                n == self.ids@.len(),
                0 <= i <= n,
                out@ == self.ids@.take(i as int),
            decreases n - i,
        {
            out.push(self.ids[i]);
            i += 1;
            assert(out@ =~= self.ids@.take(i as int));
        }
        assert(self.ids@.take(n as int) =~= self.ids@);
        out
    }

    /// The content at index `i`.
    pub fn content_at(&self, i: usize) -> (c: &HelpContent)
        requires
            self.wf(),
            i < self.spec_ids().len(),
        ensures
            *c == self.spec_contents()[i as int],
    {
        &self.contents[i]
    }

    /// The id at index `i`.
    pub fn id_at(&self, i: usize) -> (id: HelpId)
        requires
            i < self.spec_ids().len(),
        ensures
            id == self.spec_ids()[i as int],
    {
        self.ids[i]
    }
}

/// Once an id is found, it stays found however many more ids are looked at.
pub proof fn lemma_find_id_stays(ids: Seq<HelpId>, id: HelpId, n: int, m: int)
    requires
        0 <= n <= m,
        find_id(ids, id, n).is_some(),
    ensures
        find_id(ids, id, m) == find_id(ids, id, n),
    decreases m - n,
{
    if n < m {
        lemma_find_id_stays(ids, id, n, m - 1);
    }
}

impl Default for HelpRegistry {
    fn default() -> (r: HelpRegistry)
        ensures
            r.wf(),
            r.spec_ids() == Seq::<HelpId>::empty(),
    {
        HelpRegistry::new()
    }
}

} // verus!
