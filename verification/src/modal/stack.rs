//! The modal stack: modals one above the other, the topmost taking the
//! events, what the stack hands back when a modal closes, and the focus
//! groups that go with the modals.

use crate::event::{Event, HitId, KeyCode, KeyEventKind};
use crate::frame::Frame;
use crate::geometry::{Rect, Size};
use crate::modal::container::ModalSizeConstraints;
use crate::widgets::Widget;
use vstd::prelude::*;

verus! {

/// Identifies a modal of the stack.
#[derive(Debug, Clone, Copy, PartialEq, Eq, Hash, Structural)]
pub struct ModalId(pub u64);

impl ModalId {
    /// The id with the given number.
    pub fn from_raw(id: u64) -> (m: ModalId)
        ensures
            m.0 == id,
    {
        ModalId(id)
    }

    /// The number of the id.
    pub fn id(self) -> (n: u64)
        ensures
            n == self.0,
    {
        self.0
    }
}

/// What a closed modal gave as its result.
#[derive(Debug, Clone)]
pub enum ModalResultData {
    /// The modal was dismissed.
    Dismissed,
    /// The modal was confirmed.
    Confirmed,
    /// The modal gave a value of its own.
    Custom(String),
}

/// The result of a modal that was closed.
#[derive(Debug, Clone)]
pub struct ModalResult {
    /// The modal that was closed.
    pub id: ModalId,
    /// What it gave, if anything.
    pub data: Option<ModalResultData>,
    /// The focus group that belonged to it, if any.
    pub focus_group_id: Option<u32>,
}

/// A source of modal ids: each id is given once, in increasing order.
#[derive(Debug, Clone, Copy, PartialEq, Eq, Structural)]
pub struct ModalIdSource {
    next: u64,
}

impl ModalIdSource {
    /// The number of the next id.
    pub closed spec fn spec_next(&self) -> u64 {
        self.next
    }

    /// A source whose first id is 1.
    pub fn new() -> (s: ModalIdSource)
        ensures
            s.spec_next() == 1,
    {
        ModalIdSource { next: 1 }
    }

    /// The next id. After the largest number the source starts over at 0.
    pub fn next_id(&mut self) -> (id: ModalId)
        ensures
            id.0 == old(self).spec_next(),
            final(self).spec_next() == if old(self).spec_next() == u64::MAX {
                0
            } else {
                old(self).spec_next() + 1
            },
    {
        let id = ModalId(self.next);
        self.next = self.next.wrapping_add(1);
        id
    }
}

/// Something that the modal stack can hold.
pub trait StackModal {
    /// Draws the modal into `area`. The frame keeps its extent, clip stack
    /// and degradation level.
    fn render_content(&self, area: Rect, frame: &mut Frame)
        requires
            old(frame).wf(),
        ensures
            final(frame).wf(),
            final(frame).same_shape(old(frame)),
    ;

    /// Takes an event; gives a result where the modal wants to close.
    fn handle_event(&mut self, event: &Event, hit_id: HitId) -> Option<ModalResultData>;

    /// The size that the modal asks for.
    fn size_constraints(&self) -> ModalSizeConstraints;

    /// Whether escape closes the modal.
    fn close_on_escape(&self) -> bool {
        true
    }

    /// Whether a click on the backdrop closes the modal.
    fn close_on_backdrop(&self) -> bool {
        true
    }

    /// Whether assistive technology is to treat the modal as one.
    fn aria_modal(&self) -> bool {
        true
    }

    /// The widgets of the modal that can take the focus, where it tells.
    fn focusable_ids(&self) -> Option<Vec<u64>> {
        None
    }
}

/// A widget as a modal of the stack.
pub struct WidgetModalEntry<W> {
    pub widget: W,
    pub size: ModalSizeConstraints,
    pub close_on_escape: bool,
    pub close_on_backdrop: bool,
    pub aria_modal: bool,
    pub focusable_ids: Option<Vec<u64>>,
}

impl<W> WidgetModalEntry<W> {
    /// A modal of 30 to 60 columns and 10 to 20 rows that closes on escape
    /// and on a click on the backdrop.
    pub fn new(widget: W) -> (e: WidgetModalEntry<W>)
        ensures
            e.widget == widget,
            e.size == (ModalSizeConstraints {
                min_width: Some(30),
                max_width: Some(60),
                min_height: Some(10),
                max_height: Some(20),
            }),
            e.close_on_escape,
            e.close_on_backdrop,
            e.aria_modal,
            e.focusable_ids.is_none(),
    {
        WidgetModalEntry {
            widget,
            size: ModalSizeConstraints::new().min_width(30).max_width(60).min_height(
                10,
            ).max_height(20),
            close_on_escape: true,
            close_on_backdrop: true,
            aria_modal: true,
            focusable_ids: None,
        }
    }

    /// The entry with other size constraints.
    pub fn size(self, size: ModalSizeConstraints) -> (e: WidgetModalEntry<W>)
        ensures
            e == (WidgetModalEntry { size, ..self }),
    {
        let mut e = self;
        e.size = size;
        e
    }

    /// The entry with closing on escape on or off.
    pub fn close_on_escape(self, close: bool) -> (e: WidgetModalEntry<W>)
        ensures
            e == (WidgetModalEntry { close_on_escape: close, ..self }),
    {
        let mut e = self;
        e.close_on_escape = close;
        e
    }

    /// The entry with closing on a backdrop click on or off.
    pub fn close_on_backdrop(self, close: bool) -> (e: WidgetModalEntry<W>)
        ensures
            e == (WidgetModalEntry { close_on_backdrop: close, ..self }),
    {
        let mut e = self;
        e.close_on_backdrop = close;
        e
    }

    /// The entry with the modal semantics for assistive technology on or
    /// off.
    pub fn with_aria_modal(self, aria_modal: bool) -> (e: WidgetModalEntry<W>)
        ensures
            e == (WidgetModalEntry { aria_modal, ..self }),
    {
        let mut e = self;
        e.aria_modal = aria_modal;
        e
    }

    /// The entry with the widgets that can take the focus.
    pub fn with_focusable_ids(self, ids: Vec<u64>) -> (e: WidgetModalEntry<W>)
        ensures
            e == (WidgetModalEntry { focusable_ids: Some(ids), ..self }),
    {
        let mut e = self;
        e.focusable_ids = Some(ids);
        e
    }

    /// What the entry does on an event: a press of escape dismisses it
    /// where it closes on escape.
    pub fn reaction(&self, event: &Event) -> (r: Option<ModalResultData>)
        ensures
            r.is_some() == (self.close_on_escape && event.is_press_of(KeyCode::Escape)),
            r.is_some() ==> r.unwrap() is Dismissed,
    {
        match event {
            Event::Key(key) => {
                if self.close_on_escape && key.code == KeyCode::Escape && key.kind
                    == KeyEventKind::Press {
                    return Some(ModalResultData::Dismissed);
                }
            },
            _ => {},
        }
        None
    }
}

/// The ids as a sequence, where there are any.
pub open spec fn ids_view(ids: Option<Vec<u64>>) -> Option<Seq<u64>> {
    match ids {
        Some(v) => Some(v@),
        None => None,
    }
}

impl<W: Widget> StackModal for WidgetModalEntry<W> {
    /// Draws the widget into the area: the frame is taken from what it was
    /// to what it is by a call of the widget's `render` for that area.
    fn render_content(&self, area: Rect, frame: &mut Frame)
        ensures
            exists|t: &mut Frame|
                mut_ref_current(t) == *old(frame) && mut_ref_future(t) == *final(frame)
                    && #[trigger] call_ensures(W::render, (&self.widget, area, t), ()),
    {
        self.widget.render(area, frame);
    }

    /// A press of escape dismisses the entry where it closes on escape.
    /// The entry itself stays as it is.
    fn handle_event(&mut self, event: &Event, hit_id: HitId) -> (r: Option<ModalResultData>)
        ensures
            *final(self) == *old(self),
            r.is_some() == (old(self).close_on_escape && event.is_press_of(KeyCode::Escape)),
            r.is_some() ==> r.unwrap() is Dismissed,
    {
        self.reaction(event)
    }

    /// The size that the entry was given.
    fn size_constraints(&self) -> (r: ModalSizeConstraints)
        ensures
            r == self.size,
    {
        self.size
    }

    fn close_on_escape(&self) -> bool {
        self.close_on_escape
    }

    fn close_on_backdrop(&self) -> bool {
        self.close_on_backdrop
    }

    fn aria_modal(&self) -> bool {
        self.aria_modal
    }

    /// The ids that the entry was given, if any.
    fn focusable_ids(&self) -> (r: Option<Vec<u64>>)
        ensures
            ids_view(r) == ids_view(self.focusable_ids),
    {
        match &self.focusable_ids {
            Some(ids) => {
                let copy = ids.clone();
                assert(copy@ =~= ids@);
                Some(copy)
            },
            None => None,
        }
    }
}

/// A modal on the stack.
pub struct ActiveModal<M> {
    /// What identifies the modal.
    pub id: ModalId,
    /// How far in front the modal is drawn.
    pub z_index: u32,
    /// The modal.
    pub modal: M,
    /// The id under which the modal registers its hit areas.
    pub hit_id: HitId,
    /// The focus group that belongs to the modal, if any.
    pub focus_group_id: Option<u32>,
}

/// The z index of the modal pushed when `next_z` steps were taken, held at
/// the largest `u32`.
pub open spec fn z_index_for(next_z: u32) -> u32 {
    if 1000 + next_z > u32::MAX {
        u32::MAX
    } else {
        (1000 + next_z) as u32
    }
}

/// Index of the first modal among the first `n` with the given id.
pub open spec fn find_modal<M>(modals: Seq<ActiveModal<M>>, id: ModalId, n: int) -> Option<int>
    decreases n,
{
    if n <= 0 {
        None
    } else {
        match find_modal(modals, id, n - 1) {
            Some(i) => Some(i),
            None => if modals[n - 1].id == id {
                Some(n - 1)
            } else {
                None
            },
        }
    }
}

/// The ids of the modals, bottom first.
pub open spec fn ids_of<M>(modals: Seq<ActiveModal<M>>) -> Seq<ModalId> {
    Seq::new(modals.len(), |i: int| modals[i].id)
}

/// What a closed modal gave, where a modal was closed.
pub open spec fn data_of(r: Option<ModalResult>) -> Option<ModalResultData> {
    match r {
        Some(res) => res.data,
        None => None,
    }
}

/// The result that the stack hands back for a modal it removed.
pub open spec fn result_for<M>(m: ActiveModal<M>, r: ModalResult) -> bool {
    r.id == m.id && r.focus_group_id == m.focus_group_id
}

/// What a search result says of the modals searched.
pub proof fn lemma_find_modal<M>(modals: Seq<ActiveModal<M>>, id: ModalId, n: int)
    requires
        0 <= n <= modals.len(),
    ensures
        match find_modal(modals, id, n) {
            Some(i) => 0 <= i < n && modals[i].id == id && forall|j: int|
                0 <= j < i ==> modals[j].id != id,
            None => forall|j: int| 0 <= j < n ==> modals[j].id != id,
        },
    decreases n,
{
    if n > 0 {
        lemma_find_modal(modals, id, n - 1);
    }
}

/// The stack of open modals, bottom first.
pub struct ModalStack<M> {
    modals: Vec<ActiveModal<M>>,
    ids: ModalIdSource,
    next_z: u32,
    next_hit_id: u32,
}

impl<M> View for ModalStack<M> {
    type V = Seq<ActiveModal<M>>;

    /// The modals, bottom first.
    closed spec fn view(&self) -> Seq<ActiveModal<M>> {
        self.modals@
    }
}

impl<M> ModalStack<M> {
    /// The number of the id that the next modal gets.
    pub closed spec fn next_id(&self) -> u64 {
        self.ids.spec_next()
    }

    /// The steps of z index taken so far.
    pub closed spec fn spec_next_z(&self) -> u32 {
        self.next_z
    }

    /// The number of the hit id that the next modal gets.
    pub closed spec fn spec_next_hit_id(&self) -> u32 {
        self.next_hit_id
    }

    /// Whether the ids on the stack rise from bottom to top and lie below
    /// the id that the next modal gets. This holds as long as the ids have
    /// not run out.
    pub open spec fn rising(&self) -> bool {
        &&& forall|i: int, j: int| 0 <= i < j < self@.len() ==> self@[i].id.0 < self@[j].id.0
        &&& forall|i: int| 0 <= i < self@.len() ==> (#[trigger] self@[i]).id.0 < self.next_id()
    }

    /// The empty stack. Ids start at 1, hit ids at 1000.
    pub fn new() -> (s: ModalStack<M>)
        ensures
            s@ == Seq::<ActiveModal<M>>::empty(),
            s.next_id() == 1,
            s.spec_next_z() == 0,
            s.spec_next_hit_id() == 1000,
            s.rising(),
    {
        ModalStack { modals: Vec::new(), ids: ModalIdSource::new(), next_z: 0, next_hit_id: 1000 }
    }

    /// Puts a modal on top and gives its id.
    pub fn push(&mut self, modal: M) -> (id: ModalId)
        ensures
            id.0 == old(self).next_id(),
            final(self)@ == old(self)@.push(
                ActiveModal {
                    id,
                    z_index: z_index_for(old(self).spec_next_z()),
                    modal,
                    hit_id: HitId(old(self).spec_next_hit_id()),
                    focus_group_id: None,
                },
            ),
            old(self).rising() && old(self).next_id() < u64::MAX ==> final(self).rising(),
    {
        self.push_with_focus(modal, None)
    }

    /// Puts a modal with a focus group on top and gives its id. The z
    /// index goes up by 10 with each modal and the hit id by 1, both held at
    /// the largest `u32`.
    pub fn push_with_focus(&mut self, modal: M, focus_group_id: Option<u32>) -> (id: ModalId)
        ensures
            id.0 == old(self).next_id(),
            final(self)@ == old(self)@.push(
                ActiveModal {
                    id,
                    z_index: z_index_for(old(self).spec_next_z()),
                    modal,
                    hit_id: HitId(old(self).spec_next_hit_id()),
                    focus_group_id,
                },
            ),
            final(self).spec_next_z() == if old(self).spec_next_z() + 10 > u32::MAX {
                u32::MAX
            } else {
                (old(self).spec_next_z() + 10) as u32
            },
            final(self).spec_next_hit_id() == if old(self).spec_next_hit_id() == u32::MAX {
                u32::MAX
            } else {
                (old(self).spec_next_hit_id() + 1) as u32
            },
            old(self).rising() && old(self).next_id() < u64::MAX ==> final(self).rising(),
    {
        let id = self.ids.next_id();
        let z_index = self.next_z.saturating_add(1000);
        self.next_z = self.next_z.saturating_add(10);
        let hit_id = HitId::new(self.next_hit_id);
        self.next_hit_id = self.next_hit_id.saturating_add(1);
        self.modals.push(ActiveModal { id, z_index, modal, hit_id, focus_group_id });
        id
    }

    /// Index of the first modal with the given id.
    fn position(&self, id: ModalId) -> (r: Option<usize>)
        ensures
            match r {
                Some(i) => find_modal(self@, id, self@.len() as int) == Some(i as int) && i
                    < self@.len(),
                None => find_modal(self@, id, self@.len() as int).is_none(),
            },
    {
        let n = self.modals.len();
        let mut i: usize = 0;
        while i < n
            invariant
                n == self.modals@.len(),
                0 <= i <= n,
                find_modal(self.modals@, id, i as int).is_none(),
            decreases n - i,
        {
            if self.modals[i].id == id {
                proof {
                    lemma_find_modal_stays(self.modals@, id, i + 1, n as int);
                }
                return Some(i);
            }
            i += 1;
        }
        None
    }

    /// The focus group of the modal with the given id.
    pub fn focus_group_id(&self, modal_id: ModalId) -> (r: Option<u32>)
        ensures
            r == match find_modal(self@, modal_id, self@.len() as int) {
                Some(i) => self@[i].focus_group_id,
                None => None,
            },
    {
        match self.position(modal_id) {
            Some(i) => self.modals[i].focus_group_id,
            None => None,
        }
    }

    /// The focus group of the topmost modal.
    pub fn top_focus_group_id(&self) -> (r: Option<u32>)
        ensures
            r == if self@.len() > 0 {
                self@.last().focus_group_id
            } else {
                None
            },
    {
        let n = self.modals.len();
        if n > 0 {
            self.modals[n - 1].focus_group_id
        } else {
            None
        }
    }

    /// Takes the topmost modal off.
    pub fn pop(&mut self) -> (r: Option<ModalResult>)
        ensures
            match r {
                Some(res) => old(self)@.len() > 0 && result_for(old(self)@.last(), res)
                    && res.data.is_none() && final(self)@ == old(self)@.drop_last(),
                None => old(self)@.len() == 0 && final(self)@ == old(self)@,
            },
            final(self).next_id() == old(self).next_id(),
            old(self).rising() ==> final(self).rising(),
    {
        match self.modals.pop() {
            Some(m) => Some(ModalResult { id: m.id, data: None, focus_group_id: m.focus_group_id }),
            None => None,
        }
    }

    /// Takes the modal with the given id off, wherever it is on the stack.
    pub fn pop_id(&mut self, id: ModalId) -> (r: Option<ModalResult>)
        ensures
            match find_modal(old(self)@, id, old(self)@.len() as int) {
                Some(i) => r.is_some() && result_for(old(self)@[i], r.unwrap())
                    && r.unwrap().data.is_none() && final(self)@ == old(self)@.remove(i),
                None => r.is_none() && final(self)@ == old(self)@,
            },
            final(self).next_id() == old(self).next_id(),
            old(self).rising() ==> final(self).rising(),
    {
        match self.position(id) {
            Some(idx) => {
                let modal = self.modals.remove(idx);
                Some(
                    ModalResult { id: modal.id, data: None, focus_group_id: modal.focus_group_id },
                )
            },
            None => None,
        }
    }

    /// Takes every modal off, the topmost first.
    pub fn pop_all(&mut self) -> (results: Vec<ModalResult>)
        ensures
            final(self)@.len() == 0,
            results@.len() == old(self)@.len(),
            forall|k: int|
                0 <= k < results@.len() ==> result_for(
                    old(self)@[old(self)@.len() - 1 - k],
                    #[trigger] results@[k],
                ) && results@[k].data.is_none(),
            final(self).next_id() == old(self).next_id(),
    {
        let mut results: Vec<ModalResult> = Vec::new();
        let ghost before = self@;
        while self.modals.len() > 0
            invariant
                self.next_id() == old(self).next_id(),
                before == old(self)@,
                self@.len() + results@.len() == before.len(),
                self@ == before.take(self@.len() as int),
                forall|k: int|
                    0 <= k < results@.len() ==> result_for(
                        before[before.len() - 1 - k],
                        #[trigger] results@[k],
                    ) && results@[k].data.is_none(),
            decreases self.modals@.len(),
        {
            match self.pop() {
                Some(r) => {
                    results.push(r);
                },
                None => {},
            }
            proof {
                assert(self@ =~= before.take(self@.len() as int));
            }
        }
        results
    }

    /// Mutable access to the topmost modal. Whatever the caller writes
    /// through the reference becomes that modal; its id, z index, hit id and
    /// focus group stay, and so do the modals below.
    pub fn top_mut(&mut self) -> (r: Option<&mut M>)
        ensures
            final(self).next_id() == old(self).next_id(),
            final(self).spec_next_z() == old(self).spec_next_z(),
            final(self).spec_next_hit_id() == old(self).spec_next_hit_id(),
            match r {
                Some(m) => old(self)@.len() > 0 && *m == old(self)@.last().modal && final(self)@
                    == old(self)@.update(
                    old(self)@.len() - 1,
                    ActiveModal { modal: *final(m), ..old(self)@.last() },
                ),
                None => old(self)@.len() == 0 && final(self)@ == old(self)@,
            },
    {
        let n = self.modals.len();
        if n > 0 {
            Some(&mut self.modals[n - 1].modal)
        } else {
            None
        }
    }

    /// The topmost modal.
    pub fn top(&self) -> (r: Option<&M>)
        ensures
            match r {
                Some(m) => self@.len() > 0 && *m == self@.last().modal,
                None => self@.len() == 0,
            },
    {
        let n = self.modals.len();
        if n > 0 {
            Some(&self.modals[n - 1].modal)
        } else {
            None
        }
    }

    /// The modal at index `i`, the bottom one at 0.
    pub fn entry_at(&self, i: usize) -> (r: &ActiveModal<M>)
        requires
            i < self@.len(),
        ensures
            *r == self@[i as int],
    {
        &self.modals[i]
    }

    /// Whether no modal is open.
    pub fn is_empty(&self) -> (r: bool)
        ensures
            r == (self@.len() == 0),
    {
        self.modals.len() == 0
    }

    /// Number of open modals.
    pub fn depth(&self) -> (n: usize)
        ensures
            n == self@.len(),
    {
        self.modals.len()
    }

    /// Whether the modal with the given id is open.
    pub fn contains(&self, id: ModalId) -> (r: bool)
        ensures
            r == find_modal(self@, id, self@.len() as int).is_some(),
    {
        self.position(id).is_some()
    }

    /// The id of the topmost modal.
    pub fn top_id(&self) -> (r: Option<ModalId>)
        ensures
            r == if self@.len() > 0 {
                Some(self@.last().id)
            } else {
                None
            },
    {
        let n = self.modals.len();
        if n > 0 {
            Some(self.modals[n - 1].id)
        } else {
            None
        }
    }

    /// The rectangle of a modal with the given constraints on a screen: the
    /// size that the constraints give, in the middle. `None` where the size
    /// is empty.
    pub fn content_area(screen: Rect, constraints: ModalSizeConstraints) -> (r: Option<Rect>)
        ensures
            r == stack_content_area(screen, constraints),
    {
        let size = constraints.clamp(Size::new(screen.width, screen.height));
        if size.width == 0 || size.height == 0 {
            return None;
        }
        let x = screen.x.saturating_add((screen.width - size.width) / 2);
        let y = screen.y.saturating_add((screen.height - size.height) / 2);
        Some(Rect::new(x, y, size.width, size.height))
    }
}

/// The rectangle of a modal with the given constraints on a screen.
pub open spec fn stack_content_area(screen: Rect, constraints: ModalSizeConstraints) -> Option<Rect> {
    let size = constraints.spec_clamp(Size { width: screen.width, height: screen.height });
    if size.width == 0 || size.height == 0 {
        None
    } else {
        Some(
            Rect {
                x: crate::geometry::sat_add(
                    screen.x as int,
                    (screen.width - size.width) / 2,
                ) as u16,
                y: crate::geometry::sat_add(
                    screen.y as int,
                    (screen.height - size.height) / 2,
                ) as u16,
                width: size.width,
                height: size.height,
            },
        )
    }
}

impl<M: StackModal> ModalStack<M> {
    /// Hands an event to the topmost modal, with the hit id of that modal.
    /// Where the modal gives a result, it is taken off the stack and the
    /// result handed back with its id and focus group; else it stays, as the
    /// call left it. The modals below stay as they are, and an empty stack
    /// gives nothing.
    pub fn handle_event(&mut self, event: &Event) -> (r: Option<ModalResult>)
        ensures
            final(self).next_id() == old(self).next_id(),
            final(self).spec_next_z() == old(self).spec_next_z(),
            final(self).spec_next_hit_id() == old(self).spec_next_hit_id(),
            old(self)@.len() == 0 ==> r.is_none() && final(self)@ == old(self)@,
            old(self)@.len() > 0 ==> exists|t: &mut M|
                {
                    &&& mut_ref_current(t) == old(self)@.last().modal
                    &&& #[trigger] call_ensures(
                        M::handle_event,
                        (t, event, old(self)@.last().hit_id),
                        data_of(r),
                    )
                    &&& match r {
                        Some(res) => {
                            &&& res.data.is_some()
                            &&& result_for(old(self)@.last(), res)
                            &&& final(self)@ == old(self)@.drop_last()
                        },
                        None => final(self)@ == old(self)@.update(
                            old(self)@.len() - 1,
                            ActiveModal { modal: mut_ref_future(t), ..old(self)@.last() },
                        ),
                    }
                },
    {
        let n = self.modals.len();
        if n == 0 {
            return None;
        }
        let hit_id = self.modals[n - 1].hit_id;
        let id = self.modals[n - 1].id;
        let focus_group_id = self.modals[n - 1].focus_group_id;
        let outcome = {
            let top = &mut self.modals[n - 1];
            top.modal.handle_event(event, hit_id)
        };
        match outcome {
            Some(data) => {
                self.modals.pop();
                proof {
                    assert(self@ =~= old(self)@.drop_last());
                }
                Some(ModalResult { id, data: Some(data), focus_group_id })
            },
            None => {
                proof {
                    assert(self@ =~= old(self)@.update(
                        n - 1,
                        ActiveModal { modal: self@.last().modal, ..old(self)@.last() },
                    ));
                }
                None
            },
        }
    }

    /// Draws the content of every modal, bottom first, each in the middle
    /// of the screen. The frame goes through one frame for each modal,
    /// `frames[i]` before modal `i` and `frames[i + 1]` after it, and
    /// `sizes[i]` is the size that modal `i` asked for: where that leaves the
    /// modal an area, a call of its `render_content` for that area takes the
    /// one frame to the other; where it leaves none, the frame stays.
    pub fn render_contents(&self, frame: &mut Frame, screen: Rect)
        requires
            old(frame).wf(),
        ensures
            final(frame).wf(),
            final(frame).same_shape(old(frame)),
            exists|frames: Seq<Frame>, sizes: Seq<ModalSizeConstraints>|
                {
                    &&& frames.len() == self@.len() + 1
                    &&& sizes.len() == self@.len()
                    &&& frames[0] == *old(frame)
                    &&& frames[self@.len() as int] == *final(frame)
                    &&& forall|i: int|
                        #![trigger self@[i]]
                        0 <= i < self@.len() ==> {
                            &&& call_ensures(M::size_constraints, (&self@[i].modal,), sizes[i])
                            &&& match stack_content_area(screen, sizes[i]) {
                                Some(area) => exists|t: &mut Frame|
                                    {
                                        &&& mut_ref_current(t) == frames[i]
                                        &&& mut_ref_future(t) == frames[i + 1]
                                        &&& #[trigger] call_ensures(
                                            M::render_content,
                                            (&self@[i].modal, area, t),
                                            (),
                                        )
                                    },
                                None => frames[i + 1] == frames[i],
                            }
                        }
                },
    {
        let n = self.modals.len();
        let ghost mut frames: Seq<Frame> = seq![*frame];
        let ghost mut sizes: Seq<ModalSizeConstraints> = Seq::empty();
        let mut i: usize = 0;
        while i < n
            invariant
                n == self.modals@.len(),
                0 <= i <= n,
                frame.wf(),
                frame.same_shape(old(frame)),
                frames.len() == i + 1,
                sizes.len() == i,
                frames[0] == *old(frame),
                frames[i as int] == *frame,
                forall|k: int|
                    #![trigger self@[k]]
                    0 <= k < i ==> {
                        &&& call_ensures(M::size_constraints, (&self@[k].modal,), sizes[k])
                        &&& match stack_content_area(screen, sizes[k]) {
                            Some(area) => exists|t: &mut Frame|
                                {
                                    &&& mut_ref_current(t) == frames[k]
                                    &&& mut_ref_future(t) == frames[k + 1]
                                    &&& #[trigger] call_ensures(
                                        M::render_content,
                                        (&self@[k].modal, area, t),
                                        (),
                                    )
                                },
                            None => frames[k + 1] == frames[k],
                        }
                    },
            decreases n - i,
        {
            let modal = &self.modals[i].modal;
            let size = modal.size_constraints();
            match Self::content_area(screen, size) {
                Some(area) => {
                    modal.render_content(area, frame);
                },
                None => {},
            }
            proof {
                frames = frames.push(*frame);
                sizes = sizes.push(size);
            }
            i += 1;
        }
    }
}

/// Once a modal is found, it stays the first however many more modals are
/// looked at.
pub proof fn lemma_find_modal_stays<M>(modals: Seq<ActiveModal<M>>, id: ModalId, n: int, m: int)
    requires
        0 <= n <= m,
        find_modal(modals, id, n).is_some(),
    ensures
        find_modal(modals, id, m) == find_modal(modals, id, n),
    decreases m - n,
{
    if n < m {
        lemma_find_modal_stays(modals, id, n, m - 1);
    }
}

/// What the focus manager of an application does for modals.
pub trait FocusControl {
    /// Makes a focus group of the given widgets.
    fn create_group(&mut self, group_id: u32, ids: Vec<u64>);

    /// Holds the focus inside a group, and keeps what had the focus before.
    fn push_trap(&mut self, group_id: u32);

    /// Lets the focus out of the innermost group again.
    fn pop_trap(&mut self);

    /// Whether the focus is held inside a group.
    fn is_trapped(&self) -> bool;
}

/// Gives the modals of a stack their focus groups: a modal that is one for
/// assistive technology and names its focusable widgets gets a group of its
/// own, in which the focus is held while the modal is open.
#[derive(Debug, Clone, Copy, PartialEq, Eq, Structural)]
pub struct ModalFocusIntegration {
    next_group_id: u32,
}

impl ModalFocusIntegration {
    /// The id of the next focus group.
    pub closed spec fn next_group(&self) -> u32 {
        self.next_group_id
    }

    /// Focus groups are numbered from 1000 on.
    pub fn new() -> (f: ModalFocusIntegration)
        ensures
            f.next_group() == 1000,
    {
        ModalFocusIntegration { next_group_id: 1000 }
    }

    /// The id of the focus group of a new modal: the next one where the
    /// modal is one for assistive technology and names its widgets, else
    /// none. After the largest id the numbering starts over at 0.
    pub fn claim_group(&mut self, aria_modal: bool, names_widgets: bool) -> (g: Option<u32>)
        ensures
            g == if aria_modal && names_widgets {
                Some(old(self).next_group())
            } else {
                None
            },
            final(self).next_group() == if !(aria_modal && names_widgets) {
                old(self).next_group()
            } else if old(self).next_group() == u32::MAX {
                0
            } else {
                (old(self).next_group() + 1) as u32
            },
    {
        if aria_modal && names_widgets {
            let group_id = self.next_group_id;
            self.next_group_id = self.next_group_id.wrapping_add(1);
            Some(group_id)
        } else {
            None
        }
    }

    /// Puts a modal on top of the stack. Where the modal gets a focus
    /// group, the group is made of its widgets and the focus held in it.
    pub fn push_with_focus<M: StackModal, F: FocusControl>(
        &mut self,
        stack: &mut ModalStack<M>,
        focus: &mut F,
        modal: M,
    ) -> (id: ModalId)
        ensures
            id.0 == old(stack).next_id(),
            final(stack)@.len() == old(stack)@.len() + 1,
            final(stack)@.drop_last() == old(stack)@,
            final(stack)@.last().id == id,
            final(stack)@.last().modal == modal,
            final(stack)@.last().z_index == z_index_for(old(stack).spec_next_z()),
            final(stack)@.last().hit_id == HitId(old(stack).spec_next_hit_id()),
            final(stack)@.last().focus_group_id == Some(old(self).next_group())
                || final(stack)@.last().focus_group_id.is_none(),
            final(stack)@.last().focus_group_id.is_none() ==> final(self).next_group() == old(
                self,
            ).next_group(),
            old(stack).rising() && old(stack).next_id() < u64::MAX ==> final(stack).rising(),
    {
        let aria_modal = modal.aria_modal();
        let group = match modal.focusable_ids() {
            Some(ids) => {
                let group = self.claim_group(aria_modal, true);
                match group {
                    Some(group_id) => {
                        focus.create_group(group_id, ids);
                        focus.push_trap(group_id);
                    },
                    None => {},
                }
                group
            },
            None => None,
        };
        let id = stack.push_with_focus(modal, group);
        proof {
            assert(stack@.drop_last() =~= old(stack)@);
        }
        id
    }

    /// Takes the topmost modal off the stack and, where it had a focus
    /// group, lets the focus out of it.
    pub fn pop_with_focus<M, F: FocusControl>(&self, stack: &mut ModalStack<M>, focus: &mut F) -> (r:
        Option<ModalResult>)
        ensures
            final(stack).next_id() == old(stack).next_id(),
            match r {
                Some(res) => old(stack)@.len() > 0 && result_for(old(stack)@.last(), res)
                    && res.data.is_none() && final(stack)@ == old(stack)@.drop_last(),
                None => old(stack)@.len() == 0 && final(stack)@ == old(stack)@,
            },
    {
        let result = stack.pop();
        match &result {
            Some(res) => {
                if res.focus_group_id.is_some() {
                    focus.pop_trap();
                }
            },
            None => {},
        }
        result
    }

    /// Hands an event to the topmost modal, as the stack does. Where the
    /// modal closes and had a focus group, the focus is let out of it by a
    /// call of `pop_trap`; else the focus manager stays as it is.
    pub fn handle_event<M: StackModal, F: FocusControl>(
        &self,
        stack: &mut ModalStack<M>,
        focus: &mut F,
        event: &Event,
    ) -> (r: Option<ModalResult>)
        ensures
            final(stack).next_id() == old(stack).next_id(),
            final(stack).spec_next_z() == old(stack).spec_next_z(),
            final(stack).spec_next_hit_id() == old(stack).spec_next_hit_id(),
            old(stack)@.len() == 0 ==> r.is_none() && final(stack)@ == old(stack)@,
            old(stack)@.len() > 0 ==> exists|t: &mut M|
                {
                    &&& mut_ref_current(t) == old(stack)@.last().modal
                    &&& #[trigger] call_ensures(
                        M::handle_event,
                        (t, event, old(stack)@.last().hit_id),
                        data_of(r),
                    )
                    &&& match r {
                        Some(res) => {
                            &&& res.data.is_some()
                            &&& result_for(old(stack)@.last(), res)
                            &&& final(stack)@ == old(stack)@.drop_last()
                        },
                        None => final(stack)@ == old(stack)@.update(
                            old(stack)@.len() - 1,
                            ActiveModal { modal: mut_ref_future(t), ..old(stack)@.last() },
                        ),
                    }
                },
            if r matches Some(res) && res.focus_group_id.is_some() {
                exists|f: &mut F|
                    mut_ref_current(f) == *old(focus) && mut_ref_future(f) == *final(focus)
                        && #[trigger] call_ensures(F::pop_trap, (f,), ())
            } else {
                *final(focus) == *old(focus)
            },
    {
        let result = stack.handle_event(event);
        match &result {
            Some(res) => {
                if res.focus_group_id.is_some() {
                    focus.pop_trap();
                }
            },
            None => {},
        }
        result
    }

    /// Whether the focus is held inside a modal.
    pub fn is_focus_trapped<F: FocusControl>(&self, focus: &F) -> bool {
        focus.is_trapped()
    }
}

} // verus!
