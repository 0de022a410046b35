//! The decisions of diff strategy selection.
//!
//! Each frame the host prices three strategies with its cost model and hands
//! this module how the prices compare. From that, the uncertainty guard and
//! the previous frame's choice, the functions here pick the strategy: the
//! cheapest one, never a full redraw while the guard is up, and the previous
//! choice kept where the hysteresis test says the gain is too small.

use vstd::prelude::*;

verus! {

/// How a frame is brought to the terminal.
#[derive(Debug, Clone, Copy, PartialEq, Eq, Structural)]
pub enum DiffStrategy {
    /// Full scan with the row-skip fast path.
    Full,
    /// Scan of the rows marked dirty.
    DirtyRows,
    /// No diff: every cell is emitted.
    FullRedraw,
}

impl DiffStrategy {
    /// The name of the strategy.
    pub open spec fn spec_name(self) -> Seq<char> {
        match self {
            DiffStrategy::Full => "Full"@,
            DiffStrategy::DirtyRows => "DirtyRows"@,
            DiffStrategy::FullRedraw => "FullRedraw"@,
        }
    }

    /// The name of the strategy.
    pub fn as_str(&self) -> (s: &'static str)
        ensures
            s@ == self.spec_name(),
    {
        match self {
            DiffStrategy::Full => "Full",
            DiffStrategy::DirtyRows => "DirtyRows",
            DiffStrategy::FullRedraw => "FullRedraw",
        }
    }

    /// The name of the strategy, owned.
    pub fn to_string(&self) -> (s: String)
        ensures
            s@ == self.spec_name(),
    {
        self.as_str().to_owned()
    }
}

/// How the three candidate costs of a frame compare.
#[derive(Debug, Clone, Copy, PartialEq, Eq, Structural)]
pub struct CostOrder {
    /// The dirty-row scan costs no more than the full scan.
    pub dirty_le_full: bool,
    /// The dirty-row scan costs no more than a full redraw.
    pub dirty_le_redraw: bool,
    /// The full scan costs no more than a full redraw.
    pub full_le_redraw: bool,
}

/// Why a decision departed from the plain cost comparison.
#[derive(Debug, Clone, Copy, PartialEq, Eq, Structural)]
pub enum GuardReason {
    /// Nothing intervened.
    NoGuard,
    /// The posterior variance was above the guard threshold.
    UncertaintyVariance,
    /// A higher-level policy replaced the decision afterwards.
    Overridden,
}

impl GuardReason {
    /// The name of the reason.
    pub open spec fn spec_name(self) -> Seq<char> {
        match self {
            GuardReason::NoGuard => "none"@,
            GuardReason::UncertaintyVariance => "uncertainty_variance"@,
            GuardReason::Overridden => "override"@,
        }
    }

    /// The name of the reason.
    pub fn as_str(&self) -> (s: &'static str)
        ensures
            s@ == self.spec_name(),
    {
        match self {
            GuardReason::NoGuard => "none",
            GuardReason::UncertaintyVariance => "uncertainty_variance",
            GuardReason::Overridden => "override",
        }
    }
}

/// The cheapest strategy. Ties go to the dirty-row scan first, then to the
/// full scan.
pub open spec fn cheapest(order: CostOrder) -> DiffStrategy {
    if order.dirty_le_full && order.dirty_le_redraw {
        DiffStrategy::DirtyRows
    } else if order.full_le_redraw {
        DiffStrategy::Full
    } else {
        DiffStrategy::FullRedraw
    }
}

/// The cheaper of the two scans.
pub open spec fn cheaper_scan(order: CostOrder) -> DiffStrategy {
    if order.dirty_le_full {
        DiffStrategy::DirtyRows
    } else {
        DiffStrategy::Full
    }
}

/// The candidate of a frame: the cheapest strategy, or under the
/// uncertainty guard the cheaper scan in place of a full redraw.
pub open spec fn candidate_of(order: CostOrder, guard: bool) -> DiffStrategy {
    if guard && cheapest(order) == DiffStrategy::FullRedraw {
        cheaper_scan(order)
    } else {
        cheapest(order)
    }
}

/// Whether hysteresis keeps the previous strategy in place of the candidate.
/// `gain_too_small` is the outcome of the cost test between the two; the
/// test does not count when the guard has just left a full redraw.
pub open spec fn keeps_previous(
    candidate: DiffStrategy,
    previous: Option<DiffStrategy>,
    guard: bool,
    gain_too_small: bool,
) -> bool {
    match previous {
        Some(p) => p != candidate && gain_too_small && !(guard && p == DiffStrategy::FullRedraw),
        None => false,
    }
}

/// The strategy that a frame ends with.
pub open spec fn settled(
    candidate: DiffStrategy,
    previous: Option<DiffStrategy>,
    guard: bool,
    gain_too_small: bool,
) -> DiffStrategy {
    if keeps_previous(candidate, previous, guard, gain_too_small) {
        previous->0
    } else {
        candidate
    }
}

/// The outcome of one frame's decision.
#[derive(Debug, Clone, Copy, PartialEq, Eq, Structural)]
pub struct Decision {
    /// The strategy to use.
    pub strategy: DiffStrategy,
    /// Whether the uncertainty guard was up.
    pub guard_reason: GuardReason,
    /// Whether hysteresis kept the previous strategy.
    pub hysteresis_applied: bool,
}

/// The cheapest strategy under the given comparison.
pub fn select_cheapest(order: CostOrder) -> (s: DiffStrategy)
    ensures
        s == cheapest(order),
{
    if order.dirty_le_full && order.dirty_le_redraw {
        DiffStrategy::DirtyRows
    } else if order.full_le_redraw {
        DiffStrategy::Full
    } else {
        DiffStrategy::FullRedraw
    }
}

/// The candidate strategy of a frame, before hysteresis.
pub fn select_candidate(order: CostOrder, guard: bool) -> (s: DiffStrategy)
    ensures
        s == candidate_of(order, guard),
        guard ==> s != DiffStrategy::FullRedraw,
{
    let naive = select_cheapest(order);
    if guard && naive == DiffStrategy::FullRedraw {
        if order.dirty_le_full {
            DiffStrategy::DirtyRows
        } else {
            DiffStrategy::Full
        }
    } else {
        naive
    }
}

/// A count, held at the largest `usize`.
pub open spec fn held_at_max(n: int) -> int {
    if n <= usize::MAX {
        n
    } else {
        usize::MAX as int
    }
}

/// Number of cells a dirty-row scan visits when nothing tighter is known:
/// `dirty_rows * width`, held at the largest `usize`.
pub fn default_scan_cells(width: u16, dirty_rows: usize) -> (n: usize)
    ensures
        n == held_at_max(dirty_rows * width),
{
    match dirty_rows.checked_mul(width as usize) {
        Some(n) => n,
        None => usize::MAX,
    }
}

/// Number of cells of a `width` by `height` grid.
pub fn total_cells(width: u16, height: u16) -> (n: usize)
    ensures
        n == width * height,
{
    proof {
        crate::buffer::lemma_grid_bounds(width as int, height as int);
    }
    width as usize * height as usize
}

/// The scan estimate that enters the cost of a dirty-row scan: the caller's
/// estimate, but never more than the whole grid.
pub fn clamp_scan_cells(dirty_scan_cells: usize, width: u16, height: u16) -> (n: usize)
    ensures
        n == if dirty_scan_cells <= width * height {
            dirty_scan_cells as int
        } else {
            width * height
        },
{
    let total = total_cells(width, height);
    if dirty_scan_cells <= total {
        dirty_scan_cells
    } else {
        total
    }
}

/// What an observation adds to the change-rate estimate: the changed and
/// the unchanged cells among those scanned, or `None` when fewer cells were
/// scanned than the estimator takes note of. A changed count above the
/// scanned count is held at the scanned count.
pub fn observation_counts(cells_scanned: usize, cells_changed: usize, min_cells: usize) -> (r:
    Option<(usize, usize)>)
    ensures
        r.is_none() == (cells_scanned < min_cells),
        r.is_some() ==> r.unwrap().0 == if cells_changed <= cells_scanned {
            cells_changed
        } else {
            cells_scanned
        },
        r.is_some() ==> r.unwrap().0 + r.unwrap().1 == cells_scanned,
{
    if cells_scanned < min_cells {
        None
    } else {
        let changed = if cells_changed <= cells_scanned {
            cells_changed
        } else {
            cells_scanned
        };
        Some((changed, cells_scanned - changed))
    }
}

/// The part of a selector that carries over from frame to frame: the frame
/// counter and the latest decision.
#[derive(Debug, Clone, Copy, PartialEq, Eq, Structural)]
pub struct SelectorCore {
    frame_count: u64,
    last: Option<Decision>,
}

impl SelectorCore {
    /// Frames decided since construction or the last reset.
    pub closed spec fn spec_frame_count(&self) -> int {
        self.frame_count as int
    }

    /// The latest decision, if a frame was decided.
    pub closed spec fn spec_last(&self) -> Option<Decision> {
        self.last
    }

    /// The strategy of the latest decision.
    pub open spec fn previous(&self) -> Option<DiffStrategy> {
        match self.spec_last() {
            Some(d) => Some(d.strategy),
            None => None,
        }
    }

    /// A core that has decided no frame.
    pub fn new() -> (c: SelectorCore)
        ensures
            c.spec_frame_count() == 0,
            c.spec_last().is_none(),
    {
        SelectorCore { frame_count: 0, last: None }
    }

    /// Frames decided since construction or the last reset.
    pub fn frame_count(&self) -> (n: u64)
        ensures
            n == self.spec_frame_count(),
    {
        self.frame_count
    }

    /// The latest decision.
    pub fn last_decision(&self) -> (d: Option<Decision>)
        ensures
            d == self.spec_last(),
    {
        self.last
    }

    /// The strategy of the latest decision.
    pub fn last_strategy(&self) -> (s: Option<DiffStrategy>)
        ensures
            s == self.previous(),
    {
        match self.last {
            Some(d) => Some(d.strategy),
            None => None,
        }
    }

    /// Whether the hysteresis cost test has to be made for `candidate`: only
    /// where a previous strategy exists and differs from it.
    pub fn needs_cost_test(&self, candidate: DiffStrategy) -> (r: bool)
        ensures
            r == (self.previous().is_some() && self.previous() != Some(candidate)),
    {
        match self.last {
            Some(d) => d.strategy != candidate,
            None => false,
        }
    }

    /// Decides the frame. `gain_too_small` is the outcome of the hysteresis
    /// cost test between the candidate and the previous strategy (any value
    /// where `needs_cost_test` is false). The decision is stored and the frame
    /// counter goes up by one, held at the largest `u64`.
    pub fn decide(&mut self, order: CostOrder, guard: bool, gain_too_small: bool) -> (d: Decision)
        ensures
            d.strategy == settled(
                candidate_of(order, guard),
                old(self).previous(),
                guard,
                gain_too_small,
            ),
            d.hysteresis_applied == keeps_previous(
                candidate_of(order, guard),
                old(self).previous(),
                guard,
                gain_too_small,
            ),
            d.guard_reason == if guard {
                GuardReason::UncertaintyVariance
            } else {
                GuardReason::NoGuard
            },
            guard ==> d.strategy != DiffStrategy::FullRedraw,
            final(self).spec_last() == Some(d),
            final(self).spec_frame_count() == if old(self).spec_frame_count() < u64::MAX {
                old(self).spec_frame_count() + 1
            } else {
                u64::MAX as int
            },
    {
        let candidate = select_candidate(order, guard);
        let mut strategy = candidate;
        let mut hysteresis_applied = false;
        match self.last {
            Some(prev) => {
                if prev.strategy != candidate && gain_too_small && !(guard && prev.strategy
                    == DiffStrategy::FullRedraw) {
                    strategy = prev.strategy;
                    hysteresis_applied = true;
                }
            },
            None => {},
        }
        let guard_reason = if guard {
            GuardReason::UncertaintyVariance
        } else {
            GuardReason::NoGuard
        };
        let d = Decision { strategy, guard_reason, hysteresis_applied };
        self.last = Some(d);
        self.frame_count = self.frame_count.saturating_add(1);
        d
    }

    /// Replaces the strategy of the latest decision on behalf of a
    /// higher-level policy. Without a latest decision nothing changes.
    pub fn override_last_strategy(&mut self, strategy: DiffStrategy)
        ensures
            final(self).spec_frame_count() == old(self).spec_frame_count(),
            final(self).spec_last() == match old(self).spec_last() {
                Some(d) => Some(
                    Decision {
                        strategy,
                        guard_reason: GuardReason::Overridden,
                        hysteresis_applied: false,
                    },
                ),
                None => None,
            },
    {
        match self.last {
            Some(_) => {
                self.last = Some(
                    Decision {
                        strategy,
                        guard_reason: GuardReason::Overridden,
                        hysteresis_applied: false,
                    },
                );
            },
            None => {},
        }
    }

    /// Forgets the latest decision and sets the frame counter to zero.
    pub fn reset(&mut self)
        ensures
            final(self).spec_frame_count() == 0,
            final(self).spec_last().is_none(),
    {
        self.frame_count = 0;
        self.last = None;
    }
}

/// Under the uncertainty guard no frame ends with a full redraw, whatever
/// the costs, the previous strategy and the hysteresis test say.
pub proof fn lemma_guard_excludes_redraw(
    order: CostOrder,
    previous: Option<DiffStrategy>,
    gain_too_small: bool,
)
    ensures
        settled(candidate_of(order, true), previous, true, gain_too_small)
            != DiffStrategy::FullRedraw,
{
}

/// Where the hysteresis test finds the gain too small, a frame keeps the
/// strategy of the frame before it, unless that was a full redraw and the
/// guard is up.
pub proof fn lemma_hysteresis_retains(order: CostOrder, previous: DiffStrategy, guard: bool)
    requires
        !(guard && previous == DiffStrategy::FullRedraw),
    ensures
        settled(candidate_of(order, guard), Some(previous), guard, true) == previous,
{
}

/// The strategy after the frames from `k` on, frame `i` decided under the
/// cost comparison `orders[i]` with the guard as `guards[i]` says, and the
/// hysteresis test finding the gain too small each time.
pub open spec fn settled_through(
    previous: DiffStrategy,
    orders: Seq<CostOrder>,
    guards: Seq<bool>,
    k: int,
) -> DiffStrategy
    decreases orders.len() - k,
{
    if k < 0 || k >= orders.len() {
        previous
    } else {
        settled_through(
            settled(candidate_of(orders[k], guards[k]), Some(previous), guards[k], true),
            orders,
            guards,
            k + 1,
        )
    }
}

/// Where the hysteresis test finds the gain too small on every frame, the
/// strategy of the first frame is the strategy of every later frame,
/// however the costs compare from frame to frame. A full redraw is not
/// kept under the guard, so for a first frame that ended with one the guard
/// has to stay down.
pub proof fn lemma_first_strategy_is_retained(
    first: DiffStrategy,
    orders: Seq<CostOrder>,
    guards: Seq<bool>,
    k: int,
)
    requires
        guards.len() == orders.len(),
        first == DiffStrategy::FullRedraw ==> forall|i: int| 0 <= i < guards.len() ==> !guards[i],
    ensures
        settled_through(first, orders, guards, k) == first,
    decreases orders.len() - k,
{
    if 0 <= k < orders.len() {
        lemma_hysteresis_retains(orders[k], first, guards[k]);
        lemma_first_strategy_is_retained(first, orders, guards, k + 1);
    }
}

/// The decision of a frame depends on the comparison of the costs, the
/// guard, the hysteresis test and the previous strategy alone: selectors
/// that agree on these decide alike.
pub proof fn lemma_decision_is_determined(
    a: SelectorCore,
    b: SelectorCore,
    order: CostOrder,
    guard: bool,
    gain_too_small: bool,
)
    requires
        a.previous() == b.previous(),
    ensures
        settled(candidate_of(order, guard), a.previous(), guard, gain_too_small) == settled(
            candidate_of(order, guard),
            b.previous(),
            guard,
            gain_too_small,
        ),
        keeps_previous(candidate_of(order, guard), a.previous(), guard, gain_too_small)
            == keeps_previous(candidate_of(order, guard), b.previous(), guard, gain_too_small),
{
}

/// Without a previous strategy and with the guard down, the frame ends with
/// the cheapest strategy.
pub proof fn lemma_first_frame_is_cheapest(order: CostOrder, gain_too_small: bool)
    ensures
        settled(candidate_of(order, false), None, false, gain_too_small) == cheapest(order),
{
}

} // verus!
