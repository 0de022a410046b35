use ftui::diff_strategy::{
    clamp_scan_cells, default_scan_cells, observation_counts, select_candidate, select_cheapest,
    total_cells, CostOrder, Decision, DiffStrategy, GuardReason, SelectorCore,
};

fn order(cost_full: f64, cost_dirty: f64, cost_redraw: f64) -> CostOrder {
    CostOrder {
        dirty_le_full: cost_dirty <= cost_full,
        dirty_le_redraw: cost_dirty <= cost_redraw,
        full_le_redraw: cost_full <= cost_redraw,
    }
}

fn costs(
    c_scan: f64,
    c_emit: f64,
    c_row: f64,
    width: u16,
    height: u16,
    dirty_rows: usize,
    p: f64,
) -> (f64, f64, f64) {
    let n = total_cells(width, height) as f64;
    let scan = clamp_scan_cells(default_scan_cells(width, dirty_rows), width, height) as f64;
    let full = c_row * height as f64 + c_scan * dirty_rows as f64 * width as f64 + c_emit * p * n;
    let dirty = c_scan * scan + c_emit * p * n;
    let redraw = c_emit * n;
    (full, dirty, redraw)
}

#[test]
fn default_costs_with_few_dirty_rows_select_dirty_rows() {
    let (full, dirty, redraw) = costs(1.0, 6.0, 0.1, 80, 24, 2, 0.05);
    assert_eq!(full, 0.1 * 24.0 + 160.0 + 6.0 * 0.05 * 1920.0);
    assert_eq!(redraw, 11520.0);
    let mut core = SelectorCore::new();
    let d = core.decide(order(full, dirty, redraw), false, false);
    assert_eq!(d.strategy, DiffStrategy::DirtyRows);
    assert_eq!(d.guard_reason, GuardReason::NoGuard);
    assert!(!d.hysteresis_applied);
    assert_eq!(core.frame_count(), 1);
    assert_eq!(core.last_strategy(), Some(DiffStrategy::DirtyRows));
}

#[test]
fn high_change_rate_with_all_rows_dirty_gives_a_strategy() {
    let (full, dirty, redraw) = costs(1.0, 6.0, 0.1, 80, 24, 24, 0.9);
    assert!(full.is_finite() && dirty.is_finite() && redraw.is_finite());
    let s = select_cheapest(order(full, dirty, redraw));
    assert_eq!(s, DiffStrategy::FullRedraw);
}

#[test]
fn uncertainty_guard_never_selects_full_redraw() {
    let (full, dirty, redraw) = costs(10.0, 1.0, 0.1, 80, 24, 24, 0.4);
    assert_eq!(select_cheapest(order(full, dirty, redraw)), DiffStrategy::FullRedraw);
    assert_eq!(select_candidate(order(full, dirty, redraw), true), DiffStrategy::DirtyRows);
    for bits in 0..8u8 {
        let o = CostOrder {
            dirty_le_full: bits & 1 != 0,
            dirty_le_redraw: bits & 2 != 0,
            full_le_redraw: bits & 4 != 0,
        };
        for prev in [
            None,
            Some(DiffStrategy::Full),
            Some(DiffStrategy::DirtyRows),
            Some(DiffStrategy::FullRedraw),
        ] {
            for gain_too_small in [false, true] {
                let mut core = SelectorCore::new();
                if let Some(p) = prev {
                    core.decide(o, false, false);
                    core.override_last_strategy(p);
                }
                let d = core.decide(o, true, gain_too_small);
                assert_ne!(d.strategy, DiffStrategy::FullRedraw);
                assert_eq!(d.guard_reason, GuardReason::UncertaintyVariance);
            }
        }
    }
}

#[test]
fn ties_prefer_dirty_rows_then_full() {
    assert_eq!(select_cheapest(order(5.0, 5.0, 5.0)), DiffStrategy::DirtyRows);
    assert_eq!(select_cheapest(order(5.0, 6.0, 5.0)), DiffStrategy::Full);
    assert_eq!(select_cheapest(order(5.0, 6.0, 4.0)), DiffStrategy::FullRedraw);
    assert_eq!(select_cheapest(order(7.0, 6.0, 4.0)), DiffStrategy::FullRedraw);
    assert_eq!(select_candidate(order(7.0, 6.0, 4.0), true), DiffStrategy::DirtyRows);
    assert_eq!(select_candidate(order(5.0, 6.0, 4.0), true), DiffStrategy::Full);
    assert_eq!(select_candidate(order(5.0, 6.0, 4.0), false), DiffStrategy::FullRedraw);
}

#[test]
fn hysteresis_keeps_previous_strategy() {
    let dirty_first = order(10.0, 1.0, 100.0);
    let full_first = order(1.0, 10.0, 100.0);
    let redraw_first = order(10.0, 10.0, 1.0);
    let mut core = SelectorCore::new();
    assert!(!core.needs_cost_test(DiffStrategy::Full));
    let first = core.decide(dirty_first, false, true);
    assert_eq!(first.strategy, DiffStrategy::DirtyRows);
    assert!(!first.hysteresis_applied);
    assert!(core.needs_cost_test(DiffStrategy::Full));
    assert!(!core.needs_cost_test(DiffStrategy::DirtyRows));
    for o in [full_first, redraw_first, dirty_first, full_first] {
        let d = core.decide(o, false, true);
        assert_eq!(d.strategy, DiffStrategy::DirtyRows);
        assert_eq!(d.hysteresis_applied, select_cheapest(o) != DiffStrategy::DirtyRows);
    }
    let d = core.decide(full_first, false, false);
    assert_eq!(d.strategy, DiffStrategy::Full);
    assert_eq!(core.frame_count(), 6);
}

#[test]
fn guard_leaves_full_redraw_despite_hysteresis() {
    let mut core = SelectorCore::new();
    let d = core.decide(order(10.0, 10.0, 1.0), false, false);
    assert_eq!(d.strategy, DiffStrategy::FullRedraw);
    let d = core.decide(order(10.0, 11.0, 1.0), true, true);
    assert_eq!(
        d,
        Decision {
            strategy: DiffStrategy::Full,
            guard_reason: GuardReason::UncertaintyVariance,
            hysteresis_applied: false,
        }
    );
}

#[test]
fn decisions_are_deterministic() {
    let mut a = SelectorCore::new();
    let mut b = SelectorCore::new();
    for (i, o) in [order(1.0, 2.0, 3.0), order(3.0, 2.0, 1.0), order(2.0, 1.0, 3.0)]
        .into_iter()
        .enumerate()
    {
        let guard = i == 1;
        assert_eq!(a.decide(o, guard, i == 2), b.decide(o, guard, i == 2));
        assert_eq!(a, b);
    }
}

#[test]
fn override_and_reset() {
    let mut core = SelectorCore::new();
    core.override_last_strategy(DiffStrategy::FullRedraw);
    assert_eq!(core.last_decision(), None);
    core.decide(order(1.0, 2.0, 3.0), false, false);
    core.override_last_strategy(DiffStrategy::FullRedraw);
    assert_eq!(
        core.last_decision(),
        Some(Decision {
            strategy: DiffStrategy::FullRedraw,
            guard_reason: GuardReason::Overridden,
            hysteresis_applied: false,
        })
    );
    assert_eq!(core.frame_count(), 1);
    core.reset();
    assert_eq!(core.frame_count(), 0);
    assert_eq!(core.last_strategy(), None);
}

#[test]
fn integer_parts_of_the_cost_model() {
    assert_eq!(default_scan_cells(80, 2), 160);
    assert_eq!(default_scan_cells(2, usize::MAX), usize::MAX);
    assert_eq!(default_scan_cells(0, usize::MAX), 0);
    assert_eq!(total_cells(80, 24), 1920);
    assert_eq!(total_cells(65535, 65535), 4_294_836_225);
    assert_eq!(clamp_scan_cells(100, 80, 24), 100);
    assert_eq!(clamp_scan_cells(5000, 80, 24), 1920);
    assert_eq!(observation_counts(100, 10, 0), Some((10, 90)));
    assert_eq!(observation_counts(100, 250, 0), Some((100, 0)));
    assert_eq!(observation_counts(9, 1, 10), None);
    assert_eq!(observation_counts(10, 1, 10), Some((1, 9)));
    assert_eq!(DiffStrategy::DirtyRows.to_string(), "DirtyRows");
    assert_eq!(DiffStrategy::Full.as_str(), "Full");
    assert_eq!(DiffStrategy::FullRedraw.as_str(), "FullRedraw");
    assert_eq!(GuardReason::NoGuard.as_str(), "none");
    assert_eq!(GuardReason::UncertaintyVariance.as_str(), "uncertainty_variance");
}
