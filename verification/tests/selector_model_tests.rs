use ftui::diff_strategy::{
    clamp_scan_cells, default_scan_cells, observation_counts, select_candidate, total_cells,
    CostOrder, DiffStrategy, SelectorCore,
};

struct Config {
    c_scan: f64,
    c_emit: f64,
    c_row: f64,
    prior_alpha: f64,
    prior_beta: f64,
    decay: f64,
    hysteresis_ratio: f64,
    guard_variance: f64,
}

fn defaults() -> Config {
    Config {
        c_scan: 1.0,
        c_emit: 6.0,
        c_row: 0.1,
        prior_alpha: 1.0,
        prior_beta: 19.0,
        decay: 0.95,
        hysteresis_ratio: 0.05,
        guard_variance: 0.002,
    }
}

struct Selector {
    config: Config,
    alpha: f64,
    beta: f64,
    core: SelectorCore,
    costs: (f64, f64, f64),
}

impl Selector {
    fn new(config: Config) -> Selector {
        Selector {
            alpha: config.prior_alpha,
            beta: config.prior_beta,
            config,
            core: SelectorCore::new(),
            costs: (0.0, 0.0, 0.0),
        }
    }

    fn mean(&self) -> f64 {
        self.alpha / (self.alpha + self.beta)
    }

    fn variance(&self) -> f64 {
        let sum = self.alpha + self.beta;
        (self.alpha * self.beta) / (sum * sum * (sum + 1.0))
    }

    fn upper_quantile(&self, q: f64) -> f64 {
        let t = (-2.0 * (1.0 - q).ln()).sqrt();
        let z = t
            - (2.515517 + 0.802853 * t + 0.010328 * t * t)
                / (1.0 + 1.432788 * t + 0.189269 * t * t + 0.001308 * t * t * t);
        (self.mean() + z * self.variance().sqrt()).clamp(0.0, 1.0)
    }

    fn observe(&mut self, scanned: usize, changed: usize) {
        if let Some((changed, unchanged)) = observation_counts(scanned, changed, 0) {
            self.alpha = (self.alpha * self.config.decay + changed as f64).clamp(1e-6, 1e6);
            self.beta = (self.beta * self.config.decay + unchanged as f64).clamp(1e-6, 1e6);
        }
    }

    fn select(&mut self, width: u16, height: u16, dirty_rows: usize) -> DiffStrategy {
        let n = total_cells(width, height) as f64;
        let scan =
            clamp_scan_cells(default_scan_cells(width, dirty_rows), width, height) as f64;
        let guard =
            self.config.guard_variance > 0.0 && self.variance() > self.config.guard_variance;
        let p = if guard {
            self.upper_quantile(0.95)
        } else {
            self.mean()
        };
        let full = self.config.c_row * height as f64
            + self.config.c_scan * dirty_rows as f64 * width as f64
            + self.config.c_emit * p * n;
        let dirty = self.config.c_scan * scan + self.config.c_emit * p * n;
        let redraw = self.config.c_emit * n;
        self.costs = (full, dirty, redraw);
        let order = CostOrder {
            dirty_le_full: dirty <= full,
            dirty_le_redraw: dirty <= redraw,
            full_le_redraw: full <= redraw,
        };
        let cost_of = |s: DiffStrategy| match s {
            DiffStrategy::Full => full,
            DiffStrategy::DirtyRows => dirty,
            DiffStrategy::FullRedraw => redraw,
        };
        let candidate = select_candidate(order, guard);
        let gain_too_small = match self.core.last_strategy() {
            Some(prev) if self.core.needs_cost_test(candidate) => {
                let ratio = self.config.hysteresis_ratio;
                ratio > 0.0
                    && cost_of(prev).is_finite()
                    && cost_of(prev) > 0.0
                    && cost_of(candidate) >= cost_of(prev) * (1.0 - ratio)
            }
            _ => false,
        };
        self.core.decide(order, guard, gain_too_small).strategy
    }
}

fn fixed_costs(config: &Config, width: u16, height: u16, dirty_rows: usize, p: f64) -> (f64, f64, f64) {
    let n = width as f64 * height as f64;
    let scan = dirty_rows as f64 * width as f64;
    (
        config.c_row * height as f64 + config.c_scan * scan + config.c_emit * p * n,
        config.c_scan * scan + config.c_emit * p * n,
        config.c_emit * n,
    )
}

#[test]
fn default_selector_picks_dirty_rows_for_two_dirty_rows() {
    let mut selector = Selector::new(defaults());
    assert!((selector.mean() - 0.05).abs() < 1e-12);
    assert_eq!(selector.select(80, 24, 2), DiffStrategy::DirtyRows);
}

#[test]
fn high_prior_with_all_rows_dirty_has_finite_costs() {
    let mut selector = Selector::new(Config {
        prior_alpha: 9.0,
        prior_beta: 1.0,
        ..defaults()
    });
    assert!((selector.mean() - 0.9).abs() < 1e-12);
    let strategy = selector.select(80, 24, 24);
    assert!(matches!(
        strategy,
        DiffStrategy::Full | DiffStrategy::DirtyRows | DiffStrategy::FullRedraw
    ));
    let (full, dirty, redraw) = selector.costs;
    assert!(full.is_finite() && dirty.is_finite() && redraw.is_finite());
}

#[test]
fn tiny_guard_threshold_never_selects_full_redraw() {
    let mut selector = Selector::new(Config {
        c_scan: 10.0,
        c_emit: 1.0,
        guard_variance: 1e-6,
        ..defaults()
    });
    for frame in 0..50 {
        assert_ne!(selector.select(80, 24, 24), DiffStrategy::FullRedraw, "frame {frame}");
    }
}

#[test]
fn hysteresis_ratio_one_freezes_the_first_choice() {
    let mut selector = Selector::new(Config {
        hysteresis_ratio: 1.0,
        guard_variance: 0.0,
        ..defaults()
    });
    let first = selector.select(80, 24, 1);
    for dirty_rows in [24, 0, 12, 24, 3, 24] {
        assert_eq!(selector.select(80, 24, dirty_rows), first);
        selector.observe(1920, 1900);
    }
}

#[test]
fn equal_histories_select_alike() {
    let mut a = Selector::new(defaults());
    let mut b = Selector::new(defaults());
    for (scanned, changed, dirty) in [(100, 10, 5), (1920, 400, 20), (160, 0, 2), (1920, 1900, 24)] {
        a.observe(scanned, changed);
        b.observe(scanned, changed);
        assert_eq!(a.select(80, 24, dirty), b.select(80, 24, dirty));
        assert_eq!(a.costs, b.costs);
        assert_eq!((a.alpha, a.beta), (b.alpha, b.beta));
    }
}

#[test]
fn posterior_stays_in_range() {
    let mut selector = Selector::new(defaults());
    for scanned in [1usize, 10, 100, 1000, 10000, 1_000_000] {
        for changed in [0, 1, scanned / 10, scanned / 2, scanned, scanned * 2] {
            selector.observe(scanned, changed);
            assert!((0.0..=1.0).contains(&selector.mean()));
            assert!(selector.variance() >= 0.0);
        }
    }
}

#[test]
fn regret_stays_within_five_percent_across_regimes() {
    let mut selector = Selector::new(defaults());
    let config = defaults();
    let width = 200u16;
    let height = 60u16;
    let cells = width as usize * height as usize;
    let regimes = [(100usize, 2usize, 0.02f64), (100, 12, 0.12), (100, height as usize, 0.6)];

    let mut chosen_total = 0.0f64;
    let mut fixed = (0.0f64, 0.0f64, 0.0f64);
    for (frames, dirty_rows, p_actual) in regimes {
        for _ in 0..frames {
            let strategy = selector.select(width, height, dirty_rows);
            let (full, dirty, redraw) = fixed_costs(&config, width, height, dirty_rows, p_actual);
            fixed = (fixed.0 + full, fixed.1 + dirty, fixed.2 + redraw);
            chosen_total += match strategy {
                DiffStrategy::Full => full,
                DiffStrategy::DirtyRows => dirty,
                DiffStrategy::FullRedraw => redraw,
            };
            let changed = ((p_actual * cells as f64).round() as usize).min(cells);
            match strategy {
                DiffStrategy::Full => selector.observe(cells, changed),
                DiffStrategy::DirtyRows => {
                    selector.observe(dirty_rows.saturating_mul(width as usize), changed)
                }
                DiffStrategy::FullRedraw => {}
            }
        }
    }
    let best_fixed = fixed.0.min(fixed.1).min(fixed.2);
    let regret = (chosen_total - best_fixed) / best_fixed;
    assert!(regret <= 0.05, "regret {regret}");
}

#[test]
fn switching_is_stable_under_constant_load() {
    let mut selector = Selector::new(defaults());
    let mut switches = 0;
    let mut last = None;
    for _ in 0..200 {
        let strategy = selector.select(200, 60, 2);
        if last.is_some() && last != Some(strategy) {
            switches += 1;
        }
        last = Some(strategy);
        match strategy {
            DiffStrategy::Full => selector.observe(12000, 240),
            DiffStrategy::DirtyRows => selector.observe(400, 240),
            DiffStrategy::FullRedraw => {}
        }
    }
    assert!(switches <= 40, "switches {switches}");
}
