use rust_bot::indicators::windows::{
    atr_last_plan, ema_last_step, last_trailing_plan, needed_candles, nth_last_index,
    percentile_last_plan, percentile_step, pivot_center, pivot_last_plan, pivot_step,
    rsi_last_plan, seeded_step, stochastic_plan, trailing_window, trailing_windows,
    LastCandlePlan, PercentilePlan, PivotPlan, Span, StepPlan,
};

fn span(start: usize, end: usize) -> Span {
    Span { start, end }
}

#[test]
fn trailing_window_bounds() {
    assert_eq!(trailing_window(3, 4), None);
    assert_eq!(trailing_window(4, 4), Some(span(0, 4)));
    assert_eq!(trailing_window(10, 4), Some(span(6, 10)));
    assert_eq!(trailing_window(5, 0), Some(span(5, 5)));
}

#[test]
fn sma_series_plan_of_ten_candles() {
    // SMA of length 8 over 10 candles: the first 7 get no value.
    let plan = trailing_windows(10, 8);
    assert_eq!(plan.len(), 10);
    for (i, w) in plan.iter().enumerate() {
        if i < 7 {
            assert_eq!(*w, None);
        } else {
            assert_eq!(*w, Some(span(i + 1 - 8, i + 1)));
        }
    }
    assert_eq!(trailing_windows(0, 8), Vec::<Option<Span>>::new());
}

#[test]
fn last_trailing_plan_cases() {
    assert_eq!(last_trailing_plan(0, 8), LastCandlePlan::NoCandle);
    assert_eq!(last_trailing_plan(7, 8), LastCandlePlan::NotEnough);
    assert_eq!(last_trailing_plan(10, 8), LastCandlePlan::Compute(span(2, 10)));
}

#[test]
fn last_trailing_matches_series() {
    for n in 1..30usize {
        for len in 0..12usize {
            let series = trailing_windows(n, len);
            let expected = match series[n - 1] {
                None => LastCandlePlan::NotEnough,
                Some(s) => LastCandlePlan::Compute(s),
            };
            assert_eq!(last_trailing_plan(n, len), expected);
        }
    }
}

#[test]
fn seeded_steps_of_ema() {
    // EMA of length 8 over 10 candles.
    for i in 0..8 {
        assert_eq!(seeded_step(i, 8, false), StepPlan::Skip);
    }
    assert_eq!(seeded_step(8, 8, false), StepPlan::Seed(span(0, 9)));
    assert_eq!(seeded_step(8, 8, true), StepPlan::Seed(span(0, 9)));
    assert_eq!(seeded_step(9, 8, true), StepPlan::Roll { prev: 8, curr: 9 });
    assert_eq!(seeded_step(9, 8, false), StepPlan::Seed(span(1, 10)));
}

#[test]
fn ema_last_step_cases() {
    assert_eq!(ema_last_step(10, 8, true), StepPlan::Roll { prev: 8, curr: 9 });
    assert_eq!(ema_last_step(10, 8, false), StepPlan::Seed(span(2, 9)));
}

#[test]
fn atr_last_plan_cases() {
    assert_eq!(atr_last_plan(0, 14, false), LastCandlePlan::NoCandle);
    assert_eq!(atr_last_plan(14, 14, false), LastCandlePlan::NotEnough);
    assert_eq!(atr_last_plan(15, 14, false), LastCandlePlan::Compute(StepPlan::Seed(span(0, 15))));
    assert_eq!(
        atr_last_plan(16, 14, true),
        LastCandlePlan::Compute(StepPlan::Roll { prev: 14, curr: 15 })
    );
}

#[test]
fn atr_last_matches_series() {
    for n in 1..40usize {
        for len in 0..20usize {
            let prev_present = n - 1 > len;
            let step = seeded_step(n - 1, len, prev_present);
            let expected = match step {
                StepPlan::Skip => LastCandlePlan::NotEnough,
                s => LastCandlePlan::Compute(s),
            };
            assert_eq!(atr_last_plan(n, len, prev_present), expected);
        }
    }
}

#[test]
fn rsi_last_plan_cases() {
    assert_eq!(rsi_last_plan(10, 14, false), LastCandlePlan::NotEnough);
    assert_eq!(rsi_last_plan(14, 14, false), LastCandlePlan::Compute(StepPlan::Seed(span(0, 13))));
    assert_eq!(
        rsi_last_plan(151, 14, true),
        LastCandlePlan::Compute(StepPlan::Roll { prev: 149, curr: 150 })
    );
}

#[test]
fn percentile_plan_of_bbwp() {
    // BBWP of length 13, lookback 252, moving average over 5 values.
    assert_eq!(percentile_step(12, 13, 252, 5), None);
    assert_eq!(
        percentile_step(13, 13, 252, 5),
        Some(PercentilePlan { window: span(0, 13), ma_window: None })
    );
    assert_eq!(
        percentile_step(18, 13, 252, 5),
        Some(PercentilePlan { window: span(0, 18), ma_window: Some(span(13, 18)) })
    );
    assert_eq!(
        percentile_step(300, 13, 252, 5),
        Some(PercentilePlan { window: span(35, 300), ma_window: Some(span(295, 300)) })
    );
    assert_eq!(
        percentile_step(265, 13, 252, 5),
        Some(PercentilePlan { window: span(0, 265), ma_window: Some(span(260, 265)) })
    );
}

#[test]
fn percentile_last_plan_cases() {
    assert_eq!(percentile_last_plan(0, 13, 252, 5), LastCandlePlan::NoCandle);
    assert_eq!(percentile_last_plan(12, 13, 252, 5), LastCandlePlan::NotEnough);
    for n in 13..300usize {
        assert_eq!(
            percentile_last_plan(n, 13, 252, 5),
            LastCandlePlan::Compute(percentile_step(n, 13, 252, 5).unwrap())
        );
    }
}

#[test]
fn pivot_steps_store_on_middle_candle() {
    // Dynamic pivots of length 15: window of 31 candles.
    assert_eq!(pivot_step(0, 15), PivotPlan { window: None, target: 0 });
    assert_eq!(pivot_step(14, 15), PivotPlan { window: None, target: 14 });
    assert_eq!(pivot_step(15, 15), PivotPlan { window: None, target: 0 });
    assert_eq!(pivot_step(30, 15), PivotPlan { window: Some(span(0, 31)), target: 15 });
    assert_eq!(pivot_step(40, 15), PivotPlan { window: Some(span(10, 41)), target: 25 });
}

#[test]
fn pivot_last_plan_cases() {
    assert_eq!(pivot_last_plan(0, 15), LastCandlePlan::NoCandle);
    assert_eq!(pivot_last_plan(10, 15), LastCandlePlan::NotEnough);
    assert_eq!(pivot_last_plan(41, 15), LastCandlePlan::Compute((span(10, 41), 25)));
    let step = pivot_step(40, 15);
    assert_eq!(pivot_last_plan(41, 15), LastCandlePlan::Compute((step.window.unwrap(), step.target)));
}

#[test]
fn pivot_center_of_segments() {
    assert_eq!(pivot_center(31), Some(15));
    assert_eq!(pivot_center(3), Some(1));
    assert_eq!(pivot_center(30), None);
    assert_eq!(pivot_center(0), None);
    assert_eq!(pivot_center(1), Some(0));
}

#[test]
fn nth_last_indices() {
    assert_eq!(nth_last_index(10, 1), Some(9));
    assert_eq!(nth_last_index(10, 2), Some(8));
    assert_eq!(nth_last_index(10, 10), Some(0));
    assert_eq!(nth_last_index(10, 11), None);
    assert_eq!(nth_last_index(10, 0), None);
    assert_eq!(nth_last_index(0, 1), None);
}

#[test]
fn stochastic_needed_candles() {
    assert_eq!(needed_candles(14, 1, 3), 16);
    assert_eq!(needed_candles(14, 3, 6), 21);
}

#[test]
fn stochastic_plan_of_krown_args() {
    assert_eq!(stochastic_plan(20, 14, 3, 6), None);
    let plan = stochastic_plan(21, 14, 3, 6).unwrap();
    assert_eq!(plan.k_spans.len(), 8);
    assert_eq!(plan.k_spans[0], span(7, 21));
    assert_eq!(plan.k_spans[7], span(0, 14));
    let smoothing = plan.smoothing.unwrap();
    assert_eq!(smoothing.len(), 6);
    assert_eq!(smoothing[0], span(0, 3));
    assert_eq!(smoothing[5], span(5, 8));
    assert_eq!(plan.d_count, 6);

    let plan = stochastic_plan(100, 14, 3, 6).unwrap();
    assert_eq!(plan.k_spans.len(), 9);
    assert_eq!(plan.k_spans[0], span(86, 100));
    assert_eq!(plan.smoothing.unwrap().len(), 7);
    assert_eq!(plan.d_count, 6);
}

#[test]
fn stochastic_plan_without_smoothing() {
    let plan = stochastic_plan(16, 14, 1, 3).unwrap();
    assert_eq!(plan.k_spans, vec![span(2, 16), span(1, 15), span(0, 14)]);
    assert_eq!(plan.smoothing, None);
    assert_eq!(plan.d_count, 3);
}

#[test]
fn needed_candles_suffice_for_d() {
    for k in 1..10usize {
        for ks in 1..6usize {
            for ds in 0..6usize {
                if k + ks + ds < 2 {
                    continue;
                }
                let m = needed_candles(k, ks, ds);
                for extra in 0..5 {
                    let plan = stochastic_plan(m + extra, k, ks, ds).unwrap();
                    assert_eq!(plan.d_count, ds);
                }
            }
        }
    }
}
