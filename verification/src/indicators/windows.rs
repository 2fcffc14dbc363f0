//! Which candles each indicator value is computed over.
//!
//! Indicator values themselves are floating point and are computed outside
//! this crate; the functions here decide, for every candle of a series, the
//! range of candles an indicator value is computed from, whether it is
//! computed from scratch or rolled forward from the previous value, and
//! where the value is stored.
use vstd::prelude::*;

verus! {

/// The half-open range `[start, end)` of candle indices.
#[derive(Debug, Clone, Copy, PartialEq, Eq, Structural)]
pub struct Span {
    pub start: usize,
    pub end: usize,
}

/// The `len` candles that end just before index `end`, when there are that
/// many.
pub open spec fn spec_trailing(end: usize, len: usize) -> Option<Span> {
    if end < len {
        None
    } else {
        Some(Span { start: (end - len) as usize, end })
    }
}

/// The window of candles `len` long ending just before `end`; `None` when
/// fewer than `len` candles precede `end`.
pub fn trailing_window(end: usize, len: usize) -> (r: Option<Span>)
    ensures
        r == spec_trailing(end, len),
        r matches Some(s) ==> s.end - s.start == len && s.end == end,
{
    if end < len {
        None
    } else {
        Some(Span { start: end - len, end })
    }
}

/// For each of the first `n` candles, the window of `len` candles that ends
/// with it (the plan by which SMA, Bollinger bands, BBW and the stochastic
/// oscillator populate a whole series).
pub fn trailing_windows(n: usize, len: usize) -> (r: Vec<Option<Span>>)
    ensures
        r@.len() == n,
        forall|i: int| 0 <= i < n ==> #[trigger] r@[i] == spec_trailing((i + 1) as usize, len),
{
    let mut r: Vec<Option<Span>> = Vec::new();
    let mut i: usize = 0;
    while i < n
        invariant
            i <= n,
            r@.len() == i,
            forall|j: int| 0 <= j < i ==> #[trigger] r@[j] == spec_trailing((j + 1) as usize, len),
        decreases n - i,
    {
        let w = trailing_window(i + 1, len);
        r.push(w);
        i = i + 1;
    }
    r
}

/// What populating the last candle of a series with `n` candles comes to.
#[derive(Debug, Clone, Copy, PartialEq, Eq)]
pub enum LastCandlePlan<T> {
    /// The series holds no candle.
    NoCandle,
    /// The series holds too few candles: the last candle gets no value.
    NotEnough,
    /// The value is computed as described.
    Compute(T),
}

/// Populating the last of `n` candles with an indicator computed over the
/// `len` candles ending with it.
pub open spec fn spec_last_trailing(n: usize, len: usize) -> LastCandlePlan<Span> {
    if n == 0 {
        LastCandlePlan::NoCandle
    } else if n < len {
        LastCandlePlan::NotEnough
    } else {
        LastCandlePlan::Compute(Span { start: (n - len) as usize, end: n })
    }
}

/// The plan by which SMA, PMAR, Bollinger bands, BBW and the stochastic
/// oscillator populate the last of `n` candles.
pub fn last_trailing_plan(n: usize, len: usize) -> (r: LastCandlePlan<Span>)
    ensures
        r == spec_last_trailing(n, len),
{
    if n == 0 {
        LastCandlePlan::NoCandle
    } else if n < len {
        LastCandlePlan::NotEnough
    } else {
        LastCandlePlan::Compute(Span { start: n - len, end: n })
    }
}

/// How one value of a rolling indicator (EMA, ATR, RSI) is obtained.
#[derive(Debug, Clone, Copy, PartialEq, Eq, Structural)]
pub enum StepPlan {
    /// Not enough candles precede: no value.
    Skip,
    /// Computed from scratch over the span.
    Seed(Span),
    /// Rolled forward from the previous value with candles `prev` and `curr`.
    Roll { prev: usize, curr: usize },
}

/// The value of a rolling indicator of length `len` at candle `i`, where
/// `prev_present` tells whether the candle before has a value.
pub open spec fn spec_seeded_step(i: usize, len: usize, prev_present: bool) -> StepPlan {
    if i < len {
        StepPlan::Skip
    } else if i == len || !prev_present {
        StepPlan::Seed(Span { start: (i - len) as usize, end: (i + 1) as usize })
    } else {
        StepPlan::Roll { prev: (i - 1) as usize, curr: i }
    }
}

/// How EMA, ATR and RSI populate candle `i` of a series: nothing for the
/// first `len` candles, a value computed over the `len + 1` candles ending
/// at `i` for the first one after them (or whenever the previous value is
/// missing), and a value rolled forward from the previous one otherwise.
pub fn seeded_step(i: usize, len: usize, prev_present: bool) -> (r: StepPlan)
    requires
        i < usize::MAX,
    ensures
        r == spec_seeded_step(i, len, prev_present),
        r matches StepPlan::Seed(s) ==> s.end - s.start == len + 1 && s.end == i + 1,
        r matches StepPlan::Roll { prev, curr } ==> prev + 1 == curr && curr == i,
{
    if i < len {
        StepPlan::Skip
    } else if i == len || !prev_present {
        StepPlan::Seed(Span { start: i - len, end: i + 1 })
    } else {
        StepPlan::Roll { prev: i - 1, curr: i }
    }
}

/// EMA's value for the last of `n` candles.
pub open spec fn spec_ema_last_step(n: usize, len: usize, prev_present: bool) -> StepPlan {
    if !prev_present {
        StepPlan::Seed(Span { start: (n - len) as usize, end: (n - 1) as usize })
    } else {
        StepPlan::Roll { prev: (n - 2) as usize, curr: (n - 1) as usize }
    }
}

/// How EMA populates the last of `n` candles, given whether the second last
/// candle has an EMA value: computed over the candles `[n - len, n - 1)`
/// when it has none, rolled forward from it otherwise.
pub fn ema_last_step(n: usize, len: usize, prev_present: bool) -> (r: StepPlan)
    requires
        n >= 2,
        prev_present || 1 <= len <= n,
    ensures
        r == spec_ema_last_step(n, len, prev_present),
{
    if !prev_present {
        StepPlan::Seed(Span { start: n - len, end: n - 1 })
    } else {
        StepPlan::Roll { prev: n - 2, curr: n - 1 }
    }
}

/// ATR's plan for the last of `n` candles.
pub open spec fn spec_atr_last_plan(n: usize, len: usize, prev_present: bool) -> LastCandlePlan<
    StepPlan,
> {
    if n == 0 {
        LastCandlePlan::NoCandle
    } else if n <= len {
        LastCandlePlan::NotEnough
    } else if !prev_present {
        LastCandlePlan::Compute(
            StepPlan::Seed(Span { start: (n - len - 1) as usize, end: n }),
        )
    } else {
        LastCandlePlan::Compute(StepPlan::Roll { prev: (n - 2) as usize, curr: (n - 1) as usize })
    }
}

/// How ATR populates the last of `n` candles, given whether the second last
/// candle has an ATR value.
pub fn atr_last_plan(n: usize, len: usize, prev_present: bool) -> (r: LastCandlePlan<StepPlan>)
    requires
        prev_present ==> n >= 2,
    ensures
        r == spec_atr_last_plan(n, len, prev_present),
        n == 0 ==> r is NoCandle,
        0 < n <= len ==> r is NotEnough,
        n > len && !prev_present ==> (r matches LastCandlePlan::Compute(StepPlan::Seed(s)) && s.end
            == n && s.end - s.start == len + 1),
        n > len && prev_present ==> r == LastCandlePlan::Compute(
            StepPlan::Roll { prev: (n - 2) as usize, curr: (n - 1) as usize },
        ),
{
    if n == 0 {
        LastCandlePlan::NoCandle
    } else if n <= len {
        LastCandlePlan::NotEnough
    } else if !prev_present {
        LastCandlePlan::Compute(StepPlan::Seed(Span { start: n - len - 1, end: n }))
    } else {
        LastCandlePlan::Compute(StepPlan::Roll { prev: n - 2, curr: n - 1 })
    }
}

/// RSI's plan for the last of `n` candles; `NotEnough` stands for the error
/// that RSI reports when the series is shorter than `len`.
pub open spec fn spec_rsi_last_plan(n: usize, len: usize, prev_present: bool) -> LastCandlePlan<
    StepPlan,
> {
    if n < len {
        LastCandlePlan::NotEnough
    } else if !prev_present {
        LastCandlePlan::Compute(
            StepPlan::Seed(Span { start: (n - len) as usize, end: (n - 1) as usize }),
        )
    } else {
        LastCandlePlan::Compute(StepPlan::Roll { prev: (n - 2) as usize, curr: (n - 1) as usize })
    }
}

/// How RSI populates the last of `n` candles, given whether the second last
/// candle has an RSI value.
pub fn rsi_last_plan(n: usize, len: usize, prev_present: bool) -> (r: LastCandlePlan<StepPlan>)
    requires
        prev_present ==> n >= 2,
        n >= len && !prev_present ==> len >= 1,
    ensures
        r == spec_rsi_last_plan(n, len, prev_present),
        n < len ==> r is NotEnough,
        n >= len && !prev_present ==> (r matches LastCandlePlan::Compute(StepPlan::Seed(s))
            && s.start == n - len && s.end == n - 1 && s.end - s.start == len - 1),
        n >= len && prev_present ==> r == LastCandlePlan::Compute(
            StepPlan::Roll { prev: (n - 2) as usize, curr: (n - 1) as usize },
        ),
{
    if n < len {
        LastCandlePlan::NotEnough
    } else if !prev_present {
        LastCandlePlan::Compute(StepPlan::Seed(Span { start: n - len, end: n - 1 }))
    } else {
        LastCandlePlan::Compute(StepPlan::Roll { prev: n - 2, curr: n - 1 })
    }
}

} // verus!

verus! {

/// First candle of the window that a percentile indicator (BBWP, PMARP)
/// ending before `end` looks back over: `lookback + len` candles, or all
/// candles when there are fewer.
pub open spec fn spec_lookback_start(end: usize, len: usize, lookback: usize) -> usize {
    if end > lookback + len {
        (end - lookback - len) as usize
    } else {
        0
    }
}

/// What a percentile indicator (BBWP, PMARP) computes for one candle.
#[derive(Debug, Clone, Copy, PartialEq, Eq, Structural)]
pub struct PercentilePlan {
    /// The candles the percentile is computed over.
    pub window: Span,
    /// The candles whose percentile values are averaged, when there are
    /// enough of them.
    pub ma_window: Option<Span>,
}

/// The percentile value, of length `len`, lookback `lookback` and moving
/// average length `ma_len`, of the candle just before `end`.
pub open spec fn spec_percentile_step(end: usize, len: usize, lookback: usize, ma_len: usize) -> Option<
    PercentilePlan,
> {
    if end < len {
        None
    } else {
        Some(
            PercentilePlan {
                window: Span { start: spec_lookback_start(end, len, lookback), end },
                ma_window: if end < len + ma_len {
                    None
                } else {
                    Some(Span { start: (end - ma_len) as usize, end })
                },
            },
        )
    }
}

/// How BBWP and PMARP populate the candle just before `end`: nothing before
/// `len` candles; otherwise a percentile over the last `lookback + len`
/// candles (or all of them), averaged over the last `ma_len` percentile
/// values once `len + ma_len` candles are there.
pub fn percentile_step(end: usize, len: usize, lookback: usize, ma_len: usize) -> (r: Option<
    PercentilePlan,
>)
    requires
        len + lookback <= usize::MAX,
        len + ma_len <= usize::MAX,
    ensures
        r == spec_percentile_step(end, len, lookback, ma_len),
        r matches Some(p) ==> p.window.start <= p.window.end == end
            && p.window.end - p.window.start <= lookback + len,
        r is None <==> end < len,
        r matches Some(p) ==> (p.window.start == if end > lookback + len {
            end - lookback - len
        } else {
            0
        }),
        r matches Some(p) ==> (p.ma_window is Some <==> end >= len + ma_len),
        r matches Some(p) ==> (p.ma_window matches Some(w) ==> w.end == end && w.end - w.start
            == ma_len),
{
    if end < len {
        None
    } else {
        let start = if end > lookback + len {
            end - lookback - len
        } else {
            0
        };
        let ma_window = if end < len + ma_len {
            None
        } else {
            Some(Span { start: end - ma_len, end })
        };
        Some(PercentilePlan { window: Span { start, end }, ma_window })
    }
}

/// The percentile plan for the last of `n` candles.
pub open spec fn spec_percentile_last_plan(
    n: usize,
    len: usize,
    lookback: usize,
    ma_len: usize,
) -> LastCandlePlan<PercentilePlan> {
    if n == 0 {
        LastCandlePlan::NoCandle
    } else {
        match spec_percentile_step(n, len, lookback, ma_len) {
            None => LastCandlePlan::NotEnough,
            Some(p) => LastCandlePlan::Compute(p),
        }
    }
}

/// How BBWP and PMARP populate the last of `n` candles.
pub fn percentile_last_plan(n: usize, len: usize, lookback: usize, ma_len: usize) -> (r:
    LastCandlePlan<PercentilePlan>)
    requires
        len + lookback <= usize::MAX,
        len + ma_len <= usize::MAX,
    ensures
        r == spec_percentile_last_plan(n, len, lookback, ma_len),
        n == 0 ==> r is NoCandle,
        0 < n < len ==> r is NotEnough,
        r matches LastCandlePlan::Compute(p) ==> n >= 1 && n >= len && p.window.end == n
            && p.window.end - p.window.start == (if n > lookback + len {
            lookback + len
        } else {
            n as int
        }) && (p.ma_window is Some <==> n >= len + ma_len) && (p.ma_window matches Some(w)
            ==> w.end == n && w.end - w.start == ma_len),
{
    if n == 0 {
        LastCandlePlan::NoCandle
    } else {
        match percentile_step(n, len, lookback, ma_len) {
            None => LastCandlePlan::NotEnough,
            Some(p) => LastCandlePlan::Compute(p),
        }
    }
}

/// Where a dynamic pivot is computed and stored.
#[derive(Debug, Clone, Copy, PartialEq, Eq, Structural)]
pub struct PivotPlan {
    /// The `2 * len + 1` candles the pivot is computed over, when there are
    /// that many.
    pub window: Option<Span>,
    /// The candle the result is stored on.
    pub target: usize,
}

/// The pivot step of length `len` for candle `i`.
pub open spec fn spec_pivot_step(i: usize, len: usize) -> PivotPlan {
    PivotPlan {
        window: spec_trailing((i + 1) as usize, (2 * len + 1) as usize),
        target: if i + 1 <= len {
            i
        } else {
            (i - len) as usize
        },
    }
}

/// How dynamic pivots of length `len` populate a series at candle `i`: the
/// pivot is computed over the `2 * len + 1` candles ending at `i` and stored
/// on the candle `len` places back, which is the middle of that window.
pub fn pivot_step(i: usize, len: usize) -> (r: PivotPlan)
    requires
        i < usize::MAX,
        2 * len + 1 <= usize::MAX,
    ensures
        r == spec_pivot_step(i, len),
        r.target <= i,
        r.window matches Some(w) ==> w.start + len == r.target && r.target + len + 1 == w.end,
{
    let min_len = 2 * len + 1;
    let end = i + 1;
    let window = trailing_window(end, min_len);
    let target = if end <= len {
        i
    } else {
        i - len
    };
    PivotPlan { window, target }
}

/// The pivot plan for the last of `n` candles: the window and the candle the
/// result is stored on.
pub open spec fn spec_pivot_last_plan(n: usize, len: usize) -> LastCandlePlan<(Span, usize)> {
    if n == 0 {
        LastCandlePlan::NoCandle
    } else if n < len {
        LastCandlePlan::NotEnough
    } else {
        LastCandlePlan::Compute(
            (Span { start: (n - (2 * len + 1)) as usize, end: n }, (n - (len + 1)) as usize),
        )
    }
}

/// How dynamic pivots of length `len` populate the last of `n` candles.
pub fn pivot_last_plan(n: usize, len: usize) -> (r: LastCandlePlan<(Span, usize)>)
    requires
        2 * len + 1 <= usize::MAX,
        n < len || n >= 2 * len + 1,
    ensures
        r == spec_pivot_last_plan(n, len),
        r matches LastCandlePlan::Compute(p) ==> p.0.start + len == p.1 && p.1 + len + 1 == p.0.end,
{
    if n == 0 {
        LastCandlePlan::NoCandle
    } else if n < len {
        LastCandlePlan::NotEnough
    } else {
        LastCandlePlan::Compute((Span { start: n - (2 * len + 1), end: n }, n - (len + 1)))
    }
}

/// The candle a dynamic pivot over `m` candles is centred on: `None` for an
/// even number of candles.
pub open spec fn spec_pivot_center(m: usize) -> Option<usize> {
    if m % 2 == 0 {
        None
    } else {
        Some(((m - 1) / 2) as usize)
    }
}

/// The middle candle of a pivot window of `m` candles; the pivot compares
/// every candle with it and falls back on the pivot stored on the candle
/// before it (so a window of one candle, whose middle has none before it,
/// cannot be computed over).
pub fn pivot_center(m: usize) -> (r: Option<usize>)
    ensures
        r == spec_pivot_center(m),
        r matches Some(c) ==> 2 * c + 1 == m,
{
    if m % 2 == 0 {
        None
    } else {
        Some((m - 1) / 2)
    }
}

/// Index of the `i`-th last of `n` candles (1 is the last one).
pub open spec fn spec_nth_last(n: usize, i: usize) -> Option<usize> {
    if n < i || i == 0 {
        None
    } else {
        Some((n - i) as usize)
    }
}

/// Index of the `i`-th last of `n` candles, where 1 is the last one; `None`
/// when there is no such candle.
pub fn nth_last_index(n: usize, i: usize) -> (r: Option<usize>)
    ensures
        r == spec_nth_last(n, i),
        r matches Some(k) ==> k < n,
{
    if n < i || i == 0 {
        None
    } else {
        Some(n - i)
    }
}

} // verus!

verus! {

/// Fewest candles the stochastic oscillator is computed from.
pub open spec fn spec_needed_candles(k_len: usize, k_smoothing: usize, d_smoothing: usize) -> int {
    k_len + k_smoothing + d_smoothing - 2
}

/// The number of candles the stochastic oscillator with these lengths needs:
/// `k_len + k_smoothing + d_smoothing - 2`.
pub fn needed_candles(k_len: usize, k_smoothing: usize, d_smoothing: usize) -> (n: usize)
    requires
        2 <= k_len + k_smoothing + d_smoothing <= usize::MAX,
    ensures
        n == spec_needed_candles(k_len, k_smoothing, d_smoothing),
{
    k_len + k_smoothing + d_smoothing - 2
}

/// How many raw %K values the oscillator computes over `m` candles: one per
/// window of `k_len` candles, newest first, at most `k_smoothing + d_smoothing`.
pub open spec fn spec_raw_k_count(m: usize, k_len: usize, k_smoothing: usize, d_smoothing: usize) -> int {
    if m < k_len {
        0
    } else if m - k_len + 1 < k_smoothing + d_smoothing {
        m - k_len + 1
    } else {
        k_smoothing + d_smoothing
    }
}

/// How many %K values remain after smoothing `raw` raw values over
/// `k_smoothing` of them (no smoothing unless `k_smoothing > 1`).
pub open spec fn spec_smoothed_count(raw: int, k_smoothing: usize) -> int {
    if k_smoothing <= 1 {
        raw
    } else if raw < k_smoothing {
        0
    } else {
        raw - k_smoothing + 1
    }
}

/// How many %K values %D averages.
pub open spec fn spec_d_count(smoothed: int, d_smoothing: usize) -> int {
    if smoothed < d_smoothing {
        smoothed
    } else {
        d_smoothing as int
    }
}

/// How the stochastic oscillator is computed over a segment of candles.
#[derive(Debug, Clone, PartialEq, Eq)]
pub struct StochasticPlan {
    /// Windows of `k_len` candles, newest first; raw %K `t` is the position
    /// of the last close of window `t` between its lowest low and highest
    /// high.
    pub k_spans: Vec<Span>,
    /// When `k_smoothing > 1`: smoothed %K `t` is the mean of the raw %K
    /// values in span `t` of the raw values.
    pub smoothing: Option<Vec<Span>>,
    /// %D is the mean of this many first (newest) %K values; %K is the
    /// first of them.
    pub d_count: usize,
}

/// Raw %K window `t` over `m` candles.
pub open spec fn spec_k_span(m: usize, k_len: usize, t: int) -> Span {
    Span { start: (m - k_len - t) as usize, end: (m - t) as usize }
}

/// Smoothing span `t` over the raw %K values.
pub open spec fn spec_smoothing_span(k_smoothing: usize, t: int) -> Span {
    Span { start: t as usize, end: (t + k_smoothing) as usize }
}

/// `plan` is how the oscillator with these lengths is computed over `m`
/// candles.
pub open spec fn stochastic_plan_matches(
    plan: StochasticPlan,
    m: usize,
    k_len: usize,
    k_smoothing: usize,
    d_smoothing: usize,
) -> bool {
    let raw = spec_raw_k_count(m, k_len, k_smoothing, d_smoothing);
    let smoothed = spec_smoothed_count(raw, k_smoothing);
    &&& plan.k_spans@.len() == raw
    &&& forall|t: int| 0 <= t < raw ==> #[trigger] plan.k_spans@[t] == spec_k_span(m, k_len, t)
    &&& (k_smoothing <= 1 ==> plan.smoothing is None)
    &&& (k_smoothing > 1 ==> (plan.smoothing matches Some(spans) && spans@.len() == smoothed
        && forall|t: int| 0 <= t < smoothed ==> #[trigger] spans@[t] == spec_smoothing_span(k_smoothing, t)))
    &&& plan.d_count == spec_d_count(smoothed, d_smoothing)
}

/// How the stochastic oscillator with lengths `k_len`, `k_smoothing` and
/// `d_smoothing` is computed over a segment of `m` candles: `None` when the
/// segment is shorter than `needed_candles`.
pub fn stochastic_plan(m: usize, k_len: usize, k_smoothing: usize, d_smoothing: usize) -> (r: Option<
    StochasticPlan,
>)
    requires
        2 <= k_len + k_smoothing + d_smoothing <= usize::MAX,
        m >= spec_needed_candles(k_len, k_smoothing, d_smoothing) ==> k_len >= 1,
    ensures
        r is None <==> m < spec_needed_candles(k_len, k_smoothing, d_smoothing),
        r matches Some(plan) ==> stochastic_plan_matches(plan, m, k_len, k_smoothing, d_smoothing),
        r matches Some(plan) ==> plan.k_spans@.len() == (if m < k_len {
            0
        } else if m - k_len + 1 < k_smoothing + d_smoothing {
            m - k_len + 1
        } else {
            k_smoothing + d_smoothing
        }),
        r matches Some(plan) ==> forall|t: int|
            0 <= t < plan.k_spans@.len() ==> #[trigger] plan.k_spans@[t].end == m - t
                && plan.k_spans@[t].end - plan.k_spans@[t].start == k_len,
        r matches Some(plan) ==> (plan.smoothing is Some <==> k_smoothing > 1),
        r matches Some(plan) ==> (plan.smoothing matches Some(spans) ==> spans@.len() == (if plan.k_spans@.len()
            < k_smoothing {
            0
        } else {
            plan.k_spans@.len() - k_smoothing + 1
        }) && forall|t: int|
            0 <= t < spans@.len() ==> #[trigger] spans@[t].start == t && spans@[t].end == t
                + k_smoothing),
        r matches Some(plan) ==> plan.d_count == (if plan.smoothing is Some {
            if plan.smoothing->Some_0@.len() < d_smoothing {
                plan.smoothing->Some_0@.len() as int
            } else {
                d_smoothing as int
            }
        } else if plan.k_spans@.len() < d_smoothing {
            plan.k_spans@.len() as int
        } else {
            d_smoothing as int
        }),
{
    let needed = needed_candles(k_len, k_smoothing, d_smoothing);
    if m < needed {
        return None;
    }
    let raw: usize = if m < k_len {
        0
    } else if m - k_len + 1 < k_smoothing + d_smoothing {
        m - k_len + 1
    } else {
        k_smoothing + d_smoothing
    };
    let mut k_spans: Vec<Span> = Vec::new();
    let mut t: usize = 0;
    while t < raw
        invariant
            raw == spec_raw_k_count(m, k_len, k_smoothing, d_smoothing),
            t <= raw,
            k_spans@.len() == t,
            forall|j: int| 0 <= j < t ==> #[trigger] k_spans@[j] == spec_k_span(m, k_len, j),
        decreases raw - t,
    {
        k_spans.push(Span { start: m - k_len - t, end: m - t });
        t = t + 1;
    }
    let smoothed: usize = if k_smoothing <= 1 {
        raw
    } else if raw < k_smoothing {
        0
    } else {
        raw - k_smoothing + 1
    };
    let smoothing = if k_smoothing > 1 {
        let mut spans: Vec<Span> = Vec::new();
        let mut t: usize = 0;
        while t < smoothed
            invariant
                k_smoothing > 1,
                smoothed == spec_smoothed_count(raw as int, k_smoothing),
                raw <= k_smoothing + d_smoothing,
                t <= smoothed,
                spans@.len() == t,
                forall|j: int| 0 <= j < t ==> #[trigger] spans@[j] == spec_smoothing_span(k_smoothing, j),
            decreases smoothed - t,
        {
            spans.push(Span { start: t, end: t + k_smoothing });
            t = t + 1;
        }
        Some(spans)
    } else {
        None
    };
    let d_count = if smoothed < d_smoothing {
        smoothed
    } else {
        d_smoothing
    };
    Some(StochasticPlan { k_spans, smoothing, d_count })
}

/// With at least `needed_candles` candles and `k_smoothing >= 1`, the
/// oscillator has every %K value that %D averages: `d_smoothing` of them,
/// and so a %K value whenever `d_smoothing >= 1`.
pub proof fn lemma_needed_candles_suffice(
    m: usize,
    k_len: usize,
    k_smoothing: usize,
    d_smoothing: usize,
)
    requires
        k_len >= 1,
        k_smoothing >= 1,
        m >= spec_needed_candles(k_len, k_smoothing, d_smoothing),
    ensures
        spec_d_count(
            spec_smoothed_count(spec_raw_k_count(m, k_len, k_smoothing, d_smoothing), k_smoothing),
            d_smoothing,
        ) == d_smoothing,
{
}

} // verus!

verus! {

/// The value the whole-series population gives candle `n - 1`, as a
/// last-candle plan.
pub open spec fn as_last_plan<T>(v: Option<T>) -> LastCandlePlan<T> {
    match v {
        None => LastCandlePlan::NotEnough,
        Some(t) => LastCandlePlan::Compute(t),
    }
}

/// The step of a rolling indicator as a last-candle plan.
pub open spec fn step_as_last_plan(s: StepPlan) -> LastCandlePlan<StepPlan> {
    match s {
        StepPlan::Skip => LastCandlePlan::NotEnough,
        _ => LastCandlePlan::Compute(s),
    }
}

/// Populating only the last of `n` candles with a trailing-window indicator
/// (SMA, PMAR, Bollinger bands, BBW, stochastic) uses the window that
/// populating the whole series gives that candle.
pub proof fn lemma_last_trailing_matches_series(n: usize, len: usize)
    requires
        n >= 1,
    ensures
        spec_last_trailing(n, len) == as_last_plan(spec_trailing(n, len)),
{
}

/// Populating only the last of `n` candles with BBWP or PMARP uses the
/// window and moving-average window that populating the whole series gives
/// that candle.
pub proof fn lemma_last_percentile_matches_series(n: usize, len: usize, lookback: usize, ma_len: usize)
    requires
        n >= 1,
    ensures
        spec_percentile_last_plan(n, len, lookback, ma_len) == as_last_plan(
            spec_percentile_step(n, len, lookback, ma_len),
        ),
{
}

/// Populating only the last of `n` candles with ATR decides as populating
/// the whole series does, whenever the second last candle has a value
/// exactly when the whole-series population gives it one.
pub proof fn lemma_last_atr_matches_series(n: usize, len: usize, prev_present: bool)
    requires
        n >= 1,
        prev_present <==> n - 1 > len,
    ensures
        spec_atr_last_plan(n, len, prev_present) == step_as_last_plan(
            spec_seeded_step((n - 1) as usize, len, prev_present),
        ),
{
}

/// Once the previous candle has a value, populating only the last of `n`
/// candles with EMA or RSI rolls forward as populating the whole series does.
pub proof fn lemma_last_rolling_matches_series(n: usize, len: usize)
    requires
        n >= 2,
        n - 1 > len,
    ensures
        spec_ema_last_step(n, len, true) == spec_seeded_step((n - 1) as usize, len, true),
        spec_rsi_last_plan(n, len, true) == step_as_last_plan(
            spec_seeded_step((n - 1) as usize, len, true),
        ),
{
}

/// Populating only the last of `n` candles with dynamic pivots computes the
/// pivot over the window, and stores it on the candle, that populating the
/// whole series gives the last candle.
pub proof fn lemma_last_pivot_matches_series(n: usize, len: usize)
    requires
        n >= 2 * len + 1,
        2 * len + 1 <= usize::MAX,
    ensures
        spec_pivot_step((n - 1) as usize, len).window is Some,
        spec_pivot_last_plan(n, len) == LastCandlePlan::Compute(
            (
                spec_pivot_step((n - 1) as usize, len).window->Some_0,
                spec_pivot_step((n - 1) as usize, len).target,
            ),
        ),
{
}

} // verus!

verus! {

/// A stochastic plan's raw %K windows are the `k_len` candles ending at
/// `m`, `m - 1`, ... (newest first), as many as there are windows up to
/// `k_smoothing + d_smoothing`; it smooths exactly when `k_smoothing > 1`,
/// each smoothed %K then averaging `k_smoothing` consecutive raw values
/// starting at its own position; and %D averages the first
/// `min(%K values, d_smoothing)` %K values.
pub proof fn lemma_stochastic_plan_shape(
    plan: StochasticPlan,
    m: usize,
    k_len: usize,
    k_smoothing: usize,
    d_smoothing: usize,
)
    requires
        k_len + k_smoothing + d_smoothing <= usize::MAX,
        stochastic_plan_matches(plan, m, k_len, k_smoothing, d_smoothing),
    ensures
        plan.k_spans@.len() == (if m < k_len {
            0
        } else if m - k_len + 1 < k_smoothing + d_smoothing {
            m - k_len + 1
        } else {
            k_smoothing + d_smoothing
        }),
        forall|t: int|
            0 <= t < plan.k_spans@.len() ==> #[trigger] plan.k_spans@[t].end == m - t
                && plan.k_spans@[t].end - plan.k_spans@[t].start == k_len,
        plan.smoothing is Some <==> k_smoothing > 1,
        plan.smoothing matches Some(spans) ==> spans@.len() == (if plan.k_spans@.len()
            < k_smoothing {
            0
        } else {
            plan.k_spans@.len() - k_smoothing + 1
        }) && forall|t: int|
            0 <= t < spans@.len() ==> #[trigger] spans@[t].start == t && spans@[t].end == t
                + k_smoothing,
        plan.d_count == (if plan.smoothing is Some {
            if plan.smoothing->Some_0@.len() < d_smoothing {
                plan.smoothing->Some_0@.len() as int
            } else {
                d_smoothing as int
            }
        } else if plan.k_spans@.len() < d_smoothing {
            plan.k_spans@.len() as int
        } else {
            d_smoothing as int
        }),
{
    assert forall|t: int| 0 <= t < plan.k_spans@.len() implies #[trigger] plan.k_spans@[t].end == m
        - t && plan.k_spans@[t].end - plan.k_spans@[t].start == k_len by {
        assert(plan.k_spans@[t] == spec_k_span(m, k_len, t));
    }
    if let Some(spans) = plan.smoothing {
        assert forall|t: int| 0 <= t < spans@.len() implies #[trigger] spans@[t].start == t
            && spans@[t].end == t + k_smoothing by {
            assert(spans@[t] == spec_smoothing_span(k_smoothing, t));
        }
    }
}

/// The percentile of the candle before `end` is computed once `len`
/// candles are there, over the last `lookback + len` candles (or all of
/// them); its moving average is present exactly from `len + ma_len` candles
/// on, over the `ma_len` percentile values ending at `end`, whatever
/// `ma_len` is.
pub proof fn lemma_percentile_step_shape(end: usize, len: usize, lookback: usize, ma_len: usize)
    ensures
        spec_percentile_step(end, len, lookback, ma_len) is None <==> end < len,
        spec_percentile_step(end, len, lookback, ma_len) matches Some(p) ==> p.window.end == end
            && p.window.end - p.window.start == (if end > lookback + len {
            lookback + len
        } else {
            end as int
        }) && (p.ma_window is Some <==> end >= len + ma_len) && (p.ma_window matches Some(w)
            ==> w.end == end && w.end - w.start == ma_len),
{
}

/// RSI on the last of `n >= len` candles, with no RSI on the second last,
/// is seeded over the candles from `n - len` up to (not including) the last
/// one; with an RSI there it rolls forward from the second last to the
/// last; with fewer than `len` candles there are not enough.
pub proof fn lemma_rsi_last_plan_shape(n: usize, len: usize, prev_present: bool)
    requires
        prev_present ==> n >= 2,
        n >= len ==> len >= 1,
    ensures
        n < len ==> spec_rsi_last_plan(n, len, prev_present) is NotEnough,
        n >= len && !prev_present ==> (spec_rsi_last_plan(n, len, prev_present) matches LastCandlePlan::Compute(
            StepPlan::Seed(s),
        ) && s.start == n - len && s.end == n - 1 && s.end - s.start == len - 1),
        n >= len && prev_present ==> (spec_rsi_last_plan(n, len, prev_present) matches LastCandlePlan::Compute(
            StepPlan::Roll { prev, curr },
        ) && prev == n - 2 && curr == n - 1),
{
}

/// ATR on the last of `n > len` candles, with no ATR on the second last, is
/// seeded over the last `len + 1` candles (`len` true ranges); with an ATR
/// there it rolls forward from the second last to the last; with no candle
/// there is nothing to populate and with at most `len` not enough.
pub proof fn lemma_atr_last_plan_shape(n: usize, len: usize, prev_present: bool)
    requires
        prev_present ==> n >= 2,
    ensures
        n == 0 ==> spec_atr_last_plan(n, len, prev_present) is NoCandle,
        0 < n <= len ==> spec_atr_last_plan(n, len, prev_present) is NotEnough,
        n > len && !prev_present ==> (spec_atr_last_plan(n, len, prev_present) matches LastCandlePlan::Compute(
            StepPlan::Seed(s),
        ) && s.end == n && s.end - s.start == len + 1),
        n > len && prev_present ==> (spec_atr_last_plan(n, len, prev_present) matches LastCandlePlan::Compute(
            StepPlan::Roll { prev, curr },
        ) && prev == n - 2 && curr == n - 1),
{
}

} // verus!
