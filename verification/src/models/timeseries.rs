//! A series of candles of one symbol and interval, with the set of
//! indicators that are kept populated on its candles.
use crate::indicators::indicator_type::IndicatorType;
use crate::models::interval::{follows, interval_millis, Interval};
use crate::models::timestamp::Timestamp;
use crate::models::message_payloads::{
    FillHistoricalCandlesPayload, LatestCandleResponse, RequestLatestCandlesPayload,
};
use indexmap::IndexSet;
use vstd::prelude::*;

verus! {

#[verifier::external_type_specification]
#[verifier::external_body]
#[verifier::reject_recursive_types(T)]
#[verifier::reject_recursive_types(S)]
pub struct ExIndexSet<T, S>(IndexSet<T, S>);

/// The indicator types an `IndexSet` holds, in insertion order.
pub uninterp spec fn indicator_set_items(s: IndexSet<IndicatorType>) -> Seq<IndicatorType>;

/// `IndexSet::new`: the new set holds nothing.
#[verifier::external_body]
pub(crate) fn empty_indicator_set() -> (s: IndexSet<IndicatorType>)
    ensures
        indicator_set_items(s) == Seq::<IndicatorType>::empty(),
{
    IndexSet::new()
}

/// `IndexSet::insert`: when no equal item is in the set, the item is
/// appended last and `true` returned; otherwise the set is left as it was
/// and `false` returned.  (Equality of `IndicatorType` is the derived one,
/// which compares the variant and its fields, and its derived `Hash` agrees
/// with it.)
#[verifier::external_body]
pub(crate) fn insert_into_indicator_set(s: &mut IndexSet<IndicatorType>, t: IndicatorType) -> (added: bool)
    ensures
        added == !indicator_set_items(*old(s)).contains(t),
        indicator_set_items(*final(s)) == (if added {
            indicator_set_items(*old(s)).push(t)
        } else {
            indicator_set_items(*old(s))
        }),
{
    s.insert(t)
}

/// `IndexSet::contains`: whether an equal item is in the set.
#[verifier::external_body]
fn indicator_set_contains(s: &IndexSet<IndicatorType>, t: &IndicatorType) -> (r: bool)
    ensures
        r == indicator_set_items(*s).contains(*t),
{
    s.contains(t)
}

/// `IndexSet::iter`, copied into a vector: the items in insertion order,
/// none of them twice (a set holds no two equal items).
#[verifier::external_body]
fn indicator_set_to_vec(s: &IndexSet<IndicatorType>) -> (v: Vec<IndicatorType>)
    ensures
        v@ == indicator_set_items(*s),
        v@.no_duplicates(),
{
    s.iter().copied().collect()
}

/// A series of candles of type `C`.
#[derive(Debug)]
pub struct TimeSeries<C> {
    pub symbol: String,
    pub interval: Interval,
    /// Adding a candle to a series that then holds more than this many
    /// candles drops the oldest one.
    pub max_length: usize,
    pub candles: Vec<C>,
    /// The timestamp of each candle, in the same order.
    pub stamps: Vec<Timestamp>,
    /// The indicator types populated on the candles, in the order they were
    /// added.
    pub indicators: IndexSet<IndicatorType>,
    /// Whether an incoming candle is checked to follow the last one.
    pub validate_candles_on_add: bool,
}

/// What to do with a candle that arrives from the websocket.
#[derive(Debug, Clone, PartialEq, Eq)]
pub enum CandleArrival {
    /// Append it to the series.
    Add,
    /// Candles are missing before it: request the ones in between.
    FillGap(FillHistoricalCandlesPayload),
}

/// The candles of a series holding `candles` once trimmed to `max_length`:
/// the oldest is dropped when there are more.
pub open spec fn spec_trimmed<C>(candles: Seq<C>, max_length: usize) -> Seq<C> {
    if candles.len() > max_length {
        candles.drop_first()
    } else {
        candles
    }
}

/// The candles after adding `c` to a series holding `candles`: appended
/// (by `push_candle`), then trimmed (by `trim_to_max_length`).
pub open spec fn spec_added<C>(candles: Seq<C>, c: C, max_length: usize) -> Seq<C> {
    spec_trimmed(candles.push(c), max_length)
}

/// The indicator types of a series after recording `t`: unchanged when `t`
/// is among them, `t` appended otherwise.
pub open spec fn spec_with_indicator(items: Seq<IndicatorType>, t: IndicatorType) -> Seq<
    IndicatorType,
> {
    if items.contains(t) {
        items
    } else {
        items.push(t)
    }
}

/// Adding a candle to a series that holds at most `max_length` candles
/// leaves it holding at most `max_length` candles, the new one last (when
/// `max_length` is not zero), and the candles before it in their order.
pub proof fn lemma_add_keeps_max_length<C>(candles: Seq<C>, c: C, max_length: usize)
    requires
        candles.len() <= max_length,
    ensures
        spec_added(candles, c, max_length).len() <= max_length,
        max_length >= 1 ==> spec_added(candles, c, max_length).last() == c,
        max_length >= 1 ==> spec_added(candles, c, max_length).drop_last().is_suffix_of(candles),
{
    let pushed = candles.push(c);
    if pushed.len() > max_length {
        if max_length >= 1 {
            let r = pushed.drop_first();
            assert(r.drop_last() =~= candles.subrange(1, candles.len() as int));
        }
    } else {
        assert(pushed.drop_last() =~= candles);
        assert(candles.subrange(0, candles.len() as int) =~= candles);
    }
}

/// Once a candle stamped `t` has been added to a series whose maximum
/// length is at least one (pushed, then trimmed), the last timestamp of the
/// series is `t`, so the candle arriving next is judged against `t`.
pub proof fn lemma_next_arrival_judged_against_added<C>(
    after: TimeSeries<C>,
    stamps_before: Seq<Timestamp>,
    t: Timestamp,
    new: Timestamp,
)
    requires
        after.max_length >= 1,
        after.stamps@ == spec_added(stamps_before, t, after.max_length),
    ensures
        after.last_stamp() == Some(t),
        after.accepts_arrival(new) == (!after.validate_candles_on_add || follows(
            after.interval,
            t,
            new,
        )),
{
    let pushed = stamps_before.push(t);
    if pushed.len() > after.max_length {
        assert(pushed.drop_first().last() == t);
    }
}

/// Recording an indicator type that is already recorded changes nothing;
/// afterwards it is recorded, and the recorded types stay free of
/// duplicates.
pub proof fn lemma_insert_indicator_idempotent(items: Seq<IndicatorType>, t: IndicatorType)
    ensures
        spec_with_indicator(spec_with_indicator(items, t), t) == spec_with_indicator(items, t),
        spec_with_indicator(items, t).contains(t),
        items.no_duplicates() ==> spec_with_indicator(items, t).no_duplicates(),
{
    if !items.contains(t) {
        let r = items.push(t);
        assert(r[r.len() - 1] == t);
        if items.no_duplicates() {
            assert forall|i: int, j: int| 0 <= i < r.len() && 0 <= j < r.len() && i != j implies r[i]
                != r[j] by {
                if i == r.len() - 1 {
                    assert(items[j] == r[j]);
                } else if j == r.len() - 1 {
                    assert(items[i] == r[i]);
                }
            }
        }
    }
}

/// The first of the `n` most recent of `len` candles.
pub open spec fn spec_latest_start(len: int, n: int) -> int {
    if len < n {
        0
    } else {
        len - n
    }
}

impl<C> TimeSeries<C> {
    /// The series with its fields other than `max_length`, `candles` and
    /// `stamps` equal to those of `other`.
    pub open spec fn same_settings(self, other: Self) -> bool {
        &&& self.symbol@ == other.symbol@
        &&& self.interval == other.interval
        &&& self.indicators == other.indicators
        &&& self.validate_candles_on_add == other.validate_candles_on_add
    }

    /// Each candle has its timestamp.
    pub open spec fn wf(self) -> bool {
        self.stamps@.len() == self.candles@.len()
    }

    /// The timestamp of the last candle, `None` when there is none.
    pub open spec fn last_stamp(self) -> Option<Timestamp> {
        if self.stamps@.len() == 0 {
            None
        } else {
            Some(self.stamps@.last())
        }
    }

    /// A candle stamped `new` that arrives for the series is appended
    /// directly: arrivals are not validated, the series is empty, or the
    /// candle follows the last one.
    pub open spec fn accepts_arrival(self, new: Timestamp) -> bool {
        !self.validate_candles_on_add || match self.last_stamp() {
            None => true,
            Some(last) => follows(self.interval, last, new),
        }
    }

    /// Where the request for the candles missing before a newly arrived one
    /// starts: one interval after the last candle, in milliseconds.
    pub open spec fn gap_from(self) -> int {
        self.last_stamp()->Some_0.spec_millis() + interval_millis(self.interval)
    }

    /// Where the request for the candles missing before a candle stamped
    /// `new` ends: one interval after the new candle, in milliseconds.
    pub open spec fn gap_to(self, new: Timestamp) -> int {
        new.spec_millis() + interval_millis(self.interval)
    }

    /// The indicator types populated on the series, in the order they were
    /// added.
    pub open spec fn indicator_items(self) -> Seq<IndicatorType> {
        indicator_set_items(self.indicators)
    }

    pub fn set_max_length(&mut self, max_length: usize)
        ensures
            final(self).max_length == max_length,
            final(self).candles@ == old(self).candles@,
            final(self).stamps@ == old(self).stamps@,
            final(self).same_settings(*old(self)),
    {
        self.max_length = max_length;
    }

    /// Appends a candle stamped `stamp`, as the first step of adding one;
    /// the indicators are then populated on it and the series trimmed with
    /// `trim_to_max_length`.
    pub fn push_candle(&mut self, candle: C, stamp: Timestamp)
        ensures
            final(self).candles@ == old(self).candles@.push(candle),
            final(self).stamps@ == old(self).stamps@.push(stamp),
            final(self).last_stamp() == Some(stamp),
            final(self).max_length == old(self).max_length,
            final(self).same_settings(*old(self)),
            old(self).wf() ==> final(self).wf(),
    {
        self.candles.push(candle);
        self.stamps.push(stamp);
    }

    /// Drops the oldest candle, with its timestamp, when the series holds
    /// more than `max_length` candles, as the last step of adding one;
    /// returns the dropped candle.
    pub fn trim_to_max_length(&mut self) -> (dropped: Option<C>)
        requires
            old(self).wf(),
        ensures
            final(self).candles@ == spec_trimmed(old(self).candles@, old(self).max_length),
            final(self).stamps@ == spec_trimmed(old(self).stamps@, old(self).max_length),
            old(self).candles@.len() > old(self).max_length ==> dropped == Some(old(self).candles@[0])
                && final(self).candles@ == old(self).candles@.drop_first(),
            old(self).candles@.len() <= old(self).max_length ==> dropped is None
                && final(self).candles@ == old(self).candles@,
            final(self).max_length == old(self).max_length,
            final(self).same_settings(*old(self)),
            final(self).wf(),
    {
        if self.candles.len() > self.max_length {
            self.stamps.remove(0);
            Some(self.candles.remove(0))
        } else {
            None
        }
    }

    pub fn clear_candles(&mut self)
        ensures
            final(self).candles@ == Seq::<C>::empty(),
            final(self).stamps@ == Seq::<Timestamp>::empty(),
            final(self).max_length == old(self).max_length,
            final(self).same_settings(*old(self)),
    {
        self.candles.clear();
        self.stamps.clear();
    }

    /// The `n` most recent candles, or all of them when there are fewer.
    pub fn latest_candles(&self, n: usize) -> (r: &[C])
        ensures
            r@ == self.candles@.subrange(
                spec_latest_start(self.candles@.len() as int, n as int),
                self.candles@.len() as int,
            ),
    {
        let len = self.candles.len();
        let start = if len < n {
            0
        } else {
            len - n
        };
        &self.candles.as_slice()[start..len]
    }

    /// Whether an indicator type is populated on the series.
    pub fn contains_indicator(&self, indicator_type: &IndicatorType) -> (r: bool)
        ensures
            r == self.indicator_items().contains(*indicator_type),
    {
        indicator_set_contains(&self.indicators, indicator_type)
    }

    /// Records an indicator type as populated, once its values are on the
    /// candles; returns whether it was new.
    pub fn insert_indicator(&mut self, indicator_type: IndicatorType) -> (added: bool)
        ensures
            added == !old(self).indicator_items().contains(indicator_type),
            final(self).indicator_items() == spec_with_indicator(
                old(self).indicator_items(),
                indicator_type,
            ),
            final(self).indicator_items() == (if added {
                old(self).indicator_items().push(indicator_type)
            } else {
                old(self).indicator_items()
            }),
            final(self).candles@ == old(self).candles@,
            final(self).stamps@ == old(self).stamps@,
            final(self).max_length == old(self).max_length,
            final(self).symbol@ == old(self).symbol@,
            final(self).interval == old(self).interval,
            final(self).validate_candles_on_add == old(self).validate_candles_on_add,
    {
        insert_into_indicator_set(&mut self.indicators, indicator_type)
    }

    /// The indicator types populated on the series, in the order they were
    /// added; each appears once.
    pub fn indicator_types(&self) -> (v: Vec<IndicatorType>)
        ensures
            v@ == self.indicator_items(),
            v@.no_duplicates(),
    {
        indicator_set_to_vec(&self.indicators)
    }

    /// Whether a candle stamped `new` may be appended to the series: an
    /// empty series accepts any candle, otherwise the new one must follow
    /// the last one by one interval, within the interval's tolerance.
    pub fn validate_timeseries_integrity(&self, new: &Timestamp) -> (ok: bool)
        ensures
            ok == match self.last_stamp() {
                None => true,
                Some(last) => follows(self.interval, last, *new),
            },
    {
        let len = self.stamps.len();
        if len == 0 {
            return true;
        }
        self.interval.is_subsequent(&self.stamps[len - 1], new)
    }

    /// What to do with a candle stamped `new` that arrives for the series:
    /// append it when the series does not validate arrivals or the candle
    /// follows the last one; otherwise request the candles from one interval
    /// after the last candle to one interval after the new one.
    pub fn on_websocket_candle(&self, new: &Timestamp) -> (r: CandleArrival)
        requires
            new.in_range(),
            self.last_stamp() matches Some(last) ==> last.in_range(),
        ensures
            self.accepts_arrival(*new) ==> r == CandleArrival::Add,
            !self.accepts_arrival(*new) ==> (r matches CandleArrival::FillGap(p) && p.from
                == self.gap_from() && p.to == self.gap_to(*new) && p.symbol@ == self.symbol@
                && p.interval == self.interval),
    {
        let integrity_ok = if self.validate_candles_on_add {
            self.validate_timeseries_integrity(new)
        } else {
            true
        };
        if integrity_ok {
            CandleArrival::Add
        } else {
            let step = self.interval.to_millis();
            let last = &self.stamps[self.stamps.len() - 1];
            CandleArrival::FillGap(
                FillHistoricalCandlesPayload {
                    from: last.millis() + step,
                    to: new.millis() + step,
                    symbol: self.symbol.clone(),
                    interval: self.interval,
                },
            )
        }
    }

    /// What to do with a message from the candle websocket: nothing but
    /// report it when it is an error (`None`), otherwise what
    /// `on_websocket_candle` decides for the candle it carries.
    pub fn on_websocket_message(&self, ok: bool, candle_stamp: Option<Timestamp>) -> (r: Option<
        CandleArrival,
    >)
        requires
            ok ==> candle_stamp is Some,
            candle_stamp matches Some(new) ==> new.in_range(),
            self.last_stamp() matches Some(last) ==> last.in_range(),
        ensures
            !ok ==> r is None,
            ok && self.accepts_arrival(candle_stamp->Some_0) ==> r == Some(CandleArrival::Add),
            ok && !self.accepts_arrival(candle_stamp->Some_0) ==> (r matches Some(
                CandleArrival::FillGap(p),
            ) && p.from == self.gap_from() && p.to == self.gap_to(candle_stamp->Some_0)
                && p.symbol@ == self.symbol@ && p.interval == self.interval),
    {
        if !ok {
            return None;
        }
        match candle_stamp {
            Some(new) => Some(self.on_websocket_candle(&new)),
            None => None,
        }
    }
}

/// `states` are the candles before and after computing, in turn, each
/// indicator of `types` on the last candle with `populate_last`, every
/// computation succeeding: computing `types[i]` on `states[i]` hands back
/// `states[i + 1]`.
pub open spec fn populated_last_chain<C, E, F: Fn(IndicatorType, Vec<C>) -> (Vec<C>, Result<(), E>)>(
    populate_last: F,
    types: Seq<IndicatorType>,
    states: Seq<Vec<C>>,
) -> bool {
    &&& states.len() == types.len() + 1
    &&& forall|i: int|
        0 <= i < types.len() ==> #[trigger] populated_step(
            populate_last,
            types[i],
            states[i],
            states[i + 1],
        )
}

/// Computing indicator `t` with `populate` on candles `before` may succeed
/// and hand back candles `after`.
pub open spec fn populated_step<C, E, F: FnOnce(IndicatorType, Vec<C>) -> (Vec<C>, Result<(), E>)>(
    populate: F,
    t: IndicatorType,
    before: Vec<C>,
    after: Vec<C>,
) -> bool {
    exists|out: (Vec<C>, Result<(), E>)|
        #[trigger] populate.ensures((t, before), out) && out.0 == after && out.1 is Ok
}

/// Candles `after` result from adding candle `c` to candles `before`: `c`
/// appended, each indicator of `types` computed in turn on it with
/// `populate_last`, every computation succeeding, and the oldest candle
/// dropped when more than `max_length` remain.
pub open spec fn candle_added<C, E, F: Fn(IndicatorType, Vec<C>) -> (Vec<C>, Result<(), E>)>(
    populate_last: F,
    types: Seq<IndicatorType>,
    before: Seq<C>,
    c: C,
    after: Seq<C>,
    max_length: usize,
) -> bool {
    exists|states: Seq<Vec<C>>|
        #[trigger] populated_last_chain(populate_last, types, states) && states[0]@ == before.push(c)
            && after == spec_trimmed(states.last()@, max_length)
}

/// Adding candle `c` to candles `before` fails with `err`, leaving candles
/// `after`: `c` appended and the indicators of `types` computed in turn on
/// it with `populate_last`, the first `k` of them succeeding and the next
/// one failing with `err` and handing back `after`.
pub open spec fn candle_add_failed<C, E, F: Fn(IndicatorType, Vec<C>) -> (Vec<C>, Result<(), E>)>(
    populate_last: F,
    types: Seq<IndicatorType>,
    before: Seq<C>,
    c: C,
    after: Seq<C>,
    err: Result<(), E>,
) -> bool {
    exists|k: int, states: Seq<Vec<C>>, out: (Vec<C>, Result<(), E>)|
        #![trigger populated_last_chain(populate_last, types.take(k), states), populate_last.ensures((types[k], states.last()), out)]
        0 <= k < types.len() && populated_last_chain(populate_last, types.take(k), states)
            && states[0]@ == before.push(c) && populate_last.ensures((types[k], states.last()), out)
            && out.1 is Err && err == out.1 && after == out.0@
}

/// Adding a clone of candle `c` to candles `before` fails with `err`,
/// leaving candles `after`, as `candle_add_failed` describes.
pub open spec fn clone_add_failed<C: Clone, E, F: Fn(IndicatorType, Vec<C>) -> (Vec<C>, Result<(), E>)>(
    populate_last: F,
    types: Seq<IndicatorType>,
    before: Seq<C>,
    c: C,
    after: Seq<C>,
    err: Result<(), E>,
) -> bool {
    exists|copy: C|
        cloned::<C>(c, copy) && #[trigger] candle_add_failed(
            populate_last,
            types,
            before,
            copy,
            after,
            err,
        )
}

/// Candles `after` result from adding a clone of candle `c` to candles
/// `before`, as `candle_added` describes.
pub open spec fn clone_added<C: Clone, E, F: Fn(IndicatorType, Vec<C>) -> (Vec<C>, Result<(), E>)>(
    populate_last: F,
    types: Seq<IndicatorType>,
    before: Seq<C>,
    c: C,
    after: Seq<C>,
    max_length: usize,
) -> bool {
    exists|copy: C|
        cloned::<C>(c, copy) && #[trigger] candle_added(
            populate_last,
            types,
            before,
            copy,
            after,
            max_length,
        )
}

/// The timestamps after adding candles stamped `new`, one after the other,
/// to a series stamped `stamps`.
pub open spec fn spec_added_all(stamps: Seq<Timestamp>, new: Seq<Timestamp>, max_length: usize) -> Seq<
    Timestamp,
>
    decreases new.len(),
{
    if new.len() == 0 {
        stamps
    } else {
        spec_added(spec_added_all(stamps, new.drop_last(), max_length), new.last(), max_length)
    }
}

impl<C> TimeSeries<C> {
    /// Populates an indicator on every candle with `populate` and records
    /// it, unless it is recorded already, in which case nothing changes.
    /// `populate` receives the indicator type and the candles and hands back
    /// the candles with the indicator's values, or an error; on an error the
    /// candles are left as it handed them back and the indicator is not
    /// recorded.
    pub fn add_indicator<E, F: FnOnce(IndicatorType, Vec<C>) -> (Vec<C>, Result<(), E>)>(
        &mut self,
        indicator_type: IndicatorType,
        populate: F,
    ) -> (r: Result<(), E>)
        requires
            populate.requires((indicator_type, old(self).candles)),
        ensures
            old(self).indicator_items().contains(indicator_type) ==> r is Ok && *final(self)
                == *old(self),
            !old(self).indicator_items().contains(indicator_type) ==> (exists|out: (
                Vec<C>,
                Result<(), E>,
            )|
                #![trigger populate.ensures((indicator_type, old(self).candles), out)]
                populate.ensures((indicator_type, old(self).candles), out) && final(self).candles@
                    == out.0@ && (r is Ok <==> out.1 is Ok) && (r is Err ==> r == out.1)),
            !old(self).indicator_items().contains(indicator_type) ==> (if r is Ok {
                final(self).indicator_items() == old(self).indicator_items().push(indicator_type)
            } else {
                final(self).indicator_items() == old(self).indicator_items()
            }),
            final(self).stamps@ == old(self).stamps@,
            final(self).max_length == old(self).max_length,
            final(self).symbol@ == old(self).symbol@,
            final(self).interval == old(self).interval,
            final(self).validate_candles_on_add == old(self).validate_candles_on_add,
    {
        if self.contains_indicator(&indicator_type) {
            return Ok(());
        }
        let mut candles: Vec<C> = Vec::new();
        std::mem::swap(&mut candles, &mut self.candles);
        let ghost given = candles;
        let out = populate(indicator_type, candles);
        assert(populate.ensures((indicator_type, given), out));
        let ghost out_g = out;
        self.candles = out.0;
        match out.1 {
            Ok(()) => {},
            Err(e) => return Err(e),
        }
        self.insert_indicator(indicator_type);
        Ok(())
    }

    /// Adds a candle stamped `stamp`: appends it, computes every recorded
    /// indicator on it with `populate_last`, in the order they were
    /// recorded, and drops the oldest candle when the series then holds more
    /// than `max_length` candles. `populate_last` receives an indicator type
    /// and the candles and hands back the candles with the indicator's value
    /// on the last one, or an error, keeping their number. On the first
    /// error the series is left with the candle appended and not trimmed.
    pub fn add_candle<E, F: Fn(IndicatorType, Vec<C>) -> (Vec<C>, Result<(), E>)>(
        &mut self,
        candle: C,
        stamp: Timestamp,
        populate_last: &F,
    ) -> (r: Result<(), E>)
        requires
            old(self).wf(),
            forall|t: IndicatorType, v: Vec<C>| #[trigger] populate_last.requires((t, v)),
            forall|t: IndicatorType, v: Vec<C>, out: (Vec<C>, Result<(), E>)|
                #[trigger] populate_last.ensures((t, v), out) ==> out.0@.len() == v@.len(),
        ensures
            final(self).wf(),
            final(self).max_length == old(self).max_length,
            final(self).same_settings(*old(self)),
            r is Ok ==> final(self).stamps@ == spec_added(
                old(self).stamps@,
                stamp,
                old(self).max_length,
            ),
            r is Ok ==> candle_added(
                populate_last,
                old(self).indicator_items(),
                old(self).candles@,
                candle,
                final(self).candles@,
                old(self).max_length,
            ),
            r is Ok && old(self).candles@.len() <= old(self).max_length
                ==> final(self).candles@.len() <= old(self).max_length,
            r is Ok && old(self).max_length >= 1 ==> final(self).last_stamp() == Some(stamp),
            r is Err ==> final(self).stamps@ == old(self).stamps@.push(stamp),
            r is Err ==> candle_add_failed(
                populate_last,
                old(self).indicator_items(),
                old(self).candles@,
                candle,
                final(self).candles@,
                r,
            ),
    {
        self.push_candle(candle, stamp);
        let ghost mut states: Seq<Vec<C>> = seq![self.candles];
        let types = self.indicator_types();
        let mut i: usize = 0;
        while i < types.len()
            invariant
                i <= types@.len(),
                types@ == old(self).indicator_items(),
                populated_last_chain(populate_last, types@.take(i as int), states),
                states[0]@ == old(self).candles@.push(candle),
                states.last() == self.candles,
                self.candles@.len() == old(self).candles@.len() + 1,
                old(self).wf(),
                self.stamps@ == old(self).stamps@.push(stamp),
                self.max_length == old(self).max_length,
                self.same_settings(*old(self)),
                forall|t: IndicatorType, v: Vec<C>| #[trigger] populate_last.requires((t, v)),
                forall|t: IndicatorType, v: Vec<C>, out: (Vec<C>, Result<(), E>)|
                    #[trigger] populate_last.ensures((t, v), out) ==> out.0@.len() == v@.len(),
            decreases types@.len() - i,
        {
            let t = types[i];
            let mut candles: Vec<C> = Vec::new();
            std::mem::swap(&mut candles, &mut self.candles);
            let ghost before = candles;
            let out = populate_last(t, candles);
            let ghost out_g = out;
            assert(populate_last.ensures((t, before), out_g));
            self.candles = out.0;
            match out.1 {
                Ok(()) => {},
                Err(e) => {
                    proof {
                        let k = i as int;
                        assert(types@.take(k).len() == k);
                        assert(populate_last.ensures((types@[k], states.last()), out_g));
                        assert(Err::<(), E>(e) == out_g.1);
                    }
                    return Err(e);
                },
            }
            proof {
                let prev = states;
                states = states.push(out_g.0);
                let next = types@.take(i + 1);
                assert forall|k: int| 0 <= k < next.len() implies #[trigger] populated_step(
                    populate_last,
                    next[k],
                    states[k],
                    states[k + 1],
                ) by {
                    if k < i {
                        assert(next[k] == types@.take(i as int)[k]);
                        assert(states[k] == prev[k] && states[k + 1] == prev[k + 1]);
                    } else {
                        assert(next[k] == t && states[k] == before && states[k + 1] == out_g.0);
                        assert(populate_last.ensures((next[k], states[k]), out_g));
                    }
                }
            }
            i = i + 1;
        }
        proof {
            assert(types@.take(types@.len() as int) =~= types@);
        }
        self.trim_to_max_length();
        proof {
            if old(self).candles@.len() <= old(self).max_length {
                lemma_add_keeps_max_length(old(self).stamps@, stamp, old(self).max_length);
            }
            if old(self).max_length >= 1 {
                lemma_next_arrival_judged_against_added(*self, old(self).stamps@, stamp, stamp);
            }
        }
        Ok(())
    }
}

impl<C: Clone> TimeSeries<C> {
    /// Adds clones of `candles`, stamped `stamps`, one after the other as
    /// `add_candle` does, stopping at the first error.
    pub fn add_candles<E, F: Fn(IndicatorType, Vec<C>) -> (Vec<C>, Result<(), E>)>(
        &mut self,
        candles: &[C],
        stamps: &[Timestamp],
        populate_last: &F,
    ) -> (r: Result<(), E>)
        requires
            old(self).wf(),
            candles@.len() == stamps@.len(),
            forall|t: IndicatorType, v: Vec<C>| #[trigger] populate_last.requires((t, v)),
            forall|t: IndicatorType, v: Vec<C>, out: (Vec<C>, Result<(), E>)|
                #[trigger] populate_last.ensures((t, v), out) ==> out.0@.len() == v@.len(),
        ensures
            final(self).wf(),
            final(self).max_length == old(self).max_length,
            final(self).same_settings(*old(self)),
            r is Ok ==> final(self).stamps@ == spec_added_all(
                old(self).stamps@,
                stamps@,
                old(self).max_length,
            ),
            r is Ok ==> (exists|states: Seq<Seq<C>>|
                states.len() == candles@.len() + 1 && states[0] == old(self).candles@ && states.last()
                    == final(self).candles@ && forall|j: int|
                    0 <= j < candles@.len() ==> #[trigger] clone_added(
                        populate_last,
                        old(self).indicator_items(),
                        states[j],
                        candles@[j],
                        states[j + 1],
                        old(self).max_length,
                    )),
            r is Err ==> exists|k: int|
                0 <= k < stamps@.len() && final(self).stamps@ == #[trigger] spec_added_all(
                    old(self).stamps@,
                    stamps@.take(k),
                    old(self).max_length,
                ).push(stamps@[k]),
            r is Err ==> (exists|k: int, states: Seq<Seq<C>>|
                #![trigger states[k], candles@[k]]
                0 <= k < candles@.len() && states.len() == k + 1
                    && states[0] == old(self).candles@ && (forall|j: int|
                    0 <= j < k ==> #[trigger] clone_added(
                        populate_last,
                        old(self).indicator_items(),
                        states[j],
                        candles@[j],
                        states[j + 1],
                        old(self).max_length,
                    )) && clone_add_failed(
                    populate_last,
                    old(self).indicator_items(),
                    states[k],
                    candles@[k],
                    final(self).candles@,
                    r,
                )),
    {
        let ghost mut states: Seq<Seq<C>> = seq![self.candles@];
        let mut i: usize = 0;
        while i < candles.len()
            invariant
                i <= candles@.len(),
                candles@.len() == stamps@.len(),
                self.wf(),
                self.max_length == old(self).max_length,
                self.same_settings(*old(self)),
                self.stamps@ == spec_added_all(
                    old(self).stamps@,
                    stamps@.take(i as int),
                    old(self).max_length,
                ),
                states.len() == i + 1,
                states[0] == old(self).candles@,
                states.last() == self.candles@,
                forall|j: int|
                    0 <= j < i ==> #[trigger] clone_added(
                        populate_last,
                        old(self).indicator_items(),
                        states[j],
                        candles@[j],
                        states[j + 1],
                        old(self).max_length,
                    ),
                forall|t: IndicatorType, v: Vec<C>| #[trigger] populate_last.requires((t, v)),
                forall|t: IndicatorType, v: Vec<C>, out: (Vec<C>, Result<(), E>)|
                    #[trigger] populate_last.ensures((t, v), out) ==> out.0@.len() == v@.len(),
            decreases candles@.len() - i,
        {
            let ghost prev_states = states;
            let ghost prev_candles = self.candles@;
            let ghost prev_stamps = self.stamps@;
            let copy = candles[i].clone();
            let r = self.add_candle(copy, stamps[i], populate_last);
            proof {
                assert(stamps@.take(i as int) =~= stamps@.take(i + 1).drop_last());
            }
            match r {
                Ok(()) => {},
                Err(e) => {
                    assert(clone_add_failed(
                        populate_last,
                        old(self).indicator_items(),
                        states[i as int],
                        candles@[i as int],
                        self.candles@,
                        Err::<(), E>(e),
                    ));
                    assert(self.stamps@ == spec_added_all(
                        old(self).stamps@,
                        stamps@.take(i as int),
                        old(self).max_length,
                    ).push(stamps@[i as int]));
                    return Err(e);
                },
            }
            proof {
                states = states.push(self.candles@);
                assert(clone_added(
                    populate_last,
                    old(self).indicator_items(),
                    prev_candles,
                    candles@[i as int],
                    self.candles@,
                    old(self).max_length,
                ));
                assert forall|j: int| 0 <= j < i + 1 implies #[trigger] clone_added(
                    populate_last,
                    old(self).indicator_items(),
                    states[j],
                    candles@[j],
                    states[j + 1],
                    old(self).max_length,
                ) by {
                    if j < i {
                        assert(states[j] == prev_states[j] && states[j + 1] == prev_states[j + 1]);
                    }
                }
            }
            i = i + 1;
        }
        proof {
            assert(stamps@.take(stamps@.len() as int) =~= stamps@);
        }
        Ok(())
    }

    /// Replaces the candles with clones of `candles`, stamped `stamps`.
    pub fn set_candles(&mut self, candles: &[C], stamps: &[Timestamp])
        requires
            candles@.len() == stamps@.len(),
        ensures
            final(self).candles@.len() == candles@.len(),
            forall|i: int|
                0 <= i < candles@.len() ==> cloned::<C>(candles@[i], #[trigger] final(self).candles@[i]),
            final(self).stamps@ == stamps@,
            final(self).wf(),
            final(self).max_length == old(self).max_length,
            final(self).same_settings(*old(self)),
    {
        let mut v: Vec<C> = Vec::new();
        let mut i: usize = 0;
        while i < candles.len()
            invariant
                i <= candles@.len(),
                v@.len() == i,
                forall|j: int| 0 <= j < i ==> cloned::<C>(candles@[j], #[trigger] v@[j]),
            decreases candles@.len() - i,
        {
            v.push(candles[i].clone());
            i = i + 1;
        }
        self.candles = v;
        self.stamps = vstd::slice::slice_to_vec(stamps);
    }

    /// The answer to a request for the latest candles: the series' symbol and
    /// interval with clones of its `n` most recent candles, or of all of them
    /// when there are fewer.
    pub fn latest_candle_response(&self, request: &RequestLatestCandlesPayload) -> (r:
        LatestCandleResponse<C>)
        ensures
            r.symbol@ == self.symbol@,
            r.interval == self.interval,
            r.candles@.len() == self.candles@.len() - spec_latest_start(
                self.candles@.len() as int,
                request.n as int,
            ),
            forall|i: int|
                0 <= i < r.candles@.len() ==> cloned::<C>(
                    self.candles@[spec_latest_start(self.candles@.len() as int, request.n as int)
                        + i],
                    #[trigger] r.candles@[i],
                ),
    {
        let latest = self.latest_candles(request.n);
        let mut candles: Vec<C> = Vec::new();
        let mut i: usize = 0;
        while i < latest.len()
            invariant
                i <= latest@.len(),
                candles@.len() == i,
                forall|j: int| 0 <= j < i ==> cloned::<C>(latest@[j], #[trigger] candles@[j]),
            decreases latest@.len() - i,
        {
            candles.push(latest[i].clone());
            i = i + 1;
        }
        LatestCandleResponse::new(self.symbol.clone(), self.interval, candles)
    }

    /// Clones of the candles.
    pub fn get_candles(&self) -> (v: Vec<C>)
        ensures
            v@.len() == self.candles@.len(),
            forall|i: int|
                0 <= i < v@.len() ==> cloned::<C>(self.candles@[i], #[trigger] v@[i]),
    {
        self.candles.clone()
    }
}

} // verus!
