//! The decisions a setup finder takes when its strategy reports a setup.
use vstd::prelude::*;

verus! {

/// What a setup finder does about a setup it found.
#[derive(Debug, Clone, Copy, PartialEq, Eq, Structural)]
pub struct SetupActions {
    /// Open a live trade for it.
    pub open_trade: bool,
    /// Send a notification about it.
    pub notify: bool,
}

/// What a setup finder does about a setup it found: with live trading on, a
/// trade is opened unless one it spawned is still there, in which case the
/// setup is dropped without notification; a notification is sent when
/// notifications are on and the setup was not dropped.
pub fn setup_actions(
    live_trading_enabled: bool,
    notifications_enabled: bool,
    spawned_trades: usize,
) -> (a: SetupActions)
    ensures
        a.open_trade == (live_trading_enabled && spawned_trades == 0),
        a.notify == (notifications_enabled && !(live_trading_enabled && spawned_trades > 0)),
{
    if live_trading_enabled && spawned_trades > 0 {
        return SetupActions { open_trade: false, notify: false };
    }
    SetupActions { open_trade: live_trading_enabled, notify: notifications_enabled }
}

} // verus!

verus! {

/// A setup finder: it runs `strategy` (of type `S`) on the candles of the
/// time series that `ts_addr` (of type `T`) designates, trades through
/// `source` (of type `D`), and keeps the handles (of type `A`) of the trades
/// it spawned.
#[derive(Debug, Clone)]
pub struct SetupFinder<S, T, D, A> {
    pub strategy: S,
    pub ts_addr: T,
    pub source: D,
    pub notifications_enabled: bool,
    pub live_trading_enabled: bool,
    pub spawned_trade_addrs: Vec<A>,
}

/// Whether a setup finder in a state with `spawned` spawned trades opens a
/// trade for the next setup it finds.
pub open spec fn opens_trade(live_trading_enabled: bool, spawned: nat) -> bool {
    live_trading_enabled && spawned == 0
}

/// The number of trades a setup finder opens over `setups` setups, starting
/// with `spawned` spawned trades, when every trade it opens is recorded
/// before the next setup.
pub open spec fn trades_opened(live_trading_enabled: bool, spawned: nat, setups: nat) -> nat
    decreases setups,
{
    if setups == 0 {
        0
    } else if opens_trade(live_trading_enabled, spawned) {
        1 + trades_opened(live_trading_enabled, spawned + 1, (setups - 1) as nat)
    } else {
        trades_opened(live_trading_enabled, spawned, (setups - 1) as nat)
    }
}

/// A setup finder never has more than one trade of its own active: over any
/// run of setups it opens at most one trade, and none at all while a trade
/// it spawned is recorded.
pub proof fn lemma_at_most_one_trade(live_trading_enabled: bool, spawned: nat, setups: nat)
    ensures
        trades_opened(live_trading_enabled, spawned, setups) <= 1,
        spawned > 0 ==> trades_opened(live_trading_enabled, spawned, setups) == 0,
        !live_trading_enabled ==> trades_opened(live_trading_enabled, spawned, setups) == 0,
    decreases setups,
{
    if setups > 0 {
        let rest = (setups - 1) as nat;
        if opens_trade(live_trading_enabled, spawned) {
            lemma_at_most_one_trade(live_trading_enabled, spawned + 1, rest);
        } else {
            lemma_at_most_one_trade(live_trading_enabled, spawned, rest);
        }
    }
}

impl<S, T, D, A: Clone> SetupFinder<S, T, D, A> {
    pub fn new(
        strategy: S,
        ts: T,
        notifications_enabled: bool,
        live_trading_enabled: bool,
        spawned_trades: &[A],
        source: D,
    ) -> (f: Self)
        ensures
            f.strategy == strategy,
            f.ts_addr == ts,
            f.source == source,
            f.notifications_enabled == notifications_enabled,
            f.live_trading_enabled == live_trading_enabled,
            f.spawned_trade_addrs@.len() == spawned_trades@.len(),
            forall|i: int|
                0 <= i < spawned_trades@.len() ==> cloned::<A>(
                    spawned_trades@[i],
                    #[trigger] f.spawned_trade_addrs@[i],
                ),
    {
        SetupFinder {
            strategy,
            ts_addr: ts,
            source,
            notifications_enabled,
            live_trading_enabled,
            spawned_trade_addrs: clone_all(spawned_trades),
        }
    }
}

/// Clones of `items`, in order.
pub(crate) fn clone_all<A: Clone>(items: &[A]) -> (v: Vec<A>)
    ensures
        v@.len() == items@.len(),
        forall|i: int| 0 <= i < items@.len() ==> cloned::<A>(items@[i], #[trigger] v@[i]),
{
    let mut v: Vec<A> = Vec::new();
    let mut i: usize = 0;
    while i < items.len()
        invariant
            i <= items@.len(),
            v@.len() == i,
            forall|j: int| 0 <= j < i ==> cloned::<A>(items@[j], #[trigger] v@[j]),
        decreases items@.len() - i,
    {
        v.push(items[i].clone());
        i = i + 1;
    }
    v
}

impl<S, T, D, A> SetupFinder<S, T, D, A> {
    /// What the finder does about a setup it found: open a trade when it
    /// trades live and holds no spawned trade, drop the setup when it trades
    /// live and holds one, and notify when notifications are on and the
    /// setup was not dropped.
    pub fn on_setup_found(&self) -> (a: SetupActions)
        ensures
            a.open_trade == opens_trade(
                self.live_trading_enabled,
                self.spawned_trade_addrs@.len(),
            ),
            a.notify == (self.notifications_enabled && !(self.live_trading_enabled
                && self.spawned_trade_addrs@.len() > 0)),
    {
        setup_actions(
            self.live_trading_enabled,
            self.notifications_enabled,
            self.spawned_trade_addrs.len(),
        )
    }

    /// Records a trade the finder spawned, so that it opens no other.
    pub fn on_trade_spawned(&mut self, trade: A)
        ensures
            final(self).spawned_trade_addrs@ == old(self).spawned_trade_addrs@.push(trade),
            final(self).notifications_enabled == old(self).notifications_enabled,
            final(self).live_trading_enabled == old(self).live_trading_enabled,
            final(self).strategy == old(self).strategy,
            final(self).ts_addr == old(self).ts_addr,
            final(self).source == old(self).source,
    {
        self.spawned_trade_addrs.push(trade);
    }
}

} // verus!
