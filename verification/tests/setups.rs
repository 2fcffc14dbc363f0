use rust_bot::indicators::windows::Span;
use rust_bot::models::interval::Interval;
use rust_bot::models::message_payloads::LatestCandleResponse;
use rust_bot::models::setups::setup_builder::{SetupBuildError, SetupBuilder};
use rust_bot::models::setups::setup::Setup;
use rust_bot::models::setups::setup_finder::{setup_actions, SetupActions, SetupFinder};
use rust_bot::models::setups::setup_finder_builder::{SetupFinderBuildError, SetupFinderBuilder};
use rust_bot::models::strategy_orientation::StrategyOrientation;
use rust_bot::models::trade::{resolution_request, resolution_windows, should_exit};
use rust_bot::models::trade_builder::{TradeBuildError, TradeBuilder};

#[test]
fn setup_builder_builds_when_complete() {
    let setup = SetupBuilder::new()
        .candle(&42u64)
        .orientation(&StrategyOrientation::Short)
        .symbol("BTCUSDT")
        .interval(&Interval::Minute15)
        .build()
        .unwrap();
    assert_eq!(setup.candle, 42);
    assert_eq!(setup.orientation, StrategyOrientation::Short);
    assert_eq!(setup.symbol, "BTCUSDT");
    assert_eq!(setup.interval, Interval::Minute15);
}

#[test]
fn setup_builder_reports_first_missing_field() {
    let b: SetupBuilder<u64> = SetupBuilder::new();
    assert_eq!(b.build().unwrap_err(), SetupBuildError::MissingCandle);
    let b = b.candle(&1).symbol("X");
    assert_eq!(b.build().unwrap_err(), SetupBuildError::MissingOrientation);
    let b = b.orientation(&StrategyOrientation::Long);
    assert_eq!(b.build().unwrap_err(), SetupBuildError::MissingInterval);
    let b: SetupBuilder<u64> = SetupBuilder::new().candle(&1).orientation(&StrategyOrientation::Long);
    assert_eq!(b.build().unwrap_err(), SetupBuildError::MissingSymbol);
    assert_eq!(SetupBuildError::MissingCandle.message(), "Candle is required.");
    assert_eq!(SetupBuildError::MissingOrientation.message(), "Orientation is required.");
    assert_eq!(SetupBuildError::MissingSymbol.message(), "Symbol is required.");
    assert_eq!(SetupBuildError::MissingInterval.message(), "Interval is required.");
}

#[test]
fn setup_finder_actions() {
    assert_eq!(setup_actions(false, false, 0), SetupActions { open_trade: false, notify: false });
    assert_eq!(setup_actions(false, true, 3), SetupActions { open_trade: false, notify: true });
    assert_eq!(setup_actions(true, true, 0), SetupActions { open_trade: true, notify: true });
    assert_eq!(setup_actions(true, true, 1), SetupActions { open_trade: false, notify: false });
    assert_eq!(setup_actions(true, false, 0), SetupActions { open_trade: true, notify: false });
}

#[test]
fn trade_requests_and_windows() {
    assert_eq!(resolution_request(5, 9).n, 9);
    assert_eq!(resolution_request(9, 5).n, 9);
    assert_eq!(
        resolution_windows(9, 5, 9),
        (Span { start: 4, end: 9 }, Span { start: 0, end: 9 })
    );
    assert!(should_exit(true, false));
    assert!(should_exit(false, true));
    assert!(!should_exit(false, false));
}

#[test]
fn latest_candle_response_new() {
    let r = LatestCandleResponse::new("A".to_string(), Interval::Week1, vec![1u8, 2]);
    assert_eq!(r.symbol, "A");
    assert_eq!(r.interval, Interval::Week1);
    assert_eq!(r.candles, vec![1, 2]);
}

type Finder = SetupFinder<&'static str, u8, &'static str, u32>;

#[test]
fn setup_finder_opens_one_trade_at_most() {
    let mut finder: Finder = SetupFinder::new("krown", 1, true, true, &[], "bybit");
    let first = finder.on_setup_found();
    assert_eq!(first, SetupActions { open_trade: true, notify: true });
    finder.on_trade_spawned(7);
    assert_eq!(finder.spawned_trade_addrs, vec![7]);
    for _ in 0..3 {
        assert_eq!(finder.on_setup_found(), SetupActions { open_trade: false, notify: false });
    }
    let quiet: Finder = SetupFinder::new("krown", 1, false, false, &[], "bybit");
    assert_eq!(quiet.on_setup_found(), SetupActions { open_trade: false, notify: false });
    let notifying: Finder = SetupFinder::new("krown", 1, true, false, &[1, 2], "bybit");
    assert_eq!(notifying.on_setup_found(), SetupActions { open_trade: false, notify: true });
    assert_eq!(notifying.spawned_trade_addrs, vec![1, 2]);
}

#[test]
fn setup_finder_builder_reports_first_missing_field() {
    let b: SetupFinderBuilder<&'static str, u8, &'static str, u32> = SetupFinderBuilder::new();
    let e = b.build().unwrap_err();
    assert_eq!(e, SetupFinderBuildError::MissingStrategy);
    assert_eq!(e.message(), "Strategy is required to build SetupFinder");
    let b: SetupFinderBuilder<&'static str, u8, &'static str, u32> =
        SetupFinderBuilder::new().strategy("krown").source("bybit");
    let e = b.build().unwrap_err();
    assert_eq!(e, SetupFinderBuildError::MissingTimeSeries);
    assert_eq!(e.message(), "TimeSeries address is required to build SetupFinder");
    let b: SetupFinderBuilder<&'static str, u8, &'static str, u32> =
        SetupFinderBuilder::new().strategy("krown").ts(4);
    let e = b.build().unwrap_err();
    assert_eq!(e, SetupFinderBuildError::MissingSource);
    assert_eq!(e.message(), "Source is required to build SetupFinder");
}

#[test]
fn setup_finder_builder_builds_when_complete() {
    let finder: Finder = SetupFinderBuilder::new()
        .strategy("krown")
        .ts(4)
        .source("bybit")
        .notifications_enabled(true)
        .live_trading_enabled(true)
        .spawned_trades(&[9])
        .build()
        .unwrap();
    assert_eq!(finder.strategy, "krown");
    assert_eq!(finder.ts_addr, 4);
    assert_eq!(finder.source, "bybit");
    assert!(finder.notifications_enabled && finder.live_trading_enabled);
    assert_eq!(finder.spawned_trade_addrs, vec![9]);
    assert_eq!(finder.on_setup_found(), SetupActions { open_trade: false, notify: false });
}

type Builder = TradeBuilder<u64, f64, &'static str, u8, u16>;

fn setup() -> Setup<u64> {
    SetupBuilder::new()
        .candle(&5u64)
        .orientation(&StrategyOrientation::Long)
        .symbol("BTCUSDT")
        .interval(&Interval::Hour1)
        .build()
        .unwrap()
}

#[test]
fn trade_builder_reports_first_missing_field() {
    let b: Builder = TradeBuilder::new();
    assert!(!b.notifications_enabled && !b.trading_enabled);
    assert_eq!(b.build().unwrap_err(), TradeBuildError::MissingSetup);
    assert_eq!(b.build().unwrap_err().message(), "Setup is required to build Trade.");
    let mut b = b.symbol("BTCUSDT".to_string()).source("bybit").timeseries_addr(3);
    b.setup = Some(setup());
    assert_eq!(b.build().unwrap_err(), TradeBuildError::MissingQuantity);
    assert_eq!(b.build().unwrap_err().message(), "Quantity is required to build Trade.");
    let b = b.quantity(0.5);
    assert_eq!(b.build().unwrap_err(), TradeBuildError::MissingDollarValue);
    assert_eq!(b.build().unwrap_err().message(), "Dollar value is required to build Trade.");
    let b = b.dollar_value(15_000.0);
    assert_eq!(b.build().unwrap_err(), TradeBuildError::MissingResolutionStrategy);
    assert_eq!(
        b.build().unwrap_err().message(),
        "Resolution strategy is required to build Trade."
    );
    let mut c = b.clone().resolution_strategy(1);
    c.timeseries_addr = None;
    assert_eq!(c.build().unwrap_err(), TradeBuildError::MissingTimeSeries);
    assert_eq!(c.build().unwrap_err().message(), "TimeSeries is required to build Trade.");
    let mut d = b.clone().resolution_strategy(1);
    d.source = None;
    assert_eq!(d.build().unwrap_err(), TradeBuildError::MissingSource);
    assert_eq!(d.build().unwrap_err().message(), "DataSource is required to build Trade.");
}

#[test]
fn trade_builder_builds_when_complete() {
    let mut b: Builder = TradeBuilder::new()
        .quantity(0.5)
        .dollar_value(15_000.0)
        .source("bybit")
        .notifications_enabled(true)
        .trading_enabled(true)
        .resolution_strategy(2)
        .orientation(StrategyOrientation::Short)
        .timeseries_addr(9);
    b.setup = Some(setup());
    let trade = b.build().unwrap();
    assert_eq!(trade.setup.candle, 5);
    assert_eq!(trade.setup.symbol, "BTCUSDT");
    assert_eq!(trade.quantity, 0.5);
    assert_eq!(trade.dollar_value, 15_000.0);
    assert_eq!(trade.source, "bybit");
    assert!(trade.notifications_enabled);
    assert!(trade.trading_enabled);
    assert_eq!(trade.resolution_strategy, 2);
    assert_eq!(trade.timeseries, 9);
}
