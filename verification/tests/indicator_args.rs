use rust_bot::indicators::indicator_args::{IndicatorArgs, IndicatorError, ONE_STD_DEV, TWO_STD_DEV};
use rust_bot::indicators::indicator_type::{krown_args, IndicatorKind, IndicatorType};
use rust_bot::models::ma_type::MAType;

#[test]
fn std_dev_bit_patterns() {
    assert_eq!(f64::from_bits(ONE_STD_DEV), 1.0);
    assert_eq!(f64::from_bits(TWO_STD_DEV), 2.0);
}

#[test]
fn accessors_accept_their_own_kind() {
    assert_eq!(IndicatorArgs::LengthArg(8).len_opt(), Some(8));
    assert_eq!(IndicatorArgs::LengthArg(8).len_res(), Ok(8));
    assert_eq!(IndicatorArgs::BollingerBandArgs(20, TWO_STD_DEV).bb_opt(), Some((20, TWO_STD_DEV)));
    assert_eq!(IndicatorArgs::BollingerBandArgs(20, TWO_STD_DEV).bb_res(), Ok((20, TWO_STD_DEV)));
    assert_eq!(IndicatorArgs::BBWPArgs(13, 252, 5).bbwp_opt(), Some((13, 252, 5)));
    assert_eq!(IndicatorArgs::BBWPArgs(13, 252, 5).bbwp_res(), Ok((13, 252, 5)));
    assert_eq!(IndicatorArgs::LengthLookbackArgs(3, 4).len_lookback_opt(), Some((3, 4)));
    assert_eq!(IndicatorArgs::LengthLookbackArgs(3, 4).len_lookback_res(), Ok((3, 4)));
    assert_eq!(IndicatorArgs::PMARArgs(20, MAType::SMA).pmar_opt(), Some((20, MAType::SMA)));
    assert_eq!(IndicatorArgs::PMARArgs(20, MAType::SMA).pmar_res(), Ok((20, MAType::SMA)));
    assert_eq!(IndicatorArgs::PMARPArgs(20, 350, MAType::VWMA).pmarp_opt(), Some((20, 350, MAType::VWMA)));
    assert_eq!(IndicatorArgs::PMARPArgs(20, 350, MAType::VWMA).pmarp_res(), Ok((20, 350, MAType::VWMA)));
    assert_eq!(IndicatorArgs::StochasticArgs(14, 3, 6).stochastic_opt(), Some((14, 3, 6)));
    assert_eq!(IndicatorArgs::StochasticArgs(14, 3, 6).stochastic_res(), Ok((14, 3, 6)));
}

#[test]
fn accessors_reject_other_kinds() {
    let args = IndicatorArgs::LengthArg(8);
    assert_eq!(args.bb_opt(), None);
    assert_eq!(args.bb_res(), Err(IndicatorError::InvalidArguments));
    assert_eq!(args.bbwp_res(), Err(IndicatorError::InvalidArguments));
    assert_eq!(args.pmarp_opt(), None);
    assert_eq!(args.stochastic_res(), Err(IndicatorError::InvalidArguments));
    let args = IndicatorArgs::StochasticArgs(1, 2, 3);
    assert_eq!(args.len_opt(), None);
    assert_eq!(args.len_res(), Err(IndicatorError::InvalidArguments));
    assert_eq!(args.len_lookback_res(), Err(IndicatorError::InvalidArguments));
    assert_eq!(args.pmar_res(), Err(IndicatorError::InvalidArguments));
}

#[test]
fn error_messages() {
    assert_eq!(IndicatorError::InvalidArguments.message(), "Invalid indicator arguments.");
    assert_eq!(IndicatorError::NoCandle.message(), "No candle to populate");
    assert_eq!(IndicatorError::NotEnoughCandles.message(), "Not enough candles to populate.");
}

#[test]
fn populate_args_of_each_type() {
    assert_eq!(IndicatorType::ATR(14).populate_args(), IndicatorArgs::LengthArg(14));
    assert_eq!(IndicatorType::BBW(20).populate_args(), IndicatorArgs::BollingerBandArgs(20, TWO_STD_DEV));
    assert_eq!(IndicatorType::BollingerBands(21).populate_args(), IndicatorArgs::BollingerBandArgs(21, TWO_STD_DEV));
    assert_eq!(IndicatorType::BBWP(13, 252).populate_args(), IndicatorArgs::BBWPArgs(13, 252, 5));
    assert_eq!(IndicatorType::DynamicPivot(15).populate_args(), IndicatorArgs::LengthArg(15));
    assert_eq!(IndicatorType::EMA(8).populate_args(), IndicatorArgs::LengthArg(8));
    assert_eq!(IndicatorType::RSI(14).populate_args(), IndicatorArgs::LengthArg(14));
    assert_eq!(IndicatorType::SMA(8).populate_args(), IndicatorArgs::LengthArg(8));
    assert_eq!(IndicatorType::PMAR(20, MAType::EMA).populate_args(), IndicatorArgs::PMARArgs(20, MAType::EMA));
    assert_eq!(
        IndicatorType::PMARP(20, 350, MAType::VWMA).populate_args(),
        IndicatorArgs::PMARPArgs(20, 350, MAType::VWMA)
    );
    assert_eq!(IndicatorType::Stochastic(14, 3, 6).populate_args(), IndicatorArgs::StochasticArgs(14, 3, 6));
}

#[test]
fn populating_records_under_own_type() {
    let types = [
        IndicatorType::SMA(8),
        IndicatorType::EMA(9),
        IndicatorType::RSI(14),
        IndicatorType::ATR(15),
        IndicatorType::BollingerBands(20),
        IndicatorType::BBW(21),
        IndicatorType::BBWP(13, 252),
        IndicatorType::DynamicPivot(15),
        IndicatorType::PMAR(20, MAType::SMA),
        IndicatorType::PMARP(20, 350, MAType::VWMA),
        IndicatorType::Stochastic(14, 3, 6),
    ];
    for t in types {
        assert_eq!(t.kind().indicator_type(&t.populate_args()), Ok(t));
    }
}

#[test]
fn recorded_type_rejects_wrong_args() {
    assert_eq!(
        IndicatorKind::BBW.indicator_type(&IndicatorArgs::LengthArg(20)),
        Err(IndicatorError::InvalidArguments)
    );
    assert_eq!(
        IndicatorKind::SMA.indicator_type(&IndicatorArgs::BBWPArgs(1, 2, 3)),
        Err(IndicatorError::InvalidArguments)
    );
}

#[test]
fn default_args_table() {
    assert_eq!(IndicatorKind::SMA.default_args(), IndicatorArgs::LengthArg(8));
    assert_eq!(IndicatorKind::EMA.default_args(), IndicatorArgs::LengthArg(8));
    assert_eq!(IndicatorKind::RSI.default_args(), IndicatorArgs::LengthArg(14));
    assert_eq!(IndicatorKind::ATR.default_args(), IndicatorArgs::LengthArg(14));
    assert_eq!(IndicatorKind::BollingerBands.default_args(), IndicatorArgs::BollingerBandArgs(20, TWO_STD_DEV));
    assert_eq!(IndicatorKind::BBW.default_args(), IndicatorArgs::BollingerBandArgs(20, TWO_STD_DEV));
    assert_eq!(IndicatorKind::BBWP.default_args(), IndicatorArgs::BBWPArgs(13, 252, 5));
    assert_eq!(IndicatorKind::DynamicPivot.default_args(), IndicatorArgs::LengthArg(15));
    assert_eq!(IndicatorKind::PMAR.default_args(), IndicatorArgs::LengthArg(20));
    assert_eq!(IndicatorKind::PMARP.default_args(), IndicatorArgs::PMARPArgs(20, 350, MAType::VWMA));
    assert_eq!(IndicatorKind::Stochastic.default_args(), IndicatorArgs::StochasticArgs(14, 1, 3));
    assert_eq!(krown_args(), IndicatorArgs::StochasticArgs(14, 3, 6));
}

#[test]
fn default_args_are_accepted() {
    let kinds = [
        IndicatorKind::SMA,
        IndicatorKind::EMA,
        IndicatorKind::RSI,
        IndicatorKind::ATR,
        IndicatorKind::BollingerBands,
        IndicatorKind::BBW,
        IndicatorKind::BBWP,
        IndicatorKind::DynamicPivot,
        IndicatorKind::PMARP,
        IndicatorKind::Stochastic,
    ];
    for k in kinds {
        let args = k.default_args();
        let t = k.indicator_type(&args).unwrap();
        assert_eq!(t.kind(), k);
        assert_eq!(t.populate_args(), args);
    }
    // PMAR's default is a bare length, keying the SMA-based PMAR.
    let pmar = IndicatorKind::PMAR.indicator_type(&IndicatorKind::PMAR.default_args()).unwrap();
    assert_eq!(pmar, IndicatorType::PMAR(20, MAType::SMA));
    assert_eq!(pmar.kind(), IndicatorKind::PMAR);
    assert_eq!(pmar.populate_args(), IndicatorArgs::PMARArgs(20, MAType::SMA));
    assert_eq!(
        IndicatorKind::PMAR.indicator_type(&IndicatorArgs::LengthArg(9)),
        Ok(IndicatorType::PMAR(9, MAType::SMA))
    );
}
