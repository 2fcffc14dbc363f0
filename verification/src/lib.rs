//! Core logic of a candle-based trading bot: time series bookkeeping,
//! indicator configuration and the index arithmetic that decides which
//! candles each indicator is computed over.

pub mod indicators;
pub mod models;
