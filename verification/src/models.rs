pub mod interval;
pub mod ma_type;
pub mod message_payloads;
pub mod setups;
pub mod strategy_orientation;
pub mod timeseries;
pub mod timeseries_builder;
pub mod timestamp;
pub mod trade;
pub mod trade_builder;
pub mod traits;
