pub mod has_min_length;
pub mod requires_indicators;
