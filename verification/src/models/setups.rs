pub mod setup;
pub mod setup_builder;
pub mod setup_finder;
pub mod setup_finder_builder;
