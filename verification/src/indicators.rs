pub mod indicator_args;
pub mod indicator_type;
pub mod windows;
