//! Locating files on the local disk.

pub mod errors;
pub mod finder;
