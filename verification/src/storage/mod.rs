//! Storage commands: the repositories that a management controller keeps.
pub mod sdr;
