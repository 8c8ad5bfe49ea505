//! Verified core of `autozng`: the report that the crate analyser prints,
//! the per-definition caches it keeps, and the example type it is run on.

pub mod ctx;
pub mod example;
pub mod report;
pub mod text;
