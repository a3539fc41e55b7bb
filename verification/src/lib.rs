//! Validation pipelines whose types record which checks a value has been through.
//!
//! - [`check`]: the container, the outcome, the `Check` trait and its `and` / `or` joins.
//! - [`cmberr`]: the strategies that merge the errors of two joined checks.
//! - [`laws`]: what holds of every pipeline, proved.
//! - [`n`]: a second engine whose `or` join recovers from a left failure, with two sample
//!   checks.
//! - [`text`]: the prefix test on string slices that the sample checks use.
pub mod check;
pub mod cmberr;
pub mod laws;
pub mod n;
pub mod text;
