//! A drift-diffusion trial engine: a bounded random walk accumulates noisy
//! evidence step by step until its magnitude first exceeds a symmetric
//! decision criterion, or a per-trial sample budget runs out.
//!
//! The library verifies the decision logic of the walk: where the accumulator
//! stands relative to the criterion after each sample is classified into a
//! [`trial::Region`], and the verified [`trial::Trial`] machine consumes one
//! region per sample, stopping at the first crossing with the trial's latency,
//! response and trace shape pinned down by contract. The floating-point
//! accumulation and the normal sampler themselves stay with the caller, which
//! feeds the machine one classified step at a time.

pub mod config;
pub mod trial;
pub mod crossing;
