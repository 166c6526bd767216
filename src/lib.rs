//! Monte Carlo quadrature with a sweep over worker counts: request
//! validation, partitioning of the sample budget, the per-round result
//! table and the sweep controller that derives speedup and efficiency.
pub mod metrics;
pub mod partition;
pub mod request;
pub mod slots;
pub mod sweep;
