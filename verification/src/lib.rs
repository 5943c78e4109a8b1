//! Small building blocks for memoised computation and list transformation,
//! each with a proved contract.

pub mod cache;
pub mod product;
pub mod tracker;
pub mod transform;

pub use cache::{CacheState, ComputeCache};
pub use product::operation;
pub use tracker::{track_changes, Tracker};
pub use transform::{process_vector, process_vector_with_loop};
