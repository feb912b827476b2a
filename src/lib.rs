//! Values whose ranges, lengths and shapes are carried in their contracts:
//! bounded integers, bounded vectors, dimensioned matrices and an atomic
//! byte whose load rejects the orderings that make no sense for a load.
pub mod bounded_vec;
pub mod interval_arith;
pub mod matrix;
pub mod static_atomic;

pub use bounded_vec::BoundedVec;
pub use interval_arith::{BoundedInt, IntervalModel, is_overflow_safe, is_overflow_safe_mul};
pub use matrix::{Matrix, MatrixModel};
pub use static_atomic::AtomicU8;
