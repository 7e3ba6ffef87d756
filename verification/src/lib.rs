//! Converts application-defined callables into uniform, schedulable system
//! units and statically validates that one unit's declared resource accesses
//! cannot alias destructively.
//!
//! A callable enters through [`convert::IntoWorkloadSystem`]; each parameter
//! contributes its access descriptors, in order, into one accumulator; the
//! conflict validator in [`validate`] rejects structurally unsafe
//! combinations; on acceptance a [`system::WorkloadSystem`] is assembled,
//! wrapping a thunk that acquires each declared access from the execution
//! context before invoking the original callable.

pub mod access;
pub mod convert;
pub mod error;
pub mod system;
pub mod validate;
pub mod world;
