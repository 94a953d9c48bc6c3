//! A verified model of the bridge between native integers and a foreign,
//! reference-counted object runtime guarded by one global lock.
pub mod error;
pub mod runtime;
pub mod ptr;
pub mod num;
pub mod tuple;
pub mod laws;
