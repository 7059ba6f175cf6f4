//! The parts of Kubernetes objects that the operator reads or fills in.

pub mod pod;
pub mod kinds;
pub mod meta;
pub mod workload;
