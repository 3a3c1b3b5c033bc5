//! Process scheduling and namespace primitives: clone flags, CPU affinity
//! masks and the decisions taken around the corresponding system calls.
pub mod cpuset;
pub mod errno;
pub mod sched;
