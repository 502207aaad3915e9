//! A cheap value that tells the calling thread apart from every other thread
//! that is alive in the process.

pub mod id;
pub mod strategy;
pub mod target;

pub use id::ThrId;
pub use strategy::{Place, RegisterRead, Segment, Strategy, ThreadRegister};
pub use target::{Arch, Env, Os, Policy, Target};
