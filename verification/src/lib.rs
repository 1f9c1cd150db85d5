//! Verified core of the 0sim experiment tooling: the job server's state
//! machine, the client's views of it, and the command builders of the runner.

pub mod text;
pub mod jobserver;
pub mod runner;
pub mod runall;
pub mod cloudlab;
