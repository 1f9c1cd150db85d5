//! The job server: requests and responses, command templates, the server's
//! state machine, and the client's presentation of what the server reports.

pub mod proto;
pub mod template;
pub mod substitution;
pub mod server;
pub mod admission;
pub mod requests;
pub mod scheduler;
pub mod cancellation;
pub mod runs;
pub mod client;
pub mod laws;

