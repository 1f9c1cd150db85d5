//! The experiment runner: the commands it sends to remote machines, the
//! settings and output names of experiments, and the decisions it takes on
//! what the machines report.

pub mod cmd;
pub mod common;
pub mod kernel;
pub mod output;
pub mod workloads;
pub mod zerosim;
pub mod exp00007;
pub mod exp00008;
pub mod exptmp;
pub mod setup00002;
pub mod rpm;
pub mod setup00000;
pub mod host;
pub mod settings;
pub mod hadoop;
