//! Launch planning for Cirrus simulation runs: which queue a run goes to,
//! how many tasks it gets, where the installed version lives and which
//! command lines start it.

pub mod paths;
pub mod config;
pub mod queue_system;
pub mod common_args;
pub mod run_spec;
pub mod util;
pub mod telemetry;
pub mod launch;
