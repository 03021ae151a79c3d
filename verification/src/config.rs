//! Installation layout and the environment variables that name host files.

use vstd::prelude::*;
use crate::paths::{join, parent, path_join, path_parent};

verus! {

/// Environment variables for a "machinefile"/"hostfile": a list of hosts with
/// one line per hostname.
pub const MACHINEFILES: [&'static str; 2] = ["LSB_MCPU_HOSTS", "PBS_NODEFILE"];

/// The root of the installation: the value of `KARSKSAL_ROOT` at run time,
/// else the one the program was built with. One of them must be set.
pub fn karsksal_root(at_run_time: Option<String>, at_build_time: Option<String>) -> (root: String)
    requires
        at_run_time is Some || at_build_time is Some,
    ensures
        root == (match at_run_time {
            Some(r) => r,
            None => at_build_time->0,
        }),
{
    match at_run_time {
        Some(r) => r,
        None => match at_build_time {
            Some(r) => r,
            None => unreached(),
        },
    }
}

/// The Cirrus wrapper script: `<root>/bin/cirrus`.
pub fn wrapper_path(root: &str) -> (path: String)
    ensures
        path@ == path_join(path_join(root@, "bin"@), "cirrus"@),
{
    let bin = join(root, "bin");
    join(bin.as_str(), "cirrus")
}

/// The runner program, which sits next to the running program `exe`:
/// `<dir of exe>/runner`; `None` where `exe` has no parent directory.
pub fn runner_path(exe: &str) -> (path: Option<String>)
    ensures
        path.is_some() == path_parent(exe@).is_some(),
        path matches Some(p) ==> p@ == path_join(path_parent(exe@)->0, "runner"@),
{
    match parent(exe) {
        Some(dir) => Some(join(dir.as_str(), "runner")),
        None => None,
    }
}

} // verus!
