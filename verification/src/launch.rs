//! The command lines that start a run: the one that hands a run to the
//! runner, and the one the runner starts MPI with.

use vstd::prelude::*;
use crate::paths::{join, path_join};
use crate::run_spec::{texts, Spec};

verus! {

/// The digit character of `d`.
pub open spec fn digit(d: nat) -> char {
    (48 + d) as char
}

/// The decimal numeral of `n`, without leading zeros.
pub open spec fn decimal(n: nat) -> Seq<char>
    decreases n,
{
    if n < 10 {
        seq![digit(n)]
    } else {
        decimal(n / 10).push(digit(n % 10))
    }
}

/// Calls `usize::to_string`, which writes an integer as its decimal numeral.
#[verifier::external_body]
fn decimal_string(n: usize) -> (s: String)
    ensures
        s@ == decimal(n as nat),
{
    n.to_string()
}

/// What one read from a child's output stream gave.
#[derive(Debug, Clone, Copy, PartialEq, Eq, Structural)]
pub enum ReadOutcome {
    /// This many bytes were read; none means the stream ended.
    Read(usize),
    /// The read failed.
    Failed,
}

/// What copying a child's output does next.
#[derive(Debug, Clone, Copy, PartialEq, Eq, Structural)]
pub enum CopyAction {
    /// Write this many bytes just read to each destination, then read again.
    Write(usize),
    /// Stop copying, flush the destinations.
    Stop,
}

/// Decides the next step of copying a child's output: the bytes read are
/// written on; the end of the stream, or a failed read, stops the copy.
pub fn copy_step(outcome: ReadOutcome) -> (action: CopyAction)
    ensures
        action == match outcome {
            ReadOutcome::Read(n) => if n == 0 { CopyAction::Stop } else { CopyAction::Write(n) },
            ReadOutcome::Failed => CopyAction::Stop,
        },
{
    match outcome {
        ReadOutcome::Read(0) | ReadOutcome::Failed => CopyAction::Stop,
        ReadOutcome::Read(n) => CopyAction::Write(n),
    }
}

/// The MPI options that keep Open MPI off UCX where the `bnxt_re` RDMA
/// module is loaded.
pub open spec fn bnxt_re_options() -> Seq<Seq<char>> {
    seq!["-mca"@, "btl"@, "vader,self,tcp"@, "-mca"@, "pml"@, "^ucx"@]
}

/// The first set hostfile among the values of the machinefile variables.
pub open spec fn first_machinefile(machinefiles: Seq<Option<String>>) -> Option<String>
    decreases machinefiles.len(),
{
    if machinefiles.len() == 0 {
        None
    } else if machinefiles[0] is Some {
        machinefiles[0]
    } else {
        first_machinefile(machinefiles.drop_first())
    }
}

/// The arguments the runner hands to `mpirun`: the RDMA options where
/// `bnxt_re_loaded`, then the hostfile where a machinefile variable names
/// one, else the number of processes, then the program and its arguments.
pub open spec fn mpirun_args(
    bnxt_re_loaded: bool,
    machinefiles: Seq<Option<String>>,
    num_tasks: usize,
    program_args: Seq<Seq<char>>,
) -> Seq<Seq<char>> {
    (if bnxt_re_loaded { bnxt_re_options() } else { Seq::empty() })
        + (match first_machinefile(machinefiles) {
            Some(file) => seq!["-machinefile"@, file@],
            None => seq!["-np"@, decimal(num_tasks as nat)],
        })
        + program_args
}

/// The hostfile handed to `mpirun` is the one `LSB_MCPU_HOSTS` names where
/// it is set, else the one `PBS_NODEFILE` names.
pub proof fn law_first_machinefile(machinefiles: Seq<Option<String>>)
    requires
        machinefiles.len() == 2,
    ensures
        first_machinefile(machinefiles) == (if machinefiles[0] is Some { machinefiles[0] } else { machinefiles[1] }),
{
    let rest = machinefiles.drop_first();
    assert(rest[0] == machinefiles[1]);
    assert(rest.drop_first().len() == 0);
    assert(first_machinefile(rest.drop_first()) is None);
    assert(first_machinefile(rest) == (if rest[0] is Some { rest[0] } else { first_machinefile(rest.drop_first()) }));
}

/// Where `bnxt_re` is loaded, the six RDMA options come first and the rest is
/// the command line without them: whether a hostfile or a process count
/// follows does not matter.
pub proof fn law_rdma_options_come_first(machinefiles: Seq<Option<String>>, num_tasks: usize, program_args: Seq<Seq<char>>)
    ensures
        mpirun_args(true, machinefiles, num_tasks, program_args)
            == seq!["-mca"@, "btl"@, "vader,self,tcp"@, "-mca"@, "pml"@, "^ucx"@]
            + mpirun_args(false, machinefiles, num_tasks, program_args),
{
    let rest = match first_machinefile(machinefiles) {
        Some(file) => seq!["-machinefile"@, file@],
        None => seq!["-np"@, decimal(num_tasks as nat)],
    };
    assert(Seq::<Seq<char>>::empty() + rest =~= rest);
    assert(bnxt_re_options() + rest + program_args =~= bnxt_re_options() + (Seq::<Seq<char>>::empty() + rest + program_args));
}

fn push_str(args: &mut Vec<String>, arg: &str)
    ensures
        texts(final(args)@) == texts(old(args)@).push(arg@),
{
    args.push(arg.to_owned());
    proof {
        assert(texts(args@) =~= texts(old(args)@).push(arg@));
    }
}

/// Builds the arguments of the runner's `mpirun` command.
pub fn runner_command_args(
    bnxt_re_loaded: bool,
    machinefiles: &[Option<String>; 2],
    num_tasks: usize,
    program_args: &Vec<String>,
) -> (args: Vec<String>)
    ensures
        texts(args@) == mpirun_args(bnxt_re_loaded, machinefiles@, num_tasks, texts(program_args@)),
        bnxt_re_loaded ==> texts(args@).len() >= 6 && texts(args@).subrange(0, 6)
            == seq!["-mca"@, "btl"@, "vader,self,tcp"@, "-mca"@, "pml"@, "^ucx"@],
        ({
            let at = if bnxt_re_loaded { 6int } else { 0int };
            &&& texts(args@).len() == at + 2 + program_args@.len()
            &&& machinefiles@[0] matches Some(file) ==> texts(args@)[at] == "-machinefile"@ && texts(args@)[at + 1] == file@
            &&& machinefiles@[0] is None ==> (machinefiles@[1] matches Some(file)
                ==> texts(args@)[at] == "-machinefile"@ && texts(args@)[at + 1] == file@)
            &&& machinefiles@[0] is None && machinefiles@[1] is None
                ==> texts(args@)[at] == "-np"@ && texts(args@)[at + 1] == decimal(num_tasks as nat)
            &&& texts(args@).subrange(at + 2, texts(args@).len() as int) == texts(program_args@)
        }),
{
    proof {
        law_rdma_options_come_first(machinefiles@, num_tasks, texts(program_args@));
        law_first_machinefile(machinefiles@);
    }
    let mut args: Vec<String> = Vec::new();
    if bnxt_re_loaded {
        push_str(&mut args, "-mca");
        push_str(&mut args, "btl");
        push_str(&mut args, "vader,self,tcp");
        push_str(&mut args, "-mca");
        push_str(&mut args, "pml");
        push_str(&mut args, "^ucx");
    }
    let ghost head = texts(args@);
    proof {
        assert(head =~= (if bnxt_re_loaded { bnxt_re_options() } else { Seq::empty() }));
        assert(machinefiles@.drop_first().drop_first().len() == 0);
    }
    match &machinefiles[0] {
        Some(file) => {
            push_str(&mut args, "-machinefile");
            push_str(&mut args, file.as_str());
            proof {
                assert(first_machinefile(machinefiles@) == Some(*file));
            }
        },
        None => match &machinefiles[1] {
            Some(file) => {
                push_str(&mut args, "-machinefile");
                push_str(&mut args, file.as_str());
                proof {
                    assert(first_machinefile(machinefiles@.drop_first()) == Some(*file));
                    assert(first_machinefile(machinefiles@) == Some(*file));
                }
            },
            None => {
                push_str(&mut args, "-np");
                let n = decimal_string(num_tasks);
                push_str(&mut args, n.as_str());
                proof {
                    assert(first_machinefile(machinefiles@.drop_first().drop_first()) is None);
                    assert(first_machinefile(machinefiles@.drop_first()) is None);
                    assert(first_machinefile(machinefiles@) is None);
                }
            },
        },
    }
    let ghost middle = texts(args@);
    assert(middle =~= head + (match first_machinefile(machinefiles@) {
        Some(file) => seq!["-machinefile"@, file@],
        None => seq!["-np"@, decimal(num_tasks as nat)],
    }));
    let mut i: usize = 0;
    while i < program_args.len()
        invariant
            i <= program_args@.len(),
            texts(args@) == middle + texts(program_args@).subrange(0, i as int),
        decreases program_args@.len() - i,
    {
        push_str(&mut args, program_args[i].as_str());
        proof {
            assert(texts(program_args@).subrange(0, i + 1) =~= texts(program_args@).subrange(0, i as int).push(program_args@[i as int]@));
        }
        i = i + 1;
    }
    proof {
        assert(texts(program_args@).subrange(0, program_args@.len() as int) =~= texts(program_args@));
    }
    args
}

/// The files the runner copies a case's output and errors to:
/// `<output_directory>/<case>.LOG` and `<output_directory>/<case>.ERR`.
pub fn runner_log_paths(output_directory: &str, case: &str) -> (paths: (String, String))
    ensures
        paths.0@ == path_join(output_directory@, case@ + ".LOG"@),
        paths.1@ == path_join(output_directory@, case@ + ".ERR"@),
{
    let mut log = case.to_owned();
    log.append(".LOG");
    let mut err = case.to_owned();
    err.append(".ERR");
    (join(output_directory, log.as_str()), join(output_directory, err.as_str()))
}

/// The arguments that hand a run to the runner: output directory (the case
/// directory where none is given), case name, number of tasks, `mpirun` of
/// the chosen version, then the Cirrus program with the input.
pub open spec fn runner_args(spec: Spec, output_directory: Option<String>, num_tasks: usize) -> Seq<Seq<char>> {
    let out = match output_directory {
        Some(dir) => dir@,
        None => spec@.case_dir,
    };
    let bin = path_join(spec@.prefix, "bin"@);
    seq![
        "-C"@, out,
        "-c"@, spec@.case_name,
        "-n"@, decimal(num_tasks as nat),
        "-M"@, path_join(bin, "mpirun"@),
        path_join(bin, "cirrus"@), "-cirrusin"@, spec@.input,
    ]
}

/// A run's output directory, where one is given, is handed to the runner
/// as given, in place of the case directory; nothing else changes.
pub proof fn law_output_directory_as_given(spec: Spec, output_directory: Option<String>, num_tasks: usize)
    ensures
        runner_args(spec, output_directory, num_tasks).len() == 11,
        runner_args(spec, None, num_tasks)[1] == spec@.case_dir,
        output_directory matches Some(dir) ==> runner_args(spec, output_directory, num_tasks)
            == runner_args(spec, None, num_tasks).update(1, dir@),
{
    if output_directory is Some {
        assert(runner_args(spec, output_directory, num_tasks) =~= runner_args(spec, None, num_tasks).update(1, output_directory->0@));
    }
}

/// Builds the arguments of the runner command for a run.
pub fn runcirrus_command_args(spec: &Spec, output_directory: Option<String>, num_tasks: usize) -> (args: Vec<String>)
    ensures
        texts(args@) == runner_args(*spec, output_directory, num_tasks),
        texts(args@).len() == 11,
        output_directory matches Some(dir) ==> texts(args@)[1] == dir@,
        output_directory is None ==> texts(args@)[1] == spec@.case_dir,
{
    proof {
        law_output_directory_as_given(*spec, output_directory, num_tasks);
    }
    let mpirun_path = spec.get_bin("mpirun");
    let out = match &output_directory {
        Some(dir) => dir.clone(),
        None => spec.get_case_dir().to_owned(),
    };
    let mut args: Vec<String> = Vec::new();
    push_str(&mut args, "-C");
    push_str(&mut args, out.as_str());
    push_str(&mut args, "-c");
    push_str(&mut args, spec.get_case_name());
    push_str(&mut args, "-n");
    let n = decimal_string(num_tasks);
    push_str(&mut args, n.as_str());
    push_str(&mut args, "-M");
    push_str(&mut args, mpirun_path.as_str());
    let cirrus = spec.get_bin("cirrus");
    push_str(&mut args, cirrus.as_str());
    push_str(&mut args, "-cirrusin");
    push_str(&mut args, spec.get_input());
    proof {
        assert(texts(args@) =~= runner_args(*spec, output_directory, num_tasks));
    }
    args
}

} // verus!
