//! The options shared by the launch programs, and the argument vector that
//! is handed to their parser.

use vstd::prelude::*;

verus! {

/// The options of a launch, as the command-line parser delivers them.
#[derive(Debug, Clone)]
pub struct CommonArgs {
    /// Cirrus .in input file; required unless versions are to be printed.
    pub input: Option<String>,
    /// Job queue, or 'local' to run on this machine.
    pub queue: String,
    /// Number of tasks/processes per machine.
    pub num_tasks_per_machine: Option<usize>,
    /// Number of machines (nodes).
    pub num_machines: usize,
    /// Use 'local' job queue.
    pub interactive: bool,
    /// Version of Cirrus to use.
    pub version: Option<String>,
    /// Directory to store the output to.
    pub output_directory: Option<String>,
    /// Exclusive node usage (default: shared).
    pub exclusive: bool,
    /// Output Cirrus versions and exit.
    pub print_versions: bool,
    /// Print the command that would be executed.
    pub dry_run: bool,
    /// OpenTelemetry trace ID.
    pub otel_trace_id: Option<String>,
    /// OpenTelemetry parent span ID.
    pub otel_parent_span_id: Option<String>,
}

/// What a launch does, as its options ask.
#[derive(Debug, Clone, Copy, PartialEq, Eq, Structural)]
pub enum LaunchMode {
    /// Output the installed Cirrus versions and exit.
    PrintVersions,
    /// Print the command that would be executed, and execute nothing.
    DryRun,
    /// Execute the run.
    Run,
}

/// The mode of a launch: printing the versions comes first, then a dry run.
pub open spec fn mode_of(args: CommonArgs) -> LaunchMode {
    if args.print_versions {
        LaunchMode::PrintVersions
    } else if args.dry_run {
        LaunchMode::DryRun
    } else {
        LaunchMode::Run
    }
}

/// Decides what a launch does.
pub fn launch_mode(args: &CommonArgs) -> (mode: LaunchMode)
    ensures
        mode == mode_of(*args),
{
    if args.print_versions {
        LaunchMode::PrintVersions
    } else if args.dry_run {
        LaunchMode::DryRun
    } else {
        LaunchMode::Run
    }
}

/// The job queue a launch asks for: 'local' when it is interactive, else
/// the queue given.
pub fn requested_queue(args: &CommonArgs) -> (queue: String)
    ensures
        queue@ == if args.interactive { "local"@ } else { args.queue@ },
{
    if args.interactive {
        "local".to_owned()
    } else {
        args.queue.clone()
    }
}

/// One argument after the deprecated spellings are replaced: `-nm` (tasks
/// per machine) became `-n`, `-nn` (number of nodes) became `-m`.
pub open spec fn converted_arg(arg: Seq<char>) -> Seq<char> {
    if arg == "-nm"@ {
        "-n"@
    } else if arg == "-nn"@ {
        "-m"@
    } else {
        arg
    }
}

/// Converting an argument twice gives what converting it once gives: the
/// current spellings are never rewritten.
pub proof fn lemma_conversion_idempotent(arg: Seq<char>)
    ensures
        converted_arg(converted_arg(arg)) == converted_arg(arg),
{
    reveal_strlit("-nm");
    reveal_strlit("-nn");
    reveal_strlit("-n");
    reveal_strlit("-m");
}

/// Only the two deprecated spellings change: `-nm` becomes `-n` and `-nn`
/// becomes `-m`; every other argument is left as it is.
pub proof fn law_only_deprecated_spellings_change(arg: Seq<char>)
    ensures
        arg != "-nm"@ && arg != "-nn"@ ==> converted_arg(arg) == arg,
        converted_arg("-nm"@) == "-n"@,
        converted_arg("-nn"@) == "-m"@,
{
    reveal_strlit("-nm");
    reveal_strlit("-nn");
    reveal_strlit("-n");
    reveal_strlit("-m");
    assert("-nn"@[2] != "-nm"@[2]);
}

/// `converted` is `args` with each argument converted.
pub open spec fn converted_args(args: Seq<String>, converted: Seq<String>) -> bool {
    &&& converted.len() == args.len()
    &&& forall|i: int| 0 <= i < args.len() ==> (#[trigger] converted[i])@ == converted_arg(args[i]@)
}

/// Replaces a deprecated spelling of an option by the current one.
pub fn convert_deprecated_arg(arg: String) -> (converted: String)
    ensures
        converted@ == converted_arg(arg@),
{
    if arg == "-nm".to_owned() {
        "-n".to_owned()
    } else if arg == "-nn".to_owned() {
        "-m".to_owned()
    } else {
        arg
    }
}

/// Replaces the deprecated spellings in a whole argument vector.
pub fn converted_deprecated_args(args: Vec<String>) -> (converted: Vec<String>)
    ensures
        converted_args(args@, converted@),
{
    let mut converted: Vec<String> = Vec::new();
    let mut i: usize = 0;
    while i < args.len()
        invariant
            i <= args@.len(),
            converted@.len() == i,
            forall|j: int| 0 <= j < i ==> (#[trigger] converted@[j])@ == converted_arg(args@[j]@),
        decreases args@.len() - i,
    {
        let arg = args[i].clone();
        converted.push(convert_deprecated_arg(arg));
        i = i + 1;
    }
    converted
}

/// Parses the command line `args` (the program's name first) with `parser`,
/// which is handed `bin_name` and the arguments with their deprecated
/// spellings replaced.
pub fn parse<P>(bin_name: &str, args: Vec<String>, parser: P) -> (parsed: CommonArgs)
    where
        P: FnOnce(&str, Vec<String>) -> CommonArgs,
    requires
        forall|argv: Vec<String>| call_requires(parser, (bin_name, argv)),
    ensures
        exists|argv: Vec<String>|
            converted_args(args@, argv@) && call_ensures(parser, (bin_name, argv), parsed),
{
    let argv = converted_deprecated_args(args);
    parser(bin_name, argv)
}

} // verus!
