use runkarsk::common_args::{
    convert_deprecated_arg, converted_deprecated_args, launch_mode, parse, requested_queue, CommonArgs, LaunchMode,
};

fn args_with_queue(queue: &str) -> CommonArgs {
    CommonArgs {
        input: None,
        queue: queue.to_string(),
        num_tasks_per_machine: None,
        num_machines: 1,
        interactive: false,
        version: None,
        output_directory: None,
        exclusive: false,
        print_versions: false,
        dry_run: false,
        otel_trace_id: None,
        otel_parent_span_id: None,
    }
}

fn strings(args: &[&str]) -> Vec<String> {
    args.iter().map(|a| a.to_string()).collect()
}

#[test]
fn deprecated_spellings_are_replaced() {
    assert_eq!(convert_deprecated_arg("-nm".to_string()), "-n");
    assert_eq!(convert_deprecated_arg("-nn".to_string()), "-m");
    assert_eq!(convert_deprecated_arg("-n".to_string()), "-n");
    assert_eq!(convert_deprecated_arg("-nmx".to_string()), "-nmx");
    assert_eq!(convert_deprecated_arg("case.in".to_string()), "case.in");
}

#[test]
fn whole_argument_vector_is_converted() {
    let converted = converted_deprecated_args(strings(&["runcirrus", "-nm", "4", "-nn", "2", "case.in"]));
    assert_eq!(converted, strings(&["runcirrus", "-n", "4", "-m", "2", "case.in"]));
    assert_eq!(converted_deprecated_args(Vec::new()), Vec::<String>::new());
}

#[test]
fn conversion_twice_is_conversion_once() {
    let once = converted_deprecated_args(strings(&["-nm", "-nn", "-n", "-m", "-q"]));
    let twice = converted_deprecated_args(once.clone());
    assert_eq!(once, twice);
}

#[test]
fn parser_gets_converted_arguments() {
    let parsed = parse("runcirrus", strings(&["runcirrus", "-nm", "8", "-q", "short"]), |bin_name, argv| {
        assert_eq!(bin_name, "runcirrus");
        assert_eq!(argv, strings(&["runcirrus", "-n", "8", "-q", "short"]));
        args_with_queue(&argv[4])
    });
    assert_eq!(parsed.queue, "short");
}

#[test]
fn launch_modes() {
    let mut args = args_with_queue("normal");
    assert_eq!(launch_mode(&args), LaunchMode::Run);
    args.dry_run = true;
    assert_eq!(launch_mode(&args), LaunchMode::DryRun);
    args.print_versions = true;
    assert_eq!(launch_mode(&args), LaunchMode::PrintVersions);
    args.dry_run = false;
    assert_eq!(launch_mode(&args), LaunchMode::PrintVersions);
}

#[test]
fn interactive_launch_uses_local_queue() {
    let mut args = args_with_queue("normal");
    assert_eq!(requested_queue(&args), "normal");
    args.interactive = true;
    assert_eq!(requested_queue(&args), "local");
}
