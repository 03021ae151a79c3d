use runkarsk::config::MACHINEFILES;
use runkarsk::queue_system::{count_lines, get_max_allowed_cpu, HostEnv, QueueError, QueueSystem, Step1};

fn env_with(machinefiles: [bool; 2], parallelism: Option<usize>) -> HostEnv {
    HostEnv { machinefiles, parallelism }
}

fn no_hostfile(parallelism: usize) -> HostEnv {
    env_with([false, false], Some(parallelism))
}

fn unread(_: usize) -> Result<String, String> {
    panic!("no hostfile is named")
}

fn hostfiles(texts: [&'static str; 2]) -> impl FnOnce(usize) -> Result<String, String> {
    move |index| Ok(texts[index].to_string())
}

#[test]
fn test_get_max_allowed_cpu_with_no_hostfile_defined() {
    let env = no_hostfile(12);
    let actual = get_max_allowed_cpu(None, &env, unread);
    let expect = 12;
    assert_eq!(actual, Ok(expect));
}

#[test]
fn test_get_max_allowed_cpu() {
    let params = [(MACHINEFILES[0], 2), (MACHINEFILES[0], 4), (MACHINEFILES[1], 8)];
    for (key, num_hosts) in params.into_iter() {
        let index = MACHINEFILES.iter().position(|k| *k == key).unwrap();
        let mut set = [false, false];
        set[index] = true;
        let env = env_with(set, Some(64));
        let actual = get_max_allowed_cpu(None, &env, |asked| {
            assert_eq!(asked, index);
            Ok("localhost\n".repeat(num_hosts))
        });
        let expect = num_hosts;
        assert_eq!(actual, Ok(expect));
    }
}

#[test]
fn max_allowed_cpu_without_parallelism_is_one() {
    assert_eq!(get_max_allowed_cpu(None, &env_with([false, false], None), unread), Ok(1));
}

#[test]
fn max_allowed_cpu_never_exceeds_request() {
    assert_eq!(get_max_allowed_cpu(Some(3), &no_hostfile(12), unread), Ok(3));
    assert_eq!(get_max_allowed_cpu(Some(30), &no_hostfile(12), unread), Ok(12));
    assert_eq!(get_max_allowed_cpu(Some(0), &no_hostfile(12), unread), Ok(0));
}

#[test]
fn max_allowed_cpu_reads_first_set_hostfile() {
    let env = env_with([true, true], Some(64));
    assert_eq!(get_max_allowed_cpu(None, &env, hostfiles(["a\nb\nc\n", "x\n"])), Ok(3));
    let env = env_with([false, true], Some(64));
    assert_eq!(get_max_allowed_cpu(None, &env, hostfiles(["a\nb\nc\n", "x\n"])), Ok(1));
}

#[test]
fn max_allowed_cpu_reports_unreadable_hostfile() {
    let env = env_with([false, true], Some(64));
    assert_eq!(
        get_max_allowed_cpu(None, &env, |_| Err("no such file".to_string())),
        Err(QueueError::UnreadableHostfile("no such file".to_string()))
    );
}

#[test]
fn count_lines_like_str_lines() {
    assert_eq!(count_lines(""), 0);
    assert_eq!(count_lines("a"), 1);
    assert_eq!(count_lines("a\n"), 1);
    assert_eq!(count_lines("a\nb"), 2);
    assert_eq!(count_lines("\n\n"), 2);
    assert_eq!(count_lines("a\r\nb\r\n"), 2);
    assert_eq!(count_lines("h\u{e9}te\nn\u{153}ud"), 2);
    for n in 0..20 {
        assert_eq!(count_lines(&"node\n".repeat(n)), n);
    }
}

#[test]
fn local_queue_is_clamped_to_cores() {
    let qs = QueueSystem::from_args("local".to_string(), Some(100), 3, &no_hostfile(8), unread);
    assert_eq!(qs, Ok(QueueSystem::Local { num_tasks_per_machine: 8 }));
    let qs = QueueSystem::from_args("local".to_string(), Some(4), 3, &no_hostfile(8), unread);
    assert_eq!(qs, Ok(QueueSystem::Local { num_tasks_per_machine: 4 }));
    let qs = QueueSystem::from_args("local".to_string(), None, 3, &no_hostfile(8), unread);
    assert_eq!(qs, Ok(QueueSystem::Local { num_tasks_per_machine: 8 }));
}

#[test]
fn cluster_queue_keeps_request() {
    let qs = QueueSystem::from_args("normal".to_string(), Some(16), 4, &no_hostfile(8), unread);
    assert_eq!(
        qs,
        Ok(QueueSystem::Cluster { queue: "normal".to_string(), num_tasks_per_machine: 16, num_machines: 4 })
    );
    assert_eq!(qs.unwrap().num_tasks(), 64);
}

#[test]
fn cluster_queue_needs_tasks_per_machine() {
    let qs = QueueSystem::from_args("normal".to_string(), None, 4, &no_hostfile(8), unread);
    assert_eq!(qs, Err(QueueError::MissingTasksPerMachine));
}

#[test]
fn cluster_queue_does_not_read_hostfile() {
    let env = env_with([true, false], Some(8));
    let qs = QueueSystem::from_args("normal".to_string(), Some(2), 1, &env, unread);
    assert_eq!(
        qs,
        Ok(QueueSystem::Cluster { queue: "normal".to_string(), num_tasks_per_machine: 2, num_machines: 1 })
    );
}

#[test]
fn on_hpc_runs_locally() {
    let env = env_with([true, true], Some(64));
    let qs = QueueSystem::from_args("normal".to_string(), Some(16), 4, &env, hostfiles(["n1\nn2\nn3\n", "n1\n"]));
    assert_eq!(qs, Ok(QueueSystem::Local { num_tasks_per_machine: 3 }));
    let qs = QueueSystem::from_args("normal".to_string(), None, 4, &env, hostfiles(["n1\nn2\nn3\n", "n1\n"]));
    assert_eq!(qs, Ok(QueueSystem::Local { num_tasks_per_machine: 3 }));
}

#[test]
fn local_run_reports_unreadable_hostfile() {
    let env = env_with([true, false], Some(8));
    let qs = QueueSystem::from_args("local".to_string(), Some(2), 1, &env, |_| Err("denied".to_string()));
    assert_eq!(qs, Err(QueueError::UnreadableHostfile("denied".to_string())));
}

#[test]
fn num_tasks_of_local_run() {
    assert_eq!(QueueSystem::Local { num_tasks_per_machine: 6 }.num_tasks(), 6);
}

#[test]
fn steps_of_the_pipeline() {
    let hpc = env_with([true, true], None);
    let step = Step1 { queue: "normal".to_string(), num_tasks_per_machine: Some(5), num_machines: 7 }
        .enforce_local_on_hpc(&hpc);
    assert_eq!(step.queue, "local");
    assert_eq!(step.num_machines, 1);
    assert_eq!(step.num_tasks_per_machine, Some(5));
    let step = step.clamp_to_available_cores(&hpc, hostfiles(["a\nb\n", "a\n"])).unwrap();
    assert_eq!(step.num_tasks_per_machine, Some(2));
    let step2 = step.into_step2().unwrap();
    assert_eq!(step2.queue, None);
    assert_eq!(step2.num_tasks_per_machine, 2);

    let off_hpc = env_with([true, false], None);
    let step = Step1 { queue: "normal".to_string(), num_tasks_per_machine: None, num_machines: 7 }
        .enforce_local_on_hpc(&off_hpc);
    assert_eq!(step.queue, "normal");
    assert_eq!(step.num_machines, 7);
    let step = step.clamp_to_available_cores(&off_hpc, unread).unwrap();
    assert_eq!(step.num_tasks_per_machine, None);
    assert_eq!(step.into_step2().unwrap_err(), QueueError::MissingTasksPerMachine);
}
