use runkarsk::config::{karsksal_root, runner_path, wrapper_path};
use runkarsk::paths::join;
use runkarsk::run_spec::{get_install_root, input_splits, split_input_into_dir_and_case, version_dir, Spec, SpecError};

fn resolve_ok(dir: String) -> Result<String, String> {
    Ok(format!("{}-resolved", dir))
}

#[test]
fn wrapper_and_runner_paths() {
    assert_eq!(wrapper_path("/opt/karsksal"), "/opt/karsksal/bin/cirrus");
    assert_eq!(runner_path("/opt/karsksal/bin/runcirrus"), Some("/opt/karsksal/bin/runner".to_string()));
    assert_eq!(runner_path("/"), None);
}

#[test]
fn root_from_run_time_first() {
    assert_eq!(karsksal_root(Some("/a".to_string()), Some("/b".to_string())), "/a");
    assert_eq!(karsksal_root(None, Some("/b".to_string())), "/b");
    assert_eq!(karsksal_root(Some("/a".to_string()), None), "/a");
}

#[test]
fn paths_are_joined_as_on_unix() {
    assert_eq!(join("/opt/k/", "bin"), "/opt/k/bin");
    assert_eq!(join("/opt/k", "/etc"), "/etc");
    assert_eq!(join("", "bin"), "bin");
    assert_eq!(join("/", "bin"), "/bin");
}

#[test]
fn input_split_into_directory_and_case() {
    assert_eq!(
        split_input_into_dir_and_case("/work/runs/pipe.in", false),
        ("/work/runs".to_string(), "pipe".to_string())
    );
    assert_eq!(
        split_input_into_dir_and_case("/work/runs/pipe", true),
        ("/work/runs/pipe".to_string(), "pipe".to_string())
    );
    assert!(input_splits("/work/runs/pipe.in", false));
    assert!(!input_splits("/", false));
    assert!(!input_splits("", false));
    assert!(!input_splits("/work/..", true));
    assert!(!input_splits("/", true));
}

#[test]
fn spec_of_unsplittable_inputs() {
    assert_eq!(Spec::new("/".to_string(), None, "/k", false, resolve_ok).err(), Some(SpecError::NoParentDirectory));
    assert_eq!(Spec::new("/w/..".to_string(), None, "/k", true, resolve_ok).err(), Some(SpecError::NoFileName));
    assert_eq!(Spec::new("/w/..".to_string(), None, "/k", false, resolve_ok).err(), Some(SpecError::NoFileName));
}

#[test]
fn version_directory() {
    assert_eq!(version_dir("/opt/k", "2024.1"), "/opt/k/versions/2024.1");
}

#[test]
fn spec_of_a_file_input_with_default_version() {
    let mut seen = String::new();
    let spec = Spec::new("/work/case7.in".to_string(), None, "/opt/k", false, |dir| {
        seen = dir.clone();
        resolve_ok(dir)
    })
    .unwrap();
    assert_eq!(seen, "/opt/k/versions/stable");
    assert_eq!(spec.get_prefix(), "/opt/k/versions/stable-resolved");
    assert_eq!(spec.get_input(), "/work/case7.in");
    assert_eq!(spec.get_case_name(), "case7");
    assert_eq!(spec.get_case_dir(), "/work");
    assert!(spec.get_args().is_empty());
    assert_eq!(spec.get_bin("mpirun"), "/opt/k/versions/stable-resolved/bin/mpirun");
}

#[test]
fn spec_of_a_directory_input_with_version() {
    let spec = Spec::new("/work/case8".to_string(), Some("1.2".to_string()), "/opt/k", true, resolve_ok).unwrap();
    assert_eq!(spec.get_prefix(), "/opt/k/versions/1.2-resolved");
    assert_eq!(spec.get_case_name(), "case8");
    assert_eq!(spec.get_case_dir(), "/work/case8");
}

#[test]
fn spec_with_missing_version() {
    let err = Spec::new("/work/a.in".to_string(), Some("9.9".to_string()), "/opt/k", false, |_| {
        Err("No such file or directory (os error 2)".to_string())
    });
    assert_eq!(
        err.err(),
        Some(SpecError::VersionNotFound {
            version: "9.9".to_string(),
            root: "/opt/k".to_string(),
            reason: "No such file or directory (os error 2)".to_string(),
        })
    );
}

#[test]
fn spec_with_unusable_input_does_not_resolve_version() {
    let mut called = false;
    let err = Spec::new("/".to_string(), None, "/opt/k", false, |dir| {
        called = true;
        resolve_ok(dir)
    });
    assert_eq!(err.err(), Some(SpecError::NoParentDirectory));
    assert!(!called);
}

#[test]
fn program_arguments_in_order() {
    let mut spec = Spec::new("/w/c.in".to_string(), None, "/k", false, resolve_ok).unwrap();
    spec.arg("-a").arg("1");
    spec.args(&["-b", "2"]);
    assert_eq!(spec.get_args(), &vec!["-a".to_string(), "1".to_string(), "-b".to_string(), "2".to_string()]);

    let mut one_by_one = Spec::new("/w/c.in".to_string(), None, "/k", false, resolve_ok).unwrap();
    let mut at_once = Spec::new("/w/c.in".to_string(), None, "/k", false, resolve_ok).unwrap();
    one_by_one.arg("x").arg("y").arg("z");
    at_once.args(&["x", "y", "z"]);
    assert_eq!(one_by_one.get_args(), at_once.get_args());
}

#[test]
fn install_root_of_a_version() {
    assert_eq!(get_install_root("3.0".to_string(), "/opt/k", resolve_ok), Ok("/opt/k/versions/3.0-resolved".to_string()));
    assert_eq!(
        get_install_root("3.0".to_string(), "/opt/k", |_| Err("gone".to_string())),
        Err(SpecError::VersionNotInstalled {
            version: "3.0".to_string(),
            versions_dir: "/opt/k/versions".to_string(),
            reason: "gone".to_string(),
        })
    );
}
