use posix_spawn::{spawn_result, PosixSpawn, PosixSpawnAttr, PosixSpawnFileActions, SpawnError, EINVAL};

#[test]
fn true_with_one_env_entry_is_laid_out_exactly() {
    let plan = PosixSpawn::new("/bin/true").env("FOO", "BAR").prepare().unwrap();
    assert_eq!(plan.path, b"/bin/true\0".to_vec());
    assert_eq!(plan.args, vec![b"/bin/true\0".to_vec()]);
    assert_eq!(plan.env, vec![b"FOO=BAR\0".to_vec()]);
    assert!(plan.attr.is_none());
    assert!(plan.actions.is_none());
}

#[test]
fn empty_environment_is_kept_empty() {
    let plan = PosixSpawn::new("/bin/true").prepare().unwrap();
    assert!(plan.env.is_empty());
    assert_eq!(plan.args.len(), 1);
}

#[test]
fn arguments_follow_the_program_in_order() {
    let plan = PosixSpawn::new("/bin/echo").arg("a").arg("").arg("bc").prepare().unwrap();
    assert_eq!(
        plan.args,
        vec![b"/bin/echo\0".to_vec(), b"a\0".to_vec(), b"\0".to_vec(), b"bc\0".to_vec()]
    );
}

#[test]
fn environment_entries_keep_their_order() {
    let plan = PosixSpawn::new("/bin/env")
        .env("A", "1")
        .env("PATH", "/usr/bin:/bin")
        .env("EMPTY", "")
        .prepare()
        .unwrap();
    assert_eq!(
        plan.env,
        vec![b"A=1\0".to_vec(), b"PATH=/usr/bin:/bin\0".to_vec(), b"EMPTY=\0".to_vec()]
    );
}

#[test]
fn nonexistent_program_still_lays_out() {
    let plan = PosixSpawn::new("/nonexistent").prepare().unwrap();
    assert_eq!(plan.path, b"/nonexistent\0".to_vec());
}

#[test]
fn nul_in_path_is_refused() {
    let r = PosixSpawn::new("/bin/t\0rue").prepare();
    assert_eq!(r.err(), Some(SpawnError::InvalidArgument(EINVAL)));
}

#[test]
fn nul_in_argument_is_refused() {
    let r = PosixSpawn::new("/bin/echo").arg("ok").arg("b\0d").prepare();
    assert_eq!(r.err(), Some(SpawnError::InvalidArgument(EINVAL)));
}

#[test]
fn nul_in_env_key_or_value_is_refused() {
    let r = PosixSpawn::new("/bin/true").env("K\0", "V").prepare();
    assert_eq!(r.err(), Some(SpawnError::InvalidArgument(EINVAL)));
    let r = PosixSpawn::new("/bin/true").env("K", "\0").prepare();
    assert_eq!(r.err(), Some(SpawnError::InvalidArgument(EINVAL)));
}

#[test]
fn attached_sets_are_handed_on() {
    let mut attr = PosixSpawnAttr::new().unwrap();
    attr.setflags(0x40).unwrap();
    let mut actions = PosixSpawnFileActions::new().unwrap();
    actions.addopen(2, "/dev/null", libc::O_WRONLY, 0).unwrap();
    let plan = PosixSpawn::new("/bin/true").attr(attr).file_actions(actions).prepare().unwrap();
    assert_eq!(plan.attr.unwrap().flags(), Some(0x40));
    let actions = plan.actions.unwrap();
    assert_eq!(actions.actions().len(), 1);
    assert_eq!(actions.actions()[0].fd(), 2);
}

#[test]
fn a_later_attribute_set_replaces_the_earlier() {
    let mut first = PosixSpawnAttr::new().unwrap();
    first.setflags(1).unwrap();
    let mut second = PosixSpawnAttr::new().unwrap();
    second.setflags(2).unwrap();
    let plan = PosixSpawn::new("/bin/true").attr(first).attr(second).prepare().unwrap();
    assert_eq!(plan.attr.unwrap().flags(), Some(2));
}

#[test]
fn success_yields_the_child_pid() {
    assert_eq!(spawn_result(0, 4242), Ok(4242));
}

#[test]
fn missing_program_is_a_spawn_failure() {
    let r = spawn_result(libc::ENOENT, 0);
    assert_eq!(r, Err(SpawnError::SpawnFailure(libc::ENOENT)));
    assert_eq!(r.unwrap_err().raw_os_error(), 2);
}

#[test]
fn success_without_a_child_is_not_reported_as_success() {
    assert_eq!(spawn_result(0, 0), Err(SpawnError::SpawnFailure(posix_spawn::ESRCH)));
    assert_eq!(spawn_result(0, -7), Err(SpawnError::SpawnFailure(posix_spawn::ESRCH)));
}

#[test]
fn every_return_code_gives_a_pid_or_a_failure() {
    for (res, pid) in [(0, 1), (0, 0), (1, 5), (-3, -3), (libc::E2BIG, 9), (0, i32::MAX)] {
        match spawn_result(res, pid) {
            Ok(p) => assert!(p > 0 && res == 0 && p == pid),
            Err(SpawnError::SpawnFailure(c)) => assert!(c != 0),
            Err(e) => panic!("unexpected {:?}", e),
        }
    }
}
