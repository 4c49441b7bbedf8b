use posix_spawn::{PosixSpawnFileActions, SpawnError, EINVAL};

fn listed(a: &PosixSpawnFileActions) -> Vec<(i32, Vec<u8>, i32, u16)> {
    a.actions().iter().map(|o| (o.fd(), o.path().clone(), o.oflags(), o.mode())).collect()
}

#[test]
fn new_list_is_empty() {
    let a = PosixSpawnFileActions::new().unwrap();
    assert!(a.actions().is_empty());
}

#[test]
fn stdin_and_stdout_to_dev_null() {
    let mut a = PosixSpawnFileActions::new().unwrap();
    a.addopen(0, "/dev/null", libc::O_RDWR, 0).unwrap();
    a.addopen(1, "/dev/null", libc::O_RDWR, 0).unwrap();
    assert_eq!(
        listed(&a),
        vec![
            (0, b"/dev/null".to_vec(), libc::O_RDWR, 0),
            (1, b"/dev/null".to_vec(), libc::O_RDWR, 0),
        ]
    );
}

#[test]
fn actions_keep_the_order_they_were_added() {
    let mut a = PosixSpawnFileActions::new().unwrap();
    a.addopen(3, "/tmp/a", libc::O_RDONLY, 0).unwrap();
    a.addopen(3, "/tmp/b", libc::O_WRONLY | libc::O_CREAT, 0o644).unwrap();
    a.addopen(1, "/tmp/c", libc::O_RDWR, 0o600).unwrap();
    assert_eq!(
        listed(&a),
        vec![
            (3, b"/tmp/a".to_vec(), libc::O_RDONLY, 0),
            (3, b"/tmp/b".to_vec(), libc::O_WRONLY | libc::O_CREAT, 0o644),
            (1, b"/tmp/c".to_vec(), libc::O_RDWR, 0o600),
        ]
    );
}

#[test]
fn open_path_with_nul_is_refused_and_changes_nothing() {
    let mut a = PosixSpawnFileActions::new().unwrap();
    a.addopen(0, "/dev/null", libc::O_RDONLY, 0).unwrap();
    let r = a.addopen(1, "/dev/\0null", libc::O_RDWR, 0);
    assert_eq!(r, Err(SpawnError::InvalidArgument(EINVAL)));
    assert_eq!(listed(&a).len(), 1);
}
