use sqsfs::cli::{validate_mountpoint, CliArgs, MountOption, MountPointError};

fn args(auto_unmount: bool, allow_root: bool) -> CliArgs {
    CliArgs {
        mount_point: String::from("/mnt/queues"),
        auto_unmount,
        allow_root,
        cache_ttl_in_secs: 30,
    }
}

#[test]
fn base_options_are_read_write_with_fs_name() {
    let options = args(false, false).build_options();
    assert_eq!(options.len(), 2);
    assert!(matches!(options[0], MountOption::ReadWrite));
    match &options[1] {
        MountOption::FsName(name) => assert_eq!(name, "sqsfs"),
        other => panic!("expected the filesystem name, got {:?}", std::mem::discriminant(other)),
    }
}

#[test]
fn requested_options_are_appended_in_order() {
    let options = args(true, true).build_options();
    assert_eq!(options.len(), 4);
    assert!(matches!(options[2], MountOption::AutoUnmount));
    assert!(matches!(options[3], MountOption::AllowRoot));

    let only_root = args(false, true).build_options();
    assert_eq!(only_root.len(), 3);
    assert!(matches!(only_root[2], MountOption::AllowRoot));
}

#[test]
fn mountpoint_must_exist_and_be_an_unmounted_directory() {
    let mounted = Some(vec![String::from("/proc"), String::from("/mnt/queues")]);
    let free = Some(vec![String::from("/proc")]);
    let target = String::from("/mnt/queues");

    assert_eq!(
        validate_mountpoint(&mounted, &target, true, true).unwrap_err(),
        MountPointError::AlreadyMounted
    );
    assert_eq!(
        validate_mountpoint(&free, &target, false, false).unwrap_err(),
        MountPointError::DoesNotExist
    );
    assert_eq!(
        validate_mountpoint(&free, &target, true, false).unwrap_err(),
        MountPointError::NotADirectory
    );
    assert!(validate_mountpoint(&free, &target, true, true).is_ok());
}

#[test]
fn unreadable_mount_list_skips_only_that_check() {
    let target = String::from("/mnt/queues");
    assert!(validate_mountpoint(&None, &target, true, true).is_ok());
    assert_eq!(
        validate_mountpoint(&None, &target, false, true).unwrap_err(),
        MountPointError::DoesNotExist
    );
}
