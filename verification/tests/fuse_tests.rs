use sqsfs::attr::{build_fileattr, FileKind};
use sqsfs::cli::CliArgs;
use sqsfs::errors::FsError;
use sqsfs::fuse::SQSFuse;
use sqsfs::sqs::ListingOutcome;

fn args(ttl: u64) -> CliArgs {
    CliArgs {
        mount_point: String::from("/mnt/queues"),
        auto_unmount: false,
        allow_root: false,
        cache_ttl_in_secs: ttl,
    }
}

fn listing(urls: &[&str]) -> ListingOutcome {
    ListingOutcome::Listed(urls.iter().map(|u| String::from(*u)).collect())
}

const ORDERS: &str = "https://sqs.us-east-1.amazonaws.com/123456789012/orders";
const BILLING: &str = "https://sqs.us-east-1.amazonaws.com/123456789012/billing";

const O_RDONLY: i32 = 0;
const O_WRONLY: i32 = 1;
const O_RDWR: i32 = 2;
const O_TRUNC: i32 = 512;

fn handler() -> SQSFuse {
    let mut h = SQSFuse::new(args(30), 1000, 1000);
    h.apply_refresh(100, listing(&[ORDERS, BILLING]));
    h
}

#[test]
fn fileattr_template_has_exact_values() {
    let file = build_fileattr(2, FileKind::RegularFile, 1000, 1001);
    assert_eq!(file.ino, 2);
    assert_eq!(file.size, 1024 * 1024);
    assert_eq!(file.blocks, 1024 * 1024 / 512);
    assert_eq!(file.perm, 0o644);
    assert_eq!(file.nlink, 1);
    assert_eq!(file.uid, 1000);
    assert_eq!(file.gid, 1001);
    assert_eq!(file.blksize, 512);
    assert_eq!(file.rdev, 0);
    assert_eq!(file.flags, 0);

    let dir = build_fileattr(1, FileKind::Directory, 1000, 1001);
    assert_eq!(dir.ino, 1);
    assert_eq!(dir.size, 0);
    assert_eq!(dir.blocks, 0);
    assert_eq!(dir.perm, 0o755);
    assert_eq!(dir.nlink, 2);
}

#[test]
fn lookup_finds_queues_under_root_only() {
    let h = handler();
    let attr = h.lookup(1, &String::from("orders")).unwrap();
    assert_eq!(attr.ino, 2);
    assert_eq!(attr.perm, 0o644);
    assert_eq!(h.lookup(1, &String::from("missing")).unwrap_err(), FsError::NotFound);
    assert_eq!(h.lookup(2, &String::from("orders")).unwrap_err(), FsError::NotFound);
}

#[test]
fn getattr_answers_root_and_queues() {
    let h = handler();
    let root = h.getattr(1).unwrap();
    assert_eq!(root.ino, 1);
    assert_eq!(root.perm, 0o755);
    let billing = h.getattr(3).unwrap();
    assert_eq!(billing.ino, 3);
    assert_eq!(h.getattr(9).unwrap_err(), FsError::NotFound);
}

#[test]
fn setattr_refuses_meaningful_changes_and_ignores_size() {
    let h = handler();
    // A permission change is refused.
    assert_eq!(h.setattr(2, Some(0o600), None, false, false).unwrap_err(), FsError::NotSupported);
    // Timestamp changes are refused.
    assert_eq!(h.setattr(2, None, None, true, false).unwrap_err(), FsError::NotSupported);
    assert_eq!(h.setattr(2, None, None, false, true).unwrap_err(), FsError::NotSupported);
    // Truncation is a no-op: the unchanged attributes come back.
    let attr = h.setattr(2, None, Some(0), false, false).unwrap();
    assert_eq!(attr.size, 1024 * 1024);
    // An unknown inode is reported before anything else.
    assert_eq!(h.setattr(9, Some(0o600), None, false, false).unwrap_err(), FsError::NotFound);
}

#[test]
fn open_grants_by_posix_classes() {
    // Owner may read and write.
    let mut h = handler();
    assert!(h.open(2, O_RDONLY, 1000, 1000).is_ok());
    assert!(h.open(2, O_WRONLY, 1000, 1000).is_ok());
    assert!(h.open(2, O_RDWR, 1000, 1000).is_ok());
    // A group member may read but not write.
    assert!(h.open(2, O_RDONLY, 2000, 1000).is_ok());
    assert_eq!(h.open(2, O_WRONLY, 2000, 1000).unwrap_err(), FsError::AccessDenied);
    assert_eq!(h.open(2, O_RDWR, 2000, 1000).unwrap_err(), FsError::AccessDenied);
    // A user in neither class may not write.
    assert_eq!(h.open(2, O_WRONLY, 2000, 2000).unwrap_err(), FsError::AccessDenied);
    assert_eq!(h.open(2, O_RDWR, 2000, 2000).unwrap_err(), FsError::AccessDenied);
    // The superuser may always do both.
    assert!(h.open(2, O_RDWR, 0, 0).is_ok());
}

#[test]
fn open_rejects_bad_flags() {
    let mut h = handler();
    // Both access bits set at once: no valid mode.
    assert_eq!(h.open(2, 3, 1000, 1000).unwrap_err(), FsError::InvalidArgument);
    // Truncating a read-only open.
    assert_eq!(h.open(2, O_RDONLY | O_TRUNC, 1000, 1000).unwrap_err(), FsError::AccessDenied);
    // Truncating a writable open is fine.
    assert!(h.open(2, O_WRONLY | O_TRUNC, 1000, 1000).is_ok());
    // Unknown inode.
    assert_eq!(h.open(9, O_RDONLY, 1000, 1000).unwrap_err(), FsError::NotFound);
}

#[test]
fn open_hands_out_distinct_handles() {
    let mut h = handler();
    let a = h.open(2, O_RDONLY, 1000, 1000).unwrap();
    let b = h.open(3, O_RDWR, 1000, 1000).unwrap();
    assert_ne!(a, b);
    h.release(a);
    let c = h.open(2, O_RDONLY, 1000, 1000).unwrap();
    assert_ne!(a, c);
    assert_ne!(b, c);
}

#[test]
fn readonly_handle_is_rejected_for_write_before_any_send() {
    let mut h = handler();
    let fh = h.open(2, O_RDONLY, 1000, 1000).unwrap();
    let r = h.write(2, fh, b"hello");
    assert_eq!(r.unwrap_err(), FsError::AccessDenied);
}

#[test]
fn write_verb_builds_the_outbound_message() {
    let mut h = handler();
    let fh = h.open(2, O_WRONLY, 1000, 1000).unwrap();
    let message = h.write(2, fh, b"payload").unwrap();
    assert_eq!(message.queue_url, ORDERS);
    assert_eq!(message.body, "payload");
    assert_eq!(message.byte_len, 7);
    assert_eq!(h.fs().write_finish(&message, true).unwrap(), 7);
}

#[test]
fn write_verb_error_precedence() {
    let mut h = handler();
    let fh = h.open(2, O_RDWR, 1000, 1000).unwrap();
    // Non-text payload.
    assert_eq!(h.write(2, fh, &[0xc3, 0x28]).unwrap_err(), FsError::InvalidArgument);
    // Unknown handle is refused even for a good payload and inode.
    assert_eq!(h.write(2, fh + 100, b"x").unwrap_err(), FsError::AccessDenied);
    // Known writable handle, good payload, but the inode is gone.
    assert_eq!(h.write(9, fh, b"x").unwrap_err(), FsError::NotFound);
    // A released handle no longer authorises writes.
    h.release(fh);
    assert_eq!(h.write(2, fh, b"x").unwrap_err(), FsError::AccessDenied);
}

#[test]
fn readdir_enumerates_dot_entries_then_queues() {
    let h = handler();
    let all = h.readdir(1, 0).unwrap();
    assert_eq!(all.len(), 4);
    assert_eq!((all[0].ino, all[0].name.as_str(), all[0].next_offset), (1, ".", 1));
    assert_eq!((all[1].ino, all[1].name.as_str(), all[1].next_offset), (1, "..", 2));
    assert_eq!((all[2].ino, all[2].name.as_str(), all[2].next_offset), (2, "orders", 3));
    assert_eq!((all[3].ino, all[3].name.as_str(), all[3].next_offset), (3, "billing", 4));
    assert!(matches!(all[0].kind, FileKind::Directory));
    assert!(matches!(all[2].kind, FileKind::RegularFile));
}

#[test]
fn readdir_continues_from_offset() {
    let h = handler();
    let rest = h.readdir(1, 3).unwrap();
    assert_eq!(rest.len(), 1);
    assert_eq!(rest[0].name, "billing");
    assert_eq!(rest[0].next_offset, 4);
    let none = h.readdir(1, 4).unwrap();
    assert!(none.is_empty());
    let past = h.readdir(1, 100).unwrap();
    assert!(past.is_empty());
}

#[test]
fn readdir_of_non_root_is_not_found() {
    let h = handler();
    assert_eq!(h.readdir(2, 0).unwrap_err(), FsError::NotFound);
}

#[test]
fn attr_ttl_is_the_configured_ttl() {
    let h = SQSFuse::new(args(77), 1000, 1000);
    assert_eq!(h.attr_ttl_secs(), 77);
}

#[test]
fn handler_refresh_policy_matches_adapter() {
    let mut h = SQSFuse::new(args(30), 1000, 1000);
    assert!(h.needs_refresh(30));
    h.apply_refresh(50, listing(&[ORDERS]));
    assert!(!h.needs_refresh(79));
    assert!(h.needs_refresh(80));
    h.apply_refresh(80, ListingOutcome::Failed);
    assert!(h.needs_refresh(81));
    assert_eq!(h.lookup(1, &String::from("orders")).unwrap_err(), FsError::NotFound);
}

#[test]
fn stale_handle_does_not_follow_a_queue_across_refreshes() {
    let mut h = SQSFuse::new(args(30), 1000, 1000);
    h.apply_refresh(100, listing(&[ORDERS, BILLING]));
    let fh = h.open(3, O_WRONLY, 1000, 1000).unwrap();
    // The refresh reorders the queues: inode 3 now holds a different queue,
    // and the old handle's writes land by inode, never by queue identity.
    h.apply_refresh(200, listing(&[BILLING, ORDERS]));
    let message = h.write(3, fh, b"x").unwrap();
    assert_eq!(message.queue_url, ORDERS);
    // After a shrinking refresh the inode is simply gone.
    h.apply_refresh(300, listing(&[BILLING]));
    assert_eq!(h.write(3, fh, b"x").unwrap_err(), FsError::NotFound);
}
