use sqsfs::cli::CliArgs;
use sqsfs::errors::FsError;
use sqsfs::filesystem::{ReadStep, SQSFileSystem};
use sqsfs::sqs::{get_queue_name, ListingOutcome, ReceiveOutcome, ReceivedMessage};

fn args(ttl: u64) -> CliArgs {
    CliArgs {
        mount_point: String::from("/mnt/queues"),
        auto_unmount: false,
        allow_root: false,
        cache_ttl_in_secs: ttl,
    }
}

fn listing(urls: &[&str]) -> ListingOutcome {
    ListingOutcome::Listed(urls.iter().map(|u| String::from(*u)).collect())
}

const ORDERS: &str = "https://sqs.us-east-1.amazonaws.com/123456789012/orders";
const BILLING: &str = "https://sqs.us-east-1.amazonaws.com/123456789012/billing";
const ALERTS: &str = "https://sqs.us-east-1.amazonaws.com/123456789012/alerts";

#[test]
fn queue_name_is_last_path_segment() {
    assert_eq!(get_queue_name(ORDERS).unwrap(), "orders");
    assert_eq!(
        get_queue_name("https://example.com/a/b/deep-queue").unwrap(),
        "deep-queue"
    );
}

#[test]
fn queue_name_of_unparsable_address_is_service_error() {
    assert_eq!(get_queue_name("not a url at all").unwrap_err(), FsError::ServiceError);
    // A URL that cannot carry a path has no segments.
    assert_eq!(get_queue_name("mailto:a@example.com").unwrap_err(), FsError::ServiceError);
}

#[test]
fn refresh_populates_cache_in_listing_order() {
    let mut fs = SQSFileSystem::new(args(30), 1000, 1000);
    fs.apply_refresh(100, listing(&[ORDERS, BILLING]));

    let files = fs.list_files();
    assert_eq!(files.len(), 2);
    assert_eq!(files[0].queue_name, "orders");
    assert_eq!(files[0].queue_url, ORDERS);
    assert_eq!(files[0].file_attr.ino, 2);
    assert_eq!(files[1].queue_name, "billing");
    assert_eq!(files[1].file_attr.ino, 3);

    assert!(fs.has_file(&String::from("orders")));
    assert!(fs.has_file(&String::from("billing")));
    assert!(!fs.has_file(&String::from("alerts")));

    let found = fs.find_by_name(&String::from("billing")).unwrap();
    assert_eq!(found.file_attr.ino, 3);
    assert_eq!(found.queue_url, BILLING);

    let by_ino = fs.find_by_inode(2).unwrap();
    assert_eq!(by_ino.queue_name, "orders");
    assert!(fs.find_by_inode(4).is_none());
    assert!(fs.find_by_inode(0).is_none());
}

#[test]
fn root_inode_is_always_present() {
    let fs = SQSFileSystem::new(args(30), 1000, 1001);
    let root = fs.find_by_inode(1).unwrap();
    assert_eq!(root.queue_name, ".");
    assert_eq!(root.file_attr.ino, 1);
    assert_eq!(root.file_attr.perm, 0o755);
    assert_eq!(root.file_attr.nlink, 2);
    assert_eq!(root.file_attr.uid, 1000);
    assert_eq!(root.file_attr.gid, 1001);
}

#[test]
fn unparsable_address_is_skipped_not_fatal() {
    let mut fs = SQSFileSystem::new(args(30), 1000, 1000);
    fs.apply_refresh(100, listing(&[ORDERS, "mailto:oops@example.com", BILLING]));
    let files = fs.list_files();
    assert_eq!(files.len(), 2);
    assert_eq!(files[0].queue_name, "orders");
    assert_eq!(files[1].queue_name, "billing");
    assert_eq!(files[1].file_attr.ino, 3);
}

#[test]
fn duplicate_short_name_resolves_to_last_listed() {
    let first = "https://sqs.us-east-1.amazonaws.com/111111111111/shared";
    let second = "https://sqs.us-east-1.amazonaws.com/222222222222/shared";
    let mut fs = SQSFileSystem::new(args(30), 1000, 1000);
    fs.apply_refresh(100, listing(&[first, second]));
    assert_eq!(fs.list_files().len(), 2);
    let found = fs.find_by_name(&String::from("shared")).unwrap();
    assert_eq!(found.file_attr.ino, 3);
    assert_eq!(found.queue_url, second);
}

#[test]
fn ttl_gating_two_accesses_in_window_need_no_listing() {
    let mut fs = SQSFileSystem::new(args(30), 1000, 1000);
    // A fresh adapter wants its first listing as soon as one TTL has passed
    // since the epoch it was initialised to.
    assert!(!fs.needs_refresh(29));
    assert!(fs.needs_refresh(30));
    fs.apply_refresh(100, listing(&[ORDERS]));
    // Two accessor calls within the TTL window: neither wants a new listing.
    assert!(!fs.needs_refresh(101));
    assert!(!fs.needs_refresh(129));
    // At the boundary the cache is stale again.
    assert!(fs.needs_refresh(130));
}

#[test]
fn failed_refresh_does_not_advance_clock() {
    let mut fs = SQSFileSystem::new(args(30), 1000, 1000);
    fs.apply_refresh(100, listing(&[ORDERS]));
    assert!(fs.needs_refresh(130));
    fs.apply_refresh(130, ListingOutcome::Failed);
    // The failure emptied the cache but left the clock, so the very next
    // access retries instead of waiting a full window.
    assert_eq!(fs.list_files().len(), 0);
    assert!(!fs.has_file(&String::from("orders")));
    assert!(fs.needs_refresh(131));
    fs.apply_refresh(131, listing(&[ORDERS]));
    assert!(fs.has_file(&String::from("orders")));
    assert!(!fs.needs_refresh(140));
}

#[test]
fn inodes_are_not_stable_across_refreshes() {
    let mut fs = SQSFileSystem::new(args(30), 1000, 1000);
    fs.apply_refresh(100, listing(&[ORDERS, BILLING]));
    assert_eq!(fs.find_by_inode(3).unwrap().queue_name, "billing");
    // A later refresh reorders and changes the set: inode 3 now names a
    // different queue, and inode 2's queue changed too.
    fs.apply_refresh(200, listing(&[ALERTS, ORDERS]));
    assert_eq!(fs.find_by_inode(2).unwrap().queue_name, "alerts");
    assert_eq!(fs.find_by_inode(3).unwrap().queue_name, "orders");
    // A refresh that shrinks the listing leaves old inodes dangling.
    fs.apply_refresh(300, listing(&[BILLING]));
    assert!(fs.find_by_inode(3).is_none());
}

#[test]
fn handles_are_unique_and_mode_checked() {
    let mut fs = SQSFileSystem::new(args(30), 1000, 1000);
    let read_only = fs.create_file_handler(4);
    let write_only = fs.create_file_handler(2);
    let both = fs.create_file_handler(6);
    assert_ne!(read_only, write_only);
    assert_ne!(write_only, both);
    assert_ne!(read_only, both);

    assert!(fs.check_file_handler_mode(read_only, 4));
    assert!(!fs.check_file_handler_mode(read_only, 2));
    assert!(fs.check_file_handler_mode(write_only, 2));
    assert!(!fs.check_file_handler_mode(write_only, 4));
    assert!(fs.check_file_handler_mode(both, 4));
    assert!(fs.check_file_handler_mode(both, 2));

    fs.release_file_handler(write_only);
    assert!(!fs.check_file_handler_mode(write_only, 2));
    assert!(fs.check_file_handler_mode(read_only, 4));
    // An identifier is never reused while the process runs.
    let next = fs.create_file_handler(2);
    assert_ne!(next, write_only);
}

#[test]
fn unknown_handle_never_passes() {
    let fs = SQSFileSystem::new(args(30), 1000, 1000);
    assert!(!fs.check_file_handler_mode(0, 4));
    assert!(!fs.check_file_handler_mode(7, 2));
}

#[test]
fn read_of_empty_queue_is_empty_not_error() {
    let mut fs = SQSFileSystem::new(args(30), 1000, 1000);
    fs.apply_refresh(100, listing(&[ORDERS]));
    let metadata = fs.find_by_name(&String::from("orders")).unwrap();
    match fs.read(metadata, ReceiveOutcome::NoMessage) {
        ReadStep::Done(result) => assert_eq!(result.unwrap(), ""),
        ReadStep::DeleteThenDeliver { .. } => panic!("an empty queue must finish the read"),
    }
}

#[test]
fn read_deletes_before_delivering() {
    let mut fs = SQSFileSystem::new(args(30), 1000, 1000);
    fs.apply_refresh(100, listing(&[ORDERS]));
    let metadata = fs.find_by_name(&String::from("orders")).unwrap();

    // One pending message in the remote queue.
    let mut pending = vec![ReceivedMessage {
        body: String::from("hello queue"),
        receipt_handle: String::from("receipt-1"),
    }];
    let received = ReceiveOutcome::Message(pending.first().cloned().unwrap());
    match fs.read(metadata, received) {
        ReadStep::Done(_) => panic!("a received message must first be deleted"),
        ReadStep::DeleteThenDeliver { queue_url, receipt_handle, body } => {
            assert_eq!(queue_url, ORDERS);
            assert_eq!(receipt_handle, "receipt-1");
            // The delete happens now, before the body is handed out.
            pending.retain(|m| m.receipt_handle != receipt_handle);
            assert_eq!(pending.len(), 0);
            let delivered = fs.read_finish(body, true).unwrap();
            assert_eq!(delivered, "hello queue");
        }
    }
}

#[test]
fn read_with_failed_delete_is_service_error() {
    let mut fs = SQSFileSystem::new(args(30), 1000, 1000);
    fs.apply_refresh(100, listing(&[ORDERS]));
    let metadata = fs.find_by_name(&String::from("orders")).unwrap();
    let received = ReceiveOutcome::Message(ReceivedMessage {
        body: String::from("x"),
        receipt_handle: String::from("r"),
    });
    match fs.read(metadata, received) {
        ReadStep::DeleteThenDeliver { body, .. } => {
            assert_eq!(fs.read_finish(body, false).unwrap_err(), FsError::ServiceError);
        }
        ReadStep::Done(_) => panic!("a received message must first be deleted"),
    }
}

#[test]
fn read_with_failed_receive_is_service_error() {
    let mut fs = SQSFileSystem::new(args(30), 1000, 1000);
    fs.apply_refresh(100, listing(&[ORDERS]));
    let metadata = fs.find_by_name(&String::from("orders")).unwrap();
    match fs.read(metadata, ReceiveOutcome::Failed) {
        ReadStep::Done(result) => assert_eq!(result.unwrap_err(), FsError::ServiceError),
        ReadStep::DeleteThenDeliver { .. } => panic!("a failed receive finishes the read"),
    }
}

#[test]
fn write_of_exactly_max_size_succeeds() {
    let mut fs = SQSFileSystem::new(args(30), 1000, 1000);
    fs.apply_refresh(100, listing(&[ORDERS]));
    let metadata = fs.find_by_name(&String::from("orders")).unwrap();
    let payload = vec![b'a'; 256 * 1024];
    let message = fs.write(metadata, &payload).unwrap();
    assert_eq!(message.queue_url, ORDERS);
    assert_eq!(message.byte_len, 262144);
    assert_eq!(message.body.len(), 262144);
    assert_eq!(fs.write_finish(&message, true).unwrap(), 262144);
}

#[test]
fn write_of_one_byte_over_max_is_invalid_argument() {
    let mut fs = SQSFileSystem::new(args(30), 1000, 1000);
    fs.apply_refresh(100, listing(&[ORDERS]));
    let metadata = fs.find_by_name(&String::from("orders")).unwrap();
    let payload = vec![b'a'; 256 * 1024 + 1];
    assert_eq!(fs.write(metadata, &payload).unwrap_err(), FsError::InvalidArgument);
}

#[test]
fn write_of_non_text_payload_is_invalid_argument() {
    let mut fs = SQSFileSystem::new(args(30), 1000, 1000);
    fs.apply_refresh(100, listing(&[ORDERS]));
    let metadata = fs.find_by_name(&String::from("orders")).unwrap();
    let payload = vec![0xff, 0xfe, 0x80];
    assert_eq!(fs.write(metadata, &payload).unwrap_err(), FsError::InvalidArgument);
}

#[test]
fn write_decodes_payload_text() {
    let mut fs = SQSFileSystem::new(args(30), 1000, 1000);
    fs.apply_refresh(100, listing(&[ORDERS]));
    let metadata = fs.find_by_name(&String::from("orders")).unwrap();
    let text = "grüße, queue";
    let message = fs.write(metadata, text.as_bytes()).unwrap();
    assert_eq!(message.body, text);
    assert_eq!(message.byte_len as usize, text.len());
    // A failed send surfaces as a service error.
    assert_eq!(fs.write_finish(&message, false).unwrap_err(), FsError::ServiceError);
}

#[test]
fn error_descriptions_are_short_and_stable() {
    assert_eq!(FsError::NotFound.describe(), "not found");
    assert_eq!(FsError::AccessDenied.describe(), "access denied");
    assert_eq!(FsError::InvalidArgument.describe(), "invalid argument");
    assert_eq!(FsError::NotSupported.describe(), "not supported");
    assert_eq!(FsError::ServiceError.describe(), "service error");
}
