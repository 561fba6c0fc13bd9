use pamusb::io_error::{IoError, IoErrorKind};
use pamusb::sys::{
    check_exact_length, check_mount_flags, getrandom_flags, getrandom_outcome, mount_point_from,
    random_mount_point, FillProgress, FillStep, GetrandomStep, GRND_RANDOM, MS_DIRSYNC, MS_LAZYTIME, MS_MANDLOCK, MS_NOATIME, MS_NODEV, MS_NODIRATIME,
    MS_NOEXEC, MS_NOSUID, MS_NOSYMFOLLOW, MS_PRIVATE, MS_RDONLY, MS_REC, MS_RELATIME, MS_SHARED,
    MS_SILENT, MS_SLAVE, MS_STRICTATIME, MS_SYNCHRONOUS, MS_UNBINDABLE, SUPPORTED_MOUNT_FLAGS,
    USB_MOUNT_FLAGS,
};
use pamusb::text::c_string_bytes;

#[test]
fn getrandom_outcomes() {
    let interrupted = IoError::new(IoErrorKind::Interrupted, "eintr".to_string());
    assert!(matches!(getrandom_outcome(-1, Some(interrupted)), GetrandomStep::Retry));
    let other = IoError::new(IoErrorKind::Other, "efault".to_string());
    match getrandom_outcome(-1, Some(other)) {
        GetrandomStep::Done(Err(e)) => assert_eq!(e.message, "efault"),
        _ => panic!("expected the error"),
    }
    match getrandom_outcome(0, None) {
        GetrandomStep::Done(Err(e)) => assert_eq!(e.kind, IoErrorKind::WouldBlock),
        _ => panic!("expected WouldBlock"),
    }
    assert!(matches!(getrandom_outcome(17, None), GetrandomStep::Done(Ok(17))));
}

#[test]
fn fill_progress_reaches_the_end() {
    let mut p = FillProgress::new(10);
    assert!(!p.is_complete());
    p.advance(4);
    assert_eq!(p.offset_now(), 4);
    assert!(!p.is_complete());
    p.advance(6);
    assert!(p.is_complete());
    assert!(FillProgress::new(0).is_complete());
}

#[test]
fn mount_flags_match_the_system_values() {
    assert_eq!(MS_RDONLY, libc::MS_RDONLY as u64);
    assert_eq!(MS_NOSUID, libc::MS_NOSUID as u64);
    assert_eq!(MS_NODEV, libc::MS_NODEV as u64);
    assert_eq!(MS_NOEXEC, libc::MS_NOEXEC as u64);
    assert_eq!(MS_SYNCHRONOUS, libc::MS_SYNCHRONOUS as u64);
    assert_eq!(MS_MANDLOCK, libc::MS_MANDLOCK as u64);
    assert_eq!(MS_DIRSYNC, libc::MS_DIRSYNC as u64);
    assert_eq!(MS_NOSYMFOLLOW, libc::MS_NOSYMFOLLOW as u64);
    assert_eq!(MS_NOATIME, libc::MS_NOATIME as u64);
    assert_eq!(MS_NODIRATIME, libc::MS_NODIRATIME as u64);
    assert_eq!(MS_REC, libc::MS_REC as u64);
    assert_eq!(MS_SILENT, libc::MS_SILENT as u64);
    assert_eq!(MS_UNBINDABLE, libc::MS_UNBINDABLE as u64);
    assert_eq!(MS_PRIVATE, libc::MS_PRIVATE as u64);
    assert_eq!(MS_SLAVE, libc::MS_SLAVE as u64);
    assert_eq!(MS_SHARED, libc::MS_SHARED as u64);
    assert_eq!(MS_RELATIME, libc::MS_RELATIME as u64);
    assert_eq!(MS_STRICTATIME, libc::MS_STRICTATIME as u64);
    assert_eq!(MS_LAZYTIME, libc::MS_LAZYTIME as u64);
}

#[test]
fn mount_flag_check() {
    assert!(check_mount_flags(USB_MOUNT_FLAGS).is_ok());
    assert!(check_mount_flags(0).is_ok());
    assert!(check_mount_flags(SUPPORTED_MOUNT_FLAGS).is_ok());
    let e = check_mount_flags(MS_NOSUID | 32).unwrap_err();
    assert_eq!(e.kind, IoErrorKind::InvalidInput);
    assert!(check_mount_flags(1 << 40).is_err());
}

#[test]
fn mount_point_is_random_name_under_tmp() {
    let p = random_mount_point();
    assert_eq!(p.len(), 21);
    assert!(p.starts_with("/tmp/"));
    assert!(p[5..].chars().all(|c| c.is_ascii_alphanumeric()));
    let q = random_mount_point();
    assert_ne!(p, q);
}

#[test]
fn exact_length_check_gives_invalid_data() {
    assert!(check_exact_length(1024, 1024, "m".to_string()).is_ok());
    let e = check_exact_length(1024, 1023, "wrong length".to_string()).unwrap_err();
    assert_eq!(e.kind, IoErrorKind::InvalidData);
    assert_eq!(e.message, "wrong length");
    assert!(check_exact_length(1024, 1025, String::new()).is_err());
}

#[test]
fn c_string_stops_at_first_zero() {
    assert_eq!(c_string_bytes(b"host\0junk\0"), b"host".to_vec());
    assert_eq!(c_string_bytes(b"\0"), Vec::<u8>::new());
}

#[test]
fn mount_point_from_name() {
    let name: Vec<char> = "AbCdEfGh12345678".chars().collect();
    assert_eq!(mount_point_from(&name), "/tmp/AbCdEfGh12345678");
}

#[test]
fn fill_steps() {
    let mut p = FillProgress::new(8);
    assert!(matches!(p.record(Ok(3)), FillStep::Continue));
    assert_eq!(p.offset_now(), 3);
    match p.record(Err(IoError::new(IoErrorKind::Other, "eio".to_string()))) {
        FillStep::Done(Err(e)) => assert_eq!(e.message, "eio"),
        _ => panic!("expected the error"),
    }
    assert_eq!(p.offset_now(), 3);
    assert!(matches!(p.record(Ok(5)), FillStep::Done(Ok(()))));
    assert!(p.is_complete());
}

#[test]
fn getrandom_flag_choice() {
    assert_eq!(GRND_RANDOM, libc::GRND_RANDOM as u32);
    assert_eq!(getrandom_flags(true), GRND_RANDOM);
    assert_eq!(getrandom_flags(false), 0);
}
