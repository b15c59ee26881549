//! Tests of the nonblocking-mode controller and the standard-stream
//! duplication helpers, on live descriptors.

use nix::sys::socket::{socketpair, AddressFamily, SockFlag, SockType};
use nix::unistd::{close, pipe};
use tokio_file_unix::{dup_cloexec, get_nonblocking, raw_stderr, raw_stdin, raw_stdout, set_nonblocking, File};

#[test]
fn test_nonblocking() {
    let (sock, other) = socketpair(
        AddressFamily::Unix,
        SockType::Stream,
        None,
        SockFlag::empty(),
    )
    .unwrap();
    {
        let file = File::new_nb(sock).unwrap();
        let fd = file.as_raw_fd();
        assert!(get_nonblocking(fd).unwrap());
        set_nonblocking(fd, false).unwrap();
        assert!(!get_nonblocking(fd).unwrap());
        set_nonblocking(fd, true).unwrap();
        assert!(get_nonblocking(fd).unwrap());
        set_nonblocking(fd, false).unwrap();
        assert!(!get_nonblocking(fd).unwrap());
    }
    {
        let file = File::raw_new(sock);
        assert!(!get_nonblocking(file.as_raw_fd()).unwrap());
    }
    close(sock).unwrap();
    close(other).unwrap();
}

#[test]
fn pipe_flag_toggles_round_trip() {
    let (r, w) = pipe().unwrap();
    let file = File::new_nb(w).unwrap();
    let fd = file.as_raw_fd();
    assert!(get_nonblocking(fd).unwrap());
    // Enabling again is idempotent.
    set_nonblocking(fd, true).unwrap();
    assert!(get_nonblocking(fd).unwrap());
    // Toggle three times in sequence, both directions.
    set_nonblocking(fd, false).unwrap();
    assert!(!get_nonblocking(fd).unwrap());
    set_nonblocking(fd, true).unwrap();
    assert!(get_nonblocking(fd).unwrap());
    set_nonblocking(fd, false).unwrap();
    assert!(!get_nonblocking(fd).unwrap());
    close(r).unwrap();
    close(w).unwrap();
}

#[test]
fn bad_descriptor_reports_os_error() {
    let e = get_nonblocking(-1).unwrap_err();
    assert_eq!(e.code, Some(nix::errno::Errno::EBADF as i32));
    let e = set_nonblocking(-1, true).unwrap_err();
    assert_eq!(e.code, Some(nix::errno::Errno::EBADF as i32));
}

#[test]
fn dup_cloexec_duplicates_the_open_file() {
    let (r, w) = pipe().unwrap();
    let dup = dup_cloexec(w).unwrap();
    assert!(dup >= 0);
    assert_ne!(dup, w);
    // Writing through the duplicate reaches the same pipe.
    let mut file = File::raw_new(dup);
    file.write_all(&b"dup".to_vec()).unwrap();
    let mut reader = File::raw_new(r);
    let mut buf = vec![0u8; 8];
    let n = reader.read(&mut buf).unwrap();
    assert_eq!(&buf[..n], b"dup");
    close(dup).unwrap();
    close(r).unwrap();
    close(w).unwrap();
}

#[test]
fn raw_standard_streams_duplicate() {
    let a = raw_stdin().unwrap();
    let b = raw_stdout().unwrap();
    let c = raw_stderr().unwrap();
    assert!(a >= 0 && b >= 0 && c >= 0);
    // Fresh descriptor numbers, not the standard ones themselves.
    assert!(a > 2 && b > 2 && c > 2);
    close(a).unwrap();
    close(b).unwrap();
    close(c).unwrap();
}
