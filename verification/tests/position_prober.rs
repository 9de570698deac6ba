use rustix::fs::{memfd_create, MemfdFlags};

use sparsemap::error::QueryError;
use sparsemap::seek::{classify_seek, lseek_to, SeekOff};

#[test]
fn classify_maps_offset_through() {
    assert_eq!(classify_seek(Ok(0)), Ok(SeekOff::Offset(0)));
    assert_eq!(classify_seek(Ok(42)), Ok(SeekOff::Offset(42)));
    assert_eq!(classify_seek(Ok(u64::MAX)), Ok(SeekOff::Offset(u64::MAX)));
}

#[test]
fn classify_maps_enxio_to_eof_not_error() {
    assert_eq!(classify_seek(Err(6)), Ok(SeekOff::EOF));
}

#[test]
fn classify_propagates_other_errors_verbatim() {
    assert_eq!(classify_seek(Err(9)), Err(QueryError::OsFailure(9)));
    assert_eq!(classify_seek(Err(22)), Err(QueryError::OsFailure(22)));
}

#[test]
fn lseek_to_in_bounds_returns_exact_offset_and_read_starts_there() {
    let fd = memfd_create("prober", MemfdFlags::CLOEXEC).expect("memfd");
    rustix::io::write(&fd, b"abcdef").expect("write");

    let got = lseek_to(&fd, 2).expect("seek");
    assert_eq!(got, SeekOff::Offset(2));

    let mut buf = [0u8; 1];
    rustix::io::read(&fd, &mut buf).expect("read");
    assert_eq!(buf[0], b'c');
}

#[test]
fn lseek_to_zero_of_empty_file() {
    let fd = memfd_create("prober_empty", MemfdFlags::CLOEXEC).expect("memfd");
    assert_eq!(lseek_to(&fd, 0).expect("seek"), SeekOff::Offset(0));
}
