use macula_std::io::{
    ByteBuffer,
    Cursor, Error, ErrorKind, IoSlice, IoSliceMut, Read, Seek, SeekFrom, Write,
};

#[test]
fn error_new_drops_payload_and_keeps_kind() {
    let e = Error::new(ErrorKind::NotFound, "missing file");
    assert_eq!(e.kind(), ErrorKind::NotFound);
    assert_eq!(e.to_string(), "NotFound");
}

#[test]
fn error_other_is_other() {
    let e = Error::other("boom");
    assert_eq!(e.kind(), ErrorKind::Other);
    assert_eq!(e.to_string(), "Other");
}

#[test]
fn error_from_raw_os_error_is_other_without_code() {
    let e = Error::from_raw_os_error(2);
    assert_eq!(e.kind(), ErrorKind::Other);
    assert_eq!(e.raw_os_error(), None);
}

#[test]
fn error_from_kind_displays_kind_name() {
    let e = Error::from(ErrorKind::UnexpectedEof);
    assert_eq!(e.kind(), ErrorKind::UnexpectedEof);
    assert_eq!(e.to_string(), "UnexpectedEof");
    assert_eq!(Error::from(ErrorKind::WouldBlock).to_string(), "WouldBlock");
}

#[test]
fn error_from_str_displays_message() {
    let e = Error::from("connection closed by peer");
    assert_eq!(e.kind(), ErrorKind::Other);
    assert_eq!(e.to_string(), "connection closed by peer");
}

#[test]
fn error_kind_names_match_debug() {
    let kinds = [
        ErrorKind::NotFound,
        ErrorKind::PermissionDenied,
        ErrorKind::ConnectionRefused,
        ErrorKind::ConnectionReset,
        ErrorKind::HostUnreachable,
        ErrorKind::NetworkUnreachable,
        ErrorKind::ConnectionAborted,
        ErrorKind::NotConnected,
        ErrorKind::AddrInUse,
        ErrorKind::AddrNotAvailable,
        ErrorKind::NetworkDown,
        ErrorKind::BrokenPipe,
        ErrorKind::AlreadyExists,
        ErrorKind::WouldBlock,
        ErrorKind::NotADirectory,
        ErrorKind::IsADirectory,
        ErrorKind::DirectoryNotEmpty,
        ErrorKind::ReadOnlyFilesystem,
        ErrorKind::FilesystemLoop,
        ErrorKind::StaleNetworkFileHandle,
        ErrorKind::InvalidInput,
        ErrorKind::InvalidData,
        ErrorKind::TimedOut,
        ErrorKind::WriteZero,
        ErrorKind::StorageFull,
        ErrorKind::NotSeekable,
        ErrorKind::FilesystemQuotaExceeded,
        ErrorKind::FileTooLarge,
        ErrorKind::ResourceBusy,
        ErrorKind::ExecutableFileBusy,
        ErrorKind::Deadlock,
        ErrorKind::CrossesDevices,
        ErrorKind::TooManyLinks,
        ErrorKind::InvalidFilename,
        ErrorKind::ArgumentListTooLong,
        ErrorKind::Interrupted,
        ErrorKind::Unsupported,
        ErrorKind::UnexpectedEof,
        ErrorKind::OutOfMemory,
        ErrorKind::Other,
    ];
    for k in kinds.iter() {
        assert_eq!(k.name(), format!("{:?}", k));
    }
}

#[test]
fn cursor_new_starts_at_zero() {
    let c = Cursor::new(vec![1u8, 2, 3]);
    assert_eq!(c.position(), 0);
    assert_eq!(c.get_ref(), &vec![1u8, 2, 3]);
    assert_eq!(c.into_inner(), vec![1u8, 2, 3]);
}

#[test]
fn cursor_set_position_and_get_mut() {
    let mut c = Cursor::new(vec![1u8, 2, 3]);
    c.set_position(2);
    assert_eq!(c.position(), 2);
    c.get_mut().push(4);
    assert_eq!(c.position(), 2);
    let mut buf = [0u8; 4];
    assert_eq!(c.read(&mut buf).unwrap(), 2);
    assert_eq!(&buf[..2], &[3u8, 4]);
}

#[test]
fn cursor_read_advances_position() {
    let data: &[u8] = &[10, 20, 30, 40, 50];
    let mut c = Cursor::new(data);
    let mut buf = [0u8; 2];
    assert_eq!(c.read(&mut buf).unwrap(), 2);
    assert_eq!(buf, [10, 20]);
    assert_eq!(c.position(), 2);
    assert_eq!(c.read(&mut buf).unwrap(), 2);
    assert_eq!(buf, [30, 40]);
    assert_eq!(c.position(), 4);
}

#[test]
fn cursor_short_read_at_end() {
    let mut c = Cursor::new(vec![1u8, 2, 3]);
    c.set_position(2);
    let mut buf = [9u8; 4];
    assert_eq!(c.read(&mut buf).unwrap(), 1);
    assert_eq!(buf, [3, 9, 9, 9]);
    assert_eq!(c.position(), 3);
    assert_eq!(c.read(&mut buf).unwrap(), 0);
    assert_eq!(c.position(), 3);
}

#[test]
fn cursor_read_past_end_reads_nothing() {
    let mut c = Cursor::new(vec![1u8, 2, 3]);
    c.set_position(100);
    let mut buf = [7u8; 2];
    assert_eq!(c.read(&mut buf).unwrap(), 0);
    assert_eq!(buf, [7, 7]);
    assert_eq!(c.position(), 100);
}

#[test]
fn cursor_read_into_empty_buffer() {
    let mut c = Cursor::new(vec![1u8, 2, 3]);
    let mut buf: [u8; 0] = [];
    assert_eq!(c.read(&mut buf).unwrap(), 0);
    assert_eq!(c.position(), 0);
}

#[test]
fn cursor_over_array_reads() {
    let mut c = Cursor::new([5u8, 6, 7]);
    let mut buf = [0u8; 3];
    assert_eq!(c.read(&mut buf).unwrap(), 3);
    assert_eq!(buf, [5, 6, 7]);
}

#[test]
fn read_exact_fills_buffer() {
    let mut c = Cursor::new(vec![1u8, 2, 3, 4, 5]);
    let mut buf = [0u8; 3];
    c.read_exact(&mut buf).unwrap();
    assert_eq!(buf, [1, 2, 3]);
    assert_eq!(c.position(), 3);
}

#[test]
fn read_exact_short_stream_is_unexpected_eof() {
    let mut c = Cursor::new(vec![1u8, 2]);
    let mut buf = [0u8; 3];
    let e = c.read_exact(&mut buf).unwrap_err();
    assert_eq!(e.kind(), ErrorKind::UnexpectedEof);
}

#[test]
fn read_exact_empty_buffer_succeeds() {
    let mut c = Cursor::new(Vec::<u8>::new());
    let mut buf: [u8; 0] = [];
    assert!(c.read_exact(&mut buf).is_ok());
}

/// A reader that hands out one byte per call, to exercise the refilling loops.
struct Trickle {
    data: Vec<u8>,
    at: usize,
}

impl Read for Trickle {
    fn read(&mut self, buf: &mut [u8]) -> macula_std::io::Result<usize> {
        if buf.is_empty() || self.at >= self.data.len() {
            return Ok(0);
        }
        buf[0] = self.data[self.at];
        self.at += 1;
        Ok(1)
    }
}

/// A reader that always fails.
struct Broken;

impl Read for Broken {
    fn read(&mut self, _buf: &mut [u8]) -> macula_std::io::Result<usize> {
        Err(Error::from(ErrorKind::ConnectionReset))
    }
}

#[test]
fn read_exact_collects_short_reads() {
    let mut t = Trickle { data: vec![4, 5, 6, 7], at: 0 };
    let mut buf = [0u8; 3];
    t.read_exact(&mut buf).unwrap();
    assert_eq!(buf, [4, 5, 6]);
    assert_eq!(t.at, 3);
}

#[test]
fn read_exact_passes_reader_errors_through() {
    let mut b = Broken;
    let mut buf = [0u8; 3];
    assert_eq!(b.read_exact(&mut buf).unwrap_err().kind(), ErrorKind::ConnectionReset);
}

#[test]
fn read_to_end_appends_rest() {
    let mut c = Cursor::new(vec![1u8, 2, 3, 4]);
    c.set_position(1);
    let mut out = vec![9u8];
    assert_eq!(c.read_to_end(&mut out).unwrap(), 3);
    assert_eq!(out, vec![9, 2, 3, 4]);
    assert_eq!(c.position(), 4);
}

#[test]
fn read_to_end_more_than_one_chunk() {
    let data: Vec<u8> = (0..10000u32).map(|i| (i % 251) as u8).collect();
    let mut c = Cursor::new(data.clone());
    let mut out = Vec::new();
    assert_eq!(c.read_to_end(&mut out).unwrap(), 10000);
    assert_eq!(out, data);
}

#[test]
fn read_to_end_with_trickle() {
    let mut t = Trickle { data: vec![1, 2, 3], at: 0 };
    let mut out = Vec::new();
    assert_eq!(t.read_to_end(&mut out).unwrap(), 3);
    assert_eq!(out, vec![1, 2, 3]);
}

#[test]
fn read_to_end_error_passes_through() {
    let mut b = Broken;
    let mut out = vec![1u8];
    assert_eq!(b.read_to_end(&mut out).unwrap_err().kind(), ErrorKind::ConnectionReset);
    assert_eq!(out, vec![1]);
}

#[test]
fn seek_start_end_current() {
    let mut c = Cursor::new(vec![0u8; 10]);
    assert_eq!(c.seek(SeekFrom::Start(3)).unwrap(), 3);
    assert_eq!(c.position(), 3);
    assert_eq!(c.seek(SeekFrom::Current(2)).unwrap(), 5);
    assert_eq!(c.seek(SeekFrom::Current(-5)).unwrap(), 0);
    assert_eq!(c.seek(SeekFrom::End(0)).unwrap(), 10);
    assert_eq!(c.seek(SeekFrom::End(-4)).unwrap(), 6);
    assert_eq!(c.seek(SeekFrom::End(5)).unwrap(), 15);
    assert_eq!(c.seek(SeekFrom::Current(0)).unwrap(), 15);
}

#[test]
fn seek_before_start_is_invalid_input() {
    let mut c = Cursor::new(vec![0u8; 4]);
    c.set_position(2);
    let e = c.seek(SeekFrom::Current(-3)).unwrap_err();
    assert_eq!(e.kind(), ErrorKind::InvalidInput);
    assert_eq!(c.position(), 2);
    assert_eq!(c.seek(SeekFrom::End(-5)).unwrap_err().kind(), ErrorKind::InvalidInput);
    assert_eq!(c.position(), 2);
}

#[test]
fn seek_past_u64_max_is_invalid_input() {
    let mut c = Cursor::new(vec![0u8]);
    c.set_position(u64::MAX);
    assert_eq!(c.seek(SeekFrom::Current(1)).unwrap_err().kind(), ErrorKind::InvalidInput);
    assert_eq!(c.position(), u64::MAX);
    assert_eq!(c.seek(SeekFrom::Current(0)).unwrap(), u64::MAX);
}

#[test]
fn cursor_write_overwrites_in_place() {
    let mut c = Cursor::new(vec![0u8; 5]);
    c.set_position(1);
    assert_eq!(c.write(&[7, 8]).unwrap(), 2);
    assert_eq!(c.position(), 3);
    assert_eq!(c.get_ref(), &vec![0u8, 7, 8, 0, 0]);
}

#[test]
fn cursor_write_never_grows_buffer() {
    let mut c = Cursor::new(vec![0u8; 3]);
    c.set_position(2);
    assert_eq!(c.write(&[1, 2, 3]).unwrap(), 1);
    assert_eq!(c.get_ref(), &vec![0u8, 0, 1]);
    assert_eq!(c.write(&[4]).unwrap(), 0);
    assert_eq!(c.position(), 3);
    assert!(c.flush().is_ok());
}

#[test]
fn cursor_write_then_read_back() {
    let mut c = Cursor::new([0u8; 6]);
    c.write_all(&[1, 2, 3, 4]).unwrap();
    c.seek(SeekFrom::Start(0)).unwrap();
    let mut buf = [0u8; 4];
    c.read_exact(&mut buf).unwrap();
    assert_eq!(buf, [1, 2, 3, 4]);
}

#[test]
fn cursor_write_all_out_of_room_is_write_zero() {
    let mut c = Cursor::new(vec![0u8; 2]);
    let e = c.write_all(&[1, 2, 3]).unwrap_err();
    assert_eq!(e.kind(), ErrorKind::WriteZero);
    assert_eq!(c.get_ref(), &vec![1u8, 2]);
}

#[test]
fn vec_write_appends() {
    let mut v = vec![1u8];
    assert_eq!(v.write(&[2, 3]).unwrap(), 2);
    assert_eq!(v, vec![1, 2, 3]);
    assert!(v.flush().is_ok());
    v.write_all(&[4, 5]).unwrap();
    assert_eq!(v, vec![1, 2, 3, 4, 5]);
    v.write_all(&[]).unwrap();
    assert_eq!(v.len(), 5);
}

/// A writer that takes at most one byte per call.
struct OneByOne {
    out: Vec<u8>,
}

impl Write for OneByOne {
    fn write(&mut self, buf: &[u8]) -> macula_std::io::Result<usize> {
        if buf.is_empty() {
            return Ok(0);
        }
        self.out.push(buf[0]);
        Ok(1)
    }

    fn flush(&mut self) -> macula_std::io::Result<()> {
        Ok(())
    }
}

#[test]
fn write_all_loops_over_short_writes() {
    let mut w = OneByOne { out: Vec::new() };
    w.write_all(&[9, 8, 7]).unwrap();
    assert_eq!(w.out, vec![9, 8, 7]);
}

#[test]
fn io_slice_advance_and_deref() {
    let data = [1u8, 2, 3, 4, 5];
    let mut s = IoSlice::new(&data);
    assert_eq!(s.as_slice(), &[1u8, 2, 3, 4, 5]);
    s.advance(2);
    assert_eq!(s.as_slice(), &[3u8, 4, 5]);
    s.advance(1);
    assert_eq!(&*s, &[4u8, 5]);
    assert_eq!(s.len(), 2);
    s.advance(2);
    assert!(s.as_slice().is_empty());
}

#[test]
fn io_slice_advance_twice_is_advance_by_sum() {
    let data = [1u8, 2, 3, 4, 5, 6];
    let mut a = IoSlice::new(&data);
    a.advance(2);
    a.advance(3);
    let mut b = IoSlice::new(&data);
    b.advance(5);
    assert_eq!(a.as_slice(), b.as_slice());
}

#[test]
fn io_slice_mut_derefs_both_ways() {
    let mut data = [1u8, 2, 3];
    {
        let mut s = IoSliceMut::new(&mut data);
        assert_eq!(&*s, &[1u8, 2, 3]);
        s[1] = 9;
    }
    assert_eq!(data, [1, 9, 3]);
}

#[test]
fn cursor_over_mut_slice_writes_through() {
    let mut data = [0u8; 4];
    {
        let mut c = Cursor::new(&mut data[..]);
        c.seek(SeekFrom::End(-2)).unwrap();
        assert_eq!(c.write(&[5, 6, 7]).unwrap(), 2);
        assert_eq!(c.position(), 4);
    }
    assert_eq!(data, [0, 0, 5, 6]);
}

#[test]
fn cursor_over_shared_slice_seek_and_read() {
    let data: &[u8] = b"hello world";
    let mut c = Cursor::new(data);
    c.seek(SeekFrom::Start(6)).unwrap();
    let mut out = Vec::new();
    assert_eq!(c.read_to_end(&mut out).unwrap(), 5);
    assert_eq!(out, b"world".to_vec());
}

/// A buffer type of a user's own.
struct Frame {
    payload: Vec<u8>,
}

impl ByteBuffer for Frame {
    fn as_bytes(&self) -> &[u8] {
        &self.payload
    }
}

#[test]
fn cursor_over_user_buffer() {
    let mut c = Cursor::new(Frame { payload: vec![3, 1, 4, 1, 5] });
    c.set_position(3);
    let mut buf = [0u8; 8];
    assert_eq!(c.read(&mut buf).unwrap(), 2);
    assert_eq!(&buf[..2], &[1u8, 5]);
}

#[test]
fn cursor_read_to_end_moves_position_and_keeps_buffer() {
    let mut r = Cursor::new(vec![1u8, 2, 3]);
    let mut buf = vec![9u8];
    assert_eq!(r.read_to_end(&mut buf).unwrap(), 3);
    assert_eq!(buf, vec![9u8, 1, 2, 3]);
    assert_eq!(r.position(), 3);
    assert_eq!(r.into_inner(), vec![1u8, 2, 3]);
}

#[test]
fn cursor_read_to_end_past_end_keeps_position() {
    let mut r = Cursor::new(vec![1u8, 2]);
    r.set_position(5);
    let mut buf = vec![4u8];
    assert_eq!(r.read_to_end(&mut buf).unwrap(), 0);
    assert_eq!(buf, vec![4u8]);
    assert_eq!(r.position(), 5);
}

#[test]
fn cursor_read_exact_failure_moves_to_end() {
    let mut r = Cursor::new(vec![1u8, 2]);
    let mut buf = [0u8; 3];
    assert_eq!(r.read_exact(&mut buf).unwrap_err().kind(), ErrorKind::UnexpectedEof);
    assert_eq!(r.position(), 2);
    assert_eq!(buf, [1, 2, 0]);
}

#[test]
fn cursor_write_all_failure_keeps_what_fitted() {
    let mut c = Cursor::new([0u8; 3]);
    assert_eq!(c.write_all(&[1, 2, 3, 4]).unwrap_err().kind(), ErrorKind::WriteZero);
    assert_eq!(c.get_ref(), &[1u8, 2, 3]);
    assert_eq!(c.position(), 3);
}

#[test]
fn cursor_over_boxed_slice_and_borrowed_vec() {
    let mut b = Cursor::new(vec![0u8; 3].into_boxed_slice());
    b.write_all(&[7, 8]).unwrap();
    assert_eq!(&*b.into_inner(), &[7u8, 8, 0]);
    let v = vec![5u8, 6];
    let mut r = Cursor::new(&v);
    let mut out = Vec::new();
    assert_eq!(r.read_to_end(&mut out).unwrap(), 2);
    assert_eq!(out, vec![5u8, 6]);
}

/// A reader that hands out its bytes one at a time and then fails.
struct FailsAfter {
    data: Vec<u8>,
    at: usize,
}

impl Read for FailsAfter {
    fn read(&mut self, buf: &mut [u8]) -> macula_std::io::Result<usize> {
        if self.at >= self.data.len() {
            return Err(Error::from(ErrorKind::ConnectionAborted));
        }
        if buf.is_empty() {
            return Ok(0);
        }
        buf[0] = self.data[self.at];
        self.at += 1;
        Ok(1)
    }
}

#[test]
fn read_to_end_keeps_bytes_read_before_an_error() {
    let mut f = FailsAfter { data: vec![1, 2], at: 0 };
    let mut out = vec![0u8];
    assert_eq!(f.read_to_end(&mut out).unwrap_err().kind(), ErrorKind::ConnectionAborted);
    assert_eq!(out, vec![0u8, 1, 2]);
}

#[test]
fn read_exact_passes_error_after_partial_fill() {
    let mut f = FailsAfter { data: vec![1, 2], at: 0 };
    let mut buf = [0u8; 4];
    assert_eq!(f.read_exact(&mut buf).unwrap_err().kind(), ErrorKind::ConnectionAborted);
    assert_eq!(&buf[..2], &[1u8, 2]);
}

/// A writer that takes one byte and then fails.
struct OneThenFail {
    out: Vec<u8>,
}

impl Write for OneThenFail {
    fn write(&mut self, buf: &[u8]) -> macula_std::io::Result<usize> {
        if !self.out.is_empty() {
            return Err(Error::from(ErrorKind::BrokenPipe));
        }
        if buf.is_empty() {
            return Ok(0);
        }
        self.out.push(buf[0]);
        Ok(1)
    }

    fn flush(&mut self) -> macula_std::io::Result<()> {
        Ok(())
    }
}

#[test]
fn write_all_passes_writer_error_through() {
    let mut w = OneThenFail { out: Vec::new() };
    assert_eq!(w.write_all(&[3, 4, 5]).unwrap_err().kind(), ErrorKind::BrokenPipe);
    assert_eq!(w.out, vec![3u8]);
    let mut e = OneThenFail { out: Vec::new() };
    assert!(e.write_all(&[]).is_ok());
}

#[test]
fn cursor_over_text_and_cow() {
    let mut s = Cursor::new(String::from("héllo"));
    let mut out = Vec::new();
    assert_eq!(s.read_to_end(&mut out).unwrap(), 6);
    assert_eq!(out, "héllo".as_bytes().to_vec());
    let mut t = Cursor::new("ab");
    let mut two = [0u8; 2];
    t.read_exact(&mut two).unwrap();
    assert_eq!(&two, b"ab");
    let mut c = Cursor::new(std::borrow::Cow::Borrowed(&b"xyz"[..]));
    c.set_position(1);
    let mut rest = Vec::new();
    assert_eq!(c.read_to_end(&mut rest).unwrap(), 2);
    assert_eq!(rest, b"yz".to_vec());
}

#[test]
fn first_failure_is_returned_unchanged() {
    let mut f = FailsAfter { data: vec![], at: 0 };
    let mut out = vec![1u8];
    assert_eq!(f.read_to_end(&mut out).unwrap_err().kind(), ErrorKind::ConnectionAborted);
    assert_eq!(out, vec![1u8]);
    let mut g = FailsAfter { data: vec![], at: 0 };
    let mut buf = [0u8; 1];
    assert_eq!(g.read_exact(&mut buf).unwrap_err().kind(), ErrorKind::ConnectionAborted);
    let mut w = OneThenFail { out: vec![9] };
    assert_eq!(w.write_all(&[1]).unwrap_err().kind(), ErrorKind::BrokenPipe);
    assert_eq!(w.out, vec![9u8]);
}
