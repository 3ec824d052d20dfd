//! `std::io` shapes: the error type, the `Read` / `Write` / `Seek` traits and in-memory
//! buffers, with no operating-system error codes behind them.
use vstd::prelude::*;

pub mod cursor;
pub mod slices;

pub use cursor::{Cursor, ByteBuffer, ByteBufferMut};
pub use slices::{IoSlice, IoSliceMut};

verus! {

/// The result type of every I/O operation here.
pub type Result<T> = core::result::Result<T, Error>;

/// The category of an I/O error.
#[derive(Debug, Clone, Copy, PartialEq, Eq, Hash, Structural)]
#[non_exhaustive]
pub enum ErrorKind {
    NotFound,
    PermissionDenied,
    ConnectionRefused,
    ConnectionReset,
    HostUnreachable,
    NetworkUnreachable,
    ConnectionAborted,
    NotConnected,
    AddrInUse,
    AddrNotAvailable,
    NetworkDown,
    BrokenPipe,
    AlreadyExists,
    WouldBlock,
    NotADirectory,
    IsADirectory,
    DirectoryNotEmpty,
    ReadOnlyFilesystem,
    FilesystemLoop,
    StaleNetworkFileHandle,
    InvalidInput,
    InvalidData,
    TimedOut,
    WriteZero,
    StorageFull,
    NotSeekable,
    FilesystemQuotaExceeded,
    FileTooLarge,
    ResourceBusy,
    ExecutableFileBusy,
    Deadlock,
    CrossesDevices,
    TooManyLinks,
    InvalidFilename,
    ArgumentListTooLong,
    Interrupted,
    Unsupported,
    UnexpectedEof,
    OutOfMemory,
    Other,
}

/// The name of a kind, as `{:?}` prints it.
pub open spec fn kind_name(kind: ErrorKind) -> Seq<char> {
    match kind {
        ErrorKind::NotFound => "NotFound"@,
        ErrorKind::PermissionDenied => "PermissionDenied"@,
        ErrorKind::ConnectionRefused => "ConnectionRefused"@,
        ErrorKind::ConnectionReset => "ConnectionReset"@,
        ErrorKind::HostUnreachable => "HostUnreachable"@,
        ErrorKind::NetworkUnreachable => "NetworkUnreachable"@,
        ErrorKind::ConnectionAborted => "ConnectionAborted"@,
        ErrorKind::NotConnected => "NotConnected"@,
        ErrorKind::AddrInUse => "AddrInUse"@,
        ErrorKind::AddrNotAvailable => "AddrNotAvailable"@,
        ErrorKind::NetworkDown => "NetworkDown"@,
        ErrorKind::BrokenPipe => "BrokenPipe"@,
        ErrorKind::AlreadyExists => "AlreadyExists"@,
        ErrorKind::WouldBlock => "WouldBlock"@,
        ErrorKind::NotADirectory => "NotADirectory"@,
        ErrorKind::IsADirectory => "IsADirectory"@,
        ErrorKind::DirectoryNotEmpty => "DirectoryNotEmpty"@,
        ErrorKind::ReadOnlyFilesystem => "ReadOnlyFilesystem"@,
        ErrorKind::FilesystemLoop => "FilesystemLoop"@,
        ErrorKind::StaleNetworkFileHandle => "StaleNetworkFileHandle"@,
        ErrorKind::InvalidInput => "InvalidInput"@,
        ErrorKind::InvalidData => "InvalidData"@,
        ErrorKind::TimedOut => "TimedOut"@,
        ErrorKind::WriteZero => "WriteZero"@,
        ErrorKind::StorageFull => "StorageFull"@,
        ErrorKind::NotSeekable => "NotSeekable"@,
        ErrorKind::FilesystemQuotaExceeded => "FilesystemQuotaExceeded"@,
        ErrorKind::FileTooLarge => "FileTooLarge"@,
        ErrorKind::ResourceBusy => "ResourceBusy"@,
        ErrorKind::ExecutableFileBusy => "ExecutableFileBusy"@,
        ErrorKind::Deadlock => "Deadlock"@,
        ErrorKind::CrossesDevices => "CrossesDevices"@,
        ErrorKind::TooManyLinks => "TooManyLinks"@,
        ErrorKind::InvalidFilename => "InvalidFilename"@,
        ErrorKind::ArgumentListTooLong => "ArgumentListTooLong"@,
        ErrorKind::Interrupted => "Interrupted"@,
        ErrorKind::Unsupported => "Unsupported"@,
        ErrorKind::UnexpectedEof => "UnexpectedEof"@,
        ErrorKind::OutOfMemory => "OutOfMemory"@,
        ErrorKind::Other => "Other"@,
    }
}

impl ErrorKind {
    /// The variant's name, which is what an error without a message displays.
    pub fn name(&self) -> (r: String)
        ensures
            r@ == kind_name(*self),
    {
        match self {
            ErrorKind::NotFound => String::from_str("NotFound"),
            ErrorKind::PermissionDenied => String::from_str("PermissionDenied"),
            ErrorKind::ConnectionRefused => String::from_str("ConnectionRefused"),
            ErrorKind::ConnectionReset => String::from_str("ConnectionReset"),
            ErrorKind::HostUnreachable => String::from_str("HostUnreachable"),
            ErrorKind::NetworkUnreachable => String::from_str("NetworkUnreachable"),
            ErrorKind::ConnectionAborted => String::from_str("ConnectionAborted"),
            ErrorKind::NotConnected => String::from_str("NotConnected"),
            ErrorKind::AddrInUse => String::from_str("AddrInUse"),
            ErrorKind::AddrNotAvailable => String::from_str("AddrNotAvailable"),
            ErrorKind::NetworkDown => String::from_str("NetworkDown"),
            ErrorKind::BrokenPipe => String::from_str("BrokenPipe"),
            ErrorKind::AlreadyExists => String::from_str("AlreadyExists"),
            ErrorKind::WouldBlock => String::from_str("WouldBlock"),
            ErrorKind::NotADirectory => String::from_str("NotADirectory"),
            ErrorKind::IsADirectory => String::from_str("IsADirectory"),
            ErrorKind::DirectoryNotEmpty => String::from_str("DirectoryNotEmpty"),
            ErrorKind::ReadOnlyFilesystem => String::from_str("ReadOnlyFilesystem"),
            ErrorKind::FilesystemLoop => String::from_str("FilesystemLoop"),
            ErrorKind::StaleNetworkFileHandle => String::from_str("StaleNetworkFileHandle"),
            ErrorKind::InvalidInput => String::from_str("InvalidInput"),
            ErrorKind::InvalidData => String::from_str("InvalidData"),
            ErrorKind::TimedOut => String::from_str("TimedOut"),
            ErrorKind::WriteZero => String::from_str("WriteZero"),
            ErrorKind::StorageFull => String::from_str("StorageFull"),
            ErrorKind::NotSeekable => String::from_str("NotSeekable"),
            ErrorKind::FilesystemQuotaExceeded => String::from_str("FilesystemQuotaExceeded"),
            ErrorKind::FileTooLarge => String::from_str("FileTooLarge"),
            ErrorKind::ResourceBusy => String::from_str("ResourceBusy"),
            ErrorKind::ExecutableFileBusy => String::from_str("ExecutableFileBusy"),
            ErrorKind::Deadlock => String::from_str("Deadlock"),
            ErrorKind::CrossesDevices => String::from_str("CrossesDevices"),
            ErrorKind::TooManyLinks => String::from_str("TooManyLinks"),
            ErrorKind::InvalidFilename => String::from_str("InvalidFilename"),
            ErrorKind::ArgumentListTooLong => String::from_str("ArgumentListTooLong"),
            ErrorKind::Interrupted => String::from_str("Interrupted"),
            ErrorKind::Unsupported => String::from_str("Unsupported"),
            ErrorKind::UnexpectedEof => String::from_str("UnexpectedEof"),
            ErrorKind::OutOfMemory => String::from_str("OutOfMemory"),
            ErrorKind::Other => String::from_str("Other"),
        }
    }
}

/// An I/O error: a kind and, for errors made from a string, that string.
#[derive(Debug)]
pub struct Error {
    kind: ErrorKind,
    msg: Option<String>,
}

/// What an `Error` holds, as plain values.
pub struct ErrorView {
    pub kind: ErrorKind,
    pub message: Option<Seq<char>>,
}

impl View for Error {
    type V = ErrorView;

    closed spec fn view(&self) -> ErrorView {
        ErrorView {
            kind: self.kind,
            message: match self.msg {
                Some(m) => Some(m@),
                None => None,
            },
        }
    }
}

/// The error value that carries `kind` and no message.
pub open spec fn plain_error(kind: ErrorKind) -> ErrorView {
    ErrorView { kind, message: None }
}

/// The text an error displays: its message when it has one, else the name of its kind.
pub open spec fn error_text(e: ErrorView) -> Seq<char> {
    match e.message {
        Some(m) => m,
        None => kind_name(e.kind),
    }
}

impl Error {
    /// The error value of the given kind with no message.
    pub closed spec fn spec_plain(kind: ErrorKind) -> Error {
        Error { kind, msg: None }
    }

    /// An error of the given kind. The payload is accepted and dropped: errors here carry
    /// no inner error value.
    pub fn new<E>(kind: ErrorKind, _err: E) -> (e: Self)
        ensures
            e@ == plain_error(kind),
    {
        Error { kind, msg: None }
    }

    /// An error of kind `Other`; the payload is dropped as in `new`.
    pub fn other<E>(error: E) -> (e: Self)
        ensures
            e@ == plain_error(ErrorKind::Other),
    {
        Self::new(ErrorKind::Other, error)
    }

    /// The error of the given kind with no message.
    pub(crate) fn of_kind(kind: ErrorKind) -> (e: Self)
        ensures
            e@ == plain_error(kind),
    {
        Error { kind, msg: None }
    }

    /// There are no operating-system error codes here: every code gives an `Other` error.
    pub fn from_raw_os_error(_code: i32) -> (e: Self)
        ensures
            e@ == plain_error(ErrorKind::Other),
    {
        Error { kind: ErrorKind::Other, msg: None }
    }

    /// No error here stems from an operating-system code.
    pub fn raw_os_error(&self) -> (r: Option<i32>)
        ensures
            r is None,
    {
        None
    }

    pub fn kind(&self) -> (k: ErrorKind)
        ensures
            k == self@.kind,
    {
        self.kind
    }

    /// What the error displays: its message, or the name of its kind when it has none.
    pub fn to_string(&self) -> (r: String)
        ensures
            r@ == error_text(self@),
    {
        match &self.msg {
            Some(m) => m.clone(),
            None => self.kind.name(),
        }
    }
}

impl From<ErrorKind> for Error {
    /// The error of that kind, with no message.
    fn from(kind: ErrorKind) -> (e: Self)
        ensures
            e@ == plain_error(kind),
    {
        Error { kind, msg: None }
    }
}

impl vstd::std_specs::convert::FromSpecImpl<ErrorKind> for Error {
    open spec fn obeys_from_spec() -> bool {
        true
    }

    open spec fn from_spec(kind: ErrorKind) -> Error {
        Error::spec_plain(kind)
    }
}

impl<'a> From<&'a str> for Error {
    /// An error of kind `Other` whose message is the string.
    fn from(s: &'a str) -> (e: Self)
        ensures
            e@ == (ErrorView { kind: ErrorKind::Other, message: Some(s@) }),
    {
        Error { kind: ErrorKind::Other, msg: Some(String::from_str(s)) }
    }
}

/// A `String` is not a value that a spec function can build, so conversions from `&str` are
/// described by the `ensures` of `from` itself and not through `from_spec`.
impl<'a> vstd::std_specs::convert::FromSpecImpl<&'a str> for Error {
    open spec fn obeys_from_spec() -> bool {
        false
    }

    closed spec fn from_spec(s: &'a str) -> Error {
        vstd::pervasive::arbitrary()
    }
}

/// The part of `buf` from index `from` on, borrowed mutably. What is written through it
/// lands in `buf` at the same offsets, and the front of `buf` stays.
fn tail_mut<'a>(buf: &'a mut [u8], from: usize) -> (r: &'a mut [u8])
    requires
        from <= old(buf)@.len(),
    ensures
        r@ == old(buf)@.skip(from as int),
        final(buf)@ == old(buf)@.take(from as int) + final(r)@,
{
    let (_front, back) = buf.split_at_mut(from);
    back
}

/// A source of bytes.
///
/// A reader is described by the bytes it has yet to hand out, up to the end of its stream
/// (`unread`), and by the error that a read from its present state fails with, if any
/// (`read_failure`). Each successful `read` hands out the next bytes of that sequence, and a
/// read of zero bytes into a buffer that has room means the stream has ended. A failed read
/// takes nothing from the stream and leaves the reader failing the same way.
pub trait Read {
    /// The bytes that later reads will hand out, in order, up to the end of the stream.
    /// Readers that do not describe themselves keep this default, which is one fixed
    /// sequence.
    closed spec fn unread(&self) -> Seq<u8> {
        vstd::pervasive::arbitrary()
    }

    /// The error that a read from this state fails with, or `None` when it succeeds.
    /// Readers that do not describe themselves keep this default, which is one fixed value.
    closed spec fn read_failure(&self) -> Option<ErrorView> {
        vstd::pervasive::arbitrary()
    }

    /// Whether every `read` of this reader, now and later, succeeds. By default no such
    /// claim is made.
    open spec fn reads_succeed(&self) -> bool {
        false
    }

    /// Pulls some bytes from the source into the front of `buf` and returns how many.
    fn read(&mut self, buf: &mut [u8]) -> (r: Result<usize>)
        ensures
            final(buf)@.len() == old(buf)@.len(),
            old(self).reads_succeed() ==> old(self).read_failure() is None && final(self).reads_succeed(),
            old(self).read_failure() is None ==> r is Ok,
            old(self).read_failure() matches Some(f) ==> (r matches Err(e) && e@ == f),
            r is Err ==> {
                &&& final(self).unread() == old(self).unread()
                &&& final(self).read_failure() == old(self).read_failure()
            },
            r matches Ok(n) ==> {
                &&& n <= old(buf)@.len()
                &&& n <= old(self).unread().len()
                &&& final(buf)@.take(n as int) == old(self).unread().take(n as int)
                &&& final(self).unread() == old(self).unread().skip(n as int)
                &&& (n == 0 ==> old(buf)@.len() == 0 || old(self).unread().len() == 0)
                &&& (n == 0 ==> final(self).read_failure() == old(self).read_failure())
            },
    ;

    /// Reads until the end of the stream and appends all of it to `buf`; returns the
    /// number of bytes appended. A read that fails ends it with that read's error, and
    /// `buf` then holds exactly the bytes read before it.
    fn read_to_end(&mut self, buf: &mut Vec<u8>) -> (r: Result<usize>)
        ensures
            final(buf)@.len() >= old(buf)@.len(),
            final(buf)@.take(old(buf)@.len() as int) == old(buf)@,
            final(buf)@.skip(old(buf)@.len() as int) == old(self).unread().take(
                final(buf)@.len() - old(buf)@.len(),
            ),
            final(self).unread() == old(self).unread().skip(final(buf)@.len() - old(buf)@.len()),
            old(self).reads_succeed() ==> r is Ok && final(self).reads_succeed(),
            old(self).read_failure() matches Some(f) ==> {
                &&& r matches Err(e) && e@ == f
                &&& final(buf)@ == old(buf)@
            },
            r matches Err(e) ==> final(self).read_failure() == Some(e@),
            r matches Ok(total) ==> {
                &&& total == old(self).unread().len()
                &&& final(buf)@ == old(buf)@ + old(self).unread()
                &&& final(self).unread().len() == 0
            },
    {
        let ghost stream = self.unread();
        let ghost base = buf@;
        let mut total: usize = 0;
        let mut chunk = [0u8; 4096];
        loop
            invariant
                chunk@.len() == 4096,
                total <= stream.len(),
                buf@ == base + stream.take(total as int),
                self.unread() == stream.skip(total as int),
                base == old(buf)@,
                stream == old(self).unread(),
                old(self).reads_succeed() ==> self.reads_succeed(),
                total == 0 ==> self.read_failure() == old(self).read_failure(),
                old(self).read_failure() is Some ==> total == 0,
            decreases self.unread().len(),
        {
            let ghost before = self.unread();
            let n = match self.read(&mut chunk) {
                Ok(n) => n,
                Err(e) => {
                    assert(total == 0 ==> buf@ =~= base);
                    assert(buf@.skip(base.len() as int) =~= stream.take(total as int));
                    assert(buf@.take(base.len() as int) =~= base);
                    return Err(e);
                },
            };
            if n == 0 {
                assert(stream.take(total as int) =~= stream);
                assert(buf@.skip(base.len() as int) =~= stream.take(total as int));
                assert(buf@.take(base.len() as int) =~= base);
                return Ok(total);
            }
            let got = vstd::slice::slice_subrange(&chunk, 0, n);
            assert(got@ == before.take(n as int));
            buf.extend_from_slice(got);
            let blen = buf.len();
            assert(stream.take(total + n) =~= stream.take(total as int) + before.take(n as int));
            assert(buf@ =~= base + stream.take(total + n));
            assert(self.unread() =~= stream.skip(total + n));
            total = total + n;
        }
    }

    /// Fills all of `buf` from the source. It succeeds only when the stream held enough
    /// bytes, and then `buf` holds exactly the next `buf.len()` of them. When a read hands
    /// out nothing before `buf` is full, the result is an `UnexpectedEof` error; a read that
    /// fails ends it with that read's error. Either way the front of `buf` holds the bytes
    /// read, and the reader has handed out exactly those.
    fn read_exact(&mut self, buf: &mut [u8]) -> (r: Result<()>)
        ensures
            final(buf)@.len() == old(buf)@.len(),
            old(self).unread().len() < old(buf)@.len() ==> r is Err,
            old(self).reads_succeed() ==> (r is Ok <==> old(self).unread().len() >= old(buf)@.len()),
            old(self).reads_succeed() ==> final(self).reads_succeed(),
            old(buf)@.len() > 0 ==> (old(self).read_failure() matches Some(f) ==> (r matches Err(e)
                && e@ == f)),
            old(self).reads_succeed() ==> (r matches Err(e) ==> e@ == plain_error(
                ErrorKind::UnexpectedEof,
            )),
            exists|k: int|
                {
                    &&& 0 <= k <= old(buf)@.len()
                    &&& k <= old(self).unread().len()
                    &&& final(buf)@.take(k) == old(self).unread().take(k)
                    &&& final(self).unread() == old(self).unread().skip(k)
                    &&& (r is Ok ==> k == old(buf)@.len())
                    &&& (r is Err ==> k < old(buf)@.len())
                },
            r matches Err(e) ==> {
                ||| {
                    &&& e@ == plain_error(ErrorKind::UnexpectedEof)
                    &&& final(self).read_failure() is None
                    &&& final(self).unread().len() == 0
                    &&& old(self).unread().len() < old(buf)@.len()
                    &&& final(buf)@.take(old(self).unread().len() as int) == old(self).unread()
                }
                ||| final(self).read_failure() == Some(e@)
            },
            r is Ok ==> {
                &&& final(buf)@ == old(self).unread().take(old(buf)@.len() as int)
                &&& final(self).unread() == old(self).unread().skip(old(buf)@.len() as int)
            },
    {
        let ghost stream = self.unread();
        let len = buf.len();
        let mut filled: usize = 0;
        while filled < len
            invariant
                buf@.len() == len,
                len == old(buf)@.len(),
                filled <= len,
                filled <= stream.len(),
                buf@.take(filled as int) == stream.take(filled as int),
                self.unread() == stream.skip(filled as int),
                stream == old(self).unread(),
                old(self).reads_succeed() ==> self.reads_succeed(),
                filled == 0 ==> self.read_failure() == old(self).read_failure(),
                old(self).read_failure() is Some ==> filled == 0,
            decreases len - filled,
        {
            let ghost before = self.unread();
            let ghost prev = buf@;
            let n = match self.read(tail_mut(buf, filled)) {
                Ok(n) => n,
                Err(e) => {
                    assert(buf@.take(filled as int) =~= prev.take(filled as int));
                    assert(buf@.take(filled as int) == stream.take(filled as int));
                    return Err(e);
                },
            };
            if n == 0 {
                assert(buf@.take(filled as int) =~= prev.take(filled as int));
                assert(buf@.take(filled as int) == stream.take(filled as int));
                assert(stream.take(filled as int) =~= stream);
                return Err(Error::of_kind(ErrorKind::UnexpectedEof));
            }
            assert(buf@.take(filled + n) =~= stream.take(filled + n)) by {
                assert forall|k: int| 0 <= k < filled + n implies buf@[k] == stream[k] by {
                    if k >= filled {
                        assert(buf@.skip(filled as int).take(n as int)[k - filled] == before.take(n as int)[k - filled]);
                    } else {
                        assert(prev.take(filled as int)[k] == stream.take(filled as int)[k]);
                    }
                }
            }
            assert(self.unread() =~= stream.skip(filled + n));
            filled = filled + n;
        }
        assert(buf@ =~= buf@.take(len as int));
        Ok(())
    }
}

/// A sink of bytes.
///
/// A writer is described by the bytes it has taken in so far (`written`) and by the error
/// that a write from its present state fails with, if any (`write_failure`): each
/// successful `write` takes in a prefix of what it is given, and that prefix is added to the
/// end. A failed write takes in nothing and leaves the writer failing the same way.
pub trait Write {
    /// The bytes the writer has taken in so far. Writers that do not describe themselves
    /// keep this default, which is one fixed sequence.
    closed spec fn written(&self) -> Seq<u8> {
        vstd::pervasive::arbitrary()
    }

    /// The error that a write from this state fails with, or `None` when it succeeds.
    /// Writers that do not describe themselves keep this default, which is one fixed value.
    closed spec fn write_failure(&self) -> Option<ErrorView> {
        vstd::pervasive::arbitrary()
    }

    /// Whether every `write` of this writer, now and later, succeeds. By default no such
    /// claim is made.
    open spec fn writes_succeed(&self) -> bool {
        false
    }

    /// Whether every successful `write` of this writer, now and later, takes in at least one
    /// byte of a non-empty buffer. By default no such claim is made.
    open spec fn writes_progress(&self) -> bool {
        false
    }

    /// Takes in a prefix of `buf` and returns its length.
    fn write(&mut self, buf: &[u8]) -> (r: Result<usize>)
        ensures
            old(self).writes_succeed() ==> old(self).write_failure() is None && final(self).writes_succeed(),
            old(self).writes_progress() ==> final(self).writes_progress(),
            old(self).write_failure() is None ==> r is Ok,
            old(self).write_failure() matches Some(f) ==> (r matches Err(e) && e@ == f),
            r is Err ==> {
                &&& final(self).written() == old(self).written()
                &&& final(self).write_failure() == old(self).write_failure()
            },
            r matches Ok(n) ==> {
                &&& n <= buf@.len()
                &&& final(self).written() == old(self).written() + buf@.take(n as int)
                &&& (old(self).writes_progress() && buf@.len() > 0 ==> n > 0)
                &&& (n == 0 ==> final(self).write_failure() == old(self).write_failure())
            },
    ;

    fn flush(&mut self) -> (r: Result<()>);

    /// Writes all of `buf`, one `write` of the part not yet taken in after another. A
    /// `write` that takes in nothing while bytes remain ends it with a `WriteZero` error; a
    /// write that fails ends it with that write's error. Either way a prefix of `buf` has
    /// been taken in; an empty `buf` is written at once.
    fn write_all(&mut self, buf: &[u8]) -> (r: Result<()>)
        ensures
            r is Ok ==> final(self).written() == old(self).written() + buf@,
            buf@.len() == 0 ==> r is Ok,
            old(self).writes_succeed() && old(self).writes_progress() ==> r is Ok,
            old(self).writes_succeed() ==> final(self).writes_succeed(),
            old(self).writes_progress() ==> final(self).writes_progress(),
            buf@.len() > 0 ==> (old(self).write_failure() matches Some(f) ==> {
                &&& r matches Err(e) && e@ == f
                &&& final(self).written() == old(self).written()
            }),
            old(self).writes_succeed() ==> (r matches Err(e) ==> e@ == plain_error(
                ErrorKind::WriteZero,
            )),
            exists|k: int|
                {
                    &&& 0 <= k <= buf@.len()
                    &&& final(self).written() == old(self).written() + buf@.take(k)
                    &&& (r is Err ==> k < buf@.len())
                },
            r matches Err(e) ==> {
                ||| (e@ == plain_error(ErrorKind::WriteZero) && final(self).write_failure() is None)
                ||| final(self).write_failure() == Some(e@)
            },
    {
        let ghost all = buf@;
        let ghost start = self.written();
        let len = buf.len();
        let mut done: usize = 0;
        assert(start + all.take(0) =~= start);
        while done < len
            invariant
                done <= len,
                len == all.len(),
                all == buf@,
                start == old(self).written(),
                self.written() == start + all.take(done as int),
                old(self).writes_succeed() ==> self.writes_succeed(),
                old(self).writes_progress() ==> self.writes_progress(),
                done == 0 ==> self.write_failure() == old(self).write_failure(),
                old(self).write_failure() is Some ==> done == 0,
            decreases len - done,
        {
            let rest = vstd::slice::slice_subrange(buf, done, len);
            let n = match self.write(rest) {
                Ok(n) => n,
                Err(e) => return Err(e),
            };
            if n == 0 {
                return Err(Error::of_kind(ErrorKind::WriteZero));
            }
            assert(all.take(done as int) + rest@.take(n as int) =~= all.take(done + n));
            assert(start + all.take(done + n) =~= start + all.take(done as int) + rest@.take(n as int));
            done = done + n;
        }
        assert(all.take(len as int) =~= all);
        Ok(())
    }
}

/// Where a seek moves to.
#[derive(Debug, Clone, Copy)]
pub enum SeekFrom {
    /// That many bytes from the start.
    Start(u64),
    /// That many bytes from the end (negative values move back from it).
    End(i64),
    /// That many bytes from the current position.
    Current(i64),
}

/// A stream with a movable position.
pub trait Seek {
    fn seek(&mut self, pos: SeekFrom) -> (r: Result<u64>);
}

/// A reader with an internal buffer.
pub trait BufRead: Read {
    fn fill_buf(&mut self) -> (r: Result<&[u8]>);

    fn consume(&mut self, amt: usize);
}

/// A `Vec<u8>` takes in every byte it is given, at its end.
impl Write for Vec<u8> {
    /// What the vector holds.
    open spec fn written(&self) -> Seq<u8> {
        self@
    }

    open spec fn write_failure(&self) -> Option<ErrorView> {
        None
    }

    open spec fn writes_succeed(&self) -> bool {
        true
    }

    open spec fn writes_progress(&self) -> bool {
        true
    }

    fn write(&mut self, buf: &[u8]) -> (r: Result<usize>)
        ensures
            r == Ok::<usize, Error>(buf@.len() as usize),
            final(self)@ == old(self)@ + buf@,
    {
        self.extend_from_slice(buf);
        assert(buf@.take(buf@.len() as int) =~= buf@);
        assert(final(self)@ =~= old(self)@ + buf@);
        Ok(buf.len())
    }

    fn flush(&mut self) -> (r: Result<()>)
        ensures
            r is Ok,
            final(self)@ == old(self)@,
    {
        Ok(())
    }
}

/// An error without a message displays the name of its kind; an error with one displays
/// the message.
pub proof fn law_error_text(kind: ErrorKind, m: Seq<char>)
    ensures
        error_text(plain_error(kind)) == kind_name(kind),
        error_text(ErrorView { kind, message: Some(m) }) == m,
{
}

} // verus!
