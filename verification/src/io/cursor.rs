//! An in-memory reader and writer over a byte buffer.
use vstd::prelude::*;

use super::{Error, ErrorKind, ErrorView, Read, Result, Seek, SeekFrom, Write, plain_error};

verus! {

/// A byte buffer that a `Cursor` can read from.
pub trait ByteBuffer {
    /// The bytes the buffer holds. Buffers that do not describe themselves keep this
    /// default, which is one fixed sequence.
    closed spec fn bytes(&self) -> Seq<u8> {
        vstd::pervasive::arbitrary()
    }

    fn as_bytes(&self) -> (r: &[u8])
        ensures
            r@ == self.bytes(),
    ;
}

/// A byte buffer whose bytes a `Cursor` can overwrite in place. Its length never changes.
pub trait ByteBufferMut: ByteBuffer {
    fn set_byte(&mut self, i: usize, b: u8)
        requires
            i < old(self).bytes().len(),
        ensures
            final(self).bytes() == old(self).bytes().update(i as int, b),
    ;
}

impl ByteBuffer for Vec<u8> {
    open spec fn bytes(&self) -> Seq<u8> {
        self@
    }

    fn as_bytes(&self) -> (r: &[u8]) {
        self.as_slice()
    }
}

impl ByteBufferMut for Vec<u8> {
    fn set_byte(&mut self, i: usize, b: u8) {
        self.set(i, b);
    }
}

impl<'a> ByteBuffer for &'a [u8] {
    open spec fn bytes(&self) -> Seq<u8> {
        (*self)@
    }

    fn as_bytes(&self) -> (r: &[u8]) {
        *self
    }
}

impl<'a> ByteBuffer for &'a mut [u8] {
    open spec fn bytes(&self) -> Seq<u8> {
        (**self)@
    }

    fn as_bytes(&self) -> (r: &[u8]) {
        &**self
    }
}

impl<'a> ByteBufferMut for &'a mut [u8] {
    fn set_byte(&mut self, i: usize, b: u8) {
        (**self)[i] = b;
    }
}

impl ByteBuffer for Box<[u8]> {
    open spec fn bytes(&self) -> Seq<u8> {
        (**self)@
    }

    fn as_bytes(&self) -> (r: &[u8]) {
        &**self
    }
}

impl ByteBufferMut for Box<[u8]> {
    fn set_byte(&mut self, i: usize, b: u8) {
        (**self)[i] = b;
    }
}

impl<'a> ByteBuffer for &'a Vec<u8> {
    open spec fn bytes(&self) -> Seq<u8> {
        (**self)@
    }

    fn as_bytes(&self) -> (r: &[u8]) {
        (**self).as_slice()
    }
}

impl ByteBuffer for String {
    /// The UTF-8 encoding of the text.
    open spec fn bytes(&self) -> Seq<u8> {
        vstd::utf8::encode_utf8(self@)
    }

    fn as_bytes(&self) -> (r: &[u8]) {
        self.as_str().as_bytes()
    }
}

impl<'a> ByteBuffer for &'a str {
    /// The UTF-8 encoding of the text.
    open spec fn bytes(&self) -> Seq<u8> {
        vstd::utf8::encode_utf8((*self)@)
    }

    fn as_bytes(&self) -> (r: &[u8]) {
        (*self).as_bytes()
    }
}

impl<'a> ByteBuffer for std::borrow::Cow<'a, [u8]> {
    open spec fn bytes(&self) -> Seq<u8> {
        match self {
            std::borrow::Cow::Borrowed(b) => (*b)@,
            std::borrow::Cow::Owned(o) => o@,
        }
    }

    fn as_bytes(&self) -> (r: &[u8]) {
        match self {
            std::borrow::Cow::Borrowed(b) => *b,
            std::borrow::Cow::Owned(o) => o.as_slice(),
        }
    }
}

impl<const N: usize> ByteBuffer for [u8; N] {
    open spec fn bytes(&self) -> Seq<u8> {
        self@
    }

    fn as_bytes(&self) -> (r: &[u8]) {
        self.as_slice()
    }
}

impl<const N: usize> ByteBufferMut for [u8; N] {
    fn set_byte(&mut self, i: usize, b: u8) {
        self[i] = b;
    }
}

/// Where a read or write of a cursor at `pos` over `len` bytes begins: at `pos`, or at
/// the end of the buffer when `pos` lies past it.
pub open spec fn cursor_start(pos: u64, len: nat) -> nat {
    if pos < len {
        pos as nat
    } else {
        len
    }
}

/// `bytes` with `x` written over it from index `s` on.
pub open spec fn overwrite(bytes: Seq<u8>, s: nat, x: Seq<u8>) -> Seq<u8> {
    bytes.take(s as int) + x + bytes.skip((s + x.len()) as int)
}

/// The position that a seek aims at, before it is checked; it may be negative or above
/// `u64::MAX`.
pub open spec fn seek_target(pos: u64, len: nat, from: SeekFrom) -> int {
    match from {
        SeekFrom::Start(p) => p as int,
        SeekFrom::End(p) => len + p,
        SeekFrom::Current(p) => pos + p,
    }
}

/// A buffer and a position in it. Reads hand out the bytes from the position on and
/// advance it; writes overwrite bytes from the position on, never past the end of the
/// buffer, and advance it. A position past the end reads and writes nothing.
#[derive(Debug, Clone)]
pub struct Cursor<T> {
    inner: T,
    pos: u64,
}

impl<T> Cursor<T> {
    /// The buffer.
    pub closed spec fn spec_inner(&self) -> T {
        self.inner
    }

    /// The position.
    pub closed spec fn spec_pos(&self) -> u64 {
        self.pos
    }

    /// A cursor at position 0 of `inner`.
    pub fn new(inner: T) -> (c: Self)
        ensures
            c.spec_inner() == inner,
            c.spec_pos() == 0,
    {
        Cursor { inner, pos: 0 }
    }

    pub fn into_inner(self) -> (r: T)
        ensures
            r == self.spec_inner(),
    {
        self.inner
    }

    pub fn get_ref(&self) -> (r: &T)
        ensures
            *r == self.spec_inner(),
    {
        &self.inner
    }

    pub fn get_mut(&mut self) -> (r: &mut T)
        ensures
            *r == old(self).spec_inner(),
            final(self).spec_inner() == *final(r),
            final(self).spec_pos() == old(self).spec_pos(),
    {
        &mut self.inner
    }

    pub fn position(&self) -> (r: u64)
        ensures
            r == self.spec_pos(),
    {
        self.pos
    }

    pub fn set_position(&mut self, pos: u64)
        ensures
            final(self).spec_pos() == pos,
            final(self).spec_inner() == old(self).spec_inner(),
    {
        self.pos = pos;
    }
}

impl<T: ByteBuffer> Cursor<T> {
    /// The bytes of the buffer.
    pub open spec fn spec_bytes(&self) -> Seq<u8> {
        self.spec_inner().bytes()
    }

    /// Where the next read or write begins.
    pub open spec fn spec_start(&self) -> nat {
        cursor_start(self.spec_pos(), self.spec_bytes().len())
    }

    /// The start of the next read or write, as an index.
    fn start_index(&self) -> (r: usize)
        ensures
            r == self.spec_start(),
            r <= self.spec_bytes().len(),
    {
        let len = self.inner.as_bytes().len();
        if self.pos < len as u64 {
            self.pos as usize
        } else {
            len
        }
    }
}

impl<T: ByteBuffer> Read for Cursor<T> {
    /// The bytes from the position to the end of the buffer.
    open spec fn unread(&self) -> Seq<u8> {
        self.spec_bytes().skip(self.spec_start() as int)
    }

    open spec fn read_failure(&self) -> Option<ErrorView> {
        None
    }

    open spec fn reads_succeed(&self) -> bool {
        true
    }

    /// Copies as many bytes as fit from the position on and advances past them.
    fn read(&mut self, buf: &mut [u8]) -> (r: Result<usize>)
        ensures
            final(self).spec_inner() == old(self).spec_inner(),
            r matches Ok(n) && {
                &&& n == if old(self).unread().len() < old(buf)@.len() {
                    old(self).unread().len()
                } else {
                    old(buf)@.len() as nat
                }
                &&& final(self).spec_pos() == old(self).spec_pos() + n
                &&& forall|k: int| n <= k < old(buf)@.len() ==> final(buf)@[k] == old(buf)@[k]
            },
    {
        let start = self.start_index();
        let bytes = self.inner.as_bytes();
        let remaining = bytes.len() - start;
        let n = if remaining < buf.len() {
            remaining
        } else {
            buf.len()
        };
        let ghost unread = self.unread();
        let ghost old_buf = buf@;
        let mut i: usize = 0;
        while i < n
            invariant
                i <= n,
                n <= buf@.len(),
                buf@.len() == old_buf.len(),
                start + n <= bytes.len(),
                bytes@ == self.spec_bytes(),
                unread == bytes@.skip(start as int),
                forall|k: int| 0 <= k < i ==> buf@[k] == bytes@[start + k],
                forall|k: int| n <= k < buf@.len() ==> buf@[k] == old_buf[k],
            decreases n - i,
        {
            buf[i] = bytes[start + i];
            i = i + 1;
        }
        assert(buf@.take(n as int) =~= unread.take(n as int));
        assert(self.unread().skip(n as int) =~= unread.skip(n as int)) by {
            assert(unread.skip(n as int) =~= bytes@.skip(start + n));
        }
        self.pos = self.pos + n as u64;
        assert(self.unread() =~= unread.skip(n as int));
        Ok(n)
    }

    /// Appends every byte from the position to the end of the buffer and moves the position
    /// past them; the buffer is kept.
    fn read_to_end(&mut self, buf: &mut Vec<u8>) -> (r: Result<usize>)
        ensures
            final(self).spec_inner() == old(self).spec_inner(),
            r matches Ok(n) && {
                &&& n == old(self).unread().len()
                &&& final(self).spec_pos() == old(self).spec_pos() + n
                &&& final(buf)@ == old(buf)@ + old(self).unread()
            },
    {
        let start = self.start_index();
        let bytes = self.inner.as_bytes();
        let len = bytes.len();
        let rest = vstd::slice::slice_subrange(bytes, start, len);
        let ghost unread = self.unread();
        buf.extend_from_slice(rest);
        let n = len - start;
        self.pos = self.pos + n as u64;
        assert(final(buf)@ =~= old(buf)@ + unread);
        assert(final(buf)@.take(old(buf)@.len() as int) =~= old(buf)@);
        assert(final(buf)@.skip(old(buf)@.len() as int) =~= unread.take(n as int));
        assert(self.unread() =~= unread.skip(n as int));
        Ok(n)
    }

    /// Fills `buf` from the position on, as far as the buffer's bytes reach, and moves the
    /// position past the bytes copied; the buffer is kept. It succeeds exactly when enough
    /// bytes were left, and fails with `UnexpectedEof` otherwise.
    fn read_exact(&mut self, buf: &mut [u8]) -> (r: Result<()>)
        ensures
            final(self).spec_inner() == old(self).spec_inner(),
            ({
                let m = if old(self).unread().len() < old(buf)@.len() {
                    old(self).unread().len()
                } else {
                    old(buf)@.len() as nat
                };
                &&& final(self).spec_pos() == old(self).spec_pos() + m
                &&& final(buf)@.take(m as int) == old(self).unread().take(m as int)
                &&& forall|i: int| m <= i < old(buf)@.len() ==> final(buf)@[i] == old(buf)@[i]
            }),
            r is Ok <==> old(self).unread().len() >= old(buf)@.len(),
            r matches Err(e) ==> e@ == plain_error(ErrorKind::UnexpectedEof),
    {
        let len = buf.len();
        let ghost unread = self.unread();
        let n = match self.read(buf) {
            Ok(n) => n,
            Err(e) => return Err(e),
        };
        if n < len {
            assert(final(buf)@.take(n as int) == unread.take(n as int));
            assert(self.unread().len() == 0);
            Err(Error::of_kind(ErrorKind::UnexpectedEof))
        } else {
            assert(final(buf)@ =~= final(buf)@.take(len as int));
            Ok(())
        }
    }
}

impl<T: ByteBuffer> Seek for Cursor<T> {
    /// Moves to the target of `pos`. A target below zero or above `u64::MAX` is refused
    /// with `InvalidInput` and leaves the cursor as it was; any other target becomes the
    /// position.
    fn seek(&mut self, pos: SeekFrom) -> (r: Result<u64>)
        ensures
            final(self).spec_inner() == old(self).spec_inner(),
            ({
                let target = seek_target(old(self).spec_pos(), old(self).spec_bytes().len(), pos);
                if target < 0 || target > u64::MAX {
                    &&& r matches Err(e) && e@ == plain_error(ErrorKind::InvalidInput)
                    &&& final(self).spec_pos() == old(self).spec_pos()
                } else {
                    &&& final(self).spec_pos() == target as u64
                    &&& r == Ok::<u64, Error>(target as u64)
                }
            }),
    {
        let new_pos: i128 = match pos {
            SeekFrom::Start(p) => p as i128,
            SeekFrom::End(p) => self.inner.as_bytes().len() as i128 + p as i128,
            SeekFrom::Current(p) => self.pos as i128 + p as i128,
        };
        if new_pos < 0 || new_pos > u64::MAX as i128 {
            return Err(Error::of_kind(ErrorKind::InvalidInput));
        }
        self.pos = new_pos as u64;
        Ok(self.pos)
    }
}

impl<T: ByteBufferMut> Write for Cursor<T> {
    /// The bytes of the buffer before the position, which is where the next write goes.
    open spec fn written(&self) -> Seq<u8> {
        self.spec_bytes().take(self.spec_start() as int)
    }

    open spec fn write_failure(&self) -> Option<ErrorView> {
        None
    }

    open spec fn writes_succeed(&self) -> bool {
        true
    }

    /// Overwrites as many bytes of the buffer as fit from the position on and advances past
    /// them; the buffer never grows.
    fn write(&mut self, buf: &[u8]) -> (r: Result<usize>)
        ensures
            r matches Ok(n) && {
                &&& n == if (old(self).spec_bytes().len() - old(self).spec_start()) < buf@.len() {
                    (old(self).spec_bytes().len() - old(self).spec_start()) as nat
                } else {
                    buf@.len() as nat
                }
                &&& final(self).spec_pos() == old(self).spec_pos() + n
                &&& final(self).spec_bytes() == overwrite(
                    old(self).spec_bytes(),
                    old(self).spec_start(),
                    buf@.take(n as int),
                )
            },
    {
        let start = self.start_index();
        let len = self.inner.as_bytes().len();
        let remaining = len - start;
        let n = if remaining < buf.len() {
            remaining
        } else {
            buf.len()
        };
        let ghost before = self.spec_bytes();
        let mut i: usize = 0;
        while i < n
            invariant
                i <= n,
                n <= buf@.len(),
                start + n <= len,
                len == before.len(),
                self.spec_bytes().len() == len,
                self.spec_pos() == old(self).spec_pos(),
                before == old(self).spec_bytes(),
                start == old(self).spec_start(),
                forall|k: int| 0 <= k < start ==> self.spec_bytes()[k] == before[k],
                forall|k: int| 0 <= k < i ==> self.spec_bytes()[start + k] == buf@[k],
                forall|k: int| start + i <= k < len ==> self.spec_bytes()[k] == before[k],
            decreases n - i,
        {
            self.inner.set_byte(start + i, buf[i]);
            i = i + 1;
        }
        self.pos = self.pos + n as u64;
        assert(self.spec_bytes() =~= overwrite(before, start as nat, buf@.take(n as int)));
        assert(self.written() =~= old(self).written() + buf@.take(n as int));
        Ok(n)
    }

    fn flush(&mut self) -> (r: Result<()>)
        ensures
            r is Ok,
            final(self).spec_inner() == old(self).spec_inner(),
            final(self).spec_pos() == old(self).spec_pos(),
    {
        Ok(())
    }

    /// Writes as much of `buf` as fits from the position on and moves the position past
    /// it; the buffer never grows. It succeeds exactly when all of `buf` fitted, and fails
    /// with `WriteZero` otherwise.
    fn write_all(&mut self, buf: &[u8]) -> (r: Result<()>)
        ensures
            ({
                let room = (old(self).spec_bytes().len() - old(self).spec_start()) as nat;
                let m = if room < buf@.len() {
                    room
                } else {
                    buf@.len() as nat
                };
                &&& final(self).spec_pos() == old(self).spec_pos() + m
                &&& final(self).spec_bytes() == overwrite(
                    old(self).spec_bytes(),
                    old(self).spec_start(),
                    buf@.take(m as int),
                )
                &&& (r is Ok <==> room >= buf@.len())
            }),
            r matches Err(e) ==> e@ == plain_error(ErrorKind::WriteZero),
    {
        let len = buf.len();
        let n = match self.write(buf) {
            Ok(n) => n,
            Err(e) => return Err(e),
        };
        if n < len {
            Err(Error::of_kind(ErrorKind::WriteZero))
        } else {
            assert(buf@.take(len as int) =~= buf@);
            Ok(())
        }
    }
}

/// What a cursor wrote, it reads back: a cursor whose bytes had `x` written over them from
/// its start position on (inside the buffer) has `x` as its next bytes, and keeps the bytes
/// before and after as they were.
pub proof fn law_read_back_written<T: ByteBuffer>(c: &Cursor<T>, old_bytes: Seq<u8>, x: Seq<u8>)
    requires
        c.spec_start() + x.len() <= old_bytes.len(),
        c.spec_bytes() == overwrite(old_bytes, c.spec_start(), x),
    ensures
        c.unread().take(x.len() as int) == x,
        c.spec_bytes().len() == old_bytes.len(),
        c.spec_bytes().take(c.spec_start() as int) == old_bytes.take(c.spec_start() as int),
        c.spec_bytes().skip((c.spec_start() + x.len()) as int) == old_bytes.skip((c.spec_start() + x.len()) as int),
{
    let s = c.spec_start();
    assert(c.unread().take(x.len() as int) =~= x);
    assert(c.spec_bytes().take(s as int) =~= old_bytes.take(s as int));
    assert(c.spec_bytes().skip((s + x.len()) as int) =~= old_bytes.skip((s + x.len()) as int));
}

/// A cursor at position 0 has its whole buffer left to read.
pub proof fn law_fresh_cursor_reads_everything<T: ByteBuffer>(c: &Cursor<T>)
    requires
        c.spec_pos() == 0,
    ensures
        c.unread() == c.spec_bytes(),
{
    assert(c.unread() =~= c.spec_bytes());
}

/// A cursor at or past the end of its buffer has nothing left to read.
pub proof fn law_nothing_left_past_end<T: ByteBuffer>(c: &Cursor<T>)
    requires
        c.spec_pos() >= c.spec_bytes().len(),
    ensures
        c.unread().len() == 0,
{
}

/// Seeking to `Start(p)` aims at `p`; seeking by zero from the current position stays
/// there; seeking by zero from the end aims at the length of the buffer.
pub proof fn law_seek_targets(pos: u64, len: nat, p: u64)
    ensures
        seek_target(pos, len, SeekFrom::Start(p)) == p,
        seek_target(pos, len, SeekFrom::Start(p)) as u64 == p,
        seek_target(pos, len, SeekFrom::Current(0i64)) as u64 == pos,
        seek_target(pos, len, SeekFrom::End(0i64)) == len,
        seek_target(pos, len, SeekFrom::Current(-1i64)) < 0 <==> pos == 0,
{
}

/// A seek by any offset from the current position aims at the position plus that offset, and
/// a seek by any offset from the end aims at the buffer's length plus that offset; a seek
/// is refused exactly when that sum lies below zero or above `u64::MAX`.
pub proof fn law_seek_offsets(pos: u64, len: nat, p: i64)
    ensures
        seek_target(pos, len, SeekFrom::Current(p)) == pos as int + p as int,
        seek_target(pos, len, SeekFrom::End(p)) == len as int + p as int,
        (0 <= pos as int + p as int <= u64::MAX) ==> seek_target(pos, len, SeekFrom::Current(p))
            as u64 == pos as int + p as int,
        (0 <= len as int + p as int <= u64::MAX) ==> seek_target(pos, len, SeekFrom::End(p))
            as u64 == len as int + p as int,
{
}

/// The bytes a cursor reads and writes are the buffer's own contents: for each kind of
/// buffer, all of the elements it holds, in order (for text, its UTF-8 encoding), whatever
/// form the buffer takes.
pub proof fn law_buffer_bytes_are_its_contents<const N: usize>(
    v: Vec<u8>,
    s: &[u8],
    b: Box<[u8]>,
    c: std::borrow::Cow<'_, [u8]>,
    a: [u8; N],
    t: String,
    u: &str,
    rv: &Vec<u8>,
)
    ensures
        ByteBuffer::bytes(&v) == v@,
        ByteBuffer::bytes(&v).len() == v.len(),
        ByteBuffer::bytes(&s) == s@,
        ByteBuffer::bytes(&s).len() == s.len(),
        ByteBuffer::bytes(&b) == b@,
        ByteBuffer::bytes(&b).len() == b@.len(),
        ByteBuffer::bytes(&c) == c@,
        c matches std::borrow::Cow::Owned(o) ==> ByteBuffer::bytes(&c) == o@,
        c matches std::borrow::Cow::Borrowed(x) ==> ByteBuffer::bytes(&c) == x@,
        ByteBuffer::bytes(&a) == a@,
        ByteBuffer::bytes(&a).len() == N,
        ByteBuffer::bytes(&t) == vstd::utf8::encode_utf8(t@),
        ByteBuffer::bytes(&u) == vstd::string::StringSliceAdditionalSpecFns::spec_bytes(u),
        ByteBuffer::bytes(&rv) == rv@,
{
}

/// A writable slice's bytes are the slice's elements, and a cursor over it overwrites them.
pub proof fn law_mut_slice_bytes_are_its_contents(m: &mut [u8])
    ensures
        ByteBuffer::bytes(&old(m)) == old(m)@,
        ByteBuffer::bytes(&old(m)).len() == old(m)@.len(),
{
}

/// A cursor reads and writes from its position when that lies inside the buffer, and from
/// the end otherwise: what is left to read is the bytes from the position on, `len - pos` of
/// them, or none past the end; what counts as written is the bytes before the position.
pub proof fn law_cursor_start<T: ByteBuffer>(c: &Cursor<T>)
    ensures
        c.spec_pos() <= c.spec_bytes().len() ==> c.spec_start() == c.spec_pos(),
        c.spec_pos() > c.spec_bytes().len() ==> c.spec_start() == c.spec_bytes().len(),
        c.unread().len() == if c.spec_pos() < c.spec_bytes().len() {
            c.spec_bytes().len() - c.spec_pos()
        } else {
            0
        },
        forall|i: int|
            0 <= i < c.unread().len() ==> #[trigger] c.unread()[i] == c.spec_bytes()[c.spec_pos() + i],
{
}

/// Writing `x` over `bytes` from index `s` on (inside the buffer) keeps the length, puts
/// `x[i]` at `s + i`, and keeps every other byte.
pub proof fn law_overwrite(bytes: Seq<u8>, s: nat, x: Seq<u8>)
    requires
        s + x.len() <= bytes.len(),
    ensures
        overwrite(bytes, s, x).len() == bytes.len(),
        forall|i: int|
            0 <= i < bytes.len() ==> #[trigger] overwrite(bytes, s, x)[i] == if s <= i < s + x.len() {
                x[i - s]
            } else {
                bytes[i]
            },
{
}

/// A vector has taken in exactly the bytes it holds; a cursor has handed out nothing beyond
/// its buffer and counts as written exactly the buffer's bytes before its start, while the
/// bytes from the start on are what it has left to read. Neither ever fails.
pub proof fn law_written_and_unread<T: ByteBufferMut>(v: Vec<u8>, c: Cursor<T>)
    ensures
        Write::written(&v) == v@,
        Write::write_failure(&v) is None,
        Write::written(&c) + Read::unread(&c) == c.spec_bytes(),
        Write::written(&c).len() == c.spec_start(),
        Read::read_failure(&c) is None,
        Write::write_failure(&c) is None,
{
    assert(Write::written(&c) + Read::unread(&c) =~= c.spec_bytes());
}

/// Reading (`read`, `read_exact`, `read_to_end`), seeking and setting the position each keep
/// a cursor's buffer, so any run of them does: when every cursor of a run has the buffer of
/// the one before it, the last has the buffer of the first, and `into_inner` gives it back.
pub proof fn law_buffer_kept_across_calls<T>(run: Seq<Cursor<T>>)
    requires
        run.len() > 0,
        forall|i: int, j: int|
            0 <= i && j == i + 1 && j < run.len() ==> #[trigger] run[j].spec_inner()
                == #[trigger] run[i].spec_inner(),
    ensures
        run.last().spec_inner() == run[0].spec_inner(),
    decreases run.len(),
{
    if run.len() > 1 {
        let shorter = run.drop_last();
        assert forall|i: int, j: int|
            0 <= i && j == i + 1 && j < shorter.len() implies #[trigger] shorter[j].spec_inner()
                == #[trigger] shorter[i].spec_inner() by {
            assert(run[j].spec_inner() == run[i].spec_inner());
        }
        law_buffer_kept_across_calls(shorter);
        let n = run.len() - 1;
        assert(run[n].spec_inner() == run[n - 1].spec_inner());
    }
}

} // verus!
