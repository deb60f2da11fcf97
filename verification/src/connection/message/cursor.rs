//! A read position over the bytes of a received message.
use crate::error::{Error, Result};
use byteorder::{ByteOrder, LittleEndian};
use vstd::prelude::*;

verus! {

/// The unsigned value of the two little-endian bytes at `at`.
pub open spec fn le16(s: Seq<u8>, at: int) -> u16 {
    (s[at] + 256 * s[at + 1]) as u16
}

/// The unsigned value of the four little-endian bytes at `at`.
pub open spec fn le32(s: Seq<u8>, at: int) -> u32 {
    (s[at] + 256 * s[at + 1] + 65536 * s[at + 2] + 16777216 * s[at + 3]) as u32
}

/// Two's complement reading of a byte.
pub open spec fn signed8(u: u8) -> i8 {
    (if u >= 0x80 {
        u - 0x100
    } else {
        u as int
    }) as i8
}

/// Two's complement reading of 16 bits.
pub open spec fn signed16(u: u16) -> i16 {
    (if u >= 0x8000 {
        u - 0x1_0000
    } else {
        u as int
    }) as i16
}

/// Two's complement reading of 32 bits.
pub open spec fn signed32(u: u32) -> i32 {
    (if u >= 0x8000_0000 {
        u - 0x1_0000_0000
    } else {
        u as int
    }) as i32
}

/// `byteorder`'s `LittleEndian::read_u16`: the first two bytes of `buf`,
/// least significant first. It panics on a shorter buffer.
#[verifier::external_body]
fn read_le_u16(buf: &[u8]) -> (v: u16)
    requires
        buf@.len() >= 2,
    ensures
        v == le16(buf@, 0),
{
    LittleEndian::read_u16(buf)
}

/// `byteorder`'s `LittleEndian::read_i16`: the first two bytes of `buf`,
/// least significant first, read as two's complement. It panics on a
/// shorter buffer.
#[verifier::external_body]
fn read_le_i16(buf: &[u8]) -> (v: i16)
    requires
        buf@.len() >= 2,
    ensures
        v == signed16(le16(buf@, 0)),
{
    LittleEndian::read_i16(buf)
}

/// `byteorder`'s `LittleEndian::read_u32`: the first four bytes of `buf`,
/// least significant first. It panics on a shorter buffer.
#[verifier::external_body]
fn read_le_u32(buf: &[u8]) -> (v: u32)
    requires
        buf@.len() >= 4,
    ensures
        v == le32(buf@, 0),
{
    LittleEndian::read_u32(buf)
}

/// `byteorder`'s `LittleEndian::read_i32`: the first four bytes of `buf`,
/// least significant first, read as two's complement. It panics on a
/// shorter buffer.
#[verifier::external_body]
fn read_le_i32(buf: &[u8]) -> (v: i32)
    requires
        buf@.len() >= 4,
    ensures
        v == signed32(le32(buf@, 0)),
{
    LittleEndian::read_i32(buf)
}

/// `std::io::Error::new` with kind `UnexpectedEof`: the error a read past
/// the end of the input reports. Nothing is stated of the value built.
#[verifier::external_body]
pub(crate) fn end_of_input() -> std::io::Error {
    std::io::Error::new(std::io::ErrorKind::UnexpectedEof, "failed to fill whole buffer")
}

/// The bytes of a message and how many of them have been read.
#[derive(Debug)]
pub struct ByteCursor {
    data: Vec<u8>,
    position: usize,
}

impl ByteCursor {
    #[verifier::type_invariant]
    spec fn within_bounds(&self) -> bool {
        self.position <= self.data.len()
    }

    pub closed spec fn bytes(&self) -> Seq<u8> {
        self.data@
    }

    pub closed spec fn pos(&self) -> int {
        self.position as int
    }

    /// The bytes not read yet.
    pub open spec fn remaining(&self) -> Seq<u8> {
        if self.pos() <= self.bytes().len() {
            self.bytes().skip(self.pos())
        } else {
            seq![]
        }
    }

    /// The cursor after `n` more bytes were read.
    pub open spec fn advanced(&self, other: &Self, n: int) -> bool {
        &&& other.bytes() == self.bytes()
        &&& other.pos() == self.pos() + n
        &&& 0 <= n <= self.remaining().len()
        &&& other.remaining() == self.remaining().skip(n)
    }

    pub fn new(data: Vec<u8>) -> (c: Self)
        ensures
            c.bytes() == data@,
            c.pos() == 0,
            c.remaining() == data@,
    {
        let c = ByteCursor { data, position: 0 };
        assert(c.data@.skip(0) =~= c.data@);
        c
    }

    /// The number of bytes read; never more than there are.
    pub fn position(&self) -> (p: usize)
        ensures
            p == self.pos(),
            p <= self.bytes().len(),
    {
        proof {
            use_type_invariant(self);
        }
        self.position
    }

    /// Moves to the end of the bytes, as a read past the end does, and
    /// gives the error such a read reports.
    fn seek_end_of_input(&mut self) -> (e: Error)
        ensures
            e is Io,
            final(self).bytes() == old(self).bytes(),
            final(self).pos() == old(self).bytes().len(),
    {
        self.position = self.data.len();
        Error::Io(end_of_input())
    }

    fn available(&self) -> (n: usize)
        ensures
            n == self.remaining().len(),
    {
        if self.position <= self.data.len() {
            self.data.len() - self.position
        } else {
            0
        }
    }

    fn take(&mut self, n: usize) -> (r: &[u8])
        requires
            n <= old(self).remaining().len(),
        ensures
            r@ == old(self).remaining().take(n as int),
            old(self).advanced(final(self), n as int),
    {
        proof {
            use_type_invariant(&*self);
        }
        let start = self.position;
        self.position = self.position + n;
        let r = vstd::slice::slice_subrange(self.data.as_slice(), start, start + n);
        assert(r@ =~= old(self).remaining().take(n as int));
        assert(self.remaining() =~= old(self).remaining().skip(n as int));
        r
    }

    pub fn read_u8(&mut self) -> (r: Result<u8>)
        ensures
            old(self).remaining().len() >= 1 ==> (r matches Ok(v) && v == old(self).remaining()[0]
                && old(self).advanced(final(self), 1)),
            old(self).remaining().len() < 1 ==> (r matches Err(Error::Io(_)) && final(self).bytes() == old(self).bytes()
                && final(self).pos() == old(self).bytes().len()),
    {
        if self.available() < 1 {
            return Err(self.seek_end_of_input());
        }
        let b = self.take(1);
        Ok(b[0])
    }

    pub fn read_i8(&mut self) -> (r: Result<i8>)
        ensures
            old(self).remaining().len() >= 1 ==> (r matches Ok(v) && v == signed8(
                old(self).remaining()[0],
            ) && old(self).advanced(final(self), 1)),
            old(self).remaining().len() < 1 ==> (r matches Err(Error::Io(_)) && final(self).bytes() == old(self).bytes()
                && final(self).pos() == old(self).bytes().len()),
    {
        if self.available() < 1 {
            return Err(self.seek_end_of_input());
        }
        let b = self.take(1)[0];
        let v: i8 = if b >= 0x80 {
            ((b as i16) - 0x100) as i8
        } else {
            b as i8
        };
        Ok(v)
    }

    pub fn read_u16(&mut self) -> (r: Result<u16>)
        ensures
            old(self).remaining().len() >= 2 ==> (r matches Ok(v) && v == le16(
                old(self).remaining(),
                0,
            ) && old(self).advanced(final(self), 2)),
            old(self).remaining().len() < 2 ==> (r matches Err(Error::Io(_)) && final(self).bytes() == old(self).bytes()
                && final(self).pos() == old(self).bytes().len()),
    {
        if self.available() < 2 {
            return Err(self.seek_end_of_input());
        }
        Ok(read_le_u16(self.take(2)))
    }

    pub fn read_i16(&mut self) -> (r: Result<i16>)
        ensures
            old(self).remaining().len() >= 2 ==> (r matches Ok(v) && v == signed16(
                le16(old(self).remaining(), 0),
            ) && old(self).advanced(final(self), 2)),
            old(self).remaining().len() < 2 ==> (r matches Err(Error::Io(_)) && final(self).bytes() == old(self).bytes()
                && final(self).pos() == old(self).bytes().len()),
    {
        if self.available() < 2 {
            return Err(self.seek_end_of_input());
        }
        Ok(read_le_i16(self.take(2)))
    }

    pub fn read_u32(&mut self) -> (r: Result<u32>)
        ensures
            old(self).remaining().len() >= 4 ==> (r matches Ok(v) && v == le32(
                old(self).remaining(),
                0,
            ) && old(self).advanced(final(self), 4)),
            old(self).remaining().len() < 4 ==> (r matches Err(Error::Io(_)) && final(self).bytes() == old(self).bytes()
                && final(self).pos() == old(self).bytes().len()),
    {
        if self.available() < 4 {
            return Err(self.seek_end_of_input());
        }
        Ok(read_le_u32(self.take(4)))
    }

    pub fn read_i32(&mut self) -> (r: Result<i32>)
        ensures
            old(self).remaining().len() >= 4 ==> (r matches Ok(v) && v == signed32(
                le32(old(self).remaining(), 0),
            ) && old(self).advanced(final(self), 4)),
            old(self).remaining().len() < 4 ==> (r matches Err(Error::Io(_)) && final(self).bytes() == old(self).bytes()
                && final(self).pos() == old(self).bytes().len()),
    {
        if self.available() < 4 {
            return Err(self.seek_end_of_input());
        }
        Ok(read_le_i32(self.take(4)))
    }

    /// Fills `buf` from the cursor, as `std::io::Read::read_exact` does.
    pub fn read_exact(&mut self, buf: &mut [u8]) -> (r: Result<()>)
        ensures
            final(buf)@.len() == old(buf)@.len(),
            old(self).remaining().len() >= old(buf)@.len() ==> r is Ok && final(buf)@ == old(
                self,
            ).remaining().take(old(buf)@.len() as int) && old(self).advanced(
                final(self),
                old(buf)@.len() as int,
            ),
            old(self).remaining().len() < old(buf)@.len() ==> (r matches Err(Error::Io(_)) && final(self).bytes() == old(self).bytes()
                && final(self).pos() == old(self).bytes().len()),
    {
        let n = buf.len();
        if self.available() < n {
            return Err(self.seek_end_of_input());
        }
        let src = self.take(n);
        let mut i: usize = 0;
        while i < n
            invariant
                n == buf@.len(),
                n == src@.len(),
                i <= n,
                forall|k: int| 0 <= k < i ==> buf@[k] == src@[k],
            decreases n - i,
        {
            buf[i] = src[i];
            i = i + 1;
        }
        assert(buf@ =~= src@);
        Ok(())
    }
}

} // verus!
