use vstd::prelude::*;

verus! {

/// `std::io::Error`, carried through as it comes.
#[verifier::external_type_specification]
#[verifier::external_body]
pub struct ExIoError(std::io::Error);

/// `std::io::SeekFrom`, with its three variants.
#[verifier::external_type_specification]
pub struct ExSeekFrom(std::io::SeekFrom);

/// A reader over bytes in memory, with a position that can be moved.
pub struct SliceReader<'a> {
    slice: &'a [u8],
    position: usize,
}

/// The position that a seek to `target` ends at in data of length `len`:
/// `target` itself, brought back into `0..=len`.
pub open spec fn clamped(target: int, len: int) -> int {
    if target < 0 {
        0
    } else if target > len {
        len
    } else {
        target
    }
}

/// The position that a seek aims at, before it is brought into range.
pub open spec fn seek_target(pos: std::io::SeekFrom, position: int, len: int) -> int {
    match pos {
        std::io::SeekFrom::Start(n) => n as int,
        std::io::SeekFrom::End(n) => len + n,
        std::io::SeekFrom::Current(n) => position + n,
    }
}

impl<'a> SliceReader<'a> {
    /// The position never lies behind the end of the data.
    #[verifier::type_invariant]
    spec fn in_range(&self) -> bool {
        self.position <= self.slice@.len()
    }

    /// All the bytes that the reader was made over.
    pub closed spec fn data(&self) -> Seq<u8> {
        self.slice@
    }

    /// How many bytes lie before the position.
    pub closed spec fn position(&self) -> nat {
        self.position as nat
    }

    /// The bytes from the position to the end.
    pub open spec fn remaining(&self) -> Seq<u8> {
        self.data().skip(self.position() as int)
    }

    /// A reader at the start of `slice`.
    pub fn new(slice: &'a [u8]) -> (reader: Self)
        ensures
            reader.data() == slice@,
            reader.position() == 0,
    {
        Self { slice, position: 0 }
    }
}

impl std::io::Read for SliceReader<'_> {
    /// Copy as many of the remaining bytes as fit to the front of `buf`, and
    /// move the position behind them. Never fails.
    fn read(&mut self, buf: &mut [u8]) -> (outcome: std::io::Result<usize>)
        ensures
            final(self).data() == old(self).data(),
            old(self).position() <= old(self).data().len(),
            outcome matches Ok(n) && {
                &&& n == if old(buf)@.len() <= old(self).remaining().len() {
                    old(buf)@.len()
                } else {
                    old(self).remaining().len()
                }
                &&& final(self).position() == old(self).position() + n
                &&& final(buf)@ == old(self).remaining().take(n as int) + old(buf)@.skip(n as int)
            },
    {
        proof {
            use_type_invariant(&*self);
        }
        let len: usize = self.slice.len();
        let left: usize = len - self.position;
        let n: usize = if buf.len() <= left {
            buf.len()
        } else {
            left
        };
        let mut i: usize = 0;
        while i < n
            invariant
                i <= n,
                n <= buf@.len(),
                buf@.len() == old(buf)@.len(),
                len == self.slice@.len(),
                self.position + n <= len,
                self.slice == old(self).slice,
                self.position == old(self).position,
                buf@ == old(self).remaining().take(i as int) + old(buf)@.skip(i as int),
            decreases n - i,
        {
            buf[i] = self.slice[self.position + i];
            i += 1;
        }
        self.position += n;
        Ok(n)
    }
}

impl std::io::Seek for SliceReader<'_> {
    /// Move the position to where `pos` aims, brought back into the data: a
    /// target before the start ends at the start, one behind the end at the
    /// end. Returns the new position. Never fails.
    fn seek(&mut self, pos: std::io::SeekFrom) -> (outcome: std::io::Result<u64>)
        ensures
            final(self).data() == old(self).data(),
            final(self).position() == clamped(
                seek_target(pos, old(self).position() as int, old(self).data().len() as int),
                old(self).data().len() as int,
            ),
            outcome matches Ok(reached) && reached == final(self).position(),
    {
        proof {
            use_type_invariant(&*self);
        }
        let len: usize = self.slice.len();
        let target: i128 = match pos {
            std::io::SeekFrom::Start(n) => n as i128,
            std::io::SeekFrom::End(n) => len as i128 + n as i128,
            std::io::SeekFrom::Current(n) => self.position as i128 + n as i128,
        };
        if target < 0 {
            self.position = 0;
        } else if target > len as i128 {
            self.position = len;
        } else {
            self.position = target as usize;
        }
        Ok(self.position as u64)
    }
}

} // verus!
