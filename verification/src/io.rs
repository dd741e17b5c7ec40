//! Writing bytes into non-empty bytes.
//!
//! Writing never removes a byte: a vector grows by what is written, and a mutable slice
//! keeps its length.

use vstd::prelude::*;

use crate::mut_slice::NonEmptyMutBytes;
use crate::vec::NonEmptyByteVec;

verus! {

/// The number of bytes of a buffer of `len` bytes that fit into `room` bytes.
pub open spec fn written(room: nat, len: nat) -> nat {
    if len <= room {
        len
    } else {
        room
    }
}

impl NonEmptyByteVec {
    /// Appends the whole buffer to the vector and returns the number of bytes written,
    /// which is the length of the buffer.
    pub fn write(&mut self, buffer: &[u8]) -> (count: usize)
        requires
            old(self).inv(),
        ensures
            final(self).inv(),
            count == buffer@.len(),
            final(self)@ == old(self)@ + buffer@,
    {
        let vec = self.as_mut_vec();
        let mut index: usize = 0;
        while index < buffer.len()
            invariant
                index <= buffer@.len(),
                vec@ == old(self)@ + buffer@.subrange(0, index as int),
            decreases buffer@.len() - index,
        {
            vec.push(buffer[index]);
            index = index + 1;
            assert(vec@ =~= old(self)@ + buffer@.subrange(0, index as int));
        }
        assert(buffer@.subrange(0, index as int) =~= buffer@);
        index
    }
}

impl<'a> NonEmptyMutBytes<'a> {
    /// Writes the buffer over the first bytes of the slice, as far as it fits, and returns
    /// the number of bytes written. The bytes behind what was written stay.
    pub fn write(&mut self, buffer: &[u8]) -> (count: usize)
        requires
            old(self).inv(),
        ensures
            final(self).inv(),
            count == written(old(self)@.len(), buffer@.len()),
            final(self)@ == buffer@.subrange(0, count as int) + old(self)@.subrange(
                count as int,
                old(self)@.len() as int,
            ),
            final(final(self).inner)@ == final(old(self).inner)@,
    {
        let room = self.inner.len();
        let count = if buffer.len() <= room {
            buffer.len()
        } else {
            room
        };
        let mut index: usize = 0;
        while index < count
            invariant
                index <= count,
                count <= buffer@.len(),
                count <= room,
                room == old(self)@.len(),
                self.inner@.len() == room,
                self.inner@ == buffer@.subrange(0, index as int) + old(self)@.subrange(
                    index as int,
                    room as int,
                ),
                final(self.inner)@ == final(old(self).inner)@,
            decreases count - index,
        {
            self.inner[index] = buffer[index];
            index = index + 1;
            assert(self.inner@ =~= buffer@.subrange(0, index as int) + old(self)@.subrange(
                index as int,
                room as int,
            ));
        }
        count
    }

    /// Writes the whole buffer over the first bytes of the slice, if it fits, and says
    /// whether it did. A buffer that does not fit is written as far as it fits.
    pub fn write_all(&mut self, buffer: &[u8]) -> (whole: bool)
        requires
            old(self).inv(),
        ensures
            final(self).inv(),
            whole <==> buffer@.len() <= old(self)@.len(),
            final(self)@ == buffer@.subrange(
                0,
                written(old(self)@.len(), buffer@.len()) as int,
            ) + old(self)@.subrange(
                written(old(self)@.len(), buffer@.len()) as int,
                old(self)@.len() as int,
            ),
            final(final(self).inner)@ == final(old(self).inner)@,
    {
        let count = self.write(buffer);
        count == buffer.len()
    }
}

} // verus!
