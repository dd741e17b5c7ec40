//! Non-empty bytes as ASCII text.

use vstd::prelude::*;
use vstd::slice::slice_subrange;

use crate::mut_slice::NonEmptyMutBytes;
use crate::slice::NonEmptyBytes;

verus! {

/// Whether the byte is within the ASCII range.
pub open spec fn is_ascii_byte(byte: u8) -> bool {
    byte <= 0x7f
}

/// Whether the byte is ASCII whitespace: space, horizontal tab, line feed, form feed
/// or carriage return.
pub open spec fn is_ascii_whitespace(byte: u8) -> bool {
    byte == 0x20 || byte == 0x09 || byte == 0x0a || byte == 0x0c || byte == 0x0d
}

/// The ASCII lower case equivalent of the byte: the letters `A` to `Z` become `a` to `z`,
/// every other byte stays.
pub open spec fn ascii_lowercase(byte: u8) -> u8 {
    if 0x41 <= byte <= 0x5a {
        (byte + 0x20) as u8
    } else {
        byte
    }
}

/// The ASCII upper case equivalent of the byte: the letters `a` to `z` become `A` to `Z`,
/// every other byte stays.
pub open spec fn ascii_uppercase(byte: u8) -> u8 {
    if 0x61 <= byte <= 0x7a {
        (byte - 0x20) as u8
    } else {
        byte
    }
}

/// The lower case hexadecimal digit of the value, which is below sixteen.
pub open spec fn hex_digit(value: u8) -> u8 {
    if value < 10 {
        (0x30 + value) as u8
    } else {
        (0x61 + value - 10) as u8
    }
}

/// The escaped form of the byte as ASCII text: tab, carriage return, line feed, the two
/// quotes and the backslash are written behind a backslash as `t`, `r`, `n` or themselves,
/// the other printable bytes stay, and every other byte is written as `\x` and its two
/// hexadecimal digits.
pub open spec fn escaped_byte(byte: u8) -> Seq<u8> {
    if byte == 0x09 {
        seq![0x5cu8, 0x74u8]
    } else if byte == 0x0d {
        seq![0x5cu8, 0x72u8]
    } else if byte == 0x0a {
        seq![0x5cu8, 0x6eu8]
    } else if byte == 0x27 || byte == 0x22 || byte == 0x5c {
        seq![0x5cu8, byte]
    } else if 0x20 <= byte <= 0x7e {
        seq![byte]
    } else {
        seq![0x5cu8, 0x78u8, hex_digit(byte / 16), hex_digit(byte % 16)]
    }
}

/// The escaped form of the bytes: the escaped forms of each byte, one behind the other.
pub open spec fn escaped(bytes: Seq<u8>) -> Seq<u8> {
    bytes.map_values(|byte: u8| escaped_byte(byte)).flatten()
}

/// The number of leading bytes of ASCII whitespace.
pub open spec fn leading_whitespace(bytes: Seq<u8>) -> nat
    decreases bytes.len(),
{
    if bytes.len() > 0 && is_ascii_whitespace(bytes.first()) {
        1 + leading_whitespace(bytes.drop_first())
    } else {
        0
    }
}

/// The number of trailing bytes of ASCII whitespace.
pub open spec fn trailing_whitespace(bytes: Seq<u8>) -> nat
    decreases bytes.len(),
{
    if bytes.len() > 0 && is_ascii_whitespace(bytes.last()) {
        1 + trailing_whitespace(bytes.drop_last())
    } else {
        0
    }
}

/// The bytes without their leading ASCII whitespace.
pub open spec fn trimmed_start(bytes: Seq<u8>) -> Seq<u8> {
    bytes.skip(leading_whitespace(bytes) as int)
}

/// The bytes without their trailing ASCII whitespace.
pub open spec fn trimmed_end(bytes: Seq<u8>) -> Seq<u8> {
    bytes.take(bytes.len() - trailing_whitespace(bytes))
}

/// A prefix of whitespace that is followed by no more whitespace is the leading whitespace.
pub proof fn lemma_leading_whitespace_is(bytes: Seq<u8>, count: int)
    requires
        0 <= count <= bytes.len(),
        forall|i: int| 0 <= i < count ==> is_ascii_whitespace(#[trigger] bytes[i]),
        count < bytes.len() ==> !is_ascii_whitespace(bytes[count]),
    ensures
        leading_whitespace(bytes) == count,
    decreases bytes.len(),
{
    if count > 0 {
        let rest = bytes.drop_first();
        assert(is_ascii_whitespace(bytes[0]));
        assert forall|i: int| 0 <= i < count - 1 implies is_ascii_whitespace(
            #[trigger] rest[i],
        ) by {
            assert(rest[i] == bytes[i + 1]);
        }
        lemma_leading_whitespace_is(rest, count - 1);
    }
}

/// A suffix of whitespace that follows no more whitespace is the trailing whitespace.
pub proof fn lemma_trailing_whitespace_is(bytes: Seq<u8>, count: int)
    requires
        0 <= count <= bytes.len(),
        forall|i: int| bytes.len() - count <= i < bytes.len() ==> is_ascii_whitespace(
            #[trigger] bytes[i],
        ),
        count < bytes.len() ==> !is_ascii_whitespace(bytes[bytes.len() - count - 1]),
    ensures
        trailing_whitespace(bytes) == count,
    decreases bytes.len(),
{
    if count > 0 {
        let rest = bytes.drop_last();
        assert(is_ascii_whitespace(bytes[bytes.len() - 1]));
        assert forall|i: int|
            rest.len() - (count - 1) <= i < rest.len() implies is_ascii_whitespace(
            #[trigger] rest[i],
        ) by {
            assert(rest[i] == bytes[i]);
        }
        lemma_trailing_whitespace_is(rest, count - 1);
    }
}

/// Returns whether the byte is ASCII whitespace.
fn byte_is_ascii_whitespace(byte: u8) -> (whitespace: bool)
    ensures
        whitespace == is_ascii_whitespace(byte),
{
    byte == 0x20 || byte == 0x09 || byte == 0x0a || byte == 0x0c || byte == 0x0d
}

/// Returns the ASCII lower case equivalent of the byte.
fn byte_to_ascii_lowercase(byte: u8) -> (lower: u8)
    ensures
        lower == ascii_lowercase(byte),
{
    if 0x41 <= byte && byte <= 0x5a {
        byte + 0x20
    } else {
        byte
    }
}

/// Returns the ASCII upper case equivalent of the byte.
fn byte_to_ascii_uppercase(byte: u8) -> (upper: u8)
    ensures
        upper == ascii_uppercase(byte),
{
    if 0x61 <= byte && byte <= 0x7a {
        byte - 0x20
    } else {
        byte
    }
}

/// Returns the bytes without their leading ASCII whitespace.
fn trim_start(bytes: &[u8]) -> (trimmed: &[u8])
    ensures
        trimmed@ == trimmed_start(bytes@),
{
    let len = bytes.len();
    let mut start: usize = 0;
    while start < len && byte_is_ascii_whitespace(bytes[start])
        invariant
            len == bytes@.len(),
            start <= len,
            forall|i: int| 0 <= i < start ==> is_ascii_whitespace(#[trigger] bytes@[i]),
        decreases len - start,
    {
        start = start + 1;
    }
    proof {
        lemma_leading_whitespace_is(bytes@, start as int);
    }
    slice_subrange(bytes, start, len)
}

/// Returns the bytes without their trailing ASCII whitespace.
fn trim_end(bytes: &[u8]) -> (trimmed: &[u8])
    ensures
        trimmed@ == trimmed_end(bytes@),
{
    let len = bytes.len();
    let mut end: usize = len;
    while end > 0 && byte_is_ascii_whitespace(bytes[end - 1])
        invariant
            len == bytes@.len(),
            end <= len,
            forall|i: int| end <= i < len ==> is_ascii_whitespace(#[trigger] bytes@[i]),
        decreases end,
    {
        end = end - 1;
    }
    proof {
        lemma_trailing_whitespace_is(bytes@, len - end);
    }
    slice_subrange(bytes, 0, end)
}

impl<'a> NonEmptyBytes<'a> {
    /// Checks if all bytes in the slice are within the ASCII range.
    pub fn is_ascii(&self) -> (ascii: bool)
        ensures
            ascii <==> forall|i: int| 0 <= i < self@.len() ==> is_ascii_byte(#[trigger] self@[i]),
    {
        let bytes = self.as_slice();
        let mut index: usize = 0;
        while index < bytes.len()
            invariant
                index <= bytes@.len(),
                bytes@ == self@,
                forall|i: int| 0 <= i < index ==> is_ascii_byte(#[trigger] bytes@[i]),
            decreases bytes@.len() - index,
        {
            if bytes[index] > 0x7f {
                assert(!is_ascii_byte(self@[index as int]));
                return false;
            }
            index = index + 1;
        }
        true
    }

    /// Checks that the two slices are ASCII case-insensitively equal: they are of the same
    /// length, and byte for byte their ASCII lower case equivalents are the same.
    pub fn eq_ignore_ascii_case(&self, other: &Self) -> (equal: bool)
        ensures
            equal <==> self@.len() == other@.len() && forall|i: int|
                0 <= i < self@.len() ==> ascii_lowercase(#[trigger] self@[i]) == ascii_lowercase(
                    other@[i],
                ),
    {
        let left = self.as_slice();
        let right = other.as_slice();
        if left.len() != right.len() {
            return false;
        }
        let mut index: usize = 0;
        while index < left.len()
            invariant
                index <= left@.len(),
                left@ == self@,
                right@ == other@,
                left@.len() == right@.len(),
                forall|i: int|
                    0 <= i < index ==> ascii_lowercase(#[trigger] left@[i]) == ascii_lowercase(
                        right@[i],
                    ),
            decreases left@.len() - index,
        {
            if byte_to_ascii_lowercase(left[index]) != byte_to_ascii_lowercase(right[index]) {
                assert(ascii_lowercase(self@[index as int]) != ascii_lowercase(
                    other@[index as int],
                ));
                return false;
            }
            index = index + 1;
        }
        true
    }

    /// Returns new slice with leading ASCII whitespace bytes removed.
    pub fn trim_ascii_start(&self) -> (trimmed: &'a [u8])
        ensures
            trimmed@ == trimmed_start(self@),
    {
        trim_start(self.as_slice())
    }

    /// Returns new slice with trailing ASCII whitespace bytes removed.
    pub fn trim_ascii_end(&self) -> (trimmed: &'a [u8])
        ensures
            trimmed@ == trimmed_end(self@),
    {
        trim_end(self.as_slice())
    }

    /// Returns new slice with leading and trailing ASCII whitespace bytes removed.
    pub fn trim_ascii(&self) -> (trimmed: &'a [u8])
        ensures
            trimmed@ == trimmed_end(trimmed_start(self@)),
    {
        trim_end(trim_start(self.as_slice()))
    }
}

impl<'a> NonEmptyMutBytes<'a> {
    /// Converts the slice to its ASCII upper case equivalent in-place.
    pub fn make_ascii_uppercase(&mut self)
        requires
            old(self).inv(),
        ensures
            final(self).inv(),
            final(self)@ == old(self)@.map_values(|byte: u8| ascii_uppercase(byte)),
            final(final(self).inner)@ == final(old(self).inner)@,
    {
        let len = self.inner.len();
        let mut index: usize = 0;
        while index < len
            invariant
                index <= len,
                len == old(self)@.len(),
                self.inner@.len() == len,
                forall|i: int| 0 <= i < index ==> self.inner@[i] == ascii_uppercase(old(self)@[i]),
                forall|i: int| index <= i < len ==> self.inner@[i] == old(self)@[i],
                final(self.inner)@ == final(old(self).inner)@,
            decreases len - index,
        {
            let upper = byte_to_ascii_uppercase(self.inner[index]);
            self.inner[index] = upper;
            index = index + 1;
        }
        assert(self.inner@ =~= old(self)@.map_values(|byte: u8| ascii_uppercase(byte)));
    }

    /// Converts the slice to its ASCII lower case equivalent in-place.
    pub fn make_ascii_lowercase(&mut self)
        requires
            old(self).inv(),
        ensures
            final(self).inv(),
            final(self)@ == old(self)@.map_values(|byte: u8| ascii_lowercase(byte)),
            final(final(self).inner)@ == final(old(self).inner)@,
    {
        let len = self.inner.len();
        let mut index: usize = 0;
        while index < len
            invariant
                index <= len,
                len == old(self)@.len(),
                self.inner@.len() == len,
                forall|i: int| 0 <= i < index ==> self.inner@[i] == ascii_lowercase(old(self)@[i]),
                forall|i: int| index <= i < len ==> self.inner@[i] == old(self)@[i],
                final(self.inner)@ == final(old(self).inner)@,
            decreases len - index,
        {
            let lower = byte_to_ascii_lowercase(self.inner[index]);
            self.inner[index] = lower;
            index = index + 1;
        }
        assert(self.inner@ =~= old(self)@.map_values(|byte: u8| ascii_lowercase(byte)));
    }
}

} // verus!
