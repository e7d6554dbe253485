//! The byte cursor that the header walker reads a capture through.
//!
//! [`Cursor`] is a bounds-checked, forward-only reader over a slice of bytes.
//! It keeps its position in a [`frombytes::Bytes`]. This module states what
//! the operations of that type do, over two names: the bytes it runs over and
//! its current position. Those statements, on the functions marked
//! `external_body`, are believed, not proved; everything else is proved from
//! them.

use frombytes::Bytes;
use vstd::prelude::*;
use vstd::slice::slice_subrange;

verus! {

#[verifier::external_type_specification]
#[verifier::external_body]
pub struct ExBytes<'a>(frombytes::Bytes<'a>);

/// The bytes that a cursor runs over, from the start of the buffer.
pub uninterp spec fn cursor_data(cursor: Bytes) -> Seq<u8>;

/// The offset of the next byte that a cursor will read.
pub uninterp spec fn cursor_pos(cursor: Bytes) -> nat;

/// The `size` bytes of `data` that start at offset `start`.
pub open spec fn span(data: Seq<u8>, start: nat, size: nat) -> Seq<u8>
    recommends
        start + size <= data.len(),
{
    data.subrange(start as int, (start + size) as int)
}

/// The value of two bytes read as a little-endian integer.
pub open spec fn le_u16(s: Seq<u8>) -> int
    recommends
        s.len() == 2,
{
    s[0] + s[1] * 0x100
}

/// The value of four bytes read as a little-endian integer.
pub open spec fn le_u32(s: Seq<u8>) -> int
    recommends
        s.len() == 4,
{
    s[0] + s[1] * 0x100 + s[2] * 0x1_0000 + s[3] * 0x100_0000
}

/// The value of eight bytes read as a little-endian integer.
pub open spec fn le_u64(s: Seq<u8>) -> int
    recommends
        s.len() == 8,
{
    le_u32(s.subrange(0, 4)) + le_u32(s.subrange(4, 8)) * 0x1_0000_0000
}

/// The least multiple of `align` that is not below `pos`.
pub open spec fn align_up(pos: nat, align: nat) -> nat
    recommends
        align > 0,
{
    (((pos + align - 1) / (align as int)) * align) as nat
}

/// Whether `align` is an alignment that the cursor accepts.
pub open spec fn valid_align(align: usize) -> bool {
    align == 1 || align == 2 || align == 4 || align == 8 || align == 16
}

/// The value of a byte read as a signed integer in two's complement.
pub open spec fn signed_u8(b: u8) -> int {
    if b < 128 {
        b as int
    } else {
        b - 256
    }
}

/// Reads the two bytes at `at` as a little-endian integer.
pub fn u16_le(bytes: &[u8], at: usize) -> (r: u16)
    requires
        at + 2 <= bytes.len(),
    ensures
        r == le_u16(span(bytes@, at as nat, 2)),
{
    let b0: u16 = bytes[at] as u16;
    let b1: u16 = bytes[at + 1] as u16;
    b0 + b1 * 0x100
}

/// Reads the four bytes at `at` as a little-endian integer.
pub fn u32_le(bytes: &[u8], at: usize) -> (r: u32)
    requires
        at + 4 <= bytes.len(),
    ensures
        r == le_u32(span(bytes@, at as nat, 4)),
{
    let b0: u32 = bytes[at] as u32;
    let b1: u32 = bytes[at + 1] as u32;
    let b2: u32 = bytes[at + 2] as u32;
    let b3: u32 = bytes[at + 3] as u32;
    b0 + b1 * 0x100 + b2 * 0x1_0000 + b3 * 0x100_0000
}

/// Reads the eight bytes at `at` as a little-endian integer.
pub fn u64_le(bytes: &[u8], at: usize) -> (r: u64)
    requires
        at + 8 <= bytes.len(),
    ensures
        r == le_u64(span(bytes@, at as nat, 8)),
{
    let low: u64 = u32_le(bytes, at) as u64;
    let high: u64 = u32_le(bytes, at + 4) as u64;
    proof {
        let s = span(bytes@, at as nat, 8);
        assert(s.subrange(0, 4) =~= span(bytes@, at as nat, 4));
        assert(s.subrange(4, 8) =~= span(bytes@, (at + 4) as nat, 4));
    }
    low + high * 0x1_0000_0000
}

/// Reads a byte as a signed integer in two's complement.
pub fn i8_of(b: u8) -> (r: i8)
    ensures
        r == signed_u8(b),
{
    if b < 128 {
        b as i8
    } else {
        (b as i16 - 256) as i8
    }
}

/// `Bytes::from_slice`: the new cursor runs over exactly the given bytes and
/// stands at their start. A slice never holds more than `isize::MAX` bytes.
#[verifier::external_body]
fn cursor_new<'a>(bytes: &'a [u8]) -> (cursor: Bytes<'a>)
    ensures
        cursor_data(cursor) == bytes@,
        cursor_pos(cursor) == 0,
        cursor_data(cursor).len() <= isize::MAX,
{
    Bytes::from_slice(bytes)
}

/// `Bytes::position`: the current position.
#[verifier::external_body]
fn cursor_position(cursor: &Bytes) -> (pos: usize)
    ensures
        pos == cursor_pos(*cursor),
{
    cursor.position()
}

/// `Bytes::advance`: moves the position forward by `size` if that many
/// bytes remain, and otherwise fails and leaves the cursor as it was. The
/// result says whether it moved.
#[verifier::external_body]
fn cursor_advance(cursor: &mut Bytes, size: usize) -> (moved: bool)
    requires
        cursor_pos(*old(cursor)) + size <= usize::MAX,
    ensures
        cursor_data(*final(cursor)) == cursor_data(*old(cursor)),
        moved <==> cursor_pos(*old(cursor)) + size <= cursor_data(*old(cursor)).len(),
        moved ==> cursor_pos(*final(cursor)) == cursor_pos(*old(cursor)) + size,
        !moved ==> cursor_pos(*final(cursor)) == cursor_pos(*old(cursor)),
{
    cursor.advance(size).is_ok()
}

/// `Bytes::align`: moves the position up to the next multiple of `align`
/// if that still lies within the bytes, and otherwise fails and leaves the
/// cursor as it was. The result says whether it succeeded. The outside
/// function panics on an alignment other than 1, 2, 4, 8 or 16.
#[verifier::external_body]
fn cursor_align(cursor: &mut Bytes, align: usize) -> (aligned: bool)
    requires
        valid_align(align),
        cursor_pos(*old(cursor)) + align <= usize::MAX,
    ensures
        cursor_data(*final(cursor)) == cursor_data(*old(cursor)),
        aligned <==> align_up(cursor_pos(*old(cursor)), align as nat) <= cursor_data(
            *old(cursor),
        ).len(),
        aligned ==> cursor_pos(*final(cursor)) == align_up(
            cursor_pos(*old(cursor)),
            align as nat,
        ),
        !aligned ==> cursor_pos(*final(cursor)) == cursor_pos(*old(cursor)),
{
    cursor.align(align).is_ok()
}

/// `Bytes::read::<u8>`: hands out the byte at the position and steps over
/// it, or fails at the end of the bytes and leaves the cursor as it was.
#[verifier::external_body]
fn cursor_read_u8(cursor: &mut Bytes) -> (r: Option<u8>)
    ensures
        cursor_data(*final(cursor)) == cursor_data(*old(cursor)),
        r.is_some() <==> cursor_pos(*old(cursor)) + 1 <= cursor_data(*old(cursor)).len(),
        r.is_some() ==> cursor_pos(*final(cursor)) == cursor_pos(*old(cursor)) + 1 && r.unwrap()
            == cursor_data(*old(cursor))[cursor_pos(*old(cursor)) as int],
        r.is_none() ==> cursor_pos(*final(cursor)) == cursor_pos(*old(cursor)),
{
    cursor.read::<u8>().ok()
}

/// `Bytes::read::<u16>`: hands out the next two bytes as a little-endian
/// integer and steps over them, or fails where fewer than two remain and
/// leaves the cursor as it was.
#[verifier::external_body]
fn cursor_read_u16(cursor: &mut Bytes) -> (r: Option<u16>)
    ensures
        cursor_data(*final(cursor)) == cursor_data(*old(cursor)),
        r.is_some() <==> cursor_pos(*old(cursor)) + 2 <= cursor_data(*old(cursor)).len(),
        r.is_some() ==> cursor_pos(*final(cursor)) == cursor_pos(*old(cursor)) + 2 && r.unwrap()
            == le_u16(span(cursor_data(*old(cursor)), cursor_pos(*old(cursor)), 2)),
        r.is_none() ==> cursor_pos(*final(cursor)) == cursor_pos(*old(cursor)),
{
    cursor.read::<u16>().ok()
}

/// `Bytes::read::<u32>`: hands out the next four bytes as a little-endian
/// integer and steps over them, or fails where fewer than four remain and
/// leaves the cursor as it was.
#[verifier::external_body]
fn cursor_read_u32(cursor: &mut Bytes) -> (r: Option<u32>)
    ensures
        cursor_data(*final(cursor)) == cursor_data(*old(cursor)),
        r.is_some() <==> cursor_pos(*old(cursor)) + 4 <= cursor_data(*old(cursor)).len(),
        r.is_some() ==> cursor_pos(*final(cursor)) == cursor_pos(*old(cursor)) + 4 && r.unwrap()
            == le_u32(span(cursor_data(*old(cursor)), cursor_pos(*old(cursor)), 4)),
        r.is_none() ==> cursor_pos(*final(cursor)) == cursor_pos(*old(cursor)),
{
    cursor.read::<u32>().ok()
}

/// A cursor position rounded up to an alignment is a multiple of that
/// alignment, is not below the position, and is less than one alignment
/// above it.
pub proof fn lemma_align_up(pos: nat, align: nat)
    requires
        align > 0,
    ensures
        align_up(pos, align) % align == 0,
        pos <= align_up(pos, align) < pos + align,
        pos % align == 0 ==> align_up(pos, align) == pos,
{
    let q = (pos + align - 1) / (align as int);
    assert(q * align % (align as int) == 0) by (nonlinear_arith)
        requires
            align > 0,
    ;
    assert(q * align <= pos + align - 1 < q * align + align) by (nonlinear_arith)
        requires
            align > 0,
            q == (pos + align - 1) / (align as int),
    ;
    if pos % align == 0 {
        assert(q * align == pos) by (nonlinear_arith)
            requires
                align > 0,
                pos % align == 0,
                q * align <= pos + align - 1 < q * align + align,
                q * align % (align as int) == 0,
        ;
    }
}

/// The error of a cursor: fewer bytes remain than were asked for.
#[derive(Debug, Clone, Copy, PartialEq, Eq, Structural)]
pub struct IncompleteData;

/// A cursor over a slice of bytes.
#[derive(Debug)]
pub struct Cursor<'a> {
    /// The bytes.
    raw: &'a [u8],
    /// The position in the bytes.
    inner: Bytes<'a>,
}

impl<'a> Cursor<'a> {
    /// What holds of every cursor: it stands within its bytes or at their
    /// end.
    pub closed spec fn wf(&self) -> bool {
        &&& self.raw@ == cursor_data(self.inner)
        &&& cursor_pos(self.inner) <= self.raw@.len()
        &&& self.raw@.len() <= isize::MAX
    }

    /// The bytes that the cursor runs over.
    pub closed spec fn data(&self) -> Seq<u8> {
        self.raw@
    }

    /// The offset in the bytes at which the cursor stands.
    pub closed spec fn offset(&self) -> nat {
        cursor_pos(self.inner)
    }

    /// A cursor stands within its bytes or at their end.
    pub proof fn lemma_in_bounds(&self)
        requires
            self.wf(),
        ensures
            self.offset() <= self.data().len() <= isize::MAX,
    {
    }

    /// Returns a new cursor at the start of the bytes.
    pub fn new(bytes: &'a [u8]) -> (r: Cursor<'a>)
        ensures
            r.wf(),
            r.data() == bytes@,
            r.offset() == 0,
    {
        Cursor { raw: bytes, inner: cursor_new(bytes) }
    }

    /// Returns the offset in the bytes at which the cursor stands.
    pub fn pos(&self) -> (r: usize)
        requires
            self.wf(),
        ensures
            r == self.offset(),
    {
        cursor_position(&self.inner)
    }

    /// Moves the cursor forward by `size` bytes. Fails, and leaves the
    /// cursor where it is, if fewer than `size` bytes remain.
    pub fn advance(&mut self, size: usize) -> (r: Result<(), IncompleteData>)
        requires
            old(self).wf(),
        ensures
            final(self).wf(),
            final(self).data() == old(self).data(),
            r.is_ok() <==> old(self).offset() + size <= old(self).data().len(),
            final(self).offset() == old(self).offset() + (if r.is_ok() {
                size as nat
            } else {
                0
            }),
    {
        let pos = cursor_position(&self.inner);
        if size > usize::MAX - pos {
            return Err(IncompleteData);
        }
        if cursor_advance(&mut self.inner, size) {
            Ok(())
        } else {
            Err(IncompleteData)
        }
    }

    /// Moves the cursor up to the next multiple of `align`, and not at all
    /// if it stands at one. Fails, and leaves the cursor where it is, if
    /// that multiple lies past the end of the bytes.
    pub fn align(&mut self, align: usize) -> (r: Result<(), IncompleteData>)
        requires
            old(self).wf(),
            valid_align(align),
        ensures
            final(self).wf(),
            final(self).data() == old(self).data(),
            r.is_ok() <==> align_up(old(self).offset(), align as nat) <= old(self).data().len(),
            final(self).offset() == if r.is_ok() {
                align_up(old(self).offset(), align as nat)
            } else {
                old(self).offset()
            },
            r.is_ok() ==> final(self).offset() % (align as nat) == 0,
            old(self).offset() <= final(self).offset() < old(self).offset() + align,
            old(self).offset() % (align as nat) == 0 ==> r.is_ok() && final(self).offset() == old(
                self,
            ).offset(),
    {
        proof {
            lemma_align_up(cursor_pos(self.inner), align as nat);
        }
        if cursor_align(&mut self.inner, align) {
            Ok(())
        } else {
            Err(IncompleteData)
        }
    }

    /// Returns the `size` bytes at the cursor without moving it. Fails if
    /// fewer than `size` bytes remain.
    pub fn slice_peek(&self, size: usize) -> (r: Result<&'a [u8], IncompleteData>)
        requires
            self.wf(),
        ensures
            r.is_ok() <==> self.offset() + size <= self.data().len(),
            r matches Ok(bytes) ==> bytes@ == span(self.data(), self.offset(), size as nat),
    {
        let pos = cursor_position(&self.inner);
        if size > self.raw.len() - pos {
            return Err(IncompleteData);
        }
        Ok(slice_subrange(self.raw, pos, pos + size))
    }

    /// Returns the `size` bytes at the cursor and moves it past them. Fails,
    /// and leaves the cursor where it is, if fewer than `size` bytes remain.
    pub fn read_fixed(&mut self, size: usize) -> (r: Result<&'a [u8], IncompleteData>)
        requires
            old(self).wf(),
        ensures
            final(self).wf(),
            final(self).data() == old(self).data(),
            r.is_ok() <==> old(self).offset() + size <= old(self).data().len(),
            r matches Ok(bytes) ==> bytes@ == span(
                old(self).data(),
                old(self).offset(),
                size as nat,
            ),
            final(self).offset() == old(self).offset() + (if r.is_ok() {
                size as nat
            } else {
                0
            }),
    {
        let start = cursor_position(&self.inner);
        match self.advance(size) {
            Ok(()) => Ok(slice_subrange(self.raw, start, start + size)),
            Err(e) => Err(e),
        }
    }

    /// Reads the byte at the cursor and moves past it. Fails, and leaves the
    /// cursor where it is, at the end of the bytes.
    pub fn read_u8(&mut self) -> (r: Result<u8, IncompleteData>)
        requires
            old(self).wf(),
        ensures
            final(self).wf(),
            final(self).data() == old(self).data(),
            r.is_ok() <==> old(self).offset() + 1 <= old(self).data().len(),
            r matches Ok(value) ==> value == old(self).data()[old(self).offset() as int],
            final(self).offset() == old(self).offset() + (if r.is_ok() {
                1nat
            } else {
                0
            }),
    {
        match cursor_read_u8(&mut self.inner) {
            Some(value) => Ok(value),
            None => Err(IncompleteData),
        }
    }

    /// Reads the two bytes at the cursor as a little-endian integer and
    /// moves past them. Fails, and leaves the cursor where it is, if fewer
    /// than two bytes remain.
    pub fn read_u16(&mut self) -> (r: Result<u16, IncompleteData>)
        requires
            old(self).wf(),
        ensures
            final(self).wf(),
            final(self).data() == old(self).data(),
            r.is_ok() <==> old(self).offset() + 2 <= old(self).data().len(),
            r matches Ok(value) ==> value == le_u16(span(old(self).data(), old(self).offset(), 2)),
            final(self).offset() == old(self).offset() + (if r.is_ok() {
                2nat
            } else {
                0
            }),
    {
        match cursor_read_u16(&mut self.inner) {
            Some(value) => Ok(value),
            None => Err(IncompleteData),
        }
    }

    /// Reads the four bytes at the cursor as a little-endian integer and
    /// moves past them. Fails, and leaves the cursor where it is, if fewer
    /// than four bytes remain.
    pub fn read_u32(&mut self) -> (r: Result<u32, IncompleteData>)
        requires
            old(self).wf(),
        ensures
            final(self).wf(),
            final(self).data() == old(self).data(),
            r.is_ok() <==> old(self).offset() + 4 <= old(self).data().len(),
            r matches Ok(value) ==> value == le_u32(span(old(self).data(), old(self).offset(), 4)),
            final(self).offset() == old(self).offset() + (if r.is_ok() {
                4nat
            } else {
                0
            }),
    {
        match cursor_read_u32(&mut self.inner) {
            Some(value) => Ok(value),
            None => Err(IncompleteData),
        }
    }
}

} // verus!
