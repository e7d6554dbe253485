use radiotap::bytes::{i8_of, u16_le, u32_le, u64_le, Cursor, IncompleteData};

#[test]
fn cursor_reads_little_endian() {
    let bytes = [0x01, 0xfb, 0xfa, 0x78, 0x56, 0x34, 0x12, 0xff];
    let mut cursor = Cursor::new(&bytes);
    assert_eq!(cursor.pos(), 0);
    assert_eq!(cursor.read_u8(), Ok(0x01));
    assert_eq!(cursor.pos(), 1);
    assert_eq!(cursor.read_u16(), Ok(0xfafb));
    assert_eq!(cursor.pos(), 3);
    assert_eq!(cursor.read_u32(), Ok(0x12345678));
    assert_eq!(cursor.pos(), 7);
    // one byte is left
    assert_eq!(cursor.read_u32(), Err(IncompleteData));
    assert_eq!(cursor.pos(), 7);
    assert_eq!(cursor.read_u16(), Err(IncompleteData));
    assert_eq!(cursor.pos(), 7);
    assert_eq!(cursor.read_u8(), Ok(0xff));
    assert_eq!(cursor.pos(), 8);
    assert_eq!(cursor.read_u8(), Err(IncompleteData));
    assert_eq!(cursor.pos(), 8);
}

#[test]
fn cursor_advance() {
    let bytes = [0u8; 5];
    let mut cursor = Cursor::new(&bytes);
    assert_eq!(cursor.advance(0), Ok(()));
    assert_eq!(cursor.pos(), 0);
    assert_eq!(cursor.advance(3), Ok(()));
    assert_eq!(cursor.pos(), 3);
    assert_eq!(cursor.advance(3), Err(IncompleteData));
    assert_eq!(cursor.pos(), 3);
    assert_eq!(cursor.advance(usize::MAX), Err(IncompleteData));
    assert_eq!(cursor.pos(), 3);
    assert_eq!(cursor.advance(2), Ok(()));
    assert_eq!(cursor.pos(), 5);
    assert_eq!(cursor.advance(0), Ok(()));
    assert_eq!(cursor.advance(1), Err(IncompleteData));
    assert_eq!(cursor.pos(), 5);
}

fn aligned(len: usize, pos: usize, align: usize) -> Result<usize, IncompleteData> {
    let bytes = vec![0u8; len];
    let mut cursor = Cursor::new(&bytes);
    cursor.advance(pos).unwrap();
    let r = cursor.align(align);
    if r.is_err() {
        assert_eq!(cursor.pos(), pos);
    }
    r.map(|()| cursor.pos())
}

#[test]
fn cursor_align() {
    assert_eq!(aligned(25, 13, 1), Ok(13));
    assert_eq!(aligned(25, 13, 2), Ok(14));
    assert_eq!(aligned(25, 13, 4), Ok(16));
    assert_eq!(aligned(25, 13, 8), Ok(16));
    assert_eq!(aligned(25, 13, 16), Ok(16));
    // already aligned
    assert_eq!(aligned(25, 16, 16), Ok(16));
    assert_eq!(aligned(25, 0, 8), Ok(0));
    assert_eq!(aligned(25, 24, 8), Ok(24));
    // up to the very end
    assert_eq!(aligned(16, 9, 8), Ok(16));
    // past the end
    assert_eq!(aligned(15, 9, 8), Err(IncompleteData));
    assert_eq!(aligned(25, 25, 2), Err(IncompleteData));
    assert_eq!(aligned(25, 17, 16), Err(IncompleteData));
    assert_eq!(aligned(25, 25, 1), Ok(25));
}

#[test]
fn cursor_slices() {
    let bytes = [1u8, 2, 3, 4, 5];
    let mut cursor = Cursor::new(&bytes);
    assert_eq!(cursor.slice_peek(2), Ok(&bytes[0..2]));
    assert_eq!(cursor.pos(), 0);
    assert_eq!(cursor.read_fixed(2), Ok(&bytes[0..2]));
    assert_eq!(cursor.pos(), 2);
    assert_eq!(cursor.slice_peek(4), Err(IncompleteData));
    assert_eq!(cursor.slice_peek(usize::MAX), Err(IncompleteData));
    assert_eq!(cursor.read_fixed(4), Err(IncompleteData));
    assert_eq!(cursor.read_fixed(usize::MAX), Err(IncompleteData));
    assert_eq!(cursor.pos(), 2);
    assert_eq!(cursor.slice_peek(0), Ok(&bytes[2..2]));
    assert_eq!(cursor.slice_peek(3), Ok(&bytes[2..5]));
    assert_eq!(cursor.read_fixed(3), Ok(&bytes[2..5]));
    assert_eq!(cursor.pos(), 5);
    assert_eq!(cursor.read_fixed(0), Ok(&bytes[5..5]));
    assert_eq!(cursor.read_fixed(1), Err(IncompleteData));
}

#[test]
fn little_endian_values() {
    let bytes = [0xff, 0x11, 0x22, 0x33, 0x44, 0x55, 0x66, 0x77, 0x88, 0x99];
    assert_eq!(u16_le(&bytes, 0), 0x11ff);
    assert_eq!(u16_le(&bytes, 8), 0x9988);
    assert_eq!(u32_le(&bytes, 1), 0x44332211);
    assert_eq!(u32_le(&bytes, 6), 0x99887766);
    assert_eq!(u64_le(&bytes, 1), 0x8877665544332211);
    assert_eq!(u64_le(&bytes, 2), 0x9988776655443322);
    assert_eq!(u16_le(&[0xff, 0xff], 0), u16::MAX);
    assert_eq!(u32_le(&[0xff; 4], 0), u32::MAX);
    assert_eq!(u64_le(&[0xff; 8], 0), u64::MAX);
    assert_eq!(i8_of(0), 0);
    assert_eq!(i8_of(127), 127);
    assert_eq!(i8_of(128), -128);
    assert_eq!(i8_of(255), -1);
}
