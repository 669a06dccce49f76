use plugshark::tvbuff::StreamValue;
use plugshark::tvbuff::Truncated;
use plugshark::tvbuff::TvBuff;
use plugshark::tvbuff::TvBuffByteOrder;

#[test]
fn two_reads_of_u16_then_truncated() {
    let data = [0x12u8, 0x34, 0xAB, 0xCD];
    let mut cursor = TvBuff::wrap(&data, 0, TvBuffByteOrder::BigEndian);
    assert_eq!(cursor.length(), 4);
    assert_eq!(cursor.remaining(), 4);
    assert_eq!(cursor.read::<u16>(), Ok(0x1234));
    assert_eq!(cursor.remaining(), 2);
    assert_eq!(cursor.read::<u16>(), Ok(0xABCD));
    assert_eq!(cursor.remaining(), 0);
    assert_eq!(cursor.read::<u16>(), Err(Truncated { needed: 2, remaining: 0 }));
    assert_eq!(cursor.remaining(), 0);
    assert_eq!(cursor.length(), 4);
}

#[test]
fn little_endian_reads() {
    let data = [0x12u8, 0x34, 0xAB, 0xCD, 1, 2, 3, 4, 5, 6, 7, 8];
    let mut cursor = TvBuff::wrap(&data, 0, TvBuffByteOrder::LittleEndian);
    assert_eq!(cursor.read::<u16>(), Ok(0x3412));
    assert_eq!(cursor.read::<u16>(), Ok(0xCDAB));
    assert_eq!(cursor.read::<u64>(), Ok(0x0807_0605_0403_0201));
    assert_eq!(cursor.remaining(), 0);
}

#[test]
fn big_endian_reads_of_each_width() {
    let data = [0x7Fu8, 0x01, 0x02, 0x00, 0x00, 0x04, 0xD2, 1, 2, 3, 4, 5, 6, 7, 8];
    let mut cursor = TvBuff::wrap(&data, 0, TvBuffByteOrder::BigEndian);
    assert_eq!(cursor.read::<u8>(), Ok(0x7F));
    assert_eq!(cursor.read::<u16>(), Ok(0x0102));
    assert_eq!(cursor.read::<u32>(), Ok(1234));
    assert_eq!(cursor.read::<u64>(), Ok(0x0102_0304_0506_0708));
    assert_eq!(cursor.remaining(), 0);
}

#[test]
fn signed_reads_are_twos_complement() {
    let data = [0xFFu8, 0xFF, 0xFE, 0x80, 0x00, 0x00, 0x00, 0xFF, 0xFF, 0xFF, 0xFF, 0xFF, 0xFF, 0xFF, 0xFD, 0x7F];
    let mut cursor = TvBuff::wrap(&data, 0, TvBuffByteOrder::BigEndian);
    assert_eq!(cursor.read::<i8>(), Ok(-1));
    assert_eq!(cursor.read::<i16>(), Ok(-2));
    assert_eq!(cursor.read::<i32>(), Ok(i32::MIN));
    assert_eq!(cursor.read::<i64>(), Ok(-3));
    assert_eq!(cursor.read::<i8>(), Ok(127));
    let little = [0xFEu8, 0xFF, 0x00, 0x00, 0x00, 0x80];
    let mut cursor = TvBuff::wrap(&little, 0, TvBuffByteOrder::LittleEndian);
    assert_eq!(cursor.read::<i16>(), Ok(-2));
    assert_eq!(cursor.read::<i32>(), Ok(i32::MIN));
}

#[test]
fn failed_read_leaves_the_position() {
    let data = [1u8, 2, 3];
    let mut cursor = TvBuff::wrap(&data, 0, TvBuffByteOrder::BigEndian);
    assert_eq!(cursor.read::<u32>(), Err(Truncated { needed: 4, remaining: 3 }));
    assert_eq!(cursor.remaining(), 3);
    assert_eq!(cursor.read::<u64>(), Err(Truncated { needed: 8, remaining: 3 }));
    assert_eq!(cursor.read::<u16>(), Ok(0x0102));
    assert_eq!(cursor.read::<i16>(), Err(Truncated { needed: 2, remaining: 1 }));
    assert_eq!(cursor.read::<u8>(), Ok(3));
    assert_eq!(cursor.read::<u8>(), Err(Truncated { needed: 1, remaining: 0 }));
    assert_eq!(cursor.read::<i8>(), Err(Truncated { needed: 1, remaining: 0 }));
}

#[test]
fn wrap_from_an_offset_counts_from_the_region() {
    let data = [9u8, 9, 0x00, 0x2A, 7];
    let mut cursor = TvBuff::wrap(&data, 2, TvBuffByteOrder::BigEndian);
    assert_eq!(cursor.length(), 3);
    assert_eq!(cursor.remaining(), 3);
    assert_eq!(cursor.read::<u16>(), Ok(42));
    assert_eq!(cursor.remaining(), 1);
    assert_eq!(cursor.into_slice(10), &[7u8][..]);
}

#[test]
fn wrap_at_and_beyond_the_end_is_empty() {
    let data = [1u8, 2, 3];
    let at_end = TvBuff::wrap(&data, 3, TvBuffByteOrder::BigEndian);
    assert_eq!(at_end.length(), 0);
    assert_eq!(at_end.remaining(), 0);
    let mut beyond = TvBuff::wrap(&data, 4, TvBuffByteOrder::LittleEndian);
    assert_eq!(beyond.length(), 0);
    assert_eq!(beyond.read::<u8>(), Err(Truncated { needed: 1, remaining: 0 }));
    assert_eq!(beyond.into_slice(5), &[] as &[u8]);
    let empty: [u8; 0] = [];
    let none = TvBuff::wrap(&empty, 0, TvBuffByteOrder::BigEndian);
    assert_eq!(none.length(), 0);
}

#[test]
fn into_slice_is_cut_at_the_end() {
    let data = [1u8, 2, 3, 4, 5];
    let cursor = TvBuff::wrap(&data, 0, TvBuffByteOrder::BigEndian);
    assert_eq!(cursor.into_slice(3), &[1u8, 2, 3][..]);
    let cursor = TvBuff::wrap(&data, 0, TvBuffByteOrder::BigEndian);
    assert_eq!(cursor.into_slice(5), &data[..]);
    let cursor = TvBuff::wrap(&data, 0, TvBuffByteOrder::BigEndian);
    assert_eq!(cursor.into_slice(6), &data[..]);
    let cursor = TvBuff::wrap(&data, 0, TvBuffByteOrder::BigEndian);
    assert_eq!(cursor.into_slice(i32::MAX), &data[..]);
    let mut cursor = TvBuff::wrap(&data, 0, TvBuffByteOrder::BigEndian);
    assert_eq!(cursor.read::<u16>(), Ok(0x0102));
    assert_eq!(cursor.into_slice(100), &[3u8, 4, 5][..]);
}

#[test]
fn into_slice_of_no_or_negative_length_is_empty() {
    let data = [1u8, 2, 3];
    let cursor = TvBuff::wrap(&data, 1, TvBuffByteOrder::BigEndian);
    assert_eq!(cursor.into_slice(0), &[] as &[u8]);
    let cursor = TvBuff::wrap(&data, 1, TvBuffByteOrder::BigEndian);
    assert_eq!(cursor.into_slice(-1), &[] as &[u8]);
    let cursor = TvBuff::wrap(&data, 1, TvBuffByteOrder::BigEndian);
    assert_eq!(cursor.into_slice(i32::MIN), &[] as &[u8]);
}

#[test]
fn widths_of_the_readable_types() {
    assert_eq!(<u8 as StreamValue>::size(), 1);
    assert_eq!(<i8 as StreamValue>::size(), 1);
    assert_eq!(<u16 as StreamValue>::size(), 2);
    assert_eq!(<i16 as StreamValue>::size(), 2);
    assert_eq!(<u32 as StreamValue>::size(), 4);
    assert_eq!(<i32 as StreamValue>::size(), 4);
    assert_eq!(<u64 as StreamValue>::size(), 8);
    assert_eq!(<i64 as StreamValue>::size(), 8);
}

#[test]
fn read_front_takes_the_first_bytes() {
    let data = [0x01u8, 0x02, 0x03, 0x04, 0x05];
    assert_eq!(<u16 as StreamValue>::read_front(&data, TvBuffByteOrder::BigEndian), Some(0x0102));
    assert_eq!(<u32 as StreamValue>::read_front(&data, TvBuffByteOrder::LittleEndian), Some(0x0403_0201));
    assert_eq!(<u64 as StreamValue>::read_front(&data, TvBuffByteOrder::BigEndian), None);
    assert_eq!(<u8 as StreamValue>::read_front(&data[..0], TvBuffByteOrder::BigEndian), None);
    assert_eq!(<i8 as StreamValue>::read_front(&[0x80u8], TvBuffByteOrder::LittleEndian), Some(-128));
    assert_eq!(<i64 as StreamValue>::read_front(&[0u8, 0, 0, 0, 0, 0, 0, 0x80], TvBuffByteOrder::LittleEndian), Some(i64::MIN));
}

#[test]
fn bool_reads_one_byte() {
    let data = [1u8, 0, 2, 255];
    let mut cursor = TvBuff::wrap(&data, 0, TvBuffByteOrder::BigEndian);
    assert_eq!(cursor.read::<bool>(), Ok(true));
    assert_eq!(cursor.read::<bool>(), Ok(false));
    assert_eq!(cursor.read::<bool>(), Ok(false));
    assert_eq!(cursor.read::<bool>(), Ok(false));
    assert_eq!(cursor.read::<bool>(), Err(Truncated { needed: 1, remaining: 0 }));
    assert_eq!(<bool as StreamValue>::size(), 1);
    assert_eq!(<bool as StreamValue>::read_front(&[1u8], TvBuffByteOrder::LittleEndian), Some(true));
    assert_eq!(<bool as StreamValue>::read_front(&[], TvBuffByteOrder::LittleEndian), None);
}
