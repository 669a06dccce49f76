//! A cursor over the captured bytes of one packet: a region, a read position
//! inside it and the byte order in which multi-byte integers are read.
//! Values are decoded by the `bytestream` crate; what a read returns, and
//! how far it moves the position, is stated here over the region's bytes.
//! What is said of `bytestream` itself is taken on trust, in the functions
//! whose names begin with `stream_read`.

use vstd::prelude::*;
use vstd::slice::slice_subrange;
use bytestream::ByteOrder;
use bytestream::StreamReader;

verus! {

/// The order in which the bytes of a multi-byte integer are stored.
#[derive(Debug, Clone, Copy, PartialEq, Eq, Structural)]
pub enum TvBuffByteOrder {
    /// The most significant byte comes first (network order).
    BigEndian,
    /// The least significant byte comes first.
    LittleEndian,
}

/// A read asked for more bytes than the region has left.
#[derive(Debug, Clone, Copy, PartialEq, Eq, Structural)]
pub struct Truncated {
    /// The number of bytes that the read needed.
    pub needed: usize,
    /// The number of bytes that were left in the region.
    pub remaining: usize,
}

/// The number that `bytes` spell with the most significant byte first.
pub open spec fn be_uint(bytes: Seq<u8>) -> nat
    decreases bytes.len(),
{
    if bytes.len() == 0 {
        0
    } else {
        be_uint(bytes.drop_last()) * 256 + bytes.last() as nat
    }
}

/// The number that `bytes` spell with the least significant byte first.
pub open spec fn le_uint(bytes: Seq<u8>) -> nat
    decreases bytes.len(),
{
    if bytes.len() == 0 {
        0
    } else {
        bytes.first() as nat + 256 * le_uint(bytes.drop_first())
    }
}

/// The unsigned number that `bytes` spell in the given order.
pub open spec fn uint_value(bytes: Seq<u8>, order: TvBuffByteOrder) -> nat {
    match order {
        TvBuffByteOrder::BigEndian => be_uint(bytes),
        TvBuffByteOrder::LittleEndian => le_uint(bytes),
    }
}

/// 256 to the power `n`: the number of values that `n` bytes can spell.
pub open spec fn byte_range(n: nat) -> nat
    decreases n,
{
    if n == 0 {
        1
    } else {
        256 * byte_range((n - 1) as nat)
    }
}

/// The signed number that `bytes` spell in the given order, read as two's
/// complement: values in the upper half of the range are negative.
pub open spec fn sint_value(bytes: Seq<u8>, order: TvBuffByteOrder) -> int {
    let u = uint_value(bytes, order);
    if 2 * u >= byte_range(bytes.len()) {
        u - byte_range(bytes.len())
    } else {
        u as int
    }
}

/// The bytes of a region spell a number below 256 to the power of their count.
pub proof fn lemma_uint_value_bound(bytes: Seq<u8>, order: TvBuffByteOrder)
    ensures
        uint_value(bytes, order) < byte_range(bytes.len()),
    decreases bytes.len(),
{
    if bytes.len() > 0 {
        match order {
            TvBuffByteOrder::BigEndian => {
                lemma_uint_value_bound(bytes.drop_last(), order);
            },
            TvBuffByteOrder::LittleEndian => {
                lemma_uint_value_bound(bytes.drop_first(), order);
            },
        }
    }
}

/// What a cursor reads as an unsigned integer is the number that the bytes
/// spell: a run of as many bytes as the type is wide never spells a number
/// that the type cannot hold.
pub proof fn lemma_unsigned_reads_are_exact(bytes: Seq<u8>, order: TvBuffByteOrder)
    ensures
        bytes.len() == 1 ==> <u8 as StreamValue>::decode(bytes, order) == uint_value(bytes, order),
        bytes.len() == 2 ==> <u16 as StreamValue>::decode(bytes, order) == uint_value(bytes, order),
        bytes.len() == 4 ==> <u32 as StreamValue>::decode(bytes, order) == uint_value(bytes, order),
        bytes.len() == 8 ==> <u64 as StreamValue>::decode(bytes, order) == uint_value(bytes, order),
{
    reveal_with_fuel(byte_range, 9);
    lemma_uint_value_bound(bytes, order);
    if bytes.len() == 1 {
        reveal_with_fuel(be_uint, 2);
        reveal_with_fuel(le_uint, 2);
    }
}

/// What a cursor reads as a signed integer is the number that the bytes
/// spell in two's complement.
pub proof fn lemma_signed_reads_are_exact(bytes: Seq<u8>, order: TvBuffByteOrder)
    ensures
        bytes.len() == 1 ==> <i8 as StreamValue>::decode(bytes, order) == sint_value(bytes, order),
        bytes.len() == 2 ==> <i16 as StreamValue>::decode(bytes, order) == sint_value(bytes, order),
        bytes.len() == 4 ==> <i32 as StreamValue>::decode(bytes, order) == sint_value(bytes, order),
        bytes.len() == 8 ==> <i64 as StreamValue>::decode(bytes, order) == sint_value(bytes, order),
{
    reveal_with_fuel(byte_range, 9);
    lemma_uint_value_bound(bytes, order);
}

/// A value of fixed width that a cursor can read: its width in bytes and the
/// value that a run of that many bytes spells.
pub trait StreamValue: Sized {
    /// The number of bytes that one value occupies.
    spec fn width() -> nat;

    /// The value that `bytes` spell in the given order.
    spec fn decode(bytes: Seq<u8>, order: TvBuffByteOrder) -> Self;

    /// The number of bytes that one value occupies.
    fn size() -> (n: usize)
        ensures
            n == Self::width(),
    ;

    /// Reads one value from the front of `region`. Succeeds exactly when the
    /// region holds at least `width()` bytes.
    fn read_front(region: &[u8], order: TvBuffByteOrder) -> (r: Option<Self>)
        ensures
            r == (if region@.len() >= Self::width() {
                Some(Self::decode(region@.take(Self::width() as int), order))
            } else {
                None
            }),
    ;
}

/// Calls `<u8 as bytestream::StreamReader>::read_from` on a cursor over
/// `region`. Claimed of it: it fails when the region is empty and otherwise
/// returns the first byte, whatever the order.
#[verifier::external_body]
fn stream_read_u8(region: &[u8], order: TvBuffByteOrder) -> (r: Option<u8>)
    ensures
        r == (if region@.len() >= 1 {
            Some(region@[0])
        } else {
            None
        }),
{
    let order = match order {
        TvBuffByteOrder::BigEndian => ByteOrder::BigEndian,
        TvBuffByteOrder::LittleEndian => ByteOrder::LittleEndian,
    };
    let mut cursor = std::io::Cursor::new(region);
    u8::read_from(&mut cursor, order).ok()
}

/// Calls `<u16 as bytestream::StreamReader>::read_from` on a cursor over
/// `region`. Claimed of it: it fails when the region holds fewer than two
/// bytes and otherwise returns the number that the first two spell in the
/// given order.
#[verifier::external_body]
fn stream_read_u16(region: &[u8], order: TvBuffByteOrder) -> (r: Option<u16>)
    ensures
        r == (if region@.len() >= 2 {
            Some(uint_value(region@.take(2), order) as u16)
        } else {
            None
        }),
{
    let order = match order {
        TvBuffByteOrder::BigEndian => ByteOrder::BigEndian,
        TvBuffByteOrder::LittleEndian => ByteOrder::LittleEndian,
    };
    let mut cursor = std::io::Cursor::new(region);
    u16::read_from(&mut cursor, order).ok()
}

/// Calls `<u32 as bytestream::StreamReader>::read_from` on a cursor over
/// `region`. Claimed of it: it fails when the region holds fewer than four
/// bytes and otherwise returns the number that the first four spell in the
/// given order.
#[verifier::external_body]
fn stream_read_u32(region: &[u8], order: TvBuffByteOrder) -> (r: Option<u32>)
    ensures
        r == (if region@.len() >= 4 {
            Some(uint_value(region@.take(4), order) as u32)
        } else {
            None
        }),
{
    let order = match order {
        TvBuffByteOrder::BigEndian => ByteOrder::BigEndian,
        TvBuffByteOrder::LittleEndian => ByteOrder::LittleEndian,
    };
    let mut cursor = std::io::Cursor::new(region);
    u32::read_from(&mut cursor, order).ok()
}

/// Calls `<u64 as bytestream::StreamReader>::read_from` on a cursor over
/// `region`. Claimed of it: it fails when the region holds fewer than eight
/// bytes and otherwise returns the number that the first eight spell in the
/// given order.
#[verifier::external_body]
fn stream_read_u64(region: &[u8], order: TvBuffByteOrder) -> (r: Option<u64>)
    ensures
        r == (if region@.len() >= 8 {
            Some(uint_value(region@.take(8), order) as u64)
        } else {
            None
        }),
{
    let order = match order {
        TvBuffByteOrder::BigEndian => ByteOrder::BigEndian,
        TvBuffByteOrder::LittleEndian => ByteOrder::LittleEndian,
    };
    let mut cursor = std::io::Cursor::new(region);
    u64::read_from(&mut cursor, order).ok()
}

/// Calls `<i8 as bytestream::StreamReader>::read_from` on a cursor over
/// `region`. Claimed of it: it fails when the region is empty and otherwise
/// returns the first byte read as two's complement, whatever the order.
#[verifier::external_body]
fn stream_read_i8(region: &[u8], order: TvBuffByteOrder) -> (r: Option<i8>)
    ensures
        r == (if region@.len() >= 1 {
            Some(sint_value(region@.take(1), order) as i8)
        } else {
            None
        }),
{
    let order = match order {
        TvBuffByteOrder::BigEndian => ByteOrder::BigEndian,
        TvBuffByteOrder::LittleEndian => ByteOrder::LittleEndian,
    };
    let mut cursor = std::io::Cursor::new(region);
    i8::read_from(&mut cursor, order).ok()
}

/// Calls `<i16 as bytestream::StreamReader>::read_from` on a cursor over
/// `region`. Claimed of it: it fails when the region holds fewer than two
/// bytes and otherwise returns the first two, in the given order, read as
/// two's complement.
#[verifier::external_body]
fn stream_read_i16(region: &[u8], order: TvBuffByteOrder) -> (r: Option<i16>)
    ensures
        r == (if region@.len() >= 2 {
            Some(sint_value(region@.take(2), order) as i16)
        } else {
            None
        }),
{
    let order = match order {
        TvBuffByteOrder::BigEndian => ByteOrder::BigEndian,
        TvBuffByteOrder::LittleEndian => ByteOrder::LittleEndian,
    };
    let mut cursor = std::io::Cursor::new(region);
    i16::read_from(&mut cursor, order).ok()
}

/// Calls `<i32 as bytestream::StreamReader>::read_from` on a cursor over
/// `region`. Claimed of it: it fails when the region holds fewer than four
/// bytes and otherwise returns the first four, in the given order, read as
/// two's complement.
#[verifier::external_body]
fn stream_read_i32(region: &[u8], order: TvBuffByteOrder) -> (r: Option<i32>)
    ensures
        r == (if region@.len() >= 4 {
            Some(sint_value(region@.take(4), order) as i32)
        } else {
            None
        }),
{
    let order = match order {
        TvBuffByteOrder::BigEndian => ByteOrder::BigEndian,
        TvBuffByteOrder::LittleEndian => ByteOrder::LittleEndian,
    };
    let mut cursor = std::io::Cursor::new(region);
    i32::read_from(&mut cursor, order).ok()
}

/// Calls `<i64 as bytestream::StreamReader>::read_from` on a cursor over
/// `region`. Claimed of it: it fails when the region holds fewer than eight
/// bytes and otherwise returns the first eight, in the given order, read as
/// two's complement.
#[verifier::external_body]
fn stream_read_i64(region: &[u8], order: TvBuffByteOrder) -> (r: Option<i64>)
    ensures
        r == (if region@.len() >= 8 {
            Some(sint_value(region@.take(8), order) as i64)
        } else {
            None
        }),
{
    let order = match order {
        TvBuffByteOrder::BigEndian => ByteOrder::BigEndian,
        TvBuffByteOrder::LittleEndian => ByteOrder::LittleEndian,
    };
    let mut cursor = std::io::Cursor::new(region);
    i64::read_from(&mut cursor, order).ok()
}

/// Calls `<bool as bytestream::StreamReader>::read_from` on a cursor over
/// `region`. Claimed of it: it fails when the region is empty and otherwise
/// says whether the first byte is 1, whatever the order.
#[verifier::external_body]
fn stream_read_bool(region: &[u8], order: TvBuffByteOrder) -> (r: Option<bool>)
    ensures
        r == (if region@.len() >= 1 {
            Some(region@[0] == 1)
        } else {
            None
        }),
{
    let order = match order {
        TvBuffByteOrder::BigEndian => ByteOrder::BigEndian,
        TvBuffByteOrder::LittleEndian => ByteOrder::LittleEndian,
    };
    let mut cursor = std::io::Cursor::new(region);
    bool::read_from(&mut cursor, order).ok()
}

impl StreamValue for bool {
    open spec fn width() -> nat {
        1
    }

    /// A byte spells `true` when it is 1, and `false` when it is anything
    /// else.
    open spec fn decode(bytes: Seq<u8>, order: TvBuffByteOrder) -> bool {
        bytes[0] == 1
    }

    fn size() -> (n: usize) {
        1
    }

    fn read_front(region: &[u8], order: TvBuffByteOrder) -> (r: Option<bool>) {
        stream_read_bool(region, order)
    }
}

impl StreamValue for u8 {
    open spec fn width() -> nat {
        1
    }

    open spec fn decode(bytes: Seq<u8>, order: TvBuffByteOrder) -> u8 {
        bytes[0]
    }

    fn size() -> (n: usize) {
        1
    }

    fn read_front(region: &[u8], order: TvBuffByteOrder) -> (r: Option<u8>) {
        stream_read_u8(region, order)
    }
}

impl StreamValue for u16 {
    open spec fn width() -> nat {
        2
    }

    open spec fn decode(bytes: Seq<u8>, order: TvBuffByteOrder) -> u16 {
        uint_value(bytes, order) as u16
    }

    fn size() -> (n: usize) {
        2
    }

    fn read_front(region: &[u8], order: TvBuffByteOrder) -> (r: Option<u16>) {
        stream_read_u16(region, order)
    }
}

impl StreamValue for u32 {
    open spec fn width() -> nat {
        4
    }

    open spec fn decode(bytes: Seq<u8>, order: TvBuffByteOrder) -> u32 {
        uint_value(bytes, order) as u32
    }

    fn size() -> (n: usize) {
        4
    }

    fn read_front(region: &[u8], order: TvBuffByteOrder) -> (r: Option<u32>) {
        stream_read_u32(region, order)
    }
}

impl StreamValue for u64 {
    open spec fn width() -> nat {
        8
    }

    open spec fn decode(bytes: Seq<u8>, order: TvBuffByteOrder) -> u64 {
        uint_value(bytes, order) as u64
    }

    fn size() -> (n: usize) {
        8
    }

    fn read_front(region: &[u8], order: TvBuffByteOrder) -> (r: Option<u64>) {
        stream_read_u64(region, order)
    }
}

impl StreamValue for i8 {
    open spec fn width() -> nat {
        1
    }

    open spec fn decode(bytes: Seq<u8>, order: TvBuffByteOrder) -> i8 {
        sint_value(bytes, order) as i8
    }

    fn size() -> (n: usize) {
        1
    }

    fn read_front(region: &[u8], order: TvBuffByteOrder) -> (r: Option<i8>) {
        stream_read_i8(region, order)
    }
}

impl StreamValue for i16 {
    open spec fn width() -> nat {
        2
    }

    open spec fn decode(bytes: Seq<u8>, order: TvBuffByteOrder) -> i16 {
        sint_value(bytes, order) as i16
    }

    fn size() -> (n: usize) {
        2
    }

    fn read_front(region: &[u8], order: TvBuffByteOrder) -> (r: Option<i16>) {
        stream_read_i16(region, order)
    }
}

impl StreamValue for i32 {
    open spec fn width() -> nat {
        4
    }

    open spec fn decode(bytes: Seq<u8>, order: TvBuffByteOrder) -> i32 {
        sint_value(bytes, order) as i32
    }

    fn size() -> (n: usize) {
        4
    }

    fn read_front(region: &[u8], order: TvBuffByteOrder) -> (r: Option<i32>) {
        stream_read_i32(region, order)
    }
}

impl StreamValue for i64 {
    open spec fn width() -> nat {
        8
    }

    open spec fn decode(bytes: Seq<u8>, order: TvBuffByteOrder) -> i64 {
        sint_value(bytes, order) as i64
    }

    fn size() -> (n: usize) {
        8
    }

    fn read_front(region: &[u8], order: TvBuffByteOrder) -> (r: Option<i64>) {
        stream_read_i64(region, order)
    }
}

/// The part of a packet's bytes that starts at `offset`; empty when the
/// offset lies beyond the last byte.
pub open spec fn region_from(data: Seq<u8>, offset: int) -> Seq<u8> {
    if 0 <= offset <= data.len() {
        data.subrange(offset, data.len() as int)
    } else {
        Seq::empty()
    }
}

/// The slice that `into_slice` hands out: from `position`, at most `length`
/// bytes, cut at the end of the region. A negative length gives no bytes.
pub open spec fn clamped_slice(region: Seq<u8>, position: int, length: int) -> Seq<u8>
    recommends
        0 <= position <= region.len(),
{
    let wanted = if length < 0 {
        0
    } else {
        length
    };
    let end = if position + wanted > region.len() {
        region.len() as int
    } else {
        position + wanted
    };
    region.subrange(position, end)
}

/// A cursor over a region of bytes. Positions count from the start of the
/// region that was wrapped, not from the start of the packet.
pub struct TvBuff<'a> {
    region: &'a [u8],
    position: usize,
    byteorder: TvBuffByteOrder,
}

impl<'a> TvBuff<'a> {
    #[verifier::type_invariant]
    spec fn in_bounds(self) -> bool {
        self.position <= self.region@.len()
    }

    /// The bytes of the region.
    pub closed spec fn region(self) -> Seq<u8> {
        self.region@
    }

    /// The read position, counted from the start of the region.
    pub closed spec fn position(self) -> nat {
        self.position as nat
    }

    /// The byte order of every multi-byte read.
    pub closed spec fn order(self) -> TvBuffByteOrder {
        self.byteorder
    }

    /// The bytes that have not been read yet.
    pub open spec fn rest(self) -> Seq<u8> {
        self.region().subrange(self.position() as int, self.region().len() as int)
    }

    /// Wraps the bytes of `data` from `offset` on, with the position at the
    /// start of that region. An offset beyond the data gives an empty region.
    pub fn wrap(data: &'a [u8], offset: u32, byteorder: TvBuffByteOrder) -> (r: Self)
        ensures
            r.region() == region_from(data@, offset as int),
            r.position() == 0,
            r.order() == byteorder,
    {
        let start = offset as usize;
        let region = if start <= data.len() {
            slice_subrange(data, start, data.len())
        } else {
            slice_subrange(data, 0, 0)
        };
        proof {
            if start > data.len() {
                assert(region@ =~= Seq::<u8>::empty());
            }
        }
        TvBuff { region, position: 0, byteorder }
    }

    /// Reads one value of type `T` at the position, in the cursor's byte
    /// order, and moves the position past it. With fewer than `T::width()`
    /// bytes left the read fails and the position stays where it was.
    pub fn read<T: StreamValue>(&mut self) -> (r: Result<T, Truncated>)
        ensures
            final(self).region() == old(self).region(),
            final(self).order() == old(self).order(),
            match r {
                Ok(v) => {
                    &&& old(self).rest().len() >= T::width()
                    &&& v == T::decode(old(self).rest().take(T::width() as int), old(self).order())
                    &&& final(self).position() == old(self).position() + T::width()
                },
                Err(e) => {
                    &&& old(self).rest().len() < T::width()
                    &&& final(self).position() == old(self).position()
                    &&& e.needed == T::width()
                    &&& e.remaining == old(self).rest().len()
                },
            },
    {
        proof {
            use_type_invariant(&*self);
        }
        let rest = slice_subrange(self.region, self.position, self.region.len());
        match T::read_front(rest, self.byteorder) {
            Some(v) => {
                self.position = self.position + T::size();
                Ok(v)
            },
            None => Err(Truncated { needed: T::size(), remaining: rest.len() }),
        }
    }

    /// The total length of the region.
    pub fn length(&self) -> (n: usize)
        ensures
            n == self.region().len(),
    {
        self.region.len()
    }

    /// The number of bytes between the position and the end of the region.
    pub fn remaining(&self) -> (n: usize)
        ensures
            n == self.region().len() - self.position(),
            n == self.rest().len(),
    {
        proof {
            use_type_invariant(self);
        }
        self.region.len() - self.position
    }

    /// Gives up the cursor for the bytes from the position on, at most
    /// `length` of them: a request that reaches past the end of the region is
    /// cut there.
    pub fn into_slice(self, length: i32) -> (r: &'a [u8])
        ensures
            r@ == clamped_slice(self.region(), self.position() as int, length as int),
            r@.len() <= self.rest().len(),
    {
        proof {
            use_type_invariant(&self);
        }
        let start = self.position;
        let left = self.region.len() - start;
        let wanted: usize = if length < 0 {
            0
        } else {
            length as usize
        };
        let end = if wanted > left {
            self.region.len()
        } else {
            start + wanted
        };
        slice_subrange(self.region, start, end)
    }
}

} // verus!
