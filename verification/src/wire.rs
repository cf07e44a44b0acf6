//! The mathematical wire format: what byte sequence each value takes on the
//! wire, and what abstract value a datum stands for.
//!
//! Fixed-width integers travel big-endian at their full width; booleans and
//! 8-bit integers take a single byte; strings an unsigned 64-bit byte-length
//! prefix followed by their UTF-8 bytes; optional and fallible values one
//! discriminant byte followed by the payload; the unit value no bytes at all.

use vstd::prelude::*;

use vstd::utf8::encode_utf8;

use crate::errors::RPCError;

verus! {

/// A type with a place on the wire: `wire` is the exact byte sequence a
/// value takes, `model` the mathematical value it stands for (the value
/// itself for primitives, the character sequence for strings).
pub trait Wire {
    type Model;

    /// The abstract value this datum stands for.
    spec fn model(&self) -> Self::Model;

    /// The exact byte sequence this value takes on the wire.
    spec fn wire(&self) -> Seq<u8>;

    /// True when `bytes` is, byte for byte, a form of this value that a
    /// decoder reads as it: the canonical encoding for every type, and for a
    /// boolean also any other non-zero byte. A decoder may return a value
    /// only for bytes the value accepts.
    spec fn accepts(&self, bytes: Seq<u8>) -> bool;
}

/// True when `bytes` breaks off in the middle of some value's encoding:
/// a decoder that has only `bytes` cannot tell the value is not still coming.
/// Only encodings whose length fits the unsigned 64-bit length prefix count;
/// no stream can hold a longer one.
pub open spec fn truncated<T: Wire>(bytes: Seq<u8>) -> bool {
    exists|v: T|
        bytes.len() < (#[trigger] v.wire()).len() < 0x10000000000000000 && bytes
            == v.wire().take(bytes.len() as int)
}

/// Big-endian bytes of a 16-bit value.
pub open spec fn be_bytes_u16(x: u16) -> Seq<u8> {
    seq![(x >> 8) as u8, x as u8]
}

/// The 16-bit value read big-endian from two bytes.
pub open spec fn be_u16_of(b0: u8, b1: u8) -> u16 {
    (b0 as u16) << 8 | (b1 as u16)
}

/// Big-endian bytes of a 32-bit value.
pub open spec fn be_bytes_u32(x: u32) -> Seq<u8> {
    seq![(x >> 24) as u8, (x >> 16) as u8, (x >> 8) as u8, x as u8]
}

/// The 32-bit value read big-endian from four bytes.
pub open spec fn be_u32_of(b0: u8, b1: u8, b2: u8, b3: u8) -> u32 {
    (b0 as u32) << 24 | (b1 as u32) << 16 | (b2 as u32) << 8 | (b3 as u32)
}

/// Big-endian bytes of a 64-bit value.
pub open spec fn be_bytes_u64(x: u64) -> Seq<u8> {
    seq![
        (x >> 56) as u8,
        (x >> 48) as u8,
        (x >> 40) as u8,
        (x >> 32) as u8,
        (x >> 24) as u8,
        (x >> 16) as u8,
        (x >> 8) as u8,
        x as u8,
    ]
}

/// The 64-bit value read big-endian from eight bytes.
pub open spec fn be_u64_of(b0: u8, b1: u8, b2: u8, b3: u8, b4: u8, b5: u8, b6: u8, b7: u8) -> u64 {
    (b0 as u64) << 56 | (b1 as u64) << 48 | (b2 as u64) << 40 | (b3 as u64) << 32 | (b4 as u64)
        << 24 | (b5 as u64) << 16 | (b6 as u64) << 8 | (b7 as u64)
}

/// The unsigned 64-bit value standing big-endian at the front of `bytes`.
pub open spec fn be_u64_at(bytes: Seq<u8>) -> u64
    recommends
        bytes.len() >= 8,
{
    be_u64_of(bytes[0], bytes[1], bytes[2], bytes[3], bytes[4], bytes[5], bytes[6], bytes[7])
}

/// A prefix of a prefix is a prefix.
pub proof fn lemma_prefix_trans(a: Seq<u8>, b: Seq<u8>, c: Seq<u8>)
    requires
        a.is_prefix_of(b),
        b.is_prefix_of(c),
    ensures
        a.is_prefix_of(c),
{
    assert(a =~= c.subrange(0, a.len() as int));
}

/// Reading back the big-endian bytes of a 16-bit value yields the value.
pub proof fn lemma_be_u16_round(x: u16)
    by (bit_vector)
    ensures
        be_u16_of((x >> 8) as u8, x as u8) == x,
{
}

/// Reading back the big-endian bytes of a 32-bit value yields the value.
pub proof fn lemma_be_u32_round(x: u32)
    by (bit_vector)
    ensures
        be_u32_of((x >> 24) as u8, (x >> 16) as u8, (x >> 8) as u8, x as u8) == x,
{
}

/// Reading back the big-endian bytes of a 64-bit value yields the value.
pub proof fn lemma_be_u64_round(x: u64)
    by (bit_vector)
    ensures
        be_u64_of(
            (x >> 56) as u8,
            (x >> 48) as u8,
            (x >> 40) as u8,
            (x >> 32) as u8,
            (x >> 24) as u8,
            (x >> 16) as u8,
            (x >> 8) as u8,
            x as u8,
        ) == x,
{
}

/// A signed 8-bit value survives the round trip through its unsigned bits.
pub proof fn lemma_i8_round(x: i8)
    by (bit_vector)
    ensures
        (x as u8) as i8 == x,
{
}

/// A signed 16-bit value survives the round trip through its unsigned bits.
pub proof fn lemma_be_i16_round(x: i16)
    by (bit_vector)
    ensures
        be_u16_of(((x as u16) >> 8) as u8, (x as u16) as u8) as i16 == x,
{
}

/// A signed 32-bit value survives the round trip through its unsigned bits.
pub proof fn lemma_be_i32_round(x: i32)
    by (bit_vector)
    ensures
        be_u32_of(
            ((x as u32) >> 24) as u8,
            ((x as u32) >> 16) as u8,
            ((x as u32) >> 8) as u8,
            (x as u32) as u8,
        ) as i32 == x,
{
}

/// A signed 64-bit value survives the round trip through its unsigned bits.
pub proof fn lemma_be_i64_round(x: i64)
    by (bit_vector)
    ensures
        be_u64_of(
            ((x as u64) >> 56) as u8,
            ((x as u64) >> 48) as u8,
            ((x as u64) >> 40) as u8,
            ((x as u64) >> 32) as u8,
            ((x as u64) >> 24) as u8,
            ((x as u64) >> 16) as u8,
            ((x as u64) >> 8) as u8,
            (x as u64) as u8,
        ) as i64 == x,
{
}

/// A byte sequence that breaks off inside some string encoding is missing
/// part of the length prefix, or part of the payload the prefix announces.
pub proof fn lemma_string_truncated_shape(bytes: Seq<u8>)
    requires
        truncated::<String>(bytes),
    ensures
        bytes.len() < 8 || bytes.len() - 8 < be_u64_at(bytes),
{
    let v = choose|v: String|
        bytes.len() < (#[trigger] v.wire()).len() < 0x10000000000000000 && bytes == v.wire().take(
            bytes.len() as int,
        );
    if bytes.len() >= 8 {
        let m = encode_utf8(v@).len();
        assert(v.wire().len() == 8 + m);
        assert(m < 0x10000000000000000);
        let mw = (m as u64);
        assert(mw == m);
        lemma_be_u64_round(mw);
        assert(bytes[0] == v.wire()[0]);
        assert(bytes[1] == v.wire()[1]);
        assert(bytes[2] == v.wire()[2]);
        assert(bytes[3] == v.wire()[3]);
        assert(bytes[4] == v.wire()[4]);
        assert(bytes[5] == v.wire()[5]);
        assert(bytes[6] == v.wire()[6]);
        assert(bytes[7] == v.wire()[7]);
        assert(be_u64_at(bytes) == mw);
    }
}

/// The big-endian bytes of the value read from two bytes are those bytes.
pub proof fn lemma_be_u16_bytes(b0: u8, b1: u8)
    by (bit_vector)
    ensures
        (be_u16_of(b0, b1) >> 8) as u8 == b0,
        be_u16_of(b0, b1) as u8 == b1,
{
}

/// The big-endian bytes of the value read from four bytes are those bytes.
pub proof fn lemma_be_u32_bytes(b0: u8, b1: u8, b2: u8, b3: u8)
    by (bit_vector)
    ensures
        (be_u32_of(b0, b1, b2, b3) >> 24) as u8 == b0,
        (be_u32_of(b0, b1, b2, b3) >> 16) as u8 == b1,
        (be_u32_of(b0, b1, b2, b3) >> 8) as u8 == b2,
        be_u32_of(b0, b1, b2, b3) as u8 == b3,
{
}

/// The big-endian bytes of the value read from eight bytes are those bytes.
pub proof fn lemma_be_u64_bytes(b0: u8, b1: u8, b2: u8, b3: u8, b4: u8, b5: u8, b6: u8, b7: u8)
    by (bit_vector)
    ensures
        (be_u64_of(b0, b1, b2, b3, b4, b5, b6, b7) >> 56) as u8 == b0,
        (be_u64_of(b0, b1, b2, b3, b4, b5, b6, b7) >> 48) as u8 == b1,
        (be_u64_of(b0, b1, b2, b3, b4, b5, b6, b7) >> 40) as u8 == b2,
        (be_u64_of(b0, b1, b2, b3, b4, b5, b6, b7) >> 32) as u8 == b3,
        (be_u64_of(b0, b1, b2, b3, b4, b5, b6, b7) >> 24) as u8 == b4,
        (be_u64_of(b0, b1, b2, b3, b4, b5, b6, b7) >> 16) as u8 == b5,
        (be_u64_of(b0, b1, b2, b3, b4, b5, b6, b7) >> 8) as u8 == b6,
        be_u64_of(b0, b1, b2, b3, b4, b5, b6, b7) as u8 == b7,
{
}

/// An unsigned 8-bit value survives the round trip through its signed bits.
pub proof fn lemma_u8_round(x: u8)
    by (bit_vector)
    ensures
        (x as i8) as u8 == x,
{
}

/// An unsigned 16-bit value survives the round trip through its signed bits.
pub proof fn lemma_u16_round(x: u16)
    by (bit_vector)
    ensures
        (x as i16) as u16 == x,
{
}

/// An unsigned 32-bit value survives the round trip through its signed bits.
pub proof fn lemma_u32_round(x: u32)
    by (bit_vector)
    ensures
        (x as i32) as u32 == x,
{
}

/// An unsigned 64-bit value survives the round trip through its signed bits.
pub proof fn lemma_u64_round(x: u64)
    by (bit_vector)
    ensures
        (x as i64) as u64 == x,
{
}

impl Wire for () {
    type Model = ();

    open spec fn model(&self) -> () {
        ()
    }

    open spec fn wire(&self) -> Seq<u8> {
        Seq::empty()
    }

    open spec fn accepts(&self, bytes: Seq<u8>) -> bool {
        bytes == self.wire()
    }
}

impl Wire for bool {
    type Model = bool;

    open spec fn model(&self) -> bool {
        *self
    }

    open spec fn wire(&self) -> Seq<u8> {
        seq![
            if *self {
                1u8
            } else {
                0u8
            },
        ]
    }

    open spec fn accepts(&self, bytes: Seq<u8>) -> bool {
        bytes.len() == 1 && (*self <==> bytes[0] != 0)
    }
}

impl Wire for u8 {
    type Model = u8;

    open spec fn model(&self) -> u8 {
        *self
    }

    open spec fn wire(&self) -> Seq<u8> {
        seq![*self]
    }

    open spec fn accepts(&self, bytes: Seq<u8>) -> bool {
        bytes == self.wire()
    }
}

impl Wire for i8 {
    type Model = i8;

    open spec fn model(&self) -> i8 {
        *self
    }

    open spec fn wire(&self) -> Seq<u8> {
        seq![*self as u8]
    }

    open spec fn accepts(&self, bytes: Seq<u8>) -> bool {
        bytes == self.wire()
    }
}

impl Wire for u16 {
    type Model = u16;

    open spec fn model(&self) -> u16 {
        *self
    }

    open spec fn wire(&self) -> Seq<u8> {
        be_bytes_u16(*self)
    }

    open spec fn accepts(&self, bytes: Seq<u8>) -> bool {
        bytes == self.wire()
    }
}

impl Wire for i16 {
    type Model = i16;

    open spec fn model(&self) -> i16 {
        *self
    }

    open spec fn wire(&self) -> Seq<u8> {
        be_bytes_u16(*self as u16)
    }

    open spec fn accepts(&self, bytes: Seq<u8>) -> bool {
        bytes == self.wire()
    }
}

impl Wire for u32 {
    type Model = u32;

    open spec fn model(&self) -> u32 {
        *self
    }

    open spec fn wire(&self) -> Seq<u8> {
        be_bytes_u32(*self)
    }

    open spec fn accepts(&self, bytes: Seq<u8>) -> bool {
        bytes == self.wire()
    }
}

impl Wire for i32 {
    type Model = i32;

    open spec fn model(&self) -> i32 {
        *self
    }

    open spec fn wire(&self) -> Seq<u8> {
        be_bytes_u32(*self as u32)
    }

    open spec fn accepts(&self, bytes: Seq<u8>) -> bool {
        bytes == self.wire()
    }
}

impl Wire for u64 {
    type Model = u64;

    open spec fn model(&self) -> u64 {
        *self
    }

    open spec fn wire(&self) -> Seq<u8> {
        be_bytes_u64(*self)
    }

    open spec fn accepts(&self, bytes: Seq<u8>) -> bool {
        bytes == self.wire()
    }
}

impl Wire for i64 {
    type Model = i64;

    open spec fn model(&self) -> i64 {
        *self
    }

    open spec fn wire(&self) -> Seq<u8> {
        be_bytes_u64(*self as u64)
    }

    open spec fn accepts(&self, bytes: Seq<u8>) -> bool {
        bytes == self.wire()
    }
}

impl Wire for String {
    type Model = Seq<char>;

    open spec fn model(&self) -> Seq<char> {
        self@
    }

    open spec fn wire(&self) -> Seq<u8> {
        be_bytes_u64(encode_utf8(self@).len() as u64) + encode_utf8(self@)
    }

    open spec fn accepts(&self, bytes: Seq<u8>) -> bool {
        bytes == self.wire()
    }
}

impl Wire for RPCError {
    type Model = RPCError;

    open spec fn model(&self) -> RPCError {
        *self
    }

    open spec fn wire(&self) -> Seq<u8> {
        match *self {
            RPCError::NotAvailable => seq![0u8],
            RPCError::SerializationError => seq![1u8],
            RPCError::StreamClosed => seq![2u8],
            RPCError::UnknownError => seq![3u8],
        }
    }

    open spec fn accepts(&self, bytes: Seq<u8>) -> bool {
        bytes == self.wire()
    }
}

impl<T: Wire> Wire for Option<T> {
    type Model = Option<T::Model>;

    open spec fn model(&self) -> Option<T::Model> {
        match *self {
            Option::None => Option::None,
            Option::Some(ref t) => Option::Some(t.model()),
        }
    }

    open spec fn wire(&self) -> Seq<u8> {
        match *self {
            Option::None => seq![0u8],
            Option::Some(ref t) => seq![1u8] + t.wire(),
        }
    }

    open spec fn accepts(&self, bytes: Seq<u8>) -> bool {
        match *self {
            Option::None => bytes == seq![0u8],
            Option::Some(ref t) => bytes.len() >= 1 && bytes[0] == 1u8 && t.accepts(
                bytes.skip(1),
            ),
        }
    }
}

impl<T: Wire> Wire for Result<T, RPCError> {
    type Model = Result<T::Model, RPCError>;

    open spec fn model(&self) -> Result<T::Model, RPCError> {
        match *self {
            Result::Ok(ref t) => Result::Ok(t.model()),
            Result::Err(e) => Result::Err(e),
        }
    }

    open spec fn wire(&self) -> Seq<u8> {
        match *self {
            Result::Ok(ref t) => seq![0u8] + t.wire(),
            Result::Err(e) => seq![1u8] + e.wire(),
        }
    }

    open spec fn accepts(&self, bytes: Seq<u8>) -> bool {
        match *self {
            Result::Ok(ref t) => bytes.len() >= 1 && bytes[0] == 0u8 && t.accepts(bytes.skip(1)),
            Result::Err(e) => bytes.len() >= 1 && bytes[0] == 1u8 && e.accepts(bytes.skip(1)),
        }
    }
}

} // verus!
