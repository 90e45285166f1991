//! Byte-order-aware primitive reader: fixed-width values decoded from an
//! in-memory byte stream at a cursor, under a given endianness. Doubles
//! are read as their IEEE-754 bit patterns, so nothing here is lossy.

use vstd::prelude::*;

use crate::error::GeoError;
use crate::types::ByteOrder;

verus! {

/// `width` bytes are available at `pos`.
pub open spec fn in_bounds(d: Seq<u8>, pos: int, width: int) -> bool {
    0 <= pos && pos + width <= d.len()
}

/// The unsigned 32-bit value the four bytes at `pos` spell under `order`.
#[verifier::opaque]
pub open spec fn u32_at(d: Seq<u8>, pos: int, order: ByteOrder) -> u32 {
    let b0 = d[pos];
    let b1 = d[pos + 1];
    let b2 = d[pos + 2];
    let b3 = d[pos + 3];
    match order {
        ByteOrder::BigEndian => ((b0 as u32) << 24) | ((b1 as u32) << 16) | ((b2 as u32) << 8) | (
        b3 as u32),
        ByteOrder::LittleEndian => ((b3 as u32) << 24) | ((b2 as u32) << 16) | ((b1 as u32) << 8)
            | (b0 as u32),
    }
}

/// The signed 32-bit value the four bytes at `pos` spell under `order`
/// (two's complement reinterpretation of the unsigned value).
pub open spec fn i32_at(d: Seq<u8>, pos: int, order: ByteOrder) -> i32 {
    u32_at(d, pos, order) as i32
}

/// The unsigned 64-bit value the eight bytes at `pos` spell under `order`;
/// for a wire double this is its IEEE-754 bit pattern.
#[verifier::opaque]
pub open spec fn u64_at(d: Seq<u8>, pos: int, order: ByteOrder) -> u64 {
    let b0 = d[pos];
    let b1 = d[pos + 1];
    let b2 = d[pos + 2];
    let b3 = d[pos + 3];
    let b4 = d[pos + 4];
    let b5 = d[pos + 5];
    let b6 = d[pos + 6];
    let b7 = d[pos + 7];
    match order {
        ByteOrder::BigEndian => ((b0 as u64) << 56) | ((b1 as u64) << 48) | ((b2 as u64) << 40) | (
        (b3 as u64) << 32) | ((b4 as u64) << 24) | ((b5 as u64) << 16) | ((b6 as u64) << 8) | (
        b7 as u64),
        ByteOrder::LittleEndian => ((b7 as u64) << 56) | ((b6 as u64) << 48) | ((b5 as u64) << 40)
            | ((b4 as u64) << 32) | ((b3 as u64) << 24) | ((b2 as u64) << 16) | ((b1 as u64) << 8)
            | (b0 as u64),
    }
}

/// The four bytes that spell `v` under `order`.
pub open spec fn u32_bytes(v: u32, order: ByteOrder) -> Seq<u8> {
    match order {
        ByteOrder::BigEndian => seq![
            ((v >> 24) & 0xFF) as u8,
            ((v >> 16) & 0xFF) as u8,
            ((v >> 8) & 0xFF) as u8,
            (v & 0xFF) as u8,
        ],
        ByteOrder::LittleEndian => seq![
            (v & 0xFF) as u8,
            ((v >> 8) & 0xFF) as u8,
            ((v >> 16) & 0xFF) as u8,
            ((v >> 24) & 0xFF) as u8,
        ],
    }
}

/// The four bytes that spell the signed value `v` under `order`.
pub open spec fn i32_bytes(v: i32, order: ByteOrder) -> Seq<u8> {
    u32_bytes(v as u32, order)
}

/// The eight bytes that spell `v` under `order`.
pub open spec fn u64_bytes(v: u64, order: ByteOrder) -> Seq<u8> {
    match order {
        ByteOrder::BigEndian => seq![
            ((v >> 56) & 0xFF) as u8,
            ((v >> 48) & 0xFF) as u8,
            ((v >> 40) & 0xFF) as u8,
            ((v >> 32) & 0xFF) as u8,
            ((v >> 24) & 0xFF) as u8,
            ((v >> 16) & 0xFF) as u8,
            ((v >> 8) & 0xFF) as u8,
            (v & 0xFF) as u8,
        ],
        ByteOrder::LittleEndian => seq![
            (v & 0xFF) as u8,
            ((v >> 8) & 0xFF) as u8,
            ((v >> 16) & 0xFF) as u8,
            ((v >> 24) & 0xFF) as u8,
            ((v >> 32) & 0xFF) as u8,
            ((v >> 40) & 0xFF) as u8,
            ((v >> 48) & 0xFF) as u8,
            ((v >> 56) & 0xFF) as u8,
        ],
    }
}

/// Decoding the four bytes that spell a value gives the value back, under
/// either byte order.
pub proof fn lemma_u32_bytes_roundtrip(v: u32, order: ByteOrder)
    ensures
        u32_at(u32_bytes(v, order), 0, order) == v,
{
    reveal(u32_at);
    let b = u32_bytes(v, order);
    assert(((((v >> 24) & 0xFF) as u8) as u32) << 24 | ((((v >> 16) & 0xFF) as u8) as u32) << 16
        | ((((v >> 8) & 0xFF) as u8) as u32) << 8 | (((v & 0xFF) as u8) as u32) == v)
        by (bit_vector);
}

/// Decoding the four bytes that spell a signed value gives the value back.
pub proof fn lemma_i32_bytes_roundtrip(v: i32, order: ByteOrder)
    ensures
        i32_at(i32_bytes(v, order), 0, order) == v,
{
    lemma_u32_bytes_roundtrip(v as u32, order);
    assert((v as u32) as i32 == v) by (bit_vector);
}

/// Decoding the eight bytes that spell a value gives the value back, under
/// either byte order.
pub proof fn lemma_u64_bytes_roundtrip(v: u64, order: ByteOrder)
    ensures
        u64_at(u64_bytes(v, order), 0, order) == v,
{
    reveal(u64_at);
    let b = u64_bytes(v, order);
    assert(((((v >> 56) & 0xFF) as u8) as u64) << 56 | ((((v >> 48) & 0xFF) as u8) as u64) << 48
        | ((((v >> 40) & 0xFF) as u8) as u64) << 40 | ((((v >> 32) & 0xFF) as u8) as u64) << 32
        | ((((v >> 24) & 0xFF) as u8) as u64) << 24 | ((((v >> 16) & 0xFF) as u8) as u64) << 16
        | ((((v >> 8) & 0xFF) as u8) as u64) << 8 | (((v & 0xFF) as u8) as u64) == v)
        by (bit_vector);
}

/// Read one byte; the cursor advances by 1 on success and is
/// indeterminate on failure.
pub fn read_u8(data: &Vec<u8>, pos: &mut usize) -> (r: Result<u8, GeoError>)
    ensures
        in_bounds(data@, *old(pos) as int, 1) ==> r == Ok::<u8, GeoError>(
            data@[*old(pos) as int],
        ) && *final(pos) == *old(pos) + 1,
        !in_bounds(data@, *old(pos) as int, 1) ==> r == Err::<u8, GeoError>(GeoError::Io),
{
    if *pos < data.len() {
        let b = data[*pos];
        *pos = *pos + 1;
        Ok(b)
    } else {
        Err(GeoError::Io)
    }
}

/// Read an unsigned 32-bit value under `order`; the cursor advances by 4
/// on success and is indeterminate on failure.
pub fn read_u32(data: &Vec<u8>, pos: &mut usize, order: ByteOrder) -> (r: Result<u32, GeoError>)
    ensures
        in_bounds(data@, *old(pos) as int, 4) ==> r == Ok::<u32, GeoError>(
            u32_at(data@, *old(pos) as int, order),
        ) && *final(pos) == *old(pos) + 4,
        !in_bounds(data@, *old(pos) as int, 4) ==> r == Err::<u32, GeoError>(GeoError::Io),
{
    proof {
        reveal(u32_at);
    }
    if data.len() >= 4 && *pos <= data.len() - 4 {
        let p = *pos;
        let b0 = data[p];
        let b1 = data[p + 1];
        let b2 = data[p + 2];
        let b3 = data[p + 3];
        *pos = p + 4;
        match order {
            ByteOrder::BigEndian => Ok(
                ((b0 as u32) << 24) | ((b1 as u32) << 16) | ((b2 as u32) << 8) | (b3 as u32),
            ),
            ByteOrder::LittleEndian => Ok(
                ((b3 as u32) << 24) | ((b2 as u32) << 16) | ((b1 as u32) << 8) | (b0 as u32),
            ),
        }
    } else {
        Err(GeoError::Io)
    }
}

/// Read a signed 32-bit value under `order` (the two's complement
/// reinterpretation of the unsigned read).
pub fn read_i32(data: &Vec<u8>, pos: &mut usize, order: ByteOrder) -> (r: Result<i32, GeoError>)
    ensures
        in_bounds(data@, *old(pos) as int, 4) ==> r == Ok::<i32, GeoError>(
            i32_at(data@, *old(pos) as int, order),
        ) && *final(pos) == *old(pos) + 4,
        !in_bounds(data@, *old(pos) as int, 4) ==> r == Err::<i32, GeoError>(GeoError::Io),
{
    match read_u32(data, pos, order) {
        Ok(v) => Ok(#[verifier::truncate] (v as i32)),
        Err(e) => Err(e),
    }
}

/// Read one wire double under `order`, returned as its IEEE-754 bit
/// pattern; the cursor advances by 8 on success.
pub fn read_f64_bits(data: &Vec<u8>, pos: &mut usize, order: ByteOrder) -> (r: Result<
    u64,
    GeoError,
>)
    ensures
        in_bounds(data@, *old(pos) as int, 8) ==> r == Ok::<u64, GeoError>(
            u64_at(data@, *old(pos) as int, order),
        ) && *final(pos) == *old(pos) + 8,
        !in_bounds(data@, *old(pos) as int, 8) ==> r == Err::<u64, GeoError>(GeoError::Io),
{
    proof {
        reveal(u64_at);
    }
    if data.len() >= 8 && *pos <= data.len() - 8 {
        let p = *pos;
        let b0 = data[p];
        let b1 = data[p + 1];
        let b2 = data[p + 2];
        let b3 = data[p + 3];
        let b4 = data[p + 4];
        let b5 = data[p + 5];
        let b6 = data[p + 6];
        let b7 = data[p + 7];
        *pos = p + 8;
        match order {
            ByteOrder::BigEndian => Ok(
                ((b0 as u64) << 56) | ((b1 as u64) << 48) | ((b2 as u64) << 40) | ((b3 as u64)
                    << 32) | ((b4 as u64) << 24) | ((b5 as u64) << 16) | ((b6 as u64) << 8) | (
                b7 as u64),
            ),
            ByteOrder::LittleEndian => Ok(
                ((b7 as u64) << 56) | ((b6 as u64) << 48) | ((b5 as u64) << 40) | ((b4 as u64)
                    << 32) | ((b3 as u64) << 24) | ((b2 as u64) << 16) | ((b1 as u64) << 8) | (
                b0 as u64),
            ),
        }
    } else {
        Err(GeoError::Io)
    }
}

} // verus!
