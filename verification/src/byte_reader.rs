use crate::errors::Error;
use vstd::prelude::*;

verus! {

/// Big-endian u16 formed by the two bytes of `data` starting at index `i`.
pub open spec fn be_u16_at(data: Seq<u8>, i: int) -> u16 {
    (data[i] * 0x100 + data[i + 1]) as u16
}

/// Big-endian u32 formed by the four bytes of `data` starting at index `i`.
pub open spec fn be_u32_at(data: Seq<u8>, i: int) -> u32 {
    (data[i] * 0x1000000 + data[i + 1] * 0x10000 + data[i + 2] * 0x100 + data[i + 3]) as u32
}

/// Big-endian i16: the two bytes starting at `i`, read as two's complement.
pub open spec fn be_i16_at(data: Seq<u8>, i: int) -> i16 {
    if be_u16_at(data, i) < 0x8000 {
        be_u16_at(data, i) as i16
    } else {
        (be_u16_at(data, i) - 0x10000) as i16
    }
}

/// Reads the byte at `pos`, or fails when `pos` lies outside the buffer.
pub fn read_u8(data: &Vec<u8>, pos: u64) -> (r: Result<u8, Error>)
    ensures
        match r {
            Ok(v) => pos + 1 <= data@.len() && v == data@[pos as int],
            Err(e) => e == Error::BoundsError && pos + 1 > data@.len(),
        },
{
    if pos < data.len() as u64 {
        Ok(data[pos as usize])
    } else {
        Err(Error::BoundsError)
    }
}

/// Reads a big-endian u16 at `pos`, or fails when the range leaves the buffer.
pub fn read_u16_be(data: &Vec<u8>, pos: u64) -> (r: Result<u16, Error>)
    ensures
        match r {
            Ok(v) => pos + 2 <= data@.len() && v == be_u16_at(data@, pos as int),
            Err(e) => e == Error::BoundsError && pos + 2 > data@.len(),
        },
{
    let len = data.len() as u64;
    if len >= 2 && pos <= len - 2 {
        let p = pos as usize;
        let b0 = data[p] as u16;
        let b1 = data[p + 1] as u16;
        Ok(b0 * 0x100 + b1)
    } else {
        Err(Error::BoundsError)
    }
}

/// Reads a big-endian u32 at `pos`, or fails when the range leaves the buffer.
pub fn read_u32_be(data: &Vec<u8>, pos: u64) -> (r: Result<u32, Error>)
    ensures
        match r {
            Ok(v) => pos + 4 <= data@.len() && v == be_u32_at(data@, pos as int),
            Err(e) => e == Error::BoundsError && pos + 4 > data@.len(),
        },
{
    let len = data.len() as u64;
    if len >= 4 && pos <= len - 4 {
        let p = pos as usize;
        let b0 = data[p] as u32;
        let b1 = data[p + 1] as u32;
        let b2 = data[p + 2] as u32;
        let b3 = data[p + 3] as u32;
        Ok(b0 * 0x1000000 + b1 * 0x10000 + b2 * 0x100 + b3)
    } else {
        Err(Error::BoundsError)
    }
}

/// Reads a big-endian i16 at `pos`, or fails when the range leaves the buffer.
pub fn read_i16_be(data: &Vec<u8>, pos: u64) -> (r: Result<i16, Error>)
    ensures
        match r {
            Ok(v) => pos + 2 <= data@.len() && v == be_i16_at(data@, pos as int),
            Err(e) => e == Error::BoundsError && pos + 2 > data@.len(),
        },
{
    match read_u16_be(data, pos) {
        Ok(u) => {
            if u < 0x8000 {
                Ok(u as i16)
            } else {
                Ok((u as i32 - 0x10000) as i16)
            }
        },
        Err(e) => Err(e),
    }
}

/// Big-endian u16 taken from an eight-byte command word.
pub fn word_u16_be(w: &[u8; 8], i: usize) -> (v: u16)
    requires
        i + 2 <= 8,
    ensures
        v == be_u16_at(w@, i as int),
{
    let b0 = w[i] as u16;
    let b1 = w[i + 1] as u16;
    b0 * 0x100 + b1
}

/// Big-endian u32 taken from an eight-byte command word.
pub fn word_u32_be(w: &[u8; 8], i: usize) -> (v: u32)
    requires
        i + 4 <= 8,
    ensures
        v == be_u32_at(w@, i as int),
{
    let b0 = w[i] as u32;
    let b1 = w[i + 1] as u32;
    let b2 = w[i + 2] as u32;
    let b3 = w[i + 3] as u32;
    b0 * 0x1000000 + b1 * 0x10000 + b2 * 0x100 + b3
}

/// Reads the eight bytes starting at `pos`, or fails when the range leaves
/// the buffer.
pub fn read_word8(data: &Vec<u8>, pos: u64) -> (r: Result<[u8; 8], Error>)
    ensures
        match r {
            Ok(w) => pos + 8 <= data@.len() && w@ == data@.subrange(pos as int, pos as int + 8),
            Err(e) => e == Error::BoundsError && pos + 8 > data@.len(),
        },
{
    let len = data.len() as u64;
    if len >= 8 && pos <= len - 8 {
        let p = pos as usize;
        let w = [
            data[p],
            data[p + 1],
            data[p + 2],
            data[p + 3],
            data[p + 4],
            data[p + 5],
            data[p + 6],
            data[p + 7],
        ];
        proof {
            assert(w@ =~= data@.subrange(pos as int, pos as int + 8));
        }
        Ok(w)
    } else {
        Err(Error::BoundsError)
    }
}

} // verus!
