use vstd::prelude::*;

verus! {

/// A `bool` as binaryen's C API takes it (an `int8_t` flag, such as the
/// `signed_` of a load or the `mutable_` of a global).
pub fn c_flag(b: bool) -> (r: i8)
    ensures
        r == (if b { 1i8 } else { 0i8 }),
{
    if b {
        1
    } else {
        0
    }
}

/// A length as binaryen's `BinaryenIndex` (an unsigned 32-bit count): the
/// value modulo 2^32, as the integer conversion gives it.
pub fn c_index(n: usize) -> (r: u32)
    ensures
        r as int == n as int % 0x1_0000_0000,
{
    let r = n as u32;
    assert(r == n as int % 0x1_0000_0000) by (bit_vector)
        requires
            r == n as u32,
    ;
    r
}

/// The two's-complement reading of the 32 bits of `v`: the `int32_t`
/// that binaryen's `i32` literal is made from.
pub open spec fn signed_of_u32(v: u32) -> int {
    if v < 0x8000_0000 {
        v as int
    } else {
        v - 0x1_0000_0000
    }
}

/// The two's-complement reading of the 64 bits of `v`: the `int64_t`
/// that binaryen's `i64` literal is made from.
pub open spec fn signed_of_u64(v: u64) -> int {
    if v < 0x8000_0000_0000_0000 {
        v as int
    } else {
        v - 0x1_0000_0000_0000_0000
    }
}

/// The bits of an `i32` literal, read as a signed integer. No bit is lost:
/// reading the result back as unsigned gives `v`.
pub fn int32_bits(v: u32) -> (r: i32)
    ensures
        r as int == signed_of_u32(v),
        r as u32 == v,
{
    let r = v as i32;
    assert(r as int == (if v < 0x8000_0000 { v as int } else { v - 0x1_0000_0000 })) by (bit_vector)
        requires
            r == v as i32,
    ;
    assert(r as u32 == v) by (bit_vector)
        requires
            r == v as i32,
    ;
    r
}

/// The bits of an `i64` literal, read as a signed integer. No bit is lost:
/// reading the result back as unsigned gives `v`.
pub fn int64_bits(v: u64) -> (r: i64)
    ensures
        r as int == signed_of_u64(v),
        r as u64 == v,
{
    let r = v as i64;
    assert(r as int == (if v < 0x8000_0000_0000_0000 { v as int } else { v - 0x1_0000_0000_0000_0000 })) by (bit_vector)
        requires
            r == v as i64,
    ;
    assert(r as u64 == v) by (bit_vector)
        requires
            r == v as i64,
    ;
    r
}

} // verus!
