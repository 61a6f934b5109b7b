//! Conversion to the C `int` of the Xen libraries.

use vstd::prelude::*;

verus! {

/// What is left of `n` in a C `int`: the number in `i32`'s range that differs
/// from `n` by a multiple of 2^32.
pub open spec fn c_int(n: int) -> int {
    let low = n % 0x1_0000_0000;
    if low < 0x8000_0000 {
        low
    } else {
        low - 0x1_0000_0000
    }
}

/// A size cast to a C `int`, as the exact transfers compare it to a return code.
pub fn usize_to_c_int(n: usize) -> (r: i32)
    ensures
        r == c_int(n as int),
{
    let r: i32 = #[verifier::truncate] (n as i32);
    proof {
        let wide: u64 = n as u64;
        assert(wide as i32 == if wide % 0x1_0000_0000 < 0x8000_0000 {
            (wide % 0x1_0000_0000) as int
        } else {
            wide % 0x1_0000_0000 - 0x1_0000_0000
        }) by (bit_vector);
        assert(n as i32 == (n as u64) as i32) by (bit_vector);
    }
    r
}

/// A domain id cast to a C `int`.
pub fn u32_to_c_int(n: u32) -> (r: i32)
    ensures
        r == c_int(n as int),
{
    let r: i32 = #[verifier::truncate] (n as i32);
    proof {
        assert(n as i32 == if n < 0x8000_0000 {
            n as int
        } else {
            n - 0x1_0000_0000
        }) by (bit_vector);
    }
    r
}

/// The cast keeps the low 32 bits: what is left lies in the range of a C `int`
/// and differs from the number by a multiple of 2^32.
pub proof fn law_c_int_keeps_the_low_bits(n: int)
    ensures
        -0x8000_0000 <= c_int(n) < 0x8000_0000,
        (n - c_int(n)) % 0x1_0000_0000 == 0,
{
}

/// A number that fits in a C `int` is kept as it is.
pub proof fn law_c_int_keeps_small_numbers(n: int)
    requires
        0 <= n <= i32::MAX,
    ensures
        c_int(n) == n,
{
}

/// Both casts keep the low 32 bits of the number.
pub proof fn law_casts_keep_the_low_bits(size: usize, domid: u32, cast_size: i32, cast_domid: i32)
    requires
        call_ensures(usize_to_c_int, (size,), cast_size),
        call_ensures(u32_to_c_int, (domid,), cast_domid),
    ensures
        (size - cast_size) % 0x1_0000_0000 == 0,
        (domid - cast_domid) % 0x1_0000_0000 == 0,
{
}

} // verus!
