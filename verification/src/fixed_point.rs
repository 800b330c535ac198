//! Exact conversion of the legacy animation format's fixed-point samples to
//! IEEE-754 single-precision bit patterns.
//!
//! The legacy keyframes store each scalar as a signed 16-bit integer that is
//! meant to be divided by a power of two (4096 for rotations, 1024 for
//! positions, 1 for times). Dividing an integer of magnitude below 2^16 by a
//! power of two is exact in single precision, so the resulting bit pattern
//! is a pure integer function of the sample, computed here without any
//! floating-point arithmetic.

use vstd::prelude::*;

verus! {

/// The bit pattern of +1.0 in IEEE-754 single precision.
pub const F32_BITS_ONE: u32 = 0x3F800000;

/// Floor of the base-2 logarithm for magnitudes below 2^16.
pub open spec fn spec_msb(m: int) -> int {
    if m < 2 {
        0
    } else if m < 4 {
        1
    } else if m < 8 {
        2
    } else if m < 16 {
        3
    } else if m < 32 {
        4
    } else if m < 64 {
        5
    } else if m < 128 {
        6
    } else if m < 256 {
        7
    } else if m < 512 {
        8
    } else if m < 1024 {
        9
    } else if m < 2048 {
        10
    } else if m < 4096 {
        11
    } else if m < 8192 {
        12
    } else if m < 16384 {
        13
    } else if m < 32768 {
        14
    } else {
        15
    }
}

/// Powers of two up to 2^23, the width of the single-precision fraction.
pub open spec fn spec_pow2s(n: int) -> int {
    if n <= 0 {
        1
    } else if n == 1 {
        2
    } else if n == 2 {
        4
    } else if n == 3 {
        8
    } else if n == 4 {
        16
    } else if n == 5 {
        32
    } else if n == 6 {
        64
    } else if n == 7 {
        128
    } else if n == 8 {
        256
    } else if n == 9 {
        512
    } else if n == 10 {
        1024
    } else if n == 11 {
        2048
    } else if n == 12 {
        4096
    } else if n == 13 {
        8192
    } else if n == 14 {
        16384
    } else if n == 15 {
        32768
    } else if n == 16 {
        65536
    } else if n == 17 {
        131072
    } else if n == 18 {
        262144
    } else if n == 19 {
        524288
    } else if n == 20 {
        1048576
    } else if n == 21 {
        2097152
    } else if n == 22 {
        4194304
    } else {
        8388608
    }
}

/// The IEEE-754 single-precision bit pattern of `v / 2^shift`, for a sample
/// of magnitude below 2^16 and a power-of-two divisor up to 2^12. The
/// quotient `v / 2^shift` is exactly representable: its significand needs at
/// most 16 bits, so no rounding is involved and the pattern below is the
/// unique representation of the value.
pub open spec fn spec_f32_bits_scaled(v: int, shift: int) -> u32 {
    if v == 0 {
        0
    } else {
        let m = if v < 0 {
            -v
        } else {
            v
        };
        let sign: int = if v < 0 {
            0x80000000
        } else {
            0
        };
        let p = spec_msb(m);
        let frac = (m - spec_pow2s(p)) * spec_pow2s(23 - p);
        (sign + (127 + p - shift) * 0x800000 + frac) as u32
    }
}

/// For magnitudes in range, `spec_msb` brackets its argument between
/// consecutive powers of two.
proof fn lemma_msb_brackets(m: int)
    requires
        1 <= m < 65536,
    ensures
        spec_pow2s(spec_msb(m)) <= m < 2 * spec_pow2s(spec_msb(m)),
        0 <= spec_msb(m) <= 15,
        spec_pow2s(spec_msb(m)) * spec_pow2s(23 - spec_msb(m)) == 0x800000,
{
}

/// Computes the IEEE-754 single-precision bit pattern of `v / 2^shift`
/// without floating-point arithmetic.
pub fn f32_bits_scaled(v: i32, shift: u32) -> (r: u32)
    requires
        -65535 <= v <= 65535,
        shift <= 12,
    ensures
        r == spec_f32_bits_scaled(v as int, shift as int),
{
    if v == 0 {
        return 0;
    }
    let neg = v < 0;
    let m: u32 = if neg {
        (-v) as u32
    } else {
        v as u32
    };
    let p: u32 = if m < 2 {
        0
    } else if m < 4 {
        1
    } else if m < 8 {
        2
    } else if m < 16 {
        3
    } else if m < 32 {
        4
    } else if m < 64 {
        5
    } else if m < 128 {
        6
    } else if m < 256 {
        7
    } else if m < 512 {
        8
    } else if m < 1024 {
        9
    } else if m < 2048 {
        10
    } else if m < 4096 {
        11
    } else if m < 8192 {
        12
    } else if m < 16384 {
        13
    } else if m < 32768 {
        14
    } else {
        15
    };
    let scale: u32 = match 23 - p {
        8 => 256,
        9 => 512,
        10 => 1024,
        11 => 2048,
        12 => 4096,
        13 => 8192,
        14 => 16384,
        15 => 32768,
        16 => 65536,
        17 => 131072,
        18 => 262144,
        19 => 524288,
        20 => 1048576,
        21 => 2097152,
        22 => 4194304,
        _ => 8388608,
    };
    let base: u32 = match p {
        0 => 1,
        1 => 2,
        2 => 4,
        3 => 8,
        4 => 16,
        5 => 32,
        6 => 64,
        7 => 128,
        8 => 256,
        9 => 512,
        10 => 1024,
        11 => 2048,
        12 => 4096,
        13 => 8192,
        14 => 16384,
        _ => 32768,
    };
    proof {
        lemma_msb_brackets(m as int);
        assert(p == spec_msb(m as int));
        assert(base == spec_pow2s(p as int));
        assert(scale == spec_pow2s(23 - p as int));
        assert((m - base) * scale < 0x800000) by (nonlinear_arith)
            requires
                m < 2 * base,
                base <= m,
                base * scale == 0x800000,
        ;
        assert((m - base) * scale >= 0) by (nonlinear_arith)
            requires
                base <= m,
                scale >= 1,
        ;
    }
    let frac: u32 = (m - base) * scale;
    let e: u32 = 127 + p - shift;
    let sign: u32 = if neg {
        0x80000000
    } else {
        0
    };
    sign + e * 0x800000 + frac
}

} // verus!
