use vstd::prelude::*;

verus! {

/// Whether any bit of `mask` is set in `v`.
#[verifier::allow_in_spec]
pub fn flag(v: u8, mask: u8) -> bool
    returns
        v & mask != 0,
{
    v & mask != 0
}

/// `v` with the bits of `mask` set, or cleared, as `on` says.
#[verifier::allow_in_spec]
pub fn with_flag(v: u8, mask: u8, on: bool) -> u8
    returns
        (if on {
            v | mask
        } else {
            v & !mask
        }),
{
    if on {
        v | mask
    } else {
        v & !mask
    }
}

/// The byte at place `k` (0 to 3, lowest first) of a word.
pub open spec fn spec_byte_of(v: u32, k: int) -> u8 {
    if k == 0 {
        (v % 0x100) as u8
    } else if k == 1 {
        (v / 0x100 % 0x100) as u8
    } else if k == 2 {
        (v / 0x1_0000 % 0x100) as u8
    } else {
        (v / 0x100_0000) as u8
    }
}

/// The word made of four bytes, lowest first.
pub open spec fn spec_word_of(b0: u8, b1: u8, b2: u8, b3: u8) -> u32 {
    (b0 + b1 * 0x100 + b2 * 0x1_0000 + b3 * 0x100_0000) as u32
}

/// The word `v` with the byte at place `k` (0 to 3) replaced by `data`.
pub open spec fn spec_replace_byte(v: u32, k: int, data: u8) -> u32 {
    spec_word_of(
        if k == 0 {
            data
        } else {
            spec_byte_of(v, 0)
        },
        if k == 1 {
            data
        } else {
            spec_byte_of(v, 1)
        },
        if k == 2 {
            data
        } else {
            spec_byte_of(v, 2)
        },
        if k == 3 {
            data
        } else {
            spec_byte_of(v, 3)
        },
    )
}

pub fn byte_of(v: u32, k: u8) -> (r: u8)
    requires
        k < 4,
    ensures
        r == spec_byte_of(v, k as int),
{
    if k == 0 {
        (v % 0x100) as u8
    } else if k == 1 {
        (v / 0x100 % 0x100) as u8
    } else if k == 2 {
        (v / 0x1_0000 % 0x100) as u8
    } else {
        (v / 0x100_0000) as u8
    }
}

pub fn word_of(b0: u8, b1: u8, b2: u8, b3: u8) -> (r: u32)
    ensures
        r == spec_word_of(b0, b1, b2, b3),
{
    b0 as u32 + (b1 as u32) * 0x100 + (b2 as u32) * 0x1_0000 + (b3 as u32) * 0x100_0000
}

pub fn replace_byte(v: u32, k: u8, data: u8) -> (r: u32)
    requires
        k < 4,
    ensures
        r == spec_replace_byte(v, k as int, data),
{
    word_of(
        if k == 0 {
            data
        } else {
            byte_of(v, 0)
        },
        if k == 1 {
            data
        } else {
            byte_of(v, 1)
        },
        if k == 2 {
            data
        } else {
            byte_of(v, 2)
        },
        if k == 3 {
            data
        } else {
            byte_of(v, 3)
        },
    )
}

/// The four bytes of a word made of four bytes are those bytes.
pub proof fn lemma_word_bytes(b0: u8, b1: u8, b2: u8, b3: u8)
    ensures
        spec_byte_of(spec_word_of(b0, b1, b2, b3), 0) == b0,
        spec_byte_of(spec_word_of(b0, b1, b2, b3), 1) == b1,
        spec_byte_of(spec_word_of(b0, b1, b2, b3), 2) == b2,
        spec_byte_of(spec_word_of(b0, b1, b2, b3), 3) == b3,
{
    let hi: int = b1 + b2 * 0x100 + b3 * 0x1_0000;
    let v: int = b0 + hi * 0x100;
    assert(v == b0 + b1 * 0x100 + b2 * 0x1_0000 + b3 * 0x100_0000);
    assert(0 <= v <= 0xFFFF_FFFF);
    assert(v % 0x100 == b0 as int);
    assert(v / 0x100 == hi);
    let top: int = b2 + b3 * 0x100;
    assert(hi == b1 + top * 0x100);
    assert(hi % 0x100 == b1 as int);
    assert(hi / 0x100 == top);
    assert(v / 0x1_0000 == top);
    assert(top % 0x100 == b2 as int);
    assert(v / 0x100_0000 == b3 as int);
}

/// A byte put into a word is read back at its place, and the other three
/// bytes stay.
pub proof fn lemma_replace_byte(v: u32, k: int, data: u8, j: int)
    requires
        0 <= k < 4,
        0 <= j < 4,
    ensures
        spec_byte_of(spec_replace_byte(v, k, data), k) == data,
        j != k ==> spec_byte_of(spec_replace_byte(v, k, data), j) == spec_byte_of(v, j),
{
    lemma_word_bytes(
        if k == 0 {
            data
        } else {
            spec_byte_of(v, 0)
        },
        if k == 1 {
            data
        } else {
            spec_byte_of(v, 1)
        },
        if k == 2 {
            data
        } else {
            spec_byte_of(v, 2)
        },
        if k == 3 {
            data
        } else {
            spec_byte_of(v, 3)
        },
    );
}

/// The array whose elements are those of `s`, one for one.
pub open spec fn array_of<T, const N: usize>(s: Seq<T>) -> [T; N] {
    choose|a: [T; N]| a@ == s
}

/// An array is the array of its own elements.
pub proof fn lemma_array_of<T, const N: usize>(a: [T; N])
    ensures
        array_of::<T, N>(a@) == a,
{
    let b = array_of::<T, N>(a@);
    assert(b@ == a@);
    assert(b =~= a);
}

/// Replacing the digit of `width` values at `unit` in `x` changes that digit
/// and nothing below or above it.
pub proof fn lemma_field_swap(x: int, unit: int, width: int, value: int)
    requires
        x >= 0,
        unit > 0,
        width > 0,
        value >= 0,
    ensures
        ({
            let y = x - (x / unit % width) * unit + (value % width) * unit;
            &&& 0 <= y
            &&& y / unit % width == value % width
            &&& y % unit == x % unit
            &&& y / (unit * width) == x / (unit * width)
            &&& y <= x + (width - 1) * unit
            &&& y - (value % width) * unit <= x
        }),
{
    let lo = x % unit;
    let q = x / unit;
    let d = q % width;
    let hi = q / width;
    let v = value % width;
    let y = x - d * unit + v * unit;
    vstd::arithmetic::div_mod::lemma_fundamental_div_mod(x, unit);
    vstd::arithmetic::div_mod::lemma_fundamental_div_mod(q, width);
    assert(x == unit * q + lo);
    assert(q == width * hi + d);
    assert(0 <= lo < unit && 0 <= d < width && 0 <= v < width);
    assert(q >= 0 && hi >= 0) by (nonlinear_arith)
        requires
            x >= 0,
            unit > 0,
            width > 0,
            q == x / unit,
            hi == q / width,
    ;
    let q2 = width * hi + v;
    assert(y == unit * q2 + lo) by (nonlinear_arith)
        requires
            y == x - d * unit + v * unit,
            x == unit * q + lo,
            q == width * hi + d,
            q2 == width * hi + v,
    ;
    vstd::arithmetic::div_mod::lemma_fundamental_div_mod_converse(y, unit, q2, lo);
    vstd::arithmetic::div_mod::lemma_fundamental_div_mod_converse(q2, width, hi, v);
    vstd::arithmetic::div_mod::lemma_div_denominator(y, unit, width);
    vstd::arithmetic::div_mod::lemma_div_denominator(x, unit, width);
    assert(0 <= y) by (nonlinear_arith)
        requires
            y == unit * q2 + lo,
            q2 == width * hi + v,
            unit > 0,
            width > 0,
            hi >= 0,
            v >= 0,
            lo >= 0,
    ;
    assert(y <= x + (width - 1) * unit && y - v * unit <= x) by (nonlinear_arith)
        requires
            y == x - d * unit + v * unit,
            0 <= d < width,
            0 <= v < width,
            unit > 0,
    ;
}

} // verus!
