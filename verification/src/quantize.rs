//! From single precision channel values to bytes.
//!
//! A channel value is held as the bit pattern of an IEEE 754 single precision number: one sign
//! bit, eight exponent bits, twenty-three fraction bits. Quantizing clamps the number to the range
//! from zero to one, multiplies it by 255 in single precision and rounds the product to the nearest
//! integer, halves upwards. What is not a number becomes zero.

use vstd::arithmetic::power2::{
    lemma2_to64, lemma2_to64_rest, lemma_pow2_pos, lemma_pow2_strictly_increases, pow2,
};
use vstd::bits::lemma_u64_shl_is_mul;
use vstd::prelude::*;

verus! {

/// The bit pattern of the number one.
pub const ONE: u32 = 0x3F80_0000;

/// The bit pattern of positive infinity.
pub const INFINITY: u32 = 0x7F80_0000;

/// The first bit pattern whose sign bit is set.
pub const SIGN: u32 = 0x8000_0000;

/// The eight exponent bits.
pub open spec fn exponent(word: u32) -> int {
    (word as int / 0x80_0000) % 0x100
}

/// The twenty-three fraction bits.
pub open spec fn fraction(word: u32) -> int {
    word as int % 0x80_0000
}

/// Whether the sign bit is set.
pub open spec fn is_negative(word: u32) -> bool {
    word >= SIGN
}

/// Whether the bit pattern stands for no number.
pub open spec fn is_nan(word: u32) -> bool {
    exponent(word) == 0xFF && fraction(word) != 0
}

/// The significand as an integer: the fraction bits, below an implied one unless the exponent bits
/// are all zero.
pub open spec fn significand(word: u32) -> int {
    if exponent(word) == 0 {
        fraction(word)
    } else {
        0x80_0000 + fraction(word)
    }
}

/// The power of two by which the significand is divided to give the magnitude. Meant for exponent
/// bits up to 150.
pub open spec fn scale(word: u32) -> int {
    if exponent(word) == 0 {
        pow2(149) as int
    } else {
        pow2((150 - exponent(word)) as nat) as int
    }
}

/// The multiple of `step` that is nearest to `n`; between two equally near ones, the even multiple.
pub open spec fn nearest_even_multiple(n: int, step: int) -> int {
    let low = n / step;
    let rest = n % step;
    if 2 * rest < step || (2 * rest == step && low % 2 == 0) {
        low * step
    } else {
        (low + 1) * step
    }
}

/// The product of 255 and a significand, rounded to the twenty-four significant bits of a single
/// precision number. The product has 31 or 32 bits.
pub open spec fn round_product(product: int) -> int {
    if product < 0x8000_0000 {
        nearest_even_multiple(product, 0x80)
    } else {
        nearest_even_multiple(product, 0x100)
    }
}

/// The integer nearest to `n / step`, halves upwards.
pub open spec fn nearest_integer(n: int, step: int) -> int {
    (2 * n + step) / (2 * step)
}

/// The byte for a channel value.
pub open spec fn quantized(word: u32) -> u8 {
    if is_nan(word) || is_negative(word) || exponent(word) == 0 {
        0
    } else if word >= ONE {
        255
    } else {
        nearest_integer(round_product(255 * significand(word)), scale(word)) as u8
    }
}

/// Rounding moves a product by at most half of the larger step.
proof fn lemma_round_product_near(product: int)
    requires
        0 <= product < 0x1_0000_0000,
    ensures
        product - 0x80 <= round_product(product) <= product + 0x80,
        0 <= round_product(product),
        product <= 255 * 0xFF_FFFF ==> round_product(product) <= 255 * 0x100_0000,
{
    let step: int = if product < 0x8000_0000 { 0x80 } else { 0x100 };
    assert(product == step * (product / step) + product % step);
}

/// A number below 2^-9 is nearest to zero once it is multiplied by 255.
proof fn lemma_small_is_zero(word: u32)
    requires
        exponent(word) < 118,
    ensures
        scale(word) >= 0x2_0000_0000,
        exponent(word) > 0 ==> nearest_integer(
            round_product(255 * significand(word)),
            scale(word),
        ) == 0,
{
    lemma2_to64_rest();
    let bits: nat = if exponent(word) == 0 { 149 } else { (150 - exponent(word)) as nat };
    if bits > 33 {
        lemma_pow2_strictly_increases(33, bits);
    }
    if exponent(word) > 0 {
        let product = 255 * significand(word);
        lemma_round_product_near(product);
        let rounded = round_product(product);
        let step = scale(word);
        vstd::arithmetic::div_mod::lemma_basic_div(2 * rounded + step, 2 * step);
    }
}

/// Turns a channel value, given as its bit pattern, into a byte.
pub fn quantize(word: u32) -> (byte: u8)
    ensures
        byte == quantized(word),
{
    if word >= SIGN || word > INFINITY {
        return 0;
    }
    if word >= ONE {
        return 255;
    }
    let exponent_bits: u32 = word / 0x80_0000;
    let fraction_bits: u32 = word % 0x80_0000;
    if exponent_bits < 118 {
        proof {
            lemma_small_is_zero(word);
        }
        return 0;
    }
    let product: u64 = 255 * (0x80_0000 + fraction_bits as u64);
    let step: u64 = if product < 0x8000_0000 {
        0x80
    } else {
        0x100
    };
    let low: u64 = product / step;
    let rest: u64 = product % step;
    let rounded: u64 = if 2 * rest < step || (2 * rest == step && low % 2 == 0) {
        low * step
    } else {
        (low + 1) * step
    };
    let bits: u64 = (150 - exponent_bits) as u64;
    proof {
        lemma2_to64();
        lemma2_to64_rest();
        lemma_round_product_near(product as int);
        lemma_u64_shl_is_mul(1, bits);
    }
    let scale: u64 = 1u64 << bits;
    assert(scale == crate::quantize::scale(word));
    assert(rounded == round_product(255 * significand(word)));
    let byte: u64 = (2 * rounded + scale) / (2 * scale);
    byte as u8
}

/// Whether 255 times the channel value lies within a quarter of the byte. This leaves room for the
/// error with which any backend divides a byte by 255.
pub open spec fn normalizes(word: u32, byte: u8) -> bool {
    let product = if is_negative(word) {
        -255 * significand(word)
    } else {
        255 * significand(word)
    };
    &&& exponent(word) <= 127
    &&& 4 * (product - byte * scale(word)) <= scale(word)
    &&& 4 * (byte * scale(word) - product) <= scale(word)
}

/// A quotient is known by its bounds.
proof fn lemma_quotient(n: int, step: int, quotient: int)
    requires
        step > 0,
        quotient * step <= n,
        n < (quotient + 1) * step,
    ensures
        n / step == quotient,
{
    assert((quotient + 1) * step == quotient * step + step) by (nonlinear_arith);
    vstd::arithmetic::div_mod::lemma_fundamental_div_mod_converse(
        n,
        step,
        quotient,
        n - quotient * step,
    );
}

/// Quantizing undoes normalizing: a channel value that came from dividing a byte by 255, however
/// roughly, is turned back into that byte.
pub proof fn law_quantize_undoes_normalize(word: u32, byte: u8)
    requires
        normalizes(word, byte),
    ensures
        quantized(word) == byte,
{
    let step = scale(word);
    let product = 255 * significand(word);
    let b = byte as int;
    lemma2_to64();
    lemma2_to64_rest();
    assert(step > 0) by {
        lemma_pow2_pos(149);
        if exponent(word) > 0 {
            lemma_pow2_pos((150 - exponent(word)) as nat);
        }
    }
    if is_negative(word) || exponent(word) < 118 {
        if exponent(word) < 118 {
            lemma_small_is_zero(word);
        }
        assert(b >= 1 ==> b * step >= step) by (nonlinear_arith)
            requires
                step > 0,
        ;
    } else if word >= ONE {
        assert(b <= 254 ==> b * step <= 254 * step) by (nonlinear_arith)
            requires
                step > 0,
        ;
    } else {
        lemma_round_product_near(product);
        let rounded = round_product(product);
        assert(b * (2 * step) == 2 * (b * step)) by (nonlinear_arith);
        assert((b + 1) * (2 * step) == 2 * (b * step) + 2 * step) by (nonlinear_arith);
        lemma_quotient(2 * rounded + step, 2 * step, b);
    }
}

/// What is out of range saturates: negative numbers and what is no number become 0, as do the
/// smallest numbers, and numbers from one upwards become 255.
pub proof fn law_out_of_range_saturates(word: u32)
    ensures
        0x8000_0000 <= word ==> quantized(word) == 0,
        0x7F80_0000 < word < 0x8000_0000 ==> quantized(word) == 0,
        0x3F80_0000 <= word <= 0x7F80_0000 ==> quantized(word) == 255,
        word < 0x80_0000 ==> quantized(word) == 0,
{
}

/// There is one nearest multiple, once the even one is taken of two.
proof fn lemma_nearest_even_multiple_is_unique(n: int, step: int, multiple: int)
    requires
        step == 0x80 || step == 0x100,
        0 <= n,
        multiple % step == 0,
        -step <= 2 * (multiple - n) <= step,
        2 * (multiple - n) == step || 2 * (multiple - n) == -step ==> (multiple / step) % 2 == 0,
    ensures
        multiple == nearest_even_multiple(n, step),
{
    let low = n / step;
    assert(n == step * low + n % step);
    assert(multiple == step * (multiple / step));
    if step == 0x80 {
        assert(multiple / 0x80 == low || multiple / 0x80 == low + 1);
    } else {
        assert(multiple / 0x100 == low || multiple / 0x100 == low + 1);
    }
}

/// The nearest integer is at most half a step away, or exactly half a step below.
proof fn lemma_nearest_integer_bounds(n: int, step: int)
    requires
        step > 0,
    ensures
        (2 * nearest_integer(n, step) - 1) * step <= 2 * n,
        2 * n < (2 * nearest_integer(n, step) + 1) * step,
{
    let nearest = nearest_integer(n, step);
    vstd::arithmetic::div_mod::lemma_fundamental_div_mod(2 * n + step, 2 * step);
    vstd::arithmetic::div_mod::lemma_mod_bound(2 * n + step, 2 * step);
    assert((2 * nearest - 1) * step == (2 * step) * nearest - step) by (nonlinear_arith);
    assert((2 * nearest + 1) * step == (2 * step) * nearest + step) by (nonlinear_arith);
}

/// Below one, the byte is the nearest integer to the rounded product.
proof fn lemma_quantized_below_one(word: u32)
    requires
        0x80_0000 <= word < 0x3F80_0000,
    ensures
        quantized(word) == nearest_integer(round_product(255 * significand(word)), scale(word)),
        scale(word) == pow2((150 - word as int / 0x80_0000) as nat),
        scale(word) > 0,
        significand(word) == 0x80_0000 + word as int % 0x80_0000,
{
    assert(exponent(word) == word as int / 0x80_0000);
    lemma_pow2_pos((150 - exponent(word)) as nat);
    if exponent(word) < 118 {
        lemma_small_is_zero(word);
    } else {
        lemma_below_one(word);
    }
}

/// Between zero and one, the byte is the product of the number and 255, rounded twice: first to a
/// single precision number, halves to even, then to an integer, halves upwards. The number is
/// `(0x80_0000 + fraction) / scale`, and `rounded / scale` is the rounded product.
pub proof fn law_quantize_rounds_product(word: u32, rounded: int)
    requires
        0x80_0000 <= word < 0x3F80_0000,
        ({
            let product = 255 * (0x80_0000 + word as int % 0x80_0000);
            let step: int = if product < 0x8000_0000 { 0x80 } else { 0x100 };
            &&& rounded % step == 0
            &&& -step <= 2 * (rounded - product) <= step
            &&& 2 * (rounded - product) == step || 2 * (rounded - product) == -step ==> (rounded
                / step) % 2 == 0
        }),
    ensures
        ({
            let scale = pow2((150 - word as int / 0x80_0000) as nat) as int;
            let byte = quantized(word) as int;
            &&& (2 * byte - 1) * scale <= 2 * rounded
            &&& 2 * rounded < (2 * byte + 1) * scale
        }),
{
    let product = 255 * (0x80_0000 + word as int % 0x80_0000);
    let step: int = if product < 0x8000_0000 { 0x80 } else { 0x100 };
    lemma_nearest_even_multiple_is_unique(product, step, rounded);
    lemma_quantized_below_one(word);
    lemma_nearest_integer_bounds(rounded, scale(word));
}

/// Between zero and one, the byte is nearest to the product of the number and 255, up to the error of
/// one single precision rounding.
pub proof fn law_byte_is_nearest(word: u32)
    requires
        0x80_0000 <= word < 0x3F80_0000,
    ensures
        ({
            let product = 255 * (0x80_0000 + word as int % 0x80_0000);
            let scale = pow2((150 - word as int / 0x80_0000) as nat) as int;
            let byte = quantized(word) as int;
            -(scale + 0x100) <= 2 * product - 2 * (byte * scale) <= scale + 0x100
        }),
{
    let product = 255 * (0x80_0000 + word as int % 0x80_0000);
    let size = scale(word);
    let byte = quantized(word) as int;
    lemma_round_product_near(product);
    lemma_quantized_below_one(word);
    lemma_nearest_integer_bounds(round_product(product), size);
    assert((2 * byte - 1) * size == 2 * (byte * size) - size) by (nonlinear_arith);
    assert((2 * byte + 1) * size == 2 * (byte * size) + size) by (nonlinear_arith);
}

/// A larger number of steps gives a larger multiple.
proof fn lemma_nearest_even_multiple_monotone(a: int, b: int, step: int)
    requires
        step == 0x80 || step == 0x100,
        0 <= a <= b,
    ensures
        nearest_even_multiple(a, step) <= nearest_even_multiple(b, step),
{
    assert(a == step * (a / step) + a % step);
    assert(b == step * (b / step) + b % step);
    assert(a / step <= b / step);
}

/// Rounding keeps the order of products.
proof fn lemma_round_product_monotone(a: int, b: int)
    requires
        0 <= a <= b,
    ensures
        round_product(a) <= round_product(b),
{
    if a < 0x8000_0000 && b >= 0x8000_0000 {
        lemma_nearest_even_multiple_monotone(a, 0x8000_0000, 0x80);
        lemma_nearest_even_multiple_monotone(0x8000_0000, b, 0x100);
    } else if a < 0x8000_0000 {
        lemma_nearest_even_multiple_monotone(a, b, 0x80);
    } else {
        lemma_nearest_even_multiple_monotone(a, b, 0x100);
    }
}

/// The nearest integer grows with the number and shrinks with the step.
proof fn lemma_nearest_integer_monotone(a: int, b: int, larger: int, smaller: int)
    requires
        0 <= a,
        0 < smaller <= larger,
        a * smaller <= b * larger,
    ensures
        nearest_integer(a, larger) <= nearest_integer(b, smaller),
{
    let q = nearest_integer(a, larger);
    vstd::arithmetic::div_mod::lemma_fundamental_div_mod(2 * a + larger, 2 * larger);
    assert(q * (2 * larger) <= 2 * a + larger) by {
        vstd::arithmetic::div_mod::lemma_mod_bound(2 * a + larger, 2 * larger);
        assert(q * (2 * larger) == (2 * larger) * q) by (nonlinear_arith);
    }
    assert(q * (2 * smaller) <= 2 * b + smaller) by (nonlinear_arith)
        requires
            q * (2 * larger) <= 2 * a + larger,
            a * smaller <= b * larger,
            0 < smaller,
            0 < larger,
    ;
    vstd::arithmetic::div_mod::lemma_div_is_ordered(q * (2 * smaller), 2 * b + smaller, 2 * smaller);
    vstd::arithmetic::div_mod::lemma_div_by_multiple(q, 2 * smaller);
}

/// Quantizing keeps the order of the numbers from zero upwards, whose bit patterns are ordered as
/// they are.
pub proof fn law_quantize_keeps_order(low: u32, high: u32)
    requires
        low <= high,
        !is_negative(high),
        !is_nan(high),
    ensures
        quantized(low) <= quantized(high),
{
    lemma2_to64();
    lemma2_to64_rest();
    if exponent(low) >= 118 && high < ONE {
        let a = round_product(255 * significand(low));
        let b = round_product(255 * significand(high));
        lemma_round_product_near(255 * significand(low));
        lemma_round_product_near(255 * significand(high));
        let larger = scale(low);
        let smaller = scale(high);
        if exponent(low) == exponent(high) {
            lemma_round_product_monotone(255 * significand(low), 255 * significand(high));
            assert(a * smaller <= b * larger) by (nonlinear_arith)
                requires
                    a <= b,
                    smaller == larger,
                    smaller > 0,
            ;
        } else {
            assert(255 * 0x80_0000 <= b) by {
                lemma_round_product_monotone(255 * 0x80_0000int, 255 * significand(high));
            }
            assert(2 * smaller <= larger);
            assert(a * smaller <= b * larger) by (nonlinear_arith)
                requires
                    0 <= a <= 255 * 0x100_0000,
                    255 * 0x80_0000 <= b,
                    0 < smaller,
                    2 * smaller <= larger,
            ;
        }
        lemma_nearest_integer_monotone(a, b, larger, smaller);
        lemma_below_one(low);
        lemma_below_one(high);
    } else if exponent(low) < 118 {
        lemma_small_is_zero(low);
    }
}

/// A number from 2^-9 to one has a nearest integer that fits in a byte.
proof fn lemma_below_one(word: u32)
    requires
        word < ONE,
        exponent(word) >= 118,
    ensures
        0 <= nearest_integer(round_product(255 * significand(word)), scale(word)) <= 255,
{
    lemma2_to64();
    lemma2_to64_rest();
    let product = 255 * significand(word);
    lemma_round_product_near(product);
    let n = 2 * round_product(product) + scale(word);
    let step = 2 * scale(word);
    vstd::arithmetic::div_mod::lemma_div_pos_is_pos(n, step);
    vstd::arithmetic::div_mod::lemma_multiply_divide_lt(n, step, 256);
}

} // verus!
