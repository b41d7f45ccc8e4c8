//! Shader sources for flat, single-colored primitives.
//!
//! The vertex shader passes positions through. The fragment shader holds the
//! color as four decimal literals, each of them the exact value of its
//! component.

use vstd::prelude::*;
use vstd::arithmetic::div_mod::lemma_fundamental_div_mod;
use vstd::arithmetic::power2::{lemma2_to64, lemma_pow2_pos, lemma_pow2_unfold, pow2};
use crate::fixed::{Fixed, SCALE};
use crate::render::Color;

verus! {

/// The character of the decimal digit `d`.
pub open spec fn digit_char(d: int) -> char {
    if d == 0 {
        '0'
    } else if d == 1 {
        '1'
    } else if d == 2 {
        '2'
    } else if d == 3 {
        '3'
    } else if d == 4 {
        '4'
    } else if d == 5 {
        '5'
    } else if d == 6 {
        '6'
    } else if d == 7 {
        '7'
    } else if d == 8 {
        '8'
    } else {
        '9'
    }
}

/// The decimal digits of `n`, the most significant first, without leading
/// zeros.
pub open spec fn whole_digits(n: nat) -> Seq<char>
    decreases n,
{
    if n < 10 {
        seq![digit_char(n as int)]
    } else {
        whole_digits(n / 10).push(digit_char((n % 10) as int))
    }
}

/// The decimal digits of the fraction `f / den` behind the point, where
/// `den` is a power of two and `f < den`: as many as the fraction has, and
/// one zero where it has none. Taking a digit multiplies the fraction by
/// ten, which leaves a fraction over half the denominator.
pub open spec fn fraction_digits(f: nat, den: nat) -> Seq<char>
    decreases den,
{
    let half = den / 2;
    if half == 0 {
        Seq::empty()
    } else if 5 * f % half == 0 {
        seq![digit_char((5 * f / half) as int)]
    } else {
        seq![digit_char((5 * f / half) as int)] + fraction_digits(5 * f % half, half)
    }
}

/// The magnitude of a count of raw units.
pub open spec fn magnitude(raw: int) -> nat {
    if raw < 0 {
        (-raw) as nat
    } else {
        raw as nat
    }
}

/// The sign that stands before a decimal literal.
pub open spec fn sign(raw: int) -> Seq<char> {
    if raw < 0 {
        seq!['-']
    } else {
        Seq::empty()
    }
}

/// The decimal literal of the fixed-point number of `raw` units: a minus
/// sign where it is negative, its whole part, a point, and its fraction.
pub open spec fn decimal(raw: int) -> Seq<char> {
    sign(raw) + whole_digits(magnitude(raw) / (SCALE as nat)) + seq!['.'] + fraction_digits(
        magnitude(raw) % (SCALE as nat),
        SCALE as nat,
    )
}

/// The value of a decimal digit's character, and zero for any other.
pub open spec fn digit_value(c: char) -> nat {
    if c == '1' {
        1
    } else if c == '2' {
        2
    } else if c == '3' {
        3
    } else if c == '4' {
        4
    } else if c == '5' {
        5
    } else if c == '6' {
        6
    } else if c == '7' {
        7
    } else if c == '8' {
        8
    } else if c == '9' {
        9
    } else {
        0
    }
}

/// The number that a row of decimal digits denotes, the most significant
/// digit first.
pub open spec fn digits_value(digits: Seq<char>) -> nat
    decreases digits.len(),
{
    if digits.len() == 0 {
        0
    } else {
        digits_value(digits.drop_last()) * 10 + digit_value(digits.last())
    }
}

/// Ten to the power `n`.
pub open spec fn pow10(n: nat) -> nat
    decreases n,
{
    if n == 0 {
        1
    } else {
        10 * pow10((n - 1) as nat)
    }
}

/// A digit before a row of digits counts ten to the row's length.
proof fn lemma_value_prepend(c: char, digits: Seq<char>)
    ensures
        digits_value(seq![c] + digits) == digit_value(c) * pow10(digits.len()) + digits_value(
            digits,
        ),
    decreases digits.len(),
{
    let all = seq![c] + digits;
    if digits.len() == 0 {
        assert(digits_value(all.drop_last()) == 0);
    } else {
        lemma_value_prepend(c, digits.drop_last());
        assert(all.drop_last() =~= seq![c] + digits.drop_last());
    }
}

/// The digits of a whole number denote that number.
pub proof fn lemma_whole_digits_value(n: nat)
    ensures
        digits_value(whole_digits(n)) == n,
    decreases n,
{
    if n < 10 {
        assert(digits_value(whole_digits(n).drop_last()) == 0);
    } else {
        lemma_whole_digits_value(n / 10);
        let front = whole_digits(n / 10);
        let last = digit_char((n % 10) as int);
        assert(front.push(last).drop_last() =~= front);
    }
}

/// The digits of the fraction `f / den`, where `den` is the power of two
/// with exponent `bits`, denote that fraction exactly: read as a whole
/// number they are `f / den` times ten to their count.
pub proof fn lemma_fraction_digits_value(f: nat, den: nat, bits: nat)
    requires
        bits >= 1,
        den == pow2(bits),
        f < den,
    ensures
        fraction_digits(f, den).len() >= 1,
        digits_value(fraction_digits(f, den)) * den == f * pow10(fraction_digits(f, den).len()),
    decreases bits,
{
    lemma_pow2_unfold(bits);
    lemma_pow2_pos((bits - 1) as nat);
    let half = den / 2;
    let d = 5 * f / half;
    let rest = 5 * f % half;
    assert(5 * f == d * half + rest && d < 10 && rest < half) by (nonlinear_arith)
        requires
            half > 0,
            f < 2 * half,
            d == 5 * f / half,
            rest == 5 * f % half,
    ;
    let c = digit_char(d as int);
    if rest == 0 {
        lemma_value_prepend(c, Seq::empty());
        assert(d * den == f * 10) by (nonlinear_arith)
            requires
                5 * f == d * half,
                den == 2 * half,
        ;
        assert(digits_value(seq![c]) == d * 1 + 0);
    } else {
        assert(bits >= 2) by {
            if bits == 1 {
                lemma2_to64();
            }
        }
        lemma_fraction_digits_value(rest, half, (bits - 1) as nat);
        let tail = fraction_digits(rest, half);
        lemma_value_prepend(c, tail);
        let scale = pow10(tail.len());
        assert((d * scale + digits_value(tail)) * den == f * (10 * scale)) by (nonlinear_arith)
            requires
                5 * f == d * half + rest,
                den == 2 * half,
                digits_value(tail) * half == rest * scale,
        ;
    }
}

/// A decimal literal denotes its number exactly: the whole part and the
/// fraction, read together as one whole number, are the magnitude of the
/// number times ten to the count of the fraction's digits.
pub proof fn lemma_decimal_exact(x: Fixed)
    ensures
        ({
            let whole = whole_digits(magnitude(x@) / (SCALE as nat));
            let fraction = fraction_digits(magnitude(x@) % (SCALE as nat), SCALE as nat);
            &&& decimal(x@) == sign(x@) + whole + seq!['.'] + fraction
            &&& fraction.len() >= 1
            &&& (digits_value(whole) * pow10(fraction.len()) + digits_value(fraction)) * SCALE
                == magnitude(x@) * pow10(fraction.len())
        }),
{
    let m = magnitude(x@);
    let unit = SCALE as nat;
    let whole = whole_digits(m / unit);
    let fraction = fraction_digits(m % unit, unit);
    lemma2_to64();
    lemma_whole_digits_value(m / unit);
    lemma_fraction_digits_value(m % unit, unit, 16);
    let scale = pow10(fraction.len());
    lemma_fundamental_div_mod(m as int, unit as int);
    assert((m / unit * scale + digits_value(fraction)) * unit == m * scale) by (nonlinear_arith)
        requires
            unit > 0,
            digits_value(fraction) * unit == (m % unit) * scale,
            m == unit * (m / unit) + m % unit,
    ;
}

/// The source of the vertex shader.
pub open spec fn vertex_shader_spec() -> Seq<char> {
    "#version 140\nin vec2 position;\nvoid main() {\n    gl_Position = vec4(position, 0.0, 1.0);\n}\n"@
}

/// The source of the fragment shader that paints `color`.
pub open spec fn fragment_shader_spec(color: Color) -> Seq<char> {
    "#version 140\nout vec4 color;\nvoid main() {\n    color = vec4("@ + decimal(color.r@) + ", "@
        + decimal(color.g@) + ", "@ + decimal(color.b@) + ", "@ + decimal(color.alpha@)
        + ");\n}\n"@
}

/// The text of one decimal digit.
fn digit_text(d: u32) -> (s: &'static str)
    requires
        d < 10,
    ensures
        s@ == seq![digit_char(d as int)],
{
    proof {
        reveal_strlit("0");
        reveal_strlit("1");
        reveal_strlit("2");
        reveal_strlit("3");
        reveal_strlit("4");
        reveal_strlit("5");
        reveal_strlit("6");
        reveal_strlit("7");
        reveal_strlit("8");
        reveal_strlit("9");
    }
    let s: &'static str = if d == 0 {
        "0"
    } else if d == 1 {
        "1"
    } else if d == 2 {
        "2"
    } else if d == 3 {
        "3"
    } else if d == 4 {
        "4"
    } else if d == 5 {
        "5"
    } else if d == 6 {
        "6"
    } else if d == 7 {
        "7"
    } else if d == 8 {
        "8"
    } else {
        "9"
    };
    s
}

/// Appends the decimal digits of `n` to `text`.
fn push_whole(text: &mut String, n: u32)
    ensures
        final(text)@ == old(text)@ + whole_digits(n as nat),
    decreases n,
{
    if n >= 10 {
        push_whole(text, n / 10);
    }
    text.append(digit_text(n % 10));
}

/// Appends the decimal digits of the fraction `f / SCALE` to `text`.
fn push_fraction(text: &mut String, f: u32)
    requires
        f < SCALE,
    ensures
        final(text)@ == old(text)@ + fraction_digits(f as nat, SCALE as nat),
{
    let mut rest: u32 = f;
    let mut den: u32 = 65536;
    let ghost before = text@;
    let ghost mut done: Seq<char> = Seq::empty();
    let ghost mut bits: nat = 16;
    proof {
        lemma2_to64();
    }
    loop
        invariant_except_break
            text@ == before + done,
        invariant
            rest < den,
            bits >= 1,
            den == pow2(bits),
            den <= 65536,
            done + fraction_digits(rest as nat, den as nat) == fraction_digits(
                f as nat,
                SCALE as nat,
            ),
        ensures
            text@ == before + fraction_digits(f as nat, SCALE as nat),
        decreases den,
    {
        proof {
            lemma_pow2_unfold(bits);
            lemma_pow2_pos((bits - 1) as nat);
        }
        let half: u32 = den / 2;
        let scaled: u32 = 5 * rest;
        let d: u32 = scaled / half;
        assert(d < 10) by (nonlinear_arith)
            requires
                d == scaled / half,
                half > 0,
                scaled < 10 * half,
        ;
        let left: u32 = scaled % half;
        let digit: &'static str = digit_text(d);
        text.append(digit);
        if left == 0 {
            break;
        }
        proof {
            assert(bits >= 2) by {
                if bits == 1 {
                    lemma2_to64();
                }
            }
            done = done + digit@;
            bits = (bits - 1) as nat;
        }
        rest = left;
        den = half;
    }
}

/// Writes the fixed-point number `x` as a decimal literal.
pub fn decimal_text(x: Fixed) -> (text: String)
    ensures
        text@ == decimal(x@),
{
    let mut text: String = String::new();
    let wide: i64 = x.raw as i64;
    let size: i64 = if wide < 0 {
        text.append("-");
        -wide
    } else {
        wide
    };
    proof {
        reveal_strlit("-");
        reveal_strlit(".");
    }
    let size: u32 = size as u32;
    push_whole(&mut text, size / 65536);
    text.append(".");
    push_fraction(&mut text, size % 65536);
    text
}

/// Writes the source of the vertex shader, which hands each position on
/// without changing it.
pub fn vertex_shader() -> (source: String)
    ensures
        source@ == vertex_shader_spec(),
{
    String::from_str(
        "#version 140\nin vec2 position;\nvoid main() {\n    gl_Position = vec4(position, 0.0, 1.0);\n}\n",
    )
}

/// Writes the source of the fragment shader that paints every pixel in
/// `color`.
pub fn fragment_shader(color: Color) -> (source: String)
    ensures
        source@ == fragment_shader_spec(color),
{
    let mut source: String = String::from_str(
        "#version 140\nout vec4 color;\nvoid main() {\n    color = vec4(",
    );
    let r: String = decimal_text(color.r);
    source.append(r.as_str());
    source.append(", ");
    let g: String = decimal_text(color.g);
    source.append(g.as_str());
    source.append(", ");
    let b: String = decimal_text(color.b);
    source.append(b.as_str());
    source.append(", ");
    let alpha: String = decimal_text(color.alpha);
    source.append(alpha.as_str());
    source.append(");\n}\n");
    source
}

} // verus!
