//! Pixel space to normalized device coordinates.
//!
//! A pixel coordinate `x` on an axis of `extent` pixels maps to
//! `x / (extent / 2) - 1`, which is `(2x - extent) / extent`. Coordinates go
//! in as fractions `p / unit` and come out as fractions over `extent * unit`,
//! so nothing is rounded.

use vstd::prelude::*;
use crate::fixed::{Fixed, SCALE, SCALE_CUBED};

verus! {

/// A position in pixel space.
#[derive(Clone, Copy, Debug, PartialEq, Eq, Structural)]
pub struct Position {
    pub x: Fixed,
    pub y: Fixed,
}

/// The size of the framebuffer in pixels, as the host reports it.
#[derive(Clone, Copy, Debug, PartialEq, Eq, Structural)]
pub struct Framebuffer {
    pub width: u32,
    pub height: u32,
}

/// A fraction of two integers.
pub struct Ratio {
    pub num: int,
    pub den: int,
}

impl Ratio {
    /// Both fractions denote the same number.
    pub open spec fn same(self, other: Ratio) -> bool {
        self.num * other.den == other.num * self.den
    }

    /// The sum of this fraction and another over the same denominator.
    pub open spec fn plus(self, other: Ratio) -> Ratio {
        Ratio { num: self.num + other.num, den: self.den }
    }

    /// The difference of this fraction and another over the same
    /// denominator.
    pub open spec fn minus(self, other: Ratio) -> Ratio {
        Ratio { num: self.num - other.num, den: self.den }
    }

    /// The fraction denotes a number between -1 and 1, both included.
    pub open spec fn within_unit(self) -> bool {
        self.den > 0 && -self.den <= self.num <= self.den
    }
}

/// One coordinate in normalized device space: the fraction `num / den`.
/// `den` is zero only where the framebuffer has no extent on that axis.
#[derive(Clone, Copy, Debug, PartialEq, Eq, Structural)]
pub struct Ndc {
    pub num: i128,
    pub den: i128,
}

impl View for Ndc {
    type V = Ratio;

    open spec fn view(&self) -> Ratio {
        Ratio { num: self.num as int, den: self.den as int }
    }
}

/// A point in normalized device space.
pub struct Point {
    pub x: Ratio,
    pub y: Ratio,
}

/// A vertex as the graphics device takes it.
#[derive(Clone, Copy, Debug, PartialEq, Eq, Structural)]
pub struct Vertex {
    pub x: Ndc,
    pub y: Ndc,
}

impl View for Vertex {
    type V = Point;

    open spec fn view(&self) -> Point {
        Point { x: self.x@, y: self.y@ }
    }
}

/// The largest magnitude of a numerator that [`axis_to_ndc`] takes.
pub const NUMERATOR_LIMIT: i128 = 0x1_0000_0000_0000_0000_0000_0000;

/// The largest unit that [`axis_to_ndc`] takes.
pub const UNIT_LIMIT: i128 = SCALE_CUBED;

/// Where the pixel coordinate `p / unit` lies on an axis of `extent` pixels.
pub open spec fn ndc_of(p: int, unit: int, extent: int) -> Ratio {
    Ratio { num: 2 * p - extent * unit, den: extent * unit }
}

/// How long the pixel length `r / unit` is on an axis of `extent` pixels.
pub open spec fn ndc_length(r: int, unit: int, extent: int) -> Ratio {
    Ratio { num: 2 * r, den: extent * unit }
}

/// The pixel coordinate, in parts of `unit`, that lies at `at` on an axis of
/// `extent` pixels: the inverse of [`ndc_of`].
pub open spec fn pixel_of(at: Ratio, unit: int, extent: int) -> int {
    (at.num + at.den) * extent * unit / (2 * at.den)
}

/// Where a position in pixel space lies in normalized device space.
pub open spec fn map_spec(p: Position, framebuffer: Framebuffer) -> Point {
    Point {
        x: ndc_of(p.x@, SCALE as int, framebuffer.width as int),
        y: ndc_of(p.y@, SCALE as int, framebuffer.height as int),
    }
}

/// The position in pixel space that lies at `at` in normalized device space:
/// the inverse of [`map_spec`].
pub open spec fn unmap_spec(at: Point, framebuffer: Framebuffer) -> Position {
    Position {
        x: Fixed { raw: pixel_of(at.x, SCALE as int, framebuffer.width as int) as i32 },
        y: Fixed { raw: pixel_of(at.y, SCALE as int, framebuffer.height as int) as i32 },
    }
}

/// Maps the pixel coordinate `p / unit` on an axis of `extent` pixels.
pub fn axis_to_ndc(p: i128, unit: i128, extent: u32) -> (r: Ndc)
    requires
        -NUMERATOR_LIMIT <= p <= NUMERATOR_LIMIT,
        0 < unit <= UNIT_LIMIT,
    ensures
        r@ == ndc_of(p as int, unit as int, extent as int),
{
    let wide: i128 = extent as i128;
    assert(0 <= wide * unit <= 0x1_0000_0000 * 0x1_0000_0000_0000) by (nonlinear_arith)
        requires
            0 <= wide < 0x1_0000_0000,
            0 < unit <= 0x1_0000_0000_0000,
    ;
    let den: i128 = wide * unit;
    Ndc { num: 2 * p - den, den }
}

/// Maps a position in pixel space to normalized device space.
pub fn map(p: Position, framebuffer: Framebuffer) -> (v: Vertex)
    ensures
        v@ == map_spec(p, framebuffer),
{
    Vertex {
        x: axis_to_ndc(p.x.raw as i128, SCALE as i128, framebuffer.width),
        y: axis_to_ndc(p.y.raw as i128, SCALE as i128, framebuffer.height),
    }
}

/// Maps a pixel radius to its length on each axis of normalized device
/// space: the horizontal length first, the vertical second.
pub fn map_radius(radius: Fixed, framebuffer: Framebuffer) -> (r: (Ndc, Ndc))
    ensures
        r.0@ == ndc_length(radius@, SCALE as int, framebuffer.width as int),
        r.1@ == ndc_length(radius@, SCALE as int, framebuffer.height as int),
{
    let num: i128 = 2 * (radius.raw as i128);
    let width: i128 = framebuffer.width as i128;
    let height: i128 = framebuffer.height as i128;
    (
        Ndc { num, den: width * (SCALE as i128) },
        Ndc { num, den: height * (SCALE as i128) },
    )
}

/// The map is affine, not linear: the image of a sum of two coordinates lies
/// one whole unit above the sum of their images. As fractions over the
/// common denominator `extent * unit`, that unit is the denominator itself.
pub proof fn lemma_map_affine(one: int, other: int, unit: int, extent: int)
    ensures
        ndc_of(one + other, unit, extent).den == ndc_of(one, unit, extent).den,
        ndc_of(one + other, unit, extent).den == ndc_of(other, unit, extent).den,
        ndc_of(one + other, unit, extent).num == ndc_of(one, unit, extent).num + ndc_of(
            other,
            unit,
            extent,
        ).num + ndc_of(one, unit, extent).den,
{
}

/// On an axis with an extent, the image of a sum never equals the sum of the
/// images.
pub proof fn lemma_map_not_linear(one: int, other: int, unit: int, extent: int)
    requires
        unit > 0,
        extent > 0,
    ensures
        ndc_of(one + other, unit, extent).num != ndc_of(one, unit, extent).num + ndc_of(
            other,
            unit,
            extent,
        ).num,
{
    assert(extent * unit > 0) by (nonlinear_arith)
        requires
            unit > 0,
            extent > 0,
    ;
}

/// The map is injective on an axis with an extent: two coordinates whose
/// images denote the same number are the same coordinate.
pub proof fn lemma_axis_injective(one: int, other: int, unit: int, extent: int)
    requires
        unit > 0,
        extent > 0,
        ndc_of(one, unit, extent).same(ndc_of(other, unit, extent)),
    ensures
        one == other,
{
    let d = extent * unit;
    assert(d > 0) by (nonlinear_arith)
        requires
            unit > 0,
            extent > 0,
            d == extent * unit,
    ;
    assert(one == other) by (nonlinear_arith)
        requires
            d > 0,
            (2 * one - d) * d == (2 * other - d) * d,
    ;
}

/// The inverse recovers a pixel coordinate exactly.
pub proof fn lemma_axis_inverse(p: int, unit: int, extent: int)
    requires
        unit > 0,
        extent > 0,
    ensures
        pixel_of(ndc_of(p, unit, extent), unit, extent) == p,
{
    let d = extent * unit;
    assert(d > 0) by (nonlinear_arith)
        requires
            unit > 0,
            extent > 0,
            d == extent * unit,
    ;
    let at = ndc_of(p, unit, extent);
    assert((at.num + at.den) * extent * unit == p * (2 * d)) by (nonlinear_arith)
        requires
            at.num + at.den == 2 * p,
            d == extent * unit,
    ;
    assert(p * (2 * d) / (2 * d) == p) by (nonlinear_arith)
        requires
            d > 0,
    ;
}

/// On a framebuffer with an extent, two positions that map to the same
/// point are the same position.
pub proof fn lemma_map_injective(one: Position, other: Position, framebuffer: Framebuffer)
    requires
        framebuffer.width > 0,
        framebuffer.height > 0,
        map_spec(one, framebuffer).x.same(map_spec(other, framebuffer).x),
        map_spec(one, framebuffer).y.same(map_spec(other, framebuffer).y),
    ensures
        one == other,
{
    lemma_axis_injective(one.x@, other.x@, SCALE as int, framebuffer.width as int);
    lemma_axis_injective(one.y@, other.y@, SCALE as int, framebuffer.height as int);
}

/// On a framebuffer with an extent, the inverse of the map recovers a
/// position exactly.
pub proof fn lemma_map_inverse(p: Position, framebuffer: Framebuffer)
    requires
        framebuffer.width > 0,
        framebuffer.height > 0,
    ensures
        unmap_spec(map_spec(p, framebuffer), framebuffer) == p,
{
    lemma_axis_inverse(p.x@, SCALE as int, framebuffer.width as int);
    lemma_axis_inverse(p.y@, SCALE as int, framebuffer.height as int);
}

} // verus!
