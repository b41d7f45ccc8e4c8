//! Vertex data for rectangles and ellipses.

use vstd::prelude::*;
use crate::fixed::{Fixed, SCALE, SCALE_CUBED};
use crate::mapper;
use crate::mapper::{
    axis_to_ndc, map_radius, map_spec, ndc_length, ndc_of, Framebuffer, Ndc, Point, Position, Ratio,
    Vertex, NUMERATOR_LIMIT,
};

verus! {

/// How the graphics device assembles vertices into triangles.
#[derive(Clone, Copy, Debug, PartialEq, Eq, Structural)]
pub enum Topology {
    /// Every three indices name one triangle.
    TrianglesList,
    /// Every vertex after the second closes a triangle with its predecessor
    /// and the first vertex.
    TriangleFan,
}

/// A unit direction: the cosine and the sine of an angle.
#[derive(Clone, Copy, Debug, PartialEq, Eq, Structural)]
pub struct Direction {
    pub cos: Fixed,
    pub sin: Fixed,
}

/// The vertices of one primitive and how they form triangles. `indices` is
/// empty where the vertices are taken in the order they stand in.
#[derive(Debug)]
pub struct Mesh {
    pub vertices: Vec<Vertex>,
    pub indices: Vec<u16>,
    pub topology: Topology,
}

/// What a [`Mesh`] holds.
pub struct MeshView {
    pub vertices: Seq<Point>,
    pub indices: Seq<u16>,
    pub topology: Topology,
}

impl View for Mesh {
    type V = MeshView;

    open spec fn view(&self) -> MeshView {
        MeshView {
            vertices: self.vertices@.map_values(|v: Vertex| v@),
            indices: self.indices@,
            topology: self.topology,
        }
    }
}

/// The left edge of the square of half-side `radius` about `center`.
pub open spec fn left_edge(center: Position, radius: Fixed, framebuffer: Framebuffer) -> Ratio {
    map_spec(center, framebuffer).x.minus(
        ndc_length(radius@, SCALE as int, framebuffer.width as int),
    )
}

/// The right edge of the square of half-side `radius` about `center`.
pub open spec fn right_edge(center: Position, radius: Fixed, framebuffer: Framebuffer) -> Ratio {
    map_spec(center, framebuffer).x.plus(
        ndc_length(radius@, SCALE as int, framebuffer.width as int),
    )
}

/// The top edge of the square of half-side `radius` about `center`.
pub open spec fn top_edge(center: Position, radius: Fixed, framebuffer: Framebuffer) -> Ratio {
    map_spec(center, framebuffer).y.plus(
        ndc_length(radius@, SCALE as int, framebuffer.height as int),
    )
}

/// The bottom edge of the square of half-side `radius` about `center`.
pub open spec fn bottom_edge(center: Position, radius: Fixed, framebuffer: Framebuffer) -> Ratio {
    map_spec(center, framebuffer).y.minus(
        ndc_length(radius@, SCALE as int, framebuffer.height as int),
    )
}

/// The mesh of the square of half-side `radius` about `center`: its four
/// corners, and the two triangles that cover it.
pub open spec fn rectangle_spec(
    center: Position,
    radius: Fixed,
    framebuffer: Framebuffer,
) -> MeshView {
    let left = left_edge(center, radius, framebuffer);
    let right = right_edge(center, radius, framebuffer);
    let top = top_edge(center, radius, framebuffer);
    let bottom = bottom_edge(center, radius, framebuffer);
    MeshView {
        vertices: seq![
            Point { x: left, y: top },
            Point { x: right, y: top },
            Point { x: left, y: bottom },
            Point { x: right, y: bottom },
        ],
        indices: seq![0u16, 1u16, 2u16, 1u16, 3u16, 2u16],
        topology: Topology::TrianglesList,
    }
}

/// The pixel coordinate `c + scale * radius * toward` as a count of parts in
/// [`SCALE_CUBED`], where `c`, `scale`, `radius` and `toward` are counts of
/// raw units.
pub open spec fn rim_coordinate(c: int, scale: int, radius: int, toward: int) -> int {
    c * SCALE * SCALE + scale * radius * toward
}

/// The point of an ellipse about (`cx`, `cy`) that lies in direction `toward`.
pub open spec fn ellipse_point(
    cx: int,
    cy: int,
    radius: Fixed,
    a: Fixed,
    b: Fixed,
    toward: Direction,
    framebuffer: Framebuffer,
) -> Point {
    Point {
        x: ndc_of(
            rim_coordinate(cx, a@, radius@, toward.cos@),
            SCALE_CUBED as int,
            framebuffer.width as int,
        ),
        y: ndc_of(
            rim_coordinate(cy, b@, radius@, toward.sin@),
            SCALE_CUBED as int,
            framebuffer.height as int,
        ),
    }
}

/// The mesh of an ellipse about (`cx`, `cy`): one vertex for each direction
/// of `rim`, in the order of `rim`, as a fan about the first of them.
pub open spec fn ellipse_spec(
    cx: int,
    cy: int,
    radius: Fixed,
    a: Fixed,
    b: Fixed,
    rim: Seq<Direction>,
    framebuffer: Framebuffer,
) -> MeshView {
    MeshView {
        vertices: Seq::new(
            rim.len(),
            |i: int| ellipse_point(cx, cy, radius, a, b, rim[i], framebuffer),
        ),
        indices: Seq::empty(),
        topology: Topology::TriangleFan,
    }
}

/// An ellipse has one vertex for each direction of the rim, whatever its
/// center, its radius and its axes are.
pub proof fn lemma_ellipse_vertex_count(
    cx: int,
    cy: int,
    radius: Fixed,
    a: Fixed,
    b: Fixed,
    rim: Seq<Direction>,
    framebuffer: Framebuffer,
)
    ensures
        ellipse_spec(cx, cy, radius, a, b, rim, framebuffer).vertices.len() == rim.len(),
        ellipse_spec(cx, cy, radius, a, b, rim, framebuffer).topology == Topology::TriangleFan,
        ellipse_spec(cx, cy, radius, a, b, rim, framebuffer).indices.len() == 0,
{
}

/// A square about the middle of the framebuffer whose half-side is shorter
/// than half of either side of the framebuffer lies on the screen: each of
/// its corners has both coordinates between -1 and 1. A half-side below
/// zero turns the square over; it stays on the screen as long as its
/// magnitude is no more than half of either side.
pub proof fn lemma_centered_rectangle_on_screen(
    center: Position,
    radius: Fixed,
    framebuffer: Framebuffer,
)
    requires
        2 * center.x@ == framebuffer.width * SCALE,
        2 * center.y@ == framebuffer.height * SCALE,
        2 * radius@ < framebuffer.width * SCALE,
        2 * radius@ < framebuffer.height * SCALE,
        -(framebuffer.width * SCALE) <= 2 * radius@,
        -(framebuffer.height * SCALE) <= 2 * radius@,
    ensures
        rectangle_spec(center, radius, framebuffer).vertices.len() == 4,
        forall|i: int|
            0 <= i < 4 ==> {
                let corner = #[trigger] rectangle_spec(center, radius, framebuffer).vertices[i];
                corner.x.within_unit() && corner.y.within_unit()
            },
{
}

/// Builds the square of half-side `radius` about `center`.
pub fn rectangle(center: Position, radius: Fixed, framebuffer: Framebuffer) -> (mesh: Mesh)
    ensures
        mesh@ == rectangle_spec(center, radius, framebuffer),
{
    let middle: Vertex = mapper::map(center, framebuffer);
    let (across, up) = map_radius(radius, framebuffer);
    let left = Ndc { num: middle.x.num - across.num, den: middle.x.den };
    let right = Ndc { num: middle.x.num + across.num, den: middle.x.den };
    let top = Ndc { num: middle.y.num + up.num, den: middle.y.den };
    let bottom = Ndc { num: middle.y.num - up.num, den: middle.y.den };
    let vertices: Vec<Vertex> = vec![
        Vertex { x: left, y: top },
        Vertex { x: right, y: top },
        Vertex { x: left, y: bottom },
        Vertex { x: right, y: bottom },
    ];
    let indices: Vec<u16> = vec![0, 1, 2, 1, 3, 2];
    let mesh = Mesh { vertices, indices, topology: Topology::TrianglesList };
    assert(mesh@.vertices =~= rectangle_spec(center, radius, framebuffer).vertices);
    mesh
}

/// Computes one pixel coordinate of an ellipse's rim.
fn rim_numerator(c: i64, scale: Fixed, radius: Fixed, toward: Fixed) -> (p: i128)
    ensures
        p == rim_coordinate(c as int, scale@, radius@, toward@),
        -NUMERATOR_LIMIT <= p <= NUMERATOR_LIMIT,
{
    let s: i64 = scale.raw as i64;
    let r: i64 = radius.raw as i64;
    let t: i128 = toward.raw as i128;
    let unit: i128 = SCALE as i128;
    assert(-0x4000_0000_0000_0000 <= s * r <= 0x4000_0000_0000_0000) by (nonlinear_arith)
        requires
            -0x8000_0000 <= s <= 0x8000_0000,
            -0x8000_0000 <= r <= 0x8000_0000,
    ;
    let stretch: i128 = (s * r) as i128;
    assert(-0x2000_0000_0000_0000_0000_0000 <= stretch * t <= 0x2000_0000_0000_0000_0000_0000)
        by (nonlinear_arith)
        requires
            -0x4000_0000_0000_0000 <= stretch <= 0x4000_0000_0000_0000,
            -0x8000_0000 <= t <= 0x8000_0000,
    ;
    let base: i128 = (c as i128) * unit * unit;
    base + stretch * t
}

/// Builds the ellipse about the point (`cx`, `cy`), which is given in raw
/// units and may lie outside the range of a [`Position`]. The semi-axes are
/// `a * radius` and `b * radius`.
pub fn ellipse_about(
    cx: i64,
    cy: i64,
    radius: Fixed,
    a: Fixed,
    b: Fixed,
    rim: &Vec<Direction>,
    framebuffer: Framebuffer,
) -> (mesh: Mesh)
    ensures
        mesh@ == ellipse_spec(cx as int, cy as int, radius, a, b, rim@, framebuffer),
{
    let mut vertices: Vec<Vertex> = Vec::new();
    let mut i: usize = 0;
    while i < rim.len()
        invariant
            i <= rim.len(),
            vertices@.len() == i,
            forall|j: int|
                0 <= j < i ==> (#[trigger] vertices@[j])@ == ellipse_point(
                    cx as int,
                    cy as int,
                    radius,
                    a,
                    b,
                    rim@[j],
                    framebuffer,
                ),
        decreases rim.len() - i,
    {
        let toward: Direction = rim[i];
        let x: i128 = rim_numerator(cx, a, radius, toward.cos);
        let y: i128 = rim_numerator(cy, b, radius, toward.sin);
        vertices.push(
            Vertex {
                x: axis_to_ndc(x, SCALE_CUBED, framebuffer.width),
                y: axis_to_ndc(y, SCALE_CUBED, framebuffer.height),
            },
        );
        i += 1;
    }
    let mesh = Mesh { vertices, indices: Vec::new(), topology: Topology::TriangleFan };
    assert(mesh@.vertices =~= ellipse_spec(
        cx as int,
        cy as int,
        radius,
        a,
        b,
        rim@,
        framebuffer,
    ).vertices);
    mesh
}

/// Builds the ellipse about `center` with semi-axes `a * radius` and
/// `b * radius`: one vertex for each direction of `rim`.
pub fn ellipse(
    center: Position,
    radius: Fixed,
    a: Fixed,
    b: Fixed,
    rim: &Vec<Direction>,
    framebuffer: Framebuffer,
) -> (mesh: Mesh)
    ensures
        mesh@ == ellipse_spec(center.x@, center.y@, radius, a, b, rim@, framebuffer),
        mesh@.vertices.len() == rim@.len(),
{
    ellipse_about(center.x.raw as i64, center.y.raw as i64, radius, a, b, rim, framebuffer)
}

} // verus!
