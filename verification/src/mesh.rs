//! The demo's mesh and its vertex buffer.
//!
//! The scene is a single triangle with a red, a green and a blue corner.
//! Positions and colours are kept in thousandths of the renderer's unit,
//! so the mesh is exact integer data; the renderer divides by `SCALE`
//! when it converts a vertex for upload. The buffer that is drawn holds
//! the triangle twice, the second time in reverse order, so both winding
//! orders are present and no cull-mode change is needed to see the back
//! face.

use vstd::prelude::*;

verus! {

/// How many fixed-point units make one renderer unit.
pub const SCALE: i32 = 1000;

/// One vertex: a position and an RGB colour, both in thousandths of the
/// renderer's unit.
#[derive(Clone, Copy, PartialEq, Eq, Structural, Debug)]
pub struct Vertex {
    pub px: i32,
    pub py: i32,
    pub pz: i32,
    pub r: i32,
    pub g: i32,
    pub b: i32,
}

/// The scene's triangle: apex up and pure red, the lower-left corner pure
/// green, the lower-right corner pure blue, all in the z = 0 plane.
pub open spec fn triangle() -> Seq<Vertex> {
    seq![
        (Vertex { px: 0, py: 500, pz: 0, r: 1000, g: 0, b: 0 }),
        (Vertex { px: -500i32, py: -500i32, pz: 0, r: 0, g: 1000, b: 0 }),
        (Vertex { px: 500, py: -500i32, pz: 0, r: 0, g: 0, b: 1000 }),
    ]
}

/// Builds the scene's triangle.
pub fn triangle_vertices() -> (v: Vec<Vertex>)
    ensures
        v@ == triangle(),
{
    let mut v: Vec<Vertex> = Vec::new();
    v.push(Vertex { px: 0, py: 500, pz: 0, r: 1000, g: 0, b: 0 });
    v.push(Vertex { px: -500i32, py: -500i32, pz: 0, r: 0, g: 1000, b: 0 });
    v.push(Vertex { px: 500, py: -500i32, pz: 0, r: 0, g: 0, b: 1000 });
    proof {
        assert(v@ =~= triangle());
    }
    v
}

/// Doubles a vertex list into a front-and-back buffer: the list itself,
/// followed by the same vertices in reverse order.
pub fn double_sided(v: &Vec<Vertex>) -> (out: Vec<Vertex>)
    ensures
        out@ == v@ + v@.reverse(),
        out@.len() == 2 * v@.len(),
{
    let n = v.len();
    let mut out: Vec<Vertex> = Vec::new();
    let mut i: usize = 0;
    while i < n
        invariant
            i <= n,
            n == v@.len(),
            out@ =~= v@.subrange(0, i as int),
        decreases n - i,
    {
        out.push(v[i]);
        i += 1;
    }
    proof {
        assert(out@ =~= v@);
    }
    let mut j: usize = n;
    while j > 0
        invariant
            j <= n,
            n == v@.len(),
            out@.len() == n + (n - j),
            out@.subrange(0, n as int) =~= v@,
            forall|k: int| n <= k < out@.len() ==> out@[k] == v@[2 * (n as int) - 1 - k],
        decreases j,
    {
        j -= 1;
        out.push(v[j]);
    }
    proof {
        assert(out@ =~= v@ + v@.reverse());
    }
    out
}

/// Builds the buffer the renderer draws: the triangle followed by its
/// reverse, six vertices in all.
pub fn demo_vbo() -> (out: Vec<Vertex>)
    ensures
        out@ == triangle() + triangle().reverse(),
        out@.len() == 6,
{
    let v = triangle_vertices();
    double_sided(&v)
}

/// One vertex attribute as the vertex shader loads it: the input register
/// it arrives in and how many components it takes from the buffer.
#[derive(Clone, Copy, PartialEq, Eq, Structural, Debug)]
pub struct AttrSlot {
    pub register: u8,
    pub components: u8,
}

/// The buffer's attribute layout, matching `Vertex` field for field: the
/// three position components feed shader register 0 and the three colour
/// components feed shader register 1.
pub open spec fn attribute_layout() -> Seq<AttrSlot> {
    seq![
        (AttrSlot { register: 0, components: 3 }),
        (AttrSlot { register: 1, components: 3 }),
    ]
}

/// Builds the attribute layout the renderer registers for the buffer.
pub fn vertex_attributes() -> (l: Vec<AttrSlot>)
    ensures
        l@ == attribute_layout(),
{
    let mut l: Vec<AttrSlot> = Vec::new();
    l.push(AttrSlot { register: 0, components: 3 });
    l.push(AttrSlot { register: 1, components: 3 });
    proof {
        assert(l@ =~= attribute_layout());
    }
    l
}

} // verus!
