//! Mesh geometry: wireframe edge extraction from a triangle soup, and the
//! fixed axis-gizmo vertex data.
//!
//! A triangle soup is a flat sequence of coordinates, nine per triangle
//! (three vertices of three coordinates each). Each coordinate is the `u32`
//! bit pattern of a 32-bit float; nothing here computes with the value, so
//! the pattern passes through unchanged.

use vstd::prelude::*;

verus! {

/// Error returned when a triangle soup does not hold a whole number of
/// triangles.
#[derive(Clone, Copy, Debug, PartialEq, Eq, Structural)]
pub enum GeometryError {
    /// The input length is not a multiple of nine coordinates.
    InvalidGeometry,
}

/// The wireframe edges of a single triangle `(v0, v1, v2)` given as nine
/// coordinates: the endpoint pairs `(v0, v1)`, `(v1, v2)`, `(v2, v0)`, in
/// that order, flattened to coordinates.
pub open spec fn triangle_edges(t: Seq<u32>) -> Seq<u32> {
    t.subrange(0, 3) + t.subrange(3, 6)
        + t.subrange(3, 6) + t.subrange(6, 9)
        + t.subrange(6, 9) + t.subrange(0, 3)
}

/// The edge decomposition of a triangle soup: every full group of nine
/// coordinates contributes its three edges, in input order. Shared edges of
/// adjacent triangles are kept twice on purpose: each triangle contributes
/// its own three edges independently.
pub open spec fn edges_of(s: Seq<u32>) -> Seq<u32>
    decreases s.len(),
{
    if s.len() < 9 {
        Seq::empty()
    } else {
        triangle_edges(s.subrange(0, 9)) + edges_of(s.skip(9))
    }
}

/// Appending one more triangle to a soup appends exactly that triangle's
/// edges to the decomposition.
proof fn lemma_edges_of_snoc(s: Seq<u32>, t: Seq<u32>)
    requires
        s.len() % 9 == 0,
        t.len() == 9,
    ensures
        edges_of(s + t) == edges_of(s) + triangle_edges(t),
    decreases s.len(),
{
    if s.len() == 0 {
        assert(s + t =~= t);
        assert(t.subrange(0, 9) =~= t);
        assert(t.skip(9) =~= Seq::<u32>::empty());
        assert(edges_of(Seq::<u32>::empty()) == Seq::<u32>::empty());
        assert(edges_of(t) == triangle_edges(t.subrange(0, 9)) + edges_of(t.skip(9)));
        assert(edges_of(t) =~= triangle_edges(t));
        assert(edges_of(s) + triangle_edges(t) =~= triangle_edges(t));
    } else {
        lemma_edges_of_snoc(s.skip(9), t);
        assert((s + t).subrange(0, 9) =~= s.subrange(0, 9));
        assert((s + t).skip(9) =~= s.skip(9) + t);
        assert(triangle_edges(s.subrange(0, 9)) + (edges_of(s.skip(9)) + triangle_edges(t))
            =~= (triangle_edges(s.subrange(0, 9)) + edges_of(s.skip(9))) + triangle_edges(t));
    }
}

/// For every triangle count `n >= 0`, a soup of `n` triangles decomposes
/// into exactly `18 * n` edge coordinates, and an empty soup into an empty
/// edge list.
pub proof fn lemma_edge_count(s: Seq<u32>)
    requires
        s.len() % 9 == 0,
    ensures
        edges_of(s).len() == 2 * s.len(),
        edges_of(s).len() == 18 * (s.len() / 9),
        s.len() == 0 ==> edges_of(s) == Seq::<u32>::empty(),
    decreases s.len(),
{
    if s.len() >= 9 {
        lemma_edge_count(s.skip(9));
    }
}

/// For a single triangle `(v0, v1, v2)`, the edge list is exactly the
/// concatenation `[v0, v1, v1, v2, v2, v0]`, coordinate order preserved.
pub proof fn lemma_single_triangle(t: Seq<u32>)
    requires
        t.len() == 9,
    ensures
        edges_of(t) == t.subrange(0, 3) + t.subrange(3, 6)
            + t.subrange(3, 6) + t.subrange(6, 9)
            + t.subrange(6, 9) + t.subrange(0, 3),
{
    assert(t.subrange(0, 9) =~= t);
    assert(t.skip(9) =~= Seq::<u32>::empty());
    assert(triangle_edges(t) + edges_of(t.skip(9)) =~= triangle_edges(t));
}

/// Derives the wireframe edge buffer from a triangle soup. Fails on an input
/// whose length is not a multiple of nine, and then produces no partial
/// output; on a well-formed input it returns exactly the edge decomposition.
pub fn extract_edges_from_triangles(vertex_data: &Vec<u32>) -> (result: Result<
    Vec<u32>,
    GeometryError,
>)
    ensures
        match result {
            Ok(edge_data) => {
                &&& vertex_data@.len() % 9 == 0
                &&& edge_data@ == edges_of(vertex_data@)
            },
            Err(e) => {
                &&& vertex_data@.len() % 9 != 0
                &&& e == GeometryError::InvalidGeometry
            },
        },
{
    if vertex_data.len() % 9 != 0 {
        return Err(GeometryError::InvalidGeometry);
    }
    let mut edge_data: Vec<u32> = Vec::new();
    let mut i: usize = 0;
    while i < vertex_data.len()
        invariant
            i % 9 == 0,
            i <= vertex_data@.len(),
            vertex_data@.len() % 9 == 0,
            edge_data@ == edges_of(vertex_data@.subrange(0, i as int)),
        decreases vertex_data@.len() - i,
    {
        assert(i + 9 <= vertex_data@.len());
        let ghost done = edge_data@;
        edge_data.push(vertex_data[i]);
        edge_data.push(vertex_data[i + 1]);
        edge_data.push(vertex_data[i + 2]);
        edge_data.push(vertex_data[i + 3]);
        edge_data.push(vertex_data[i + 4]);
        edge_data.push(vertex_data[i + 5]);
        edge_data.push(vertex_data[i + 3]);
        edge_data.push(vertex_data[i + 4]);
        edge_data.push(vertex_data[i + 5]);
        edge_data.push(vertex_data[i + 6]);
        edge_data.push(vertex_data[i + 7]);
        edge_data.push(vertex_data[i + 8]);
        edge_data.push(vertex_data[i + 6]);
        edge_data.push(vertex_data[i + 7]);
        edge_data.push(vertex_data[i + 8]);
        edge_data.push(vertex_data[i]);
        edge_data.push(vertex_data[i + 1]);
        edge_data.push(vertex_data[i + 2]);
        proof {
            let chunk = vertex_data@.subrange(i as int, i as int + 9);
            assert(edge_data@ =~= done + triangle_edges(chunk));
            lemma_edges_of_snoc(vertex_data@.subrange(0, i as int), chunk);
            assert(vertex_data@.subrange(0, i as int) + chunk
                =~= vertex_data@.subrange(0, i as int + 9));
        }
        i = i + 9;
    }
    proof {
        assert(vertex_data@.subrange(0, vertex_data@.len() as int) =~= vertex_data@);
    }
    Ok(edge_data)
}

/// The static buffers of a loaded mesh: the triangle soup as the opaque
/// pass draws it, and the wireframe edge buffer derived from it once at
/// load time and never mutated after.
#[derive(Debug)]
pub struct SceneBuffers {
    /// The mesh buffer: nine coordinates per triangle, in file order.
    pub mesh: Vec<u32>,
    /// The edge buffer: eighteen coordinates per triangle, the mesh
    /// buffer's edge decomposition.
    pub edges: Vec<u32>,
}

impl SceneBuffers {
    /// The load-time invariant: the mesh buffer holds whole triangles and
    /// the edge buffer is exactly its edge decomposition.
    pub open spec fn wf(self) -> bool {
        &&& self.mesh@.len() % 9 == 0
        &&& self.edges@ == edges_of(self.mesh@)
    }

    /// Builds the scene's buffers from a parsed triangle soup: keeps the
    /// soup as the mesh buffer and derives the edge buffer from it. Fails,
    /// keeping nothing, when the soup is not a whole number of triangles.
    pub fn from_vertex_data(vertex_data: Vec<u32>) -> (result: Result<
        SceneBuffers,
        GeometryError,
    >)
        ensures
            match result {
                Ok(scene) => {
                    &&& vertex_data@.len() % 9 == 0
                    &&& scene.wf()
                    &&& scene.mesh@ == vertex_data@
                },
                Err(e) => {
                    &&& vertex_data@.len() % 9 != 0
                    &&& e == GeometryError::InvalidGeometry
                },
            },
    {
        match extract_edges_from_triangles(&vertex_data) {
            Ok(edges) => Ok(SceneBuffers { mesh: vertex_data, edges }),
            Err(e) => Err(e),
        }
    }

    /// The number of vertices in the mesh buffer: one per three
    /// coordinates.
    pub fn mesh_vertex_count(&self) -> (n: usize)
        ensures
            n == self.mesh@.len() / 3,
    {
        self.mesh.len() / 3
    }

    /// The number of edge endpoints in the edge buffer: one per three
    /// coordinates.
    pub fn edge_vertex_count(&self) -> (n: usize)
        ensures
            n == self.edges@.len() / 3,
    {
        self.edges.len() / 3
    }
}

/// Bit pattern of the 32-bit float 1.0.
pub const F32_ONE_BITS: u32 = 0x3F80_0000;

/// The axis gizmo's fixed vertex data: six vertices of interleaved
/// position and color coordinates, forming the three unit axis segments
/// from the origin; the X axis red, the Y axis green, the Z axis blue.
/// Zero coordinates are the bit pattern of 0.0, `F32_ONE_BITS` that of 1.0.
pub open spec fn axis_gizmo_seq() -> Seq<u32> {
    seq![
        0u32, 0u32, 0u32, F32_ONE_BITS, 0u32, 0u32,
        F32_ONE_BITS, 0u32, 0u32, F32_ONE_BITS, 0u32, 0u32,
        0u32, 0u32, 0u32, 0u32, F32_ONE_BITS, 0u32,
        0u32, F32_ONE_BITS, 0u32, 0u32, F32_ONE_BITS, 0u32,
        0u32, 0u32, 0u32, 0u32, 0u32, F32_ONE_BITS,
        0u32, 0u32, F32_ONE_BITS, 0u32, 0u32, F32_ONE_BITS,
    ]
}

/// Appends one gizmo vertex: a position and its color, three coordinates
/// each.
fn push_gizmo_vertex(data: &mut Vec<u32>, px: u32, py: u32, pz: u32, cr: u32, cg: u32, cb: u32)
    ensures
        final(data)@ == old(data)@ + seq![px, py, pz, cr, cg, cb],
{
    data.push(px);
    data.push(py);
    data.push(pz);
    data.push(cr);
    data.push(cg);
    data.push(cb);
    proof {
        assert(data@ =~= old(data)@ + seq![px, py, pz, cr, cg, cb]);
    }
}

/// Builds the axis gizmo's vertex buffer, exactly `axis_gizmo_seq`: 36
/// coordinates, six vertices, three line segments.
pub fn axis_gizmo_vertex_data() -> (data: Vec<u32>)
    ensures
        data@ == axis_gizmo_seq(),
        data@.len() == 36,
{
    let mut data: Vec<u32> = Vec::new();
    push_gizmo_vertex(&mut data, 0, 0, 0, F32_ONE_BITS, 0, 0);
    push_gizmo_vertex(&mut data, F32_ONE_BITS, 0, 0, F32_ONE_BITS, 0, 0);
    push_gizmo_vertex(&mut data, 0, 0, 0, 0, F32_ONE_BITS, 0);
    push_gizmo_vertex(&mut data, 0, F32_ONE_BITS, 0, 0, F32_ONE_BITS, 0);
    push_gizmo_vertex(&mut data, 0, 0, 0, 0, 0, F32_ONE_BITS);
    push_gizmo_vertex(&mut data, 0, 0, F32_ONE_BITS, 0, 0, F32_ONE_BITS);
    proof {
        assert(data@ =~= axis_gizmo_seq());
    }
    data
}

} // verus!
