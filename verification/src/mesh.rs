//! Mesh geometry and the converter from parsed OBJ geometry to the flattened
//! vertex/index form the builder uploads.
//!
//! Scalar components (positions, normals) are carried as IEEE-754
//! single-precision bit patterns in `u32` fields: the library never does
//! arithmetic on them, it only regroups and moves them, so the bit pattern is
//! all it needs. The graphics layer reinterprets the bits when it hands the
//! data to the device.

use vstd::prelude::*;

verus! {

/// A 3-component vector; each component is the bit pattern of one
/// single-precision scalar.
#[derive(Clone, Copy, PartialEq, Eq, Structural, Debug)]
pub struct Vec3 {
    pub x: u32,
    pub y: u32,
    pub z: u32,
}

/// One vertex: a position and a normal, as the pipeline's vertex layout
/// consumes it.
#[derive(Clone, Copy, PartialEq, Eq, Structural, Debug)]
pub struct Vertex {
    pub position: Vec3,
    pub normals: Vec3,
}

/// Mesh geometry exactly as the OBJ parser hands it back: parallel flat
/// scalar arrays of positions and normals (`3 * vertex_count` entries each
/// when well-formed) and one index array.
#[derive(Clone, Debug)]
pub struct RawMesh {
    pub positions: Vec<u32>,
    pub normals: Vec<u32>,
    pub indices: Vec<u32>,
}

/// A converted mesh: an ordered vertex sequence and an index sequence.
#[derive(Clone, Debug)]
pub struct Mesh<VT, IT> {
    pub vertices: Vec<VT>,
    pub indices: Vec<IT>,
}

/// Mathematical model of a `Mesh`.
#[verifier::ext_equal]
pub ghost struct MeshView<VT, IT> {
    pub vertices: Seq<VT>,
    pub indices: Seq<IT>,
}

impl<VT, IT> View for Mesh<VT, IT> {
    type V = MeshView<VT, IT>;

    open spec fn view(&self) -> MeshView<VT, IT> {
        MeshView { vertices: self.vertices@, indices: self.indices@ }
    }
}

/// The vertex that position/normal triplet `k` of the flat arrays denotes.
pub open spec fn vertex_at(positions: Seq<u32>, normals: Seq<u32>, k: int) -> Vertex {
    Vertex {
        position: Vec3 { x: positions[3 * k], y: positions[3 * k + 1], z: positions[3 * k + 2] },
        normals: Vec3 { x: normals[3 * k], y: normals[3 * k + 1], z: normals[3 * k + 2] },
    }
}

/// The vertex sequence that the converter produces from the flat arrays:
/// one vertex per position triplet, in input order.
pub open spec fn converted_vertices(positions: Seq<u32>, normals: Seq<u32>) -> Seq<Vertex> {
    Seq::new(positions.len() / 3, |k: int| vertex_at(positions, normals, k))
}

/// The whole converted mesh: vertices from the flat arrays, indices copied
/// unchanged.
pub open spec fn converted_mesh(positions: Seq<u32>, normals: Seq<u32>, indices: Seq<u32>) -> MeshView<
    Vertex,
    u32,
> {
    MeshView { vertices: converted_vertices(positions, normals), indices }
}

impl Mesh<Vertex, u32> {
    /// Converts parsed geometry whose position and normal arrays are parallel
    /// (same length). Emits one vertex per position triplet, preserving input
    /// order, and copies the index array unchanged — no dedup, no reindexing.
    pub fn from_raw(raw: &RawMesh) -> (r: Mesh<Vertex, u32>)
        requires
            raw.positions@.len() == raw.normals@.len(),
        ensures
            r@ == converted_mesh(raw.positions@, raw.normals@, raw.indices@),
            r.vertices@.len() == raw.positions@.len() / 3,
            forall|k: int|
                0 <= k < r.vertices@.len() ==> r.vertices@[k] == vertex_at(
                    raw.positions@,
                    raw.normals@,
                    k,
                ),
            r.indices@ == raw.indices@,
    {
        let len = raw.positions.len();
        let n = len / 3;
        let mut vertices: Vec<Vertex> = Vec::new();
        let mut i: usize = 0;
        let mut p: usize = 0;
        while i < n
            invariant
                raw.positions@.len() == raw.normals@.len(),
                len == raw.positions@.len(),
                n == len / 3,
                i <= n,
                p == 3 * i,
                vertices@.len() == i,
                forall|k: int|
                    0 <= k < i ==> vertices@[k] == vertex_at(raw.positions@, raw.normals@, k),
            decreases n - i,
        {
            assert(p + 2 < len);
            let v = Vertex {
                position: Vec3 {
                    x: raw.positions[p],
                    y: raw.positions[p + 1],
                    z: raw.positions[p + 2],
                },
                normals: Vec3 { x: raw.normals[p], y: raw.normals[p + 1], z: raw.normals[p + 2] },
            };
            vertices.push(v);
            i = i + 1;
            p = p + 3;
        }
        let indices = copy_values(&raw.indices);
        let r = Mesh { vertices, indices };
        proof {
            assert(r.vertices@ =~= converted_vertices(raw.positions@, raw.normals@));
        }
        r
    }

    /// Checked form of [`Mesh::from_raw`]: converts when the position and
    /// normal arrays are parallel, and reports mismatched geometry as `None`
    /// instead of converting anything.
    pub fn try_from_raw(raw: &RawMesh) -> (r: Option<Mesh<Vertex, u32>>)
        ensures
            r is Some <==> raw.positions@.len() == raw.normals@.len(),
            r matches Some(m) ==> m@ == converted_mesh(raw.positions@, raw.normals@, raw.indices@),
    {
        if raw.positions.len() == raw.normals.len() {
            Some(Mesh::from_raw(raw))
        } else {
            None
        }
    }
}

/// Appends a copy of every element of `src` to `dst`, in order.
pub fn append_values<T: Copy>(dst: &mut Vec<T>, src: &Vec<T>)
    ensures
        final(dst)@ == old(dst)@ + src@,
{
    let mut i: usize = 0;
    while i < src.len()
        invariant
            i <= src@.len(),
            dst@ =~= old(dst)@ + src@.take(i as int),
        decreases src@.len() - i,
    {
        dst.push(src[i]);
        i = i + 1;
    }
    proof {
        assert(dst@ =~= old(dst)@ + src@);
    }
}

/// Copies a vector element for element.
pub fn copy_values<T: Copy>(src: &Vec<T>) -> (r: Vec<T>)
    ensures
        r@ == src@,
{
    let mut r: Vec<T> = Vec::new();
    append_values(&mut r, src);
    proof {
        assert(r@ =~= src@);
    }
    r
}

} // verus!
