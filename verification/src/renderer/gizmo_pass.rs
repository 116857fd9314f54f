//! The gizmo arrow mesh: parsed from its STL file, with homogeneous vertices and `u32`
//! indices.
use vstd::prelude::*;

verus! {

/// The indexed mesh that `stl_io::read_stl` reads from `bytes`: each vertex's coordinates
/// as the bits of their `f32` values, and each face's three vertex indices; `None` when the
/// bytes are not an STL file.
pub uninterp spec fn stl_indexed_mesh(bytes: Seq<u8>) -> Option<(Seq<[u32; 3]>, Seq<[usize; 3]>)>;

/// `stl_io::read_stl` on `bytes`: the vertices of the indexed mesh, each coordinate as the
/// bits of its `f32` value, and the vertex indices of its faces; `None` when reading fails.
/// The result is a function of the bytes alone.
#[verifier::external_body]
fn read_stl_mesh(bytes: &[u8]) -> (res: Option<(Vec<[u32; 3]>, Vec<[usize; 3]>)>)
    ensures
        match res {
            Some((vertices, faces)) => stl_indexed_mesh(bytes@) == Some((vertices@, faces@)),
            None => stl_indexed_mesh(bytes@) is None,
        },
{
    match stl_io::read_stl(&mut std::io::Cursor::new(bytes)) {
        Ok(mesh) => Some((
            mesh.vertices.iter().map(|v| [v[0].to_bits(), v[1].to_bits(), v[2].to_bits()]).collect(),
            mesh.faces.iter().map(|t| t.vertices).collect(),
        )),
        Err(_) => None,
    }
}

/// The bits of `1.0f32`, the `w` coordinate of every arrow vertex.
pub const ONE_F32_BITS: u32 = 0x3f80_0000;

/// A mesh vertex in homogeneous coordinates: its `x`, `y` and `z`, then `w = 1`.
pub open spec fn homogeneous_vertex(p: [u32; 3]) -> [u32; 4] {
    [p[0], p[1], p[2], ONE_F32_BITS]
}

/// The index buffer of a mesh: the three vertex indices of each triangle, in order, each
/// converted to `u32`.
pub open spec fn triangle_index_buffer(faces: Seq<[usize; 3]>) -> Seq<u32>
    decreases faces.len(),
{
    if faces.len() == 0 {
        Seq::empty()
    } else {
        let f = faces.last();
        triangle_index_buffer(faces.drop_last()) + seq![f[0] as u32, f[1] as u32, f[2] as u32]
    }
}

/// The `u32` index buffer of the triangles of the arrow mesh.
pub fn arrow_indices(faces: &Vec<[usize; 3]>) -> (res: Vec<u32>)
    ensures
        res@ == triangle_index_buffer(faces@),
        res@.len() == 3 * faces@.len(),
        forall|k: int, j: int|
            0 <= k < faces@.len() && 0 <= j < 3 ==> #[trigger] res@[3 * k + j] == (#[trigger] faces@[k])[j] as u32,
{
    proof {
        lemma_index_buffer_holds_faces_in_order(faces@);
    }
    let n = faces.len();
    let mut indices: Vec<u32> = Vec::new();
    let mut i: usize = 0;
    while i < n
        invariant
            n == faces@.len(),
            i <= n,
            indices@ == triangle_index_buffer(faces@.take(i as int)),
            indices@.len() == 3 * i,
        decreases n - i,
    {
        let face = faces[i];
        // these are called vertices but are actually indices
        indices.push(#[verifier::truncate] (face[0] as u32));
        indices.push(#[verifier::truncate] (face[1] as u32));
        indices.push(#[verifier::truncate] (face[2] as u32));
        proof {
            assert(faces@.take(i + 1).drop_last() =~= faces@.take(i as int));
        }
        i += 1;
    }
    proof {
        assert(faces@.take(n as int) =~= faces@);
    }
    indices
}


/// The vertices of the arrow in homogeneous coordinates.
fn homogeneous_vertices(vertices: &Vec<[u32; 3]>) -> (res: Vec<[u32; 4]>)
    ensures
        res@ == vertices@.map_values(|p: [u32; 3]| homogeneous_vertex(p)),
{
    let n = vertices.len();
    let mut out: Vec<[u32; 4]> = Vec::new();
    let mut i: usize = 0;
    while i < n
        invariant
            n == vertices@.len(),
            i <= n,
            out@ == vertices@.take(i as int).map_values(|p: [u32; 3]| homogeneous_vertex(p)),
        decreases n - i,
    {
        let p = vertices[i];
        out.push([p[0], p[1], p[2], ONE_F32_BITS]);
        proof {
            assert(vertices@.take(i + 1) =~= vertices@.take(i as int).push(p));
            assert(out@ =~= vertices@.take(i + 1).map_values(|p: [u32; 3]| homogeneous_vertex(p)));
        }
        i += 1;
    }
    proof {
        assert(vertices@.take(n as int) =~= vertices@);
    }
    out
}

/// The gizmo arrow mesh from the bytes of its STL file: the vertices in homogeneous
/// coordinates (`[x, y, z, 1]`, as `f32` bits) and the `u32` index buffer of its faces;
/// `None` when the bytes are not an STL file.
pub fn arrow_mesh(bytes: &[u8]) -> (res: Option<(Vec<[u32; 4]>, Vec<u32>)>)
    ensures
        match stl_indexed_mesh(bytes@) {
            Some((v, f)) => res matches Some((rv, ri)) && ri@ == triangle_index_buffer(f) && rv@ == v.map_values(
                |p: [u32; 3]| homogeneous_vertex(p),
            ) && rv@.len() == v.len() && (forall|k: int|
                0 <= k < v.len() ==> #[trigger] rv@[k] == [v[k][0], v[k][1], v[k][2], 0x3f80_0000u32]),
            None => res is None,
        },
{
    match read_stl_mesh(bytes) {
        Some((vertices, faces)) => {
            proof {
                lemma_vertices_become_homogeneous(vertices@);
            }
            Some((homogeneous_vertices(&vertices), arrow_indices(&faces)))
        },
        None => None,
    }
}


/// The index buffer holds every face's three vertex indices, in the face's order (keeping
/// its winding), face after face: the index at `3 * k + j` is index `j` of face `k`.
pub proof fn lemma_index_buffer_holds_faces_in_order(faces: Seq<[usize; 3]>)
    ensures
        triangle_index_buffer(faces).len() == 3 * faces.len(),
        forall|k: int, j: int|
            0 <= k < faces.len() && 0 <= j < 3 ==> #[trigger] triangle_index_buffer(faces)[3 * k + j] == (
            #[trigger] faces[k])[j] as u32,
    decreases faces.len(),
{
    if faces.len() > 0 {
        let prefix = faces.drop_last();
        lemma_index_buffer_holds_faces_in_order(prefix);
        let n = prefix.len() as int;
        assert forall|k: int, j: int| 0 <= k < faces.len() && 0 <= j < 3 implies #[trigger] triangle_index_buffer(
            faces,
        )[3 * k + j] == (#[trigger] faces[k])[j] as u32 by {
            if k < n {
                assert(prefix[k] == faces[k]);
                assert(triangle_index_buffer(prefix)[3 * k + j] == prefix[k][j] as u32);
            } else {
                assert(k == n);
                assert(faces.last() == faces[k]);
            }
        }
    }
}


/// Each vertex of the mesh becomes, in place, its `x`, `y` and `z` followed by `w = 1.0`.
pub proof fn lemma_vertices_become_homogeneous(vertices: Seq<[u32; 3]>)
    ensures
        vertices.map_values(|p: [u32; 3]| homogeneous_vertex(p)).len() == vertices.len(),
        forall|k: int|
            0 <= k < vertices.len() ==> vertices.map_values(|p: [u32; 3]| homogeneous_vertex(p))[k] == [
                (#[trigger] vertices[k])[0],
                vertices[k][1],
                vertices[k][2],
                0x3f80_0000u32,
            ],
{
}

} // verus!
