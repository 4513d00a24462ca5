//! One primitive of a mesh: its vertices, its indices and its material.

use vstd::prelude::*;
use crate::error::LoadError;
use crate::material::{
    MaterialBindings, MaterialDesc, bindings_match, load_material, material_error,
    material_outcome_ok,
};

verus! {

/// A vertex. Each component is the bit pattern of a 32-bit float, so zero bits
/// are the float zero.
#[derive(Clone, Copy, Debug)]
pub struct Vertex {
    pub position: [u32; 3],
    pub tex_coord: [u32; 2],
    pub normal: [u32; 3],
}

/// A primitive's attributes as read from the document's accessors.
pub struct PrimitiveDesc {
    pub positions: Option<Vec<[u32; 3]>>,
    pub normals: Option<Vec<[u32; 3]>>,
    pub tex_coords: Option<Vec<[u32; 2]>>,
    pub indices: Option<Vec<u32>>,
    pub material: MaterialDesc,
}

/// A GPU-ready mesh: vertex and index data, the material bindings, and the name of
/// the document's mesh it came from.
pub struct MeshData {
    pub vertices: Vec<Vertex>,
    pub indices: Vec<u32>,
    pub bindings: MaterialBindings,
    pub name: Option<String>,
}

/// The `i`-th entry of an optional attribute, or zero where there is none.
pub open spec fn attr3_at(a: Option<Vec<[u32; 3]>>, i: int) -> [u32; 3] {
    match a {
        Some(v) => if i < v@.len() {
            v@[i]
        } else {
            [0u32, 0u32, 0u32]
        },
        None => [0u32, 0u32, 0u32],
    }
}

pub open spec fn attr2_at(a: Option<Vec<[u32; 2]>>, i: int) -> [u32; 2] {
    match a {
        Some(v) => if i < v@.len() {
            v@[i]
        } else {
            [0u32, 0u32]
        },
        None => [0u32, 0u32],
    }
}

/// One vertex per position; normals and texture coordinates are laid over them by
/// index, and are zero where absent.
pub open spec fn vertices_match(
    vertices: Seq<Vertex>,
    positions: Seq<[u32; 3]>,
    normals: Option<Vec<[u32; 3]>>,
    tex_coords: Option<Vec<[u32; 2]>>,
) -> bool {
    &&& vertices.len() == positions.len()
    &&& forall|i: int|
        0 <= i < positions.len() ==> #[trigger] vertices[i] == (Vertex {
            position: positions[i],
            tex_coord: attr2_at(tex_coords, i),
            normal: attr3_at(normals, i),
        })
}

/// Whether a primitive has what it needs to load.
pub open spec fn primitive_ok(p: PrimitiveDesc, buffers: Seq<Vec<u8>>) -> bool {
    &&& p.positions is Some
    &&& p.indices is Some
    &&& material_outcome_ok(p.material, buffers)
}

/// The error with which a primitive fails: missing attributes come first.
pub open spec fn primitive_error(p: PrimitiveDesc, buffers: Seq<Vec<u8>>) -> LoadError {
    if p.positions is None || p.indices is None {
        LoadError::MissingAttribute
    } else {
        material_error(p.material, buffers)
    }
}

/// What the mesh of a primitive that loaded holds.
pub open spec fn mesh_matches(
    m: MeshData,
    name: Option<String>,
    p: PrimitiveDesc,
    buffers: Seq<Vec<u8>>,
    frames: nat,
) -> bool {
    &&& vertices_match(m.vertices@, p.positions->0@, p.normals, p.tex_coords)
    &&& m.indices@ == p.indices->0@
    &&& bindings_match(m.bindings, p.material, buffers, frames)
    &&& m.name == name
}

/// Builds one vertex per position, with the normals and texture coordinates
/// that exist at its index.
pub fn assemble_vertices(
    positions: &Vec<[u32; 3]>,
    normals: &Option<Vec<[u32; 3]>>,
    tex_coords: &Option<Vec<[u32; 2]>>,
) -> (r: Vec<Vertex>)
    ensures
        vertices_match(r@, positions@, *normals, *tex_coords),
{
    let mut r: Vec<Vertex> = Vec::with_capacity(positions.len());
    let mut i: usize = 0;
    while i < positions.len()
        invariant
            i <= positions@.len(),
            r@.len() == i,
            forall|j: int|
                0 <= j < i ==> #[trigger] r@[j] == (Vertex {
                    position: positions@[j],
                    tex_coord: attr2_at(*tex_coords, j),
                    normal: attr3_at(*normals, j),
                }),
        decreases positions@.len() - i,
    {
        let normal: [u32; 3] = match normals {
            Some(v) => if i < v.len() {
                v[i]
            } else {
                [0u32, 0u32, 0u32]
            },
            None => [0u32, 0u32, 0u32],
        };
        let tex_coord: [u32; 2] = match tex_coords {
            Some(v) => if i < v.len() {
                v[i]
            } else {
                [0u32, 0u32]
            },
            None => [0u32, 0u32],
        };
        r.push(Vertex { position: positions[i], tex_coord, normal });
        i = i + 1;
    }
    r
}

fn copy_indices(indices: &Vec<u32>) -> (r: Vec<u32>)
    ensures
        r@ == indices@,
{
    let mut r: Vec<u32> = Vec::with_capacity(indices.len());
    let mut i: usize = 0;
    while i < indices.len()
        invariant
            i <= indices@.len(),
            r@ == indices@.subrange(0, i as int),
        decreases indices@.len() - i,
    {
        r.push(indices[i]);
        i = i + 1;
    }
    r
}

fn copy_name(name: &Option<String>) -> (r: Option<String>)
    ensures
        r == *name,
{
    match name {
        None => None,
        Some(s) => Some(s.clone()),
    }
}

/// Loads one primitive of the mesh named `name`: positions and indices are
/// required, and the material is resolved with one uniform buffer and one
/// descriptor set per frame in flight.
pub fn load_primitive(
    desc: &PrimitiveDesc,
    name: &Option<String>,
    buffers: &Vec<Vec<u8>>,
    frames: usize,
) -> (r: Result<MeshData, LoadError>)
    requires
        4 * frames <= usize::MAX,
    ensures
        r is Ok <==> primitive_ok(*desc, buffers@),
        r matches Err(e) ==> e == primitive_error(*desc, buffers@),
        r matches Ok(m) ==> mesh_matches(m, *name, *desc, buffers@, frames as nat),
{
    let positions = match &desc.positions {
        None => {
            return Err(LoadError::MissingAttribute);
        },
        Some(p) => p,
    };
    let indices = match &desc.indices {
        None => {
            return Err(LoadError::MissingAttribute);
        },
        Some(i) => copy_indices(i),
    };
    let bindings = match load_material(&desc.material, buffers, frames) {
        Err(e) => {
            return Err(e);
        },
        Ok(b) => b,
    };
    let vertices = assemble_vertices(positions, &desc.normals, &desc.tex_coords);
    Ok(MeshData { vertices, indices, bindings, name: copy_name(name) })
}

} // verus!
