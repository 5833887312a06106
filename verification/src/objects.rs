//! The secondary object mesh, served to the object pipeline.
//!
//! Until real model files are wired in, every load yields the placeholder: a
//! unit cube centred at the origin, textured per face. Positions live on the
//! corners of that cube and are stored in half units, so a coordinate of
//! `1` stands for `0.5` in model space and `-1` for `-0.5`.

use vstd::prelude::*;

use crate::voxel::inds_of;
use crate::voxel::lemma_inds_of_in_range;
use crate::voxel::lemma_inds_of_len;
use crate::voxel::quad_indices;
use crate::voxel::Direction;

verus! {

/// A vertex of the object mesh: a corner of the unit model cube (in half
/// units), the outward direction of its face, and a texture coordinate with
/// components in `{0, 1}`.
#[derive(Clone, Copy, PartialEq, Eq, Structural, Debug)]
pub struct ObjectVertex {
    pub x: i8,
    pub y: i8,
    pub z: i8,
    pub normal: Direction,
    pub u: u8,
    pub v: u8,
}

/// Why an object mesh could not be loaded.
#[derive(Clone, Copy, PartialEq, Eq, Structural, Debug)]
pub enum LoadError {
    NotFound,
}

/// The 24 vertices of the placeholder cube, four per face, in the order
/// front, back, left, right, top, bottom.
pub open spec fn object_mesh_vertices() -> Seq<ObjectVertex> {
    seq![
        // front, facing +z
        ObjectVertex { x: -1i8, y: -1i8, z: 1i8, normal: Direction::ZPos, u: 0u8, v: 0u8 },
        ObjectVertex { x: 1i8, y: -1i8, z: 1i8, normal: Direction::ZPos, u: 1u8, v: 0u8 },
        ObjectVertex { x: 1i8, y: 1i8, z: 1i8, normal: Direction::ZPos, u: 1u8, v: 1u8 },
        ObjectVertex { x: -1i8, y: 1i8, z: 1i8, normal: Direction::ZPos, u: 0u8, v: 1u8 },
        // back, facing -z
        ObjectVertex { x: -1i8, y: -1i8, z: -1i8, normal: Direction::ZNeg, u: 0u8, v: 0u8 },
        ObjectVertex { x: 1i8, y: -1i8, z: -1i8, normal: Direction::ZNeg, u: 1u8, v: 0u8 },
        ObjectVertex { x: 1i8, y: 1i8, z: -1i8, normal: Direction::ZNeg, u: 1u8, v: 1u8 },
        ObjectVertex { x: -1i8, y: 1i8, z: -1i8, normal: Direction::ZNeg, u: 0u8, v: 1u8 },
        // left, facing -x
        ObjectVertex { x: -1i8, y: -1i8, z: -1i8, normal: Direction::XNeg, u: 0u8, v: 0u8 },
        ObjectVertex { x: -1i8, y: -1i8, z: 1i8, normal: Direction::XNeg, u: 1u8, v: 0u8 },
        ObjectVertex { x: -1i8, y: 1i8, z: 1i8, normal: Direction::XNeg, u: 1u8, v: 1u8 },
        ObjectVertex { x: -1i8, y: 1i8, z: -1i8, normal: Direction::XNeg, u: 0u8, v: 1u8 },
        // right, facing +x
        ObjectVertex { x: 1i8, y: -1i8, z: 1i8, normal: Direction::XPos, u: 0u8, v: 0u8 },
        ObjectVertex { x: 1i8, y: -1i8, z: -1i8, normal: Direction::XPos, u: 1u8, v: 0u8 },
        ObjectVertex { x: 1i8, y: 1i8, z: -1i8, normal: Direction::XPos, u: 1u8, v: 1u8 },
        ObjectVertex { x: 1i8, y: 1i8, z: 1i8, normal: Direction::XPos, u: 0u8, v: 1u8 },
        // top, facing +y
        ObjectVertex { x: -1i8, y: 1i8, z: 1i8, normal: Direction::YPos, u: 0u8, v: 0u8 },
        ObjectVertex { x: 1i8, y: 1i8, z: 1i8, normal: Direction::YPos, u: 1u8, v: 0u8 },
        ObjectVertex { x: 1i8, y: 1i8, z: -1i8, normal: Direction::YPos, u: 1u8, v: 1u8 },
        ObjectVertex { x: -1i8, y: 1i8, z: -1i8, normal: Direction::YPos, u: 0u8, v: 1u8 },
        // bottom, facing -y
        ObjectVertex { x: -1i8, y: -1i8, z: -1i8, normal: Direction::YNeg, u: 0u8, v: 0u8 },
        ObjectVertex { x: 1i8, y: -1i8, z: -1i8, normal: Direction::YNeg, u: 1u8, v: 0u8 },
        ObjectVertex { x: 1i8, y: -1i8, z: 1i8, normal: Direction::YNeg, u: 1u8, v: 1u8 },
        ObjectVertex { x: -1i8, y: -1i8, z: 1i8, normal: Direction::YNeg, u: 0u8, v: 1u8 },
    ]
}

/// Loads the object mesh for the given name. The placeholder cube is served
/// whatever the name: six quads of four vertices, indexed as two triangles
/// each, every index below the vertex count.
pub fn load_mesh(_path: &str) -> (r: Result<(Vec<ObjectVertex>, Vec<u32>), LoadError>)
    ensures
        r is Ok,
        (r->Ok_0).0@ == object_mesh_vertices(),
        (r->Ok_0).0@.len() == 24,
        (r->Ok_0).1@ == inds_of(6),
        (r->Ok_0).1@.len() == 36,
        forall|i: int| 0 <= i < (r->Ok_0).1@.len() ==> (#[trigger] (r->Ok_0).1@[i]) < 24,
{
    let mut vertices: Vec<ObjectVertex> = Vec::new();
    vertices.push(ObjectVertex { x: -1, y: -1, z: 1, normal: Direction::ZPos, u: 0, v: 0 });
    vertices.push(ObjectVertex { x: 1, y: -1, z: 1, normal: Direction::ZPos, u: 1, v: 0 });
    vertices.push(ObjectVertex { x: 1, y: 1, z: 1, normal: Direction::ZPos, u: 1, v: 1 });
    vertices.push(ObjectVertex { x: -1, y: 1, z: 1, normal: Direction::ZPos, u: 0, v: 1 });
    vertices.push(ObjectVertex { x: -1, y: -1, z: -1, normal: Direction::ZNeg, u: 0, v: 0 });
    vertices.push(ObjectVertex { x: 1, y: -1, z: -1, normal: Direction::ZNeg, u: 1, v: 0 });
    vertices.push(ObjectVertex { x: 1, y: 1, z: -1, normal: Direction::ZNeg, u: 1, v: 1 });
    vertices.push(ObjectVertex { x: -1, y: 1, z: -1, normal: Direction::ZNeg, u: 0, v: 1 });
    vertices.push(ObjectVertex { x: -1, y: -1, z: -1, normal: Direction::XNeg, u: 0, v: 0 });
    vertices.push(ObjectVertex { x: -1, y: -1, z: 1, normal: Direction::XNeg, u: 1, v: 0 });
    vertices.push(ObjectVertex { x: -1, y: 1, z: 1, normal: Direction::XNeg, u: 1, v: 1 });
    vertices.push(ObjectVertex { x: -1, y: 1, z: -1, normal: Direction::XNeg, u: 0, v: 1 });
    vertices.push(ObjectVertex { x: 1, y: -1, z: 1, normal: Direction::XPos, u: 0, v: 0 });
    vertices.push(ObjectVertex { x: 1, y: -1, z: -1, normal: Direction::XPos, u: 1, v: 0 });
    vertices.push(ObjectVertex { x: 1, y: 1, z: -1, normal: Direction::XPos, u: 1, v: 1 });
    vertices.push(ObjectVertex { x: 1, y: 1, z: 1, normal: Direction::XPos, u: 0, v: 1 });
    vertices.push(ObjectVertex { x: -1, y: 1, z: 1, normal: Direction::YPos, u: 0, v: 0 });
    vertices.push(ObjectVertex { x: 1, y: 1, z: 1, normal: Direction::YPos, u: 1, v: 0 });
    vertices.push(ObjectVertex { x: 1, y: 1, z: -1, normal: Direction::YPos, u: 1, v: 1 });
    vertices.push(ObjectVertex { x: -1, y: 1, z: -1, normal: Direction::YPos, u: 0, v: 1 });
    vertices.push(ObjectVertex { x: -1, y: -1, z: -1, normal: Direction::YNeg, u: 0, v: 0 });
    vertices.push(ObjectVertex { x: 1, y: -1, z: -1, normal: Direction::YNeg, u: 1, v: 0 });
    vertices.push(ObjectVertex { x: 1, y: -1, z: 1, normal: Direction::YNeg, u: 1, v: 1 });
    vertices.push(ObjectVertex { x: -1, y: -1, z: 1, normal: Direction::YNeg, u: 0, v: 1 });
    proof {
        assert(vertices@ =~= object_mesh_vertices());
    }

    let mut indices: Vec<u32> = Vec::new();
    let mut k: u32 = 0;
    while k < 6
        invariant
            k <= 6,
            indices@ == inds_of(k as int),
        decreases 6 - k,
    {
        let base = 4 * k;
        indices.push(base);
        indices.push(base + 1);
        indices.push(base + 2);
        indices.push(base);
        indices.push(base + 2);
        indices.push(base + 3);
        proof {
            assert(indices@ =~= inds_of(k as int) + quad_indices(k as int));
        }
        k = k + 1;
    }
    proof {
        lemma_inds_of_len(6);
        lemma_inds_of_in_range(6);
    }
    Ok((vertices, indices))
}

} // verus!
