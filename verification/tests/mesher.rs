use lustre::voxel::{
    generate_voxel_mesh, get_64_voxel_mesh, get_voxel_mesh, mesh_with_colors, Color, Corner,
    Direction, MainVertex, VoxelGrid,
};

fn grid_with(width: usize, height: usize, depth: usize, solid: &[(usize, usize, usize)]) -> VoxelGrid {
    let mut grid = VoxelGrid::new(width, height, depth);
    for &(x, y, z) in solid {
        assert!(grid.set_voxel(x, y, z, true));
    }
    grid
}

fn palette(n: usize) -> Vec<Color> {
    let mut colors = Vec::new();
    for i in 0..n {
        let v = (i % 251) as u8;
        colors.push(Color { r: v, g: v.wrapping_add(7), b: v.wrapping_add(13) });
    }
    colors
}

fn quad_pattern(faces: usize) -> Vec<u32> {
    let mut indices = Vec::new();
    for k in 0..faces as u32 {
        let a = 4 * k;
        indices.extend_from_slice(&[a, a + 1, a + 2, a, a + 2, a + 3]);
    }
    indices
}

#[test]
fn zero_extent_grids_mesh_empty() {
    for (w, h, d) in [(0, 3, 3), (3, 0, 3), (3, 3, 0), (0, 0, 0)] {
        let grid = VoxelGrid::new(w, h, d);
        let (vertices, indices) = generate_voxel_mesh(&grid);
        assert!(vertices.is_empty());
        assert!(indices.is_empty());
    }
}

#[test]
fn empty_grid_meshes_empty() {
    let grid = VoxelGrid::new(4, 2, 5);
    let (vertices, indices) = generate_voxel_mesh(&grid);
    assert_eq!(vertices.len(), 0);
    assert_eq!(indices.len(), 0);
}

#[test]
fn single_voxel_emits_six_faces() {
    let grid = grid_with(3, 3, 3, &[(1, 1, 1)]);
    let colors = palette(1);
    let (vertices, indices) = mesh_with_colors(&grid, &colors);
    assert_eq!(vertices.len(), 24);
    assert_eq!(indices.len(), 36);
    assert_eq!(indices, quad_pattern(6));

    // One face per direction, in scan order.
    let expected_normals = [
        Direction::ZPos,
        Direction::ZNeg,
        Direction::XPos,
        Direction::XNeg,
        Direction::YPos,
        Direction::YNeg,
    ];
    for (face, normal) in expected_normals.iter().enumerate() {
        for corner in 0..4 {
            let v = vertices[4 * face + corner];
            assert_eq!(v.normal, *normal);
            assert_eq!(v.color, colors[0]);
        }
    }

    // The front face of voxel (1, 1, 1) fans through its four z = 2 corners.
    assert_eq!(vertices[0].position, Corner { x: 1, y: 1, z: 2 });
    assert_eq!(vertices[1].position, Corner { x: 2, y: 1, z: 2 });
    assert_eq!(vertices[2].position, Corner { x: 2, y: 2, z: 2 });
    assert_eq!(vertices[3].position, Corner { x: 1, y: 2, z: 2 });
}

#[test]
fn get_voxel_mesh_centers_single_voxel() {
    let (vertices, indices) = get_voxel_mesh(3);
    assert_eq!(vertices.len(), 24);
    assert_eq!(indices.len(), 36);
    assert_eq!(indices, quad_pattern(6));
    // All faces share the voxel's one colour.
    let color = vertices[0].color;
    assert!(vertices.iter().all(|v| v.color == color));
    // The centre of a 3-cube is voxel (1, 1, 1).
    assert_eq!(vertices[0].position, Corner { x: 1, y: 1, z: 2 });
}

#[test]
fn get_voxel_mesh_size_one() {
    let (vertices, indices) = get_voxel_mesh(1);
    assert_eq!(vertices.len(), 24);
    assert_eq!(indices.len(), 36);
}

#[test]
fn adjacent_voxels_share_no_face() {
    // Two voxels sharing the face x = 1: 12 faces minus the 2 culled ones.
    let grid = grid_with(3, 3, 3, &[(0, 1, 1), (1, 1, 1)]);
    let colors = palette(2);
    let (vertices, indices) = mesh_with_colors(&grid, &colors);
    assert_eq!(vertices.len(), 10 * 4);
    assert_eq!(indices.len(), 10 * 6);
    assert_eq!(indices, quad_pattern(10));

    // No emitted face of voxel (0,1,1) points +x, none of (1,1,1) points -x.
    for chunk in vertices.chunks(4) {
        let is_first_voxel = chunk[0].color == colors[0];
        if is_first_voxel {
            assert_ne!(chunk[0].normal, Direction::XPos);
        } else {
            assert_ne!(chunk[0].normal, Direction::XNeg);
        }
    }
}

#[test]
fn remesh_with_same_colors_is_identical() {
    let grid = grid_with(4, 2, 3, &[(0, 0, 0), (1, 0, 0), (3, 1, 2), (2, 1, 1)]);
    let colors = palette(4);
    let (v1, i1) = mesh_with_colors(&grid, &colors);
    let (v2, i2) = mesh_with_colors(&grid, &colors);
    assert_eq!(v1, v2);
    assert_eq!(i1, i2);
}

#[test]
fn remesh_keeps_face_count_and_geometry() {
    // Colours are drawn at random, but the geometry must not move.
    let grid = grid_with(5, 3, 4, &[(0, 0, 0), (4, 2, 3), (2, 1, 2), (2, 1, 1)]);
    let (v1, i1) = generate_voxel_mesh(&grid);
    let (v2, i2) = generate_voxel_mesh(&grid);
    assert_eq!(i1, i2);
    assert_eq!(v1.len(), v2.len());
    for (a, b) in v1.iter().zip(v2.iter()) {
        assert_eq!(a.position, b.position);
        assert_eq!(a.normal, b.normal);
    }
}

fn lcg_grid(width: usize, height: usize, depth: usize, seed: u64) -> (VoxelGrid, usize) {
    let mut grid = VoxelGrid::new(width, height, depth);
    let mut state = seed;
    let mut solid = 0;
    for x in 0..width {
        for y in 0..height {
            for z in 0..depth {
                state = state.wrapping_mul(6364136223846793005).wrapping_add(1442695040888963407);
                if (state >> 33) & 1 == 1 {
                    grid.set_voxel(x, y, z, true);
                    solid += 1;
                }
            }
        }
    }
    (grid, solid)
}

#[test]
fn random_grids_have_indices_in_range() {
    for seed in 1..6u64 {
        let (grid, solid) = lcg_grid(7, 5, 6, seed);
        let colors = palette(solid);
        let (vertices, indices) = mesh_with_colors(&grid, &colors);
        assert_eq!(vertices.len() % 4, 0);
        assert_eq!(indices.len() % 6, 0);
        assert_eq!(indices.len() / 6, vertices.len() / 4);
        for &i in &indices {
            assert!((i as usize) < vertices.len());
        }
    }
}

#[test]
fn random_grids_drawn_twice_match() {
    let (grid, solid) = lcg_grid(6, 4, 5, 42);
    let colors = palette(solid);
    let first = mesh_with_colors(&grid, &colors);
    let second = mesh_with_colors(&grid, &colors);
    assert_eq!(first.0, second.0);
    assert_eq!(first.1, second.1);
}

#[test]
fn full_block_shows_only_its_surface() {
    // A filled 2x2x2 block: 8 voxels, only the 24 outer faces survive.
    let mut solid = Vec::new();
    for x in 0..2 {
        for y in 0..2 {
            for z in 0..2 {
                solid.push((x, y, z));
            }
        }
    }
    let grid = grid_with(2, 2, 2, &solid);
    let colors = palette(8);
    let (vertices, indices) = mesh_with_colors(&grid, &colors);
    assert_eq!(vertices.len(), 24 * 4);
    assert_eq!(indices.len(), 24 * 6);
}

#[test]
fn get_64_voxel_mesh_is_empty() {
    let (vertices, indices) = get_64_voxel_mesh();
    assert!(vertices.is_empty());
    assert!(indices.is_empty());
}

#[test]
fn grid_set_and_toggle() {
    let mut grid = VoxelGrid::new(3, 2, 2);
    assert!(!grid.is_solid(1, 1, 1));
    assert!(grid.set_voxel(1, 1, 1, true));
    assert!(grid.is_solid(1, 1, 1));
    assert!(grid.toggle_voxel(1, 1, 1));
    assert!(!grid.is_solid(1, 1, 1));
    assert!(grid.toggle_voxel(1, 1, 1));
    assert!(grid.is_solid(1, 1, 1));

    // Out of bounds: refused, nothing changes.
    assert!(!grid.set_voxel(3, 0, 0, true));
    assert!(!grid.toggle_voxel(0, 2, 0));
    assert!(!grid.is_solid(3, 0, 0));
}

#[test]
fn mesh_vertices_lie_on_voxel_corners() {
    let grid = grid_with(3, 3, 3, &[(2, 0, 1)]);
    let colors = palette(1);
    let (vertices, _) = mesh_with_colors(&grid, &colors);
    for v in &vertices {
        assert!(v.position.x == 2 || v.position.x == 3);
        assert!(v.position.y == 0 || v.position.y == 1);
        assert!(v.position.z == 1 || v.position.z == 2);
    }
}

#[test]
fn from_cells_accepts_rectangular_volumes() {
    let cells = vec![vec![vec![false, true], vec![true, false]]; 3];
    let grid = VoxelGrid::from_cells(cells).expect("rectangular rows form a grid");
    assert_eq!(grid.width, 3);
    assert_eq!(grid.height, 2);
    assert_eq!(grid.depth, 2);
    assert!(grid.is_solid(0, 0, 1));
    assert!(grid.is_solid(2, 1, 0));
    assert!(!grid.is_solid(1, 1, 1));

    let empty = VoxelGrid::from_cells(Vec::new()).expect("no rows is a legal grid");
    assert_eq!(empty.width, 0);
    assert_eq!(empty.height, 0);
}

#[test]
fn from_cells_rejects_ragged_volumes() {
    let short_row = vec![
        vec![vec![false, false], vec![false, false]],
        vec![vec![false, false]],
    ];
    assert!(VoxelGrid::from_cells(short_row).is_none());

    let short_column = vec![vec![vec![false, false], vec![false]]];
    assert!(VoxelGrid::from_cells(short_column).is_none());
}

#[test]
fn recoloring_moves_no_geometry() {
    let grid = grid_with(3, 2, 3, &[(0, 0, 0), (2, 1, 2), (1, 0, 1)]);
    let (v1, i1) = mesh_with_colors(&grid, &palette(3));
    let mut other = palette(3);
    other.reverse();
    let (v2, i2) = mesh_with_colors(&grid, &other);
    assert_eq!(i1, i2);
    assert_eq!(v1.len(), v2.len());
    for (a, b) in v1.iter().zip(v2.iter()) {
        assert_eq!(a.position, b.position);
        assert_eq!(a.normal, b.normal);
    }
}

#[test]
fn mainvertex_is_plain_data() {
    let v = MainVertex {
        position: Corner { x: 0, y: 1, z: 2 },
        normal: Direction::YNeg,
        color: Color { r: 1, g: 2, b: 3 },
    };
    let w = v;
    assert_eq!(v, w);
}
