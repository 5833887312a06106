//! The voxel occupancy grid and the mesher that turns it into geometry.
//!
//! A [`VoxelGrid`] is a dense, rectangular 3-D array of booleans. The mesher
//! walks every solid voxel and emits one quad per face whose neighbour is
//! empty or out of bounds (a boundary face); interior faces shared by two
//! solid voxels are never emitted.

use vstd::prelude::*;

verus! {

/// A dense 3-D boolean occupancy volume, indexed `[x][y][z]`.
///
/// The grid may be non-cubic but is always rectangular: every row and column
/// has the length declared by `width`/`height`/`depth` (see [`VoxelGrid::wf`]).
#[derive(Clone, Debug)]
pub struct VoxelGrid {
    pub width: usize,
    pub height: usize,
    pub depth: usize,
    pub cells: Vec<Vec<Vec<bool>>>,
}

/// Raw nested rows form a rectangular volume: every row is as long as the
/// first, and every column as deep as the first.
pub open spec fn rectangular_cells(cells: Seq<Vec<Vec<bool>>>) -> bool {
    &&& forall|x: int| 0 <= x < cells.len() ==> #[trigger] cells[x]@.len() == cells[0]@.len()
    &&& forall|x: int, y: int|
        0 <= x < cells.len() && 0 <= y < cells[x]@.len()
            ==> #[trigger] cells[x]@[y]@.len() == cells[0]@[0]@.len()
}

impl VoxelGrid {
    /// The grid is rectangular and its declared extents match the storage.
    pub open spec fn wf(&self) -> bool {
        &&& self.cells@.len() == self.width
        &&& forall|x: int| 0 <= x < self.width ==> #[trigger] self.cells@[x]@.len() == self.height
        &&& forall|x: int, y: int|
            0 <= x < self.width && 0 <= y < self.height
                ==> #[trigger] self.cells@[x]@[y]@.len() == self.depth
    }

    /// Whether the cell at mathematical coordinates `(x, y, z)` is solid;
    /// anything out of bounds counts as empty.
    pub open spec fn solid(&self, x: int, y: int, z: int) -> bool {
        &&& 0 <= x < self.width
        &&& 0 <= y < self.height
        &&& 0 <= z < self.depth
        &&& self.cells@[x]@[y]@[z]
    }

    /// A grid of the given extents with every voxel empty.
    pub fn new(width: usize, height: usize, depth: usize) -> (r: VoxelGrid)
        ensures
            r.wf(),
            r.width == width && r.height == height && r.depth == depth,
            forall|x: int, y: int, z: int| !r.solid(x, y, z),
    {
        let mut cells: Vec<Vec<Vec<bool>>> = Vec::new();
        let mut x: usize = 0;
        while x < width
            invariant
                x <= width,
                cells@.len() == x,
                forall|i: int| 0 <= i < x ==> #[trigger] cells@[i]@.len() == height,
                forall|i: int, j: int|
                    0 <= i < x && 0 <= j < height ==> #[trigger] cells@[i]@[j]@.len() == depth,
                forall|i: int, j: int, k: int|
                    0 <= i < x && 0 <= j < height && 0 <= k < depth
                        ==> !(#[trigger] cells@[i]@[j]@[k]),
            decreases width - x,
        {
            let mut plane: Vec<Vec<bool>> = Vec::new();
            let mut y: usize = 0;
            while y < height
                invariant
                    y <= height,
                    plane@.len() == y,
                    forall|j: int| 0 <= j < y ==> #[trigger] plane@[j]@.len() == depth,
                    forall|j: int, k: int|
                        0 <= j < y && 0 <= k < depth ==> !(#[trigger] plane@[j]@[k]),
                decreases height - y,
            {
                let mut row: Vec<bool> = Vec::new();
                let mut z: usize = 0;
                while z < depth
                    invariant
                        z <= depth,
                        row@.len() == z,
                        forall|k: int| 0 <= k < z ==> !(#[trigger] row@[k]),
                    decreases depth - z,
                {
                    row.push(false);
                    z = z + 1;
                }
                plane.push(row);
                y = y + 1;
            }
            cells.push(plane);
            x = x + 1;
        }
        VoxelGrid { width, height, depth, cells }
    }

    /// Wraps raw nested rows as a grid when they are rectangular, reading
    /// the extents off the first row and column; ragged rows are rejected
    /// rather than trusted.
    pub fn from_cells(cells: Vec<Vec<Vec<bool>>>) -> (r: Option<VoxelGrid>)
        ensures
            r is Some <==> rectangular_cells(cells@),
            match r {
                Some(g) => {
                    &&& g.wf()
                    &&& g.cells == cells
                    &&& g.width == cells@.len()
                    &&& cells@.len() > 0 ==> g.height == cells@[0]@.len()
                    &&& cells@.len() == 0 ==> g.height == 0
                },
                None => true,
            },
    {
        let width = cells.len();
        let height = if width > 0 {
            cells[0].len()
        } else {
            0
        };
        let depth = if width > 0 && height > 0 {
            cells[0][0].len()
        } else {
            0
        };
        let mut x: usize = 0;
        while x < width
            invariant
                x <= width,
                width == cells@.len(),
                width > 0 ==> height == cells@[0]@.len(),
                width == 0 ==> height == 0,
                (width > 0 && height > 0) ==> depth == cells@[0]@[0]@.len(),
                (width == 0 || height == 0) ==> depth == 0,
                forall|i: int| 0 <= i < x ==> #[trigger] cells@[i]@.len() == height,
                forall|i: int, j: int|
                    0 <= i < x && 0 <= j < height ==> #[trigger] cells@[i]@[j]@.len() == depth,
            decreases width - x,
        {
            if cells[x].len() != height {
                proof {
                    assert(!rectangular_cells(cells@));
                }
                return None;
            }
            let mut y: usize = 0;
            while y < height
                invariant
                    y <= height,
                    x < width,
                    width == cells@.len(),
                    cells@[x as int]@.len() == height,
                    width > 0 ==> height == cells@[0]@.len(),
                    (width > 0 && height > 0) ==> depth == cells@[0]@[0]@.len(),
                    forall|j: int|
                        0 <= j < y ==> #[trigger] cells@[x as int]@[j]@.len() == depth,
                decreases height - y,
            {
                if cells[x][y].len() != depth {
                    proof {
                        assert(!rectangular_cells(cells@));
                    }
                    return None;
                }
                y = y + 1;
            }
            x = x + 1;
        }
        proof {
            assert(rectangular_cells(cells@));
        }
        Some(VoxelGrid { width, height, depth, cells })
    }

    /// Whether the voxel at `(x, y, z)` is solid; out-of-bounds queries
    /// return `false` rather than failing.
    pub fn is_solid(&self, x: usize, y: usize, z: usize) -> (r: bool)
        requires
            self.wf(),
        ensures
            r == self.solid(x as int, y as int, z as int),
    {
        x < self.width && y < self.height && z < self.depth && self.cells[x][y][z]
    }

    /// Sets the voxel at `(x, y, z)` to `value`. Returns `true` when the
    /// coordinates were in bounds and the write happened.
    pub fn set_voxel(&mut self, x: usize, y: usize, z: usize, value: bool) -> (r: bool)
        requires
            old(self).wf(),
        ensures
            final(self).wf(),
            final(self).width == old(self).width,
            final(self).height == old(self).height,
            final(self).depth == old(self).depth,
            r == (x < old(self).width && y < old(self).height && z < old(self).depth),
            r ==> final(self).solid(x as int, y as int, z as int) == value,
            forall|i: int, j: int, k: int|
                !(i == x && j == y && k == z)
                    ==> final(self).solid(i, j, k) == old(self).solid(i, j, k),
            !r ==> *final(self) == *old(self),
    {
        if x < self.width && y < self.height && z < self.depth {
            self.cells[x][y][z] = value;
            true
        } else {
            false
        }
    }

    /// Flips the voxel at `(x, y, z)`. Returns `true` when the coordinates
    /// were in bounds and the voxel changed.
    pub fn toggle_voxel(&mut self, x: usize, y: usize, z: usize) -> (r: bool)
        requires
            old(self).wf(),
        ensures
            final(self).wf(),
            final(self).width == old(self).width,
            final(self).height == old(self).height,
            final(self).depth == old(self).depth,
            r == (x < old(self).width && y < old(self).height && z < old(self).depth),
            r ==> final(self).solid(x as int, y as int, z as int)
                == !old(self).solid(x as int, y as int, z as int),
            forall|i: int, j: int, k: int|
                !(i == x && j == y && k == z)
                    ==> final(self).solid(i, j, k) == old(self).solid(i, j, k),
            !r ==> *final(self) == *old(self),
    {
        if x < self.width && y < self.height && z < self.depth {
            let current = self.cells[x][y][z];
            self.cells[x][y][z] = !current;
            true
        } else {
            false
        }
    }
}

/// The six axis-aligned face directions, in the order the mesher examines
/// the neighbours of a voxel. Each is also the outward normal of the face it
/// names.
#[derive(Clone, Copy, PartialEq, Eq, Structural, Debug)]
pub enum Direction {
    ZPos,
    ZNeg,
    XPos,
    XNeg,
    YPos,
    YNeg,
}

/// An RGB colour attribute, one byte per channel.
#[derive(Clone, Copy, PartialEq, Eq, Structural, Debug)]
pub struct Color {
    pub r: u8,
    pub g: u8,
    pub b: u8,
}

/// A corner of a voxel cube, on the integer lattice of the grid.
#[derive(Clone, Copy, PartialEq, Eq, Structural, Debug)]
pub struct Corner {
    pub x: usize,
    pub y: usize,
    pub z: usize,
}

/// A terrain vertex: lattice position, the direction of the face it belongs
/// to (its outward normal), and the per-voxel colour.
#[derive(Clone, Copy, PartialEq, Eq, Structural, Debug)]
pub struct MainVertex {
    pub position: Corner,
    pub normal: Direction,
    pub color: Color,
}

/// One boundary face the mesher emits: the voxel it belongs to, the
/// direction it faces, and the rank of that voxel among the solid voxels in
/// scan order (the rank picks the voxel's colour).
pub ghost struct FaceId {
    pub x: int,
    pub y: int,
    pub z: int,
    pub dir: Direction,
    pub voxel: int,
}

/// The coordinates of the neighbouring cell in the given direction.
pub open spec fn neighbor(x: int, y: int, z: int, dir: Direction) -> (int, int, int) {
    match dir {
        Direction::ZPos => (x, y, z + 1),
        Direction::ZNeg => (x, y, z - 1),
        Direction::XPos => (x + 1, y, z),
        Direction::XNeg => (x - 1, y, z),
        Direction::YPos => (x, y + 1, z),
        Direction::YNeg => (x, y - 1, z),
    }
}

/// A face is emitted exactly when its voxel is solid and the neighbour it
/// faces is empty or out of bounds: the boundary-face rule.
pub open spec fn face_visible(g: &VoxelGrid, x: int, y: int, z: int, dir: Direction) -> bool {
    g.solid(x, y, z) && !g.solid(
        neighbor(x, y, z, dir).0,
        neighbor(x, y, z, dir).1,
        neighbor(x, y, z, dir).2,
    )
}

/// A vertex of the quad for voxel `(x, y, z)` in direction `dir`.
pub open spec fn vert(x: int, y: int, z: int, dir: Direction, color: Color) -> MainVertex {
    MainVertex {
        position: Corner { x: x as usize, y: y as usize, z: z as usize },
        normal: dir,
        color,
    }
}

/// The four vertices of one quad face, in fan order. The winding is fixed
/// per direction so that every face winds consistently for outward normals.
pub open spec fn quad_vertices(x: int, y: int, z: int, dir: Direction, color: Color)
    -> Seq<MainVertex>
{
    match dir {
        Direction::ZPos => seq![
            vert(x, y, z + 1, dir, color),
            vert(x + 1, y, z + 1, dir, color),
            vert(x + 1, y + 1, z + 1, dir, color),
            vert(x, y + 1, z + 1, dir, color),
        ],
        Direction::ZNeg => seq![
            vert(x + 1, y, z, dir, color),
            vert(x, y, z, dir, color),
            vert(x, y + 1, z, dir, color),
            vert(x + 1, y + 1, z, dir, color),
        ],
        Direction::XPos => seq![
            vert(x + 1, y, z + 1, dir, color),
            vert(x + 1, y, z, dir, color),
            vert(x + 1, y + 1, z, dir, color),
            vert(x + 1, y + 1, z + 1, dir, color),
        ],
        Direction::XNeg => seq![
            vert(x, y, z, dir, color),
            vert(x, y, z + 1, dir, color),
            vert(x, y + 1, z + 1, dir, color),
            vert(x, y + 1, z, dir, color),
        ],
        Direction::YPos => seq![
            vert(x, y + 1, z, dir, color),
            vert(x, y + 1, z + 1, dir, color),
            vert(x + 1, y + 1, z + 1, dir, color),
            vert(x + 1, y + 1, z, dir, color),
        ],
        Direction::YNeg => seq![
            vert(x, y, z + 1, dir, color),
            vert(x, y, z, dir, color),
            vert(x + 1, y, z, dir, color),
            vert(x + 1, y, z + 1, dir, color),
        ],
    }
}

/// The six index entries of the `k`-th quad: two triangles sharing the
/// diagonal from the first to the third vertex.
pub open spec fn quad_indices(k: int) -> Seq<u32> {
    seq![
        (4 * k) as u32,
        (4 * k + 1) as u32,
        (4 * k + 2) as u32,
        (4 * k) as u32,
        (4 * k + 2) as u32,
        (4 * k + 3) as u32,
    ]
}

/// The face for `(x, y, z, dir)` if it is visible, else nothing.
pub open spec fn maybe_face(g: &VoxelGrid, x: int, y: int, z: int, dir: Direction, rank: int)
    -> Seq<FaceId>
{
    if face_visible(g, x, y, z, dir) {
        seq![FaceId { x, y, z, dir, voxel: rank }]
    } else {
        Seq::empty()
    }
}

/// All faces emitted for the voxel `(x, y, z)`, in direction order. Empty
/// when the voxel is not solid.
pub open spec fn voxel_faces(g: &VoxelGrid, x: int, y: int, z: int, rank: int) -> Seq<FaceId> {
    maybe_face(g, x, y, z, Direction::ZPos, rank)
        + maybe_face(g, x, y, z, Direction::ZNeg, rank)
        + maybe_face(g, x, y, z, Direction::XPos, rank)
        + maybe_face(g, x, y, z, Direction::XNeg, rank)
        + maybe_face(g, x, y, z, Direction::YPos, rank)
        + maybe_face(g, x, y, z, Direction::YNeg, rank)
}

/// How many of the cells `(x, y, 0) .. (x, y, z-1)` are solid.
pub open spec fn solid_in_col(g: &VoxelGrid, x: int, y: int, z: int) -> int
    decreases z,
{
    if z <= 0 {
        0
    } else {
        solid_in_col(g, x, y, z - 1) + if g.solid(x, y, z - 1) { 1int } else { 0int }
    }
}

/// How many cells are solid in the rows `(x, 0, _) .. (x, y-1, _)`.
pub open spec fn solid_in_plane(g: &VoxelGrid, x: int, y: int) -> int
    decreases y,
{
    if y <= 0 {
        0
    } else {
        solid_in_plane(g, x, y - 1) + solid_in_col(g, x, y - 1, g.depth as int)
    }
}

/// How many cells are solid in the planes `(0, _, _) .. (x-1, _, _)`.
pub open spec fn solid_upto(g: &VoxelGrid, x: int) -> int
    decreases x,
{
    if x <= 0 {
        0
    } else {
        solid_upto(g, x - 1) + solid_in_plane(g, x - 1, g.height as int)
    }
}

/// The number of solid voxels in the grid.
pub open spec fn solid_count(g: &VoxelGrid) -> int {
    solid_upto(g, g.width as int)
}

/// The rank of the cell `(x, y, z)`: how many solid voxels the scan visits
/// before it.
pub open spec fn rank_of(g: &VoxelGrid, x: int, y: int, z: int) -> int {
    solid_upto(g, x) + solid_in_plane(g, x, y) + solid_in_col(g, x, y, z)
}

/// The faces of the voxels `(x, y, 0) .. (x, y, z-1)`, in scan order.
pub open spec fn faces_in_col(g: &VoxelGrid, x: int, y: int, z: int) -> Seq<FaceId>
    decreases z,
{
    if z <= 0 {
        Seq::empty()
    } else {
        faces_in_col(g, x, y, z - 1) + voxel_faces(g, x, y, z - 1, rank_of(g, x, y, z - 1))
    }
}

/// The faces of the rows `(x, 0, _) .. (x, y-1, _)`, in scan order.
pub open spec fn faces_in_plane(g: &VoxelGrid, x: int, y: int) -> Seq<FaceId>
    decreases y,
{
    if y <= 0 {
        Seq::empty()
    } else {
        faces_in_plane(g, x, y - 1) + faces_in_col(g, x, y - 1, g.depth as int)
    }
}

/// The faces of the planes `(0, _, _) .. (x-1, _, _)`, in scan order.
pub open spec fn faces_upto(g: &VoxelGrid, x: int) -> Seq<FaceId>
    decreases x,
{
    if x <= 0 {
        Seq::empty()
    } else {
        faces_upto(g, x - 1) + faces_in_plane(g, x - 1, g.height as int)
    }
}

/// Every boundary face of the grid, in the order the mesher emits them.
pub open spec fn mesh_faces(g: &VoxelGrid) -> Seq<FaceId> {
    faces_upto(g, g.width as int)
}

/// The number of faces the mesher emits for this grid.
pub open spec fn face_count(g: &VoxelGrid) -> int {
    mesh_faces(g).len() as int
}

/// The vertex list produced for a list of faces: four vertices per face, the
/// face's colour taken from `colors` at the rank of its voxel.
pub open spec fn verts_of(fs: Seq<FaceId>, colors: Seq<Color>) -> Seq<MainVertex>
    decreases fs.len(),
{
    if fs.len() == 0 {
        Seq::empty()
    } else {
        verts_of(fs.drop_last(), colors) + quad_vertices(
            fs.last().x,
            fs.last().y,
            fs.last().z,
            fs.last().dir,
            colors[fs.last().voxel],
        )
    }
}

/// The index list produced for `n` faces: six entries per quad.
pub open spec fn inds_of(n: int) -> Seq<u32>
    decreases n,
{
    if n <= 0 {
        Seq::empty()
    } else {
        inds_of(n - 1) + quad_indices(n - 1)
    }
}

proof fn lemma_quad_vertices_len(x: int, y: int, z: int, dir: Direction, color: Color)
    ensures
        quad_vertices(x, y, z, dir, color).len() == 4,
{
    match dir {
        Direction::ZPos => assert(quad_vertices(x, y, z, dir, color).len() == 4),
        Direction::ZNeg => assert(quad_vertices(x, y, z, dir, color).len() == 4),
        Direction::XPos => assert(quad_vertices(x, y, z, dir, color).len() == 4),
        Direction::XNeg => assert(quad_vertices(x, y, z, dir, color).len() == 4),
        Direction::YPos => assert(quad_vertices(x, y, z, dir, color).len() == 4),
        Direction::YNeg => assert(quad_vertices(x, y, z, dir, color).len() == 4),
    }
}

proof fn lemma_verts_of_len(fs: Seq<FaceId>, colors: Seq<Color>)
    ensures
        verts_of(fs, colors).len() == 4 * fs.len(),
    decreases fs.len(),
{
    if fs.len() > 0 {
        lemma_verts_of_len(fs.drop_last(), colors);
        lemma_quad_vertices_len(
            fs.last().x,
            fs.last().y,
            fs.last().z,
            fs.last().dir,
            colors[fs.last().voxel],
        );
    }
}

proof fn lemma_verts_of_push(fs: Seq<FaceId>, f: FaceId, colors: Seq<Color>)
    ensures
        verts_of(fs.push(f), colors) == verts_of(fs, colors) + quad_vertices(
            f.x,
            f.y,
            f.z,
            f.dir,
            colors[f.voxel],
        ),
{
    assert(fs.push(f).drop_last() =~= fs);
    assert(fs.push(f).last() == f);
}

proof fn lemma_verts_of_concat(a: Seq<FaceId>, b: Seq<FaceId>, colors: Seq<Color>)
    ensures
        verts_of(a + b, colors) == verts_of(a, colors) + verts_of(b, colors),
    decreases b.len(),
{
    if b.len() == 0 {
        assert(a + b =~= a);
        assert(verts_of(a, colors) + verts_of(b, colors) =~= verts_of(a, colors));
    } else {
        assert((a + b).drop_last() =~= a + b.drop_last());
        assert((a + b).last() == b.last());
        lemma_verts_of_concat(a, b.drop_last(), colors);
        assert(verts_of(a, colors) + verts_of(b.drop_last(), colors) + quad_vertices(
            b.last().x,
            b.last().y,
            b.last().z,
            b.last().dir,
            colors[b.last().voxel],
        ) =~= verts_of(a, colors) + verts_of(b, colors));
    }
}

pub proof fn lemma_inds_of_len(n: int)
    ensures
        inds_of(n).len() == if n <= 0 { 0int } else { 6 * n },
    decreases n,
{
    if n > 0 {
        lemma_inds_of_len(n - 1);
    }
}

/// Every entry of the index list for `n` faces is below `4 * n`, the number
/// of vertices those faces carry.
pub proof fn lemma_inds_of_in_range(n: int)
    requires
        0 <= n,
        4 * n <= 0x1_0000_0000,
    ensures
        forall|i: int|
            0 <= i < inds_of(n).len() ==> (#[trigger] inds_of(n)[i]) < 4 * n,
    decreases n,
{
    if n > 0 {
        lemma_inds_of_in_range(n - 1);
        lemma_inds_of_len(n - 1);
        assert forall|i: int| 0 <= i < inds_of(n).len() implies (#[trigger] inds_of(n)[i]) < 4 * n by {
            if i < 6 * (n - 1) {
                assert(inds_of(n)[i] == inds_of(n - 1)[i]);
            } else {
                assert(inds_of(n)[i] == quad_indices(n - 1)[i - 6 * (n - 1)]);
            }
        }
    }
}

proof fn lemma_voxel_faces_len(g: &VoxelGrid, x: int, y: int, z: int, rank: int)
    ensures
        voxel_faces(g, x, y, z, rank).len() <= 6,
        !g.solid(x, y, z) ==> voxel_faces(g, x, y, z, rank).len() == 0,
{
}

proof fn lemma_col_count_nonneg(g: &VoxelGrid, x: int, y: int, z: int)
    ensures
        solid_in_col(g, x, y, z) >= 0,
    decreases z,
{
    if z > 0 {
        lemma_col_count_nonneg(g, x, y, z - 1);
    }
}

proof fn lemma_plane_count_nonneg(g: &VoxelGrid, x: int, y: int)
    ensures
        solid_in_plane(g, x, y) >= 0,
    decreases y,
{
    if y > 0 {
        lemma_plane_count_nonneg(g, x, y - 1);
        lemma_col_count_nonneg(g, x, y - 1, g.depth as int);
    }
}

proof fn lemma_upto_count_nonneg(g: &VoxelGrid, x: int)
    ensures
        solid_upto(g, x) >= 0,
    decreases x,
{
    if x > 0 {
        lemma_upto_count_nonneg(g, x - 1);
        lemma_plane_count_nonneg(g, x - 1, g.height as int);
    }
}

proof fn lemma_col_count_mono(g: &VoxelGrid, x: int, y: int, z1: int, z2: int)
    requires
        z1 <= z2,
    ensures
        solid_in_col(g, x, y, z1) <= solid_in_col(g, x, y, z2),
    decreases z2,
{
    if z1 < z2 && z2 > 0 {
        lemma_col_count_mono(g, x, y, z1, z2 - 1);
    }
}

proof fn lemma_plane_count_mono(g: &VoxelGrid, x: int, y1: int, y2: int)
    requires
        y1 <= y2,
    ensures
        solid_in_plane(g, x, y1) <= solid_in_plane(g, x, y2),
    decreases y2,
{
    if y1 < y2 && y2 > 0 {
        lemma_plane_count_mono(g, x, y1, y2 - 1);
        lemma_col_count_nonneg(g, x, y2 - 1, g.depth as int);
    }
}

proof fn lemma_upto_count_mono(g: &VoxelGrid, x1: int, x2: int)
    requires
        x1 <= x2,
    ensures
        solid_upto(g, x1) <= solid_upto(g, x2),
    decreases x2,
{
    if x1 < x2 && x2 > 0 {
        lemma_upto_count_mono(g, x1, x2 - 1);
        lemma_plane_count_nonneg(g, x2 - 1, g.height as int);
    }
}

/// The rank of any in-bounds cell, plus one if that cell is solid, stays
/// within the grid's total count of solid voxels.
proof fn lemma_rank_bound(g: &VoxelGrid, x: int, y: int, z: int)
    requires
        0 <= x < g.width,
        0 <= y < g.height,
        0 <= z < g.depth,
    ensures
        0 <= rank_of(g, x, y, z),
        rank_of(g, x, y, z) + (if g.solid(x, y, z) { 1int } else { 0int }) <= solid_count(g),
{
    lemma_upto_count_nonneg(g, x);
    lemma_plane_count_nonneg(g, x, y);
    lemma_col_count_nonneg(g, x, y, z);
    // (x, y, z) folded into the column prefix:
    assert(solid_in_col(g, x, y, z + 1) == solid_in_col(g, x, y, z) + (if g.solid(x, y, z) {
        1int
    } else {
        0int
    }));
    lemma_col_count_mono(g, x, y, z + 1, g.depth as int);
    // the full column folded into the plane prefix:
    assert(solid_in_plane(g, x, y + 1) == solid_in_plane(g, x, y) + solid_in_col(
        g,
        x,
        y,
        g.depth as int,
    ));
    lemma_plane_count_mono(g, x, y + 1, g.height as int);
    // the full plane folded into the grid prefix:
    assert(solid_upto(g, x + 1) == solid_upto(g, x) + solid_in_plane(g, x, g.height as int));
    lemma_upto_count_mono(g, x + 1, g.width as int);
}

proof fn lemma_col_faces_bound(g: &VoxelGrid, x: int, y: int, z: int)
    ensures
        faces_in_col(g, x, y, z).len() <= 6 * solid_in_col(g, x, y, z),
    decreases z,
{
    if z > 0 {
        lemma_col_faces_bound(g, x, y, z - 1);
        lemma_voxel_faces_len(g, x, y, z - 1, rank_of(g, x, y, z - 1));
    }
}

proof fn lemma_plane_faces_bound(g: &VoxelGrid, x: int, y: int)
    ensures
        faces_in_plane(g, x, y).len() <= 6 * solid_in_plane(g, x, y),
    decreases y,
{
    if y > 0 {
        lemma_plane_faces_bound(g, x, y - 1);
        lemma_col_faces_bound(g, x, y - 1, g.depth as int);
    }
}

proof fn lemma_upto_faces_bound(g: &VoxelGrid, x: int)
    ensures
        faces_upto(g, x).len() <= 6 * solid_upto(g, x),
    decreases x,
{
    if x > 0 {
        lemma_upto_faces_bound(g, x - 1);
        lemma_plane_faces_bound(g, x - 1, g.height as int);
    }
}

/// The largest number of solid voxels a grid may hold for its mesh indices
/// to fit in `u32`: a voxel emits at most 6 faces of 4 vertices each, and
/// `24 * 178_956_970 <= u32::MAX + 1`.
pub const MAX_MESHED_VOXELS: usize = 178_956_970;

/// Appends the quad for voxel `(x, y, z)` in direction `dir` as the `k`-th
/// face of the mesh: four vertices and the six indices of its two triangles.
fn add_face(
    vertices: &mut Vec<MainVertex>,
    indices: &mut Vec<u32>,
    x: usize,
    y: usize,
    z: usize,
    dir: Direction,
    color: Color,
    Ghost(k): Ghost<int>,
)
    requires
        old(vertices)@.len() == 4 * k,
        4 * k + 4 <= 0x1_0000_0000,
        x < usize::MAX,
        y < usize::MAX,
        z < usize::MAX,
    ensures
        final(vertices)@ == old(vertices)@ + quad_vertices(x as int, y as int, z as int, dir, color),
        final(indices)@ == old(indices)@ + quad_indices(k),
{
    let start: u32 = vertices.len() as u32;
    let x1 = x + 1;
    let y1 = y + 1;
    let z1 = z + 1;
    match dir {
        Direction::ZPos => {
            vertices.push(MainVertex { position: Corner { x, y, z: z1 }, normal: dir, color });
            vertices.push(MainVertex { position: Corner { x: x1, y, z: z1 }, normal: dir, color });
            vertices.push(
                MainVertex { position: Corner { x: x1, y: y1, z: z1 }, normal: dir, color },
            );
            vertices.push(MainVertex { position: Corner { x, y: y1, z: z1 }, normal: dir, color });
        },
        Direction::ZNeg => {
            vertices.push(MainVertex { position: Corner { x: x1, y, z }, normal: dir, color });
            vertices.push(MainVertex { position: Corner { x, y, z }, normal: dir, color });
            vertices.push(MainVertex { position: Corner { x, y: y1, z }, normal: dir, color });
            vertices.push(MainVertex { position: Corner { x: x1, y: y1, z }, normal: dir, color });
        },
        Direction::XPos => {
            vertices.push(MainVertex { position: Corner { x: x1, y, z: z1 }, normal: dir, color });
            vertices.push(MainVertex { position: Corner { x: x1, y, z }, normal: dir, color });
            vertices.push(MainVertex { position: Corner { x: x1, y: y1, z }, normal: dir, color });
            vertices.push(
                MainVertex { position: Corner { x: x1, y: y1, z: z1 }, normal: dir, color },
            );
        },
        Direction::XNeg => {
            vertices.push(MainVertex { position: Corner { x, y, z }, normal: dir, color });
            vertices.push(MainVertex { position: Corner { x, y, z: z1 }, normal: dir, color });
            vertices.push(MainVertex { position: Corner { x, y: y1, z: z1 }, normal: dir, color });
            vertices.push(MainVertex { position: Corner { x, y: y1, z }, normal: dir, color });
        },
        Direction::YPos => {
            vertices.push(MainVertex { position: Corner { x, y: y1, z }, normal: dir, color });
            vertices.push(MainVertex { position: Corner { x, y: y1, z: z1 }, normal: dir, color });
            vertices.push(
                MainVertex { position: Corner { x: x1, y: y1, z: z1 }, normal: dir, color },
            );
            vertices.push(MainVertex { position: Corner { x: x1, y: y1, z }, normal: dir, color });
        },
        Direction::YNeg => {
            vertices.push(MainVertex { position: Corner { x, y, z: z1 }, normal: dir, color });
            vertices.push(MainVertex { position: Corner { x, y, z }, normal: dir, color });
            vertices.push(MainVertex { position: Corner { x: x1, y, z }, normal: dir, color });
            vertices.push(MainVertex { position: Corner { x: x1, y, z: z1 }, normal: dir, color });
        },
    }
    proof {
        assert(vertices@ =~= old(vertices)@ + quad_vertices(x as int, y as int, z as int, dir, color));
    }
    indices.push(start);
    indices.push(start + 1);
    indices.push(start + 2);
    indices.push(start);
    indices.push(start + 2);
    indices.push(start + 3);
    proof {
        assert(indices@ =~= old(indices)@ + quad_indices(k));
    }
}

/// Emits the face of voxel `(x, y, z)` in direction `dir` when it is
/// visible (its neighbour empty or out of bounds), given that `fs` faces
/// have been emitted so far.
fn emit_one_face(
    vertices: &mut Vec<MainVertex>,
    indices: &mut Vec<u32>,
    grid: &VoxelGrid,
    x: usize,
    y: usize,
    z: usize,
    dir: Direction,
    rank: usize,
    color: Color,
    Ghost(fs): Ghost<Seq<FaceId>>,
    Ghost(cs): Ghost<Seq<Color>>,
)
    requires
        grid.wf(),
        x < grid.width,
        y < grid.height,
        z < grid.depth,
        grid.solid(x as int, y as int, z as int),
        cs[rank as int] == color,
        old(vertices)@ == verts_of(fs, cs),
        old(indices)@ == inds_of(fs.len() as int),
        fs.len() + 1 <= 0x4000_0000,
    ensures
        final(vertices)@ == verts_of(
            fs + maybe_face(grid, x as int, y as int, z as int, dir, rank as int),
            cs,
        ),
        final(indices)@ == inds_of(
            (fs + maybe_face(grid, x as int, y as int, z as int, dir, rank as int)).len() as int,
        ),
{
    let visible = match dir {
        Direction::ZPos => !grid.is_solid(x, y, z + 1),
        Direction::ZNeg => z == 0 || !grid.is_solid(x, y, z - 1),
        Direction::XPos => !grid.is_solid(x + 1, y, z),
        Direction::XNeg => x == 0 || !grid.is_solid(x - 1, y, z),
        Direction::YPos => !grid.is_solid(x, y + 1, z),
        Direction::YNeg => y == 0 || !grid.is_solid(x, y - 1, z),
    };
    let ghost f = FaceId { x: x as int, y: y as int, z: z as int, dir, voxel: rank as int };
    if visible {
        proof {
            assert(face_visible(grid, x as int, y as int, z as int, dir));
            lemma_verts_of_len(fs, cs);
        }
        add_face(vertices, indices, x, y, z, dir, color, Ghost(fs.len() as int));
        proof {
            lemma_verts_of_push(fs, f, cs);
            assert(fs.push(f) =~= fs + maybe_face(grid, x as int, y as int, z as int, dir, rank as int));
        }
    } else {
        proof {
            assert(!face_visible(grid, x as int, y as int, z as int, dir));
            assert(fs + maybe_face(grid, x as int, y as int, z as int, dir, rank as int) =~= fs);
        }
    }
}

/// Emits every visible face of the solid voxel `(x, y, z)`, in direction
/// order, given that `fs` faces have been emitted so far and that the voxel
/// has rank `rank` in scan order.
#[verifier::rlimit(100)]
fn emit_voxel_faces(
    vertices: &mut Vec<MainVertex>,
    indices: &mut Vec<u32>,
    grid: &VoxelGrid,
    x: usize,
    y: usize,
    z: usize,
    rank: usize,
    color: Color,
    Ghost(fs): Ghost<Seq<FaceId>>,
    Ghost(cs): Ghost<Seq<Color>>,
)
    requires
        grid.wf(),
        x < grid.width,
        y < grid.height,
        z < grid.depth,
        grid.solid(x as int, y as int, z as int),
        cs[rank as int] == color,
        old(vertices)@ == verts_of(fs, cs),
        old(indices)@ == inds_of(fs.len() as int),
        fs.len() + 6 <= 0x4000_0000,
    ensures
        final(vertices)@ == verts_of(
            fs + voxel_faces(grid, x as int, y as int, z as int, rank as int),
            cs,
        ),
        final(indices)@ == inds_of(
            (fs + voxel_faces(grid, x as int, y as int, z as int, rank as int)).len() as int,
        ),
{
    let ghost gx = x as int;
    let ghost gy = y as int;
    let ghost gz = z as int;
    let ghost gr = rank as int;
    let ghost c0 = fs;
    emit_one_face(vertices, indices, grid, x, y, z, Direction::ZPos, rank, color, Ghost(c0), Ghost(cs));
    let ghost c1 = c0 + maybe_face(grid, gx, gy, gz, Direction::ZPos, gr);
    emit_one_face(vertices, indices, grid, x, y, z, Direction::ZNeg, rank, color, Ghost(c1), Ghost(cs));
    let ghost c2 = c1 + maybe_face(grid, gx, gy, gz, Direction::ZNeg, gr);
    emit_one_face(vertices, indices, grid, x, y, z, Direction::XPos, rank, color, Ghost(c2), Ghost(cs));
    let ghost c3 = c2 + maybe_face(grid, gx, gy, gz, Direction::XPos, gr);
    emit_one_face(vertices, indices, grid, x, y, z, Direction::XNeg, rank, color, Ghost(c3), Ghost(cs));
    let ghost c4 = c3 + maybe_face(grid, gx, gy, gz, Direction::XNeg, gr);
    emit_one_face(vertices, indices, grid, x, y, z, Direction::YPos, rank, color, Ghost(c4), Ghost(cs));
    let ghost c5 = c4 + maybe_face(grid, gx, gy, gz, Direction::YPos, gr);
    emit_one_face(vertices, indices, grid, x, y, z, Direction::YNeg, rank, color, Ghost(c5), Ghost(cs));
    let ghost c6 = c5 + maybe_face(grid, gx, gy, gz, Direction::YNeg, gr);
    proof {
        assert(c6 =~= fs + voxel_faces(grid, gx, gy, gz, gr));
    }
}

/// Meshes the grid with the given per-voxel colours: the `i`-th colour in
/// `colors` goes to all faces of the `i`-th solid voxel in scan order.
///
/// For every solid voxel, one quad is emitted per direction whose neighbour
/// is empty or out of bounds; interior faces are culled. Every emitted index
/// is below the vertex count.
#[verifier::loop_isolation(false)]
#[verifier::rlimit(100)]
pub fn mesh_with_colors(grid: &VoxelGrid, colors: &Vec<Color>) -> (r: (Vec<MainVertex>, Vec<u32>))
    requires
        grid.wf(),
        colors@.len() == solid_count(grid),
        solid_count(grid) <= MAX_MESHED_VOXELS,
    ensures
        r.0@ == verts_of(mesh_faces(grid), colors@),
        r.1@ == inds_of(face_count(grid)),
        r.0@.len() == 4 * face_count(grid),
        r.1@.len() == 6 * face_count(grid),
        forall|i: int| 0 <= i < r.1@.len() ==> (#[trigger] r.1@[i]) < r.0@.len(),
{
    let mut vertices: Vec<MainVertex> = Vec::new();
    let mut indices: Vec<u32> = Vec::new();
    let mut rank: usize = 0;
    let width = grid.width;
    let height = grid.height;
    let depth = grid.depth;

    let mut x: usize = 0;
    while x < width
        invariant
            x <= width,
            rank == solid_upto(grid, x as int),
            vertices@ == verts_of(faces_upto(grid, x as int), colors@),
            indices@ == inds_of(faces_upto(grid, x as int).len() as int),
        decreases width - x,
    {
        let mut y: usize = 0;
        while y < height
            invariant
                y <= height,
                rank == solid_upto(grid, x as int) + solid_in_plane(grid, x as int, y as int),
                vertices@ == verts_of(
                    faces_upto(grid, x as int) + faces_in_plane(grid, x as int, y as int),
                    colors@,
                ),
                indices@ == inds_of(
                    (faces_upto(grid, x as int) + faces_in_plane(grid, x as int, y as int)).len() as int,
                ),
            decreases height - y,
        {
            let mut z: usize = 0;
            while z < depth
                invariant
                    z <= depth,
                    rank == rank_of(grid, x as int, y as int, z as int),
                    vertices@ == verts_of(
                        faces_upto(grid, x as int) + faces_in_plane(grid, x as int, y as int)
                            + faces_in_col(grid, x as int, y as int, z as int),
                        colors@,
                    ),
                    indices@ == inds_of(
                        (faces_upto(grid, x as int) + faces_in_plane(grid, x as int, y as int)
                            + faces_in_col(grid, x as int, y as int, z as int)).len() as int,
                    ),
                decreases depth - z,
            {
                let ghost before = faces_upto(grid, x as int) + faces_in_plane(
                    grid,
                    x as int,
                    y as int,
                ) + faces_in_col(grid, x as int, y as int, z as int);
                if grid.is_solid(x, y, z) {
                    proof {
                        lemma_rank_bound(grid, x as int, y as int, z as int);
                        lemma_upto_faces_bound(grid, x as int);
                        lemma_plane_faces_bound(grid, x as int, y as int);
                        lemma_col_faces_bound(grid, x as int, y as int, z as int);
                        lemma_upto_count_nonneg(grid, x as int);
                        lemma_plane_count_nonneg(grid, x as int, y as int);
                        lemma_col_count_nonneg(grid, x as int, y as int, z as int);
                        assert(before.len() <= 6 * rank);
                    }
                    let color = colors[rank];
                    emit_voxel_faces(
                        &mut vertices,
                        &mut indices,
                        grid,
                        x,
                        y,
                        z,
                        rank,
                        color,
                        Ghost(before),
                        Ghost(colors@),
                    );
                    rank = rank + 1;
                } else {
                    proof {
                        assert(voxel_faces(grid, x as int, y as int, z as int, rank as int)
                            =~= Seq::<FaceId>::empty());
                        assert(before + voxel_faces(
                            grid,
                            x as int,
                            y as int,
                            z as int,
                            rank as int,
                        ) =~= before);
                    }
                }
                proof {
                    assert(faces_in_col(grid, x as int, y as int, z as int + 1) == faces_in_col(
                        grid,
                        x as int,
                        y as int,
                        z as int,
                    ) + voxel_faces(
                        grid,
                        x as int,
                        y as int,
                        z as int,
                        rank_of(grid, x as int, y as int, z as int),
                    ));
                    assert(faces_upto(grid, x as int) + faces_in_plane(grid, x as int, y as int)
                        + faces_in_col(grid, x as int, y as int, z as int + 1) =~= before
                        + voxel_faces(grid, x as int, y as int, z as int, rank_of(grid, x as int, y as int, z as int)));
                }
                z = z + 1;
            }
            proof {
                assert(faces_in_plane(grid, x as int, y as int + 1) == faces_in_plane(
                    grid,
                    x as int,
                    y as int,
                ) + faces_in_col(grid, x as int, y as int, grid.depth as int));
                assert(faces_upto(grid, x as int) + faces_in_plane(grid, x as int, y as int + 1)
                    =~= faces_upto(grid, x as int) + faces_in_plane(grid, x as int, y as int)
                    + faces_in_col(grid, x as int, y as int, grid.depth as int));
            }
            y = y + 1;
        }
        proof {
            assert(faces_upto(grid, x as int + 1) == faces_upto(grid, x as int) + faces_in_plane(
                grid,
                x as int,
                grid.height as int,
            ));
        }
        x = x + 1;
    }
    proof {
        lemma_verts_of_len(mesh_faces(grid), colors@);
        lemma_inds_of_len(face_count(grid));
        lemma_upto_faces_bound(grid, grid.width as int);
        lemma_upto_count_nonneg(grid, grid.width as int);
        lemma_inds_of_in_range(face_count(grid));
    }
    (vertices, indices)
}

/// Draws one colour at random, one byte per channel.
///
/// Relies on `rand::random`: any byte triple may come back, and nothing is
/// promised of the result.
#[verifier::external_body]
fn random_color() -> Color {
    let c = rand::random::<[u8; 3]>();
    Color { r: c[0], g: c[1], b: c[2] }
}

/// Counts the solid voxels of the grid in scan order.
#[verifier::loop_isolation(false)]
fn count_solid(grid: &VoxelGrid) -> (n: usize)
    requires
        grid.wf(),
        solid_count(grid) <= MAX_MESHED_VOXELS,
    ensures
        n as int == solid_count(grid),
{
    let mut n: usize = 0;
    let width = grid.width;
    let height = grid.height;
    let depth = grid.depth;
    let mut x: usize = 0;
    while x < width
        invariant
            x <= width,
            n == solid_upto(grid, x as int),
        decreases width - x,
    {
        let mut y: usize = 0;
        while y < height
            invariant
                y <= height,
                n == solid_upto(grid, x as int) + solid_in_plane(grid, x as int, y as int),
            decreases height - y,
        {
            let mut z: usize = 0;
            while z < depth
                invariant
                    z <= depth,
                    n == rank_of(grid, x as int, y as int, z as int),
                decreases depth - z,
            {
                if grid.is_solid(x, y, z) {
                    proof {
                        lemma_rank_bound(grid, x as int, y as int, z as int);
                    }
                    n = n + 1;
                }
                z = z + 1;
            }
            y = y + 1;
        }
        x = x + 1;
    }
    n
}

/// Meshes the grid, choosing one colour at random per solid voxel; the
/// colour is shared by all faces of that voxel. Apart from the colours the
/// geometry is a function of the grid alone.
pub fn generate_voxel_mesh(grid: &VoxelGrid) -> (r: (Vec<MainVertex>, Vec<u32>))
    requires
        grid.wf(),
        solid_count(grid) <= MAX_MESHED_VOXELS,
    ensures
        exists|cs: Seq<Color>|
            cs.len() == solid_count(grid) && r.0@ == verts_of(mesh_faces(grid), cs),
        r.1@ == inds_of(face_count(grid)),
        r.0@.len() == 4 * face_count(grid),
        r.1@.len() == 6 * face_count(grid),
        forall|i: int| 0 <= i < r.1@.len() ==> (#[trigger] r.1@[i]) < r.0@.len(),
{
    let n = count_solid(grid);
    let mut colors: Vec<Color> = Vec::new();
    let mut i: usize = 0;
    while i < n
        invariant
            i <= n,
            colors@.len() == i,
        decreases n - i,
    {
        colors.push(random_color());
        i = i + 1;
    }
    let r = mesh_with_colors(grid, &colors);
    proof {
        let cs = colors@;
        assert(cs.len() == solid_count(grid) && r.0@ == verts_of(mesh_faces(grid), cs));
    }
    r
}

proof fn lemma_no_solid_col(g: &VoxelGrid, x: int, y: int, z: int)
    requires
        forall|i: int, j: int, k: int| !g.solid(i, j, k),
    ensures
        solid_in_col(g, x, y, z) == 0,
        faces_in_col(g, x, y, z) == Seq::<FaceId>::empty(),
    decreases z,
{
    if z > 0 {
        lemma_no_solid_col(g, x, y, z - 1);
        lemma_voxel_faces_len(g, x, y, z - 1, rank_of(g, x, y, z - 1));
        assert(faces_in_col(g, x, y, z) =~= Seq::<FaceId>::empty());
    } else {
        assert(faces_in_col(g, x, y, z) =~= Seq::<FaceId>::empty());
    }
}

proof fn lemma_no_solid_plane(g: &VoxelGrid, x: int, y: int)
    requires
        forall|i: int, j: int, k: int| !g.solid(i, j, k),
    ensures
        solid_in_plane(g, x, y) == 0,
        faces_in_plane(g, x, y) == Seq::<FaceId>::empty(),
    decreases y,
{
    if y > 0 {
        lemma_no_solid_plane(g, x, y - 1);
        lemma_no_solid_col(g, x, y - 1, g.depth as int);
        assert(faces_in_plane(g, x, y) =~= Seq::<FaceId>::empty());
    } else {
        assert(faces_in_plane(g, x, y) =~= Seq::<FaceId>::empty());
    }
}

proof fn lemma_no_solid_upto(g: &VoxelGrid, x: int)
    requires
        forall|i: int, j: int, k: int| !g.solid(i, j, k),
    ensures
        solid_upto(g, x) == 0,
        faces_upto(g, x) == Seq::<FaceId>::empty(),
    decreases x,
{
    if x > 0 {
        lemma_no_solid_upto(g, x - 1);
        lemma_no_solid_plane(g, x - 1, g.height as int);
        assert(faces_upto(g, x) =~= Seq::<FaceId>::empty());
    } else {
        assert(faces_upto(g, x) =~= Seq::<FaceId>::empty());
    }
}

/// A grid with no solid voxel meshes to nothing.
pub proof fn lemma_empty_grid_mesh(g: &VoxelGrid)
    requires
        forall|i: int, j: int, k: int| !g.solid(i, j, k),
    ensures
        solid_count(g) == 0,
        face_count(g) == 0,
        forall|cs: Seq<Color>| #[trigger] verts_of(mesh_faces(g), cs) == Seq::<MainVertex>::empty(),
        inds_of(face_count(g)) == Seq::<u32>::empty(),
{
    lemma_no_solid_upto(g, g.width as int);
    assert forall|cs: Seq<Color>| #[trigger] verts_of(mesh_faces(g), cs)
        == Seq::<MainVertex>::empty() by {
        assert(verts_of(mesh_faces(g), cs) =~= Seq::<MainVertex>::empty());
    }
}

/// A grid with a zero extent in any axis has no solid voxel and meshes to
/// nothing: empty vertex and index lists, not an error.
pub proof fn lemma_zero_extent_mesh(g: &VoxelGrid)
    requires
        g.width == 0 || g.height == 0 || g.depth == 0,
    ensures
        solid_count(g) == 0,
        face_count(g) == 0,
        forall|cs: Seq<Color>| #[trigger] verts_of(mesh_faces(g), cs) == Seq::<MainVertex>::empty(),
        inds_of(face_count(g)) == Seq::<u32>::empty(),
{
    lemma_empty_grid_mesh(g);
}

/// Meshes a 64-by-1-by-64 starter grid with every voxel empty: the mesh is
/// empty.
pub fn get_64_voxel_mesh() -> (r: (Vec<MainVertex>, Vec<u32>))
    ensures
        r.0@.len() == 0,
        r.1@.len() == 0,
{
    let grid = VoxelGrid::new(64, 1, 64);
    proof {
        lemma_empty_grid_mesh(&grid);
    }
    generate_voxel_mesh(&grid)
}

proof fn lemma_single_solid_col(g: &VoxelGrid, a: int, b: int, c: int, x: int, y: int, z: int)
    requires
        0 <= c,
        forall|i: int, j: int, k: int| g.solid(i, j, k) <==> (i == a && j == b && k == c),
    ensures
        solid_in_col(g, x, y, z) == if x == a && y == b && c < z {
            1int
        } else {
            0int
        },
    decreases z,
{
    if z > 0 {
        lemma_single_solid_col(g, a, b, c, x, y, z - 1);
    }
}

proof fn lemma_single_solid_plane(g: &VoxelGrid, a: int, b: int, c: int, x: int, y: int)
    requires
        0 <= b,
        0 <= c < g.depth,
        forall|i: int, j: int, k: int| g.solid(i, j, k) <==> (i == a && j == b && k == c),
    ensures
        solid_in_plane(g, x, y) == if x == a && b < y {
            1int
        } else {
            0int
        },
    decreases y,
{
    if y > 0 {
        lemma_single_solid_plane(g, a, b, c, x, y - 1);
        lemma_single_solid_col(g, a, b, c, x, y - 1, g.depth as int);
    }
}

proof fn lemma_single_solid_upto(g: &VoxelGrid, a: int, b: int, c: int, x: int)
    requires
        0 <= a,
        0 <= b < g.height,
        0 <= c < g.depth,
        forall|i: int, j: int, k: int| g.solid(i, j, k) <==> (i == a && j == b && k == c),
    ensures
        solid_upto(g, x) == if a < x {
            1int
        } else {
            0int
        },
    decreases x,
{
    if x > 0 {
        lemma_single_solid_upto(g, a, b, c, x - 1);
        lemma_single_solid_plane(g, a, b, c, x - 1, g.height as int);
    }
}

proof fn lemma_single_faces_col(g: &VoxelGrid, a: int, b: int, c: int, x: int, y: int, z: int)
    requires
        0 <= a,
        0 <= b < g.height,
        0 <= c < g.depth,
        forall|i: int, j: int, k: int| g.solid(i, j, k) <==> (i == a && j == b && k == c),
    ensures
        faces_in_col(g, x, y, z) == if x == a && y == b && c < z {
            voxel_faces(g, a, b, c, 0)
        } else {
            Seq::<FaceId>::empty()
        },
    decreases z,
{
    if z > 0 {
        lemma_single_faces_col(g, a, b, c, x, y, z - 1);
        if x == a && y == b && z - 1 == c {
            lemma_single_solid_upto(g, a, b, c, a);
            lemma_single_solid_plane(g, a, b, c, a, b);
            lemma_single_solid_col(g, a, b, c, a, b, c);
            assert(rank_of(g, x, y, z - 1) == 0);
            assert(faces_in_col(g, x, y, z) =~= voxel_faces(g, a, b, c, 0));
        } else {
            lemma_voxel_faces_len(g, x, y, z - 1, rank_of(g, x, y, z - 1));
            if x == a && y == b && c < z - 1 {
                assert(faces_in_col(g, x, y, z) =~= voxel_faces(g, a, b, c, 0));
            } else {
                assert(faces_in_col(g, x, y, z) =~= Seq::<FaceId>::empty());
            }
        }
    } else {
        assert(faces_in_col(g, x, y, z) =~= Seq::<FaceId>::empty());
    }
}

proof fn lemma_single_faces_plane(g: &VoxelGrid, a: int, b: int, c: int, x: int, y: int)
    requires
        0 <= a,
        0 <= b < g.height,
        0 <= c < g.depth,
        forall|i: int, j: int, k: int| g.solid(i, j, k) <==> (i == a && j == b && k == c),
    ensures
        faces_in_plane(g, x, y) == if x == a && b < y {
            voxel_faces(g, a, b, c, 0)
        } else {
            Seq::<FaceId>::empty()
        },
    decreases y,
{
    if y > 0 {
        lemma_single_faces_plane(g, a, b, c, x, y - 1);
        lemma_single_faces_col(g, a, b, c, x, y - 1, g.depth as int);
        if x == a && b < y {
            assert(faces_in_plane(g, x, y) =~= voxel_faces(g, a, b, c, 0));
        } else {
            assert(faces_in_plane(g, x, y) =~= Seq::<FaceId>::empty());
        }
    } else {
        assert(faces_in_plane(g, x, y) =~= Seq::<FaceId>::empty());
    }
}

proof fn lemma_single_faces_upto(g: &VoxelGrid, a: int, b: int, c: int, x: int)
    requires
        0 <= a < g.width,
        0 <= b < g.height,
        0 <= c < g.depth,
        forall|i: int, j: int, k: int| g.solid(i, j, k) <==> (i == a && j == b && k == c),
    ensures
        faces_upto(g, x) == if a < x {
            voxel_faces(g, a, b, c, 0)
        } else {
            Seq::<FaceId>::empty()
        },
    decreases x,
{
    if x > 0 {
        lemma_single_faces_upto(g, a, b, c, x - 1);
        lemma_single_faces_plane(g, a, b, c, x - 1, g.height as int);
        if a < x {
            assert(faces_upto(g, x) =~= voxel_faces(g, a, b, c, 0));
        } else {
            assert(faces_upto(g, x) =~= Seq::<FaceId>::empty());
        }
    } else {
        assert(faces_upto(g, x) =~= Seq::<FaceId>::empty());
    }
}

/// A grid whose only solid voxel is `(a, b, c)` meshes to exactly that
/// voxel's six faces: all six neighbours are empty or out of bounds.
pub proof fn lemma_single_voxel_mesh(g: &VoxelGrid, a: int, b: int, c: int)
    requires
        0 <= a < g.width,
        0 <= b < g.height,
        0 <= c < g.depth,
        forall|i: int, j: int, k: int| g.solid(i, j, k) <==> (i == a && j == b && k == c),
    ensures
        solid_count(g) == 1,
        mesh_faces(g) == voxel_faces(g, a, b, c, 0),
        face_count(g) == 6,
{
    lemma_single_solid_upto(g, a, b, c, g.width as int);
    lemma_single_faces_upto(g, a, b, c, g.width as int);
    assert(g.solid(a, b, c));
    assert(face_visible(g, a, b, c, Direction::ZPos));
    assert(face_visible(g, a, b, c, Direction::ZNeg));
    assert(face_visible(g, a, b, c, Direction::XPos));
    assert(face_visible(g, a, b, c, Direction::XNeg));
    assert(face_visible(g, a, b, c, Direction::YPos));
    assert(face_visible(g, a, b, c, Direction::YNeg));
    assert(voxel_faces(g, a, b, c, 0).len() == 6);
}

/// The 24 vertices of a lone voxel's six faces, in emission order, all
/// carrying one colour.
pub open spec fn single_voxel_vertices(x: int, y: int, z: int, color: Color) -> Seq<MainVertex> {
    quad_vertices(x, y, z, Direction::ZPos, color) + quad_vertices(x, y, z, Direction::ZNeg, color)
        + quad_vertices(x, y, z, Direction::XPos, color) + quad_vertices(
        x,
        y,
        z,
        Direction::XNeg,
        color,
    ) + quad_vertices(x, y, z, Direction::YPos, color) + quad_vertices(
        x,
        y,
        z,
        Direction::YNeg,
        color,
    )
}

proof fn lemma_verts_of_singleton(f: FaceId, cs: Seq<Color>)
    ensures
        verts_of(seq![f], cs) == quad_vertices(f.x, f.y, f.z, f.dir, cs[f.voxel]),
{
    assert(seq![f].drop_last() =~= Seq::<FaceId>::empty());
    assert(seq![f].last() == f);
    assert(verts_of(Seq::<FaceId>::empty(), cs) =~= Seq::<MainVertex>::empty());
    assert(verts_of(seq![f], cs) == verts_of(Seq::<FaceId>::empty(), cs) + quad_vertices(
        f.x,
        f.y,
        f.z,
        f.dir,
        cs[f.voxel],
    ));
    assert(verts_of(seq![f], cs) =~= quad_vertices(f.x, f.y, f.z, f.dir, cs[f.voxel]));
}

/// For a grid whose only solid voxel is `(a, b, c)`, the vertex list is the
/// lone voxel's 24 vertices, coloured by the first colour.
pub proof fn lemma_single_voxel_vertices(g: &VoxelGrid, a: int, b: int, c: int, cs: Seq<Color>)
    requires
        0 <= a < g.width,
        0 <= b < g.height,
        0 <= c < g.depth,
        forall|i: int, j: int, k: int| g.solid(i, j, k) <==> (i == a && j == b && k == c),
    ensures
        verts_of(mesh_faces(g), cs) == single_voxel_vertices(a, b, c, cs[0]),
{
    lemma_single_voxel_mesh(g, a, b, c);
    let m0 = maybe_face(g, a, b, c, Direction::ZPos, 0);
    let m1 = maybe_face(g, a, b, c, Direction::ZNeg, 0);
    let m2 = maybe_face(g, a, b, c, Direction::XPos, 0);
    let m3 = maybe_face(g, a, b, c, Direction::XNeg, 0);
    let m4 = maybe_face(g, a, b, c, Direction::YPos, 0);
    let m5 = maybe_face(g, a, b, c, Direction::YNeg, 0);
    lemma_verts_of_concat(m0 + m1 + m2 + m3 + m4, m5, cs);
    lemma_verts_of_concat(m0 + m1 + m2 + m3, m4, cs);
    lemma_verts_of_concat(m0 + m1 + m2, m3, cs);
    lemma_verts_of_concat(m0 + m1, m2, cs);
    lemma_verts_of_concat(m0, m1, cs);
    lemma_verts_of_singleton(FaceId { x: a, y: b, z: c, dir: Direction::ZPos, voxel: 0 }, cs);
    lemma_verts_of_singleton(FaceId { x: a, y: b, z: c, dir: Direction::ZNeg, voxel: 0 }, cs);
    lemma_verts_of_singleton(FaceId { x: a, y: b, z: c, dir: Direction::XPos, voxel: 0 }, cs);
    lemma_verts_of_singleton(FaceId { x: a, y: b, z: c, dir: Direction::XNeg, voxel: 0 }, cs);
    lemma_verts_of_singleton(FaceId { x: a, y: b, z: c, dir: Direction::YPos, voxel: 0 }, cs);
    lemma_verts_of_singleton(FaceId { x: a, y: b, z: c, dir: Direction::YNeg, voxel: 0 }, cs);
    assert(m0 =~= seq![FaceId { x: a, y: b, z: c, dir: Direction::ZPos, voxel: 0 }]);
    assert(m1 =~= seq![FaceId { x: a, y: b, z: c, dir: Direction::ZNeg, voxel: 0 }]);
    assert(m2 =~= seq![FaceId { x: a, y: b, z: c, dir: Direction::XPos, voxel: 0 }]);
    assert(m3 =~= seq![FaceId { x: a, y: b, z: c, dir: Direction::XNeg, voxel: 0 }]);
    assert(m4 =~= seq![FaceId { x: a, y: b, z: c, dir: Direction::YPos, voxel: 0 }]);
    assert(m5 =~= seq![FaceId { x: a, y: b, z: c, dir: Direction::YNeg, voxel: 0 }]);
    assert(verts_of(mesh_faces(g), cs) =~= single_voxel_vertices(a, b, c, cs[0]));
}

/// Meshes a `size` by `size` by `size` grid whose centre voxel is the only
/// solid one: exactly six faces come out, one per direction, since all six
/// neighbours are empty or out of bounds.
pub fn get_voxel_mesh(size: usize) -> (r: (Vec<MainVertex>, Vec<u32>))
    requires
        1 <= size,
    ensures
        r.0@.len() == 24,
        r.1@ == inds_of(6),
        r.1@.len() == 36,
        exists|color: Color|
            r.0@ == #[trigger] single_voxel_vertices(
                (size / 2) as int,
                (size / 2) as int,
                (size / 2) as int,
                color,
            ),
{
    let mut grid = VoxelGrid::new(size, size, size);
    let center = size / 2;
    grid.set_voxel(center, center, center, true);
    proof {
        assert forall|i: int, j: int, k: int|
            grid.solid(i, j, k) <==> (i == center && j == center && k == center) by {}
        lemma_single_voxel_mesh(&grid, center as int, center as int, center as int);
    }
    let r = generate_voxel_mesh(&grid);
    proof {
        let cs = choose|cs: Seq<Color>|
            cs.len() == solid_count(&grid) && r.0@ == verts_of(mesh_faces(&grid), cs);
        lemma_single_voxel_vertices(&grid, center as int, center as int, center as int, cs);
        assert(r.0@ == single_voxel_vertices(center as int, center as int, center as int, cs[0]));
    }
    r
}

/// `f` is a face the boundary rule allows: its voxel is solid and the
/// neighbour it faces is not.
pub open spec fn boundary_face(g: &VoxelGrid, f: FaceId) -> bool {
    face_visible(g, f.x, f.y, f.z, f.dir)
}

proof fn lemma_voxel_faces_boundary(g: &VoxelGrid, x: int, y: int, z: int, rank: int)
    ensures
        forall|i: int|
            0 <= i < voxel_faces(g, x, y, z, rank).len() ==> boundary_face(
                g,
                #[trigger] voxel_faces(g, x, y, z, rank)[i],
            ),
{
    let m0 = maybe_face(g, x, y, z, Direction::ZPos, rank);
    let m1 = maybe_face(g, x, y, z, Direction::ZNeg, rank);
    let m2 = maybe_face(g, x, y, z, Direction::XPos, rank);
    let m3 = maybe_face(g, x, y, z, Direction::XNeg, rank);
    let m4 = maybe_face(g, x, y, z, Direction::YPos, rank);
    let m5 = maybe_face(g, x, y, z, Direction::YNeg, rank);
    assert forall|i: int| 0 <= i < voxel_faces(g, x, y, z, rank).len() implies boundary_face(
        g,
        voxel_faces(g, x, y, z, rank)[i],
    ) by {
        if i < m0.len() {
        } else if i < (m0 + m1).len() {
        } else if i < (m0 + m1 + m2).len() {
        } else if i < (m0 + m1 + m2 + m3).len() {
        } else if i < (m0 + m1 + m2 + m3 + m4).len() {
        } else {
        }
    }
}

proof fn lemma_col_faces_boundary(g: &VoxelGrid, x: int, y: int, z: int)
    ensures
        forall|i: int|
            0 <= i < faces_in_col(g, x, y, z).len() ==> boundary_face(
                g,
                #[trigger] faces_in_col(g, x, y, z)[i],
            ),
    decreases z,
{
    if z > 0 {
        lemma_col_faces_boundary(g, x, y, z - 1);
        lemma_voxel_faces_boundary(g, x, y, z - 1, rank_of(g, x, y, z - 1));
        let a = faces_in_col(g, x, y, z - 1);
        let b = voxel_faces(g, x, y, z - 1, rank_of(g, x, y, z - 1));
        assert forall|i: int| 0 <= i < faces_in_col(g, x, y, z).len() implies boundary_face(
            g,
            faces_in_col(g, x, y, z)[i],
        ) by {
            if i < a.len() {
                assert(faces_in_col(g, x, y, z)[i] == a[i]);
            } else {
                assert(faces_in_col(g, x, y, z)[i] == b[i - a.len()]);
            }
        }
    }
}

proof fn lemma_plane_faces_boundary(g: &VoxelGrid, x: int, y: int)
    ensures
        forall|i: int|
            0 <= i < faces_in_plane(g, x, y).len() ==> boundary_face(
                g,
                #[trigger] faces_in_plane(g, x, y)[i],
            ),
    decreases y,
{
    if y > 0 {
        lemma_plane_faces_boundary(g, x, y - 1);
        lemma_col_faces_boundary(g, x, y - 1, g.depth as int);
        let a = faces_in_plane(g, x, y - 1);
        let b = faces_in_col(g, x, y - 1, g.depth as int);
        assert forall|i: int| 0 <= i < faces_in_plane(g, x, y).len() implies boundary_face(
            g,
            faces_in_plane(g, x, y)[i],
        ) by {
            if i < a.len() {
                assert(faces_in_plane(g, x, y)[i] == a[i]);
            } else {
                assert(faces_in_plane(g, x, y)[i] == b[i - a.len()]);
            }
        }
    }
}

proof fn lemma_upto_faces_boundary(g: &VoxelGrid, x: int)
    ensures
        forall|i: int|
            0 <= i < faces_upto(g, x).len() ==> boundary_face(g, #[trigger] faces_upto(g, x)[i]),
    decreases x,
{
    if x > 0 {
        lemma_upto_faces_boundary(g, x - 1);
        lemma_plane_faces_boundary(g, x - 1, g.height as int);
        let a = faces_upto(g, x - 1);
        let b = faces_in_plane(g, x - 1, g.height as int);
        assert forall|i: int| 0 <= i < faces_upto(g, x).len() implies boundary_face(
            g,
            faces_upto(g, x)[i],
        ) by {
            if i < a.len() {
                assert(faces_upto(g, x)[i] == a[i]);
            } else {
                assert(faces_upto(g, x)[i] == b[i - a.len()]);
            }
        }
    }
}

/// Every face the mesher emits is a boundary face: its voxel is solid and
/// the neighbour it faces is empty or out of bounds. In particular, the face
/// between two adjacent solid voxels is never emitted.
pub proof fn lemma_faces_are_boundary(g: &VoxelGrid)
    ensures
        forall|i: int|
            0 <= i < mesh_faces(g).len() ==> boundary_face(g, #[trigger] mesh_faces(g)[i]),
{
    lemma_upto_faces_boundary(g, g.width as int);
}

proof fn lemma_congruent_col(g1: &VoxelGrid, g2: &VoxelGrid, x: int, y: int, z: int)
    requires
        g1.width == g2.width,
        g1.height == g2.height,
        g1.depth == g2.depth,
        forall|i: int, j: int, k: int| #[trigger] g1.solid(i, j, k) == g2.solid(i, j, k),
    ensures
        solid_in_col(g1, x, y, z) == solid_in_col(g2, x, y, z),
    decreases z,
{
    if z > 0 {
        lemma_congruent_col(g1, g2, x, y, z - 1);
    }
}

proof fn lemma_congruent_plane(g1: &VoxelGrid, g2: &VoxelGrid, x: int, y: int)
    requires
        g1.width == g2.width,
        g1.height == g2.height,
        g1.depth == g2.depth,
        forall|i: int, j: int, k: int| #[trigger] g1.solid(i, j, k) == g2.solid(i, j, k),
    ensures
        solid_in_plane(g1, x, y) == solid_in_plane(g2, x, y),
    decreases y,
{
    if y > 0 {
        lemma_congruent_plane(g1, g2, x, y - 1);
        lemma_congruent_col(g1, g2, x, y - 1, g1.depth as int);
    }
}

proof fn lemma_congruent_upto(g1: &VoxelGrid, g2: &VoxelGrid, x: int)
    requires
        g1.width == g2.width,
        g1.height == g2.height,
        g1.depth == g2.depth,
        forall|i: int, j: int, k: int| #[trigger] g1.solid(i, j, k) == g2.solid(i, j, k),
    ensures
        solid_upto(g1, x) == solid_upto(g2, x),
    decreases x,
{
    if x > 0 {
        lemma_congruent_upto(g1, g2, x - 1);
        lemma_congruent_plane(g1, g2, x - 1, g1.height as int);
    }
}

proof fn lemma_congruent_voxel_faces(g1: &VoxelGrid, g2: &VoxelGrid, x: int, y: int, z: int, rank: int)
    requires
        forall|i: int, j: int, k: int| #[trigger] g1.solid(i, j, k) == g2.solid(i, j, k),
    ensures
        voxel_faces(g1, x, y, z, rank) == voxel_faces(g2, x, y, z, rank),
{
    assert(voxel_faces(g1, x, y, z, rank) =~= voxel_faces(g2, x, y, z, rank));
}

proof fn lemma_congruent_faces_col(g1: &VoxelGrid, g2: &VoxelGrid, x: int, y: int, z: int)
    requires
        g1.width == g2.width,
        g1.height == g2.height,
        g1.depth == g2.depth,
        forall|i: int, j: int, k: int| #[trigger] g1.solid(i, j, k) == g2.solid(i, j, k),
    ensures
        faces_in_col(g1, x, y, z) == faces_in_col(g2, x, y, z),
    decreases z,
{
    if z > 0 {
        lemma_congruent_faces_col(g1, g2, x, y, z - 1);
        lemma_congruent_upto(g1, g2, x);
        lemma_congruent_plane(g1, g2, x, y);
        lemma_congruent_col(g1, g2, x, y, z - 1);
        lemma_congruent_voxel_faces(g1, g2, x, y, z - 1, rank_of(g1, x, y, z - 1));
    }
}

proof fn lemma_congruent_faces_plane(g1: &VoxelGrid, g2: &VoxelGrid, x: int, y: int)
    requires
        g1.width == g2.width,
        g1.height == g2.height,
        g1.depth == g2.depth,
        forall|i: int, j: int, k: int| #[trigger] g1.solid(i, j, k) == g2.solid(i, j, k),
    ensures
        faces_in_plane(g1, x, y) == faces_in_plane(g2, x, y),
    decreases y,
{
    if y > 0 {
        lemma_congruent_faces_plane(g1, g2, x, y - 1);
        lemma_congruent_faces_col(g1, g2, x, y - 1, g1.depth as int);
    }
}

proof fn lemma_congruent_faces_upto(g1: &VoxelGrid, g2: &VoxelGrid, x: int)
    requires
        g1.width == g2.width,
        g1.height == g2.height,
        g1.depth == g2.depth,
        forall|i: int, j: int, k: int| #[trigger] g1.solid(i, j, k) == g2.solid(i, j, k),
    ensures
        faces_upto(g1, x) == faces_upto(g2, x),
    decreases x,
{
    if x > 0 {
        lemma_congruent_faces_upto(g1, g2, x - 1);
        lemma_congruent_faces_plane(g1, g2, x - 1, g1.height as int);
    }
}

proof fn lemma_quad_geometry(x: int, y: int, z: int, dir: Direction, c1: Color, c2: Color)
    ensures
        quad_vertices(x, y, z, dir, c1).len() == 4,
        quad_vertices(x, y, z, dir, c2).len() == 4,
        forall|j: int|
            0 <= j < 4 ==> (#[trigger] quad_vertices(x, y, z, dir, c1)[j]).position
                == quad_vertices(x, y, z, dir, c2)[j].position && quad_vertices(
                x,
                y,
                z,
                dir,
                c1,
            )[j].normal == quad_vertices(x, y, z, dir, c2)[j].normal,
{
    lemma_quad_vertices_len(x, y, z, dir, c1);
    lemma_quad_vertices_len(x, y, z, dir, c2);
    match dir {
        Direction::ZPos => {},
        Direction::ZNeg => {},
        Direction::XPos => {},
        Direction::XNeg => {},
        Direction::YPos => {},
        Direction::YNeg => {},
    }
}

/// The vertex list, face by face: the vertices `4k .. 4k+4` are exactly the
/// quad of the `k`-th face, coloured by that face's voxel. In particular
/// one colour serves every face of one voxel.
pub proof fn lemma_vertices_by_face(fs: Seq<FaceId>, cs: Seq<Color>)
    ensures
        verts_of(fs, cs).len() == 4 * fs.len(),
        forall|k: int, j: int|
            0 <= k < fs.len() && 0 <= j < 4 ==> (#[trigger] verts_of(fs, cs)[4 * k + j])
                == quad_vertices(fs[k].x, fs[k].y, fs[k].z, fs[k].dir, cs[fs[k].voxel])[j],
    decreases fs.len(),
{
    lemma_verts_of_len(fs, cs);
    if fs.len() > 0 {
        let f = fs.last();
        lemma_vertices_by_face(fs.drop_last(), cs);
        lemma_quad_vertices_len(f.x, f.y, f.z, f.dir, cs[f.voxel]);
        let prefix = verts_of(fs.drop_last(), cs);
        assert forall|k: int, j: int| 0 <= k < fs.len() && 0 <= j < 4 implies (
        #[trigger] verts_of(fs, cs)[4 * k + j]) == quad_vertices(
            fs[k].x,
            fs[k].y,
            fs[k].z,
            fs[k].dir,
            cs[fs[k].voxel],
        )[j] by {
            if k < fs.len() - 1 {
                assert(verts_of(fs, cs)[4 * k + j] == prefix[4 * k + j]);
                assert(fs.drop_last()[k] == fs[k]);
            } else {
                assert(verts_of(fs, cs)[4 * k + j] == quad_vertices(
                    f.x,
                    f.y,
                    f.z,
                    f.dir,
                    cs[f.voxel],
                )[4 * k + j - prefix.len()]);
            }
        }
    }
}

/// The colours pick no geometry: meshing the same faces under any two
/// colour sequences yields vertex lists of one length whose positions and
/// normals agree pointwise. Only the colour attribute may differ.
pub proof fn lemma_colors_do_not_move_geometry(fs: Seq<FaceId>, cs1: Seq<Color>, cs2: Seq<Color>)
    ensures
        verts_of(fs, cs1).len() == verts_of(fs, cs2).len(),
        forall|i: int|
            0 <= i < verts_of(fs, cs1).len() ==> (#[trigger] verts_of(fs, cs1)[i]).position
                == verts_of(fs, cs2)[i].position && verts_of(fs, cs1)[i].normal == verts_of(
                fs,
                cs2,
            )[i].normal,
    decreases fs.len(),
{
    lemma_verts_of_len(fs, cs1);
    lemma_verts_of_len(fs, cs2);
    if fs.len() > 0 {
        let f = fs.last();
        lemma_colors_do_not_move_geometry(fs.drop_last(), cs1, cs2);
        lemma_quad_geometry(f.x, f.y, f.z, f.dir, cs1[f.voxel], cs2[f.voxel]);
        let a1 = verts_of(fs.drop_last(), cs1);
        let a2 = verts_of(fs.drop_last(), cs2);
        assert forall|i: int| 0 <= i < verts_of(fs, cs1).len() implies (#[trigger] verts_of(
            fs,
            cs1,
        )[i]).position == verts_of(fs, cs2)[i].position && verts_of(fs, cs1)[i].normal
            == verts_of(fs, cs2)[i].normal by {
            if i < a1.len() {
                assert(verts_of(fs, cs1)[i] == a1[i]);
                assert(verts_of(fs, cs2)[i] == a2[i]);
            } else {
                assert(verts_of(fs, cs1)[i] == quad_vertices(f.x, f.y, f.z, f.dir, cs1[f.voxel])[i
                    - a1.len()]);
                assert(verts_of(fs, cs2)[i] == quad_vertices(f.x, f.y, f.z, f.dir, cs2[f.voxel])[i
                    - a2.len()]);
            }
        }
    }
}

/// Meshing is deterministic: two grids of the same extents with the same
/// occupancy produce the same faces, so re-meshing an unchanged grid with
/// the same colours reproduces the same vertex and index data.
pub proof fn lemma_mesh_deterministic(g1: &VoxelGrid, g2: &VoxelGrid)
    requires
        g1.width == g2.width,
        g1.height == g2.height,
        g1.depth == g2.depth,
        forall|i: int, j: int, k: int| #[trigger] g1.solid(i, j, k) == g2.solid(i, j, k),
    ensures
        solid_count(g1) == solid_count(g2),
        mesh_faces(g1) == mesh_faces(g2),
        face_count(g1) == face_count(g2),
{
    lemma_congruent_upto(g1, g2, g1.width as int);
    lemma_congruent_faces_upto(g1, g2, g1.width as int);
}

} // verus!
