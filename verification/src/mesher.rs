//! Culled face meshing: turns a chunk neighborhood into packed vertex
//! data and triangle indices. A face is emitted exactly where a
//! meshable block borders a non-meshable one.

use vstd::prelude::*;

use crate::blocks::{Block, BlocksHandler};
use crate::chunk::SIZE_I32;
use crate::math::{IVec3, UVec2};
use crate::refs::ChunksRefs;

verus! {

/// A face direction; doubles as the face normal.
#[derive(Debug, Clone, Copy, PartialEq, Eq, Structural)]
pub enum Direction {
    Left,
    Right,
    Down,
    Up,
    Back,
    Forward,
}

impl Direction {
    /// The block position sampled for one grid cell of one axis layer.
    pub open spec fn spec_world_sample(self, axis: i32, row: i32, column: i32) -> IVec3 {
        match self {
            Direction::Up => IVec3 { x: row, y: (axis - 1) as i32, z: column },
            Direction::Down => IVec3 { x: row, y: axis, z: column },
            Direction::Left => IVec3 { x: axis, y: column, z: row },
            Direction::Right => IVec3 { x: (axis - 1) as i32, y: column, z: row },
            Direction::Forward => IVec3 { x: row, y: column, z: axis },
            Direction::Back => IVec3 { x: row, y: column, z: (axis - 1) as i32 },
        }
    }

    /// One step along this direction's outward normal.
    pub open spec fn spec_air_sample(self) -> IVec3 {
        match self {
            Direction::Up => IVec3 { x: 0, y: 1, z: 0 },
            Direction::Down => IVec3 { x: 0, y: -1i32, z: 0 },
            Direction::Left => IVec3 { x: -1i32, y: 0, z: 0 },
            Direction::Right => IVec3 { x: 1, y: 0, z: 0 },
            Direction::Forward => IVec3 { x: 0, y: 0, z: -1i32 },
            Direction::Back => IVec3 { x: 0, y: 0, z: 1 },
        }
    }

    /// Whether the quad's vertex order is reversed to keep the winding
    /// outward.
    pub open spec fn spec_reverse_order(self) -> bool {
        match self {
            Direction::Up => true,
            Direction::Down => false,
            Direction::Left => false,
            Direction::Right => true,
            Direction::Forward => true,
            Direction::Back => false,
        }
    }

    /// The sample-plane adjustment: 1 for the three positive-facing
    /// directions, 0 otherwise.
    pub open spec fn spec_negate_axis(self) -> i32 {
        match self {
            Direction::Up | Direction::Right | Direction::Back => 1,
            _ => 0,
        }
    }

    /// The numeric face id packed into a vertex.
    pub open spec fn spec_to_u32(self) -> u32 {
        match self {
            Direction::Up => 0,
            Direction::Left => 1,
            Direction::Right => 2,
            Direction::Forward => 3,
            Direction::Back => 4,
            Direction::Down => 5,
        }
    }

    /// Get block position from grid and axis.
    pub fn world_sample(&self, axis: i32, row: i32, column: i32) -> (r: IVec3)
        requires
            i32::MIN < axis,
        ensures
            r == self.spec_world_sample(axis, row, column),
    {
        match self {
            Self::Up => IVec3 { x: row, y: axis - 1, z: column },
            Self::Down => IVec3 { x: row, y: axis, z: column },
            Self::Left => IVec3 { x: axis, y: column, z: row },
            Self::Right => IVec3 { x: axis - 1, y: column, z: row },
            Self::Forward => IVec3 { x: row, y: column, z: axis },
            Self::Back => IVec3 { x: row, y: column, z: axis - 1 },
        }
    }

    /// The relative position of the neighbor whose cell decides culling.
    pub fn air_sample(&self) -> (r: IVec3)
        ensures
            r == self.spec_air_sample(),
    {
        match self {
            Self::Up => IVec3 { x: 0, y: 1, z: 0 },
            Self::Down => IVec3 { x: 0, y: -1, z: 0 },
            Self::Left => IVec3 { x: -1, y: 0, z: 0 },
            Self::Right => IVec3 { x: 1, y: 0, z: 0 },
            Self::Forward => IVec3 { x: 0, y: 0, z: -1 },
            Self::Back => IVec3 { x: 0, y: 0, z: 1 },
        }
    }

    pub fn reverse_order(&self) -> (r: bool)
        ensures
            r == self.spec_reverse_order(),
    {
        match self {
            Self::Up => true,
            Self::Down => false,
            Self::Left => false,
            Self::Right => true,
            Self::Forward => true,
            Self::Back => false,
        }
    }

    pub fn negate_axis(&self) -> (r: i32)
        ensures
            r == self.spec_negate_axis(),
    {
        match self {
            Self::Up | Self::Right | Self::Back => 1,
            _ => 0,
        }
    }

    pub fn to_u32(&self) -> (r: u32)
        ensures
            r == self.spec_to_u32(),
    {
        match self {
            Self::Up => 0,
            Self::Left => 1,
            Self::Right => 2,
            Self::Forward => 3,
            Self::Back => 4,
            Self::Down => 5,
        }
    }

    /// All six directions, in the order the mesher walks them.
    pub fn iter() -> (r: Vec<Direction>)
        ensures
            r@.len() == 6,
            forall|k: int| 0 <= k < 6 ==> r@[k] == spec_dir_order(k),
    {
        let r = vec![
            Self::Left,
            Self::Right,
            Self::Down,
            Self::Up,
            Self::Back,
            Self::Forward,
        ];
        assert(r@[0] == spec_dir_order(0));
        assert(r@[1] == spec_dir_order(1));
        assert(r@[2] == spec_dir_order(2));
        assert(r@[3] == spec_dir_order(3));
        assert(r@[4] == spec_dir_order(4));
        assert(r@[5] == spec_dir_order(5));
        r
    }
}

/// The direction handled `k`-th by a mesh build.
pub open spec fn spec_dir_order(k: int) -> Direction {
    if k == 0 {
        Direction::Left
    } else if k == 1 {
        Direction::Right
    } else if k == 2 {
        Direction::Down
    } else if k == 3 {
        Direction::Up
    } else if k == 4 {
        Direction::Back
    } else {
        Direction::Forward
    }
}

/// The vertex word packed from a local position, a face direction, a
/// block id and a texture corner: bits 0-4 x, 5-9 y, 10-14 z, 15-17 the
/// face id, 18 u, 19 v, 20-31 the block id.
#[verifier::opaque]
pub open spec fn spec_vertex(local: IVec3, dir: Direction, block_id: u16, uv: UVec2) -> u32 {
    (local.x as u32) | ((local.y as u32) << 5) | ((local.z as u32) << 10) | (dir.spec_to_u32()
        << 15) | (uv.x << 18) | (uv.y << 19) | ((block_id as u32) << 20)
}

/// The four vertices of one face quad at grid cell `(x, y)` of layer
/// `axis`, wound according to the direction.
#[verifier::opaque]
pub open spec fn spec_quad(dir: Direction, axis: i32, x: i32, y: i32, block_id: u16) -> Seq<u32> {
    let a = (axis + dir.spec_negate_axis()) as i32;
    let v1 = spec_vertex(dir.spec_world_sample(a, x, y), dir, block_id, UVec2 { x: 1, y: 1 });
    let v2 = spec_vertex(
        dir.spec_world_sample(a, (x + 1) as i32, y),
        dir,
        block_id,
        UVec2 { x: 0, y: 1 },
    );
    let v3 = spec_vertex(
        dir.spec_world_sample(a, (x + 1) as i32, (y + 1) as i32),
        dir,
        block_id,
        UVec2 { x: 0, y: 0 },
    );
    let v4 = spec_vertex(
        dir.spec_world_sample(a, x, (y + 1) as i32),
        dir,
        block_id,
        UVec2 { x: 1, y: 0 },
    );
    if dir.spec_reverse_order() {
        seq![v1, v4, v3, v2]
    } else {
        seq![v1, v2, v3, v4]
    }
}

/// One grid cell of a face layer, about to become a quad.
pub struct Face {
    pub x: i32,
    pub y: i32,
}

impl Face {
    pub fn new(x: i32, y: i32) -> (r: Face)
        ensures
            r == (Face { x, y }),
    {
        Face { x, y }
    }

    /// The quad for this cell: four packed vertices, wound outward.
    pub fn vertices(self, dir: Direction, axis: i32, block: &Block) -> (r: Vec<u32>)
        requires
            0 <= self.x < 16,
            0 <= self.y < 16,
            0 <= axis <= 16,
            block.id < 4096,
        ensures
            r@ == spec_quad(dir, axis, self.x, self.y, block.id),
            r@.len() == 4,
    {
        let a = axis + dir.negate_axis();
        let v1 = Vertex::new(dir.world_sample(a, self.x, self.y), dir, block, &UVec2 {
            x: 1,
            y: 1,
        });
        let v2 = Vertex::new(dir.world_sample(a, self.x + 1, self.y), dir, block, &UVec2 {
            x: 0,
            y: 1,
        });
        let v3 = Vertex::new(dir.world_sample(a, self.x + 1, self.y + 1), dir, block, &UVec2 {
            x: 0,
            y: 0,
        });
        let v4 = Vertex::new(dir.world_sample(a, self.x, self.y + 1), dir, block, &UVec2 {
            x: 1,
            y: 0,
        });
        let mut r: Vec<u32> = Vec::new();
        if dir.reverse_order() {
            r.push(v1);
            r.push(v4);
            r.push(v3);
            r.push(v2);
        } else {
            r.push(v1);
            r.push(v2);
            r.push(v3);
            r.push(v4);
        }
        proof {
            reveal(spec_quad);
            assert(r@ =~= spec_quad(dir, axis, self.x, self.y, block.id));
        }
        r
    }
}

/// Packs vertex data words.
#[derive(Debug, Clone, Copy)]
pub struct Vertex;

impl Vertex {
    /// Packs one vertex: local position, face direction, texture corner
    /// and block id, bit-exactly as `spec_vertex` lays them out.
    pub fn new(local: IVec3, dir: Direction, block: &Block, uv: &UVec2) -> (r: u32)
        requires
            0 <= local.x < 32,
            0 <= local.y < 32,
            0 <= local.z < 32,
            uv.x <= 1,
            uv.y <= 1,
            block.id < 4096,
        ensures
            r == spec_vertex(local, dir, block.id, *uv),
    {
        proof {
            reveal(spec_vertex);
        }
        let data = local.x as u32 | (local.y as u32) << 5u32 | (local.z as u32) << 10u32
            | (dir.to_u32()) << 15u32 | (uv.x) << 18u32 | (uv.y) << 19u32 | (block.id as u32)
            << 20u32;
        data
    }
}

/// The position whose block is inspected for cell `(row, col)` of cell
/// layer `axis`: the sample plane is shifted by the direction's negate
/// offset so that every direction walks the cells of the target chunk.
pub open spec fn spec_sample_pos(dir: Direction, axis: i32, row: i32, col: i32) -> IVec3 {
    dir.spec_world_sample((axis + dir.spec_negate_axis()) as i32, row, col)
}

/// Whether the cell sampled at `(axis, row, col)` shows a visible face
/// towards `dir`: its block is meshable and the block one step along
/// the direction's normal is not.
pub open spec fn spec_face_visible(
    handler: BlocksHandler,
    refs: ChunksRefs,
    dir: Direction,
    axis: i32,
    row: i32,
    col: i32,
) -> bool {
    let pos = spec_sample_pos(dir, axis, row, col);
    handler.spec_meshable(refs.spec_block(pos)) && !handler.spec_meshable(
        refs.spec_block(pos.spec_plus(dir.spec_air_sample())),
    )
}

/// The vertices cell `i` of layer `axis` contributes: one quad when its
/// face is visible, nothing otherwise.
pub open spec fn spec_cell_vertices(
    handler: BlocksHandler,
    refs: ChunksRefs,
    dir: Direction,
    axis: i32,
    i: int,
) -> Seq<u32> {
    let row = (i % 16) as i32;
    let col = (i / 16) as i32;
    if spec_face_visible(handler, refs, dir, axis, row, col) {
        spec_quad(
            dir,
            (axis + dir.spec_negate_axis()) as i32,
            row,
            col,
            refs.spec_block(spec_sample_pos(dir, axis, row, col)),
        )
    } else {
        Seq::empty()
    }
}

/// The vertices of the first `upto` cells of layer `axis`, in cell order.
pub open spec fn spec_layer_vertices(
    handler: BlocksHandler,
    refs: ChunksRefs,
    dir: Direction,
    axis: i32,
    upto: int,
) -> Seq<u32>
    decreases upto,
{
    if upto <= 0 {
        Seq::empty()
    } else {
        spec_layer_vertices(handler, refs, dir, axis, upto - 1) + spec_cell_vertices(
            handler,
            refs,
            dir,
            axis,
            upto - 1,
        )
    }
}

/// The vertices of the first `upto` layers of direction `dir`, in layer
/// order.
pub open spec fn spec_dir_vertices(
    handler: BlocksHandler,
    refs: ChunksRefs,
    dir: Direction,
    upto: int,
) -> Seq<u32>
    decreases upto,
{
    if upto <= 0 {
        Seq::empty()
    } else {
        spec_dir_vertices(handler, refs, dir, upto - 1) + spec_layer_vertices(
            handler,
            refs,
            dir,
            (upto - 1) as i32,
            256,
        )
    }
}

/// The vertices of a whole mesh build: the six directions in build
/// order, each contributing its visible faces.
pub open spec fn spec_build_vertices(handler: BlocksHandler, refs: ChunksRefs, upto: int) -> Seq<
    u32,
>
    decreases upto,
{
    if upto <= 0 {
        Seq::empty()
    } else {
        spec_build_vertices(handler, refs, upto - 1) + spec_dir_vertices(
            handler,
            refs,
            spec_dir_order(upto - 1),
            16,
        )
    }
}

/// Triangle indices fitting a vertex list: six indices per quad of four
/// vertices, the two triangles `{0,1,2}` and `{0,2,3}` of each quad.
pub open spec fn spec_indices_ok(vertices: Seq<u32>, indices: Seq<u32>) -> bool {
    &&& indices.len() == 6 * (vertices.len() / 4)
    &&& forall|q: int|
        0 <= q < vertices.len() / 4 ==> {
            &&& #[trigger] indices[6 * q] == 4 * q
            &&& indices[6 * q + 1] == 4 * q + 1
            &&& indices[6 * q + 2] == 4 * q + 2
            &&& indices[6 * q + 3] == 4 * q
            &&& indices[6 * q + 4] == 4 * q + 2
            &&& indices[6 * q + 5] == 4 * q + 3
        }
}

/// One chunk's renderable geometry: packed vertices and triangle
/// indices, keyed by the chunk position.
#[derive(Debug)]
pub struct Mesh {
    pub position: IVec3,
    pub vertices: Vec<u32>,
    pub indices: Vec<u32>,
}

/// The positions a layer cell samples stay inside the neighborhood
/// window: the cell itself lies in the target cube, and its culling
/// neighbor overshoots by at most one step on one axis.
proof fn lemma_sample_in_window(dir: Direction, axis: i32, row: i32, col: i32)
    requires
        0 <= axis < 16,
        0 <= row < 16,
        0 <= col < 16,
    ensures
        crate::refs::in_window(spec_sample_pos(dir, axis, row, col)),
        crate::refs::in_window(
            spec_sample_pos(dir, axis, row, col).spec_plus(dir.spec_air_sample()),
        ),
{
    let pos = spec_sample_pos(dir, axis, row, col);
    let air = pos.spec_plus(dir.spec_air_sample());
    match dir {
        Direction::Up => {
            assert(crate::refs::in_window(pos) && crate::refs::in_window(air));
        },
        Direction::Down => {
            assert(crate::refs::in_window(pos) && crate::refs::in_window(air));
        },
        Direction::Left => {
            assert(crate::refs::in_window(pos) && crate::refs::in_window(air));
        },
        Direction::Right => {
            assert(crate::refs::in_window(pos) && crate::refs::in_window(air));
        },
        Direction::Forward => {
            assert(crate::refs::in_window(pos) && crate::refs::in_window(air));
        },
        Direction::Back => {
            assert(crate::refs::in_window(pos) && crate::refs::in_window(air));
        },
    }
}

impl Mesh {
    /// The visible faces of one direction, layer by layer, cell by cell.
    #[verifier::rlimit(50)]
    fn make_vertices(handler: &BlocksHandler, dir: Direction, refs: &ChunksRefs) -> (r: Vec<u32>)
        requires
            handler.wf(),
            refs.wf(),
            refs.ids_below(handler.values@.len() as int),
        ensures
            r@ == spec_dir_vertices(*handler, *refs, dir, 16),
    {
        let mut vertices: Vec<u32> = Vec::new();
        let mut axis: i32 = 0;
        while axis < SIZE_I32
            invariant
                handler.wf(),
                refs.wf(),
                refs.ids_below(handler.values@.len() as int),
                0 <= axis <= 16,
                vertices@ == spec_dir_vertices(*handler, *refs, dir, axis as int),
            decreases 16 - axis,
        {
            let mut i: i32 = 0;
            while i < SIZE_I32 * SIZE_I32
                invariant
                    handler.wf(),
                    refs.wf(),
                    refs.ids_below(handler.values@.len() as int),
                    0 <= axis < 16,
                    0 <= i <= 256,
                    vertices@ == spec_dir_vertices(*handler, *refs, dir, axis as int)
                        + spec_layer_vertices(*handler, *refs, dir, axis, i as int),
                decreases 256 - i,
            {
                let row = i % SIZE_I32;
                let col = i / SIZE_I32;
                proof {
                    lemma_sample_in_window(dir, axis, row, col);
                }
                let sample_axis = axis + dir.negate_axis();
                let pos = dir.world_sample(sample_axis, row, col);
                let air = pos.plus(dir.air_sample());
                let cur_id = refs.get_block(pos);
                let nb_id = refs.get_block(air);
                let current = match handler.block(cur_id) {
                    Some(b) => b,
                    None => vstd::pervasive::unreached(),
                };
                let neighbor = match handler.block(nb_id) {
                    Some(b) => b,
                    None => vstd::pervasive::unreached(),
                };
                if current.is_meshable() && !neighbor.is_meshable() {
                    let face = Face::new(row, col);
                    let mut quad = face.vertices(dir, sample_axis, current);
                    vertices.append(&mut quad);
                }
                proof {
                    assert(spec_face_visible(*handler, *refs, dir, axis, row, col)
                        == (handler.spec_meshable(cur_id) && !handler.spec_meshable(nb_id)));
                    assert(vertices@ =~= spec_dir_vertices(*handler, *refs, dir, axis as int)
                        + spec_layer_vertices(*handler, *refs, dir, axis, i as int + 1));
                }
                i = i + 1;
            }
            axis = axis + 1;
        }
        vertices
    }

    /// All visible faces of the neighborhood's target chunk, walking
    /// the six directions in build order.
    pub fn build(handler: &BlocksHandler, refs: &ChunksRefs) -> (r: Vec<u32>)
        requires
            handler.wf(),
            refs.wf(),
            refs.ids_below(handler.values@.len() as int),
        ensures
            r@ == spec_build_vertices(*handler, *refs, 6),
            r@.len() % 4 == 0,
    {
        let mut vertices: Vec<u32> = Vec::new();
        let dirs = Direction::iter();
        let mut k: usize = 0;
        while k < 6
            invariant
                handler.wf(),
                refs.wf(),
                refs.ids_below(handler.values@.len() as int),
                0 <= k <= 6,
                dirs@.len() == 6,
                forall|m: int| 0 <= m < 6 ==> dirs@[m] == spec_dir_order(m),
                vertices@ == spec_build_vertices(*handler, *refs, k as int),
            decreases 6 - k,
        {
            let dir = dirs[k];
            let mut part = Self::make_vertices(handler, dir, refs);
            vertices.append(&mut part);
            assert(vertices@ =~= spec_build_vertices(*handler, *refs, k as int + 1));
            k = k + 1;
        }
        proof {
            lemma_build_one_quad_per_visible_face(*handler, *refs, 6);
        }
        vertices
    }

    /// Triangle indices for a vertex list: every four consecutive
    /// vertices form one quad of two triangles.
    pub fn generate_indices(vertices: &Vec<u32>) -> (r: Vec<u32>)
        requires
            vertices@.len() <= 0xffff_ffff,
        ensures
            spec_indices_ok(vertices@, r@),
    {
        let indices_count = vertices.len() / 4;
        let mut indices: Vec<u32> = Vec::with_capacity(indices_count);
        let mut q: usize = 0;
        while q < indices_count
            invariant
                indices_count == vertices@.len() / 4,
                vertices@.len() <= 0xffff_ffff,
                0 <= q <= indices_count,
                indices@.len() == 6 * q,
                forall|p: int|
                    0 <= p < q ==> {
                        &&& #[trigger] indices@[6 * p] == 4 * p
                        &&& indices@[6 * p + 1] == 4 * p + 1
                        &&& indices@[6 * p + 2] == 4 * p + 2
                        &&& indices@[6 * p + 3] == 4 * p
                        &&& indices@[6 * p + 4] == 4 * p + 2
                        &&& indices@[6 * p + 5] == 4 * p + 3
                    },
            decreases indices_count - q,
        {
            let ghost before = indices@;
            let vert_index = (q * 4) as u32;
            indices.push(vert_index);
            indices.push(vert_index + 1);
            indices.push(vert_index + 2);
            indices.push(vert_index);
            indices.push(vert_index + 2);
            indices.push(vert_index + 3);
            proof {
                assert(indices@ =~= before + seq![
                    vert_index,
                    (vert_index + 1) as u32,
                    (vert_index + 2) as u32,
                    vert_index,
                    (vert_index + 2) as u32,
                    (vert_index + 3) as u32,
                ]);
                assert forall|p: int| 0 <= p < q + 1 implies {
                    &&& #[trigger] indices@[6 * p] == 4 * p
                    &&& indices@[6 * p + 1] == 4 * p + 1
                    &&& indices@[6 * p + 2] == 4 * p + 2
                    &&& indices@[6 * p + 3] == 4 * p
                    &&& indices@[6 * p + 4] == 4 * p + 2
                    &&& indices@[6 * p + 5] == 4 * p + 3
                } by {
                    if p < q {
                        assert(before[6 * p] == 4 * p);
                        assert(indices@[6 * p] == before[6 * p]);
                        assert(indices@[6 * p + 1] == before[6 * p + 1]);
                        assert(indices@[6 * p + 2] == before[6 * p + 2]);
                        assert(indices@[6 * p + 3] == before[6 * p + 3]);
                        assert(indices@[6 * p + 4] == before[6 * p + 4]);
                        assert(indices@[6 * p + 5] == before[6 * p + 5]);
                    } else {
                        assert(indices@[6 * p] == vert_index);
                    }
                }
            }
            q = q + 1;
        }
        indices
    }
}

/// Builds the complete mesh record for the chunk at `pos`.
pub fn build_mesh(pos: IVec3, handler: &BlocksHandler, refs: &ChunksRefs) -> (r: Mesh)
    requires
        handler.wf(),
        refs.wf(),
        refs.ids_below(handler.values@.len() as int),
    ensures
        r.position == pos,
        r.vertices@ == spec_build_vertices(*handler, *refs, 6),
        spec_indices_ok(r.vertices@, r.indices@),
{
    let vertices = Mesh::build(handler, refs);
    proof {
        lemma_build_vertices_len(*handler, *refs, 6);
    }
    let indices = Mesh::generate_indices(&vertices);
    Mesh { position: pos, vertices, indices }
}

/// A quad is always four vertices.
proof fn lemma_quad_len(dir: Direction, axis: i32, x: i32, y: i32, block_id: u16)
    ensures
        spec_quad(dir, axis, x, y, block_id).len() == 4,
{
    reveal(spec_quad);
}

/// Number of visible faces among the first `upto` cells of layer
/// `axis` of direction `dir`.
pub open spec fn spec_layer_visible_count(
    handler: BlocksHandler,
    refs: ChunksRefs,
    dir: Direction,
    axis: i32,
    upto: int,
) -> int
    decreases upto,
{
    if upto <= 0 {
        0
    } else {
        spec_layer_visible_count(handler, refs, dir, axis, upto - 1) + if spec_face_visible(
            handler,
            refs,
            dir,
            axis,
            ((upto - 1) % 16) as i32,
            ((upto - 1) / 16) as i32,
        ) {
            1int
        } else {
            0int
        }
    }
}

/// Number of visible faces in the first `upto` layers of direction
/// `dir`.
pub open spec fn spec_dir_visible_count(
    handler: BlocksHandler,
    refs: ChunksRefs,
    dir: Direction,
    upto: int,
) -> int
    decreases upto,
{
    if upto <= 0 {
        0
    } else {
        spec_dir_visible_count(handler, refs, dir, upto - 1) + spec_layer_visible_count(
            handler,
            refs,
            dir,
            (upto - 1) as i32,
            256,
        )
    }
}

/// Number of visible faces seen by the first `upto` directions of a
/// build.
pub open spec fn spec_build_visible_count(handler: BlocksHandler, refs: ChunksRefs, upto: int) -> int
    decreases upto,
{
    if upto <= 0 {
        0
    } else {
        spec_build_visible_count(handler, refs, upto - 1) + spec_dir_visible_count(
            handler,
            refs,
            spec_dir_order(upto - 1),
            16,
        )
    }
}

proof fn lemma_layer_quad_count(
    handler: BlocksHandler,
    refs: ChunksRefs,
    dir: Direction,
    axis: i32,
    upto: int,
)
    ensures
        spec_layer_vertices(handler, refs, dir, axis, upto).len() == 4 * spec_layer_visible_count(
            handler,
            refs,
            dir,
            axis,
            upto,
        ),
    decreases upto,
{
    if upto > 0 {
        lemma_layer_quad_count(handler, refs, dir, axis, upto - 1);
        let row = ((upto - 1) % 16) as i32;
        let col = ((upto - 1) / 16) as i32;
        lemma_quad_len(
            dir,
            (axis + dir.spec_negate_axis()) as i32,
            row,
            col,
            refs.spec_block(spec_sample_pos(dir, axis, row, col)),
        );
    }
}

proof fn lemma_dir_quad_count(handler: BlocksHandler, refs: ChunksRefs, dir: Direction, upto: int)
    ensures
        spec_dir_vertices(handler, refs, dir, upto).len() == 4 * spec_dir_visible_count(
            handler,
            refs,
            dir,
            upto,
        ),
    decreases upto,
{
    if upto > 0 {
        lemma_dir_quad_count(handler, refs, dir, upto - 1);
        lemma_layer_quad_count(handler, refs, dir, (upto - 1) as i32, 256);
    }
}

/// The culling law: a mesh build emits exactly one quad of four
/// vertices per visible face, a cell whose block is meshable while the
/// block one step along the direction's normal is not, and nothing
/// else.
pub proof fn lemma_build_one_quad_per_visible_face(
    handler: BlocksHandler,
    refs: ChunksRefs,
    upto: int,
)
    ensures
        spec_build_vertices(handler, refs, upto).len() == 4 * spec_build_visible_count(
            handler,
            refs,
            upto,
        ),
    decreases upto,
{
    if upto > 0 {
        lemma_build_one_quad_per_visible_face(handler, refs, upto - 1);
        lemma_dir_quad_count(handler, refs, spec_dir_order(upto - 1), 16);
    }
}

/// A build emits at most one quad per cell per direction, so its vertex
/// count is bounded well below any machine limit.
proof fn lemma_layer_vertices_len(
    handler: BlocksHandler,
    refs: ChunksRefs,
    dir: Direction,
    axis: i32,
    upto: int,
)
    requires
        0 <= upto,
    ensures
        spec_layer_vertices(handler, refs, dir, axis, upto).len() <= 4 * upto,
    decreases upto,
{
    if upto > 0 {
        lemma_layer_vertices_len(handler, refs, dir, axis, upto - 1);
        let row = ((upto - 1) % 16) as i32;
        let col = ((upto - 1) / 16) as i32;
        lemma_quad_len(
            dir,
            (axis + dir.spec_negate_axis()) as i32,
            row,
            col,
            refs.spec_block(spec_sample_pos(dir, axis, row, col)),
        );
    }
}

proof fn lemma_dir_vertices_len(
    handler: BlocksHandler,
    refs: ChunksRefs,
    dir: Direction,
    upto: int,
)
    requires
        0 <= upto,
    ensures
        spec_dir_vertices(handler, refs, dir, upto).len() <= 1024 * upto,
    decreases upto,
{
    if upto > 0 {
        lemma_dir_vertices_len(handler, refs, dir, upto - 1);
        lemma_layer_vertices_len(handler, refs, dir, (upto - 1) as i32, 256);
    }
}

proof fn lemma_build_vertices_len(handler: BlocksHandler, refs: ChunksRefs, upto: int)
    requires
        0 <= upto,
    ensures
        spec_build_vertices(handler, refs, upto).len() <= 16384 * upto,
    decreases upto,
{
    if upto > 0 {
        lemma_build_vertices_len(handler, refs, upto - 1);
        lemma_dir_vertices_len(handler, refs, spec_dir_order(upto - 1), 16);
    }
}

} // verus!
