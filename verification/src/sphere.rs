//! The UV-sphere tessellation: which grid point each vertex stands for, and
//! the triangle list that connects them.

use vstd::arithmetic::div_mod::lemma_fundamental_div_mod_converse;
use vstd::prelude::*;

verus! {

/// How finely the sphere is cut: `h_segments` steps around the axis and
/// `v_segments` steps from pole to pole.
#[derive(Clone, Copy, Debug, PartialEq, Eq, Structural)]
pub struct SphereConfig {
    pub h_segments: u32,
    pub v_segments: u32,
}

/// One vertex of the sphere, as a point of the tessellation grid.
///
/// The vertex lies at `u = ix / h_segments` around the axis and
/// `v = iy / v_segments` from pole to pole. Its texture coordinate is
/// `(u + u_half_steps * 0.5 / h_segments, 1 - v)`.
#[derive(Clone, Copy, Debug, PartialEq, Eq, Structural)]
pub struct GridVertex {
    pub ix: u32,
    pub iy: u32,
    pub u_half_steps: i32,
}

impl SphereConfig {
    /// Both segment counts are positive and every vertex index fits in 32 bits.
    pub open spec fn valid(self) -> bool {
        &&& self.h_segments >= 1
        &&& self.v_segments >= 1
        &&& (self.h_segments + 1) * (self.v_segments + 1) <= u32::MAX
    }

    /// The number of vertices on one ring.
    pub open spec fn ring_len(self) -> int {
        self.h_segments + 1
    }

    /// The number of vertices of the whole grid.
    pub open spec fn vertex_count(self) -> int {
        (self.h_segments + 1) * (self.v_segments + 1)
    }

    /// The position in the vertex list of the grid point on ring `iy`, step `ix`.
    pub open spec fn vertex_index(self, iy: int, ix: int) -> int {
        iy * (self.h_segments + 1) + ix
    }

    /// The shift of the texture coordinate on ring `iy`, in half steps: one
    /// forward on the first ring, one back on the last, none in between.
    pub open spec fn pole_offset(self, iy: int) -> int {
        if iy == 0 {
            1
        } else if iy == self.v_segments {
            -1
        } else {
            0
        }
    }

    /// The vertex that stands at position `k` of the vertex list.
    pub open spec fn vertex_at(self, k: int) -> GridVertex {
        GridVertex {
            ix: (k % self.ring_len()) as u32,
            iy: (k / self.ring_len()) as u32,
            u_half_steps: self.pole_offset(k / self.ring_len()) as i32,
        }
    }

    /// The whole vertex list, ring by ring from the first pole to the last.
    pub open spec fn vertices(self) -> Seq<GridVertex> {
        Seq::new(self.vertex_count() as nat, |k: int| self.vertex_at(k))
    }

    /// The number of triangles that each cell between ring `iy` and the next
    /// contributes. A cell next to a pole gives only the triangle with a
    /// single corner on the pole's ring; with one vertical segment the cells
    /// touch both poles and give none.
    pub open spec fn triangles_per_cell(self, iy: int) -> int {
        (if iy != 0 { 1int } else { 0 }) + (if iy != self.v_segments - 1 { 1int } else { 0 })
    }

    /// The indices of the cell between rings `iy` and `iy + 1`, steps `ix`
    /// and `ix + 1`, in the order in which they are generated.
    pub open spec fn cell_indices(self, iy: int, ix: int) -> Seq<u32> {
        let a = self.vertex_index(iy, ix + 1) as u32;
        let b = self.vertex_index(iy, ix) as u32;
        let c = self.vertex_index(iy + 1, ix) as u32;
        let d = self.vertex_index(iy + 1, ix + 1) as u32;
        let upper = if iy != 0 { seq![a, b, d] } else { Seq::<u32>::empty() };
        let lower = if iy != self.v_segments - 1 { seq![b, c, d] } else { Seq::<u32>::empty() };
        upper + lower
    }

    /// The indices of the first `cells` cells below ring `iy`.
    pub open spec fn ring_indices(self, iy: int, cells: int) -> Seq<u32>
        decreases cells,
    {
        if cells <= 0 {
            Seq::<u32>::empty()
        } else {
            self.ring_indices(iy, cells - 1) + self.cell_indices(iy, cells - 1)
        }
    }

    /// The indices of all cells below the first `rings` rings.
    pub open spec fn grid_indices(self, rings: int) -> Seq<u32>
        decreases rings,
    {
        if rings <= 0 {
            Seq::<u32>::empty()
        } else {
            self.grid_indices(rings - 1) + self.ring_indices(rings - 1, self.h_segments as int)
        }
    }

    /// The index list of the sphere: the generated indices back to front,
    /// which turns the winding of every triangle.
    pub open spec fn indices(self) -> Seq<u32> {
        self.grid_indices(self.v_segments as int).reverse()
    }

    /// The number of triangles in one column of cells over the first `rings` rings.
    pub open spec fn triangles_per_column(self, rings: int) -> int {
        if rings <= 0 {
            0
        } else if rings == self.v_segments {
            2 * rings - 2
        } else {
            2 * rings - 1
        }
    }

    /// The length of the index list.
    pub open spec fn index_count(self) -> int {
        6 * self.h_segments * (self.v_segments - 1)
    }
}

impl SphereConfig {
    /// Whether the tessellation can be generated: computes
    /// [`SphereConfig::valid`].
    pub fn is_valid(&self) -> (ok: bool)
        ensures
            ok == self.valid(),
    {
        if self.h_segments == 0 || self.v_segments == 0 {
            return false;
        }
        let ring_len: u128 = self.h_segments as u128 + 1;
        let rings: u128 = self.v_segments as u128 + 1;
        assert(ring_len * rings <= 0x1_0000_0000 * 0x1_0000_0000) by (nonlinear_arith)
            requires
                ring_len <= 0x1_0000_0000,
                rings <= 0x1_0000_0000,
        ;
        ring_len * rings <= u32::MAX as u128
    }

    /// Whether the number of indices fits in 32 bits.
    pub fn fits_index_buffer(&self) -> (ok: bool)
        ensures
            ok == (self.index_count() <= u32::MAX),
    {
        if self.v_segments == 0 {
            assert(6 * self.h_segments * (self.v_segments - 1) <= 0) by (nonlinear_arith)
                requires
                    self.v_segments == 0,
                    self.h_segments >= 0,
            ;
            return true;
        }
        let columns: u64 = self.h_segments as u64;
        let rings: u64 = self.v_segments as u64 - 1;
        assert(columns * rings <= 0xffff_ffff * 0xffff_ffff && 6 * self.h_segments * (
            self.v_segments - 1) == 6 * (columns * rings)) by (nonlinear_arith)
            requires
                columns == self.h_segments,
                rings == self.v_segments - 1,
                columns <= 0xffff_ffff,
                0 <= rings <= 0xffff_ffff,
        ;
        columns * rings <= (u32::MAX / 6) as u64
    }
}

impl Default for SphereConfig {
    fn default() -> (config: Self)
        ensures
            config.h_segments == 500,
            config.v_segments == 340,
            config.valid(),
    {
        SphereConfig { h_segments: 500, v_segments: 340 }
    }
}

/// A grid point within the grid has a position within the vertex list.
pub proof fn lemma_vertex_index_bound(config: SphereConfig, iy: int, ix: int)
    requires
        0 <= iy <= config.v_segments,
        0 <= ix <= config.h_segments,
    ensures
        0 <= config.vertex_index(iy, ix) < config.vertex_count(),
        config.vertex_index(iy, ix) / config.ring_len() == iy,
        config.vertex_index(iy, ix) % config.ring_len() == ix,
{
    let row = config.h_segments + 1;
    assert(0 <= iy * row <= config.v_segments * row) by (nonlinear_arith)
        requires
            0 <= iy <= config.v_segments,
            row > 0,
    ;
    assert((config.h_segments + 1) * (config.v_segments + 1) == config.v_segments * row + row)
        by (nonlinear_arith)
        requires
            row == config.h_segments + 1,
    ;
    lemma_fundamental_div_mod_converse(config.vertex_index(iy, ix), row, iy, ix);
}

/// With a valid tessellation neither segment count is the largest `u32`.
proof fn lemma_segments_bound(config: SphereConfig)
    requires
        config.valid(),
    ensures
        config.h_segments < u32::MAX,
        config.v_segments < u32::MAX,
{
    let h = config.h_segments as int;
    let v = config.v_segments as int;
    assert((h + 1) * (v + 1) >= 2 * (v + 1) && (h + 1) * (v + 1) >= 2 * (h + 1))
        by (nonlinear_arith)
        requires
            h >= 1,
            v >= 1,
    ;
}

/// Lists the grid points of the sphere in the order of the vertex list.
fn grid_vertices(config: &SphereConfig) -> (vertices: Vec<GridVertex>)
    requires
        config.valid(),
    ensures
        vertices@ == config.vertices(),
{
    let h: u32 = config.h_segments;
    let v: u32 = config.v_segments;
    let mut vertices: Vec<GridVertex> = Vec::new();
    let mut iy: u32 = 0;
    proof {
        lemma_segments_bound(*config);
    }
    while iy <= v
        invariant
            config.valid(),
            h < u32::MAX,
            v < u32::MAX,
            h == config.h_segments,
            v == config.v_segments,
            0 <= iy <= v + 1,
            vertices@.len() == config.vertex_index(iy as int, 0),
            forall|k: int| 0 <= k < vertices@.len() ==> vertices@[k] == config.vertex_at(k),
        decreases v + 1 - iy,
    {
        let u_half_steps: i32 = if iy == 0 {
            1
        } else if iy == v {
            -1
        } else {
            0
        };
        let mut ix: u32 = 0;
        while ix <= h
            invariant
                config.valid(),
                h < u32::MAX,
                h == config.h_segments,
                v == config.v_segments,
                0 <= iy <= v,
                0 <= ix <= h + 1,
                u_half_steps == config.pole_offset(iy as int),
                vertices@.len() == config.vertex_index(iy as int, ix as int),
                forall|k: int| 0 <= k < vertices@.len() ==> vertices@[k] == config.vertex_at(k),
            decreases h + 1 - ix,
        {
            proof {
                lemma_vertex_index_bound(*config, iy as int, ix as int);
            }
            vertices.push(GridVertex { ix, iy, u_half_steps });
            ix = ix + 1;
        }
        assert(config.vertex_index(iy as int, h + 1) == config.vertex_index(iy + 1, 0))
            by (nonlinear_arith)
            requires
                h == config.h_segments,
        ;
        iy = iy + 1;
    }
    assert(config.vertex_index(v + 1, 0) == config.vertex_count()) by (nonlinear_arith)
        requires
            v == config.v_segments,
    ;
    assert(vertices@ =~= config.vertices());
    vertices
}

/// The indices of the first `cells` cells of a ring are three for each of
/// their triangles, and each names a vertex of the grid.
proof fn lemma_ring_indices(config: SphereConfig, iy: int, cells: int)
    requires
        config.valid(),
        0 <= iy < config.v_segments,
        0 <= cells <= config.h_segments,
    ensures
        config.ring_indices(iy, cells).len() == 3 * config.triangles_per_cell(iy) * cells,
        forall|i: int|
            0 <= i < config.ring_indices(iy, cells).len() ==> config.ring_indices(iy, cells)[i]
                < config.vertex_count(),
    decreases cells,
{
    if cells > 0 {
        let ix = cells - 1;
        lemma_ring_indices(config, iy, ix);
        lemma_vertex_index_bound(config, iy, ix);
        lemma_vertex_index_bound(config, iy, ix + 1);
        lemma_vertex_index_bound(config, iy + 1, ix);
        lemma_vertex_index_bound(config, iy + 1, ix + 1);
        let t = config.triangles_per_cell(iy);
        assert(3 * t * ix + 3 * t == 3 * t * cells) by (nonlinear_arith)
            requires
                cells == ix + 1,
        ;
    }
}

/// The indices below the first `rings` rings are three for each triangle,
/// and each names a vertex of the grid.
proof fn lemma_grid_indices(config: SphereConfig, rings: int)
    requires
        config.valid(),
        0 <= rings <= config.v_segments,
    ensures
        config.grid_indices(rings).len() == 3 * config.h_segments * config.triangles_per_column(
            rings,
        ),
        forall|i: int|
            0 <= i < config.grid_indices(rings).len() ==> config.grid_indices(rings)[i]
                < config.vertex_count(),
    decreases rings,
{
    if rings > 0 {
        let iy = rings - 1;
        let h = config.h_segments as int;
        lemma_grid_indices(config, iy);
        lemma_ring_indices(config, iy, h);
        let t = config.triangles_per_cell(iy);
        let before = config.triangles_per_column(iy);
        assert(config.triangles_per_column(rings) == before + t);
        assert(3 * h * before + 3 * t * h == 3 * h * (before + t)) by (nonlinear_arith);
    }
}

/// Every index of the sphere names one of its vertices, and the indices come
/// in threes: `6 * h_segments * (v_segments - 1)` of them.
pub proof fn lemma_indices_well_formed(config: SphereConfig)
    requires
        config.valid(),
    ensures
        config.indices().len() == config.index_count(),
        config.indices().len() % 3 == 0,
        forall|i: int|
            0 <= i < config.indices().len() ==> config.indices()[i] < config.vertices().len(),
{
    let h = config.h_segments as int;
    let v = config.v_segments as int;
    lemma_grid_indices(config, v);
    assert(3 * h * (2 * v - 2) == 6 * h * (v - 1)) by (nonlinear_arith);
    let triangles = 2 * h * (v - 1);
    assert(6 * h * (v - 1) == 3 * triangles) by (nonlinear_arith)
        requires
            triangles == 2 * h * (v - 1),
    ;
}

/// The texture coordinate is shifted half a step forward on the first ring,
/// half a step back on the last, and not at all on the rings between them.
pub proof fn lemma_pole_offset(config: SphereConfig, iy: int, ix: int)
    requires
        config.valid(),
        0 <= iy <= config.v_segments,
        0 <= ix <= config.h_segments,
    ensures
        0 <= config.vertex_index(iy, ix) < config.vertices().len(),
        config.vertices()[config.vertex_index(iy, ix)].ix == ix,
        config.vertices()[config.vertex_index(iy, ix)].iy == iy,
        iy == 0 ==> config.vertices()[config.vertex_index(iy, ix)].u_half_steps == 1,
        iy == config.v_segments ==> config.vertices()[config.vertex_index(iy, ix)].u_half_steps
            == -1,
        0 < iy < config.v_segments ==> config.vertices()[config.vertex_index(iy, ix)].u_half_steps
            == 0,
{
    lemma_vertex_index_bound(config, iy, ix);
}

/// Generates the indices of all cells, ring by ring and step by step.
fn grid_triangles(config: &SphereConfig) -> (indices: Vec<u32>)
    requires
        config.valid(),
    ensures
        indices@ == config.grid_indices(config.v_segments as int),
{
    let h: u32 = config.h_segments;
    let v: u32 = config.v_segments;
    proof {
        lemma_segments_bound(*config);
    }
    let ring_len: u32 = h + 1;
    let mut indices: Vec<u32> = Vec::new();
    let mut iy: u32 = 0;
    while iy < v
        invariant
            config.valid(),
            h == config.h_segments,
            v == config.v_segments,
            ring_len == h + 1,
            0 <= iy <= v,
            indices@ == config.grid_indices(iy as int),
        decreases v - iy,
    {
        let mut ix: u32 = 0;
        while ix < h
            invariant
                config.valid(),
                h == config.h_segments,
                v == config.v_segments,
                ring_len == h + 1,
                0 <= iy < v,
                0 <= ix <= h,
                indices@ == config.grid_indices(iy as int) + config.ring_indices(
                    iy as int,
                    ix as int,
                ),
            decreases h - ix,
        {
            proof {
                lemma_vertex_index_bound(*config, iy as int, ix as int);
                lemma_vertex_index_bound(*config, iy as int, ix + 1);
                lemma_vertex_index_bound(*config, iy + 1, ix as int);
                lemma_vertex_index_bound(*config, iy + 1, ix + 1);
                assert((iy + 1) * (h + 1) == iy * (h + 1) + (h + 1)) by (nonlinear_arith);
            }
            let b: u32 = iy * ring_len + ix;
            let a: u32 = b + 1;
            let c: u32 = b + ring_len;
            let d: u32 = c + 1;
            if iy != 0 {
                indices.push(a);
                indices.push(b);
                indices.push(d);
            }
            if iy != v - 1 {
                indices.push(b);
                indices.push(c);
                indices.push(d);
            }
            ix = ix + 1;
            assert(indices@ =~= config.grid_indices(iy as int) + config.ring_indices(
                iy as int,
                ix as int,
            ));
        }
        iy = iy + 1;
    }
    indices
}

/// Turns a list of indices back to front.
fn reverse_in_place(values: &mut Vec<u32>)
    ensures
        final(values)@ == old(values)@.reverse(),
{
    let n: usize = values.len();
    let mut i: usize = 0;
    while i < n / 2
        invariant
            n == old(values)@.len(),
            values@.len() == n,
            0 <= i <= n / 2,
            forall|k: int| 0 <= k < i ==> #[trigger] values@[k] == old(values)@[n - 1 - k],
            forall|k: int| n - i <= k < n ==> #[trigger] values@[k] == old(values)@[n - 1 - k],
            forall|k: int| i <= k < n - i ==> #[trigger] values@[k] == old(values)@[k],
        decreases n / 2 - i,
    {
        let front: u32 = values[i];
        let back: u32 = values[n - 1 - i];
        values.set(i, back);
        values.set(n - 1 - i, front);
        i = i + 1;
    }
    assert(values@ =~= old(values)@.reverse());
}

/// Generates the sphere: its vertices as grid points, ring by ring, and the
/// indices of its triangles.
///
/// Each cell of the grid gives two triangles, but for the cells next to a
/// pole, which give one. The index list is turned back to front at the end,
/// so that every triangle winds the other way round.
pub fn get_sphere_vertices(config: &SphereConfig) -> (mesh: (Vec<GridVertex>, Vec<u32>))
    requires
        config.valid(),
    ensures
        mesh.0@ == config.vertices(),
        mesh.1@ == config.indices(),
        mesh.0@.len() == config.vertex_count(),
        mesh.1@.len() == config.index_count(),
        mesh.1@.len() % 3 == 0,
        forall|i: int| 0 <= i < mesh.1@.len() ==> mesh.1@[i] < mesh.0@.len(),
{
    let vertices = grid_vertices(config);
    let mut indices = grid_triangles(config);
    reverse_in_place(&mut indices);
    proof {
        lemma_indices_well_formed(*config);
    }
    (vertices, indices)
}

} // verus!
