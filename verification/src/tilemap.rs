//! Tiles, embark parameters and the procedural tilemap generator: a pure,
//! deterministic function from parameters to a bordered rectangular room.

use vstd::prelude::*;

verus! {

/// One cell of a tilemap.
#[derive(Clone, Copy, Debug, PartialEq, Eq, Structural)]
pub enum Tile {
    Empty,
    Wall,
}

/// Immutable description of one explorable site: a generation seed and the
/// grid dimensions `(width, height)`. Copied by value, never mutated.
///
/// The seed is reserved for future randomized generation; the current
/// generator is fully determined by the dimensions.
#[derive(Clone, Copy, Debug, PartialEq, Eq)]
pub struct EmbarkParams {
    pub seed: usize,
    pub dims: (u32, u32),
}

/// Dimensions a tilemap can be generated from: at least 2 in each direction
/// (so the border leaves room for an interior) and few enough cells that the
/// flat tile vector can be indexed on any machine.
pub open spec fn valid_dims(w: int, h: int) -> bool {
    &&& 2 <= w
    &&& 2 <= h
    &&& w * h <= u32::MAX
}

impl EmbarkParams {
    /// The dimensions admit generation.
    pub open spec fn wf(self) -> bool {
        valid_dims(self.dims.0 as int, self.dims.1 as int)
    }
}

impl Default for EmbarkParams {
    /// The placeholder site produced by surveying: seed 0, a 100 by 100 room.
    fn default() -> (p: Self)
        ensures
            p == (EmbarkParams { seed: 0, dims: (100, 100) }),
            p.wf(),
    {
        EmbarkParams { seed: 0usize, dims: (100, 100) }
    }
}

/// A rectangular grid of tiles in row-major order: the tile at `(x, y)` sits
/// at index `y * width + x`, and `tiles` holds exactly `width * height` cells.
#[derive(Debug, PartialEq)]
pub struct TileMap {
    pub width: u32,
    pub height: u32,
    pub tiles: Vec<Tile>,
}

/// Mathematical model of a tilemap: the dimensions and the flat row-major
/// tile sequence.
#[verifier::ext_equal]
pub struct TileMapView {
    pub width: u32,
    pub height: u32,
    pub tiles: Seq<Tile>,
}

impl View for TileMap {
    type V = TileMapView;

    open spec fn view(&self) -> TileMapView {
        TileMapView { width: self.width, height: self.height, tiles: self.tiles@ }
    }
}

/// Row-major index of the cell at `(x, y)` in a grid `w` tiles wide.
pub open spec fn tile_index(w: int, x: int, y: int) -> int {
    y * w + x
}

/// The tile the current generator policy places at `(x, y)`: `Wall` on the
/// four border edges, `Empty` everywhere else.
pub open spec fn border_tile(w: int, h: int, x: int, y: int) -> Tile {
    if x == 0 || y == 0 || x == w - 1 || y == h - 1 {
        Tile::Wall
    } else {
        Tile::Empty
    }
}

impl TileMapView {
    /// The flat sequence holds exactly one tile per cell, and the dimensions
    /// admit generation.
    pub open spec fn wf(self) -> bool {
        &&& valid_dims(self.width as int, self.height as int)
        &&& self.tiles.len() == self.width * self.height
    }

    /// The tile at `(x, y)`, read through row-major addressing.
    pub open spec fn tile_at(self, x: int, y: int) -> Tile {
        self.tiles[tile_index(self.width as int, x, y)]
    }
}

/// The tile sequence the generator produces for a `w` by `h` room: cell `i`
/// holds the border policy's tile for `(i % w, i / w)`.
pub open spec fn generated_tiles(w: int, h: int) -> Seq<Tile> {
    Seq::new((w * h) as nat, |i: int| border_tile(w, h, i % w, i / w))
}

/// The exact map the generator produces from `params`.
pub open spec fn generated_map(params: EmbarkParams) -> TileMapView {
    TileMapView {
        width: params.dims.0,
        height: params.dims.1,
        tiles: generated_tiles(params.dims.0 as int, params.dims.1 as int),
    }
}

/// A generated map is well-formed.
pub proof fn lemma_generated_map_wf(params: EmbarkParams)
    requires
        params.wf(),
    ensures
        generated_map(params).wf(),
{
}

/// Border invariant: in a generated map, the tile at `(x, y)` is `Wall`
/// exactly on the four border edges and `Empty` everywhere else.
pub proof fn lemma_generated_border(params: EmbarkParams, x: int, y: int)
    requires
        params.wf(),
        0 <= x < params.dims.0,
        0 <= y < params.dims.1,
    ensures
        generated_map(params).tile_at(x, y) == border_tile(
            params.dims.0 as int,
            params.dims.1 as int,
            x,
            y,
        ),
        (x == 0 || y == 0 || x == params.dims.0 - 1 || y == params.dims.1 - 1)
            <==> generated_map(params).tile_at(x, y) == Tile::Wall,
        !(x == 0 || y == 0 || x == params.dims.0 - 1 || y == params.dims.1 - 1)
            <==> generated_map(params).tile_at(x, y) == Tile::Empty,
{
    let w = params.dims.0 as int;
    let h = params.dims.1 as int;
    let idx = tile_index(w, x, y);
    assert(0 <= idx < w * h) by (nonlinear_arith)
        requires
            idx == y * w + x,
            0 <= x < w,
            0 <= y < h,
        ;
    vstd::arithmetic::div_mod::lemma_fundamental_div_mod_converse_div(idx, w, y, x);
    vstd::arithmetic::div_mod::lemma_fundamental_div_mod_converse_mod(idx, w, y, x);
    assert(generated_tiles(w, h)[idx] == border_tile(w, h, idx % w, idx / w));
}

/// Generator determinism: maps generated from identical parameters are
/// identical, dimensions and tiles alike.
pub proof fn lemma_generate_deterministic(m1: TileMapView, m2: TileMapView, params: EmbarkParams)
    requires
        m1 == generated_map(params),
        m2 == generated_map(params),
    ensures
        m1 == m2,
{
}

impl TileMap {
    /// Pure generator: parameters to tilemap. Deterministic given `params`
    /// (nothing else influences the output), and fully pinned by the
    /// postcondition: a `width` by `height` room walled on its four edges.
    pub fn generate(params: EmbarkParams) -> (m: TileMap)
        requires
            params.wf(),
        ensures
            m@ == generated_map(params),
            m@.wf(),
    {
        let w = params.dims.0;
        let h = params.dims.1;
        let mut tiles: Vec<Tile> = Vec::new();
        let mut y: u32 = 0;
        while y < h
            invariant
                valid_dims(w as int, h as int),
                y <= h,
                tiles@.len() == y * w,
                forall|xx: int, yy: int|
                    0 <= xx < w && 0 <= yy < y ==> tiles@[#[trigger] tile_index(w as int, xx, yy)]
                        == border_tile(w as int, h as int, xx, yy),
            decreases h - y,
        {
            let mut x: u32 = 0;
            while x < w
                invariant
                    valid_dims(w as int, h as int),
                    y < h,
                    x <= w,
                    tiles@.len() == y * w + x,
                    forall|xx: int, yy: int|
                        0 <= xx < w && 0 <= yy < y ==> tiles@[#[trigger] tile_index(
                            w as int,
                            xx,
                            yy,
                        )] == border_tile(w as int, h as int, xx, yy),
                    forall|xx: int|
                        0 <= xx < x ==> tiles@[#[trigger] tile_index(w as int, xx, y as int)]
                            == border_tile(w as int, h as int, xx, y as int),
                decreases w - x,
            {
                proof {
                    assert(y * w + x < u32::MAX) by (nonlinear_arith)
                        requires
                            0 <= y < h,
                            0 <= x < w,
                            w * h <= u32::MAX,
                        ;
                }
                let t = if y == 0 || y == h - 1 || x == 0 || x == w - 1 {
                    Tile::Wall
                } else {
                    Tile::Empty
                };
                tiles.push(t);
                proof {
                    assert forall|xx: int, yy: int| 0 <= xx < w && 0 <= yy < y implies tile_index(
                        w as int,
                        xx,
                        yy,
                    ) < y * w by {
                        vstd::arithmetic::mul::lemma_mul_inequality(yy + 1, y as int, w as int);
                        assert((yy + 1) * (w as int) == yy * (w as int) + w) by (nonlinear_arith);
                    };
                }
                x = x + 1;
            }
            proof {
                assert((y + 1) * w == y * w + w) by (nonlinear_arith);
            }
            y = y + 1;
        }
        proof {
            let wi = w as int;
            let hi = h as int;
            assert(hi * wi == wi * hi) by (nonlinear_arith);
            assert forall|i: int| 0 <= i < tiles@.len() implies tiles@[i] == border_tile(
                wi,
                hi,
                i % wi,
                i / wi,
            ) by {
                let x = i % wi;
                let yy = i / wi;
                vstd::arithmetic::div_mod::lemma_fundamental_div_mod(i, wi);
                vstd::arithmetic::div_mod::lemma_mod_bound(i, wi);
                vstd::arithmetic::div_mod::lemma_div_pos_is_pos(i, wi);
                assert(yy < hi) by (nonlinear_arith)
                    requires
                        i == wi * yy + x,
                        0 <= x < wi,
                        0 <= i < wi * hi,
                        0 <= yy,
                    ;
                assert(tile_index(wi, x, yy) == i) by (nonlinear_arith)
                    requires
                        i == wi * yy + x,
                    ;
                assert(tiles@[tile_index(wi, x, yy)] == border_tile(wi, hi, x, yy));
            };
            assert(tiles@ =~= generated_tiles(wi, hi));
        }
        TileMap { width: w, height: h, tiles }
    }
}

} // verus!
