//! A level: an ordered collection of bricks built from a grid of tiles.
//!
//! A tile value of `0` leaves a gap, `1` places an indestructible (solid)
//! brick, and anything larger places a breakable brick whose value selects
//! a tint.  The bricks tile the given pixel region: each brick is
//! `region / tile count` per axis (rounded down onto the milli-pixel grid).

use vstd::prelude::*;

use crate::arith::DIM_LIMIT;
use crate::game_object::{vec2, Color, GameObject, Vec2};

verus! {

/// Why a tile grid was rejected.
#[derive(Clone, Copy, PartialEq, Eq, Structural, Debug)]
pub enum LevelError {
    /// The grid has no rows, or its rows have no tiles.
    EmptyGrid,
    /// Not all rows have the same length.
    RaggedRows,
    /// More tiles per axis than milli-pixels, so a brick would have no
    /// extent.
    DegenerateTile,
}

/// The sequence-of-sequences view of a tile grid.
pub open spec fn grid_view(g: Vec<Vec<u32>>) -> Seq<Seq<u32>> {
    g@.map(|i: int, r: Vec<u32>| r@)
}

/// A grid is rectangular and non-empty.
pub open spec fn grid_ok(g: Seq<Seq<u32>>) -> bool {
    &&& g.len() > 0
    &&& g[0].len() > 0
    &&& forall|i: int| 0 <= i < g.len() ==> (#[trigger] g[i]).len() == g[0].len()
}

/// The tint a tile value selects.  Solid bricks are a fixed grey; breakable
/// values 2 through 5 pick blue, green, yellow and orange; anything else is
/// white.
pub open spec fn brick_color(v: u32) -> Color {
    if v == 1 {
        Color { r: 800, g: 800, b: 700 }
    } else if v == 2 {
        Color { r: 200, g: 600, b: 1000 }
    } else if v == 3 {
        Color { r: 0, g: 700, b: 0 }
    } else if v == 4 {
        Color { r: 800, g: 800, b: 400 }
    } else if v == 5 {
        Color { r: 1000, g: 500, b: 0 }
    } else {
        Color { r: 1000, g: 1000, b: 1000 }
    }
}

/// The brick a non-empty tile produces: placed on the tile grid, solid
/// exactly for value 1, motionless, not destroyed.
pub open spec fn brick_at(
    v: u32,
    x: int,
    y: int,
    uw: int,
    uh: int,
    solid_sprite: usize,
    block_sprite: usize,
) -> GameObject {
    GameObject {
        position: vec2(x * uw, y * uh),
        size: vec2(uw, uh),
        velocity: Vec2 { x: 0, y: 0 },
        sprite: if v == 1 {
            solid_sprite
        } else {
            block_sprite
        },
        color: brick_color(v),
        is_solid: v == 1,
        destroyed: false,
    }
}

/// The bricks one tile contributes: none for an empty tile, one otherwise.
pub open spec fn tile_bricks(
    v: u32,
    x: int,
    y: int,
    uw: int,
    uh: int,
    solid_sprite: usize,
    block_sprite: usize,
) -> Seq<GameObject> {
    if v == 0 {
        Seq::empty()
    } else {
        seq![brick_at(v, x, y, uw, uh, solid_sprite, block_sprite)]
    }
}

/// The bricks contributed by the first `n` tiles of row `y`.
pub open spec fn row_bricks(
    row: Seq<u32>,
    y: int,
    uw: int,
    uh: int,
    solid_sprite: usize,
    block_sprite: usize,
    n: int,
) -> Seq<GameObject>
    decreases n,
{
    if n <= 0 {
        Seq::empty()
    } else {
        row_bricks(row, y, uw, uh, solid_sprite, block_sprite, n - 1) + tile_bricks(
            row[n - 1],
            n - 1,
            y,
            uw,
            uh,
            solid_sprite,
            block_sprite,
        )
    }
}

/// The bricks contributed by the first `m` rows of the grid, in row-major
/// storage order.
pub open spec fn grid_bricks(
    g: Seq<Seq<u32>>,
    uw: int,
    uh: int,
    solid_sprite: usize,
    block_sprite: usize,
    m: int,
) -> Seq<GameObject>
    decreases m,
{
    if m <= 0 {
        Seq::empty()
    } else {
        grid_bricks(g, uw, uh, solid_sprite, block_sprite, m - 1) + row_bricks(
            g[m - 1],
            m - 1,
            uw,
            uh,
            solid_sprite,
            block_sprite,
            g[m - 1].len() as int,
        )
    }
}

/// A level: the live bricks, and the bricks as freshly built, kept as the
/// template from which a full reset rebuilds the level wholesale.
#[derive(Debug)]
pub struct GameLevel {
    pub bricks: Vec<GameObject>,
    pub initial_bricks: Vec<GameObject>,
}

impl GameLevel {
    /// Every brick, live or in the template, lies inside the level region.
    pub open spec fn wf(self) -> bool {
        &&& forall|i: int| 0 <= i < self.bricks@.len() ==> self.bricks@[i].brick_wf()
        &&& forall|i: int| 0 <= i < self.initial_bricks@.len()
            ==> self.initial_bricks@[i].brick_wf()
    }

    /// An empty level.
    pub fn new() -> (r: GameLevel)
        ensures
            r.bricks@ == Seq::<GameObject>::empty(),
            r.initial_bricks@ == Seq::<GameObject>::empty(),
            r.wf(),
    {
        GameLevel { bricks: Vec::new(), initial_bricks: Vec::new() }
    }

    /// Build the level's bricks from a tile grid filling the given pixel
    /// region.  A malformed grid (empty, ragged, or finer than the
    /// milli-pixel grid) is a load error: nothing is built and the level is
    /// unchanged.
    pub fn load(
        &mut self,
        tile_data: &Vec<Vec<u32>>,
        level_width: i64,
        level_height: i64,
        solid_sprite: usize,
        block_sprite: usize,
    ) -> (res: Result<(), LevelError>)
        requires
            1 <= level_width <= DIM_LIMIT,
            1 <= level_height <= DIM_LIMIT,
        ensures
            ({
                let g = grid_view(*tile_data);
                let uw = level_width as int / g[0].len() as int;
                let uh = level_height as int / g.len() as int;
                match res {
                    Ok(()) => {
                        &&& grid_ok(g)
                        &&& uw >= 1
                        &&& uh >= 1
                        &&& final(self).bricks@ == grid_bricks(
                            g,
                            uw,
                            uh,
                            solid_sprite,
                            block_sprite,
                            g.len() as int,
                        )
                        &&& final(self).initial_bricks@ == final(self).bricks@
                        &&& final(self).wf()
                    },
                    Err(LevelError::EmptyGrid) => {
                        &&& (g.len() == 0 || g[0].len() == 0)
                        &&& *final(self) == *old(self)
                    },
                    Err(LevelError::RaggedRows) => {
                        &&& g.len() > 0
                        &&& g[0].len() > 0
                        &&& !grid_ok(g)
                        &&& *final(self) == *old(self)
                    },
                    Err(LevelError::DegenerateTile) => {
                        &&& grid_ok(g)
                        &&& (uw == 0 || uh == 0)
                        &&& *final(self) == *old(self)
                    },
                }
            }),
    {
        let rows = tile_data.len();
        if rows == 0 {
            return Err(LevelError::EmptyGrid);
        }
        let cols = tile_data[0].len();
        if cols == 0 {
            return Err(LevelError::EmptyGrid);
        }
        let mut i: usize = 1;
        while i < rows
            invariant
                1 <= i <= rows,
                rows == tile_data@.len(),
                0 < cols == grid_view(*tile_data)[0].len(),
                forall|j: int| 0 <= j < i ==> (#[trigger] grid_view(*tile_data)[j]).len() == cols,
            decreases rows - i,
        {
            if tile_data[i].len() != cols {
                proof {
                    let g = grid_view(*tile_data);
                    assert(g[i as int] == tile_data@[i as int]@);
                    assert(g[i as int].len() != g[0].len());
                }
                return Err(LevelError::RaggedRows);
            }
            i = i + 1;
        }
        assert(grid_ok(grid_view(*tile_data)));
        if cols > level_width as usize || rows > level_height as usize {
            proof {
                let g = grid_view(*tile_data);
                if cols > level_width as usize {
                    vstd::arithmetic::div_mod::lemma_basic_div(
                        level_width as int,
                        g[0].len() as int,
                    );
                } else {
                    vstd::arithmetic::div_mod::lemma_basic_div(level_height as int, g.len() as int);
                }
            }
            return Err(LevelError::DegenerateTile);
        }
        let uw = ((level_width as u64) / (cols as u64)) as i64;
        let uh = ((level_height as u64) / (rows as u64)) as i64;
        proof {
            vstd::arithmetic::div_mod::lemma_div_pos_is_pos(level_width as int, cols as int);
            vstd::arithmetic::div_mod::lemma_div_pos_is_pos(level_height as int, rows as int);
            vstd::arithmetic::div_mod::lemma_div_non_zero(level_width as int, cols as int);
            vstd::arithmetic::div_mod::lemma_div_non_zero(level_height as int, rows as int);
            vstd::arithmetic::div_mod::lemma_div_is_ordered_by_denominator(
                level_width as int,
                1,
                cols as int,
            );
            vstd::arithmetic::div_mod::lemma_div_is_ordered_by_denominator(
                level_height as int,
                1,
                rows as int,
            );
        }
        let ghost g = grid_view(*tile_data);
        let mut bricks: Vec<GameObject> = Vec::new();
        let mut y: usize = 0;
        while y < rows
            invariant
                0 <= y <= rows,
                rows == g.len(),
                g == grid_view(*tile_data),
                grid_ok(g),
                cols == g[0].len(),
                cols <= level_width,
                rows <= level_height,
                1 <= level_width <= DIM_LIMIT,
                1 <= level_height <= DIM_LIMIT,
                1 <= uw,
                uw == level_width as int / cols as int,
                1 <= uh,
                uh == level_height as int / rows as int,
                bricks@ == grid_bricks(g, uw as int, uh as int, solid_sprite, block_sprite, y as int),
                forall|k: int| 0 <= k < bricks@.len() ==> bricks@[k].brick_wf(),
            decreases rows - y,
        {
            let row = &tile_data[y];
            assert(row@ == g[y as int]);
            let mut x: usize = 0;
            while x < cols
                invariant
                    0 <= x <= cols,
                    rows == g.len(),
                    g == grid_view(*tile_data),
                    grid_ok(g),
                    cols == g[0].len(),
                    cols <= level_width,
                    rows <= level_height,
                    1 <= level_width <= DIM_LIMIT,
                    1 <= level_height <= DIM_LIMIT,
                    1 <= uw,
                    uw == level_width as int / cols as int,
                    1 <= uh,
                    uh == level_height as int / rows as int,
                    0 <= y < rows,
                    row@ == g[y as int],
                    bricks@ == grid_bricks(g, uw as int, uh as int, solid_sprite, block_sprite, y as int)
                        + row_bricks(
                        g[y as int],
                        y as int,
                        uw as int,
                        uh as int,
                        solid_sprite,
                        block_sprite,
                        x as int,
                    ),
                    forall|k: int| 0 <= k < bricks@.len() ==> bricks@[k].brick_wf(),
                decreases cols - x,
            {
                let v = row[x];
                if v != 0 {
                    proof {
                        lemma_tile_fits(x as int, cols as int, level_width as int);
                        lemma_tile_fits(y as int, rows as int, level_height as int);
                    }
                    let px = (x as i64) * uw;
                    let py = (y as i64) * uh;
                    let color = if v == 1 {
                        Color { r: 800, g: 800, b: 700 }
                    } else if v == 2 {
                        Color { r: 200, g: 600, b: 1000 }
                    } else if v == 3 {
                        Color { r: 0, g: 700, b: 0 }
                    } else if v == 4 {
                        Color { r: 800, g: 800, b: 400 }
                    } else if v == 5 {
                        Color { r: 1000, g: 500, b: 0 }
                    } else {
                        Color { r: 1000, g: 1000, b: 1000 }
                    };
                    let sprite = if v == 1 {
                        solid_sprite
                    } else {
                        block_sprite
                    };
                    let mut brick = GameObject::new(
                        Vec2 { x: px, y: py },
                        Vec2 { x: uw, y: uh },
                        Vec2 { x: 0, y: 0 },
                        sprite,
                        color,
                    );
                    if v == 1 {
                        brick.is_solid = true;
                    }
                    assert(brick == brick_at(
                        v,
                        x as int,
                        y as int,
                        uw as int,
                        uh as int,
                        solid_sprite,
                        block_sprite,
                    ));
                    bricks.push(brick);
                }
                x = x + 1;
            }
            y = y + 1;
        }
        let mut template: Vec<GameObject> = Vec::new();
        let mut k: usize = 0;
        while k < bricks.len()
            invariant
                0 <= k <= bricks@.len(),
                template@ == bricks@.subrange(0, k as int),
            decreases bricks@.len() - k,
        {
            template.push(bricks[k]);
            k = k + 1;
        }
        assert(template@ == bricks@);
        self.bricks = bricks;
        self.initial_bricks = template;
        Ok(())
    }

    /// Replace the live bricks wholesale with the freshly-built template:
    /// every brick is restored, destroyed flags cleared.
    pub fn reset(&mut self)
        ensures
            final(self).bricks@ == old(self).initial_bricks@,
            final(self).initial_bricks@ == old(self).initial_bricks@,
            old(self).wf() ==> final(self).wf(),
    {
        let mut fresh: Vec<GameObject> = Vec::new();
        let mut k: usize = 0;
        while k < self.initial_bricks.len()
            invariant
                0 <= k <= self.initial_bricks@.len(),
                fresh@ == self.initial_bricks@.subrange(0, k as int),
            decreases self.initial_bricks@.len() - k,
        {
            fresh.push(self.initial_bricks[k]);
            k = k + 1;
        }
        assert(fresh@ == self.initial_bricks@);
        self.bricks = fresh;
    }
}

/// A tile index times the tile extent stays inside the region:
/// `x * (w / cols) + (w / cols) <= w` for `0 <= x < cols`.
proof fn lemma_tile_fits(x: int, cols: int, w: int)
    requires
        0 <= x < cols,
        1 <= w,
    ensures
        0 <= x * (w / cols),
        x * (w / cols) + (w / cols) <= w,
{
    let u = w / cols;
    vstd::arithmetic::div_mod::lemma_div_pos_is_pos(w, cols);
    vstd::arithmetic::mul::lemma_mul_nonnegative(x, u);
    assert(x * u + u == (x + 1) * u) by (nonlinear_arith);
    vstd::arithmetic::mul::lemma_mul_inequality(x + 1, cols, u);
    vstd::arithmetic::div_mod::lemma_fundamental_div_mod(w, cols);
    vstd::arithmetic::div_mod::lemma_mod_bound(w, cols);
    assert(cols * u <= w);
    assert((x + 1) * u <= cols * u) by {
        vstd::arithmetic::mul::lemma_mul_is_commutative(x + 1, u);
        vstd::arithmetic::mul::lemma_mul_is_commutative(cols, u);
    }
}

} // verus!
