//! The flat planar grid the generator starts from: a centred, row-major
//! `side x side` lattice of vertices at elevation zero, with `side =
//! subdivisions + 2` (zero subdivisions still give one quad).

use vstd::prelude::*;
use vstd::arithmetic::div_mod::{
    lemma_div_nonincreasing, lemma_fundamental_div_mod, lemma_fundamental_div_mod_converse,
    lemma_mod_division_less_than_divisor,
};
use vstd::arithmetic::div_mod::lemma_div_pos_is_pos;
use vstd::arithmetic::mul::{
    lemma_mul_inequality, lemma_mul_is_distributive_add_other_way, lemma_mul_nonnegative,
};
use crate::config::{MAX_GRID_SIZE, MAX_SUBDIVISIONS};
use crate::terrain::{Vertex, MAX_VERTICES};

verus! {

/// Number of vertices along one side of the grid.
pub open spec fn grid_side(subdivisions: u32) -> int {
    subdivisions + 2
}

/// The spacing between neighbouring vertices, in millionths (truncating).
pub open spec fn grid_step(grid_size: int, subdivisions: u32) -> int {
    grid_size / (grid_side(subdivisions) - 1)
}

/// Half the grid size: the grid is centred on the origin.
pub open spec fn grid_half(grid_size: int) -> int {
    grid_size / 2
}

/// The vertex at flat index `i` of the row-major grid: row `i / side` runs
/// along `z`, column `i % side` along `x`, elevation zero.
pub open spec fn grid_vertex_at(grid_size: int, subdivisions: u32, i: int) -> Vertex {
    let side = grid_side(subdivisions);
    let step = grid_step(grid_size, subdivisions);
    let half = grid_half(grid_size);
    Vertex { x: ((i % side) * step - half) as i64, y: 0, z: ((i / side) * step - half) as i64 }
}

/// Builds the vertex positions of the flat planar grid, row-major, with
/// every coordinate within the grid size and every elevation zero.
pub fn grid_positions(grid_size: i64, subdivisions: u32) -> (vs: Vec<Vertex>)
    requires
        0 < grid_size <= MAX_GRID_SIZE,
        subdivisions <= MAX_SUBDIVISIONS,
    ensures
        vs@.len() == grid_side(subdivisions) * grid_side(subdivisions),
        vs@.len() <= MAX_VERTICES,
        forall|i: int|
            0 <= i < vs@.len() ==> #[trigger] vs@[i] == grid_vertex_at(
                grid_size as int,
                subdivisions,
                i,
            ),
        forall|i: int|
            0 <= i < vs@.len() ==> -MAX_GRID_SIZE <= (#[trigger] vs@[i]).x <= MAX_GRID_SIZE
                && vs@[i].y == 0 && -MAX_GRID_SIZE <= vs@[i].z <= MAX_GRID_SIZE,
{
    let side: u32 = subdivisions + 2;
    let side_us: usize = side as usize;
    let step: i64 = ((grid_size as u64) / ((side - 1) as u64)) as i64;
    let half: i64 = ((grid_size as u64) / 2u64) as i64;
    proof {
        lemma_div_nonincreasing(grid_size as int, side - 1);
        lemma_div_nonincreasing(grid_size as int, 2);
        lemma_div_pos_is_pos(grid_size as int, side - 1);
        lemma_div_pos_is_pos(grid_size as int, 2);
        lemma_fundamental_div_mod(grid_size as int, side - 1);
        lemma_mod_division_less_than_divisor(grid_size as int, side - 1);
    }
    let mut vs: Vec<Vertex> = Vec::new();
    let mut r: usize = 0;
    while r < side_us
        invariant
            side == subdivisions + 2,
            side_us == side,
            subdivisions <= MAX_SUBDIVISIONS,
            0 < grid_size <= MAX_GRID_SIZE,
            step == grid_step(grid_size as int, subdivisions),
            0 <= step <= grid_size,
            (side - 1) * step <= grid_size,
            half == grid_half(grid_size as int),
            0 <= half <= grid_size,
            r <= side_us,
            vs@.len() == r * side,
            forall|i: int|
                0 <= i < vs@.len() ==> #[trigger] vs@[i] == grid_vertex_at(
                    grid_size as int,
                    subdivisions,
                    i,
                ),
            forall|i: int|
                0 <= i < vs@.len() ==> -MAX_GRID_SIZE <= (#[trigger] vs@[i]).x <= MAX_GRID_SIZE
                    && vs@[i].y == 0 && -MAX_GRID_SIZE <= vs@[i].z <= MAX_GRID_SIZE,
        decreases side_us - r,
    {
        let mut c: usize = 0;
        while c < side_us
            invariant
                side == subdivisions + 2,
                side_us == side,
                subdivisions <= MAX_SUBDIVISIONS,
                0 < grid_size <= MAX_GRID_SIZE,
                step == grid_step(grid_size as int, subdivisions),
                0 <= step <= grid_size,
                (side - 1) * step <= grid_size,
                half == grid_half(grid_size as int),
                0 <= half <= grid_size,
                r < side_us,
                c <= side_us,
                vs@.len() == r * side + c,
                forall|i: int|
                    0 <= i < vs@.len() ==> #[trigger] vs@[i] == grid_vertex_at(
                        grid_size as int,
                        subdivisions,
                        i,
                    ),
                forall|i: int|
                    0 <= i < vs@.len() ==> -MAX_GRID_SIZE <= (#[trigger] vs@[i]).x
                        <= MAX_GRID_SIZE && vs@[i].y == 0 && -MAX_GRID_SIZE <= vs@[i].z
                        <= MAX_GRID_SIZE,
            decreases side_us - c,
        {
            proof {
                lemma_mul_nonnegative(c as int, step as int);
                lemma_mul_nonnegative(r as int, step as int);
                lemma_mul_inequality(c as int, side - 1, step as int);
                lemma_mul_inequality(r as int, side - 1, step as int);
            }
            let x: i64 = (c as i64) * step - half;
            let z: i64 = (r as i64) * step - half;
            vs.push(Vertex { x, y: 0, z });
            proof {
                lemma_fundamental_div_mod_converse(
                    r as int * (side as int) + c as int,
                    side as int,
                    r as int,
                    c as int,
                );
            }
            c = c + 1;
        }
        proof {
            lemma_mul_is_distributive_add_other_way(side as int, r as int, 1);
        }
        r = r + 1;
    }
    proof {
        assert(side * side <= 1_000_000_000) by (nonlinear_arith)
            requires
                0 < side <= 31_622,
        ;
    }
    vs
}

} // verus!
