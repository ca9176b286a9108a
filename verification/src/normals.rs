//! Face normals of the generated meshes, before unit normalization.
//!
//! The direction of a triangle's normal — the cross product of its edge
//! vectors — is exact integer work and is computed and verified here.
//! Dividing by the Euclidean length to reach unit magnitude is
//! floating-point work that stays with the rendering side.

use vstd::prelude::*;
use crate::terrain::Vertex;

verus! {

/// Bound on every coordinate fed to the normal computation, so that the
/// cross products cannot overflow an `i64`.
pub const COORD_BOUND: i64 = 1_000_000_000;

/// Whether every coordinate of `v` is within `COORD_BOUND`.
pub open spec fn in_bounds(v: Vertex) -> bool {
    &&& -COORD_BOUND <= v.x <= COORD_BOUND
    &&& -COORD_BOUND <= v.y <= COORD_BOUND
    &&& -COORD_BOUND <= v.z <= COORD_BOUND
}

/// The cross product `(b - a) x (c - a)`, componentwise: the unnormalized
/// normal direction of the triangle `a`, `b`, `c`.
pub open spec fn face_normal_spec(a: Vertex, b: Vertex, c: Vertex) -> (int, int, int) {
    let ux = b.x - a.x;
    let uy = b.y - a.y;
    let uz = b.z - a.z;
    let vx = c.x - a.x;
    let vy = c.y - a.y;
    let vz = c.z - a.z;
    (uy * vz - uz * vy, uz * vx - ux * vz, ux * vy - uy * vx)
}

/// Computes the unnormalized face normal of one triangle.
pub fn face_normal(a: &Vertex, b: &Vertex, c: &Vertex) -> (n: Vertex)
    requires
        in_bounds(*a),
        in_bounds(*b),
        in_bounds(*c),
    ensures
        n.x == face_normal_spec(*a, *b, *c).0,
        n.y == face_normal_spec(*a, *b, *c).1,
        n.z == face_normal_spec(*a, *b, *c).2,
{
    let ux: i64 = b.x - a.x;
    let uy: i64 = b.y - a.y;
    let uz: i64 = b.z - a.z;
    let vx: i64 = c.x - a.x;
    let vy: i64 = c.y - a.y;
    let vz: i64 = c.z - a.z;
    proof {
        assert(-4_000_000_000_000_000_000 <= uy * vz <= 4_000_000_000_000_000_000
            && -4_000_000_000_000_000_000 <= uz * vy <= 4_000_000_000_000_000_000
            && -4_000_000_000_000_000_000 <= uz * vx <= 4_000_000_000_000_000_000
            && -4_000_000_000_000_000_000 <= ux * vz <= 4_000_000_000_000_000_000
            && -4_000_000_000_000_000_000 <= ux * vy <= 4_000_000_000_000_000_000
            && -4_000_000_000_000_000_000 <= uy * vx <= 4_000_000_000_000_000_000)
            by (nonlinear_arith)
            requires
                -2_000_000_000 <= ux <= 2_000_000_000,
                -2_000_000_000 <= uy <= 2_000_000_000,
                -2_000_000_000 <= uz <= 2_000_000_000,
                -2_000_000_000 <= vx <= 2_000_000_000,
                -2_000_000_000 <= vy <= 2_000_000_000,
                -2_000_000_000 <= vz <= 2_000_000_000,
        ;
    }
    Vertex { x: uy * vz - uz * vy, y: uz * vx - ux * vz, z: ux * vy - uy * vx }
}

} // verus!
