//! Grid coordinates: mapping a point of the plane to the square grid cell
//! containing it, per quadrant, and back to the cell's center.

use vstd::prelude::*;
use vstd::arithmetic::div_mod::{lemma_fundamental_div_mod, lemma_mod_division_less_than_divisor};
use vstd::arithmetic::mul::lemma_mul_is_commutative;

verus! {

/// Settings of the square grid: the side of a cell, in pixels.
pub struct GridSettings {
    pub size: u32,
}

/// A cell of the grid, identified per quadrant: the magnitude of the cell
/// index along each axis and the quadrant signs (+1 or -1).
#[derive(Clone, Copy, PartialEq, Eq, Structural, Debug)]
pub struct GridCoord {
    coord_x: u32,
    coord_y: u32,
    quad_x: i32,
    quad_y: i32,
}

impl GridCoord {
    pub closed spec fn spec_coord_x(&self) -> u32 {
        self.coord_x
    }

    pub closed spec fn spec_coord_y(&self) -> u32 {
        self.coord_y
    }

    pub closed spec fn spec_quad_x(&self) -> i32 {
        self.quad_x
    }

    pub closed spec fn spec_quad_y(&self) -> i32 {
        self.quad_y
    }

    /// The quadrant signs are +1 or -1.
    pub open spec fn wf(&self) -> bool {
        (self.spec_quad_x() == 1 || self.spec_quad_x() == -1) && (self.spec_quad_y() == 1
            || self.spec_quad_y() == -1)
    }

    /// The cell containing a point, from the point's position given per
    /// axis as a whole-pixel magnitude (truncated towards zero) and a sign.
    pub fn from_signed_axes(
        mag_x: u32,
        sign_x: i32,
        mag_y: u32,
        sign_y: i32,
        grid_size: u32,
    ) -> (g: GridCoord)
        requires
            grid_size >= 1,
            sign_x == 1 || sign_x == -1,
            sign_y == 1 || sign_y == -1,
        ensures
            g.wf(),
            g.spec_coord_x() == mag_x as int / grid_size as int,
            g.spec_coord_y() == mag_y as int / grid_size as int,
            g.spec_quad_x() == sign_x,
            g.spec_quad_y() == sign_y,
            g.spec_coord_x() * grid_size <= mag_x,
            g.spec_coord_y() * grid_size <= mag_y,
    {
        proof {
            lemma_fundamental_div_mod(mag_x as int, grid_size as int);
            lemma_mod_division_less_than_divisor(mag_x as int, grid_size as int);
            lemma_mul_is_commutative(grid_size as int, mag_x as int / grid_size as int);
            lemma_fundamental_div_mod(mag_y as int, grid_size as int);
            lemma_mod_division_less_than_divisor(mag_y as int, grid_size as int);
            lemma_mul_is_commutative(grid_size as int, mag_y as int / grid_size as int);
        }
        GridCoord {
            coord_x: mag_x / grid_size,
            coord_y: mag_y / grid_size,
            quad_x: sign_x,
            quad_y: sign_y,
        }
    }

    /// The center of the cell in the plane, doubled (half-pixel units), so
    /// that it is exact also for odd grid sizes: the center sits half a
    /// cell past the cell's inner corner, away from the origin.
    pub fn translation(&self, grid_size: u32) -> (t: (i64, i64))
        requires
            self.wf(),
            grid_size >= 1,
            self.spec_coord_x() * grid_size <= u32::MAX,
            self.spec_coord_y() * grid_size <= u32::MAX,
        ensures
            t.0 == (if self.spec_quad_x() == 1 {
                2 * (self.spec_coord_x() * grid_size) + grid_size
            } else {
                -(2 * (self.spec_coord_x() * grid_size) + grid_size)
            }),
            t.1 == (if self.spec_quad_y() == 1 {
                2 * (self.spec_coord_y() * grid_size) + grid_size
            } else {
                -(2 * (self.spec_coord_y() * grid_size) + grid_size)
            }),
    {
        let sx = (self.coord_x as u64) * (grid_size as u64);
        let sy = (self.coord_y as u64) * (grid_size as u64);
        let hx = 2 * sx + grid_size as u64;
        let hy = 2 * sy + grid_size as u64;
        let tx: i64 = if self.quad_x == 1 {
            hx as i64
        } else {
            -(hx as i64)
        };
        let ty: i64 = if self.quad_y == 1 {
            hy as i64
        } else {
            -(hy as i64)
        };
        (tx, ty)
    }
}

} // verus!
