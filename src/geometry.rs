//! Value types of the world's geometry: positions, displacements, look
//! directions and voxel addresses, all in fixed-point block units.
use vstd::prelude::*;
use crate::fixed::{abs, ceil_sqrt, floor_block, fx_div, is_ceil_sqrt, SCALE, block_index, div_trunc, sqrt_ceil, trunc_div, lemma_ceil_sqrt_bounds_component};

verus! {

/// Largest coordinate magnitude (in fixed-point units) of a valid location.
pub const COORD_MAX: i128 = 1_000_000_000_000_000_000_000_000;

/// Largest component magnitude of a look vector.
pub const LOOK_MAX: i128 = 1_000_000_000_000_000_000;

/// A continuous position in the world.
#[derive(Clone, Copy, Debug, PartialEq, Eq, Structural)]
pub struct Location {
    pub x: i128,
    pub y: i128,
    pub z: i128,
}

/// A relative offset or a velocity (blocks per tick).
#[derive(Clone, Copy, Debug, PartialEq, Eq, Structural)]
pub struct Displacement {
    pub dx: i128,
    pub dy: i128,
    pub dz: i128,
}

/// Where the avatar looks, as a vector; only its ground-plane projection
/// affects movement.
#[derive(Clone, Copy, Debug, PartialEq, Eq, Structural)]
pub struct Direction {
    pub x: i128,
    pub y: i128,
    pub z: i128,
}

/// The integer address of a voxel.
#[derive(Clone, Copy, Debug, PartialEq, Eq, Structural)]
pub struct BlockLocation {
    pub x: i128,
    pub y: i128,
    pub z: i128,
}

impl Location {
    /// Every coordinate lies within `COORD_MAX`.
    pub open spec fn wf(&self) -> bool {
        abs(self.x as int) <= COORD_MAX && abs(self.y as int) <= COORD_MAX && abs(self.z as int)
            <= COORD_MAX
    }

    pub fn new(x: i128, y: i128, z: i128) -> (r: Location)
        ensures
            r == (Location { x, y, z }),
    {
        Location { x, y, z }
    }
}

impl Displacement {
    pub fn new(dx: i128, dy: i128, dz: i128) -> (r: Displacement)
        ensures
            r == (Displacement { dx, dy, dz }),
    {
        Displacement { dx, dy, dz }
    }

    /// The zero displacement.
    pub open spec fn zero() -> Displacement {
        Displacement { dx: 0, dy: 0, dz: 0 }
    }
}

impl Direction {
    /// Every component lies within `LOOK_MAX`.
    pub open spec fn wf(&self) -> bool {
        abs(self.x as int) <= LOOK_MAX && abs(self.y as int) <= LOOK_MAX && abs(self.z as int)
            <= LOOK_MAX
    }

    /// The length of the ground-plane projection, rounded up.
    pub open spec fn horizontal_len(&self) -> int {
        ceil_sqrt(self.x * self.x + self.z * self.z)
    }

    /// The ground-plane unit vector of this direction.
    pub open spec fn spec_horizontal_unit(&self) -> Displacement {
        self.unit_with_len(self.horizontal_len())
    }

    /// The ground-plane unit vector given the projection's length `len`
    /// (zero when the direction is vertical).
    pub open spec fn unit_with_len(&self, len: int) -> Displacement {
        if len == 0 {
            Displacement::zero()
        } else {
            Displacement {
                dx: fx_div(self.x as int, len) as i128,
                dy: 0,
                dz: fx_div(self.z as int, len) as i128,
            }
        }
    }

    /// The look direction projected onto the ground plane and scaled to unit
    /// length; zero when looking straight up or down.
    pub fn horizontal_unit(&self) -> (r: Displacement)
        requires
            self.wf(),
        ensures
            r == self.spec_horizontal_unit(),
            abs(r.dx as int) <= SCALE,
            abs(r.dz as int) <= SCALE,
            r.dy == 0,
    {
        proof {
            assert(0 <= self.x * self.x <= LOOK_MAX * LOOK_MAX) by (nonlinear_arith)
                requires abs(self.x as int) <= LOOK_MAX;
            assert(0 <= self.z * self.z <= LOOK_MAX * LOOK_MAX) by (nonlinear_arith)
                requires abs(self.z as int) <= LOOK_MAX;
        }
        let x2: u128 = (self.x * self.x) as u128;
        let z2: u128 = (self.z * self.z) as u128;
        let len: u128 = sqrt_ceil(x2 + z2);
        let ghost glen = len as int;
        if len == 0 {
            return Displacement { dx: 0, dy: 0, dz: 0 };
        }
        proof {
            lemma_ceil_sqrt_bounds_component(self.x as int, self.z as int, glen);
            lemma_ceil_sqrt_bounds_component(self.z as int, self.x as int, glen);
            assert(glen <= 2 * LOOK_MAX) by (nonlinear_arith)
                requires is_ceil_sqrt(glen, self.x * self.x + self.z * self.z),
                    self.x * self.x <= LOOK_MAX * LOOK_MAX, self.z * self.z <= LOOK_MAX * LOOK_MAX;
            crate::fixed::lemma_trunc_div_bound(self.x * SCALE, glen);
            crate::fixed::lemma_trunc_div_bound(self.z * SCALE, glen);
            assert(abs(trunc_div(self.x * SCALE, glen)) <= SCALE) by (nonlinear_arith)
                requires abs(trunc_div(self.x * SCALE, glen)) * glen <= abs(self.x * SCALE),
                    abs(self.x as int) <= glen, glen > 0;
            assert(abs(trunc_div(self.z * SCALE, glen)) <= SCALE) by (nonlinear_arith)
                requires abs(trunc_div(self.z * SCALE, glen)) * glen <= abs(self.z * SCALE),
                    abs(self.z as int) <= glen, glen > 0;
        }
        let l: i128 = len as i128;
        let dx: i128 = div_trunc(self.x * SCALE, l);
        let dz: i128 = div_trunc(self.z * SCALE, l);
        Displacement { dx, dy: 0, dz }
    }
}

impl BlockLocation {
    /// The voxel containing `loc`: each coordinate floored to a whole block.
    pub open spec fn spec_from(loc: Location) -> BlockLocation {
        BlockLocation {
            x: floor_block(loc.x as int) as i128,
            y: floor_block(loc.y as int) as i128,
            z: floor_block(loc.z as int) as i128,
        }
    }

    /// The voxel containing `loc`.
    pub fn from_location(loc: Location) -> (r: BlockLocation)
        ensures
            r == Self::spec_from(loc),
    {
        BlockLocation { x: block_index(loc.x), y: block_index(loc.y), z: block_index(loc.z) }
    }
}

} // verus!
