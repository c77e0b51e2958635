//! Positions: block and chunk coordinates, and points in the world.

use crate::ieee754::{double_unit, Double, Single};
use vstd::arithmetic::div_mod::{lemma_fundamental_div_mod, lemma_mod_bound};
use vstd::arithmetic::power2::lemma_pow2_pos;
use vstd::prelude::*;

verus! {

/// A point in the world.
#[derive(Clone, Copy, Debug, PartialEq, Eq, Structural)]
pub struct Vec3 {
    /// East.
    pub x: Double,
    /// Up.
    pub y: Double,
    /// South.
    pub z: Double,
}

/// A direction of view, in degrees.
#[derive(Clone, Copy, Debug, PartialEq, Eq, Structural)]
pub struct Rotation {
    /// The horizontal angle.
    pub yaw: Single,
    /// The vertical angle.
    pub pitch: Single,
}

/// The coordinates of one block.
#[derive(Clone, Copy, Debug, PartialEq, Eq, Structural)]
pub struct BlockPos {
    /// East.
    pub x: i32,
    /// Up.
    pub y: i32,
    /// South.
    pub z: i32,
}

/// The coordinates of one chunk column.
#[derive(Clone, Copy, Debug, PartialEq, Eq, Structural)]
pub struct ChunkPos {
    /// East, in chunks.
    pub x: i32,
    /// South, in chunks.
    pub z: i32,
}

impl Vec3 {
    /// The block that the point lies in: its coordinates rounded down, as far as block
    /// coordinates reach.
    pub open spec fn block(self) -> BlockPos {
        BlockPos {
            x: self.x.floor_clamped() as i32,
            y: self.y.floor_clamped() as i32,
            z: self.z.floor_clamped() as i32,
        }
    }
}

impl BlockPos {
    /// The chunk column that the block lies in.
    pub open spec fn column(self) -> ChunkPos {
        ChunkPos { x: (self.x as int / 16) as i32, z: (self.z as int / 16) as i32 }
    }

    /// The chunk column that the block lies in.
    pub fn chunk(self) -> (r: ChunkPos)
        ensures
            r == self.column(),
            r.x as int == self.x as int / 16,
            r.z as int == self.z as int / 16,
    {
        ChunkPos { x: floor_sixteenth(self.x), z: floor_sixteenth(self.z) }
    }
}

fn floor_sixteenth(n: i32) -> (r: i32)
    ensures
        r as int == n as int / 16,
{
    if n >= 0 {
        n / 16
    } else {
        let up: i32 = -(n + 1);
        -(up / 16) - 1
    }
}

/// The block that a point lies in; a coordinate beyond the range of a block coordinate
/// is kept at its end.
pub fn block_of(position: Vec3) -> (r: BlockPos)
    ensures
        r == position.block(),
{
    BlockPos {
        x: position.x.floor_i32(),
        y: position.y.floor_i32(),
        z: position.z.floor_i32(),
    }
}

/// The chunk column that a point lies in.
pub fn chunk_of(position: Vec3) -> (r: ChunkPos)
    ensures
        r == position.block().column(),
{
    block_of(position).chunk()
}

/// A point lies in its block: along each axis it is not before the block's coordinate, and
/// before the next, wherever block coordinates reach.
pub proof fn points_lie_in_their_block(position: Vec3)
    requires
        position.x.within(-30_000_000, 30_000_000),
        position.y.within(-30_000_000, 30_000_000),
        position.z.within(-30_000_000, 30_000_000),
    ensures
        ({
            let block = position.block();
            let unit = double_unit() as int;
            &&& block.x * unit <= position.x.numerator() < (block.x + 1) * unit
            &&& block.y * unit <= position.y.numerator() < (block.y + 1) * unit
            &&& block.z * unit <= position.z.numerator() < (block.z + 1) * unit
        }),
{
    coordinate_lies_in_its_block(position.x);
    coordinate_lies_in_its_block(position.y);
    coordinate_lies_in_its_block(position.z);
}

proof fn coordinate_lies_in_its_block(value: Double)
    requires
        value.within(-30_000_000, 30_000_000),
    ensures
        ({
            let floor = value.floor_clamped() as i32;
            let unit = double_unit() as int;
            floor * unit <= value.numerator() < (floor + 1) * unit
        }),
{
    let n = value.numerator();
    let unit = double_unit() as int;
    let q = value.floor();
    lemma_pow2_pos(1074);
    lemma_fundamental_div_mod(n, unit);
    lemma_mod_bound(n, unit);
    assert(q * unit <= n < (q + 1) * unit && -30_000_001 < q < 30_000_001) by (nonlinear_arith)
        requires
            n == unit * q + n % unit,
            0 <= n % unit < unit,
            -30_000_000 * unit <= n <= 30_000_000 * unit,
    ;
}

/// A block lies in its column: columns are sixteen blocks wide along both axes, east and
/// south, and its height does not matter.
pub proof fn blocks_lie_in_their_column(block: BlockPos, other: BlockPos)
    ensures
        16 * block.column().x <= block.x < 16 * block.column().x + 16,
        16 * block.column().z <= block.z < 16 * block.column().z + 16,
        block.x == other.x && block.z == other.z ==> block.column() == other.column(),
{
}

} // verus!
