//! Arena dimensions and global simulation limits, in fixed-point units.

use vstd::prelude::*;

verus! {

/// Full map width in milli-units (3200 world units).
pub const MAP_WIDTH_MU: i64 = 3_200_000;

/// Full map height in milli-units.
pub const MAP_HEIGHT_MU: i64 = 3_200_000;

/// Width of the walkable interior in milli-units (2560 world units).
pub const MAP_MOVABLE_WIDTH_MU: i64 = 2_560_000;

/// Height of the walkable interior in milli-units.
pub const MAP_MOVABLE_HEIGHT_MU: i64 = 2_560_000;

/// Player sprite extent in milli-units; arena clamping shrinks the walkable
/// interior by half of these so the sprite never crosses the wall.
pub const PLAYER_WIDTH_MU: i64 = 23_000;

pub const PLAYER_HEIGHT_MU: i64 = 36_000;

/// Largest speed the simulation accepts, in world units per second.
pub const MAX_SPEED: u32 = 10_000;

/// Largest frame delta the simulation accepts, in milliseconds.
pub const MAX_FRAME_MS: u32 = 10_000;

/// Bound on any entity coordinate, in milli-units.  Enemies spawn inside the
/// map and pursue the player, projectiles originate inside the map and live
/// at most `PROJECTILE_LIFETIME_MS`, so every coordinate stays far below
/// this; it keeps all squared distances inside `i64`.
pub const POS_LIMIT_MU: i64 = 1_000_000_000;

/// A position inside the full map.
pub open spec fn in_map(p: crate::sprite::Vec2i) -> bool {
    &&& -MAP_WIDTH_MU / 2 <= p.x <= MAP_WIDTH_MU / 2
    &&& -MAP_HEIGHT_MU / 2 <= p.y <= MAP_HEIGHT_MU / 2
}

/// A position the simulation can hold without arithmetic overflow.
pub open spec fn pos_bounded(p: crate::sprite::Vec2i) -> bool {
    &&& -POS_LIMIT_MU <= p.x <= POS_LIMIT_MU
    &&& -POS_LIMIT_MU <= p.y <= POS_LIMIT_MU
}

/// Bound on an enemy coordinate, in milli-units: enemies spawn inside the
/// map and pursue the player, overshooting by at most one frame step.
pub const ENTITY_POS_LIMIT_MU: i64 = 200_000_000;

/// A position within the enemy coordinate bound.
pub open spec fn entity_pos_bounded(p: crate::sprite::Vec2i) -> bool {
    &&& -ENTITY_POS_LIMIT_MU <= p.x <= ENTITY_POS_LIMIT_MU
    &&& -ENTITY_POS_LIMIT_MU <= p.y <= ENTITY_POS_LIMIT_MU
}

} // verus!
