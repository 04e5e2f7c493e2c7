//! Shared motion and animation state: fixed-point 2D vectors, the eight-way
//! facing, the `Movable` bundle carried by player, enemies and projectiles,
//! animation index ranges, and health/damage components.

use vstd::prelude::*;

use crate::timer::Timer;

verus! {

/// Components of a compass or custom direction vector, in milli-units:
/// a compass axis contributes 1000 per component.
pub const DIR_UNIT_MU: i64 = 1000;

/// A 2D point or vector in milli-units (one thousandth of a world unit).
#[derive(Clone, Copy, PartialEq, Eq, Structural, Debug)]
pub struct Vec2i {
    pub x: i64,
    pub y: i64,
}

impl Vec2i {
    /// Squared Euclidean distance between two points, in milli-units squared.
    pub open spec fn dist2(self, other: Vec2i) -> int {
        (self.x - other.x) * (self.x - other.x) + (self.y - other.y) * (self.y - other.y)
    }

    /// Squared Euclidean distance, computed without overflow for bounded
    /// positions.
    pub fn distance_squared(self, other: Vec2i) -> (r: i64)
        requires
            crate::level::pos_bounded(self),
            crate::level::pos_bounded(other),
        ensures
            r == self.dist2(other),
            0 <= r <= 8_000_000_000_000_000_000,
    {
        let dx: i64 = self.x - other.x;
        let dy: i64 = self.y - other.y;
        proof {
            assert(0 <= dx * dx <= 4_000_000_000_000_000_000
                && 0 <= dy * dy <= 4_000_000_000_000_000_000) by (nonlinear_arith)
                requires
                    -2_000_000_000 <= dx <= 2_000_000_000,
                    -2_000_000_000 <= dy <= 2_000_000_000,
            ;
        }
        dx * dx + dy * dy
    }
}

/// Current facing: one of the eight compass directions, or an arbitrary
/// direction vector (used by aimed and homing projectiles) whose components
/// are bounded by one axis unit.
#[derive(Clone, Copy, PartialEq, Eq, Structural, Debug)]
pub enum Direction {
    Custom(Vec2i),
    Left,
    Right,
    Up,
    Down,
    UpLeft,
    UpRight,
    DownLeft,
    DownRight,
}

impl Direction {
    /// A custom direction vector must be normalized: no component longer
    /// than one axis unit.
    pub open spec fn wf(self) -> bool {
        match self {
            Direction::Custom(v) => (-DIR_UNIT_MU) as i64 <= v.x <= DIR_UNIT_MU && (-DIR_UNIT_MU) as i64 <= v.y
                <= DIR_UNIT_MU,
            _ => true,
        }
    }
}

/// The direction vector a facing stands for, in milli-units per axis.
pub open spec fn spec_translation_for_direction(direction: Direction) -> Vec2i {
    match direction {
        Direction::Custom(v) => v,
        Direction::Left => Vec2i { x: (-DIR_UNIT_MU) as i64, y: 0 },
        Direction::Right => Vec2i { x: DIR_UNIT_MU, y: 0 },
        Direction::Up => Vec2i { x: 0, y: DIR_UNIT_MU },
        Direction::Down => Vec2i { x: 0, y: (-DIR_UNIT_MU) as i64 },
        Direction::UpLeft => Vec2i { x: (-DIR_UNIT_MU) as i64, y: DIR_UNIT_MU },
        Direction::UpRight => Vec2i { x: DIR_UNIT_MU, y: DIR_UNIT_MU },
        Direction::DownLeft => Vec2i { x: (-DIR_UNIT_MU) as i64, y: (-DIR_UNIT_MU) as i64 },
        Direction::DownRight => Vec2i { x: DIR_UNIT_MU, y: (-DIR_UNIT_MU) as i64 },
    }
}

/// Convert a facing into its direction vector.
pub fn get_translation_for_direction(direction: Direction) -> (r: Vec2i)
    ensures
        r == spec_translation_for_direction(direction),
{
    match direction {
        Direction::Custom(v) => v,
        Direction::Left => Vec2i { x: (-DIR_UNIT_MU) as i64, y: 0 },
        Direction::Right => Vec2i { x: DIR_UNIT_MU, y: 0 },
        Direction::Up => Vec2i { x: 0, y: DIR_UNIT_MU },
        Direction::Down => Vec2i { x: 0, y: (-DIR_UNIT_MU) as i64 },
        Direction::UpLeft => Vec2i { x: (-DIR_UNIT_MU) as i64, y: DIR_UNIT_MU },
        Direction::UpRight => Vec2i { x: DIR_UNIT_MU, y: DIR_UNIT_MU },
        Direction::DownLeft => Vec2i { x: (-DIR_UNIT_MU) as i64, y: (-DIR_UNIT_MU) as i64 },
        Direction::DownRight => Vec2i { x: DIR_UNIT_MU, y: (-DIR_UNIT_MU) as i64 },
    }
}

/// An inclusive range of sprite-sheet frame indices.
#[derive(Clone, Copy, PartialEq, Eq, Structural, Debug)]
pub struct AnimationIndices {
    pub first: usize,
    pub last: usize,
}

impl AnimationIndices {
    pub open spec fn wf(self) -> bool {
        self.first <= self.last <= 100_000
    }
}

/// Motion and animation-selection state shared by player, enemies and
/// projectiles.  `is_collided` freezes an enemy in contact with the player;
/// `is_state_changed` latches a collision-state flip so the animation is
/// reset exactly once.
#[derive(Clone, Copy, PartialEq, Eq, Structural, Debug)]
pub struct Movable {
    /// Scalar speed in world units per second.
    pub speed: u32,
    pub direction: Direction,
    pub is_moving: bool,
    pub current_animation_indices: AnimationIndices,
    pub is_collided: bool,
    pub is_state_changed: bool,
}

impl Movable {
    pub open spec fn wf(self) -> bool {
        &&& self.speed <= crate::level::MAX_SPEED
        &&& self.direction.wf()
        &&& self.current_animation_indices.wf()
    }
}

/// Animation ranges of the player archetype: idle plus five moving variants.
#[derive(Clone, Copy, PartialEq, Eq, Structural, Debug)]
pub struct PlayerSpriteSheetAnimatable {
    pub idle_anim_indices: AnimationIndices,
    pub moving_horizontal_anim_indices: AnimationIndices,
    pub moving_up_anim_indices: AnimationIndices,
    pub moving_down_anim_indices: AnimationIndices,
    pub moving_down_horiz_anim_indices: AnimationIndices,
    pub moving_up_horiz_anim_indices: AnimationIndices,
}

impl PlayerSpriteSheetAnimatable {
    pub open spec fn wf(self) -> bool {
        &&& self.idle_anim_indices.wf()
        &&& self.moving_horizontal_anim_indices.wf()
        &&& self.moving_up_anim_indices.wf()
        &&& self.moving_down_anim_indices.wf()
        &&& self.moving_down_horiz_anim_indices.wf()
        &&& self.moving_up_horiz_anim_indices.wf()
    }
}

/// Animation ranges of the enemy archetype: idle and moving only.
#[derive(Clone, Copy, PartialEq, Eq, Structural, Debug)]
pub struct EnemySpriteSheetAnimatable {
    pub idle_anim_indices: AnimationIndices,
    pub moving_anim_indices: AnimationIndices,
}

impl EnemySpriteSheetAnimatable {
    pub open spec fn wf(self) -> bool {
        self.idle_anim_indices.wf() && self.moving_anim_indices.wf()
    }
}

/// Animation range of a projectile: moving only.
#[derive(Clone, Copy, PartialEq, Eq, Structural, Debug)]
pub struct ProjectileSpriteSheetAnimatable {
    pub moving_anim_indices: AnimationIndices,
}

/// Animation range of a pure visual effect (explosion, damage spark).
#[derive(Clone, Copy, PartialEq, Eq, Structural, Debug)]
pub struct EffectSpriteSheetAnimatable {
    pub anim_indices: AnimationIndices,
}

/// Remaining hit points, in milli-points; the owner is defeated at zero or
/// below.
#[derive(Clone, Copy, PartialEq, Eq, Structural, Debug)]
pub struct Health {
    pub total: i64,
}

/// Periodic melee contact damage dealt by an enemy touching the player.
#[derive(Clone, Copy, PartialEq, Eq, Structural, Debug)]
pub struct DealsDamage {
    /// Damage per completed contact tick, in milli-points.
    pub damage: i64,
    pub tick_timer: Timer,
}

/// A projectile's single-use damage charge.
#[derive(Clone, Copy, PartialEq, Eq, Structural, Debug)]
pub struct ProjectileDealsDamage {
    /// Damage of a direct hit, in milli-points.
    pub damage: i64,
    /// Latched once the charge has produced damage events.
    pub is_triggered: bool,
}

/// Advance a sprite frame inside `indices` by one step, wrapping past the
/// last frame back to the first.
pub open spec fn spec_next_frame(index: int, indices: AnimationIndices) -> int {
    if index >= indices.last {
        indices.first as int
    } else {
        index + 1
    }
}

/// One animation-timer step of a sprite index: the frame advances by one or
/// wraps, and only when the interval timer completed this frame.
pub fn tick_sprite_frame(index: usize, indices: AnimationIndices, just_finished: bool) -> (r:
    usize)
    requires
        indices.wf(),
        index <= indices.last,
    ensures
        r == if just_finished {
            spec_next_frame(index as int, indices)
        } else {
            index as int
        },
        r <= indices.last,
{
    if just_finished {
        if index >= indices.last {
            indices.first
        } else {
            index + 1
        }
    } else {
        index
    }
}

/// Animation staleness invariant: while the selection state is unchanged, a
/// frame tick advances the sprite index by exactly one step or wraps it
/// from the range's last frame to the first — it never resets the index
/// mid-range, and without a completed timer interval it does not move at
/// all.
pub proof fn lemma_animation_staleness(index: int, indices: AnimationIndices, just_finished: bool)
    requires
        indices.wf(),
        indices.first <= index <= indices.last,
    ensures
        ({
            let idx2 = if just_finished {
                spec_next_frame(index, indices)
            } else {
                index
            };
            &&& (!just_finished ==> idx2 == index)
            &&& (just_finished && index < indices.last ==> idx2 == index + 1)
            &&& (just_finished && index == indices.last ==> idx2 == indices.first)
            &&& indices.first <= idx2 <= indices.last
        }),
{
}

} // verus!
