//! The player: input-driven movement with arena clamping, player-archetype
//! animation selection, and the experience accumulator.

use vstd::prelude::*;

use crate::level::{
    MAP_MOVABLE_HEIGHT_MU, MAP_MOVABLE_WIDTH_MU, MAX_FRAME_MS, PLAYER_HEIGHT_MU, PLAYER_WIDTH_MU,
    POS_LIMIT_MU,
};
use crate::math::{clamp_i64, diag_step, is_diag_step, spec_clamp, spec_diag_of};
use crate::sprite::{
    spec_next_frame, AnimationIndices, Direction, Health, Movable, PlayerSpriteSheetAnimatable,
    Vec2i,
};
use crate::timer::{spec_ticked, Timer};
use crate::weapons::Weapon;

verus! {

/// Default player speed, in world units per second.
pub const PLAYER_SPEED_DEFAULT: u32 = 100;

/// Experience a level takes by default.
pub const LEVEL_EXPERIENCE_STEP: u64 = 100;

/// Experience accumulator and level counter; `level_step` experience rolls
/// the accumulator over and advances one level.
#[derive(Clone, Copy, PartialEq, Eq, Structural, Debug)]
pub struct CanLevel {
    pub experience: u64,
    pub level: u32,
    pub level_step: u64,
}

impl CanLevel {
    pub open spec fn wf(self) -> bool {
        1 <= self.level_step <= 1_000_000
    }
}

/// The pressed state of the four logical movement inputs of one frame.
#[derive(Clone, Copy, PartialEq, Eq, Structural, Debug)]
pub struct InputState {
    pub up: bool,
    pub down: bool,
    pub left: bool,
    pub right: bool,
}

/// The walkable rectangle the player is clamped into.
#[derive(Clone, Copy, PartialEq, Eq, Structural, Debug)]
pub struct ArenaBounds {
    pub min_x: i64,
    pub max_x: i64,
    pub min_y: i64,
    pub max_y: i64,
}

impl ArenaBounds {
    pub open spec fn wf(self) -> bool {
        &&& -POS_LIMIT_MU <= self.min_x <= self.max_x <= POS_LIMIT_MU
        &&& -POS_LIMIT_MU <= self.min_y <= self.max_y <= POS_LIMIT_MU
    }
}

/// The gameplay arena bounds: the walkable interior shrunk by half the
/// player sprite on every side.
pub open spec fn spec_gameplay_bounds() -> ArenaBounds {
    ArenaBounds {
        min_x: (-(MAP_MOVABLE_WIDTH_MU / 2) + PLAYER_WIDTH_MU / 2) as i64,
        max_x: (MAP_MOVABLE_WIDTH_MU / 2 - PLAYER_WIDTH_MU / 2) as i64,
        min_y: (-(MAP_MOVABLE_HEIGHT_MU / 2) + PLAYER_HEIGHT_MU / 2) as i64,
        max_y: (MAP_MOVABLE_HEIGHT_MU / 2 - PLAYER_HEIGHT_MU / 2) as i64,
    }
}

/// The gameplay arena bounds: the walkable interior shrunk by half the
/// player sprite on every side.
pub fn gameplay_bounds() -> (b: ArenaBounds)
    ensures
        b == spec_gameplay_bounds(),
        b.wf(),
        b.min_x == -(MAP_MOVABLE_WIDTH_MU / 2) + PLAYER_WIDTH_MU / 2,
        b.max_x == MAP_MOVABLE_WIDTH_MU / 2 - PLAYER_WIDTH_MU / 2,
        b.min_y == -(MAP_MOVABLE_HEIGHT_MU / 2) + PLAYER_HEIGHT_MU / 2,
        b.max_y == MAP_MOVABLE_HEIGHT_MU / 2 - PLAYER_HEIGHT_MU / 2,
{
    ArenaBounds {
        min_x: -(MAP_MOVABLE_WIDTH_MU / 2) + PLAYER_WIDTH_MU / 2,
        max_x: MAP_MOVABLE_WIDTH_MU / 2 - PLAYER_WIDTH_MU / 2,
        min_y: -(MAP_MOVABLE_HEIGHT_MU / 2) + PLAYER_HEIGHT_MU / 2,
        max_y: MAP_MOVABLE_HEIGHT_MU / 2 - PLAYER_HEIGHT_MU / 2,
    }
}

/// Whether any movement input is pressed.
pub open spec fn spec_key_pressed(input: InputState) -> bool {
    input.up || input.down || input.left || input.right
}

/// The facing the frame's inputs select; with nothing pressed the facing is
/// kept.  Vertical inputs dominate, combined with a horizontal input they
/// form a diagonal.
pub open spec fn spec_chosen_direction(input: InputState, old_dir: Direction) -> Direction {
    if input.up {
        if input.right {
            Direction::UpRight
        } else if input.left {
            Direction::UpLeft
        } else {
            Direction::Up
        }
    } else if input.down {
        if input.right {
            Direction::DownRight
        } else if input.left {
            Direction::DownLeft
        } else {
            Direction::Down
        }
    } else if input.left {
        Direction::Left
    } else if input.right {
        Direction::Right
    } else {
        old_dir
    }
}

/// Horizontal frame displacement for straight step `n` and diagonal step
/// `d`, before clamping.
pub open spec fn spec_move_dx(input: InputState, n: int, d: int) -> int {
    if input.up || input.down {
        if input.right {
            d
        } else if input.left {
            -d
        } else {
            0
        }
    } else if input.left {
        -n
    } else if input.right {
        n
    } else {
        0
    }
}

/// Vertical frame displacement for straight step `n` and diagonal step `d`,
/// before clamping.
pub open spec fn spec_move_dy(input: InputState, n: int, d: int) -> int {
    if input.up {
        if input.right || input.left {
            d
        } else {
            n
        }
    } else if input.down {
        if input.right || input.left {
            -d
        } else {
            -n
        }
    } else {
        0
    }
}

/// Horizontal mirroring of the sprite after the frame's inputs.
pub open spec fn spec_flip_x(input: InputState, old_flip: bool) -> bool {
    if input.up || input.down {
        if input.right {
            false
        } else if input.left {
            true
        } else {
            old_flip
        }
    } else if input.left {
        true
    } else if input.right {
        false
    } else {
        old_flip
    }
}

/// The animation range the player archetype plays for a motion state:
/// idle when still; else diagonal up, diagonal down, straight up, straight
/// down, then horizontal; a custom facing selects nothing.
pub open spec fn spec_player_indices(m: Movable, a: PlayerSpriteSheetAnimatable) -> Option<
    AnimationIndices,
> {
    if !m.is_moving {
        Some(a.idle_anim_indices)
    } else {
        match m.direction {
            Direction::UpLeft => Some(a.moving_up_horiz_anim_indices),
            Direction::UpRight => Some(a.moving_up_horiz_anim_indices),
            Direction::DownLeft => Some(a.moving_down_horiz_anim_indices),
            Direction::DownRight => Some(a.moving_down_horiz_anim_indices),
            Direction::Up => Some(a.moving_up_anim_indices),
            Direction::Down => Some(a.moving_down_anim_indices),
            Direction::Left => Some(a.moving_horizontal_anim_indices),
            Direction::Right => Some(a.moving_horizontal_anim_indices),
            Direction::Custom(_) => None,
        }
    }
}

/// Select the player-archetype animation range for the current motion state.
pub fn get_indices_for_movable(
    movable: &Movable,
    animateable: &PlayerSpriteSheetAnimatable,
) -> (r: Option<AnimationIndices>)
    ensures
        r == spec_player_indices(*movable, *animateable),
{
    if !movable.is_moving {
        Some(animateable.idle_anim_indices)
    } else {
        match movable.direction {
            Direction::UpLeft => Some(animateable.moving_up_horiz_anim_indices),
            Direction::UpRight => Some(animateable.moving_up_horiz_anim_indices),
            Direction::DownLeft => Some(animateable.moving_down_horiz_anim_indices),
            Direction::DownRight => Some(animateable.moving_down_horiz_anim_indices),
            Direction::Up => Some(animateable.moving_up_anim_indices),
            Direction::Down => Some(animateable.moving_down_anim_indices),
            Direction::Left => Some(animateable.moving_horizontal_anim_indices),
            Direction::Right => Some(animateable.moving_horizontal_anim_indices),
            Direction::Custom(_) => None,
        }
    }
}

/// One frame of player movement and animation.
///
/// The inputs pick the new facing and a displacement whose straight step is
/// `speed * dt` and whose diagonal per-axis step keeps the diagonal
/// magnitude equal to the straight one; the position is clamped into
/// `bounds`.  The animation range is reset to its first frame exactly when
/// the `(is_moving, facing)` pair changed; otherwise the interval timer
/// ticks and the frame index advances by one step at most, wrapping past
/// the range's last frame.
pub fn player_movement(
    movable: &mut Movable,
    pos: &mut Vec2i,
    flip_x: &mut bool,
    sprite_index: &mut usize,
    timer: &mut Timer,
    animateable: &PlayerSpriteSheetAnimatable,
    input: InputState,
    bounds: ArenaBounds,
    dt_ms: u32,
)
    requires
        old(movable).wf(),
        old(timer).wf(),
        animateable.wf(),
        bounds.wf(),
        dt_ms <= MAX_FRAME_MS,
        crate::level::pos_bounded(*old(pos)),
        *old(sprite_index) <= old(movable).current_animation_indices.last,
    ensures
        final(movable).wf(),
        final(timer).wf(),
        *final(sprite_index) <= final(movable).current_animation_indices.last,
        final(movable).direction == spec_chosen_direction(input, old(movable).direction),
        final(movable).is_moving == spec_key_pressed(input),
        final(movable).speed == old(movable).speed,
        final(movable).is_collided == old(movable).is_collided,
        final(movable).is_state_changed == old(movable).is_state_changed,
        *final(flip_x) == spec_flip_x(input, *old(flip_x)),
        ({
            let n = old(movable).speed * dt_ms;
            let d = spec_diag_of(n as int);
            &&& final(pos).x == spec_clamp(
                old(pos).x + spec_move_dx(input, n as int, d),
                bounds.min_x as int,
                bounds.max_x as int,
            )
            &&& final(pos).y == spec_clamp(
                old(pos).y + spec_move_dy(input, n as int, d),
                bounds.min_y as int,
                bounds.max_y as int,
            )
        }),
        bounds.min_x <= final(pos).x <= bounds.max_x,
        bounds.min_y <= final(pos).y <= bounds.max_y,
        ({
            let changed = final(movable).direction != old(movable).direction
                || final(movable).is_moving != old(movable).is_moving;
            if changed {
                &&& *final(timer) == *old(timer)
                &&& final(movable).current_animation_indices == (match spec_player_indices(
                    *final(movable),
                    *animateable,
                ) {
                    Some(idx) => idx,
                    None => old(movable).current_animation_indices,
                })
                &&& *final(sprite_index) == final(movable).current_animation_indices.first
            } else {
                &&& *final(timer) == spec_ticked(*old(timer), dt_ms)
                &&& final(movable).current_animation_indices
                    == old(movable).current_animation_indices
                &&& *final(sprite_index) == (if final(timer).just_finished {
                    spec_next_frame(
                        *old(sprite_index) as int,
                        old(movable).current_animation_indices,
                    )
                } else {
                    *old(sprite_index) as int
                })
            }
        }),
{
    let sp: u64 = movable.speed as u64;
    let dtv: u64 = dt_ms as u64;
    proof {
        assert(sp * dtv <= 100_000_000) by (nonlinear_arith)
            requires
                sp <= 10_000,
                dtv <= 10_000,
        ;
    }
    let n64: u64 = sp * dtv;
    let normal: i64 = n64 as i64;
    let diag: i64 = diag_step(n64) as i64;

    let old_direction = movable.direction;
    let old_is_moving = movable.is_moving;

    let mut key_pressed = false;
    let mut dx: i64 = 0;
    let mut dy: i64 = 0;

    if input.up {
        key_pressed = true;
        if input.right {
            movable.direction = Direction::UpRight;
            *flip_x = false;
            dx = diag;
            dy = diag;
        } else if input.left {
            movable.direction = Direction::UpLeft;
            *flip_x = true;
            dx = -diag;
            dy = diag;
        } else {
            movable.direction = Direction::Up;
            dy = normal;
        }
    } else if input.down {
        key_pressed = true;
        if input.right {
            *flip_x = false;
            movable.direction = Direction::DownRight;
            dx = diag;
            dy = -diag;
        } else if input.left {
            *flip_x = true;
            movable.direction = Direction::DownLeft;
            dx = -diag;
            dy = -diag;
        } else {
            movable.direction = Direction::Down;
            dy = -normal;
        }
    } else if input.left {
        key_pressed = true;
        dx = -normal;
        *flip_x = true;
        movable.direction = Direction::Left;
    } else if input.right {
        key_pressed = true;
        dx = normal;
        *flip_x = false;
        movable.direction = Direction::Right;
    }

    pos.x = clamp_i64(pos.x + dx, bounds.min_x, bounds.max_x);
    pos.y = clamp_i64(pos.y + dy, bounds.min_y, bounds.max_y);

    movable.is_moving = key_pressed;

    if movable.direction != old_direction || movable.is_moving != old_is_moving {
        let chosen = get_indices_for_movable(movable, animateable);
        match chosen {
            Some(c) => {
                movable.current_animation_indices = c;
            },
            None => {},
        }
        *sprite_index = movable.current_animation_indices.first;
    } else {
        timer.tick(dt_ms);
        *sprite_index = crate::sprite::tick_sprite_frame(
            *sprite_index,
            movable.current_animation_indices,
            timer.just_finished,
        );
    }
}

/// Diagonal speed invariant: with straight step `n` and diagonal step `d`,
/// one frame of diagonal movement (up and right pressed) has the same
/// displacement magnitude as one frame of straight movement (up alone), to
/// within fixed-point rounding — never sqrt(2) times as much: the squared
/// diagonal magnitude does not exceed the squared straight magnitude, and
/// one more grid step on each axis would already overshoot it.
pub proof fn lemma_diagonal_speed_invariant(n: int, d: int)
    requires
        0 <= n,
        is_diag_step(n, d),
    ensures
        ({
            let diagonal = (InputState { up: true, down: false, left: false, right: true });
            let straight = (InputState { up: true, down: false, left: false, right: false });
            let ddx = spec_move_dx(diagonal, n, d);
            let ddy = spec_move_dy(diagonal, n, d);
            let sdx = spec_move_dx(straight, n, d);
            let sdy = spec_move_dy(straight, n, d);
            &&& ddx * ddx + ddy * ddy <= sdx * sdx + sdy * sdy
            &&& sdx * sdx + sdy * sdy < (ddx + 1) * (ddx + 1) + (ddy + 1) * (ddy + 1)
            &&& 0 <= ddx <= sdy
        }),
{
    assert(d * d + d * d <= n * n) by (nonlinear_arith)
        requires
            2 * d * d <= n * n,
    ;
    assert(n * n < (d + 1) * (d + 1) + (d + 1) * (d + 1)) by (nonlinear_arith)
        requires
            n * n < 2 * (d + 1) * (d + 1),
    ;
    assert(d <= n) by (nonlinear_arith)
        requires
            0 <= d,
            0 <= n,
            2 * d * d <= n * n,
    ;
}

/// The player bundle: motion state, position, display state, animation
/// timer and ranges, health, experience, and the owned weapons.
#[derive(Debug)]
pub struct Player {
    pub pos: Vec2i,
    pub movable: Movable,
    pub flip_x: bool,
    pub sprite_index: usize,
    pub anim_timer: Timer,
    pub animatable: PlayerSpriteSheetAnimatable,
    pub health: Health,
    pub lvl: CanLevel,
    pub weapons: Vec<Weapon>,
}

impl Player {
    pub open spec fn wf(self) -> bool {
        &&& self.movable.wf()
        &&& self.anim_timer.wf()
        &&& self.animatable.wf()
        &&& crate::level::pos_bounded(self.pos)
        &&& self.sprite_index <= self.movable.current_animation_indices.last
        &&& self.lvl.wf()
        &&& forall|i: int| 0 <= i < self.weapons@.len() ==> (#[trigger] self.weapons@[i]).wf()
    }
}

} // verus!
