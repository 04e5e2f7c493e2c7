//! The wave/stage spawner and the enemy systems: timer-driven wave spawning
//! with stage escalation into a boss stage, enemy pursuit movement with
//! animation, and melee contact damage against the player.

use vstd::prelude::*;

use crate::level::{entity_pos_bounded, in_map, MAP_HEIGHT_MU, MAP_WIDTH_MU, MAX_FRAME_MS};
use crate::level::ENTITY_POS_LIMIT_MU;
use crate::math::{clamp_i64, isqrt64, spec_clamp, spec_isqrt};
use crate::rng::{rand_flip, rand_u64_below};
use crate::sprite::{
    spec_next_frame, AnimationIndices, DealsDamage, Direction, EnemySpriteSheetAnimatable, Health,
    Movable, Vec2i,
};
use crate::timer::{spec_ticked, Timer};

verus! {

/// Distance from the player at which a wave enemy is placed, in milli-units.
pub const SPAWN_DISTANCE_MU: i64 = 500_000;

/// Contact range for enemy melee damage against the player, in milli-units.
pub const COLLISION_DISTANCE_MU: i64 = 10_000;

/// Stage ceiling: once the stage counter passes it, the session moves to the
/// boss stage instead of escalating further.
pub const MAX_REGULAR_STAGE: u32 = 4;

/// Experience one defeated enemy awards.
pub const ENEMY_EXPERIENCE: u64 = 10;

/// Enemy archetype, escalating by stage; the boss archetype is a singleton
/// spawned only in the boss stage.
#[derive(Clone, Copy, PartialEq, Eq, Structural, Debug)]
pub enum EnemyType {
    Goblin,
    Mushroom,
    Slime,
    Bat,
    Boss,
}

/// Experience awarded to the player when the owner is defeated.
#[derive(Clone, Copy, PartialEq, Eq, Structural, Debug)]
pub struct GivesExperience {
    pub experience: u64,
}

/// An enemy: pursuit motion state, animation, health, melee damage and the
/// experience it is worth.
#[derive(Clone, Copy, PartialEq, Eq, Structural, Debug)]
pub struct Enemy {
    pub pos: Vec2i,
    pub movable: Movable,
    pub flip_x: bool,
    pub sprite_index: usize,
    pub anim_timer: Timer,
    pub animatable: EnemySpriteSheetAnimatable,
    pub health: Health,
    pub damage: DealsDamage,
    pub experience: GivesExperience,
    pub is_boss: bool,
}

impl Enemy {
    /// Everything `wf` asks except that the enemy is still alive; the
    /// damage resolver works on enemies mid-pass whose health has already
    /// dropped to zero or below.
    pub open spec fn wf_except_health(self) -> bool {
        &&& self.movable.wf()
        &&& self.anim_timer.wf()
        &&& self.damage.tick_timer.wf()
        &&& self.animatable.wf()
        &&& entity_pos_bounded(self.pos)
        &&& self.health.total <= 1_000_000_000
        &&& 0 <= self.damage.damage <= 2_000_000_000
        &&& self.experience.experience <= 1_000_000
        &&& self.sprite_index <= 100_000
        &&& (self.movable.is_state_changed || self.sprite_index
            <= self.movable.current_animation_indices.last)
    }

    pub open spec fn wf(self) -> bool {
        &&& self.wf_except_health()
        &&& 0 < self.health.total
    }
}

/// The spawner's session-wide state: the short wave timer, the longer stage
/// timer, and the escalating stage counter.
#[derive(Clone, Copy, PartialEq, Eq, Structural, Debug)]
pub struct LevelSpawns {
    pub wave_timer: Timer,
    pub stage_timer: Timer,
    pub current_stage: u32,
}

impl LevelSpawns {
    pub open spec fn wf(self) -> bool {
        &&& self.wave_timer.wf()
        &&& self.wave_timer.repeating
        &&& self.stage_timer.wf()
        &&& self.stage_timer.repeating
        &&& 1 <= self.current_stage <= 1_000_000
    }

    /// Fresh spawner state: a 10 s wave timer, a 15 s stage timer, and the
    /// stage counter at its first stage.
    pub fn new() -> (r: LevelSpawns)
        ensures
            r.wf(),
            r.wave_timer == Timer::spec_fresh(10_000, true),
            r.stage_timer == Timer::spec_fresh(15_000, true),
            r.current_stage == 1,
    {
        LevelSpawns {
            wave_timer: Timer::from_millis(10_000, true),
            stage_timer: Timer::from_millis(15_000, true),
            current_stage: 1,
        }
    }
}

impl Default for LevelSpawns {
    fn default() -> (r: LevelSpawns)
        ensures
            r.wf(),
            r.current_stage == 1,
    {
        LevelSpawns::new()
    }
}

/// The animation ranges of an enemy archetype.
pub open spec fn spec_enemy_animatable(t: EnemyType) -> EnemySpriteSheetAnimatable {
    match t {
        EnemyType::Goblin => EnemySpriteSheetAnimatable {
            idle_anim_indices: AnimationIndices { first: 6, last: 8 },
            moving_anim_indices: AnimationIndices { first: 0, last: 5 },
        },
        EnemyType::Mushroom => EnemySpriteSheetAnimatable {
            idle_anim_indices: AnimationIndices { first: 0, last: 5 },
            moving_anim_indices: AnimationIndices { first: 8, last: 15 },
        },
        EnemyType::Slime => EnemySpriteSheetAnimatable {
            idle_anim_indices: AnimationIndices { first: 0, last: 1 },
            moving_anim_indices: AnimationIndices { first: 0, last: 5 },
        },
        EnemyType::Bat => EnemySpriteSheetAnimatable {
            idle_anim_indices: AnimationIndices { first: 0, last: 3 },
            moving_anim_indices: AnimationIndices { first: 0, last: 3 },
        },
        EnemyType::Boss => EnemySpriteSheetAnimatable {
            idle_anim_indices: AnimationIndices { first: 12, last: 17 },
            moving_anim_indices: AnimationIndices { first: 0, last: 11 },
        },
    }
}

/// Animation data of the goblin archetype: idle and moving ranges.
pub fn get_goblin_enemy() -> (r: (EnemySpriteSheetAnimatable, AnimationIndices,
    AnimationIndices))
    ensures
        r.0 == spec_enemy_animatable(EnemyType::Goblin),
        r.1 == r.0.idle_anim_indices,
        r.2 == r.0.moving_anim_indices,
{
    let idle = AnimationIndices { first: 6, last: 8 };
    let run = AnimationIndices { first: 0, last: 5 };
    (EnemySpriteSheetAnimatable { idle_anim_indices: idle, moving_anim_indices: run }, idle, run)
}

/// Animation data of the brown mushroom archetype.
pub fn get_brown_mushroom_enemy() -> (r: (EnemySpriteSheetAnimatable, AnimationIndices,
    AnimationIndices))
    ensures
        r.0 == spec_enemy_animatable(EnemyType::Mushroom),
        r.1 == r.0.idle_anim_indices,
        r.2 == r.0.moving_anim_indices,
{
    let idle = AnimationIndices { first: 0, last: 5 };
    let run = AnimationIndices { first: 8, last: 15 };
    (EnemySpriteSheetAnimatable { idle_anim_indices: idle, moving_anim_indices: run }, idle, run)
}

/// Animation data of the slime archetype.
pub fn get_slime_enemy() -> (r: (EnemySpriteSheetAnimatable, AnimationIndices, AnimationIndices))
    ensures
        r.0 == spec_enemy_animatable(EnemyType::Slime),
        r.1 == r.0.idle_anim_indices,
        r.2 == r.0.moving_anim_indices,
{
    let idle = AnimationIndices { first: 0, last: 1 };
    let run = AnimationIndices { first: 0, last: 5 };
    (EnemySpriteSheetAnimatable { idle_anim_indices: idle, moving_anim_indices: run }, idle, run)
}

/// Animation data of the bat archetype.
pub fn get_bat_enemy() -> (r: (EnemySpriteSheetAnimatable, AnimationIndices, AnimationIndices))
    ensures
        r.0 == spec_enemy_animatable(EnemyType::Bat),
        r.1 == r.0.idle_anim_indices,
        r.2 == r.0.moving_anim_indices,
{
    let idle = AnimationIndices { first: 0, last: 3 };
    let run = AnimationIndices { first: 0, last: 3 };
    (EnemySpriteSheetAnimatable { idle_anim_indices: idle, moving_anim_indices: run }, idle, run)
}

/// Animation data of the boss archetype.
pub fn get_boss_enemy() -> (r: (EnemySpriteSheetAnimatable, AnimationIndices, AnimationIndices))
    ensures
        r.0 == spec_enemy_animatable(EnemyType::Boss),
        r.1 == r.0.idle_anim_indices,
        r.2 == r.0.moving_anim_indices,
{
    let idle = AnimationIndices { first: 12, last: 17 };
    let run = AnimationIndices { first: 0, last: 11 };
    (EnemySpriteSheetAnimatable { idle_anim_indices: idle, moving_anim_indices: run }, idle, run)
}

/// Archetype spawned at a stage: the four regular archetypes for stages one
/// to four, the boss archetype beyond.
pub open spec fn spec_enemy_type_for_stage(stage: u32) -> EnemyType {
    if stage == 1 {
        EnemyType::Goblin
    } else if stage == 2 {
        EnemyType::Mushroom
    } else if stage == 3 {
        EnemyType::Slime
    } else if stage == 4 {
        EnemyType::Bat
    } else {
        EnemyType::Boss
    }
}

/// A just-spawned enemy of archetype `t` at stage `stage`: idle animation
/// selected, collision flags cleared with the state-change latch set so the
/// first frame resets the animation, stage-scaled melee damage, and the
/// boss flag on the boss archetype.
pub open spec fn is_fresh_enemy(e: Enemy, t: EnemyType, stage: u32) -> bool {
    &&& e.movable == (Movable {
        speed: 50,
        direction: Direction::Right,
        is_moving: false,
        current_animation_indices: spec_enemy_animatable(t).idle_anim_indices,
        is_collided: false,
        is_state_changed: true,
    })
    &&& !e.flip_x
    &&& e.sprite_index == spec_enemy_animatable(t).moving_anim_indices.first
    &&& e.anim_timer == Timer::spec_fresh(100, true)
    &&& e.animatable == spec_enemy_animatable(t)
    &&& e.health.total == 10_000
    &&& e.damage.damage == (10 + stage) * 1000
    &&& e.damage.tick_timer == Timer::spec_fresh(1000, false)
    &&& e.experience.experience == ENEMY_EXPERIENCE
    &&& e.is_boss == (t == EnemyType::Boss)
}

/// Place one wave enemy: a random offset at spawn distance from the player
/// (`rnd_x` along x, the rest along y, both negated together on `switch`),
/// clamped into the map.  The result is never the player's own position.
pub fn get_enemy_spawn_position(player_position: Vec2i, rnd_x: i64, switch: bool) -> (r: Vec2i)
    requires
        0 <= rnd_x < SPAWN_DISTANCE_MU,
        -1_500_000 <= player_position.x <= 1_500_000,
        -1_500_000 <= player_position.y <= 1_500_000,
    ensures
        ({
            let rnd_y = SPAWN_DISTANCE_MU - rnd_x;
            &&& r.x == spec_clamp(
                player_position.x + if switch {
                    -rnd_x
                } else {
                    rnd_x as int
                },
                -MAP_WIDTH_MU / 2,
                MAP_WIDTH_MU / 2,
            )
            &&& r.y == spec_clamp(
                player_position.y + if switch {
                    -rnd_y
                } else {
                    rnd_y as int
                },
                -MAP_HEIGHT_MU / 2,
                MAP_HEIGHT_MU / 2,
            )
        }),
        in_map(r),
        r != player_position,
{
    let rnd_y: i64 = SPAWN_DISTANCE_MU - rnd_x;
    let x_pos = player_position.x + if switch {
        -rnd_x
    } else {
        rnd_x
    };
    let y_pos = player_position.y + if switch {
        -rnd_y
    } else {
        rnd_y
    };
    let final_x_pos = clamp_i64(x_pos, -(MAP_WIDTH_MU / 2), MAP_WIDTH_MU / 2);
    let final_y_pos = clamp_i64(y_pos, -(MAP_HEIGHT_MU / 2), MAP_HEIGHT_MU / 2);
    Vec2i { x: final_x_pos, y: final_y_pos }
}

/// Spawn one batch of `num_enemies` enemies of the stage's archetype at
/// random positions around the player; existing enemies are untouched.
pub fn spawn_enemies(
    num_enemies: usize,
    player_position: Vec2i,
    current_stage: u32,
    enemies: &mut Vec<Enemy>,
)
    requires
        1 <= current_stage <= 1_000_000,
        -1_500_000 <= player_position.x <= 1_500_000,
        -1_500_000 <= player_position.y <= 1_500_000,
        num_enemies <= 10_000_000,
        old(enemies)@.len() <= 100_000_000,
    ensures
        final(enemies)@.len() == old(enemies)@.len() + num_enemies,
        forall|i: int|
            0 <= i < old(enemies)@.len() ==> final(enemies)@[i] == old(enemies)@[i],
        forall|i: int|
            old(enemies)@.len() <= i < final(enemies)@.len() ==> {
                let e = #[trigger] final(enemies)@[i];
                &&& e.wf()
                &&& is_fresh_enemy(e, spec_enemy_type_for_stage(current_stage), current_stage)
                &&& in_map(e.pos)
                &&& e.pos != player_position
            },
{
    let mut i: usize = 0;
    while i < num_enemies
        invariant
            i <= num_enemies,
            num_enemies <= 10_000_000,
            1 <= current_stage <= 1_000_000,
            -1_500_000 <= player_position.x <= 1_500_000,
            -1_500_000 <= player_position.y <= 1_500_000,
            old(enemies)@.len() <= 100_000_000,
            enemies@.len() == old(enemies)@.len() + i,
            forall|j: int|
                0 <= j < old(enemies)@.len() ==> enemies@[j] == old(enemies)@[j],
            forall|j: int|
                old(enemies)@.len() <= j < enemies@.len() ==> {
                    let e = #[trigger] enemies@[j];
                    &&& e.wf()
                    &&& is_fresh_enemy(
                        e,
                        spec_enemy_type_for_stage(current_stage),
                        current_stage,
                    )
                    &&& in_map(e.pos)
                    &&& e.pos != player_position
                },
        decreases num_enemies - i,
    {
        let rnd_x = rand_u64_below(SPAWN_DISTANCE_MU as u64) as i64;
        let switch = rand_flip();
        let pos = get_enemy_spawn_position(player_position, rnd_x, switch);
        let enemy_type = get_enemy_type_for_stage(current_stage);
        let (animatable, idle, _run) = get_enemy_animation(enemy_type);
        let run_first = animatable.moving_anim_indices.first;
        enemies.push(
            Enemy {
                pos,
                movable: Movable {
                    speed: 50,
                    direction: Direction::Right,
                    is_moving: false,
                    current_animation_indices: idle,
                    is_collided: false,
                    is_state_changed: true,
                },
                flip_x: false,
                sprite_index: run_first,
                anim_timer: Timer::from_millis(100, true),
                animatable,
                health: Health { total: 10_000 },
                damage: DealsDamage {
                    damage: (10 + current_stage as i64) * 1000,
                    tick_timer: Timer::from_millis(1000, false),
                },
                experience: GivesExperience { experience: ENEMY_EXPERIENCE },
                is_boss: matches!(enemy_type, EnemyType::Boss),
            },
        );
        i = i + 1;
    }
}

/// The archetype spawned at a stage.
pub fn get_enemy_type_for_stage(stage: u32) -> (t: EnemyType)
    ensures
        t == spec_enemy_type_for_stage(stage),
{
    if stage == 1 {
        EnemyType::Goblin
    } else if stage == 2 {
        EnemyType::Mushroom
    } else if stage == 3 {
        EnemyType::Slime
    } else if stage == 4 {
        EnemyType::Bat
    } else {
        EnemyType::Boss
    }
}

/// The animation data of an archetype.
pub fn get_enemy_animation(t: EnemyType) -> (r: (EnemySpriteSheetAnimatable, AnimationIndices,
    AnimationIndices))
    ensures
        r.0 == spec_enemy_animatable(t),
        r.1 == r.0.idle_anim_indices,
        r.2 == r.0.moving_anim_indices,
{
    match t {
        EnemyType::Goblin => get_goblin_enemy(),
        EnemyType::Mushroom => get_brown_mushroom_enemy(),
        EnemyType::Slime => get_slime_enemy(),
        EnemyType::Bat => get_bat_enemy(),
        EnemyType::Boss => get_boss_enemy(),
    }
}

/// One frame of the wave/stage director while regular stages run: tick both
/// timers; on a wave tick spawn `5 * current_stage` enemies of the stage's
/// archetype around the player; on a stage tick escalate the stage, and
/// report a transition into the boss stage once the counter passes the
/// ceiling.
pub fn check_for_spawns(
    level_spawns: &mut LevelSpawns,
    player_position: Vec2i,
    dt_ms: u32,
    enemies: &mut Vec<Enemy>,
) -> (to_boss: bool)
    requires
        old(level_spawns).wf(),
        old(level_spawns).current_stage < 1_000_000,
        dt_ms <= MAX_FRAME_MS,
        -1_500_000 <= player_position.x <= 1_500_000,
        -1_500_000 <= player_position.y <= 1_500_000,
        old(enemies)@.len() <= 100_000_000,
    ensures
        final(level_spawns).wf(),
        final(level_spawns).wave_timer == spec_ticked(old(level_spawns).wave_timer, dt_ms),
        final(level_spawns).stage_timer == spec_ticked(old(level_spawns).stage_timer, dt_ms),
        final(level_spawns).current_stage == old(level_spawns).current_stage + (
            if spec_ticked(old(level_spawns).stage_timer, dt_ms).just_finished {
                1int
            } else {
                0int
            }
        ),
        to_boss == (spec_ticked(old(level_spawns).stage_timer, dt_ms).just_finished
            && final(level_spawns).current_stage > MAX_REGULAR_STAGE),
        ({
            let spawned = if spec_ticked(old(level_spawns).wave_timer, dt_ms).just_finished {
                5 * old(level_spawns).current_stage as int
            } else {
                0int
            };
            &&& final(enemies)@.len() == old(enemies)@.len() + spawned
            &&& forall|i: int|
                0 <= i < old(enemies)@.len() ==> final(enemies)@[i] == old(enemies)@[i]
            &&& forall|i: int|
                old(enemies)@.len() <= i < final(enemies)@.len() ==> {
                    let e = #[trigger] final(enemies)@[i];
                    &&& e.wf()
                    &&& is_fresh_enemy(
                        e,
                        spec_enemy_type_for_stage(old(level_spawns).current_stage),
                        old(level_spawns).current_stage,
                    )
                    &&& in_map(e.pos)
                    &&& e.pos != player_position
                }
        }),
{
    level_spawns.wave_timer.tick(dt_ms);
    level_spawns.stage_timer.tick(dt_ms);

    let num_enemies_per_spawn: usize = 5 * (level_spawns.current_stage as usize);

    if level_spawns.wave_timer.just_finished {
        spawn_enemies(
            num_enemies_per_spawn,
            player_position,
            level_spawns.current_stage,
            enemies,
        );
    }

    let mut to_boss = false;
    if level_spawns.stage_timer.just_finished {
        level_spawns.current_stage = level_spawns.current_stage + 1;
    }
    if level_spawns.current_stage > MAX_REGULAR_STAGE {
        to_boss = level_spawns.stage_timer.just_finished;
    }
    to_boss
}

/// Horizontal pursuit displacement toward the player: the x component of
/// the unit vector from enemy to player (fixed point, per-mille), scaled by
/// `step`.  Zero when the enemy stands on the player.
pub open spec fn spec_pursue_dx(e: Vec2i, p: Vec2i, step: int) -> int {
    let dx = p.x - e.x;
    let dy = p.y - e.y;
    let d2 = dx * dx + dy * dy;
    if d2 == 0 {
        0
    } else {
        let dist = spec_isqrt(d2);
        let mx = (((vstd::math::abs(dx) as int) * 1000) / (dist as int)) * step / 1000;
        if dx >= 0 {
            mx
        } else {
            -mx
        }
    }
}

/// Vertical pursuit displacement toward the player.
pub open spec fn spec_pursue_dy(e: Vec2i, p: Vec2i, step: int) -> int {
    let dx = p.x - e.x;
    let dy = p.y - e.y;
    let d2 = dx * dx + dy * dy;
    if d2 == 0 {
        0
    } else {
        let dist = spec_isqrt(d2);
        let my = (((vstd::math::abs(dy) as int) * 1000) / (dist as int)) * step / 1000;
        if dy >= 0 {
            my
        } else {
            -my
        }
    }
}

/// One normalized pursuit component: `amag * 1000 / dist * step / 1000`,
/// bounded by `step`, and by the axis gap when it does not overshoot.
fn pursue_component(amag: u64, dist: u64, step: u64) -> (m: u64)
    requires
        amag <= dist,
        1 <= dist <= 3_000_000_000,
        step <= 100_000_000,
    ensures
        m == ((amag * 1000) / (dist as int)) * step / 1000,
        m <= step,
{
    let nx = (amag * 1000) / dist;
    proof {
        assert(amag * 1000 <= dist * 1000) by (nonlinear_arith)
            requires
                amag <= dist,
        ;
        vstd::arithmetic::div_mod::lemma_div_is_ordered(
            (amag * 1000) as int,
            (dist * 1000) as int,
            dist as int,
        );
        vstd::arithmetic::div_mod::lemma_div_multiples_vanish(1000, dist as int);
        assert(dist * 1000 == (dist as int) * 1000);
        assert((dist as int) * 1000 == 1000 * (dist as int)) by (nonlinear_arith);
        assert(nx <= 1000);
    }
    proof {
        assert(nx * step <= 1000u64 * 100_000_000u64) by (nonlinear_arith)
            requires
                nx <= 1000,
                step <= 100_000_000u64,
        ;
    }
    let m = (nx * step) / 1000;
    proof {
        assert(nx * step <= 1000 * step) by (nonlinear_arith)
            requires
                nx <= 1000,
                0 <= step,
        ;
        vstd::arithmetic::div_mod::lemma_div_is_ordered(
            (nx * step) as int,
            (1000 * step) as int,
            1000,
        );
        vstd::arithmetic::div_mod::lemma_div_multiples_vanish(step as int, 1000);
    }
    m
}

/// One frame of pursuit: move from `e` toward `p` by `speed * dt`, by the
/// normalized direction in fixed point.  Never moves further from the
/// player's position than `step` past it, so bounded positions stay
/// bounded.
pub fn pursue_step(e: Vec2i, p: Vec2i, speed: u32, dt_ms: u32) -> (r: Vec2i)
    requires
        entity_pos_bounded(e),
        in_map(p),
        speed <= crate::level::MAX_SPEED,
        dt_ms <= MAX_FRAME_MS,
    ensures
        r.x == e.x + spec_pursue_dx(e, p, speed * dt_ms),
        r.y == e.y + spec_pursue_dy(e, p, speed * dt_ms),
        entity_pos_bounded(r),
{
    let sp: u64 = speed as u64;
    let dtv: u64 = dt_ms as u64;
    proof {
        assert(sp * dtv <= 100_000_000) by (nonlinear_arith)
            requires
                sp <= 10_000,
                dtv <= 10_000,
        ;
    }
    let step: u64 = sp * dtv;

    let dx: i64 = p.x - e.x;
    let dy: i64 = p.y - e.y;
    let adx: u64 = if dx >= 0 {
        dx as u64
    } else {
        (-dx) as u64
    };
    let ady: u64 = if dy >= 0 {
        dy as u64
    } else {
        (-dy) as u64
    };
    proof {
        assert(adx * adx <= 2_000_000_000u64 * 2_000_000_000u64 && (adx as int) * (adx as int)
            == (dx as int) * (dx as int)) by (nonlinear_arith)
            requires
                adx <= 2_000_000_000u64,
                adx == vstd::math::abs(dx as int),
        ;
        assert(ady * ady <= 2_000_000_000u64 * 2_000_000_000u64 && (ady as int) * (ady as int)
            == (dy as int) * (dy as int)) by (nonlinear_arith)
            requires
                ady <= 2_000_000_000u64,
                ady == vstd::math::abs(dy as int),
        ;
    }
    let d2: u64 = adx * adx + ady * ady;
    if d2 == 0 {
        return e;
    }
    let dist: u64 = isqrt64(d2);
    proof {
        assert(1 <= dist) by (nonlinear_arith)
            requires
                1 <= d2,
                (d2 as int) < ((dist as int) + 1) * ((dist as int) + 1),
                0 <= dist,
        ;
        assert(dist <= 3_000_000_000u64) by (nonlinear_arith)
            requires
                (dist as int) * (dist as int) <= d2 as int,
                d2 <= 8_000_000_000_000_000_000u64,
                0 <= dist,
        ;
        assert(adx <= dist && ady <= dist) by (nonlinear_arith)
            requires
                (adx as int) * (adx as int) <= d2 as int,
                (ady as int) * (ady as int) <= d2 as int,
                (d2 as int) < ((dist as int) + 1) * ((dist as int) + 1),
                0 <= adx,
                0 <= ady,
                0 <= dist,
        ;
    }
    let mx: u64 = pursue_component(adx, dist, step);
    let my: u64 = pursue_component(ady, dist, step);

    let rx: i64 = if dx >= 0 {
        e.x + (mx as i64)
    } else {
        e.x - (mx as i64)
    };
    let ry: i64 = if dy >= 0 {
        e.y + (my as i64)
    } else {
        e.y - (my as i64)
    };
    proof {
        if mx <= adx {
            assert(-ENTITY_POS_LIMIT_MU <= rx <= ENTITY_POS_LIMIT_MU);
        } else {
            assert(-ENTITY_POS_LIMIT_MU <= rx <= ENTITY_POS_LIMIT_MU);
        }
        if my <= ady {
            assert(-ENTITY_POS_LIMIT_MU <= ry <= ENTITY_POS_LIMIT_MU);
        } else {
            assert(-ENTITY_POS_LIMIT_MU <= ry <= ENTITY_POS_LIMIT_MU);
        }
    }
    Vec2i { x: rx, y: ry }
}

/// The animation range an enemy plays: moving or idle.
pub open spec fn spec_enemy_indices(moving: bool, a: EnemySpriteSheetAnimatable) -> AnimationIndices {
    if moving {
        a.moving_anim_indices
    } else {
        a.idle_anim_indices
    }
}

/// Select the enemy-archetype animation range for the current motion state.
pub fn get_indices_for_movable(movable: &Movable, animateable: &EnemySpriteSheetAnimatable) -> (r:
    Option<AnimationIndices>)
    ensures
        r == Some(spec_enemy_indices(movable.is_moving, *animateable)),
{
    if !movable.is_moving {
        Some(animateable.idle_anim_indices)
    } else {
        Some(animateable.moving_anim_indices)
    }
}

/// How one frame of the enemy movement-and-animation system rewrites one
/// enemy: pursuit toward the player unless frozen by contact, facing from
/// the sign of the pursuit vector, and an animation reset exactly on a
/// latched state change or a moving-state flip, otherwise a timer-driven
/// frame advance.
pub open spec fn enemy_frame_rel(e: Enemy, e2: Enemy, p: Vec2i, dt_ms: u32) -> bool {
    let step = e.movable.speed * dt_ms;
    let dx = p.x - e.pos.x;
    let dy = p.y - e.pos.y;
    let moved = !e.movable.is_collided;
    let moving2 = moved && (dx != 0 || dy != 0);
    &&& e2.pos.x == if moved {
        e.pos.x + spec_pursue_dx(e.pos, p, step)
    } else {
        e.pos.x as int
    }
    &&& e2.pos.y == if moved {
        e.pos.y + spec_pursue_dy(e.pos, p, step)
    } else {
        e.pos.y as int
    }
    &&& e2.movable.is_moving == moving2
    &&& e2.flip_x == if moved && dx > 0 {
        false
    } else if moved && dx < 0 {
        true
    } else {
        e.flip_x
    }
    &&& e2.movable.speed == e.movable.speed
    &&& e2.movable.direction == e.movable.direction
    &&& e2.movable.is_collided == e.movable.is_collided
    &&& !e2.movable.is_state_changed
    &&& ({
        let changed = e.movable.is_state_changed || moving2 != e.movable.is_moving;
        if changed {
            &&& e2.movable.current_animation_indices == spec_enemy_indices(moving2, e.animatable)
            &&& e2.sprite_index == e2.movable.current_animation_indices.first
            &&& e2.anim_timer == e.anim_timer
        } else {
            &&& e2.anim_timer == spec_ticked(e.anim_timer, dt_ms)
            &&& e2.movable.current_animation_indices == e.movable.current_animation_indices
            &&& e2.sprite_index == if e2.anim_timer.just_finished {
                spec_next_frame(e.sprite_index as int, e.movable.current_animation_indices)
            } else {
                e.sprite_index as int
            }
        }
    })
    &&& e2.animatable == e.animatable
    &&& e2.health == e.health
    &&& e2.damage == e.damage
    &&& e2.experience == e.experience
    &&& e2.is_boss == e.is_boss
}

/// One frame of enemy movement and animation: every enemy pursues the
/// player (direct homing, no avoidance) unless in contact, faces by the
/// pursuit direction, and advances or resets its animation.
pub fn update_enemy_positions_and_sprites(
    enemies: &mut Vec<Enemy>,
    player_position: Vec2i,
    dt_ms: u32,
)
    requires
        forall|i: int| 0 <= i < old(enemies)@.len() ==> (#[trigger] old(enemies)@[i]).wf(),
        in_map(player_position),
        dt_ms <= MAX_FRAME_MS,
    ensures
        final(enemies)@.len() == old(enemies)@.len(),
        forall|i: int|
            0 <= i < old(enemies)@.len() ==> enemy_frame_rel(
                old(enemies)@[i],
                #[trigger] final(enemies)@[i],
                player_position,
                dt_ms,
            ),
        forall|i: int| 0 <= i < final(enemies)@.len() ==> (#[trigger] final(enemies)@[i]).wf(),
        forall|i: int|
            0 <= i < final(enemies)@.len() ==> (#[trigger] final(enemies)@[i]).sprite_index
                <= final(enemies)@[i].movable.current_animation_indices.last,
{
    let mut i: usize = 0;
    while i < enemies.len()
        invariant
            i <= enemies@.len(),
            enemies@.len() == old(enemies)@.len(),
            in_map(player_position),
            dt_ms <= MAX_FRAME_MS,
            forall|j: int| 0 <= j < old(enemies)@.len() ==> (#[trigger] old(enemies)@[j]).wf(),
            forall|j: int| i <= j < enemies@.len() ==> enemies@[j] == old(enemies)@[j],
            forall|j: int|
                0 <= j < i ==> enemy_frame_rel(
                    old(enemies)@[j],
                    #[trigger] enemies@[j],
                    player_position,
                    dt_ms,
                ),
            forall|j: int| 0 <= j < i ==> (#[trigger] enemies@[j]).wf(),
            forall|j: int|
                0 <= j < i ==> (#[trigger] enemies@[j]).sprite_index
                    <= enemies@[j].movable.current_animation_indices.last,
        decreases enemies@.len() - i,
    {
        let mut e = enemies[i];
        let old_is_moving = e.movable.is_moving;
        let dx: i64 = player_position.x - e.pos.x;
        let dy: i64 = player_position.y - e.pos.y;

        if !e.movable.is_collided {
            e.pos = pursue_step(e.pos, player_position, e.movable.speed, dt_ms);
            if dx > 0 {
                e.flip_x = false;
                e.movable.is_moving = true;
            } else if dx < 0 {
                e.flip_x = true;
                e.movable.is_moving = true;
            } else if dy != 0 {
                e.movable.is_moving = true;
            } else {
                e.movable.is_moving = false;
            }
        } else {
            e.movable.is_moving = false;
        }

        if e.movable.is_state_changed || e.movable.is_moving != old_is_moving {
            let chosen = get_indices_for_movable(&e.movable, &e.animatable);
            match chosen {
                Some(c) => {
                    e.movable.current_animation_indices = c;
                },
                None => {},
            }
            e.sprite_index = e.movable.current_animation_indices.first;
        } else {
            e.anim_timer.tick(dt_ms);
            e.sprite_index = crate::sprite::tick_sprite_frame(
                e.sprite_index,
                e.movable.current_animation_indices,
                e.anim_timer.just_finished,
            );
        }
        e.movable.is_state_changed = false;
        enemies.set(i, e);
        i = i + 1;
    }
}

/// The melee damage the first `i` enemies deal the player this frame: each
/// enemy in contact range whose ticked damage timer has completed
/// contributes its damage.
pub open spec fn spec_melee_prefix(es: Seq<Enemy>, p: Vec2i, dt_ms: u32, i: int) -> int
    decreases i,
{
    if i <= 0 {
        0
    } else {
        spec_melee_prefix(es, p, dt_ms, i - 1) + (
        if es[i - 1].pos.dist2(p) < COLLISION_DISTANCE_MU * COLLISION_DISTANCE_MU && spec_ticked(
            es[i - 1].damage.tick_timer,
            dt_ms,
        ).finished {
            es[i - 1].damage.damage as int
        } else {
            0
        })
    }
}

/// How one frame of the contact system rewrites one enemy: the damage
/// timer ticks (and resets on a completed contact tick), `is_collided`
/// mirrors whether the enemy is within contact range of the player, the
/// state-change latch is set exactly when the contact state flipped, and
/// everything else is untouched.
pub open spec fn enemy_contact_rel(e: Enemy, e2: Enemy, p: Vec2i, dt_ms: u32) -> bool {
    let t1 = spec_ticked(e.damage.tick_timer, dt_ms);
    let coll = e.pos.dist2(p) < COLLISION_DISTANCE_MU * COLLISION_DISTANCE_MU;
    &&& e2.damage.tick_timer == if coll && t1.finished {
        Timer::spec_fresh(t1.duration_ms, t1.repeating)
    } else {
        t1
    }
    &&& e2.movable.is_collided == coll
    &&& e2.movable.is_state_changed == (e.movable.is_collided != coll)
    &&& e2.pos == e.pos
    &&& e2.flip_x == e.flip_x
    &&& e2.sprite_index == e.sprite_index
    &&& e2.anim_timer == e.anim_timer
    &&& e2.animatable == e.animatable
    &&& e2.health == e.health
    &&& e2.damage.damage == e.damage.damage
    &&& e2.experience == e.experience
    &&& e2.is_boss == e.is_boss
    &&& e2.movable.speed == e.movable.speed
    &&& e2.movable.direction == e.movable.direction
    &&& e2.movable.is_moving == e.movable.is_moving
    &&& e2.movable.current_animation_indices == e.movable.current_animation_indices
}

/// One frame of enemy-against-player contact: tick every enemy damage
/// timer; an enemy in contact range freezes (`is_collided`) and, when its
/// timer has completed, resets it and deals its damage to the player; the
/// state-change latch is set exactly when the contact state flipped.
#[verifier::rlimit(100)]
pub fn update_enemy_collisions(
    player_position: Vec2i,
    player_health: &mut Health,
    enemies: &mut Vec<Enemy>,
    dt_ms: u32,
)
    requires
        forall|i: int| 0 <= i < old(enemies)@.len() ==> (#[trigger] old(enemies)@[i]).wf(),
        forall|i: int|
            0 <= i < old(enemies)@.len() ==> (#[trigger] old(enemies)@[i]).sprite_index <= old(
                enemies,
            )@[i].movable.current_animation_indices.last,
        in_map(player_position),
        dt_ms <= MAX_FRAME_MS,
        old(enemies)@.len() <= 100_000,
        -1_000_000_000_000_000 <= old(player_health).total <= 1_000_000_000_000_000_000,
    ensures
        final(enemies)@.len() == old(enemies)@.len(),
        final(player_health).total == old(player_health).total - spec_melee_prefix(
            old(enemies)@,
            player_position,
            dt_ms,
            old(enemies)@.len() as int,
        ),
        forall|i: int|
            0 <= i < old(enemies)@.len() ==> enemy_contact_rel(
                old(enemies)@[i],
                #[trigger] final(enemies)@[i],
                player_position,
                dt_ms,
            ) && final(enemies)@[i].wf(),
{
    let ghost es0 = old(enemies)@;
    let mut i: usize = 0;
    while i < enemies.len()
        invariant
            i <= enemies@.len(),
            enemies@.len() == es0.len(),
            es0 == old(enemies)@,
            es0.len() <= 100_000,
            in_map(player_position),
            dt_ms <= MAX_FRAME_MS,
            forall|j: int| 0 <= j < es0.len() ==> (#[trigger] es0[j]).wf(),
            forall|j: int|
                0 <= j < es0.len() ==> (#[trigger] es0[j]).sprite_index
                    <= es0[j].movable.current_animation_indices.last,
            forall|j: int| i <= j < es0.len() ==> enemies@[j] == es0[j],
            -1_000_000_000_000_000 <= old(player_health).total <= 1_000_000_000_000_000_000,
            player_health.total == old(player_health).total - spec_melee_prefix(
                es0,
                player_position,
                dt_ms,
                i as int,
            ),
            0 <= spec_melee_prefix(es0, player_position, dt_ms, i as int) <= i
                * 2_000_000_000,
            forall|j: int|
                0 <= j < i ==> enemy_contact_rel(
                    es0[j],
                    #[trigger] enemies@[j],
                    player_position,
                    dt_ms,
                ) && enemies@[j].wf(),
        decreases enemies@.len() - i,
    {
        let mut e = enemies[i];
        let old_is_collided = e.movable.is_collided;
        e.damage.tick_timer.tick(dt_ms);

        let d2 = e.pos.distance_squared(player_position);
        let collided = d2 < COLLISION_DISTANCE_MU * COLLISION_DISTANCE_MU;
        if collided {
            if e.damage.tick_timer.finished {
                e.damage.tick_timer.reset();
                player_health.total = player_health.total - e.damage.damage;
            }
        }
        e.movable.is_collided = collided;
        e.movable.is_state_changed = old_is_collided != collided;
        enemies.set(i, e);
        proof {
            assert(spec_melee_prefix(es0, player_position, dt_ms, i + 1) == spec_melee_prefix(
                es0,
                player_position,
                dt_ms,
                i as int,
            ) + (
            if es0[i as int].pos.dist2(player_position) < COLLISION_DISTANCE_MU
                * COLLISION_DISTANCE_MU && spec_ticked(
                es0[i as int].damage.tick_timer,
                dt_ms,
            ).finished {
                es0[i as int].damage.damage as int
            } else {
                0
            }));
        }
        i = i + 1;
    }
}

/// One frame of the spawner in the boss stage: tick the wave timer, and on
/// each completion emit exactly one enemy of the stage's (boss) archetype.
pub fn spawn_boss(
    level_spawns: &mut LevelSpawns,
    player_position: Vec2i,
    dt_ms: u32,
    enemies: &mut Vec<Enemy>,
)
    requires
        old(level_spawns).wf(),
        dt_ms <= MAX_FRAME_MS,
        -1_500_000 <= player_position.x <= 1_500_000,
        -1_500_000 <= player_position.y <= 1_500_000,
        old(enemies)@.len() <= 100_000_000,
    ensures
        final(level_spawns).wf(),
        final(level_spawns).wave_timer == spec_ticked(old(level_spawns).wave_timer, dt_ms),
        final(level_spawns).stage_timer == old(level_spawns).stage_timer,
        final(level_spawns).current_stage == old(level_spawns).current_stage,
        ({
            let spawned = if spec_ticked(old(level_spawns).wave_timer, dt_ms).just_finished {
                1int
            } else {
                0int
            };
            &&& final(enemies)@.len() == old(enemies)@.len() + spawned
            &&& forall|i: int|
                0 <= i < old(enemies)@.len() ==> final(enemies)@[i] == old(enemies)@[i]
            &&& forall|i: int|
                old(enemies)@.len() <= i < final(enemies)@.len() ==> {
                    let e = #[trigger] final(enemies)@[i];
                    &&& e.wf()
                    &&& is_fresh_enemy(
                        e,
                        spec_enemy_type_for_stage(old(level_spawns).current_stage),
                        old(level_spawns).current_stage,
                    )
                    &&& in_map(e.pos)
                    &&& e.pos != player_position
                }
        }),
{
    level_spawns.wave_timer.tick(dt_ms);
    if level_spawns.wave_timer.just_finished {
        spawn_enemies(1, player_position, level_spawns.current_stage, enemies);
    }
}

} // verus!
