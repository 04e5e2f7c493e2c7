//! Projectile spawning, flight, and the collision/damage resolution pass.

use vstd::prelude::*;

use crate::level::{
    entity_pos_bounded, in_map, pos_bounded, MAP_HEIGHT_MU, MAP_WIDTH_MU, MAX_FRAME_MS,
};
use crate::math::{clamp_i64, diag_step, isqrt64, spec_clamp, spec_diag_of, spec_isqrt};
use crate::rng::{rand_flip, rand_u64_below};
use crate::player::CanLevel;
use crate::spawner::Enemy;
use crate::sprite::{
    spec_next_frame, spec_translation_for_direction, AnimationIndices, Direction,
    EffectSpriteSheetAnimatable, Movable, ProjectileDealsDamage, Vec2i,
};
use crate::timer::{spec_ticked, Timer};
use crate::weapons::{ProjectileAimMethod, ProjectileCategory, ProjectileProps, Weapon};

verus! {

/// Ceiling on a projectile's life, in milliseconds: a leak guard past which
/// it is despawned whether or not it ever collided.
pub const PROJECTILE_LIFETIME_MS: u32 = 20_000;

/// Speed every projectile travels at, in world units per second.
pub const PROJECTILE_SPEED: u32 = 100;

/// A live projectile: a copy of the weapon parameters that spawned it, its
/// motion and animation state, its age, and its single-use damage charge.
#[derive(Clone, Copy, Debug)]
pub struct Projectile {
    pub pos: Vec2i,
    pub movable: Movable,
    pub sprite_index: usize,
    pub anim_timer: Timer,
    pub elapsed_ms: u32,
    pub props: ProjectileProps,
    pub damage: ProjectileDealsDamage,
}

impl Projectile {
    pub open spec fn wf(self) -> bool {
        &&& self.movable.wf()
        &&& self.anim_timer.wf()
        &&& self.props.wf()
        &&& self.elapsed_ms <= PROJECTILE_LIFETIME_MS
        &&& self.sprite_index <= self.movable.current_animation_indices.last
        &&& 0 <= self.damage.damage <= 1_000_000_000
        &&& ({
            let reach = crate::level::ENTITY_POS_LIMIT_MU + self.movable.speed
                * self.elapsed_ms;
            &&& -reach <= self.pos.x <= reach
            &&& -reach <= self.pos.y <= reach
        })
    }
}

/// Positions a live projectile can reach stay inside the overflow-safe
/// coordinate range.
pub proof fn lemma_projectile_pos_bounded(p: Projectile)
    requires
        p.wf(),
    ensures
        pos_bounded(p.pos),
{
    assert(p.movable.speed * p.elapsed_ms <= 10_000 * 30_000) by (nonlinear_arith)
        requires
            p.movable.speed <= 10_000,
            p.elapsed_ms <= 30_000,
    ;
}

/// A projectile as `spawn_sprite` stamps it out for props `pr`, direction
/// `dir` and origin `origin`.
pub open spec fn is_fresh_projectile(
    p: Projectile,
    pr: ProjectileProps,
    dir: Vec2i,
    origin: Vec2i,
) -> bool {
    &&& p.pos == origin
    &&& p.movable == (Movable {
        speed: PROJECTILE_SPEED,
        direction: Direction::Custom(dir),
        is_moving: true,
        current_animation_indices: pr.projectile_sprite_indices,
        is_collided: false,
        is_state_changed: true,
    })
    &&& p.sprite_index == pr.projectile_sprite_indices.first
    &&& p.anim_timer == Timer::spec_fresh(100, true)
    &&& p.elapsed_ms == 0
    &&& p.props == pr
    &&& p.damage == (ProjectileDealsDamage {
        damage: pr.projectile_base_damage,
        is_triggered: false,
    })
}

/// Stamp out one projectile for a weapon at `origin`, aimed along
/// `direction_translation`, and append it to the live list.
pub fn spawn_sprite(
    weapon: &Weapon,
    direction_translation: Vec2i,
    origin: Vec2i,
    projectiles: &mut Vec<Projectile>,
)
    requires
        weapon.wf(),
        -1000 <= direction_translation.x <= 1000,
        -1000 <= direction_translation.y <= 1000,
        entity_pos_bounded(origin),
    ensures
        final(projectiles)@.len() == old(projectiles)@.len() + 1,
        forall|i: int|
            0 <= i < old(projectiles)@.len() ==> final(projectiles)@[i] == old(
                projectiles,
            )@[i],
        is_fresh_projectile(
            final(projectiles)@.last(),
            weapon.projectile_props,
            direction_translation,
            origin,
        ),
        final(projectiles)@.last().wf(),
{
    projectiles.push(
        Projectile {
            pos: origin,
            movable: Movable {
                speed: PROJECTILE_SPEED,
                direction: Direction::Custom(direction_translation),
                is_moving: true,
                current_animation_indices: weapon.projectile_props.projectile_sprite_indices,
                is_collided: false,
                is_state_changed: true,
            },
            sprite_index: weapon.projectile_props.projectile_sprite_indices.first,
            anim_timer: Timer::from_millis(100, true),
            elapsed_ms: 0,
            props: weapon.projectile_props,
            damage: ProjectileDealsDamage {
                damage: weapon.projectile_props.projectile_base_damage,
                is_triggered: false,
            },
        },
    );
}

/// The x component of the fixed-point unit vector along `(dx, dy)`, in
/// per-mille; zero for the zero vector.
pub open spec fn spec_norm_dx(dx: int, dy: int) -> int {
    let d2 = dx * dx + dy * dy;
    if d2 == 0 {
        0
    } else {
        let dist = spec_isqrt(d2);
        let m = ((vstd::math::abs(dx) as int) * 1000) / dist;
        if dx >= 0 {
            m
        } else {
            -m
        }
    }
}

/// The y component of the fixed-point unit vector along `(dx, dy)`.
pub open spec fn spec_norm_dy(dx: int, dy: int) -> int {
    let d2 = dx * dx + dy * dy;
    if d2 == 0 {
        0
    } else {
        let dist = spec_isqrt(d2);
        let m = ((vstd::math::abs(dy) as int) * 1000) / dist;
        if dy >= 0 {
            m
        } else {
            -m
        }
    }
}

/// Normalize a vector to fixed-point per-mille components; the zero vector
/// stays zero.
pub fn normalize_vec(v: Vec2i) -> (r: Vec2i)
    requires
        -2_000_000_000 <= v.x <= 2_000_000_000,
        -2_000_000_000 <= v.y <= 2_000_000_000,
    ensures
        r.x == spec_norm_dx(v.x as int, v.y as int),
        r.y == spec_norm_dy(v.x as int, v.y as int),
        -1000 <= r.x <= 1000,
        -1000 <= r.y <= 1000,
{
    let ax: u64 = if v.x >= 0 {
        v.x as u64
    } else {
        (-v.x) as u64
    };
    let ay: u64 = if v.y >= 0 {
        v.y as u64
    } else {
        (-v.y) as u64
    };
    proof {
        assert(ax * ax <= 2_000_000_000u64 * 2_000_000_000u64 && (ax as int) * (ax as int) == (
        v.x as int) * (v.x as int)) by (nonlinear_arith)
            requires
                ax <= 2_000_000_000u64,
                ax == vstd::math::abs(v.x as int),
        ;
        assert(ay * ay <= 2_000_000_000u64 * 2_000_000_000u64 && (ay as int) * (ay as int) == (
        v.y as int) * (v.y as int)) by (nonlinear_arith)
            requires
                ay <= 2_000_000_000u64,
                ay == vstd::math::abs(v.y as int),
        ;
    }
    let d2: u64 = ax * ax + ay * ay;
    if d2 == 0 {
        return Vec2i { x: 0, y: 0 };
    }
    let dist: u64 = isqrt64(d2);
    proof {
        assert(1 <= dist) by (nonlinear_arith)
            requires
                1 <= d2,
                (d2 as int) < ((dist as int) + 1) * ((dist as int) + 1),
                0 <= dist,
        ;
        assert(ax <= dist && ay <= dist) by (nonlinear_arith)
            requires
                (ax as int) * (ax as int) <= d2 as int,
                (ay as int) * (ay as int) <= d2 as int,
                (d2 as int) < ((dist as int) + 1) * ((dist as int) + 1),
                0 <= ax,
                0 <= ay,
                0 <= dist,
        ;
    }
    let nx: u64 = (ax * 1000) / dist;
    let ny: u64 = (ay * 1000) / dist;
    proof {
        assert(ax * 1000 <= dist * 1000 && ay * 1000 <= dist * 1000);
        vstd::arithmetic::div_mod::lemma_div_is_ordered(
            (ax * 1000) as int,
            (dist * 1000) as int,
            dist as int,
        );
        vstd::arithmetic::div_mod::lemma_div_is_ordered(
            (ay * 1000) as int,
            (dist * 1000) as int,
            dist as int,
        );
        vstd::arithmetic::div_mod::lemma_div_multiples_vanish(1000, dist as int);
        assert((dist as int) * 1000 == (dist as int) * 1000);
        assert(dist * 1000 == (dist as int) * 1000);
        assert((dist as int) * 1000 == 1000 * (dist as int)) by (nonlinear_arith);
        assert(nx <= 1000 && ny <= 1000);
    }
    let rx: i64 = if v.x >= 0 {
        nx as i64
    } else {
        -(nx as i64)
    };
    let ry: i64 = if v.y >= 0 {
        ny as i64
    } else {
        -(ny as i64)
    };
    Vec2i { x: rx, y: ry }
}

/// The closest live enemy to the player, with its squared distance, unless
/// none is within the weapon's aim range: enemies beyond the range must not
/// be shot at, and that case is a silent fallback, not an error.
pub fn get_closest_enemy(
    enemies: &Vec<Enemy>,
    player_position: Vec2i,
    projectile: &ProjectileProps,
) -> (r: Option<(Vec2i, i64)>)
    requires
        forall|i: int| 0 <= i < enemies@.len() ==> (#[trigger] enemies@[i]).wf(),
        entity_pos_bounded(player_position),
        projectile.wf(),
    ensures
        match r {
            Some(p) => {
                &&& exists|i: int|
                    0 <= i < enemies@.len() && (#[trigger] enemies@[i]).pos == p.0
                        && enemies@[i].pos.dist2(player_position) == p.1
                &&& forall|i: int|
                    0 <= i < enemies@.len() ==> p.1 <= (#[trigger] enemies@[i]).pos.dist2(
                        player_position,
                    )
                &&& p.1 <= projectile.projectile_aim_range * projectile.projectile_aim_range
            },
            None => forall|i: int|
                0 <= i < enemies@.len() ==> (#[trigger] enemies@[i]).pos.dist2(player_position)
                    > projectile.projectile_aim_range * projectile.projectile_aim_range,
        },
{
    let mut closest: Option<(Vec2i, i64)> = None;

    let mut i: usize = 0;
    while i < enemies.len()
        invariant
            i <= enemies@.len(),
            forall|j: int| 0 <= j < enemies@.len() ==> (#[trigger] enemies@[j]).wf(),
            entity_pos_bounded(player_position),
            match closest {
                Some(p) => {
                    &&& exists|j: int|
                        0 <= j < i && (#[trigger] enemies@[j]).pos == p.0 && enemies@[j].pos.dist2(
                            player_position,
                        ) == p.1
                    &&& forall|j: int|
                        0 <= j < i ==> p.1 <= (#[trigger] enemies@[j]).pos.dist2(player_position)
                },
                None => i == 0,
            },
        decreases enemies@.len() - i,
    {
        let e_pos = enemies[i].pos;
        let distance = e_pos.distance_squared(player_position);
        let better = match closest {
            Some(p) => distance < p.1,
            None => true,
        };
        if better {
            closest = Some((e_pos, distance));
        }
        i = i + 1;
    }

    match closest {
        Some(p) => {
            proof {
                assert(projectile.projectile_aim_range * projectile.projectile_aim_range
                    <= 100_000_000i64 * 100_000_000i64 && projectile.projectile_aim_range
                    * projectile.projectile_aim_range >= 0) by (nonlinear_arith)
                    requires
                        0 <= projectile.projectile_aim_range <= 100_000_000i64,
                ;
            }
            let max_distance = projectile.projectile_aim_range;
            if p.1 > max_distance * max_distance {
                None
            } else {
                Some(p)
            }
        },
        None => None,
    }
}

/// The position of a uniformly chosen enemy within the weapon's aim range
/// of the player, if any is in range.
pub fn get_random_enemy_position(
    enemies: &Vec<Enemy>,
    player_position: Vec2i,
    projectile: &ProjectileProps,
) -> (r: Option<Vec2i>)
    requires
        forall|i: int| 0 <= i < enemies@.len() ==> (#[trigger] enemies@[i]).wf(),
        entity_pos_bounded(player_position),
        projectile.wf(),
    ensures
        match r {
            Some(p) => exists|i: int|
                0 <= i < enemies@.len() && (#[trigger] enemies@[i]).pos == p && enemies@[i].pos.dist2(
                    player_position,
                ) < projectile.projectile_aim_range * projectile.projectile_aim_range,
            None => forall|i: int|
                0 <= i < enemies@.len() ==> (#[trigger] enemies@[i]).pos.dist2(player_position)
                    >= projectile.projectile_aim_range * projectile.projectile_aim_range,
        },
{
    proof {
        assert(projectile.projectile_aim_range * projectile.projectile_aim_range
            <= 100_000_000i64 * 100_000_000i64 && projectile.projectile_aim_range
            * projectile.projectile_aim_range >= 0) by (nonlinear_arith)
            requires
                0 <= projectile.projectile_aim_range <= 100_000_000i64,
        ;
    }
    let max_distance = projectile.projectile_aim_range;
    let range2 = max_distance * max_distance;

    let mut enemies_in_distance: Vec<(usize, Vec2i)> = Vec::new();
    let mut i: usize = 0;
    while i < enemies.len()
        invariant
            i <= enemies@.len(),
            forall|j: int| 0 <= j < enemies@.len() ==> (#[trigger] enemies@[j]).wf(),
            entity_pos_bounded(player_position),
            range2 == projectile.projectile_aim_range * projectile.projectile_aim_range,
            forall|k: int|
                0 <= k < enemies_in_distance@.len() ==> {
                    let el = #[trigger] enemies_in_distance@[k];
                    &&& 0 <= el.0 < i
                    &&& enemies@[el.0 as int].pos == el.1
                    &&& enemies@[el.0 as int].pos.dist2(player_position) < range2
                },
            (enemies_in_distance@.len() == 0) ==> forall|j: int|
                0 <= j < i ==> (#[trigger] enemies@[j]).pos.dist2(player_position) >= range2,
        decreases enemies@.len() - i,
    {
        let e_pos = enemies[i].pos;
        let distance = e_pos.distance_squared(player_position);
        if distance < range2 {
            enemies_in_distance.push((i, e_pos));
        }
        i = i + 1;
    }

    if enemies_in_distance.len() == 0 {
        return None;
    }

    let random_index = rand_u64_below(enemies_in_distance.len() as u64) as usize;
    let chosen = enemies_in_distance[random_index];
    proof {
        assert(enemies@[chosen.0 as int].pos == chosen.1 && enemies@[chosen.0 as int].pos.dist2(
            player_position,
        ) < range2);
    }
    Some(chosen.1)
}

/// A random point near the player: offsets below the aim range on x and
/// three quarters of it on y, each negated by a coin flip, clamped into the
/// map.
pub fn get_random_nearby_position(player_position: Vec2i, projectile: &ProjectileProps) -> (r:
    Vec2i)
    requires
        -1_500_000 <= player_position.x <= 1_500_000,
        -1_500_000 <= player_position.y <= 1_500_000,
        projectile.wf(),
        4 <= projectile.projectile_aim_range,
    ensures
        in_map(r),
        -projectile.projectile_aim_range < r.x - player_position.x
            < projectile.projectile_aim_range,
        -projectile.projectile_aim_range < r.y - player_position.y
            < projectile.projectile_aim_range,
{
    let range = projectile.projectile_aim_range;
    let rnd_x = rand_u64_below(range as u64) as i64;
    let rnd_y = rand_u64_below(((range * 3) / 4) as u64) as i64;

    let x_off = if rand_flip() {
        -rnd_x
    } else {
        rnd_x
    };
    let y_off = if rand_flip() {
        -rnd_y
    } else {
        rnd_y
    };

    let x_pos = player_position.x + x_off;
    let y_pos = player_position.y + y_off;

    let final_x_pos = clamp_i64(x_pos, -(MAP_WIDTH_MU / 2), MAP_WIDTH_MU / 2);
    let final_y_pos = clamp_i64(y_pos, -(MAP_HEIGHT_MU / 2), MAP_HEIGHT_MU / 2);

    Vec2i { x: final_x_pos, y: final_y_pos }
}

/// Flavor tag of a damage source; bookkeeping only, no mechanical effect.
#[derive(Clone, Copy, PartialEq, Eq, Structural, Debug)]
pub enum DamageType {
    Normal,
    Fire,
    Water,
    Earth,
    Lightning,
    Psychological,
}

/// What `spawn_projectile_for_aim_method` may have appended for props `pr`:
/// the projectile is freshly stamped out, and its origin and direction obey
/// the weapon's aim method (with the documented fallbacks when no enemy is
/// in range).
pub open spec fn projectile_spawn_ok(
    p: Projectile,
    pr: ProjectileProps,
    player_position: Vec2i,
    player_direction: Direction,
    enemies: Seq<Enemy>,
) -> bool {
    let range2 = pr.projectile_aim_range * pr.projectile_aim_range;
    match pr.projectile_aim_method {
        ProjectileAimMethod::RandomEnemy => {
            &&& is_fresh_projectile(p, pr, Vec2i { x: 0, y: 1000 }, p.pos)
            &&& ((exists|i: int|
                0 <= i < enemies.len() && (#[trigger] enemies[i]).pos == p.pos
                    && enemies[i].pos.dist2(player_position) < range2) || (in_map(p.pos)
                && -pr.projectile_aim_range < p.pos.x - player_position.x
                    < pr.projectile_aim_range && -pr.projectile_aim_range < p.pos.y
                    - player_position.y < pr.projectile_aim_range))
        },
        ProjectileAimMethod::Random => {
            &&& is_fresh_projectile(p, pr, Vec2i { x: 0, y: 1000 }, p.pos)
            &&& in_map(p.pos)
            &&& -pr.projectile_aim_range < p.pos.x - player_position.x
                < pr.projectile_aim_range
            &&& -pr.projectile_aim_range < p.pos.y - player_position.y
                < pr.projectile_aim_range
        },
        ProjectileAimMethod::NearestEnemy => {
            ||| (exists|i: int|
                {
                    let target = (#[trigger] enemies[i]).pos;
                    let dx = target.x - player_position.x;
                    let dy = target.y - player_position.y;
                    &&& 0 <= i < enemies.len()
                    &&& target.dist2(player_position) <= range2
                    &&& (forall|j: int|
                        0 <= j < enemies.len() ==> target.dist2(player_position) <= (
                        #[trigger] enemies[j]).pos.dist2(player_position))
                    &&& is_fresh_projectile(
                        p,
                        pr,
                        Vec2i {
                            x: spec_norm_dx(dx as int, dy as int) as i64,
                            y: spec_norm_dy(dx as int, dy as int) as i64,
                        },
                        player_position,
                    )
                })
            ||| ((forall|j: int|
                0 <= j < enemies.len() ==> (#[trigger] enemies[j]).pos.dist2(player_position)
                    > range2) && is_fresh_projectile(
                p,
                pr,
                spec_translation_for_direction(player_direction),
                player_position,
            ))
        },
        _ => is_fresh_projectile(
            p,
            pr,
            spec_translation_for_direction(player_direction),
            player_position,
        ),
    }
}

/// Resolve a weapon's aim method into an origin and direction, and spawn
/// one projectile: toward the nearest in-range enemy (else along the
/// player's facing), at a random in-range enemy (else at a random nearby
/// point), at a random nearby point, or from the player along its facing.
pub fn spawn_projectile_for_aim_method(
    weapon: &Weapon,
    player_position: Vec2i,
    player_direction: Direction,
    enemies: &Vec<Enemy>,
    projectiles: &mut Vec<Projectile>,
)
    requires
        weapon.wf(),
        4 <= weapon.projectile_props.projectile_aim_range,
        -1_500_000 <= player_position.x <= 1_500_000,
        -1_500_000 <= player_position.y <= 1_500_000,
        player_direction.wf(),
        forall|i: int| 0 <= i < enemies@.len() ==> (#[trigger] enemies@[i]).wf(),
    ensures
        final(projectiles)@.len() == old(projectiles)@.len() + 1,
        forall|i: int|
            0 <= i < old(projectiles)@.len() ==> final(projectiles)@[i] == old(
                projectiles,
            )@[i],
        projectile_spawn_ok(
            final(projectiles)@.last(),
            weapon.projectile_props,
            player_position,
            player_direction,
            enemies@,
        ),
        final(projectiles)@.last().wf(),
{
    let mut origin: Vec2i = player_position;
    let mut direction: Vec2i = crate::sprite::get_translation_for_direction(player_direction);

    match weapon.projectile_props.projectile_aim_method {
        ProjectileAimMethod::RandomEnemy => {
            let random_enemy = get_random_enemy_position(
                enemies,
                player_position,
                &weapon.projectile_props,
            );
            direction = Vec2i { x: 0, y: 1000 };
            match random_enemy {
                Some(vec) => {
                    origin = vec;
                },
                None => {
                    origin = get_random_nearby_position(
                        player_position,
                        &weapon.projectile_props,
                    );
                },
            }
        },
        ProjectileAimMethod::NearestEnemy => {
            let closest = get_closest_enemy(enemies, player_position, &weapon.projectile_props);
            match closest {
                Some((vec, _)) => {
                    direction = normalize_vec(
                        Vec2i { x: vec.x - player_position.x, y: vec.y - player_position.y },
                    );
                },
                None => {},
            }
        },
        ProjectileAimMethod::Random => {
            origin = get_random_nearby_position(player_position, &weapon.projectile_props);
            direction = Vec2i { x: 0, y: 1000 };
        },
        _ => {},
    }

    spawn_sprite(weapon, direction, origin, projectiles);
}

/// Every projectile of `ps2` past the length of `ps0` was spawned by some
/// weapon of `ws` whose ticked cooldown completed this frame, by that
/// weapon's aim method.
pub open spec fn weapons_fire_ok(
    ps0: Seq<Projectile>,
    ps2: Seq<Projectile>,
    ws: Seq<Weapon>,
    dt_ms: u32,
    player_position: Vec2i,
    player_direction: Direction,
    es: Seq<Enemy>,
) -> bool {
    forall|i: int|
        #![trigger ps2[i]]
        ps0.len() <= i < ps2.len() ==> ps2[i].wf() && exists|j: int|
            0 <= j < ws.len() && spec_ticked((#[trigger] ws[j]).tick_timer, dt_ms).finished
                && projectile_spawn_ok(
                ps2[i],
                ws[j].projectile_props,
                player_position,
                player_direction,
                es,
            )
}

/// How one frame rewrites one weapon: the cooldown ticks, everything else
/// is untouched.
pub open spec fn weapon_ticked_rel(w: Weapon, w2: Weapon, dt_ms: u32) -> bool {
    &&& w2.tick_timer == spec_ticked(w.tick_timer, dt_ms)
    &&& w2.variant == w.variant
    &&& w2.projectile_props == w.projectile_props
    &&& w2.name == w.name
    &&& w2.desc == w.desc
}

/// How many of the first `i` weapons complete their cooldown this frame.
pub open spec fn spec_fired_count(ws: Seq<Weapon>, dt_ms: u32, i: int) -> int
    decreases i,
{
    if i <= 0 {
        0
    } else {
        spec_fired_count(ws, dt_ms, i - 1) + (
        if spec_ticked(ws[i - 1].tick_timer, dt_ms).finished {
            1int
        } else {
            0int
        })
    }
}

/// One frame of weapon fire: tick every owned weapon's cooldown; each
/// weapon whose cooldown completed spawns exactly one projectile by its
/// aim method.
#[verifier::rlimit(60)]
pub fn spawn_weapon_projectiles(
    weapons: &mut Vec<Weapon>,
    player_position: Vec2i,
    player_direction: Direction,
    enemies: &Vec<Enemy>,
    projectiles: &mut Vec<Projectile>,
    dt_ms: u32,
)
    requires
        forall|i: int| 0 <= i < old(weapons)@.len() ==> (#[trigger] old(weapons)@[i]).wf(),
        forall|i: int|
            0 <= i < old(weapons)@.len() ==> 4 <= (
            #[trigger] old(weapons)@[i]).projectile_props.projectile_aim_range,
        -1_500_000 <= player_position.x <= 1_500_000,
        -1_500_000 <= player_position.y <= 1_500_000,
        player_direction.wf(),
        forall|i: int| 0 <= i < enemies@.len() ==> (#[trigger] enemies@[i]).wf(),
        forall|i: int| 0 <= i < old(projectiles)@.len() ==> (#[trigger] old(projectiles)@[i]).wf(),
        dt_ms <= MAX_FRAME_MS,
    ensures
        final(weapons)@.len() == old(weapons)@.len(),
        forall|i: int|
            0 <= i < old(weapons)@.len() ==> weapon_ticked_rel(
                old(weapons)@[i],
                #[trigger] final(weapons)@[i],
                dt_ms,
            ) && final(weapons)@[i].wf(),
        final(projectiles)@.len() == old(projectiles)@.len() + spec_fired_count(
            old(weapons)@,
            dt_ms,
            old(weapons)@.len() as int,
        ),
        final(projectiles)@.len() <= old(projectiles)@.len() + old(weapons)@.len(),
        forall|i: int|
            0 <= i < old(projectiles)@.len() ==> final(projectiles)@[i] == old(
                projectiles,
            )@[i],
        weapons_fire_ok(
            old(projectiles)@,
            final(projectiles)@,
            old(weapons)@,
            dt_ms,
            player_position,
            player_direction,
            enemies@,
        ),
{
        let mut i: usize = 0;
    while i < weapons.len()
        invariant
            i <= old(weapons)@.len(),
            weapons@.len() == old(weapons)@.len(),
                                    forall|j: int| 0 <= j < old(weapons)@.len() ==> (#[trigger] old(weapons)@[j]).wf(),
            forall|j: int|
                0 <= j < old(weapons)@.len() ==> 4 <= (
                #[trigger] old(weapons)@[j]).projectile_props.projectile_aim_range,
            forall|j: int| i <= j < old(weapons)@.len() ==> weapons@[j] == old(weapons)@[j],
            forall|j: int|
                0 <= j < i ==> weapon_ticked_rel(
                    old(weapons)@[j],
                    #[trigger] weapons@[j],
                    dt_ms,
                ) && weapons@[j].wf(),
            -1_500_000 <= player_position.x <= 1_500_000,
            -1_500_000 <= player_position.y <= 1_500_000,
            player_direction.wf(),
            forall|j: int| 0 <= j < enemies@.len() ==> (#[trigger] enemies@[j]).wf(),
            dt_ms <= MAX_FRAME_MS,
            0 <= spec_fired_count(old(weapons)@, dt_ms, i as int) <= i as int,
            projectiles@.len() == old(projectiles)@.len() + spec_fired_count(old(weapons)@, dt_ms, i as int),
            forall|j: int| 0 <= j < old(projectiles)@.len() ==> projectiles@[j] == old(projectiles)@[j],
            weapons_fire_ok(
                old(projectiles)@,
                projectiles@,
                old(weapons)@,
                dt_ms,
                player_position,
                player_direction,
                enemies@,
            ),
        decreases old(weapons)@.len() - i,
    {
        let mut w = weapons[i].clone();
        w.tick_timer.tick(dt_ms);
        let fired = w.tick_timer.finished;
        if fired {
            spawn_projectile_for_aim_method(
                &w,
                player_position,
                player_direction,
                enemies,
                projectiles,
            );
            proof {
                let newp = projectiles@.last();
                assert(spec_ticked(old(weapons)@[i as int].tick_timer, dt_ms).finished
                    && projectile_spawn_ok(
                    newp,
                    old(weapons)@[i as int].projectile_props,
                    player_position,
                    player_direction,
                    enemies@,
                ));
            }
        }
        weapons.set(i, w);
        i = i + 1;
    }
}

/// Whether a projectile travels after spawning: only aimed categories of
/// the travelling kinds move; everything else is a cast-at-a-point effect.
pub open spec fn spec_projectile_moves(p: Projectile) -> bool {
    &&& (p.props.projectile_aim_method == ProjectileAimMethod::PlayerDirection
        || p.props.projectile_aim_method == ProjectileAimMethod::NearestEnemy)
    &&& (p.props.projectile_category == ProjectileCategory::Projectile
        || p.props.projectile_category == ProjectileCategory::ProjectileAoe)
}

/// A frame displacement along one axis: the direction component (per-mille)
/// times the selected step.
pub open spec fn spec_axis_move(c: int, sel: int) -> int {
    if c >= 0 {
        (c * sel) / 1000
    } else {
        -(((-c) * sel) / 1000)
    }
}

/// One axis of projectile movement.
fn axis_move(c: i64, sel: u64) -> (m: i64)
    requires
        -1000 <= c <= 1000,
        sel <= 100_000_000,
    ensures
        m == spec_axis_move(c as int, sel as int),
        -(sel as int) <= m <= sel as int,
{
    let ac: u64 = if c >= 0 {
        c as u64
    } else {
        (-c) as u64
    };
    proof {
        assert(ac * sel <= 1000u64 * 100_000_000u64) by (nonlinear_arith)
            requires
                ac <= 1000,
                sel <= 100_000_000u64,
        ;
    }
    let mm = (ac * sel) / 1000;
    proof {
        assert(ac * sel <= 1000 * sel) by (nonlinear_arith)
            requires
                ac <= 1000,
                0 <= sel,
        ;
        vstd::arithmetic::div_mod::lemma_div_is_ordered(
            (ac * sel) as int,
            (1000 * sel) as int,
            1000,
        );
        vstd::arithmetic::div_mod::lemma_div_multiples_vanish(sel as int, 1000);
    }
    if c >= 0 {
        mm as i64
    } else {
        -(mm as i64)
    }
}

/// The projectile state after one frame of flight: travelling categories
/// advance by their direction times the frame step (with the diagonal
/// correction), the animation always ticks on its own timer, and the age
/// grows by the frame delta.
pub open spec fn spec_projectile_updated(p: Projectile, dt_ms: u32) -> Projectile {
    let n = p.movable.speed * dt_ms;
    let d = spec_diag_of(n as int);
    let dir = spec_translation_for_direction(p.movable.direction);
    let sel: int = if dir.x != 0 && dir.y != 0 {
        d
    } else {
        n as int
    };
    let pos1 = if spec_projectile_moves(p) {
        Vec2i {
            x: (p.pos.x + spec_axis_move(dir.x as int, sel)) as i64,
            y: (p.pos.y + spec_axis_move(dir.y as int, sel)) as i64,
        }
    } else {
        p.pos
    };
    let t1 = spec_ticked(p.anim_timer, dt_ms);
    let idx1: int = if t1.just_finished {
        spec_next_frame(p.sprite_index as int, p.movable.current_animation_indices)
    } else {
        p.sprite_index as int
    };
    Projectile {
        pos: pos1,
        anim_timer: t1,
        sprite_index: idx1 as usize,
        elapsed_ms: (p.elapsed_ms + dt_ms) as u32,
        ..p
    }
}

/// Whether an instant projectile finishes its one-shot animation this
/// frame (and so despawns).
pub open spec fn spec_instant_done(p: Projectile, dt_ms: u32) -> bool {
    &&& spec_ticked(p.anim_timer, dt_ms).just_finished
    &&& p.sprite_index >= p.movable.current_animation_indices.last
    &&& (p.props.projectile_category == ProjectileCategory::Instant
        || p.props.projectile_category == ProjectileCategory::InstantAoe)
}

/// Whether a projectile survives the frame: instant projectiles despawn
/// once their animation completes, and any projectile despawns past the
/// lifetime ceiling.
pub open spec fn spec_projectile_kept(p: Projectile, dt_ms: u32) -> bool {
    !spec_instant_done(p, dt_ms) && p.elapsed_ms + dt_ms <= PROJECTILE_LIFETIME_MS
}

/// The projectile list after one frame: every projectile updated, the
/// despawned ones removed, order kept.
pub open spec fn spec_updated_projectiles(ps: Seq<Projectile>, dt_ms: u32, i: int) -> Seq<
    Projectile,
>
    decreases i,
{
    if i <= 0 {
        Seq::empty()
    } else {
        let pre = spec_updated_projectiles(ps, dt_ms, i - 1);
        if spec_projectile_kept(ps[i - 1], dt_ms) {
            pre.push(spec_projectile_updated(ps[i - 1], dt_ms))
        } else {
            pre
        }
    }
}

/// One frame of projectile flight, animation and expiry for every live
/// projectile.
pub fn update_projectiles(projectiles: &mut Vec<Projectile>, dt_ms: u32)
    requires
        forall|i: int| 0 <= i < old(projectiles)@.len() ==> (#[trigger] old(projectiles)@[i]).wf(),
        dt_ms <= MAX_FRAME_MS,
    ensures
        final(projectiles)@ == spec_updated_projectiles(
            old(projectiles)@,
            dt_ms,
            old(projectiles)@.len() as int,
        ),
        final(projectiles)@.len() <= old(projectiles)@.len(),
        forall|i: int| 0 <= i < final(projectiles)@.len() ==> (#[trigger] final(projectiles)@[i]).wf(),
{
    let ghost ps0 = projectiles@;
    let mut result: Vec<Projectile> = Vec::new();
    let mut i: usize = 0;
    while i < projectiles.len()
        invariant
            i <= ps0.len(),
            projectiles@ == ps0,
            forall|j: int| 0 <= j < ps0.len() ==> (#[trigger] ps0[j]).wf(),
            dt_ms <= MAX_FRAME_MS,
            result@ == spec_updated_projectiles(ps0, dt_ms, i as int),
            result@.len() <= i,
            forall|j: int| 0 <= j < result@.len() ==> (#[trigger] result@[j]).wf(),
        decreases ps0.len() - i,
    {
        let mut p = projectiles[i];
        let ghost p0 = p;

        let moves = (matches!(
            p.props.projectile_aim_method,
            ProjectileAimMethod::PlayerDirection,
        ) || matches!(p.props.projectile_aim_method, ProjectileAimMethod::NearestEnemy))
            && (matches!(p.props.projectile_category, ProjectileCategory::Projectile)
            || matches!(p.props.projectile_category, ProjectileCategory::ProjectileAoe));

        if moves {
            let sp: u64 = p.movable.speed as u64;
            let dtv: u64 = dt_ms as u64;
            proof {
                assert(sp * dtv <= 100_000_000) by (nonlinear_arith)
                    requires
                        sp <= 10_000,
                        dtv <= 10_000,
                ;
            }
            let n64: u64 = sp * dtv;
            let dir = crate::sprite::get_translation_for_direction(p.movable.direction);
            let sel: u64 = if dir.x != 0 && dir.y != 0 {
                diag_step(n64)
            } else {
                n64
            };
            proof {
                assert(p.movable.speed * p.elapsed_ms <= 10_000 * 20_000) by (nonlinear_arith)
                    requires
                        p.movable.speed <= 10_000,
                        p.elapsed_ms <= 20_000,
                ;
            }
            p.pos = Vec2i {
                x: p.pos.x + axis_move(dir.x, sel),
                y: p.pos.y + axis_move(dir.y, sel),
            };
        }

        p.anim_timer.tick(dt_ms);
        let mut instant_done = false;
        if p.anim_timer.just_finished {
            if p.sprite_index >= p.movable.current_animation_indices.last {
                if matches!(p.props.projectile_category, ProjectileCategory::Instant)
                    || matches!(p.props.projectile_category, ProjectileCategory::InstantAoe) {
                    instant_done = true;
                }
                p.sprite_index = p.movable.current_animation_indices.first;
            } else {
                p.sprite_index = p.sprite_index + 1;
            }
        }

        p.elapsed_ms = p.elapsed_ms + dt_ms;

        proof {
            assert(p == spec_projectile_updated(p0, dt_ms));
            assert(instant_done == spec_instant_done(p0, dt_ms));
            assert(p0.movable.speed * (p0.elapsed_ms + dt_ms) == p0.movable.speed
                * p0.elapsed_ms + p0.movable.speed * dt_ms) by (nonlinear_arith);
            assert(p0.movable.speed * dt_ms <= 10_000 * 10_000) by (nonlinear_arith)
                requires
                    p0.movable.speed <= 10_000,
                    dt_ms <= 10_000,
            ;
        }
        if !instant_done && p.elapsed_ms <= PROJECTILE_LIFETIME_MS {
            result.push(p);
        }
        i = i + 1;
    }
    *projectiles = result;
}

/// The kind of a one-shot visual effect.
#[derive(Clone, Copy, PartialEq, Eq, Structural, Debug)]
pub enum ExplosionType {
    Simple,
}

/// Marker of a death explosion; pure animation, no gameplay state.
#[derive(Clone, Copy, PartialEq, Eq, Structural, Debug)]
pub struct Explosion {
    pub explosion_type: ExplosionType,
}

/// Marker of a lighter hit spark; pure animation, no gameplay state.
#[derive(Clone, Copy, PartialEq, Eq, Structural, Debug)]
pub struct DamageEffect {
    pub explosion_type: ExplosionType,
}

/// A one-shot visual effect entity: it plays its animation once and
/// despawns at the last frame.
#[derive(Clone, Copy, PartialEq, Eq, Structural, Debug)]
pub struct Effect {
    pub pos: Vec2i,
    pub sprite_index: usize,
    pub anim_timer: Timer,
    pub animatable: EffectSpriteSheetAnimatable,
    pub explosion: Option<Explosion>,
    pub damage_effect: Option<DamageEffect>,
}

impl Effect {
    pub open spec fn wf(self) -> bool {
        &&& self.anim_timer.wf()
        &&& self.animatable.anim_indices.wf()
        &&& self.sprite_index <= self.animatable.anim_indices.last
    }
}

/// The death explosion entity spawned at a position.
pub open spec fn spec_fresh_explosion(position: Vec2i) -> Effect {
    Effect {
        pos: position,
        sprite_index: 0,
        anim_timer: Timer::spec_fresh(50, true),
        animatable: EffectSpriteSheetAnimatable {
            anim_indices: AnimationIndices { first: 0, last: 5 },
        },
        explosion: Some(Explosion { explosion_type: ExplosionType::Simple }),
        damage_effect: None,
    }
}

/// The hit-spark entity spawned at a position.
pub open spec fn spec_fresh_damage_effect(position: Vec2i) -> Effect {
    Effect {
        pos: position,
        sprite_index: 0,
        anim_timer: Timer::spec_fresh(50, true),
        animatable: EffectSpriteSheetAnimatable {
            anim_indices: AnimationIndices { first: 0, last: 12 },
        },
        explosion: None,
        damage_effect: Some(DamageEffect { explosion_type: ExplosionType::Simple }),
    }
}

/// The death explosion as spawned at a position.
pub open spec fn is_fresh_explosion(e: Effect, position: Vec2i) -> bool {
    &&& e.pos == position
    &&& e.sprite_index == 0
    &&& e.anim_timer == Timer::spec_fresh(50, true)
    &&& e.animatable == (EffectSpriteSheetAnimatable {
        anim_indices: AnimationIndices { first: 0, last: 5 },
    })
    &&& e.explosion == Some(Explosion { explosion_type: ExplosionType::Simple })
    &&& e.damage_effect.is_none()
}

/// The hit spark as spawned at a position.
pub open spec fn is_fresh_damage_effect(e: Effect, position: Vec2i) -> bool {
    &&& e.pos == position
    &&& e.sprite_index == 0
    &&& e.anim_timer == Timer::spec_fresh(50, true)
    &&& e.animatable == (EffectSpriteSheetAnimatable {
        anim_indices: AnimationIndices { first: 0, last: 12 },
    })
    &&& e.explosion.is_none()
    &&& e.damage_effect == Some(DamageEffect { explosion_type: ExplosionType::Simple })
}

/// Spawn the death explosion at a defeated enemy's position.
pub fn spawn_explosion_at_position(effects: &mut Vec<Effect>, position: Vec2i)
    ensures
        final(effects)@.len() == old(effects)@.len() + 1,
        forall|i: int| 0 <= i < old(effects)@.len() ==> final(effects)@[i] == old(effects)@[i],
        final(effects)@.last() == spec_fresh_explosion(position),
        is_fresh_explosion(final(effects)@.last(), position),
        final(effects)@.last().wf(),
{
    effects.push(
        Effect {
            pos: position,
            sprite_index: 0,
            anim_timer: Timer::from_millis(50, true),
            animatable: EffectSpriteSheetAnimatable {
                anim_indices: AnimationIndices { first: 0, last: 5 },
            },
            explosion: Some(Explosion { explosion_type: ExplosionType::Simple }),
            damage_effect: None,
        },
    );
}

/// Spawn the lighter hit spark at a surviving enemy's position.
pub fn spawn_damage_effect_at_position(effects: &mut Vec<Effect>, position: Vec2i)
    ensures
        final(effects)@.len() == old(effects)@.len() + 1,
        forall|i: int| 0 <= i < old(effects)@.len() ==> final(effects)@[i] == old(effects)@[i],
        final(effects)@.last() == spec_fresh_damage_effect(position),
        is_fresh_damage_effect(final(effects)@.last(), position),
        final(effects)@.last().wf(),
{
    effects.push(
        Effect {
            pos: position,
            sprite_index: 0,
            anim_timer: Timer::from_millis(50, true),
            animatable: EffectSpriteSheetAnimatable {
                anim_indices: AnimationIndices { first: 0, last: 12 },
            },
            explosion: None,
            damage_effect: Some(DamageEffect { explosion_type: ExplosionType::Simple }),
        },
    );
}

/// The effect state after one frame: the timer ticks, and on a completed
/// interval the frame index advances by one.
pub open spec fn spec_effect_updated(e: Effect, dt_ms: u32) -> Effect {
    let t1 = spec_ticked(e.anim_timer, dt_ms);
    let idx1: int = if t1.just_finished && e.sprite_index < e.animatable.anim_indices.last {
        e.sprite_index + 1
    } else {
        e.sprite_index as int
    };
    Effect { anim_timer: t1, sprite_index: idx1 as usize, ..e }
}

/// Whether an effect survives the frame: it despawns when its timer
/// completes with the animation already at its last frame.
pub open spec fn spec_effect_kept(e: Effect, dt_ms: u32) -> bool {
    !(spec_ticked(e.anim_timer, dt_ms).just_finished && e.sprite_index
        >= e.animatable.anim_indices.last)
}

/// The effect list after one frame.
pub open spec fn spec_updated_effects(es: Seq<Effect>, dt_ms: u32, i: int) -> Seq<Effect>
    decreases i,
{
    if i <= 0 {
        Seq::empty()
    } else {
        let pre = spec_updated_effects(es, dt_ms, i - 1);
        if spec_effect_kept(es[i - 1], dt_ms) {
            pre.push(spec_effect_updated(es[i - 1], dt_ms))
        } else {
            pre
        }
    }
}

/// One frame of the one-shot effects: advance each animation, despawn the
/// finished ones.
pub fn update_explosions_damage_effects(effects: &mut Vec<Effect>, dt_ms: u32)
    requires
        forall|i: int| 0 <= i < old(effects)@.len() ==> (#[trigger] old(effects)@[i]).wf(),
        dt_ms <= MAX_FRAME_MS,
    ensures
        final(effects)@ == spec_updated_effects(
            old(effects)@,
            dt_ms,
            old(effects)@.len() as int,
        ),
        forall|i: int| 0 <= i < final(effects)@.len() ==> (#[trigger] final(effects)@[i]).wf(),
{
    let ghost es0 = effects@;
    let mut result: Vec<Effect> = Vec::new();
    let mut i: usize = 0;
    while i < effects.len()
        invariant
            i <= es0.len(),
            effects@ == es0,
            forall|j: int| 0 <= j < es0.len() ==> (#[trigger] es0[j]).wf(),
            dt_ms <= MAX_FRAME_MS,
            result@ == spec_updated_effects(es0, dt_ms, i as int),
            forall|j: int| 0 <= j < result@.len() ==> (#[trigger] result@[j]).wf(),
        decreases es0.len() - i,
    {
        let mut e = effects[i];
        let ghost e0 = e;
        e.anim_timer.tick(dt_ms);
        let mut done = false;
        if e.anim_timer.just_finished {
            if e.sprite_index >= e.animatable.anim_indices.last {
                done = true;
            } else {
                e.sprite_index = e.sprite_index + 1;
            }
        }
        proof {
            assert(e == spec_effect_updated(e0, dt_ms));
            assert(done == !spec_effect_kept(e0, dt_ms));
        }
        if !done {
            result.push(e);
        }
        i = i + 1;
    }
    *effects = result;
}

/// One pending damage application against one enemy, collected during a
/// hit scan and applied only after the scan completes.
#[derive(Clone, Copy, PartialEq, Eq, Structural, Debug)]
pub struct DamageEvent {
    /// Damage to apply, in milli-points.
    pub damage: i64,
    /// Index of the target in the live enemy list.
    pub entity_index: usize,
    pub damage_type: DamageType,
}

/// The experience gate after one award: the award is added, and if the
/// accumulator reaches the level threshold, the threshold is subtracted
/// (the excess rolls over) and the level advances by exactly one —
/// never more, whatever the award.
pub open spec fn spec_add_experience(lvl: CanLevel, experience: u64) -> (CanLevel, bool) {
    let total = lvl.experience + experience;
    if total >= lvl.level_step {
        (
            CanLevel {
                experience: (total - lvl.level_step) as u64,
                level: (lvl.level + 1) as u32,
                level_step: lvl.level_step,
            },
            true,
        )
    } else {
        (CanLevel { experience: total as u64, ..lvl }, false)
    }
}

/// Add a defeated enemy's experience to the player's accumulator; reports
/// whether a level was gained.
pub fn add_player_experience(experience: u64, lvl: &mut CanLevel) -> (leveled: bool)
    requires
        old(lvl).wf(),
        experience <= 1_000_000,
        old(lvl).experience <= 0x4000_0000_0000_0000,
        old(lvl).level < 0xffff_ffff,
    ensures
        final(lvl).wf(),
        (*final(lvl), leveled) == spec_add_experience(*old(lvl), experience),
{
    lvl.experience = lvl.experience + experience;

    if lvl.experience >= lvl.level_step {
        lvl.experience = lvl.experience - lvl.level_step;
        lvl.level = lvl.level + 1;
        return true;
    }

    false
}

/// Level-up idempotence: one award advances the level by exactly one when
/// the threshold is reached and not at all otherwise — never by more, even
/// when a single award exceeds the threshold by several levels' worth; an
/// award landing exactly on the threshold rolls the accumulator over to
/// zero.
pub proof fn lemma_level_up_single_step(lvl: CanLevel, experience: u64)
    requires
        lvl.wf(),
        lvl.level < 0xffff_ffffu32,
        lvl.experience + experience <= u64::MAX,
    ensures
        ({
            let (lvl2, leveled) = spec_add_experience(lvl, experience);
            &&& lvl2.level <= lvl.level + 1
            &&& leveled ==> lvl2.level == lvl.level + 1
            &&& !leveled ==> lvl2.level == lvl.level
            &&& (lvl.experience + experience == lvl.level_step) ==> (lvl2.experience == 0
                && lvl2.level == lvl.level + 1)
            &&& leveled ==> lvl2.experience == lvl.experience + experience - lvl.level_step
        }),
{
}

/// The state of enemies, experience gate and session flags after applying
/// the damage events from index `i` on: each event subtracts its damage
/// from its target's health; a target at zero or below awards its
/// experience (possibly advancing a level, which raises the level-up flag
/// while the weapon roster is not full), and a defeated boss stops the
/// application and raises the boss flag.  The last component lists the
/// visual effects the batch spawns, in order: a death explosion at each
/// non-boss defeat's position, a lighter hit spark at each surviving
/// target's position.
pub open spec fn spec_apply_events(
    es: Seq<Enemy>,
    lvl: CanLevel,
    events: Seq<DamageEvent>,
    weapons_len: int,
    i: int,
) -> (Seq<Enemy>, CanLevel, bool, bool, Seq<Effect>)
    decreases events.len() - i,
{
    if i < 0 || i >= events.len() {
        (es, lvl, false, false, Seq::empty())
    } else {
        let ev = events[i];
        if ev.entity_index >= es.len() {
            spec_apply_events(es, lvl, events, weapons_len, i + 1)
        } else {
            let e = es[ev.entity_index as int];
            let h2 = e.health.total - ev.damage;
            let es1 = es.update(
                ev.entity_index as int,
                Enemy { health: crate::sprite::Health { total: h2 as i64 }, ..e },
            );
            if h2 <= 0 {
                let r = spec_add_experience(lvl, e.experience.experience);
                let lu = r.1 && weapons_len < crate::weapons::NUM_WEAPON_VARIANTS;
                if e.is_boss {
                    (es1, r.0, lu, true, Seq::empty())
                } else {
                    let rest = spec_apply_events(es1, r.0, events, weapons_len, i + 1);
                    (
                        rest.0,
                        rest.1,
                        lu || rest.2,
                        rest.3,
                        seq![spec_fresh_explosion(e.pos)] + rest.4,
                    )
                }
            } else {
                let rest = spec_apply_events(es1, lvl, events, weapons_len, i + 1);
                (
                    rest.0,
                    rest.1,
                    rest.2,
                    rest.3,
                    seq![spec_fresh_damage_effect(e.pos)] + rest.4,
                )
            }
        }
    }
}

/// Apply a batch of damage events to the enemies: subtract damage, award
/// experience for defeats, spawn an explosion at each defeat and a hit
/// spark at each surviving target, and stop at a defeated boss.  Returns
/// (level-up triggered, boss defeated).
pub fn apply_damage_events(
    events: &Vec<DamageEvent>,
    enemies: &mut Vec<Enemy>,
    lvl: &mut CanLevel,
    weapons_len: usize,
    effects: &mut Vec<Effect>,
) -> (r: (bool, bool))
    requires
        forall|i: int|
            0 <= i < old(enemies)@.len() ==> (#[trigger] old(enemies)@[i]).wf_except_health(),
        forall|i: int|
            0 <= i < old(enemies)@.len() ==> (#[trigger] old(enemies)@[i]).health.total
                >= -4_000_000_000_000,
        forall|i: int|
            0 <= i < events@.len() ==> 0 <= (#[trigger] events@[i]).damage <= 1_000_000_000,
        events@.len() <= 100_000,
        old(lvl).wf(),
        old(lvl).experience <= 0x1000_0000_0000_0000,
        old(lvl).level <= 2_000_000_000,
    ensures
        ({
            let r2 = spec_apply_events(
                old(enemies)@,
                *old(lvl),
                events@,
                weapons_len as int,
                0,
            );
            &&& final(enemies)@ == r2.0
            &&& *final(lvl) == r2.1
            &&& r == (r2.2, r2.3)
            &&& final(effects)@ == old(effects)@ + r2.4
        }),
        forall|i: int| 0 <= i < old(effects)@.len() ==> final(effects)@[i] == old(effects)@[i],
        old(effects)@.len() <= final(effects)@.len(),
        forall|i: int|
            old(effects)@.len() <= i < final(effects)@.len() ==> (
            #[trigger] final(effects)@[i]).wf(),
{
    let ghost es0 = old(enemies)@;
    let ghost lvl0 = *old(lvl);
    let ghost ef0 = old(effects)@;
    let mut level_up = false;
    let mut boss_defeated = false;
    let mut i: usize = 0;
    while i < events.len() && !boss_defeated
        invariant
            i <= events@.len(),
            events@.len() <= 100_000,
            enemies@.len() == es0.len(),
            forall|j: int|
                0 <= j < events@.len() ==> 0 <= (#[trigger] events@[j]).damage
                    <= 1_000_000_000,
            forall|j: int| 0 <= j < es0.len() ==> (#[trigger] es0[j]).wf_except_health(),
            forall|j: int| 0 <= j < enemies@.len() ==> (#[trigger] enemies@[j]).wf_except_health(),
            forall|j: int|
                0 <= j < enemies@.len() ==> (#[trigger] enemies@[j]).health.total
                    >= -4_000_000_000_000 - (i as int) * 1_000_000_000,
            lvl.wf(),
            lvl.experience <= lvl0.experience + (i as int) * 1_000_000,
            lvl.level <= lvl0.level + i,
            lvl0.experience <= 0x1000_0000_0000_0000,
            lvl0.level <= 2_000_000_000,
            !boss_defeated ==> spec_apply_events(es0, lvl0, events@, weapons_len as int, 0)
                == ({
                let rest = spec_apply_events(
                    enemies@,
                    *lvl,
                    events@,
                    weapons_len as int,
                    i as int,
                );
                (
                    rest.0,
                    rest.1,
                    level_up || rest.2,
                    rest.3,
                    effects@.skip(ef0.len() as int) + rest.4,
                )
            }),
            boss_defeated ==> spec_apply_events(es0, lvl0, events@, weapons_len as int, 0) == (
                enemies@,
                *lvl,
                level_up,
                true,
                effects@.skip(ef0.len() as int),
            ),
            forall|j: int| 0 <= j < ef0.len() ==> effects@[j] == ef0[j],
            ef0.len() <= effects@.len(),
            forall|j: int| ef0.len() <= j < effects@.len() ==> (#[trigger] effects@[j]).wf(),
        decreases events@.len() - i,
    {
        let ev = events[i];
        if ev.entity_index < enemies.len() {
            let mut e = enemies[ev.entity_index];
            e.health.total = e.health.total - ev.damage;
            enemies.set(ev.entity_index, e);

            if e.health.total <= 0 {
                let leveled = add_player_experience(e.experience.experience, lvl);
                if leveled {
                    if weapons_len < crate::weapons::NUM_WEAPON_VARIANTS {
                        level_up = true;
                    }
                }
                if e.is_boss {
                    boss_defeated = true;
                } else {
                    spawn_explosion_at_position(effects, e.pos);
                }
            } else {
                spawn_damage_effect_at_position(effects, e.pos);
            }
        }
        i = i + 1;
    }
    (level_up, boss_defeated)
}

/// Whether a projectile is of an area category.
pub open spec fn spec_aoe_cat(p: Projectile) -> bool {
    p.props.projectile_category == ProjectileCategory::ProjectileAoe
        || p.props.projectile_category == ProjectileCategory::InstantAoe
}

/// Whether a projectile is of an instant category (it lingers to finish
/// its one-shot animation after its damage triggered).
pub open spec fn spec_instant_cat(p: Projectile) -> bool {
    p.props.projectile_category == ProjectileCategory::Instant
        || p.props.projectile_category == ProjectileCategory::InstantAoe
}

/// The first enemy index at or past `i` within collision distance of the
/// projectile, if any.
pub open spec fn spec_first_hit(p: Projectile, es: Seq<Enemy>, i: int) -> Option<int>
    decreases es.len() - i,
{
    if i < 0 || i >= es.len() {
        None
    } else if es[i].pos.dist2(p.pos) < p.props.spec_collision_distance_mu()
        * p.props.spec_collision_distance_mu() {
        Some(i)
    } else {
        spec_first_hit(p, es, i + 1)
    }
}

/// The damage an area hit deals each enemy: the projectile's damage scaled
/// down by the area scale.
pub open spec fn spec_aoe_damage(p: Projectile) -> int {
    p.damage.damage * p.props.projectile_aoe_damage_scale_pm / 1000
}

/// The area damage events against the first `j` enemies: one event per
/// enemy strictly within the area radius of the projectile, at the scaled
/// damage.
pub open spec fn spec_aoe_events(p: Projectile, es: Seq<Enemy>, j: int) -> Seq<DamageEvent>
    decreases j,
{
    if j <= 0 {
        Seq::empty()
    } else {
        let pre = spec_aoe_events(p, es, j - 1);
        if p.props.projectile_aoe_radius > 0 && es[j - 1].pos.dist2(p.pos)
            < p.props.projectile_aoe_radius * p.props.projectile_aoe_radius {
            pre.push(
                DamageEvent {
                    damage: spec_aoe_damage(p) as i64,
                    entity_index: (j - 1) as usize,
                    damage_type: p.props.projectile_damage_type,
                },
            )
        } else {
            pre
        }
    }
}

/// The damage events one untriggered projectile produces this frame: none
/// without a collision; on a first collision, either one full-damage event
/// against the enemy hit, or — for area categories — one scaled event per
/// enemy within the area radius.
pub open spec fn spec_hit_events(p: Projectile, es: Seq<Enemy>) -> Seq<DamageEvent> {
    match spec_first_hit(p, es, 0) {
        None => Seq::empty(),
        Some(i) => {
            if spec_aoe_cat(p) {
                spec_aoe_events(p, es, es.len() as int)
            } else {
                seq![
                    DamageEvent {
                        damage: p.damage.damage,
                        entity_index: i as usize,
                        damage_type: p.props.projectile_damage_type,
                    },
                ]
            }
        },
    }
}

/// Area damage scaling: every event of an area hit targets an enemy
/// strictly within the area radius and carries exactly the base damage
/// scaled by the area damage scale; every enemy within the radius gets
/// exactly one event; enemies outside the radius get none.
/// Payload and order of the area events: every event targets an earlier
/// enemy strictly within the radius, carries the scaled damage, and the
/// targets are strictly increasing (so no enemy gets two events).
proof fn lemma_aoe_events_payload(p: Projectile, es: Seq<Enemy>, j: int)
    requires
        0 <= j <= es.len(),
        j <= usize::MAX,
        0 <= p.damage.damage <= 1_000_000_000,
        0 <= p.props.projectile_aoe_damage_scale_pm <= 1000,
    ensures
        ({
            let evts = spec_aoe_events(p, es, j);
            let r2 = p.props.projectile_aoe_radius * p.props.projectile_aoe_radius;
            &&& evts.len() <= j
            &&& forall|k: int|
                0 <= k < evts.len() ==> {
                    let ev = #[trigger] evts[k];
                    &&& 0 <= ev.entity_index < j
                    &&& es[ev.entity_index as int].pos.dist2(p.pos) < r2
                    &&& p.props.projectile_aoe_radius > 0
                    &&& ev.damage == spec_aoe_damage(p)
                    &&& ev.damage_type == p.props.projectile_damage_type
                }
            &&& forall|k1: int, k2: int|
                0 <= k1 < k2 < evts.len() ==> evts[k1].entity_index < evts[k2].entity_index
        }),
    decreases j,
{
    lemma_aoe_damage_le_base_aux(p);
    if j > 0 {
        lemma_aoe_events_payload(p, es, j - 1);
        let evts = spec_aoe_events(p, es, j);
        let pre = spec_aoe_events(p, es, j - 1);
        let r2 = p.props.projectile_aoe_radius * p.props.projectile_aoe_radius;
        if p.props.projectile_aoe_radius > 0 && es[j - 1].pos.dist2(p.pos) < r2 {
            let ev = DamageEvent {
                damage: spec_aoe_damage(p) as i64,
                entity_index: (j - 1) as usize,
                damage_type: p.props.projectile_damage_type,
            };
            assert(evts == pre.push(ev));
            assert forall|k1: int, k2: int|
                0 <= k1 < k2 < evts.len() implies evts[k1].entity_index
                < evts[k2].entity_index by {
                if k2 == evts.len() - 1 {
                    assert(evts[k1] == pre[k1]);
                    assert(pre[k1].entity_index < j - 1);
                }
            }
        } else {
            assert(evts == pre);
        }
    }
}

/// Coverage of the area events: every enemy strictly within the radius is
/// targeted by some event.
proof fn lemma_aoe_events_coverage(p: Projectile, es: Seq<Enemy>, j: int)
    requires
        0 <= j <= es.len(),
        j <= usize::MAX,
    ensures
        forall|t: int|
            0 <= t < j && p.props.projectile_aoe_radius > 0 && (#[trigger] es[t]).pos.dist2(
                p.pos,
            ) < p.props.projectile_aoe_radius * p.props.projectile_aoe_radius ==> exists|k: int|
                0 <= k < spec_aoe_events(p, es, j).len() && (#[trigger] spec_aoe_events(
                    p,
                    es,
                    j,
                )[k]).entity_index == t,
    decreases j,
{
    if j > 0 {
        lemma_aoe_events_coverage(p, es, j - 1);
        let evts = spec_aoe_events(p, es, j);
        let pre = spec_aoe_events(p, es, j - 1);
        let r2 = p.props.projectile_aoe_radius * p.props.projectile_aoe_radius;
        assert forall|t: int|
            0 <= t < j && p.props.projectile_aoe_radius > 0 && (#[trigger] es[t]).pos.dist2(
                p.pos,
            ) < r2 implies exists|k: int|
                0 <= k < evts.len() && (#[trigger] evts[k]).entity_index == t by {
            if t < j - 1 {
                let k = choose|k: int|
                    0 <= k < pre.len() && (#[trigger] pre[k]).entity_index == t;
                assert(evts[k].entity_index == t);
            } else {
                let ev = DamageEvent {
                    damage: spec_aoe_damage(p) as i64,
                    entity_index: (j - 1) as usize,
                    damage_type: p.props.projectile_damage_type,
                };
                assert(evts == pre.push(ev));
                assert(evts[evts.len() - 1].entity_index == t);
            }
        }
    }
}

/// Area damage scaling: every event of an area hit targets an enemy
/// strictly within the area radius and carries exactly the base damage
/// scaled by the area damage scale; every enemy within the radius gets
/// exactly one event; enemies outside the radius get none.
pub proof fn lemma_aoe_damage_scaling(p: Projectile, es: Seq<Enemy>, j: int)
    requires
        0 <= j <= es.len(),
        j <= usize::MAX,
        0 <= p.damage.damage <= 1_000_000_000,
        0 <= p.props.projectile_aoe_damage_scale_pm <= 1000,
    ensures
        ({
            let evts = spec_aoe_events(p, es, j);
            let r2 = p.props.projectile_aoe_radius * p.props.projectile_aoe_radius;
            &&& evts.len() <= j
            &&& forall|k: int|
                0 <= k < evts.len() ==> {
                    let ev = #[trigger] evts[k];
                    &&& 0 <= ev.entity_index < j
                    &&& es[ev.entity_index as int].pos.dist2(p.pos) < r2
                    &&& p.props.projectile_aoe_radius > 0
                    &&& ev.damage == spec_aoe_damage(p)
                    &&& ev.damage_type == p.props.projectile_damage_type
                }
            &&& forall|t: int|
                0 <= t < j && p.props.projectile_aoe_radius > 0 && (#[trigger] es[t]).pos.dist2(
                    p.pos,
                ) < r2 ==> exists|k: int|
                    0 <= k < evts.len() && (#[trigger] evts[k]).entity_index == t
            &&& forall|k1: int, k2: int|
                0 <= k1 < k2 < evts.len() ==> evts[k1].entity_index < evts[k2].entity_index
        }),
{
    lemma_aoe_events_payload(p, es, j);
    lemma_aoe_events_coverage(p, es, j);
}

/// The scaled area damage never exceeds the base damage.
proof fn lemma_aoe_damage_le_base_aux(p: Projectile)
    requires
        0 <= p.damage.damage,
        0 <= p.props.projectile_aoe_damage_scale_pm <= 1000,
    ensures
        0 <= spec_aoe_damage(p) <= p.damage.damage,
{
    assert(p.damage.damage * p.props.projectile_aoe_damage_scale_pm <= p.damage.damage * 1000)
        by (nonlinear_arith)
        requires
            0 <= p.damage.damage,
            0 <= p.props.projectile_aoe_damage_scale_pm <= 1000,
    ;
    assert(p.damage.damage * p.props.projectile_aoe_damage_scale_pm >= 0) by (nonlinear_arith)
        requires
            0 <= p.damage.damage,
            0 <= p.props.projectile_aoe_damage_scale_pm,
    ;
    vstd::arithmetic::div_mod::lemma_div_is_ordered(
        p.damage.damage * p.props.projectile_aoe_damage_scale_pm,
        p.damage.damage * 1000,
        1000,
    );
    vstd::arithmetic::div_mod::lemma_div_multiples_vanish(p.damage.damage as int, 1000);
    assert(p.damage.damage * 1000 == 1000 * p.damage.damage) by (nonlinear_arith);
    vstd::arithmetic::div_mod::lemma_div_pos_is_pos(
        p.damage.damage * p.props.projectile_aoe_damage_scale_pm,
        1000,
    );
}

/// Scan the enemies for this projectile's damage events: the first enemy
/// within collision distance triggers either a single full-damage event or
/// the area fan-out.
pub fn damage_events_for_projectile(projectile: &Projectile, enemies: &Vec<Enemy>) -> (r: Vec<
    DamageEvent,
>)
    requires
        projectile.wf(),
        forall|i: int|
            0 <= i < enemies@.len() ==> (#[trigger] enemies@[i]).wf_except_health()
                && crate::level::entity_pos_bounded(enemies@[i].pos),
    ensures
        r@ == spec_hit_events(*projectile, enemies@),
        r@.len() <= enemies@.len(),
        forall|k: int|
            0 <= k < r@.len() ==> 0 <= (#[trigger] r@[k]).damage <= 1_000_000_000 && (
            #[trigger] r@[k]).entity_index < enemies@.len(),
        forall|k1: int, k2: int|
            0 <= k1 < k2 < r@.len() ==> r@[k1].entity_index != r@[k2].entity_index,
{
    let p = *projectile;
    proof {
        lemma_projectile_pos_bounded(p);
        lemma_aoe_damage_le_base_aux(p);
        assert(p.props.projectile_aoe_radius * p.props.projectile_aoe_radius
            <= 100_000_000i64 * 100_000_000i64 && p.props.projectile_aoe_radius
            * p.props.projectile_aoe_radius >= 0) by (nonlinear_arith)
            requires
                0 <= p.props.projectile_aoe_radius <= 100_000_000i64,
        ;
    }
    let cd = p.props.collision_distance_mu();
    proof {
        assert(0 <= cd * cd <= 5_000_000i64 * 5_000_000i64) by (nonlinear_arith)
            requires
                0 <= cd <= 5_000_000i64,
        ;
    }
    let cd2 = cd * cd;

    let mut first_hit: Option<usize> = None;
    let mut i: usize = 0;
    while i < enemies.len() && first_hit.is_none()
        invariant
            i <= enemies@.len(),
            p == *projectile,
            p.wf(),
            crate::level::pos_bounded(p.pos),
            cd2 == p.props.spec_collision_distance_mu() * p.props.spec_collision_distance_mu(),
            forall|j: int|
                0 <= j < enemies@.len() ==> (#[trigger] enemies@[j]).wf_except_health()
                    && crate::level::entity_pos_bounded(enemies@[j].pos),
            match first_hit {
                Some(h) => spec_first_hit(p, enemies@, 0) == Some(h as int) && h
                    < enemies@.len(),
                None => spec_first_hit(p, enemies@, 0) == spec_first_hit(
                    p,
                    enemies@,
                    i as int,
                ),
            },
        decreases enemies@.len() - i,
    {
        let d2 = enemies[i].pos.distance_squared(p.pos);
        if d2 < cd2 {
            first_hit = Some(i);
        }
        i = i + 1;
    }

    let mut events: Vec<DamageEvent> = Vec::new();
    match first_hit {
        None => {},
        Some(hit) => {
            if matches!(p.props.projectile_category, ProjectileCategory::ProjectileAoe)
                || matches!(p.props.projectile_category, ProjectileCategory::InstantAoe) {
                let radius = p.props.projectile_aoe_radius;
                let radius2 = radius * radius;
                let scaled = (p.damage.damage * p.props.projectile_aoe_damage_scale_pm) / 1000;
                let mut j: usize = 0;
                while j < enemies.len()
                    invariant
                        j <= enemies@.len(),
                        p == *projectile,
                        p.wf(),
                        crate::level::pos_bounded(p.pos),
                        radius == p.props.projectile_aoe_radius,
                        radius2 == radius * radius,
                        scaled == spec_aoe_damage(p),
                        forall|k: int|
                            0 <= k < enemies@.len() ==> (#[trigger] enemies@[k]).wf_except_health()
                                && crate::level::entity_pos_bounded(enemies@[k].pos),
                        events@ == spec_aoe_events(p, enemies@, j as int),
                        events@.len() <= j,
                    decreases enemies@.len() - j,
                {
                    let aoe_d2 = enemies[j].pos.distance_squared(p.pos);
                    if radius > 0 && aoe_d2 < radius2 {
                        events.push(
                            DamageEvent {
                                damage: scaled,
                                entity_index: j,
                                damage_type: p.props.projectile_damage_type,
                            },
                        );
                    }
                    j = j + 1;
                }
            } else {
                events.push(
                    DamageEvent {
                        damage: p.damage.damage,
                        entity_index: hit,
                        damage_type: p.props.projectile_damage_type,
                    },
                );
            }
        },
    }
    proof {
        if spec_first_hit(p, enemies@, 0) is Some && spec_aoe_cat(p) {
            lemma_aoe_damage_scaling(p, enemies@, enemies@.len() as int);
            lemma_aoe_damage_le_base_aux(p);
        }
    }
    events
}

/// Bounds of one batch application: enemy fields other than health are
/// untouched, each enemy loses at most one event's damage (the targets of a
/// batch are distinct), untargeted enemies are untouched, and the
/// experience gate grows by at most one level and one award per event.
proof fn lemma_apply_events_bounds(
    es: Seq<Enemy>,
    lvl: CanLevel,
    events: Seq<DamageEvent>,
    weapons_len: int,
    i: int,
)
    requires
        0 <= i <= events.len(),
        forall|k: int| i <= k < events.len() ==> 0 <= (#[trigger] events[k]).damage
            <= 1_000_000_000,
        forall|a: int, b: int|
            i <= a < b < events.len() ==> events[a].entity_index != events[b].entity_index,
        forall|j: int|
            0 <= j < es.len() ==> (#[trigger] es[j]).experience.experience <= 1_000_000,
        forall|j: int|
            0 <= j < es.len() ==> (#[trigger] es[j]).health.total >= -9_000_000_000_000_000_000
                + (events.len() - i) * 1_000_000_000,
        lvl.wf(),
        lvl.experience + (events.len() - i) * 1_000_000 <= u64::MAX,
        lvl.level + (events.len() - i) <= u32::MAX,
    ensures
        ({
            let r = spec_apply_events(es, lvl, events, weapons_len, i);
            &&& r.0.len() == es.len()
            &&& forall|j: int|
                0 <= j < es.len() ==> {
                    let e2 = #[trigger] r.0[j];
                    let e = es[j];
                    &&& e2.movable == e.movable
                    &&& e2.pos == e.pos
                    &&& e2.flip_x == e.flip_x
                    &&& e2.sprite_index == e.sprite_index
                    &&& e2.anim_timer == e.anim_timer
                    &&& e2.animatable == e.animatable
                    &&& e2.damage == e.damage
                    &&& e2.experience == e.experience
                    &&& e2.is_boss == e.is_boss
                    &&& e.health.total - 1_000_000_000 <= e2.health.total <= e.health.total
                }
            &&& r.1.level_step == lvl.level_step
            &&& lvl.level <= r.1.level <= lvl.level + (events.len() - i)
            &&& r.1.experience <= lvl.experience + (events.len() - i) * 1_000_000
        }),
    decreases events.len() - i,
{
    if 0 <= i < events.len() {
        let ev = events[i];
        if ev.entity_index >= es.len() {
            lemma_apply_events_bounds(es, lvl, events, weapons_len, i + 1);
        } else {
            let e = es[ev.entity_index as int];
            let h2 = e.health.total - ev.damage;
            let es1 = es.update(
                ev.entity_index as int,
                Enemy { health: crate::sprite::Health { total: h2 as i64 }, ..e },
            );
            assert(forall|j: int|
                0 <= j < es1.len() ==> (#[trigger] es1[j]).experience.experience <= 1_000_000);
            if h2 <= 0 {
                let r1 = spec_add_experience(lvl, e.experience.experience);
                if e.is_boss {
                } else {
                    lemma_apply_events_bounds(es1, r1.0, events, weapons_len, i + 1);
                    let r = spec_apply_events(es, lvl, events, weapons_len, i);
                    let rest = spec_apply_events(es1, r1.0, events, weapons_len, i + 1);
                    assert forall|j: int|
                        0 <= j < es.len() implies {
                        let e2 = #[trigger] r.0[j];
                        let e0 = es[j];
                        &&& e2.movable == e0.movable
                        &&& e2.pos == e0.pos
                        &&& e2.flip_x == e0.flip_x
                        &&& e2.sprite_index == e0.sprite_index
                        &&& e2.anim_timer == e0.anim_timer
                        &&& e2.animatable == e0.animatable
                        &&& e2.damage == e0.damage
                        &&& e2.experience == e0.experience
                        &&& e2.is_boss == e0.is_boss
                        &&& e0.health.total - 1_000_000_000 <= e2.health.total
                            <= e0.health.total
                    } by {
                        assert(rest.0[j] == r.0[j]);
                        if j == ev.entity_index {
                            assert(forall|b: int|
                                i + 1 <= b < events.len() ==> (#[trigger] events[b]).entity_index
                                    != ev.entity_index);
                            lemma_apply_events_frame(
                                es1,
                                r1.0,
                                events,
                                weapons_len,
                                i + 1,
                                j,
                            );
                        }
                    }
                }
            } else {
                lemma_apply_events_bounds(es1, lvl, events, weapons_len, i + 1);
                let r = spec_apply_events(es, lvl, events, weapons_len, i);
                let rest = spec_apply_events(es1, lvl, events, weapons_len, i + 1);
                assert forall|j: int|
                    0 <= j < es.len() implies {
                    let e2 = #[trigger] r.0[j];
                    let e0 = es[j];
                    &&& e2.movable == e0.movable
                    &&& e2.pos == e0.pos
                    &&& e2.flip_x == e0.flip_x
                    &&& e2.sprite_index == e0.sprite_index
                    &&& e2.anim_timer == e0.anim_timer
                    &&& e2.animatable == e0.animatable
                    &&& e2.damage == e0.damage
                    &&& e2.experience == e0.experience
                    &&& e2.is_boss == e0.is_boss
                    &&& e0.health.total - 1_000_000_000 <= e2.health.total <= e0.health.total
                } by {
                    assert(rest.0[j] == r.0[j]);
                    if j == ev.entity_index {
                        assert(forall|b: int|
                            i + 1 <= b < events.len() ==> (#[trigger] events[b]).entity_index
                                != ev.entity_index);
                        lemma_apply_events_frame(es1, lvl, events, weapons_len, i + 1, j);
                    }
                }
            }
        }
    }
}

/// An enemy no remaining event targets is left untouched by the batch.
proof fn lemma_apply_events_frame(
    es: Seq<Enemy>,
    lvl: CanLevel,
    events: Seq<DamageEvent>,
    weapons_len: int,
    i: int,
    j: int,
)
    requires
        0 <= i <= events.len(),
        0 <= j < es.len(),
        forall|b: int| i <= b < events.len() ==> (#[trigger] events[b]).entity_index != j,
    ensures
        ({
            let r = spec_apply_events(es, lvl, events, weapons_len, i);
            r.0.len() == es.len() && r.0[j] == es[j]
        }),
    decreases events.len() - i,
{
    if 0 <= i < events.len() {
        let ev = events[i];
        if ev.entity_index >= es.len() {
            lemma_apply_events_frame(es, lvl, events, weapons_len, i + 1, j);
        } else {
            let e = es[ev.entity_index as int];
            let h2 = e.health.total - ev.damage;
            let es1 = es.update(
                ev.entity_index as int,
                Enemy { health: crate::sprite::Health { total: h2 as i64 }, ..e },
            );
            if h2 <= 0 {
                let r1 = spec_add_experience(lvl, e.experience.experience);
                if e.is_boss {
                } else {
                    lemma_apply_events_frame(es1, r1.0, events, weapons_len, i + 1, j);
                }
            } else {
                lemma_apply_events_frame(es1, lvl, events, weapons_len, i + 1, j);
            }
        }
    }
}

/// A projectile whose charge has produced damage events: the single-use
/// latch is set so it never deals damage again; a non-instant projectile
/// also stops moving (it is despawned at the end of the pass, while the
/// instant categories linger to finish their one-shot animation).
pub open spec fn spec_marked(p: Projectile) -> Projectile {
    Projectile {
        movable: Movable {
            is_moving: if spec_instant_cat(p) {
                p.movable.is_moving
            } else {
                false
            },
            ..p.movable
        },
        damage: ProjectileDealsDamage { is_triggered: true, ..p.damage },
        ..p
    }
}

/// One frame of the collision resolver from projectile index `i` on: each
/// untriggered projectile collects its damage events against the current
/// enemies and applies them; a defeated boss stops the pass; otherwise a
/// projectile that produced events is latched (and, unless instant, will be
/// despawned at the end of the pass).  The last component lists the visual
/// effects the pass spawns, batch by batch: an explosion at each non-boss
/// defeat, a hit spark at each surviving target.
pub open spec fn spec_collide_from(
    ps: Seq<Projectile>,
    es: Seq<Enemy>,
    lvl: CanLevel,
    weapons_len: int,
    i: int,
) -> (Seq<Projectile>, Seq<Enemy>, CanLevel, bool, bool, Seq<Effect>)
    decreases ps.len() - i,
{
    if i < 0 || i >= ps.len() {
        (ps, es, lvl, false, false, Seq::empty())
    } else {
        let p = ps[i];
        if p.damage.is_triggered {
            spec_collide_from(ps, es, lvl, weapons_len, i + 1)
        } else {
            let events = spec_hit_events(p, es);
            let applied = spec_apply_events(es, lvl, events, weapons_len, 0);
            if applied.3 {
                (ps, applied.0, applied.1, applied.2, true, applied.4)
            } else {
                let ps1 = if events.len() > 0 {
                    ps.update(i, spec_marked(p))
                } else {
                    ps
                };
                let rest = spec_collide_from(ps1, applied.0, applied.1, weapons_len, i + 1);
                (rest.0, rest.1, rest.2, applied.2 || rest.3, rest.4, applied.4 + rest.5)
            }
        }
    }
}

/// The projectiles that survive the pass: a triggered non-instant
/// projectile is despawned; instant ones linger to finish their one-shot
/// animation.
pub open spec fn spec_live_projectiles(ps: Seq<Projectile>, i: int) -> Seq<Projectile>
    decreases i,
{
    if i <= 0 {
        Seq::empty()
    } else {
        let pre = spec_live_projectiles(ps, i - 1);
        if ps[i - 1].damage.is_triggered && !spec_instant_cat(ps[i - 1]) {
            pre
        } else {
            pre.push(ps[i - 1])
        }
    }
}

/// The enemies that survive the pass: those with health still above zero.
pub open spec fn spec_live_enemies(es: Seq<Enemy>, i: int) -> Seq<Enemy>
    decreases i,
{
    if i <= 0 {
        Seq::empty()
    } else {
        let pre = spec_live_enemies(es, i - 1);
        if es[i - 1].health.total > 0 {
            pre.push(es[i - 1])
        } else {
            pre
        }
    }
}

/// One frame of collision and damage resolution over every live projectile
/// and enemy: per untriggered projectile, scan for a first hit, fan the
/// damage out (for area categories), apply the batch, award experience for
/// defeats and report a level-up; a defeated boss ends the pass at once.
/// Defeated enemies and spent non-instant projectiles are despawned.
/// Returns (level-up triggered, boss defeated).
#[verifier::rlimit(100)]
pub fn update_projectile_collisions(
    enemies: &mut Vec<Enemy>,
    projectiles: &mut Vec<Projectile>,
    lvl: &mut CanLevel,
    weapons_len: usize,
    effects: &mut Vec<Effect>,
) -> (r: (bool, bool))
    requires
        forall|i: int| 0 <= i < old(enemies)@.len() ==> (#[trigger] old(enemies)@[i]).wf(),
        old(enemies)@.len() <= 100_000,
        forall|i: int|
            0 <= i < old(projectiles)@.len() ==> (#[trigger] old(projectiles)@[i]).wf(),
        old(projectiles)@.len() <= 1_000,
        old(lvl).wf(),
        old(lvl).experience <= 0x0800_0000_0000_0000,
        old(lvl).level <= 1_000_000_000,
    ensures
        ({
            let f = spec_collide_from(
                old(projectiles)@,
                old(enemies)@,
                *old(lvl),
                weapons_len as int,
                0,
            );
            &&& *final(lvl) == f.2
            &&& r == (f.3, f.4)
            &&& final(projectiles)@ == spec_live_projectiles(f.0, f.0.len() as int)
            &&& final(enemies)@ == spec_live_enemies(f.1, f.1.len() as int)
            &&& final(effects)@ == old(effects)@ + f.5
        }),
        final(lvl).wf(),
        final(lvl).level_step == old(lvl).level_step,
        final(enemies)@.len() <= old(enemies)@.len(),
        final(projectiles)@.len() <= old(projectiles)@.len(),
        forall|i: int| 0 <= i < final(enemies)@.len() ==> (#[trigger] final(enemies)@[i]).wf(),
        forall|i: int|
            0 <= i < final(projectiles)@.len() ==> (#[trigger] final(projectiles)@[i]).wf(),
        forall|i: int| 0 <= i < old(effects)@.len() ==> final(effects)@[i] == old(effects)@[i],
        old(effects)@.len() <= final(effects)@.len(),
        forall|i: int|
            old(effects)@.len() <= i < final(effects)@.len() ==> (
            #[trigger] final(effects)@[i]).wf(),
{
    let ghost ps0 = old(projectiles)@;
    let ghost es0 = old(enemies)@;
    let ghost lvl0 = *old(lvl);
    let ghost ef0 = old(effects)@;

    let mut level_up = false;
    let mut boss_defeated = false;
    let mut i: usize = 0;
    while i < projectiles.len() && !boss_defeated
        invariant
            i <= ps0.len(),
            ps0.len() <= 1_000,
            es0.len() <= 100_000,
            projectiles@.len() == ps0.len(),
            enemies@.len() == es0.len(),
            forall|j: int| 0 <= j < projectiles@.len() ==> (#[trigger] projectiles@[j]).wf(),
            forall|j: int| 0 <= j < enemies@.len() ==> (#[trigger] enemies@[j]).wf_except_health(),
            forall|j: int|
                0 <= j < enemies@.len() ==> (#[trigger] enemies@[j]).health.total >= -(i as int)
                    * 1_000_000_000,
            lvl.wf(),
            lvl.level_step == lvl0.level_step,
            lvl0.experience <= 0x0800_0000_0000_0000,
            lvl0.level <= 1_000_000_000,
            lvl.experience <= lvl0.experience + (i as int) * 100_000_000_000,
            lvl.level <= lvl0.level + (i as int) * 100_000,
            !boss_defeated ==> spec_collide_from(ps0, es0, lvl0, weapons_len as int, 0) == ({
                let rest = spec_collide_from(
                    projectiles@,
                    enemies@,
                    *lvl,
                    weapons_len as int,
                    i as int,
                );
                (
                    rest.0,
                    rest.1,
                    rest.2,
                    level_up || rest.3,
                    rest.4,
                    effects@.skip(ef0.len() as int) + rest.5,
                )
            }),
            boss_defeated ==> spec_collide_from(ps0, es0, lvl0, weapons_len as int, 0) == (
                projectiles@,
                enemies@,
                *lvl,
                level_up,
                true,
                effects@.skip(ef0.len() as int),
            ),
            forall|j: int| 0 <= j < ef0.len() ==> effects@[j] == ef0[j],
            ef0.len() <= effects@.len(),
            forall|j: int| ef0.len() <= j < effects@.len() ==> (#[trigger] effects@[j]).wf(),
        decreases projectiles@.len() - i,
    {
        let p = projectiles[i];
        if !p.damage.is_triggered {
            let events = damage_events_for_projectile(&p, enemies);
            let ghost es_b = enemies@;
            let ghost lvl_b = *lvl;
            let (lu, boss) = apply_damage_events(&events, enemies, lvl, weapons_len, effects);
            proof {
                lemma_apply_events_bounds(es_b, lvl_b, events@, weapons_len as int, 0);
            }
            if lu {
                level_up = true;
            }
            if boss {
                boss_defeated = true;
            } else {
                if events.len() > 0 {
                    let mut p2 = p;
                    if !(matches!(p.props.projectile_category, ProjectileCategory::Instant)
                        || matches!(
                        p.props.projectile_category,
                        ProjectileCategory::InstantAoe,
                    )) {
                        p2.movable.is_moving = false;
                    }
                    p2.damage.is_triggered = true;
                    projectiles.set(i, p2);
                    proof {
                        assert(p2 == spec_marked(p));
                    }
                }
            }
        }
        i = i + 1;
    }

    let ghost psf = projectiles@;
    let ghost esf = enemies@;

    let mut live_ps: Vec<Projectile> = Vec::new();
    let mut k: usize = 0;
    while k < projectiles.len()
        invariant
            k <= psf.len(),
            projectiles@ == psf,
            live_ps@ == spec_live_projectiles(psf, k as int),
            live_ps@.len() <= k,
            forall|j: int| 0 <= j < psf.len() ==> (#[trigger] psf[j]).wf(),
            forall|j: int| 0 <= j < live_ps@.len() ==> (#[trigger] live_ps@[j]).wf(),
        decreases psf.len() - k,
    {
        let p = projectiles[k];
        if !(p.damage.is_triggered && !(matches!(
            p.props.projectile_category,
            ProjectileCategory::Instant,
        ) || matches!(p.props.projectile_category, ProjectileCategory::InstantAoe))) {
            live_ps.push(p);
        }
        k = k + 1;
    }
    *projectiles = live_ps;

    let mut live_es: Vec<Enemy> = Vec::new();
    let mut k2: usize = 0;
    while k2 < enemies.len()
        invariant
            k2 <= esf.len(),
            enemies@ == esf,
            live_es@ == spec_live_enemies(esf, k2 as int),
            live_es@.len() <= k2,
            forall|j: int| 0 <= j < esf.len() ==> (#[trigger] esf[j]).wf_except_health(),
            forall|j: int| 0 <= j < live_es@.len() ==> (#[trigger] live_es@[j]).wf(),
        decreases esf.len() - k2,
    {
        let e = enemies[k2];
        if e.health.total > 0 {
            live_es.push(e);
        }
        k2 = k2 + 1;
    }
    *enemies = live_es;

    (level_up, boss_defeated)
}

} // verus!
