//! The play-session state machine and the per-frame pipeline: movement runs
//! before collision, damage is batched and applied within the collision
//! pass, and state transitions are applied at the frame boundary.

use vstd::prelude::*;

use crate::level::{MAP_MOVABLE_HEIGHT_MU, MAP_MOVABLE_WIDTH_MU, MAX_FRAME_MS, PLAYER_HEIGHT_MU, PLAYER_WIDTH_MU};
use crate::level::in_map;
use crate::math::{spec_clamp, spec_diag_of};
use crate::player::{
    gameplay_bounds, player_movement, spec_chosen_direction, spec_flip_x, spec_gameplay_bounds,
    spec_key_pressed, spec_move_dx, spec_move_dy, CanLevel, InputState, Player,
    LEVEL_EXPERIENCE_STEP, PLAYER_SPEED_DEFAULT,
};
use crate::projectile_spawner::{
    spawn_weapon_projectiles, spec_collide_from, spec_fired_count, spec_live_enemies,
    spec_live_projectiles, spec_updated_effects, spec_updated_projectiles, update_explosions_damage_effects,
    update_projectile_collisions, update_projectiles, weapon_ticked_rel, weapons_fire_ok, Effect,
    Projectile,
};
use crate::spawner::{
    check_for_spawns, enemy_contact_rel, enemy_frame_rel, is_fresh_enemy, spawn_boss,
    spec_enemy_type_for_stage, spec_melee_prefix, update_enemy_collisions,
    update_enemy_positions_and_sprites, Enemy, LevelSpawns, MAX_REGULAR_STAGE,
};
use crate::sprite::{AnimationIndices, Direction, Health, Movable, PlayerSpriteSheetAnimatable, Vec2i};
use crate::timer::{spec_ticked, Timer};
use crate::weapons::{
    get_available_weapons, get_guitar_weapon, spec_filtered_variants, Weapon, WeaponsEnum,
    NUM_LEVEL_UP_CHOICES, NUM_WEAPON_VARIANTS,
};

verus! {

/// The session state; most systems run only while `Started` or `Boss`.
#[derive(Clone, Copy, PartialEq, Eq, Structural, Debug)]
pub enum GamePlayState {
    Unloaded,
    Init,
    Started,
    LevelUp,
    Boss,
    GameOver,
    Restart,
}

/// A player position inside the gameplay arena.
pub open spec fn in_arena(p: Vec2i) -> bool {
    &&& -(MAP_MOVABLE_WIDTH_MU / 2) + PLAYER_WIDTH_MU / 2 <= p.x <= MAP_MOVABLE_WIDTH_MU / 2
        - PLAYER_WIDTH_MU / 2
    &&& -(MAP_MOVABLE_HEIGHT_MU / 2) + PLAYER_HEIGHT_MU / 2 <= p.y <= MAP_MOVABLE_HEIGHT_MU / 2
        - PLAYER_HEIGHT_MU / 2
}

/// The whole per-session state: the session state, the player, all live
/// gameplay entities, the spawner, and a pending level-up weapon offer.
#[derive(Debug)]
pub struct SessionContext {
    pub state: GamePlayState,
    pub player: Player,
    pub enemies: Vec<Enemy>,
    pub projectiles: Vec<Projectile>,
    pub effects: Vec<Effect>,
    pub level_spawns: LevelSpawns,
    pub pending_weapons: Vec<Weapon>,
}

impl SessionContext {
    pub open spec fn wf(self) -> bool {
        &&& self.player.wf()
        &&& in_arena(self.player.pos)
        &&& forall|i: int| 0 <= i < self.enemies@.len() ==> (#[trigger] self.enemies@[i]).wf()
        &&& forall|i: int|
            0 <= i < self.projectiles@.len() ==> (#[trigger] self.projectiles@[i]).wf()
        &&& forall|i: int| 0 <= i < self.effects@.len() ==> (#[trigger] self.effects@[i]).wf()
        &&& self.level_spawns.wf()
        &&& forall|i: int|
            0 <= i < self.player.weapons@.len() ==> 4 <= (
            #[trigger] self.player.weapons@[i]).projectile_props.projectile_aim_range
        &&& forall|i: int|
            0 <= i < self.pending_weapons@.len() ==> (#[trigger] self.pending_weapons@[i]).wf()
                && 4 <= self.pending_weapons@[i].projectile_props.projectile_aim_range
    }
}

/// The player archetype's animation table: idle plus the four moving
/// variants of the character sprite sheet.
pub fn get_player_animatable() -> (a: PlayerSpriteSheetAnimatable)
    ensures
        a == spec_player_animatable(),
        a.wf(),
{
    PlayerSpriteSheetAnimatable {
        idle_anim_indices: AnimationIndices { first: 0, last: 1 },
        moving_down_anim_indices: AnimationIndices { first: 9, last: 17 },
        moving_horizontal_anim_indices: AnimationIndices { first: 27, last: 35 },
        moving_up_anim_indices: AnimationIndices { first: 45, last: 53 },
        moving_up_horiz_anim_indices: AnimationIndices { first: 36, last: 44 },
        moving_down_horiz_anim_indices: AnimationIndices { first: 18, last: 26 },
    }
}

pub open spec fn spec_player_animatable() -> PlayerSpriteSheetAnimatable {
    PlayerSpriteSheetAnimatable {
        idle_anim_indices: AnimationIndices { first: 0, last: 1 },
        moving_down_anim_indices: AnimationIndices { first: 9, last: 17 },
        moving_horizontal_anim_indices: AnimationIndices { first: 27, last: 35 },
        moving_up_anim_indices: AnimationIndices { first: 45, last: 53 },
        moving_up_horiz_anim_indices: AnimationIndices { first: 36, last: 44 },
        moving_down_horiz_anim_indices: AnimationIndices { first: 18, last: 26 },
    }
}

/// A fresh session as `setup` builds it: started, the player idle at the
/// arena center with full health, level one with an empty accumulator, the
/// starting loadout, no live entities, and the spawner at its first stage.
pub open spec fn is_fresh_session(ctx: SessionContext) -> bool {
    &&& ctx.state == GamePlayState::Started
    &&& ctx.player.pos == (Vec2i { x: 0, y: 0 })
    &&& ctx.player.movable == (Movable {
        speed: PLAYER_SPEED_DEFAULT,
        direction: Direction::Down,
        is_moving: false,
        current_animation_indices: spec_player_animatable().idle_anim_indices,
        is_collided: false,
        is_state_changed: false,
    })
    &&& !ctx.player.flip_x
    &&& ctx.player.sprite_index == spec_player_animatable().idle_anim_indices.first
    &&& ctx.player.anim_timer == Timer::spec_fresh(300, true)
    &&& ctx.player.animatable == spec_player_animatable()
    &&& ctx.player.health == (Health { total: 100_000 })
    &&& ctx.player.lvl == (CanLevel {
        experience: 0,
        level: 1,
        level_step: LEVEL_EXPERIENCE_STEP,
    })
    &&& ctx.player.weapons@.len() == 1
    &&& ctx.player.weapons@[0].is_fresh_for(WeaponsEnum::Guitar)
    &&& ctx.enemies@.len() == 0
    &&& ctx.projectiles@.len() == 0
    &&& ctx.effects@.len() == 0
    &&& ctx.level_spawns.wf()
    &&& ctx.level_spawns.current_stage == 1
    &&& ctx.level_spawns.wave_timer == Timer::spec_fresh(10_000, true)
    &&& ctx.level_spawns.stage_timer == Timer::spec_fresh(15_000, true)
    &&& ctx.pending_weapons@.len() == 0
}

/// Build and start a fresh session.
pub fn setup() -> (ctx: SessionContext)
    ensures
        ctx.wf(),
        is_fresh_session(ctx),
{
    let animatable = get_player_animatable();
    let idle = animatable.idle_anim_indices;
    let mut weapons: Vec<Weapon> = Vec::new();
    weapons.push(get_guitar_weapon());
    let ctx = SessionContext {
        state: GamePlayState::Started,
        player: Player {
            pos: Vec2i { x: 0, y: 0 },
            movable: Movable {
                speed: PLAYER_SPEED_DEFAULT,
                direction: Direction::Down,
                is_moving: false,
                current_animation_indices: idle,
                is_collided: false,
                is_state_changed: false,
            },
            flip_x: false,
            sprite_index: idle.first,
            anim_timer: Timer::from_millis(300, true),
            animatable,
            health: Health { total: 100_000 },
            lvl: CanLevel { experience: 0, level: 1, level_step: LEVEL_EXPERIENCE_STEP },
            weapons,
        },
        enemies: Vec::new(),
        projectiles: Vec::new(),
        effects: Vec::new(),
        level_spawns: LevelSpawns::new(),
        pending_weapons: Vec::new(),
    };
    ctx
}

/// Restart after a game over: despawn every gameplay entity, reset the
/// spawner to its first stage and the player to the starting loadout, and
/// begin a fresh session.
pub fn restart(ctx: &mut SessionContext)
    ensures
        final(ctx).wf(),
        is_fresh_session(*final(ctx)),
        final(ctx).level_spawns.current_stage == 1,
        final(ctx).enemies@.len() == 0,
        final(ctx).projectiles@.len() == 0,
{
    *ctx = setup();
}

/// Leave the session: despawn every gameplay entity and unload.
pub fn unload(ctx: &mut SessionContext)
    requires
        old(ctx).wf(),
    ensures
        final(ctx).wf(),
        final(ctx).state == GamePlayState::Unloaded,
        final(ctx).enemies@.len() == 0,
        final(ctx).projectiles@.len() == 0,
        final(ctx).effects@.len() == 0,
        final(ctx).player == old(ctx).player,
        final(ctx).level_spawns == old(ctx).level_spawns,
{
    ctx.state = GamePlayState::Unloaded;
    ctx.enemies = Vec::new();
    ctx.projectiles = Vec::new();
    ctx.effects = Vec::new();
}

/// Enter the level-up interrupt: offer a random subset of unowned weapons;
/// with the roster exhausted the screen is skipped and play resumes at
/// once.
pub fn on_level_up(ctx: &mut SessionContext)
    requires
        old(ctx).wf(),
    ensures
        final(ctx).wf(),
        final(ctx).pending_weapons@.len() == (
            if old(ctx).player.weapons@.len() >= NUM_WEAPON_VARIANTS {
                0int
            } else {
                vstd::math::min(
                    NUM_LEVEL_UP_CHOICES as int,
                    spec_filtered_variants(
                        old(ctx).player.weapons@.map_values(|w: Weapon| w.variant),
                    ).len() as int,
                )
            }
        ),
        final(ctx).state == if final(ctx).pending_weapons@.len() == 0 {
            GamePlayState::Started
        } else {
            GamePlayState::LevelUp
        },
        final(ctx).player == old(ctx).player,
        final(ctx).enemies == old(ctx).enemies,
        final(ctx).projectiles == old(ctx).projectiles,
        final(ctx).effects == old(ctx).effects,
        final(ctx).level_spawns == old(ctx).level_spawns,
{
    let weapons_new = get_available_weapons(&ctx.player.weapons, NUM_LEVEL_UP_CHOICES);
    proof {
        assert forall|i: int|
            0 <= i < weapons_new@.len() implies (#[trigger] weapons_new@[i]).wf() && 4
            <= weapons_new@[i].projectile_props.projectile_aim_range by {
            assert(weapons_new@[i].is_fresh_for(weapons_new@[i].variant));
            lemma_fresh_weapon_range(weapons_new@[i]);
        }
    }
    if weapons_new.len() == 0 {
        ctx.state = GamePlayState::Started;
    } else {
        ctx.state = GamePlayState::LevelUp;
    }
    ctx.pending_weapons = weapons_new;
}

/// Any freshly built roster weapon has a usable aim range.
proof fn lemma_fresh_weapon_range(w: Weapon)
    requires
        w.is_fresh_for(w.variant),
    ensures
        4 <= w.projectile_props.projectile_aim_range,
{
}

/// Pick one offered weapon at a level-up: it joins the player's loadout
/// (append-only) and play resumes.
pub fn weapon_button_select(ctx: &mut SessionContext, choice: usize)
    requires
        old(ctx).wf(),
        old(ctx).state == GamePlayState::LevelUp,
        choice < old(ctx).pending_weapons@.len(),
    ensures
        final(ctx).wf(),
        final(ctx).state == GamePlayState::Started,
        final(ctx).player.weapons@.len() == old(ctx).player.weapons@.len() + 1,
        forall|i: int|
            0 <= i < old(ctx).player.weapons@.len() ==> final(ctx).player.weapons@[i] == old(
                ctx,
            ).player.weapons@[i],
        final(ctx).player.weapons@.last() == old(ctx).pending_weapons@[choice as int],
        final(ctx).pending_weapons@.len() == 0,
{
    let w = ctx.pending_weapons[choice].clone();
    ctx.player.weapons.push(w);
    ctx.pending_weapons = Vec::new();
    ctx.state = GamePlayState::Started;
}

/// How one running frame transforms the simulated world, given the
/// player's post-movement position and the spawner's batch size: the
/// spawner appends its fresh enemies at random positions, every enemy
/// takes one pursuit/animation step toward the player, player contact is
/// resolved (freezing, periodic melee damage), every weapon whose cooldown
/// completed spawns one projectile by its aim method, all projectiles fly
/// one step, the collision pass resolves hits — despawning defeated
/// enemies and spent projectiles, awarding experience and spawning its
/// effects — and the one-shot effects advance one frame.  The spawn
/// positions and aim draws are random, so the intermediate worlds are
/// quantified; everything after them is pinned exactly.
pub open spec fn frame_simulation_rel(
    es0: Seq<Enemy>,
    ps0: Seq<Projectile>,
    ws0: Seq<Weapon>,
    lvl0: CanLevel,
    hp0: int,
    ef0: Seq<Effect>,
    player_pos: Vec2i,
    player_dir: Direction,
    stage: u32,
    spawn_count: int,
    dt_ms: u32,
    es_final: Seq<Enemy>,
    ps_final: Seq<Projectile>,
    lvl_final: CanLevel,
    hp_final: int,
    ef_final: Seq<Effect>,
    level_up: bool,
    game_won: bool,
) -> bool {
    exists|es_spawned: Seq<Enemy>, es_moved: Seq<Enemy>, es_contact: Seq<Enemy>, ps_spawned: Seq<
        Projectile,
    >|
        #![trigger es_spawned.len(), es_moved.len(), es_contact.len(), ps_spawned.len()]
        {
            &&& es_spawned.len() == es0.len() + spawn_count
            &&& (forall|i: int| 0 <= i < es0.len() ==> #[trigger] es_spawned[i] == es0[i])
            &&& (forall|i: int|
                es0.len() <= i < es_spawned.len() ==> {
                    let e = #[trigger] es_spawned[i];
                    &&& e.wf()
                    &&& is_fresh_enemy(e, spec_enemy_type_for_stage(stage), stage)
                    &&& in_map(e.pos)
                    &&& e.pos != player_pos
                })
            &&& es_moved.len() == es_spawned.len()
            &&& (forall|i: int|
                0 <= i < es_spawned.len() ==> enemy_frame_rel(
                    es_spawned[i],
                    #[trigger] es_moved[i],
                    player_pos,
                    dt_ms,
                ))
            &&& es_contact.len() == es_moved.len()
            &&& (forall|i: int|
                0 <= i < es_moved.len() ==> enemy_contact_rel(
                    es_moved[i],
                    #[trigger] es_contact[i],
                    player_pos,
                    dt_ms,
                ))
            &&& hp_final == hp0 - spec_melee_prefix(
                es_moved,
                player_pos,
                dt_ms,
                es_moved.len() as int,
            )
            &&& ps_spawned.len() == ps0.len() + spec_fired_count(ws0, dt_ms, ws0.len() as int)
            &&& (forall|i: int| 0 <= i < ps0.len() ==> #[trigger] ps_spawned[i] == ps0[i])
            &&& weapons_fire_ok(
                ps0,
                ps_spawned,
                ws0,
                dt_ms,
                player_pos,
                player_dir,
                es_contact,
            )
            &&& ({
                let ps_flight = spec_updated_projectiles(
                    ps_spawned,
                    dt_ms,
                    ps_spawned.len() as int,
                );
                let f = spec_collide_from(
                    ps_flight,
                    es_contact,
                    lvl0,
                    ws0.len() as int,
                    0,
                );
                &&& es_final == spec_live_enemies(f.1, f.1.len() as int)
                &&& ps_final == spec_live_projectiles(f.0, f.0.len() as int)
                &&& lvl_final == f.2
                &&& level_up == f.3
                &&& game_won == f.4
                &&& ef_final == spec_updated_effects(
                    ef0 + f.5,
                    dt_ms,
                    (ef0 + f.5).len() as int,
                )
            })
        }
}

/// What one frame reported: a stage escalation into the boss stage, a
/// level-up threshold crossed, and the boss defeated (the session won).
#[derive(Clone, Copy, PartialEq, Eq, Structural, Debug)]
pub struct FrameOutcome {
    pub to_boss: bool,
    pub level_up: bool,
    pub game_won: bool,
}

/// Run one simulation frame against the session, in the fixed pipeline
/// order: player movement, the spawner, enemy pursuit and melee contact,
/// weapon fire, projectile flight, collision and damage resolution, and the
/// one-shot effects; the resulting state transition is applied at the frame
/// boundary (a defeated boss outranks a level-up, which outranks the boss
/// stage transition).  In any state but `Started` and `Boss` the frame is
/// a no-op: paused timers do not advance.
#[verifier::rlimit(100)]
pub fn run_frame(ctx: &mut SessionContext, input: InputState, dt_ms: u32) -> (outcome:
    FrameOutcome)
    requires
        old(ctx).wf(),
        dt_ms <= MAX_FRAME_MS,
        old(ctx).enemies@.len() + 5 * old(ctx).level_spawns.current_stage <= 100_000,
        old(ctx).level_spawns.current_stage < 1_000_000,
        old(ctx).projectiles@.len() + old(ctx).player.weapons@.len() <= 1_000,
        old(ctx).player.lvl.experience <= 0x0800_0000_0000_0000,
        old(ctx).player.lvl.level <= 1_000_000_000,
        -1_000_000_000_000 <= old(ctx).player.health.total <= 1_000_000_000_000,
    ensures
        final(ctx).wf(),
        (old(ctx).state != GamePlayState::Started && old(ctx).state != GamePlayState::Boss)
            ==> (*final(ctx) == *old(ctx) && outcome == (FrameOutcome {
            to_boss: false,
            level_up: false,
            game_won: false,
        })),
        (old(ctx).state == GamePlayState::Started || old(ctx).state == GamePlayState::Boss)
            ==> final(ctx).state == (if outcome.game_won {
            GamePlayState::Unloaded
        } else if outcome.level_up {
            if final(ctx).pending_weapons@.len() > 0 {
                GamePlayState::LevelUp
            } else if outcome.to_boss {
                GamePlayState::Boss
            } else {
                GamePlayState::Started
            }
        } else if outcome.to_boss {
            GamePlayState::Boss
        } else {
            old(ctx).state
        }),
        old(ctx).state == GamePlayState::Boss ==> !outcome.to_boss,
        in_arena(final(ctx).player.pos),
        old(ctx).state == GamePlayState::Started ==> ({
            let pl = old(ctx).player;
            let n = pl.movable.speed * dt_ms;
            let d = spec_diag_of(n as int);
            let b = spec_gameplay_bounds();
            let ticked_wave = spec_ticked(old(ctx).level_spawns.wave_timer, dt_ms);
            let ticked_stage = spec_ticked(old(ctx).level_spawns.stage_timer, dt_ms);
            &&& final(ctx).player.movable.direction == spec_chosen_direction(
                input,
                pl.movable.direction,
            )
            &&& final(ctx).player.movable.is_moving == spec_key_pressed(input)
            &&& final(ctx).player.flip_x == spec_flip_x(input, pl.flip_x)
            &&& final(ctx).player.pos.x == spec_clamp(
                pl.pos.x + spec_move_dx(input, n as int, d),
                b.min_x as int,
                b.max_x as int,
            )
            &&& final(ctx).player.pos.y == spec_clamp(
                pl.pos.y + spec_move_dy(input, n as int, d),
                b.min_y as int,
                b.max_y as int,
            )
            &&& final(ctx).level_spawns.wave_timer == ticked_wave
            &&& final(ctx).level_spawns.stage_timer == ticked_stage
            &&& final(ctx).level_spawns.current_stage == old(ctx).level_spawns.current_stage + (
                if ticked_stage.just_finished {
                    1int
                } else {
                    0int
                }
            )
            &&& outcome.to_boss == (ticked_stage.just_finished
                && final(ctx).level_spawns.current_stage > MAX_REGULAR_STAGE)
            &&& final(ctx).player.weapons@.len() == pl.weapons@.len()
            &&& (forall|i: int|
                0 <= i < pl.weapons@.len() ==> weapon_ticked_rel(
                    pl.weapons@[i],
                    #[trigger] final(ctx).player.weapons@[i],
                    dt_ms,
                ))
            &&& frame_simulation_rel(
                old(ctx).enemies@,
                old(ctx).projectiles@,
                pl.weapons@,
                pl.lvl,
                pl.health.total as int,
                old(ctx).effects@,
                final(ctx).player.pos,
                final(ctx).player.movable.direction,
                old(ctx).level_spawns.current_stage,
                if ticked_wave.just_finished {
                    5 * old(ctx).level_spawns.current_stage as int
                } else {
                    0int
                },
                dt_ms,
                final(ctx).enemies@,
                final(ctx).projectiles@,
                final(ctx).player.lvl,
                final(ctx).player.health.total as int,
                final(ctx).effects@,
                outcome.level_up,
                outcome.game_won,
            )
        }),
        old(ctx).state == GamePlayState::Boss ==> ({
            let pl = old(ctx).player;
            let ticked_wave = spec_ticked(old(ctx).level_spawns.wave_timer, dt_ms);
            &&& final(ctx).player.pos == pl.pos
            &&& final(ctx).player.movable == pl.movable
            &&& final(ctx).player.flip_x == pl.flip_x
            &&& final(ctx).player.sprite_index == pl.sprite_index
            &&& final(ctx).player.anim_timer == pl.anim_timer
            &&& final(ctx).level_spawns.wave_timer == ticked_wave
            &&& final(ctx).level_spawns.stage_timer == old(ctx).level_spawns.stage_timer
            &&& final(ctx).level_spawns.current_stage == old(ctx).level_spawns.current_stage
            &&& final(ctx).player.weapons@.len() == pl.weapons@.len()
            &&& (forall|i: int|
                0 <= i < pl.weapons@.len() ==> weapon_ticked_rel(
                    pl.weapons@[i],
                    #[trigger] final(ctx).player.weapons@[i],
                    dt_ms,
                ))
            &&& frame_simulation_rel(
                old(ctx).enemies@,
                old(ctx).projectiles@,
                pl.weapons@,
                pl.lvl,
                pl.health.total as int,
                old(ctx).effects@,
                pl.pos,
                pl.movable.direction,
                old(ctx).level_spawns.current_stage,
                if ticked_wave.just_finished {
                    1int
                } else {
                    0int
                },
                dt_ms,
                final(ctx).enemies@,
                final(ctx).projectiles@,
                final(ctx).player.lvl,
                final(ctx).player.health.total as int,
                final(ctx).effects@,
                outcome.level_up,
                outcome.game_won,
            )
        }),
{
    if !(matches!(ctx.state, GamePlayState::Started) || matches!(
        ctx.state,
        GamePlayState::Boss,
    )) {
        return FrameOutcome { to_boss: false, level_up: false, game_won: false };
    }
    let in_boss = matches!(ctx.state, GamePlayState::Boss);

    let mut to_boss = false;
    if !in_boss {
        player_movement(
            &mut ctx.player.movable,
            &mut ctx.player.pos,
            &mut ctx.player.flip_x,
            &mut ctx.player.sprite_index,
            &mut ctx.player.anim_timer,
            &ctx.player.animatable,
            input,
            gameplay_bounds(),
            dt_ms,
        );
        to_boss = check_for_spawns(
            &mut ctx.level_spawns,
            ctx.player.pos,
            dt_ms,
            &mut ctx.enemies,
        );
    } else {
        spawn_boss(&mut ctx.level_spawns, ctx.player.pos, dt_ms, &mut ctx.enemies);
    }

    let ghost es_spawned_g = ctx.enemies@;
    update_enemy_positions_and_sprites(&mut ctx.enemies, ctx.player.pos, dt_ms);
    let ghost es_moved_g = ctx.enemies@;
    update_enemy_collisions(ctx.player.pos, &mut ctx.player.health, &mut ctx.enemies, dt_ms);
    let ghost es_contact_g = ctx.enemies@;

    spawn_weapon_projectiles(
        &mut ctx.player.weapons,
        ctx.player.pos,
        ctx.player.movable.direction,
        &ctx.enemies,
        &mut ctx.projectiles,
        dt_ms,
    );
    let ghost ps_spawned_g = ctx.projectiles@;
    update_projectiles(&mut ctx.projectiles, dt_ms);
    let weapons_len = ctx.player.weapons.len();
    let (level_up, game_won) = update_projectile_collisions(
        &mut ctx.enemies,
        &mut ctx.projectiles,
        &mut ctx.player.lvl,
        weapons_len,
        &mut ctx.effects,
    );
    update_explosions_damage_effects(&mut ctx.effects, dt_ms);

    proof {
        let spawn_count = es_spawned_g.len() - old(ctx).enemies@.len();
        assert(frame_simulation_rel(
            old(ctx).enemies@,
            old(ctx).projectiles@,
            old(ctx).player.weapons@,
            old(ctx).player.lvl,
            old(ctx).player.health.total as int,
            old(ctx).effects@,
            ctx.player.pos,
            ctx.player.movable.direction,
            old(ctx).level_spawns.current_stage,
            spawn_count,
            dt_ms,
            ctx.enemies@,
            ctx.projectiles@,
            ctx.player.lvl,
            ctx.player.health.total as int,
            ctx.effects@,
            level_up,
            game_won,
        )) by {
            assert(es_spawned_g.len() == old(ctx).enemies@.len() + spawn_count
                && es_moved_g.len() == es_spawned_g.len() && es_contact_g.len()
                == es_moved_g.len() && ps_spawned_g.len() == old(ctx).projectiles@.len()
                + spec_fired_count(
                old(ctx).player.weapons@,
                dt_ms,
                old(ctx).player.weapons@.len() as int,
            ));
        }
    }

    if game_won {
        ctx.state = GamePlayState::Unloaded;
    } else if level_up {
        on_level_up(ctx);
        if ctx.pending_weapons.len() == 0 && to_boss {
            ctx.state = GamePlayState::Boss;
        }
    } else if to_boss {
        ctx.state = GamePlayState::Boss;
    }

    FrameOutcome { to_boss, level_up, game_won }
}

} // verus!
