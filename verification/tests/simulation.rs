use survivors_core::level::{MAP_HEIGHT_MU, MAP_WIDTH_MU};
use survivors_core::player::{gameplay_bounds, player_movement, CanLevel, InputState};
use survivors_core::projectile_spawner::{
    add_player_experience, damage_events_for_projectile, get_random_nearby_position,
    spawn_explosion_at_position, spawn_projectile_for_aim_method, spawn_sprite,
    update_explosions_damage_effects, update_projectile_collisions, update_projectiles, Effect,
    Projectile, PROJECTILE_LIFETIME_MS,
};
use survivors_core::session::{
    get_player_animatable, on_level_up, restart, run_frame, setup, unload,
    weapon_button_select, GamePlayState,
};
use survivors_core::spawner::{
    check_for_spawns, get_boss_enemy, get_enemy_animation, get_enemy_type_for_stage, spawn_boss,
    spawn_enemies, update_enemy_collisions, update_enemy_positions_and_sprites, Enemy, EnemyType,
    GivesExperience, LevelSpawns,
};
use survivors_core::sprite::{
    AnimationIndices, DealsDamage, Direction, EnemySpriteSheetAnimatable, Health, Movable, Vec2i,
};
use survivors_core::timer::Timer;
use survivors_core::weapons::{
    all_weapon_variants, get_vector_with_weapons_for_types, WeaponsEnum,
};

fn mk_enemy(x: i64, y: i64, health_mp: i64) -> Enemy {
    let idle = AnimationIndices { first: 0, last: 1 };
    let moving = AnimationIndices { first: 0, last: 5 };
    Enemy {
        pos: Vec2i { x, y },
        movable: Movable {
            speed: 50,
            direction: Direction::Right,
            is_moving: false,
            current_animation_indices: idle,
            is_collided: false,
            is_state_changed: true,
        },
        flip_x: false,
        sprite_index: 0,
        anim_timer: Timer::from_millis(100, true),
        animatable: EnemySpriteSheetAnimatable {
            idle_anim_indices: idle,
            moving_anim_indices: moving,
        },
        health: Health { total: health_mp },
        damage: DealsDamage { damage: 11_000, tick_timer: Timer::from_millis(1000, false) },
        experience: GivesExperience { experience: 10 },
        is_boss: false,
    }
}

fn no_input() -> InputState {
    InputState { up: false, down: false, left: false, right: false }
}

// Diagonal speed invariant: one frame of Up+Right covers the same distance
// as one frame of Up, to within the fixed-point grid, never sqrt(2) more.
#[test]
fn diagonal_speed_matches_straight() {
    let animatable = get_player_animatable();
    let bounds = gameplay_bounds();
    let dt = 16;

    let mut m1 = Movable {
        speed: 100,
        direction: Direction::Down,
        is_moving: false,
        current_animation_indices: animatable.idle_anim_indices,
        is_collided: false,
        is_state_changed: false,
    };
    let mut pos1 = Vec2i { x: 0, y: 0 };
    let mut flip1 = false;
    let mut idx1 = 0usize;
    let mut t1 = Timer::from_millis(300, true);
    let up_right = InputState { up: true, down: false, left: false, right: true };
    player_movement(
        &mut m1, &mut pos1, &mut flip1, &mut idx1, &mut t1, &animatable, up_right, bounds, dt,
    );

    let mut m2 = m1;
    m2.direction = Direction::Down;
    m2.is_moving = false;
    let mut pos2 = Vec2i { x: 0, y: 0 };
    let mut flip2 = false;
    let mut idx2 = 0usize;
    let mut t2 = Timer::from_millis(300, true);
    let up = InputState { up: true, down: false, left: false, right: false };
    player_movement(
        &mut m2, &mut pos2, &mut flip2, &mut idx2, &mut t2, &animatable, up, bounds, dt,
    );

    // Straight: (0, 1600).  Diagonal: (1131, 1131).
    assert_eq!(pos2, Vec2i { x: 0, y: 1600 });
    assert_eq!(pos1, Vec2i { x: 1131, y: 1131 });
    let diag2 = pos1.x * pos1.x + pos1.y * pos1.y;
    let straight2 = pos2.x * pos2.x + pos2.y * pos2.y;
    assert!(diag2 <= straight2);
    assert!(straight2 < (pos1.x + 1) * (pos1.x + 1) + (pos1.y + 1) * (pos1.y + 1));
    assert_eq!(m1.direction, Direction::UpRight);
    assert_eq!(m2.direction, Direction::Up);
}

// Arena clamp: a long run against the wall never leaves the walkable box.
#[test]
fn arena_clamp_holds_under_overshoot() {
    let animatable = get_player_animatable();
    let bounds = gameplay_bounds();
    let mut m = Movable {
        speed: 100,
        direction: Direction::Down,
        is_moving: false,
        current_animation_indices: animatable.idle_anim_indices,
        is_collided: false,
        is_state_changed: false,
    };
    let mut pos = Vec2i { x: 0, y: 0 };
    let mut flip = false;
    let mut idx = 0usize;
    let mut t = Timer::from_millis(300, true);
    let right_down = InputState { up: false, down: true, left: false, right: true };
    for _ in 0..10_000 {
        player_movement(
            &mut m, &mut pos, &mut flip, &mut idx, &mut t, &animatable, right_down, bounds,
            10_000,
        );
        assert!(bounds.min_x <= pos.x && pos.x <= bounds.max_x);
        assert!(bounds.min_y <= pos.y && pos.y <= bounds.max_y);
    }
    assert_eq!(pos.x, bounds.max_x);
    assert_eq!(pos.y, bounds.min_y);
}

// Animation staleness: with unchanged inputs the frame index advances by at
// most one step per timer interval and wraps, and is never reset mid-range.
#[test]
fn animation_never_resets_while_state_unchanged() {
    let animatable = get_player_animatable();
    let bounds = gameplay_bounds();
    let mut m = Movable {
        speed: 100,
        direction: Direction::Down,
        is_moving: false,
        current_animation_indices: animatable.idle_anim_indices,
        is_collided: false,
        is_state_changed: false,
    };
    let mut pos = Vec2i { x: 0, y: 0 };
    let mut flip = false;
    let mut idx = 0usize;
    let mut t = Timer::from_millis(300, true);
    let right = InputState { up: false, down: false, left: false, right: false };

    // Idle range is 0..=1 with a 300 ms interval.
    for frame in 0..12 {
        let before = idx;
        player_movement(
            &mut m, &mut pos, &mut flip, &mut idx, &mut t, &animatable, right, bounds, 100,
        );
        if t.just_finished {
            // Advance one step or wrap from the last frame to the first.
            if before == 1 {
                assert_eq!(idx, 0);
            } else {
                assert_eq!(idx, before + 1);
            }
        } else {
            assert_eq!(idx, before, "index moved without a timer tick at frame {frame}");
        }
    }
}

#[test]
fn animation_resets_once_on_direction_change() {
    let animatable = get_player_animatable();
    let bounds = gameplay_bounds();
    let mut m = Movable {
        speed: 100,
        direction: Direction::Down,
        is_moving: false,
        current_animation_indices: animatable.idle_anim_indices,
        is_collided: false,
        is_state_changed: false,
    };
    let mut pos = Vec2i { x: 0, y: 0 };
    let mut flip = false;
    let mut idx = 0usize;
    let mut t = Timer::from_millis(300, true);
    let right = InputState { up: false, down: false, left: false, right: true };
    player_movement(&mut m, &mut pos, &mut flip, &mut idx, &mut t, &animatable, right, bounds, 16);
    // Direction and moving state changed: reset to the horizontal range's
    // first frame.
    assert_eq!(m.current_animation_indices, animatable.moving_horizontal_anim_indices);
    assert_eq!(idx, animatable.moving_horizontal_anim_indices.first);
    // Same input again: no reset, the timer ticks instead.
    let before = idx;
    player_movement(&mut m, &mut pos, &mut flip, &mut idx, &mut t, &animatable, right, bounds, 16);
    assert_eq!(idx, before);
}

// AOE damage scaling: the splash hits every enemy inside the radius at the
// scaled damage and no enemy outside it.
#[test]
fn aoe_damage_scaling() {
    let horse = survivors_core::weapons::get_horse_weapon();
    let mut projectiles: Vec<Projectile> = Vec::new();
    // Spawn the area projectile at the origin.
    spawn_sprite(&horse, Vec2i { x: 1000, y: 0 }, Vec2i { x: 0, y: 0 }, &mut projectiles);
    let p = projectiles[0];

    // Enemy at the impact point, one 30 units away (inside the 50-unit
    // radius), one 100 units away (outside).
    let enemies = vec![
        mk_enemy(0, 0, 10_000),
        mk_enemy(30_000, 0, 10_000),
        mk_enemy(100_000, 0, 10_000),
    ];
    let events = damage_events_for_projectile(&p, &enemies);
    assert_eq!(events.len(), 2);
    // Base damage 5000 milli-points scaled by 500 per-mille.
    assert_eq!(events[0].entity_index, 0);
    assert_eq!(events[0].damage, 2_500);
    assert_eq!(events[1].entity_index, 1);
    assert_eq!(events[1].damage, 2_500);

    // A plain projectile instead deals full damage to the first enemy hit
    // only.
    let guitar = survivors_core::weapons::get_guitar_weapon();
    let mut ps2: Vec<Projectile> = Vec::new();
    spawn_sprite(&guitar, Vec2i { x: 1000, y: 0 }, Vec2i { x: 0, y: 0 }, &mut ps2);
    let single = damage_events_for_projectile(&ps2[0], &enemies);
    assert_eq!(single.len(), 1);
    assert_eq!(single[0].entity_index, 0);
    assert_eq!(single[0].damage, 15_000);
}

// Level-up idempotence: exact threshold rolls over to zero and advances one
// level; a huge single award still advances exactly one level.
#[test]
fn level_up_single_step() {
    let mut lvl = CanLevel { experience: 90, level: 1, level_step: 100 };
    assert!(add_player_experience(10, &mut lvl));
    assert_eq!(lvl.experience, 0);
    assert_eq!(lvl.level, 2);

    assert!(add_player_experience(350, &mut lvl));
    assert_eq!(lvl.level, 3);
    assert_eq!(lvl.experience, 250);

    let mut lvl2 = CanLevel { experience: 0, level: 7, level_step: 100 };
    assert!(!add_player_experience(99, &mut lvl2));
    assert_eq!(lvl2.level, 7);
    assert_eq!(lvl2.experience, 99);
}

// Scenario: one guitar, one 10-HP enemy 100 units away.  After the cooldown
// elapses and the shot resolves, the enemy is dead, its experience is
// awarded, and the projectile is gone.
#[test]
fn guitar_kills_single_enemy() {
    let mut ctx = setup();
    assert_eq!(ctx.player.weapons.len(), 1);
    assert_eq!(ctx.player.weapons[0].variant, WeaponsEnum::Guitar);
    ctx.enemies.push(mk_enemy(100_000, 0, 10_000));

    let exp_before = ctx.player.lvl.experience;
    let mut killed = false;
    for _ in 0..400 {
        run_frame(&mut ctx, no_input(), 16);
        if ctx.enemies.is_empty() {
            killed = true;
            break;
        }
    }
    assert!(killed, "the enemy should die to the first guitar shot");
    assert_eq!(ctx.player.lvl.experience, exp_before + 10);
    assert!(ctx.projectiles.is_empty(), "the projectile despawns on its first hit");
}

// Scenario: restart from game over resets the stage counter, clears all
// entities and restores the starting loadout.
#[test]
fn restart_resets_session() {
    let mut ctx = setup();
    ctx.enemies.push(mk_enemy(100_000, 0, 10_000));
    for _ in 0..100 {
        run_frame(&mut ctx, no_input(), 16);
    }
    ctx.level_spawns.current_stage = 4;
    ctx.state = GamePlayState::GameOver;

    restart(&mut ctx);
    assert_eq!(ctx.level_spawns.current_stage, 1);
    assert!(ctx.enemies.is_empty());
    assert!(ctx.projectiles.is_empty());
    assert_eq!(ctx.state, GamePlayState::Started);
    assert_eq!(ctx.player.weapons.len(), 1);
    assert_eq!(ctx.player.weapons[0].variant, WeaponsEnum::Guitar);
    assert_eq!(ctx.player.lvl.level, 1);
    assert_eq!(ctx.player.lvl.experience, 0);
}

#[test]
fn paused_session_does_not_advance() {
    let mut ctx = setup();
    ctx.enemies.push(mk_enemy(50_000, 0, 10_000));
    ctx.state = GamePlayState::LevelUp;
    let cooldown_before = ctx.player.weapons[0].tick_timer.elapsed_ms;
    let enemy_before = ctx.enemies[0];
    let outcome = run_frame(&mut ctx, no_input(), 5_000);
    assert!(!outcome.to_boss && !outcome.level_up && !outcome.game_won);
    assert_eq!(ctx.player.weapons[0].tick_timer.elapsed_ms, cooldown_before);
    assert_eq!(ctx.enemies[0], enemy_before);
    assert_eq!(ctx.state, GamePlayState::LevelUp);
}

#[test]
fn enemy_pursuit_closes_distance_and_faces_player() {
    let mut enemies = vec![mk_enemy(100_000, 50_000, 10_000)];
    let player = Vec2i { x: 0, y: 0 };
    let d0 = enemies[0].pos.distance_squared(player);
    update_enemy_positions_and_sprites(&mut enemies, player, 100);
    let d1 = enemies[0].pos.distance_squared(player);
    assert!(d1 < d0);
    assert!(enemies[0].movable.is_moving);
    // The player is to the enemy's left: the sprite mirrors.
    assert!(enemies[0].flip_x);

    // A frozen (contacting) enemy does not move.
    enemies[0].movable.is_collided = true;
    let held = enemies[0].pos;
    update_enemy_positions_and_sprites(&mut enemies, player, 100);
    assert_eq!(enemies[0].pos, held);
    assert!(!enemies[0].movable.is_moving);
}

#[test]
fn melee_contact_damages_player_periodically() {
    // In contact range (under 10 units).
    let mut enemies = vec![mk_enemy(5_000, 0, 10_000)];
    let mut health = Health { total: 100_000 };
    let player = Vec2i { x: 0, y: 0 };

    // The once-mode damage timer completes after one second of contact.
    update_enemy_collisions(player, &mut health, &mut enemies, 1_000);
    assert_eq!(health.total, 100_000 - 11_000);
    assert!(enemies[0].movable.is_collided);
    assert!(enemies[0].movable.is_state_changed);

    // Timer was reset: the immediately following frame deals nothing.
    update_enemy_collisions(player, &mut health, &mut enemies, 16);
    assert_eq!(health.total, 100_000 - 11_000);
    assert!(!enemies[0].movable.is_state_changed);

    // Out of range: no contact, no damage.
    let mut far = vec![mk_enemy(50_000, 0, 10_000)];
    let mut health2 = Health { total: 100_000 };
    update_enemy_collisions(player, &mut health2, &mut far, 1_000);
    assert_eq!(health2.total, 100_000);
    assert!(!far[0].movable.is_collided);
}

#[test]
fn wave_spawns_are_in_map_and_off_player() {
    let player = Vec2i { x: 1_268_500, y: 1_262_000 };
    let mut enemies: Vec<Enemy> = Vec::new();
    spawn_enemies(50, player, 1, &mut enemies);
    assert_eq!(enemies.len(), 50);
    for e in &enemies {
        assert!(e.pos != player);
        assert!(-MAP_WIDTH_MU / 2 <= e.pos.x && e.pos.x <= MAP_WIDTH_MU / 2);
        assert!(-MAP_HEIGHT_MU / 2 <= e.pos.y && e.pos.y <= MAP_HEIGHT_MU / 2);
        assert!(!e.is_boss);
        // Stage-scaled melee damage: (10 + 1) * 1000.
        assert_eq!(e.damage.damage, 11_000);
        assert_eq!(e.health.total, 10_000);
    }
}

#[test]
fn boss_stage_spawns_single_boss_per_wave_tick() {
    let mut spawns = LevelSpawns::new();
    spawns.current_stage = 5;
    let mut enemies: Vec<Enemy> = Vec::new();
    // Tick just short of the wave period: nothing spawns.
    spawn_boss(&mut spawns, Vec2i { x: 0, y: 0 }, 9_999, &mut enemies);
    assert_eq!(enemies.len(), 0);
    // Completing the period emits exactly one boss-archetype enemy.
    spawn_boss(&mut spawns, Vec2i { x: 0, y: 0 }, 1, &mut enemies);
    assert_eq!(enemies.len(), 1);
    assert!(enemies[0].is_boss);
}

#[test]
fn boss_defeat_wins_the_session() {
    let mut enemies = vec![mk_enemy(0, 0, 10_000)];
    enemies[0].is_boss = true;
    let guitar = survivors_core::weapons::get_guitar_weapon();
    let mut projectiles: Vec<Projectile> = Vec::new();
    spawn_sprite(&guitar, Vec2i { x: 1000, y: 0 }, Vec2i { x: 0, y: 0 }, &mut projectiles);
    let mut lvl = CanLevel { experience: 0, level: 1, level_step: 100 };
    let mut effects: Vec<Effect> = Vec::new();
    let (_level_up, game_won) =
        update_projectile_collisions(&mut enemies, &mut projectiles, &mut lvl, 1, &mut effects);
    assert!(game_won);
    assert_eq!(lvl.experience, 10);
    // A defeated boss ends the session without a death explosion.
    assert!(effects.is_empty());
}

// A regular defeat spawns one death explosion at the enemy's position.
#[test]
fn defeat_spawns_explosion_at_enemy_position() {
    let mut enemies = vec![mk_enemy(5_000, -7_000, 10_000)];
    let guitar = survivors_core::weapons::get_guitar_weapon();
    let mut projectiles: Vec<Projectile> = Vec::new();
    spawn_sprite(&guitar, Vec2i { x: 1000, y: 0 }, Vec2i { x: 0, y: 0 }, &mut projectiles);
    let mut lvl = CanLevel { experience: 0, level: 1, level_step: 100 };
    let mut effects: Vec<Effect> = Vec::new();
    update_projectile_collisions(&mut enemies, &mut projectiles, &mut lvl, 1, &mut effects);
    assert!(enemies.is_empty());
    assert_eq!(effects.len(), 1);
    assert!(effects[0].explosion.is_some() && effects[0].damage_effect.is_none());
    assert_eq!(effects[0].pos, Vec2i { x: 5_000, y: -7_000 });
}

#[test]
fn projectile_expires_after_lifetime() {
    let guitar = survivors_core::weapons::get_guitar_weapon();
    let mut projectiles: Vec<Projectile> = Vec::new();
    spawn_sprite(&guitar, Vec2i { x: 0, y: 1000 }, Vec2i { x: 0, y: 0 }, &mut projectiles);
    let mut elapsed = 0u32;
    while elapsed + 5_000 <= PROJECTILE_LIFETIME_MS {
        update_projectiles(&mut projectiles, 5_000);
        elapsed += 5_000;
        assert_eq!(projectiles.len(), 1);
    }
    update_projectiles(&mut projectiles, 5_001);
    assert!(projectiles.is_empty(), "the leak guard despawns the projectile past 20 s");
}

#[test]
fn travelling_projectile_moves_stationary_does_not() {
    let guitar = survivors_core::weapons::get_guitar_weapon();
    let mut ps: Vec<Projectile> = Vec::new();
    spawn_sprite(&guitar, Vec2i { x: 1000, y: 0 }, Vec2i { x: 0, y: 0 }, &mut ps);
    update_projectiles(&mut ps, 100);
    // Speed 100 for 100 ms: ten units along +x.
    assert_eq!(ps[0].pos, Vec2i { x: 10_000, y: 0 });

    // A random-enemy (instant) projectile stays where it was cast.
    let lightning = survivors_core::weapons::get_lightning_weapon();
    let mut ps2: Vec<Projectile> = Vec::new();
    spawn_sprite(&lightning, Vec2i { x: 0, y: 1000 }, Vec2i { x: 70_000, y: 0 }, &mut ps2);
    update_projectiles(&mut ps2, 100);
    assert_eq!(ps2[0].pos, Vec2i { x: 70_000, y: 0 });
}

#[test]
fn instant_projectile_despawns_after_one_shot_animation() {
    let lightning = survivors_core::weapons::get_lightning_weapon();
    let mut ps: Vec<Projectile> = Vec::new();
    spawn_sprite(&lightning, Vec2i { x: 0, y: 1000 }, Vec2i { x: 0, y: 0 }, &mut ps);
    // Eight frames (0..=7) at 100 ms per frame; the wrap past the last
    // frame despawns the one-shot effect.
    for _ in 0..7 {
        update_projectiles(&mut ps, 100);
        assert_eq!(ps.len(), 1);
    }
    update_projectiles(&mut ps, 100);
    assert!(ps.is_empty());
}

#[test]
fn effects_play_once_and_despawn() {
    let mut effects: Vec<Effect> = Vec::new();
    spawn_explosion_at_position(&mut effects, Vec2i { x: 5, y: 6 });
    assert_eq!(effects[0].pos, Vec2i { x: 5, y: 6 });
    // Six frames (0..=5) at 50 ms.
    for _ in 0..5 {
        update_explosions_damage_effects(&mut effects, 50);
        assert_eq!(effects.len(), 1);
    }
    update_explosions_damage_effects(&mut effects, 50);
    assert!(effects.is_empty());
}

#[test]
fn weapon_pick_appends_and_resumes() {
    let mut ctx = setup();
    ctx.state = GamePlayState::LevelUp;
    ctx.pending_weapons = vec![survivors_core::weapons::get_horse_weapon()];
    weapon_button_select(&mut ctx, 0);
    assert_eq!(ctx.state, GamePlayState::Started);
    assert_eq!(ctx.player.weapons.len(), 2);
    assert_eq!(ctx.player.weapons[1].variant, WeaponsEnum::Horse);
    assert!(ctx.pending_weapons.is_empty());
}

#[test]
fn unload_clears_entities() {
    let mut ctx = setup();
    ctx.enemies.push(mk_enemy(100_000, 0, 10_000));
    unload(&mut ctx);
    assert_eq!(ctx.state, GamePlayState::Unloaded);
    assert!(ctx.enemies.is_empty());
    assert!(ctx.projectiles.is_empty());
    assert!(ctx.effects.is_empty());
}

// The random draws behind the random-point targeting stay strictly inside
// the weapon's aim range.
#[test]
fn random_nearby_position_stays_in_range() {
    let horse = survivors_core::weapons::get_horse_weapon();
    let player = Vec2i { x: 100_000, y: -200_000 };
    for _ in 0..200 {
        let p = get_random_nearby_position(player, &horse.projectile_props);
        assert!((p.x - player.x).abs() < horse.projectile_props.projectile_aim_range);
        assert!((p.y - player.y).abs() < horse.projectile_props.projectile_aim_range);
        assert!(-MAP_WIDTH_MU / 2 <= p.x && p.x <= MAP_WIDTH_MU / 2);
        assert!(-MAP_HEIGHT_MU / 2 <= p.y && p.y <= MAP_HEIGHT_MU / 2);
    }
}

// Stage escalation: wave timers spawn batches of five per stage, and
// passing the stage ceiling reports the boss transition.
#[test]
fn stage_escalation_reaches_boss() {
    let mut ctx = setup();
    let mut saw_boss = false;
    // 15 s per stage, starting at stage 1; stage 5 is reached after 60 s.
    for _ in 0..7_000 {
        let outcome = run_frame(&mut ctx, no_input(), 10);
        if outcome.game_won {
            break;
        }
        if ctx.state == GamePlayState::LevelUp {
            // Always take the first offered weapon and resume.
            weapon_button_select(&mut ctx, 0);
        }
        if outcome.to_boss {
            saw_boss = true;
            break;
        }
    }
    assert!(saw_boss);
    assert_eq!(ctx.state, GamePlayState::Boss);
    assert!(ctx.level_spawns.current_stage > 4);
}

// The single-use damage latch: an instant-area projectile lingers after its
// hit but never deals damage twice.
#[test]
fn triggered_projectile_deals_no_further_damage() {
    let splash = survivors_core::weapons::get_splash_weapon();
    let mut enemies = vec![mk_enemy(0, 0, 50_000), mk_enemy(20_000, 0, 50_000)];
    let mut projectiles: Vec<Projectile> = Vec::new();
    spawn_sprite(&splash, Vec2i { x: 0, y: 1000 }, Vec2i { x: 0, y: 0 }, &mut projectiles);
    let mut lvl = CanLevel { experience: 0, level: 1, level_step: 100 };
    let mut effects: Vec<Effect> = Vec::new();

    update_projectile_collisions(&mut enemies, &mut projectiles, &mut lvl, 1, &mut effects);
    // Splash: base 5000 scaled by 800 per-mille within the 30-unit radius.
    assert_eq!(enemies[0].health.total, 50_000 - 4_000);
    assert_eq!(enemies[1].health.total, 50_000 - 4_000);
    // Each surviving target gets one hit spark at its position.
    assert_eq!(effects.len(), 2);
    assert!(effects[0].damage_effect.is_some() && effects[0].explosion.is_none());
    assert_eq!(effects[0].pos, Vec2i { x: 0, y: 0 });
    assert!(effects[1].damage_effect.is_some());
    assert_eq!(effects[1].pos, Vec2i { x: 20_000, y: 0 });
    // Instant categories linger, latched.
    assert_eq!(projectiles.len(), 1);
    assert!(projectiles[0].damage.is_triggered);

    update_projectile_collisions(&mut enemies, &mut projectiles, &mut lvl, 1, &mut effects);
    assert_eq!(enemies[0].health.total, 50_000 - 4_000);
    assert_eq!(enemies[1].health.total, 50_000 - 4_000);
}

// No valid target for nearest-enemy aiming is not an error: the shot falls
// back to the player's facing.
#[test]
fn nearest_enemy_falls_back_to_player_direction() {
    let guitar = survivors_core::weapons::get_guitar_weapon();
    // The only enemy sits 400 units away, beyond the 150-unit aim range.
    let enemies = vec![mk_enemy(400_000, 0, 10_000)];
    let mut projectiles: Vec<Projectile> = Vec::new();
    spawn_projectile_for_aim_method(
        &guitar,
        Vec2i { x: 0, y: 0 },
        Direction::Down,
        &enemies,
        &mut projectiles,
    );
    assert_eq!(projectiles.len(), 1);
    assert_eq!(projectiles[0].movable.direction, Direction::Custom(Vec2i { x: 0, y: -1000 }));
    assert_eq!(projectiles[0].pos, Vec2i { x: 0, y: 0 });

    // In range, the shot points at the enemy instead.
    let near = vec![mk_enemy(100_000, 0, 10_000)];
    let mut ps2: Vec<Projectile> = Vec::new();
    spawn_projectile_for_aim_method(
        &guitar,
        Vec2i { x: 0, y: 0 },
        Direction::Down,
        &near,
        &mut ps2,
    );
    assert_eq!(ps2[0].movable.direction, Direction::Custom(Vec2i { x: 1000, y: 0 }));
}

// The wave director: a completed wave timer spawns five enemies per stage,
// and the stage timer escalates the archetype and count.
#[test]
fn wave_director_spawns_batches() {
    let mut spawns = LevelSpawns::new();
    let mut enemies: Vec<Enemy> = Vec::new();
    let player = Vec2i { x: 0, y: 0 };

    // 9.999 s: nothing yet.
    let to_boss = check_for_spawns(&mut spawns, player, 9_999, &mut enemies);
    assert!(!to_boss);
    assert_eq!(enemies.len(), 0);
    // Wave tick at 10 s: five enemies of stage one.
    let to_boss = check_for_spawns(&mut spawns, player, 1, &mut enemies);
    assert!(!to_boss);
    assert_eq!(enemies.len(), 5);
    assert_eq!(spawns.current_stage, 1);

    // Stage tick at 15 s escalates.
    let to_boss = check_for_spawns(&mut spawns, player, 5_000, &mut enemies);
    assert!(!to_boss);
    assert_eq!(spawns.current_stage, 2);
    assert_eq!(enemies.len(), 5);
}

#[test]
fn enemy_archetypes_by_stage() {
    assert_eq!(get_enemy_type_for_stage(1), EnemyType::Goblin);
    assert_eq!(get_enemy_type_for_stage(2), EnemyType::Mushroom);
    assert_eq!(get_enemy_type_for_stage(3), EnemyType::Slime);
    assert_eq!(get_enemy_type_for_stage(4), EnemyType::Bat);
    assert_eq!(get_enemy_type_for_stage(5), EnemyType::Boss);
    assert_eq!(get_enemy_type_for_stage(40), EnemyType::Boss);

    let (goblin, idle, run) = get_enemy_animation(EnemyType::Goblin);
    assert_eq!(idle, AnimationIndices { first: 6, last: 8 });
    assert_eq!(run, AnimationIndices { first: 0, last: 5 });
    assert_eq!(goblin.idle_anim_indices, idle);

    let (boss, bidle, brun) = get_boss_enemy();
    assert_eq!(bidle, AnimationIndices { first: 12, last: 17 });
    assert_eq!(brun, AnimationIndices { first: 0, last: 11 });
    assert_eq!(boss.moving_anim_indices, brun);
}

// A level-up with the whole roster owned skips the selection screen.
#[test]
fn level_up_with_full_roster_resumes_immediately() {
    let mut ctx = setup();
    ctx.player.weapons = get_vector_with_weapons_for_types(all_weapon_variants());
    on_level_up(&mut ctx);
    assert_eq!(ctx.state, GamePlayState::Started);
    assert!(ctx.pending_weapons.is_empty());

    // With unowned weapons left, the interrupt stands.
    let mut ctx2 = setup();
    on_level_up(&mut ctx2);
    assert_eq!(ctx2.state, GamePlayState::LevelUp);
    assert_eq!(ctx2.pending_weapons.len(), 3);
}

#[test]
fn distance_squared_matches_geometry() {
    let a = Vec2i { x: 3_000, y: -4_000 };
    let b = Vec2i { x: 0, y: 0 };
    assert_eq!(a.distance_squared(b), 25_000_000);
    assert_eq!(b.distance_squared(a), 25_000_000);
    assert_eq!(a.distance_squared(a), 0);
}
