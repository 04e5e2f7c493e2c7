use survivors_core::math::{clamp_i64, diag_step, isqrt64};
use survivors_core::timer::Timer;
use survivors_core::weapons::{
    all_weapon_variants, get_available_weapons, get_energy_weapon, get_filtered_weapons,
    get_guitar_weapon, get_horse_weapon, get_lightning_weapon, get_splash_weapon,
    get_vector_with_weapons_for_types, get_weapon_by_variant, get_weapon_for_type,
    ProjectileAimMethod, ProjectileCategory, WeaponsEnum,
};

#[test]
fn isqrt_small_values() {
    assert_eq!(isqrt64(0), 0);
    assert_eq!(isqrt64(1), 1);
    assert_eq!(isqrt64(2), 1);
    assert_eq!(isqrt64(3), 1);
    assert_eq!(isqrt64(4), 2);
    assert_eq!(isqrt64(15), 3);
    assert_eq!(isqrt64(16), 4);
    assert_eq!(isqrt64(1_000_000), 1000);
}

#[test]
fn isqrt_largest_input() {
    assert_eq!(isqrt64(u64::MAX), 0xffff_ffff);
}

#[test]
fn diag_step_brackets_straight_step() {
    // One frame at speed 100 for 16 ms: straight step 1600 milli-units.
    let n: u64 = 1600;
    let d = diag_step(n);
    assert_eq!(d, 1131);
    assert!(2 * d * d <= n * n);
    assert!(n * n < 2 * (d + 1) * (d + 1));
    assert!(d <= n);
}

#[test]
fn diag_step_zero() {
    assert_eq!(diag_step(0), 0);
}

#[test]
fn clamp_edges() {
    assert_eq!(clamp_i64(5, -10, 10), 5);
    assert_eq!(clamp_i64(-11, -10, 10), -10);
    assert_eq!(clamp_i64(11, -10, 10), 10);
    assert_eq!(clamp_i64(10, 10, 10), 10);
}

#[test]
fn repeating_timer_wraps() {
    let mut t = Timer::from_millis(100, true);
    t.tick(99);
    assert!(!t.just_finished);
    assert_eq!(t.elapsed_ms, 99);
    t.tick(2);
    assert!(t.just_finished);
    assert!(t.finished);
    assert_eq!(t.elapsed_ms, 1);
    t.tick(10);
    assert!(!t.just_finished);
}

#[test]
fn once_timer_saturates() {
    let mut t = Timer::from_millis(1000, false);
    t.tick(999);
    assert!(!t.finished);
    t.tick(500);
    assert!(t.finished);
    assert!(t.just_finished);
    assert_eq!(t.elapsed_ms, 1000);
    t.tick(100);
    assert!(t.finished);
    assert!(!t.just_finished);
    t.reset();
    assert!(!t.finished);
    assert_eq!(t.elapsed_ms, 0);
}

#[test]
fn guitar_weapon_values() {
    let w = get_guitar_weapon();
    assert_eq!(w.variant, WeaponsEnum::Guitar);
    assert_eq!(w.tick_timer.duration_ms, 1500);
    assert!(w.tick_timer.repeating);
    assert_eq!(w.projectile_props.projectile_base_damage, 15_000);
    assert_eq!(w.projectile_props.projectile_category, ProjectileCategory::Projectile);
    assert_eq!(w.projectile_props.projectile_aim_method, ProjectileAimMethod::NearestEnemy);
    assert_eq!(w.projectile_props.projectile_aim_range, 150_000);
    assert_eq!(w.projectile_props.projectile_aoe_radius, 0);
    assert_eq!(w.projectile_props.projectile_sprite_width_mu, 64_000);
    assert_eq!(w.projectile_props.projectile_sprite_scale_pm, 400);
}

#[test]
fn other_weapon_values() {
    let h = get_horse_weapon();
    assert_eq!(h.tick_timer.duration_ms, 2500);
    assert_eq!(h.projectile_props.projectile_category, ProjectileCategory::ProjectileAoe);
    assert_eq!(h.projectile_props.projectile_aoe_radius, 50_000);
    assert_eq!(h.projectile_props.projectile_aoe_damage_scale_pm, 500);
    assert_eq!(h.projectile_props.projectile_base_damage, 5_000);

    let e = get_energy_weapon();
    assert_eq!(e.variant, WeaponsEnum::NegativVibes);
    assert_eq!(e.tick_timer.duration_ms, 1500);

    let l = get_lightning_weapon();
    assert_eq!(l.tick_timer.duration_ms, 3000);
    assert_eq!(l.projectile_props.projectile_category, ProjectileCategory::Instant);
    assert_eq!(l.projectile_props.projectile_aim_method, ProjectileAimMethod::RandomEnemy);

    let s = get_splash_weapon();
    assert_eq!(s.tick_timer.duration_ms, 4000);
    assert_eq!(s.projectile_props.projectile_category, ProjectileCategory::InstantAoe);
    assert_eq!(s.projectile_props.projectile_aoe_damage_scale_pm, 800);
    assert_eq!(s.projectile_props.projectile_aoe_radius, 30_000);
}

#[test]
fn filtered_weapons_excludes_owned() {
    let owned = vec![WeaponsEnum::Guitar, WeaponsEnum::Splash];
    let rest = get_filtered_weapons(&owned);
    assert_eq!(
        rest,
        vec![WeaponsEnum::Horse, WeaponsEnum::NegativVibes, WeaponsEnum::Lightning]
    );
    let none_owned = get_filtered_weapons(&Vec::new());
    assert_eq!(none_owned, all_weapon_variants());
}

#[test]
fn available_weapons_counts() {
    // Empty loadout: three distinct fresh choices.
    let offered = get_available_weapons(&Vec::new(), 3);
    assert_eq!(offered.len(), 3);
    for a in 0..offered.len() {
        for b in (a + 1)..offered.len() {
            assert_ne!(offered[a].variant, offered[b].variant);
        }
    }

    // Three owned: only two remain.
    let owned = get_vector_with_weapons_for_types(vec![
        WeaponsEnum::Guitar,
        WeaponsEnum::Horse,
        WeaponsEnum::Splash,
    ]);
    let offered = get_available_weapons(&owned, 3);
    assert_eq!(offered.len(), 2);
    for w in &offered {
        assert!(w.variant == WeaponsEnum::NegativVibes || w.variant == WeaponsEnum::Lightning);
    }

    // Full roster: the level-up screen is skipped.
    let full = get_vector_with_weapons_for_types(all_weapon_variants());
    assert_eq!(get_available_weapons(&full, 3).len(), 0);
}

#[test]
fn weapon_by_variant_finds_first_match() {
    let owned = get_vector_with_weapons_for_types(vec![
        WeaponsEnum::Horse,
        WeaponsEnum::Lightning,
    ]);
    let found = get_weapon_by_variant(&WeaponsEnum::Lightning, &owned);
    assert_eq!(found.unwrap().variant, WeaponsEnum::Lightning);
    assert!(get_weapon_by_variant(&WeaponsEnum::Guitar, &owned).is_none());
}

#[test]
fn weapon_for_type_is_fresh() {
    let w = get_weapon_for_type(&WeaponsEnum::Splash);
    assert_eq!(w.variant, WeaponsEnum::Splash);
    assert_eq!(w.tick_timer.elapsed_ms, 0);
    assert!(!w.tick_timer.finished);
}
