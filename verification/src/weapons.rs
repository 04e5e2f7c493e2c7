//! The weapon roster: projectile parameters per weapon, and the random
//! selection of not-yet-owned weapons offered at a level-up.

use vstd::prelude::*;

use crate::projectile_spawner::DamageType;
use crate::rng::rand_u64_below;
use crate::sprite::AnimationIndices;
use crate::timer::Timer;

verus! {

/// How many distinct weapons exist.
pub const NUM_WEAPON_VARIANTS: usize = 5;

/// How many weapons a level-up offers to choose from.
pub const NUM_LEVEL_UP_CHOICES: usize = 3;

#[derive(Clone, Copy, PartialEq, Eq, Structural, Debug)]
pub enum WeaponsEnum {
    Guitar,
    Horse,
    NegativVibes,
    Lightning,
    Splash,
}

/// What a projectile does on impact: travel and hit one target, travel and
/// splash, or appear in place as a one-shot effect (single or splash).
#[derive(Clone, Copy, PartialEq, Eq, Structural, Debug)]
pub enum ProjectileCategory {
    Projectile,
    ProjectileAoe,
    Instant,
    InstantAoe,
}

/// How a projectile's origin and direction are chosen at spawn time.
#[derive(Clone, Copy, PartialEq, Eq, Structural, Debug)]
pub enum ProjectileAimMethod {
    NearestEnemy,
    OnSelf,
    PlayerDirection,
    RandomEnemy,
    Random,
}

/// Where a projectile sprite is anchored; display metadata.
#[derive(Clone, Copy, PartialEq, Eq, Structural, Debug)]
pub enum SpriteAnchor {
    Center,
    BottomCenter,
}

/// Parameters a weapon stamps onto each projectile it spawns.  Lengths are
/// in milli-units, damage in milli-points, scales in per-mille, the rotation
/// offset in milli-radians.
#[derive(Clone, Copy, Debug)]
pub struct ProjectileProps {
    pub projectile_category: ProjectileCategory,
    pub projectile_damage_type: DamageType,
    pub projectile_base_damage: i64,
    pub projectile_aim_range: i64,
    pub projectile_aim_method: ProjectileAimMethod,
    pub projectile_sprite: &'static str,
    pub projectile_sprite_indices: AnimationIndices,
    pub projectile_sprite_scale_pm: i64,
    pub projectile_sprite_height_mu: i64,
    pub projectile_sprite_width_mu: i64,
    pub projectile_sprite_rows: usize,
    pub projectile_sprite_cols: usize,
    pub projectile_aoe_radius: i64,
    pub projectile_aoe_damage_scale_pm: i64,
    pub projectile_rotation_offset_mrad: i64,
    pub projectile_sprite_anchor: SpriteAnchor,
}

impl ProjectileProps {
    pub open spec fn wf(self) -> bool {
        &&& self.projectile_sprite_indices.wf()
        &&& 0 <= self.projectile_base_damage <= 1_000_000_000
        &&& 0 <= self.projectile_aim_range <= 100_000_000
        &&& 0 <= self.projectile_aoe_radius <= 100_000_000
        &&& 0 <= self.projectile_aoe_damage_scale_pm <= 1000
        &&& 0 < self.projectile_sprite_width_mu <= 1_000_000
        &&& 0 < self.projectile_sprite_height_mu <= 1_000_000
        &&& 0 < self.projectile_sprite_scale_pm <= 10_000
    }

    /// Distance under which a projectile collides with an enemy: half the
    /// projectile sprite's scaled width, in milli-units.
    pub open spec fn spec_collision_distance_mu(self) -> int {
        self.projectile_sprite_width_mu * self.projectile_sprite_scale_pm / 2000
    }

    pub fn collision_distance_mu(&self) -> (r: i64)
        requires
            self.wf(),
        ensures
            r == self.spec_collision_distance_mu(),
            0 <= r <= 5_000_000,
    {
        proof {
            assert(self.projectile_sprite_width_mu * self.projectile_sprite_scale_pm
                <= 1_000_000 * 10_000) by (nonlinear_arith)
                requires
                    0 < self.projectile_sprite_width_mu <= 1_000_000,
                    0 < self.projectile_sprite_scale_pm <= 10_000,
            ;
            assert(self.projectile_sprite_width_mu * self.projectile_sprite_scale_pm >= 0)
                by (nonlinear_arith)
                requires
                    0 < self.projectile_sprite_width_mu,
                    0 < self.projectile_sprite_scale_pm,
            ;
        }
        (self.projectile_sprite_width_mu * self.projectile_sprite_scale_pm) / 2000
    }
}

/// A weapon owned by the player: display strings, its repeating cooldown
/// timer, and the projectile parameters it fires with.
#[derive(Debug)]
pub struct Weapon {
    pub name: String,
    pub desc: String,
    pub variant: WeaponsEnum,
    pub tick_timer: Timer,
    pub projectile_props: ProjectileProps,
}

impl Clone for Weapon {
    fn clone(&self) -> (w: Weapon)
        ensures
            w == *self,
    {
        Weapon {
            name: self.name.clone(),
            desc: self.desc.clone(),
            variant: self.variant,
            tick_timer: self.tick_timer,
            projectile_props: self.projectile_props,
        }
    }
}

impl Weapon {
    pub open spec fn wf(self) -> bool {
        self.tick_timer.wf() && self.projectile_props.wf()
    }

    /// A weapon as freshly built for `variant`: well formed, with the
    /// variant's projectile parameters and an unticked repeating cooldown.
    pub open spec fn is_fresh_for(self, variant: WeaponsEnum) -> bool {
        &&& self.wf()
        &&& self.variant == variant
        &&& self.projectile_props == spec_props_for_variant(variant)
        &&& self.tick_timer.duration_ms == spec_cooldown_ms(variant)
        &&& self.tick_timer.elapsed_ms == 0
        &&& self.tick_timer.repeating
        &&& !self.tick_timer.finished
        &&& !self.tick_timer.just_finished
    }
}

/// The five weapon variants, in roster order.
pub open spec fn spec_all_variants() -> Seq<WeaponsEnum> {
    seq![
        WeaponsEnum::Guitar,
        WeaponsEnum::Horse,
        WeaponsEnum::NegativVibes,
        WeaponsEnum::Lightning,
        WeaponsEnum::Splash,
    ]
}

/// The five weapon variants, in roster order.
pub fn all_weapon_variants() -> (r: Vec<WeaponsEnum>)
    ensures
        r@ == spec_all_variants(),
{
    let mut r: Vec<WeaponsEnum> = Vec::new();
    r.push(WeaponsEnum::Guitar);
    r.push(WeaponsEnum::Horse);
    r.push(WeaponsEnum::NegativVibes);
    r.push(WeaponsEnum::Lightning);
    r.push(WeaponsEnum::Splash);
    proof {
        assert(r@ =~= spec_all_variants());
    }
    r
}

/// Cooldown between shots, per variant, in milliseconds.
pub open spec fn spec_cooldown_ms(v: WeaponsEnum) -> u32 {
    match v {
        WeaponsEnum::Guitar => 1500,
        WeaponsEnum::Horse => 2500,
        WeaponsEnum::NegativVibes => 1500,
        WeaponsEnum::Lightning => 3000,
        WeaponsEnum::Splash => 4000,
    }
}

pub open spec fn spec_guitar_props() -> ProjectileProps {
    ProjectileProps {
        projectile_sprite: "sprites/weapons/guitar_pixelated_small.png",
        projectile_sprite_scale_pm: 400,
        projectile_category: ProjectileCategory::Projectile,
        projectile_aim_method: ProjectileAimMethod::NearestEnemy,
        projectile_sprite_indices: AnimationIndices { first: 0, last: 2 },
        projectile_sprite_height_mu: 64_000,
        projectile_sprite_width_mu: 64_000,
        projectile_sprite_rows: 1,
        projectile_sprite_cols: 3,
        projectile_aoe_radius: 0,
        projectile_damage_type: DamageType::Normal,
        projectile_base_damage: 15_000,
        projectile_rotation_offset_mrad: 0,
        projectile_aoe_damage_scale_pm: 500,
        projectile_aim_range: 150_000,
        projectile_sprite_anchor: SpriteAnchor::Center,
    }
}

pub open spec fn spec_horse_props() -> ProjectileProps {
    ProjectileProps {
        projectile_sprite: "sprites/weapons/horse.png",
        projectile_sprite_scale_pm: 400,
        projectile_category: ProjectileCategory::ProjectileAoe,
        projectile_aim_method: ProjectileAimMethod::PlayerDirection,
        projectile_sprite_indices: AnimationIndices { first: 9, last: 11 },
        projectile_sprite_height_mu: 96_000,
        projectile_sprite_width_mu: 96_000,
        projectile_sprite_rows: 4,
        projectile_sprite_cols: 3,
        projectile_aoe_radius: 50_000,
        projectile_damage_type: DamageType::Normal,
        projectile_base_damage: 5_000,
        projectile_rotation_offset_mrad: 1571,
        projectile_aoe_damage_scale_pm: 500,
        projectile_aim_range: 150_000,
        projectile_sprite_anchor: SpriteAnchor::Center,
    }
}

pub open spec fn spec_energy_props() -> ProjectileProps {
    ProjectileProps {
        projectile_sprite: "sprites/weapons/energy.png",
        projectile_sprite_scale_pm: 400,
        projectile_category: ProjectileCategory::Projectile,
        projectile_aim_method: ProjectileAimMethod::NearestEnemy,
        projectile_sprite_indices: AnimationIndices { first: 0, last: 8 },
        projectile_sprite_height_mu: 128_000,
        projectile_sprite_width_mu: 128_000,
        projectile_sprite_rows: 1,
        projectile_sprite_cols: 9,
        projectile_aoe_radius: 0,
        projectile_damage_type: DamageType::Psychological,
        projectile_base_damage: 15_000,
        projectile_rotation_offset_mrad: 0,
        projectile_aoe_damage_scale_pm: 500,
        projectile_aim_range: 150_000,
        projectile_sprite_anchor: SpriteAnchor::Center,
    }
}

pub open spec fn spec_lightning_props() -> ProjectileProps {
    ProjectileProps {
        projectile_sprite: "sprites/weapons/thunder.png",
        projectile_sprite_scale_pm: 800,
        projectile_category: ProjectileCategory::Instant,
        projectile_aim_method: ProjectileAimMethod::RandomEnemy,
        projectile_sprite_indices: AnimationIndices { first: 0, last: 7 },
        projectile_sprite_height_mu: 256_000,
        projectile_sprite_width_mu: 64_000,
        projectile_sprite_rows: 1,
        projectile_sprite_cols: 8,
        projectile_aoe_radius: 0,
        projectile_damage_type: DamageType::Lightning,
        projectile_base_damage: 15_000,
        projectile_rotation_offset_mrad: 1571,
        projectile_aoe_damage_scale_pm: 0,
        projectile_aim_range: 150_000,
        projectile_sprite_anchor: SpriteAnchor::BottomCenter,
    }
}

pub open spec fn spec_splash_props() -> ProjectileProps {
    ProjectileProps {
        projectile_sprite: "sprites/weapons/splash.png",
        projectile_sprite_scale_pm: 600,
        projectile_category: ProjectileCategory::InstantAoe,
        projectile_aim_method: ProjectileAimMethod::RandomEnemy,
        projectile_sprite_indices: AnimationIndices { first: 0, last: 19 },
        projectile_sprite_height_mu: 77_000,
        projectile_sprite_width_mu: 66_000,
        projectile_sprite_rows: 4,
        projectile_sprite_cols: 5,
        projectile_aoe_radius: 30_000,
        projectile_damage_type: DamageType::Water,
        projectile_base_damage: 5_000,
        projectile_rotation_offset_mrad: 1571,
        projectile_aoe_damage_scale_pm: 800,
        projectile_aim_range: 150_000,
        projectile_sprite_anchor: SpriteAnchor::BottomCenter,
    }
}

/// The projectile parameters each variant fires with.
pub open spec fn spec_props_for_variant(v: WeaponsEnum) -> ProjectileProps {
    match v {
        WeaponsEnum::Guitar => spec_guitar_props(),
        WeaponsEnum::Horse => spec_horse_props(),
        WeaponsEnum::NegativVibes => spec_energy_props(),
        WeaponsEnum::Lightning => spec_lightning_props(),
        WeaponsEnum::Splash => spec_splash_props(),
    }
}

pub fn get_guitar_weapon() -> (w: Weapon)
    ensures
        w.is_fresh_for(WeaponsEnum::Guitar),
{
    Weapon {
        name: String::from_str("Guitar of death"),
        desc: String::from_str("It hits hard. But throwing guitars takes a while..."),
        tick_timer: Timer::from_millis(1500, true),
        variant: WeaponsEnum::Guitar,
        projectile_props: ProjectileProps {
            projectile_sprite: "sprites/weapons/guitar_pixelated_small.png",
            projectile_sprite_scale_pm: 400,
            projectile_category: ProjectileCategory::Projectile,
            projectile_aim_method: ProjectileAimMethod::NearestEnemy,
            projectile_sprite_indices: AnimationIndices { first: 0, last: 2 },
            projectile_sprite_height_mu: 64_000,
            projectile_sprite_width_mu: 64_000,
            projectile_sprite_rows: 1,
            projectile_sprite_cols: 3,
            projectile_aoe_radius: 0,
            projectile_damage_type: DamageType::Normal,
            projectile_base_damage: 15_000,
            projectile_rotation_offset_mrad: 0,
            projectile_aoe_damage_scale_pm: 500,
            projectile_aim_range: 150_000,
            projectile_sprite_anchor: SpriteAnchor::Center,
        },
    }
}

pub fn get_horse_weapon() -> (w: Weapon)
    ensures
        w.is_fresh_for(WeaponsEnum::Horse),
{
    Weapon {
        name: String::from_str("Flatulent Horses"),
        desc: String::from_str(
            "Devastating area of attack ability due to, you guessed it, flatulence. \n\n\"Never underestimate horses.\" - Lisa",
        ),
        tick_timer: Timer::from_millis(2500, true),
        variant: WeaponsEnum::Horse,
        projectile_props: ProjectileProps {
            projectile_sprite: "sprites/weapons/horse.png",
            projectile_sprite_scale_pm: 400,
            projectile_category: ProjectileCategory::ProjectileAoe,
            projectile_aim_method: ProjectileAimMethod::PlayerDirection,
            projectile_sprite_indices: AnimationIndices { first: 9, last: 11 },
            projectile_sprite_height_mu: 96_000,
            projectile_sprite_width_mu: 96_000,
            projectile_sprite_rows: 4,
            projectile_sprite_cols: 3,
            projectile_aoe_radius: 50_000,
            projectile_damage_type: DamageType::Normal,
            projectile_base_damage: 5_000,
            projectile_rotation_offset_mrad: 1571,
            projectile_aoe_damage_scale_pm: 500,
            projectile_aim_range: 150_000,
            projectile_sprite_anchor: SpriteAnchor::Center,
        },
    }
}

pub fn get_energy_weapon() -> (w: Weapon)
    ensures
        w.is_fresh_for(WeaponsEnum::NegativVibes),
{
    Weapon {
        name: String::from_str("Negative vibes"),
        desc: String::from_str(
            "By merely frowning, your most taxing anxieties are instantly transferred to the nearest enemy, dealing psychological damage. It's also great for toning the face :)",
        ),
        tick_timer: Timer::from_millis(1500, true),
        variant: WeaponsEnum::NegativVibes,
        projectile_props: ProjectileProps {
            projectile_sprite: "sprites/weapons/energy.png",
            projectile_sprite_scale_pm: 400,
            projectile_category: ProjectileCategory::Projectile,
            projectile_aim_method: ProjectileAimMethod::NearestEnemy,
            projectile_sprite_indices: AnimationIndices { first: 0, last: 8 },
            projectile_sprite_height_mu: 128_000,
            projectile_sprite_width_mu: 128_000,
            projectile_sprite_rows: 1,
            projectile_sprite_cols: 9,
            projectile_aoe_radius: 0,
            projectile_damage_type: DamageType::Psychological,
            projectile_base_damage: 15_000,
            projectile_rotation_offset_mrad: 0,
            projectile_aoe_damage_scale_pm: 500,
            projectile_aim_range: 150_000,
            projectile_sprite_anchor: SpriteAnchor::Center,
        },
    }
}

pub fn get_lightning_weapon() -> (w: Weapon)
    ensures
        w.is_fresh_for(WeaponsEnum::Lightning),
{
    Weapon {
        name: String::from_str("Spaghetti Lightning"),
        desc: String::from_str(
            "The Spaghetti Monster has this strange tendency to get involved at the wrong times. And, incidentally, a strange fascination with Zeus. This is the result.",
        ),
        tick_timer: Timer::from_millis(3000, true),
        variant: WeaponsEnum::Lightning,
        projectile_props: ProjectileProps {
            projectile_sprite: "sprites/weapons/thunder.png",
            projectile_sprite_scale_pm: 800,
            projectile_category: ProjectileCategory::Instant,
            projectile_aim_method: ProjectileAimMethod::RandomEnemy,
            projectile_sprite_indices: AnimationIndices { first: 0, last: 7 },
            projectile_sprite_height_mu: 256_000,
            projectile_sprite_width_mu: 64_000,
            projectile_sprite_rows: 1,
            projectile_sprite_cols: 8,
            projectile_aoe_radius: 0,
            projectile_damage_type: DamageType::Lightning,
            projectile_base_damage: 15_000,
            projectile_rotation_offset_mrad: 1571,
            projectile_aoe_damage_scale_pm: 0,
            projectile_aim_range: 150_000,
            projectile_sprite_anchor: SpriteAnchor::BottomCenter,
        },
    }
}

pub fn get_splash_weapon() -> (w: Weapon)
    ensures
        w.is_fresh_for(WeaponsEnum::Splash),
{
    Weapon {
        name: String::from_str("Big splash"),
        desc: String::from_str(
            "Before the fight started, you snuck onto the lawn and overclocked the water sprinklers. This skill lets you take advantage of your preparedness.",
        ),
        tick_timer: Timer::from_millis(4000, true),
        variant: WeaponsEnum::Splash,
        projectile_props: ProjectileProps {
            projectile_sprite: "sprites/weapons/splash.png",
            projectile_sprite_scale_pm: 600,
            projectile_category: ProjectileCategory::InstantAoe,
            projectile_aim_method: ProjectileAimMethod::RandomEnemy,
            projectile_sprite_indices: AnimationIndices { first: 0, last: 19 },
            projectile_sprite_height_mu: 77_000,
            projectile_sprite_width_mu: 66_000,
            projectile_sprite_rows: 4,
            projectile_sprite_cols: 5,
            projectile_aoe_radius: 30_000,
            projectile_damage_type: DamageType::Water,
            projectile_base_damage: 5_000,
            projectile_rotation_offset_mrad: 1571,
            projectile_aoe_damage_scale_pm: 800,
            projectile_aim_range: 150_000,
            projectile_sprite_anchor: SpriteAnchor::BottomCenter,
        },
    }
}

/// Build the weapon for a variant.
pub fn get_weapon_for_type(weapon_type: &WeaponsEnum) -> (w: Weapon)
    ensures
        w.is_fresh_for(*weapon_type),
{
    match weapon_type {
        WeaponsEnum::Guitar => get_guitar_weapon(),
        WeaponsEnum::Horse => get_horse_weapon(),
        WeaponsEnum::NegativVibes => get_energy_weapon(),
        WeaponsEnum::Lightning => get_lightning_weapon(),
        WeaponsEnum::Splash => get_splash_weapon(),
    }
}

/// The variants of the given weapons, in order.
pub fn get_collated_weapons_for_player(weapons: &Vec<Weapon>) -> (r: Vec<WeaponsEnum>)
    ensures
        r@.len() == weapons@.len(),
        forall|i: int| 0 <= i < weapons@.len() ==> r@[i] == weapons@[i].variant,
{
    let mut collated: Vec<WeaponsEnum> = Vec::new();
    let mut i: usize = 0;
    while i < weapons.len()
        invariant
            i <= weapons@.len(),
            collated@.len() == i,
            forall|j: int| 0 <= j < i ==> collated@[j] == weapons@[j].variant,
        decreases weapons@.len() - i,
    {
        collated.push(weapons[i].variant);
        i = i + 1;
    }
    collated
}

/// Whether `x` occurs in `v`.
fn contains_variant(v: &Vec<WeaponsEnum>, x: WeaponsEnum) -> (r: bool)
    ensures
        r == v@.contains(x),
{
    let mut i: usize = 0;
    while i < v.len()
        invariant
            i <= v@.len(),
            forall|j: int| 0 <= j < i ==> v@[j] != x,
        decreases v@.len() - i,
    {
        if v[i] == x {
            return true;
        }
        i = i + 1;
    }
    false
}

/// A filter of a sequence of distinct elements draws its elements from the
/// sequence and is itself distinct.
proof fn lemma_filter_distinct<A>(s: Seq<A>, pred: spec_fn(A) -> bool)
    requires
        forall|a: int, b: int| 0 <= a < b < s.len() ==> s[a] != s[b],
    ensures
        forall|k: int|
            0 <= k < s.filter(pred).len() ==> s.contains(#[trigger] s.filter(pred)[k]),
        forall|a: int, b: int|
            0 <= a < b < s.filter(pred).len() ==> s.filter(pred)[a] != s.filter(pred)[b],
    decreases s.len(),
{
    reveal(Seq::filter);
    if s.len() > 0 {
        let rest = s.drop_last();
        let last = s.last();
        assert(forall|a: int| 0 <= a < rest.len() ==> rest[a] == s[a]);
        lemma_filter_distinct(rest, pred);
        if pred(last) {
            assert(s.filter(pred) == rest.filter(pred).push(last));
            assert forall|k: int|
                0 <= k < s.filter(pred).len() implies s.contains(
                #[trigger] s.filter(pred)[k]) by {
                if k < rest.filter(pred).len() {
                    assert(rest.contains(rest.filter(pred)[k]));
                    let j = choose|j: int| 0 <= j < rest.len() && rest[j] == rest.filter(
                        pred,
                    )[k];
                    assert(s[j] == s.filter(pred)[k]);
                } else {
                    assert(s[s.len() - 1] == last);
                }
            }
            assert forall|a: int, b: int|
                0 <= a < b < s.filter(pred).len() implies s.filter(pred)[a] != s.filter(
                pred,
            )[b] by {
                if b == s.filter(pred).len() - 1 {
                    assert(rest.contains(rest.filter(pred)[a]));
                    let j = choose|j: int| 0 <= j < rest.len() && rest[j] == rest.filter(
                        pred,
                    )[a];
                    assert(s[j] != s[s.len() - 1]);
                }
            }
        } else {
            assert(s.filter(pred) == rest.filter(pred));
            assert forall|k: int|
                0 <= k < s.filter(pred).len() implies s.contains(
                #[trigger] s.filter(pred)[k]) by {
                assert(rest.contains(rest.filter(pred)[k]));
                let j = choose|j: int| 0 <= j < rest.len() && rest[j] == rest.filter(pred)[k];
                assert(s[j] == s.filter(pred)[k]);
            }
        }
    }
}

/// The roster variants that are not among `owned`, in roster order.
pub open spec fn spec_filtered_variants(owned: Seq<WeaponsEnum>) -> Seq<WeaponsEnum> {
    spec_all_variants().filter(|v: WeaponsEnum| !owned.contains(v))
}

/// The roster variants not among `weapons`, in roster order.
pub fn get_filtered_weapons(weapons: &Vec<WeaponsEnum>) -> (r: Vec<WeaponsEnum>)
    ensures
        r@ == spec_filtered_variants(weapons@),
        forall|i: int| 0 <= i < r@.len() ==> !weapons@.contains(#[trigger] r@[i]),
        forall|i: int, j: int| 0 <= i < j < r@.len() ==> r@[i] != r@[j],
{
    let all = all_weapon_variants();
    let mut filtered: Vec<WeaponsEnum> = Vec::new();
    let mut i: usize = 0;
    while i < all.len()
        invariant
            i <= all@.len(),
            all@ == spec_all_variants(),
            filtered@ == all@.subrange(0, i as int).filter(
                |v: WeaponsEnum| !weapons@.contains(v),
            ),
        decreases all@.len() - i,
    {
        proof {
            assert(all@.subrange(0, i + 1).drop_last() =~= all@.subrange(0, i as int));
            reveal_with_fuel(Seq::filter, 2);
        }
        if !contains_variant(weapons, all[i]) {
            filtered.push(all[i]);
        }
        i = i + 1;
    }
    proof {
        assert(all@.subrange(0, all@.len() as int) =~= all@);
        let f = |v: WeaponsEnum| !weapons@.contains(v);
        let r = spec_filtered_variants(weapons@);
        assert forall|k: int| 0 <= k < r.len() implies !weapons@.contains(#[trigger] r[k]) by {
            spec_all_variants().lemma_filter_pred(f, k);
        }
        lemma_filter_distinct(spec_all_variants(), f);
    }
    filtered
}

/// The first owned weapon of the given variant, if any.
pub fn get_weapon_by_variant(variant: &WeaponsEnum, weapons: &Vec<Weapon>) -> (r: Option<
    Weapon,
>)
    ensures
        match r {
            Some(w) => exists|i: int|
                0 <= i < weapons@.len() && weapons@[i].variant == variant && w
                    == weapons@[i],
            None => forall|i: int| 0 <= i < weapons@.len() ==> weapons@[i].variant != variant,
        },
{
    let mut i: usize = 0;
    while i < weapons.len()
        invariant
            i <= weapons@.len(),
            forall|j: int| 0 <= j < i ==> weapons@[j].variant != variant,
        decreases weapons@.len() - i,
    {
        if weapons[i].variant == *variant {
            return Some(weapons[i].clone());
        }
        i = i + 1;
    }
    None
}

/// Build the weapons for a list of variants, in order.
pub fn get_vector_with_weapons_for_types(types: Vec<WeaponsEnum>) -> (r: Vec<Weapon>)
    ensures
        r@.len() == types@.len(),
        forall|i: int| 0 <= i < types@.len() ==> r@[i].is_fresh_for(types@[i]),
{
    let mut weapons: Vec<Weapon> = Vec::new();
    let mut i: usize = 0;
    while i < types.len()
        invariant
            i <= types@.len(),
            weapons@.len() == i,
            forall|j: int| 0 <= j < i ==> weapons@[j].is_fresh_for(types@[j]),
        decreases types@.len() - i,
    {
        weapons.push(get_weapon_for_type(&types[i]));
        i = i + 1;
    }
    weapons
}

/// A random selection of at most `num_weapons` distinct weapons the player
/// does not own yet, freshly built.  Empty when the player already owns the
/// whole roster; otherwise it offers `num_weapons` choices, or as many as
/// remain unowned.
pub fn get_available_weapons(player_weapons: &Vec<Weapon>, num_weapons: usize) -> (r: Vec<
    Weapon,
>)
    ensures
        forall|i: int|
            0 <= i < r@.len() ==> #[trigger] r@[i].is_fresh_for(r@[i].variant) && !player_weapons@
                .map_values(|w: Weapon| w.variant).contains(r@[i].variant),
        forall|i: int, j: int| 0 <= i < j < r@.len() ==> r@[i].variant != r@[j].variant,
        r@.len() == if player_weapons@.len() >= NUM_WEAPON_VARIANTS {
            0
        } else {
            vstd::math::min(
                num_weapons as int,
                spec_filtered_variants(
                    player_weapons@.map_values(|w: Weapon| w.variant),
                ).len() as int,
            )
        },
{
    let mut new_weapons: Vec<Weapon> = Vec::new();

    let player_weapon_types = get_collated_weapons_for_player(player_weapons);
    proof {
        assert(player_weapon_types@ =~= player_weapons@.map_values(|w: Weapon| w.variant));
    }
    let mut available_weapon_types = get_filtered_weapons(&player_weapon_types);

    if player_weapon_types.len() >= NUM_WEAPON_VARIANTS || available_weapon_types.len() == 0 {
        return new_weapons;
    }

    let ghost avail0 = available_weapon_types@;
    while new_weapons.len() < num_weapons && available_weapon_types.len() > 0
        invariant
            new_weapons@.len() + available_weapon_types@.len() == avail0.len(),
            new_weapons@.len() <= num_weapons,
            forall|i: int|
                0 <= i < new_weapons@.len() ==> #[trigger] new_weapons@[i].is_fresh_for(
                    new_weapons@[i].variant,
                ),
            forall|i: int|
                0 <= i < new_weapons@.len() ==> !player_weapon_types@.contains(
                    #[trigger] new_weapons@[i].variant,
                ),
            forall|i: int|
                0 <= i < available_weapon_types@.len() ==> !player_weapon_types@.contains(
                    #[trigger] available_weapon_types@[i],
                ),
            forall|i: int, j: int|
                0 <= i < j < available_weapon_types@.len() ==> available_weapon_types@[i]
                    != available_weapon_types@[j],
            forall|i: int, j: int|
                0 <= i < new_weapons@.len() && 0 <= j < available_weapon_types@.len()
                    ==> #[trigger] new_weapons@[i].variant != #[trigger] available_weapon_types@[j],
            forall|i: int, j: int|
                0 <= i < j < new_weapons@.len() ==> new_weapons@[i].variant
                    != new_weapons@[j].variant,
        decreases num_weapons - new_weapons@.len(),
    {
        let random_index = rand_u64_below(available_weapon_types.len() as u64) as usize;
        let selected = available_weapon_types[random_index];
        new_weapons.push(get_weapon_for_type(&selected));
        available_weapon_types.remove(random_index);
    }

    new_weapons
}

} // verus!
