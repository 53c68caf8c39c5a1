//! Tests for the dice source and the per-weapon attack pipeline.

use wargame::combat::Stats;
use wargame::combat::Unit;
use wargame::combat::Weapons;
use wargame::combat::effective_save;
use wargame::combat::wound_threshold;
use wargame::dice::Dice;

fn fixed_dice(faces: &[u8]) -> Dice {
    Dice::new(faces.to_vec()).expect("every face must be in 1..=6")
}

fn test_weapon(attacks: i8, hit: i8, strength: i8, armour_pen: i8, damage: i8) -> Weapons {
    Weapons {
        name: "Test Weapon".to_string(),
        weapon_range: 24,
        attacks,
        hit,
        strength,
        armour_pen,
        damage,
        tags: Vec::new(),
    }
}

fn test_defender(toughness: i8, save: i8, invulnerable: i8, wounds: i8, quantity: i8) -> Unit {
    let stats = Stats {
        movement: 6,
        toughness,
        save,
        invulnerable,
        wounds,
        leadership: 6,
        objective_control: 1,
    };
    Unit::new("Target", 100, stats, quantity, Vec::new(), Vec::new(), Vec::new())
}

#[test]
fn dice_rejects_empty_table() {
    assert!(Dice::new(Vec::new()).is_none());
}

#[test]
fn dice_rejects_faces_off_the_die() {
    assert!(Dice::new(vec![1, 7]).is_none());
    assert!(Dice::new(vec![0, 3]).is_none());
}

#[test]
fn dice_cycles_through_its_table() {
    let mut dice = fixed_dice(&[1, 2, 3]);
    assert_eq!(dice.roll(), 1);
    assert_eq!(dice.roll(), 2);
    assert_eq!(dice.roll(), 3);
    assert_eq!(dice.roll(), 1);
    assert_eq!(dice.roll(), 2);
}

#[test]
fn hit_counts_faces_at_or_above_threshold() {
    let weapon = test_weapon(4, 3, 5, 1, 2);
    let mut dice = fixed_dice(&[6, 6, 2, 6]);
    assert_eq!(Unit::hit(&weapon, &mut dice), 3);
}

#[test]
fn hit_with_torrent_threshold_hits_on_any_face() {
    let weapon = test_weapon(4, 0, 5, 1, 2);
    let mut dice = fixed_dice(&[1, 1, 1, 1]);
    assert_eq!(Unit::hit(&weapon, &mut dice), 4);
}

#[test]
fn hit_count_stays_between_zero_and_attacks() {
    let mut dice = fixed_dice(&[3, 1, 6, 2, 5, 4, 2, 2, 6, 1, 3, 5]);
    for hit in 0..8 {
        let weapon = test_weapon(5, hit, 5, 1, 2);
        let hits = Unit::hit(&weapon, &mut dice);
        assert!(0 <= hits && hits <= weapon.attacks);
    }
}

#[test]
fn lower_hit_threshold_never_costs_successes() {
    let faces = [3, 1, 6, 2, 5, 4, 2, 2, 6, 1];
    let mut previous: i8 = i8::MAX;
    for hit in 0..8 {
        let weapon = test_weapon(10, hit, 5, 1, 2);
        let mut dice = fixed_dice(&faces);
        let hits = Unit::hit(&weapon, &mut dice);
        assert!(hits <= previous);
        previous = hits;
    }
}

#[test]
fn wound_threshold_matches_the_strength_toughness_table() {
    assert_eq!(wound_threshold(8, 4), 2);
    assert_eq!(wound_threshold(5, 4), 3);
    assert_eq!(wound_threshold(4, 4), 4);
    assert_eq!(wound_threshold(3, 4), 5);
    assert_eq!(wound_threshold(2, 8), 6);
}

#[test]
fn wound_rolls_against_the_derived_threshold() {
    // Strength 5 against toughness 4 wounds on 3 or better.
    let weapon = test_weapon(4, 3, 5, 1, 2);
    let defender = test_defender(4, 5, 7, 2, 5);
    let mut dice = fixed_dice(&[3, 5, 1]);
    assert_eq!(Unit::wound(&weapon, &defender, 3, &mut dice), 2);
}

#[test]
fn effective_save_picks_the_invulnerable_when_better() {
    assert_eq!(effective_save(3, 2, 4), 4);
}

#[test]
fn effective_save_keeps_the_armour_save_when_better() {
    assert_eq!(effective_save(2, 1, 4), 3);
}

#[test]
fn save_counts_faces_strictly_below_the_effective_save() {
    // Save 5 worsened by penetration 1 gives 6; the invulnerable 7 is worse.
    let weapon = test_weapon(4, 3, 5, 1, 2);
    let defender = test_defender(4, 5, 7, 2, 5);
    let mut dice = fixed_dice(&[5, 6]);
    assert_eq!(Unit::save(&weapon, &defender, 2, &mut dice), 1);
}

#[test]
fn overkill_damage_destroys_the_model_and_resets_the_counter() {
    // A model with 3 of its 4 wounds left, hit once for 5 damage.
    let defender = test_defender(4, 5, 7, 4, 2);
    assert_eq!(Unit::damage(&defender, 2, 3, 1, 5), (1, 4));
}

#[test]
fn light_damage_only_chips_the_active_model() {
    let defender = test_defender(4, 5, 7, 4, 2);
    assert_eq!(Unit::damage(&defender, 2, 3, 1, 2), (2, 1));
}

#[test]
fn damage_never_drives_the_model_count_below_zero() {
    // One model with 2 wounds takes five instances of 3 damage.
    let defender = test_defender(4, 5, 7, 2, 1);
    assert_eq!(Unit::damage(&defender, 1, 2, 5, 3), (0, 2));
}

#[test]
fn damage_chips_across_a_model_boundary() {
    // 2 damage per instance against 3-wound models: 3 -> 1 -> destroyed.
    let defender = test_defender(4, 5, 7, 3, 2);
    assert_eq!(Unit::damage(&defender, 2, 3, 1, 2), (2, 1));
    assert_eq!(Unit::damage(&defender, 2, 1, 1, 2), (1, 3));
}

#[test]
fn attack_runs_the_full_pipeline_in_order() {
    // 4 attacks hitting on 3: faces 6,6,2,6 give 3 hits; strength 5 against
    // toughness 4 wounds on 3: faces 3,5,1 give 2 wounds; effective save 6:
    // faces 5,6 fail once; 1 instance of 2 damage destroys a 2-wound model.
    let weapon = test_weapon(4, 3, 5, 1, 2);
    let defender = test_defender(4, 5, 7, 2, 5);
    let mut dice = fixed_dice(&[6, 6, 2, 6, 3, 5, 1, 5, 6]);
    assert_eq!(Unit::attack(&weapon, &defender, 5, 2, &mut dice), (4, 2));
}
