//! Tests for the phase resolvers: movement, shooting, charge and melee.

use wargame::combat::Stats;
use wargame::combat::Unit;
use wargame::combat::Weapons;
use wargame::dice::Dice;

fn fixed_dice(faces: &[u8]) -> Dice {
    Dice::new(faces.to_vec()).expect("every face must be in 1..=6")
}

fn ranged_weapon(weapon_range: i8) -> Weapons {
    Weapons {
        name: "Test Gun".to_string(),
        weapon_range,
        attacks: 4,
        hit: 3,
        strength: 5,
        armour_pen: 1,
        damage: 2,
        tags: Vec::new(),
    }
}

fn melee_weapon() -> Weapons {
    Weapons {
        name: "Test Blade".to_string(),
        weapon_range: 0,
        attacks: 1,
        hit: 0,
        strength: 8,
        armour_pen: 0,
        damage: 5,
        tags: Vec::new(),
    }
}

fn mover(movement: i8) -> Unit {
    let stats = Stats {
        movement,
        toughness: 4,
        save: 3,
        invulnerable: 7,
        wounds: 2,
        leadership: 6,
        objective_control: 1,
    };
    Unit::new("Mover", 100, stats, 1, Vec::new(), Vec::new(), Vec::new())
}

fn shooter(weapons: Vec<Weapons>) -> Unit {
    let stats = Stats {
        movement: 6,
        toughness: 4,
        save: 3,
        invulnerable: 7,
        wounds: 2,
        leadership: 6,
        objective_control: 1,
    };
    Unit::new("Shooter", 100, stats, 1, weapons, Vec::new(), Vec::new())
}

fn brawler(weapons: Vec<Weapons>) -> Unit {
    let stats = Stats {
        movement: 6,
        toughness: 4,
        save: 3,
        invulnerable: 7,
        wounds: 2,
        leadership: 6,
        objective_control: 1,
    };
    Unit::new("Brawler", 100, stats, 1, Vec::new(), weapons, Vec::new())
}

fn target() -> Unit {
    let stats = Stats {
        movement: 6,
        toughness: 4,
        save: 5,
        invulnerable: 7,
        wounds: 2,
        leadership: 6,
        objective_control: 1,
    };
    Unit::new("Target", 100, stats, 5, Vec::new(), Vec::new(), Vec::new())
}

#[test]
fn movement_closes_by_the_full_allowance() {
    assert_eq!(mover(6).movement(15), 9);
}

#[test]
fn movement_never_goes_negative() {
    assert_eq!(mover(6).movement(4), 0);
}

#[test]
fn shooting_within_range_applies_the_pipeline() {
    let attacker = shooter(vec![ranged_weapon(18)]);
    let defender = target();
    let mut dice = fixed_dice(&[6, 6, 2, 6, 3, 5, 1, 1, 1]);
    let result = Unit::shooting(&attacker, &defender, 5, 2, 9, &mut dice);
    assert_eq!(result, (3, 2));
}

#[test]
fn shooting_out_of_range_contributes_nothing() {
    let attacker = shooter(vec![ranged_weapon(18)]);
    let defender = target();
    let mut dice = fixed_dice(&[6, 6, 6, 6]);
    let result = Unit::shooting(&attacker, &defender, 5, 2, 20, &mut dice);
    assert_eq!(result, (5, 2));
    // No weapon fired, so no die was consumed.
    assert_eq!(dice.next, 0);
}

#[test]
fn shooting_threads_state_through_the_loadout_in_order() {
    // Two guns: only the second is in range at distance 20.
    let attacker = shooter(vec![ranged_weapon(18), ranged_weapon(24)]);
    let defender = target();
    let mut dice = fixed_dice(&[6, 6, 2, 6, 3, 5, 1, 1, 1]);
    let result = Unit::shooting(&attacker, &defender, 5, 2, 20, &mut dice);
    assert_eq!(result, (3, 2));
}

#[test]
fn empty_ranged_loadout_shoots_nothing() {
    let attacker = shooter(Vec::new());
    let defender = target();
    let mut dice = fixed_dice(&[6]);
    assert_eq!(Unit::shooting(&attacker, &defender, 5, 2, 1, &mut dice), (5, 2));
    assert_eq!(dice.next, 0);
}

#[test]
fn charge_succeeds_when_the_roll_reaches_the_distance() {
    let mut dice = fixed_dice(&[4, 5]);
    assert_eq!(mover(6).charge(8, &mut dice), (true, true));
}

#[test]
fn charge_fails_when_the_roll_falls_short() {
    let mut dice = fixed_dice(&[3, 3]);
    assert_eq!(mover(6).charge(8, &mut dice), (false, false));
}

#[test]
fn charge_is_not_attempted_beyond_twelve() {
    let mut dice = fixed_dice(&[6, 6]);
    assert_eq!(mover(6).charge(13, &mut dice), (false, false));
    // No attempt was made, so no die was consumed.
    assert_eq!(dice.next, 0);
}

#[test]
fn charge_at_zero_distance_is_already_engaged() {
    let mut dice = fixed_dice(&[6, 6]);
    assert_eq!(mover(6).charge(0, &mut dice), (true, false));
    assert_eq!(dice.next, 0);
}

#[test]
fn melee_strikes_without_a_range_gate() {
    // Auto-hit, strength 8 against toughness 4 wounds on 2, save 5 fails
    // on a 1, damage 5 destroys a 2-wound model.
    let attacker = brawler(vec![melee_weapon()]);
    let defender = target();
    let mut dice = fixed_dice(&[3, 6, 1]);
    assert_eq!(Unit::melee(&attacker, &defender, 5, 2, &mut dice), (4, 2));
}

#[test]
fn empty_melee_loadout_strikes_nothing() {
    let attacker = brawler(Vec::new());
    let defender = target();
    let mut dice = fixed_dice(&[6]);
    assert_eq!(Unit::melee(&attacker, &defender, 5, 2, &mut dice), (5, 2));
    assert_eq!(dice.next, 0);
}

#[test]
fn check_victory_fires_exactly_at_zero_models() {
    assert!(Unit::check_victory(0));
    assert!(Unit::check_victory(-1));
    assert!(!Unit::check_victory(1));
}
