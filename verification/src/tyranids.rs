//! Tyranid entries of the built-in catalog: fixed stat blocks turned into
//! `Unit` values. The Synaptic Pulse's attack count is a die roll plus
//! three, fixed once when the loadout is built; its hit threshold of 0
//! makes it a torrent weapon that hits on any face.

use vstd::prelude::*;

verus! {

use crate::combat::Stats;
use crate::combat::Unit;
use crate::combat::WeaponLoadout;
use crate::combat::Weapons;
use crate::combat::unit_wf;
use crate::combat::weapon_profile;
use crate::dice::Dice;

/// The Swarmlord's loadout: the Synaptic Pulse and its bone sabres.
pub fn swarmlord_weapons(dice: &mut Dice) -> (loadout: WeaponLoadout)
    requires
        old(dice).wf(),
    ensures
        final(dice).wf(),
        *final(dice) == old(dice).advanced(1),
        loadout.ranged_weapons@.len() == 1,
        weapon_profile(loadout.ranged_weapons@[0], 18, old(dice).peek(0) + 3, 0, 5, 1, 2),
        loadout.melee_weapons@.len() == 1,
        weapon_profile(loadout.melee_weapons@[0], 0, 4, 2, 9, 2, 3),
{
    let pulse_attacks = (dice.roll() + 3) as i8;
    let mut ranged_weapons: Vec<Weapons> = Vec::new();
    ranged_weapons.push(
        Weapons {
            name: "Synaptic Pulse".to_owned(),
            weapon_range: 18,
            attacks: pulse_attacks,
            hit: 0,
            strength: 5,
            armour_pen: 1,
            damage: 2,
            tags: vec!["Psychic".to_owned(), "Torrent".to_owned()],
        },
    );
    let mut melee_weapons: Vec<Weapons> = Vec::new();
    melee_weapons.push(
        Weapons {
            name: "Bone Sabres".to_owned(),
            weapon_range: 0,
            attacks: 4,
            hit: 2,
            strength: 9,
            armour_pen: 2,
            damage: 3,
            tags: vec!["Twin-Linked".to_owned()],
        },
    );
    WeaponLoadout { ranged_weapons, melee_weapons }
}

/// The Swarmlord: a single towering monster.
pub fn swarmlord(dice: &mut Dice) -> (u: Unit)
    requires
        old(dice).wf(),
    ensures
        final(dice).wf(),
        *final(dice) == old(dice).advanced(1),
        unit_wf(u),
        u.name@ == "Swarmlord"@,
        u.points == 160,
        u.quantity == 1,
        u.stats == (Stats {
            movement: 8,
            toughness: 8,
            save: 2,
            invulnerable: 4,
            wounds: 10,
            leadership: 7,
            objective_control: 3,
        }),
        u.ranged_weapons@.len() == 1,
        weapon_profile(u.ranged_weapons@[0], 18, old(dice).peek(0) + 3, 0, 5, 1, 2),
        u.melee_weapons@.len() == 1,
        weapon_profile(u.melee_weapons@[0], 0, 4, 2, 9, 2, 3),
{
    let loadout = swarmlord_weapons(dice);
    let stats = Stats {
        movement: 8,
        toughness: 8,
        save: 2,
        invulnerable: 4,
        wounds: 10,
        leadership: 7,
        objective_control: 3,
    };
    let tags: Vec<String> = vec![
        "Monster".to_owned(),
        "Character".to_owned(),
        "Epic Hero".to_owned(),
        "Psyker".to_owned(),
        "Great Devourer".to_owned(),
        "Synapse".to_owned(),
        "The Swarmlord".to_owned(),
    ];
    Unit::new(
        "Swarmlord",
        160,
        stats,
        1,
        loadout.ranged_weapons,
        loadout.melee_weapons,
        tags,
    )
}

/// The Genestealers' loadout: claws and talons only, nothing ranged.
pub fn genestealers_weapons() -> (loadout: WeaponLoadout)
    ensures
        loadout.ranged_weapons@.len() == 0,
        loadout.melee_weapons@.len() == 1,
        weapon_profile(loadout.melee_weapons@[0], 0, 4, 2, 4, 2, 1),
        loadout.melee_weapons@[0].name@ == "Genestealer Claws and Talons"@,
{
    let ranged_weapons: Vec<Weapons> = Vec::new();
    let mut melee_weapons: Vec<Weapons> = Vec::new();
    melee_weapons.push(
        Weapons {
            name: "Genestealer Claws and Talons".to_owned(),
            weapon_range: 0,
            attacks: 4,
            hit: 2,
            strength: 4,
            armour_pen: 2,
            damage: 1,
            tags: Vec::new(),
        },
    );
    WeaponLoadout { ranged_weapons, melee_weapons }
}

/// Genestealers: a five-model brood that fights only in melee.
pub fn genestealers() -> (u: Unit)
    ensures
        unit_wf(u),
        u.name@ == "Genestealers"@,
        u.points == 140,
        u.quantity == 5,
        u.stats == (Stats {
            movement: 8,
            toughness: 4,
            save: 5,
            invulnerable: 5,
            wounds: 2,
            leadership: 7,
            objective_control: 1,
        }),
        u.ranged_weapons@.len() == 0,
        u.melee_weapons@.len() == 1,
        weapon_profile(u.melee_weapons@[0], 0, 4, 2, 4, 2, 1),
{
    let loadout = genestealers_weapons();
    let stats = Stats {
        movement: 8,
        toughness: 4,
        save: 5,
        invulnerable: 5,
        wounds: 2,
        leadership: 7,
        objective_control: 1,
    };
    let tags: Vec<String> = vec![
        "Infantry".to_owned(),
        "Genestealers".to_owned(),
        "Great Devourer".to_owned(),
    ];
    Unit::new(
        "Genestealers",
        140,
        stats,
        5,
        loadout.ranged_weapons,
        loadout.melee_weapons,
        tags,
    )
}

} // verus!
