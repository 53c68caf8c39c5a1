//! Adeptus Custodes entries of the built-in catalog: fixed stat blocks
//! turned into `Unit` values. The Balistus grenade launcher's attack count
//! is itself a die roll, fixed once when the loadout is built.

use vstd::prelude::*;

verus! {

use crate::combat::Stats;
use crate::combat::Unit;
use crate::combat::WeaponLoadout;
use crate::combat::Weapons;
use crate::combat::unit_wf;
use crate::combat::weapon_profile;
use crate::dice::Dice;

/// Trajann Valoris's loadout: the Watcher's Axe, fired and swung.
pub fn trajann_valoris_weapons() -> (loadout: WeaponLoadout)
    ensures
        loadout.ranged_weapons@.len() == 1,
        weapon_profile(loadout.ranged_weapons@[0], 24, 2, 2, 5, 2, 3),
        loadout.ranged_weapons@[0].name@ == "Watcher's Axe"@,
        loadout.melee_weapons@.len() == 1,
        weapon_profile(loadout.melee_weapons@[0], 0, 6, 2, 10, 2, 3),
        loadout.melee_weapons@[0].name@ == "Watcher's Axe"@,
{
    let mut ranged_weapons: Vec<Weapons> = Vec::new();
    ranged_weapons.push(
        Weapons {
            name: "Watcher's Axe".to_owned(),
            weapon_range: 24,
            attacks: 2,
            hit: 2,
            strength: 5,
            armour_pen: 2,
            damage: 3,
            tags: vec!["Assault".to_owned()],
        },
    );
    let mut melee_weapons: Vec<Weapons> = Vec::new();
    melee_weapons.push(
        Weapons {
            name: "Watcher's Axe".to_owned(),
            weapon_range: 0,
            attacks: 6,
            hit: 2,
            strength: 10,
            armour_pen: 2,
            damage: 3,
            tags: Vec::new(),
        },
    );
    WeaponLoadout { ranged_weapons, melee_weapons }
}

/// Trajann Valoris: a single-model hero unit carrying the Watcher's Axe.
pub fn trajann_valoris() -> (u: Unit)
    ensures
        unit_wf(u),
        u.name@ == "Trajann Valoris"@,
        u.points == 160,
        u.quantity == 1,
        u.stats == (Stats {
            movement: 6,
            toughness: 6,
            save: 2,
            invulnerable: 4,
            wounds: 7,
            leadership: 5,
            objective_control: 2,
        }),
        u.ranged_weapons@.len() == 1,
        weapon_profile(u.ranged_weapons@[0], 24, 2, 2, 5, 2, 3),
        u.melee_weapons@.len() == 1,
        weapon_profile(u.melee_weapons@[0], 0, 6, 2, 10, 2, 3),
{
    let loadout = trajann_valoris_weapons();
    let stats = Stats {
        movement: 6,
        toughness: 6,
        save: 2,
        invulnerable: 4,
        wounds: 7,
        leadership: 5,
        objective_control: 2,
    };
    let tags: Vec<String> = vec![
        "Infantry".to_owned(),
        "Character".to_owned(),
        "Epic Hero".to_owned(),
        "Imperium".to_owned(),
        "Trajann Valoris".to_owned(),
    ];
    Unit::new(
        "Trajann Valoris",
        160,
        stats,
        1,
        loadout.ranged_weapons,
        loadout.melee_weapons,
        tags,
    )
}

/// The Allarus Custodians' loadout. The grenade launcher's attack count is
/// one die roll, drawn now and fixed for the battle.
pub fn allarus_custodians_weapons(dice: &mut Dice) -> (loadout: WeaponLoadout)
    requires
        old(dice).wf(),
    ensures
        final(dice).wf(),
        *final(dice) == old(dice).advanced(1),
        loadout.ranged_weapons@.len() == 3,
        weapon_profile(loadout.ranged_weapons@[0], 18, old(dice).peek(0) as int, 2, 4, 1, 1),
        weapon_profile(loadout.ranged_weapons@[1], 24, 2, 2, 5, 2, 3),
        weapon_profile(loadout.ranged_weapons@[2], 24, 2, 2, 5, 2, 3),
        loadout.melee_weapons@.len() == 3,
        weapon_profile(loadout.melee_weapons@[0], 0, 4, 3, 9, 1, 3),
        weapon_profile(loadout.melee_weapons@[1], 0, 5, 2, 7, 2, 2),
        weapon_profile(loadout.melee_weapons@[2], 0, 5, 2, 5, 2, 1),
{
    let launcher_attacks = dice.roll() as i8;
    let mut ranged_weapons: Vec<Weapons> = Vec::new();
    ranged_weapons.push(
        Weapons {
            name: "Balistus Grenade Launcher".to_owned(),
            weapon_range: 18,
            attacks: launcher_attacks,
            hit: 2,
            strength: 4,
            armour_pen: 1,
            damage: 1,
            tags: vec!["Blast".to_owned()],
        },
    );
    ranged_weapons.push(
        Weapons {
            name: "Castellan axe".to_owned(),
            weapon_range: 24,
            attacks: 2,
            hit: 2,
            strength: 5,
            armour_pen: 2,
            damage: 3,
            tags: vec!["Assault".to_owned()],
        },
    );
    ranged_weapons.push(
        Weapons {
            name: "Guardian Spear".to_owned(),
            weapon_range: 24,
            attacks: 2,
            hit: 2,
            strength: 5,
            armour_pen: 2,
            damage: 3,
            tags: vec!["Assault".to_owned()],
        },
    );
    let mut melee_weapons: Vec<Weapons> = Vec::new();
    melee_weapons.push(
        Weapons {
            name: "Castellan axe".to_owned(),
            weapon_range: 0,
            attacks: 4,
            hit: 3,
            strength: 9,
            armour_pen: 1,
            damage: 3,
            tags: Vec::new(),
        },
    );
    melee_weapons.push(
        Weapons {
            name: "Guardian Spear".to_owned(),
            weapon_range: 0,
            attacks: 5,
            hit: 2,
            strength: 7,
            armour_pen: 2,
            damage: 2,
            tags: Vec::new(),
        },
    );
    melee_weapons.push(
        Weapons {
            name: "Misericordia".to_owned(),
            weapon_range: 0,
            attacks: 5,
            hit: 2,
            strength: 5,
            armour_pen: 2,
            damage: 1,
            tags: Vec::new(),
        },
    );
    WeaponLoadout { ranged_weapons, melee_weapons }
}

/// Allarus Custodians: a two-model squad in terminator plate.
pub fn allarus_custodians(dice: &mut Dice) -> (u: Unit)
    requires
        old(dice).wf(),
    ensures
        final(dice).wf(),
        *final(dice) == old(dice).advanced(1),
        unit_wf(u),
        u.name@ == "Allarus Custodians"@,
        u.points == 140,
        u.quantity == 2,
        u.stats == (Stats {
            movement: 5,
            toughness: 7,
            save: 2,
            invulnerable: 4,
            wounds: 4,
            leadership: 6,
            objective_control: 2,
        }),
        u.ranged_weapons@.len() == 3,
        weapon_profile(u.ranged_weapons@[0], 18, old(dice).peek(0) as int, 2, 4, 1, 1),
        weapon_profile(u.ranged_weapons@[1], 24, 2, 2, 5, 2, 3),
        weapon_profile(u.ranged_weapons@[2], 24, 2, 2, 5, 2, 3),
        u.melee_weapons@.len() == 3,
        weapon_profile(u.melee_weapons@[0], 0, 4, 3, 9, 1, 3),
        weapon_profile(u.melee_weapons@[1], 0, 5, 2, 7, 2, 2),
        weapon_profile(u.melee_weapons@[2], 0, 5, 2, 5, 2, 1),
{
    let loadout = allarus_custodians_weapons(dice);
    let stats = Stats {
        movement: 5,
        toughness: 7,
        save: 2,
        invulnerable: 4,
        wounds: 4,
        leadership: 6,
        objective_control: 2,
    };
    let tags: Vec<String> = vec![
        "Infantry".to_owned(),
        "Genestealers".to_owned(),
        "Great Devourer".to_owned(),
    ];
    Unit::new(
        "Allarus Custodians",
        140,
        stats,
        2,
        loadout.ranged_weapons,
        loadout.melee_weapons,
        tags,
    )
}

/// The Prosecutors' loadout: boltguns and close combat weapons.
pub fn prosecutors_weapons() -> (loadout: WeaponLoadout)
    ensures
        loadout.ranged_weapons@.len() == 1,
        weapon_profile(loadout.ranged_weapons@[0], 24, 1, 3, 4, 0, 1),
        loadout.ranged_weapons@[0].name@ == "Boltgun"@,
        loadout.melee_weapons@.len() == 1,
        weapon_profile(loadout.melee_weapons@[0], 0, 2, 3, 4, 0, 1),
        loadout.melee_weapons@[0].name@ == "Close Combat Weapon"@,
{
    let mut ranged_weapons: Vec<Weapons> = Vec::new();
    ranged_weapons.push(
        Weapons {
            name: "Boltgun".to_owned(),
            weapon_range: 24,
            attacks: 1,
            hit: 3,
            strength: 4,
            armour_pen: 0,
            damage: 1,
            tags: vec!["Rapid Fire".to_owned()],
        },
    );
    let mut melee_weapons: Vec<Weapons> = Vec::new();
    melee_weapons.push(
        Weapons {
            name: "Close Combat Weapon".to_owned(),
            weapon_range: 0,
            attacks: 2,
            hit: 3,
            strength: 4,
            armour_pen: 0,
            damage: 1,
            tags: Vec::new(),
        },
    );
    WeaponLoadout { ranged_weapons, melee_weapons }
}

/// Prosecutors: a three-model battleline squad with no invulnerable save
/// worth the name (7 can never beat a die).
pub fn prosecutors() -> (u: Unit)
    ensures
        unit_wf(u),
        u.name@ == "Prosecutors"@,
        u.points == 140,
        u.quantity == 3,
        u.stats == (Stats {
            movement: 6,
            toughness: 3,
            save: 3,
            invulnerable: 7,
            wounds: 1,
            leadership: 6,
            objective_control: 2,
        }),
        u.ranged_weapons@.len() == 1,
        weapon_profile(u.ranged_weapons@[0], 24, 1, 3, 4, 0, 1),
        u.melee_weapons@.len() == 1,
        weapon_profile(u.melee_weapons@[0], 0, 2, 3, 4, 0, 1),
{
    let loadout = prosecutors_weapons();
    let stats = Stats {
        movement: 6,
        toughness: 3,
        save: 3,
        invulnerable: 7,
        wounds: 1,
        leadership: 6,
        objective_control: 2,
    };
    let tags: Vec<String> = vec![
        "Infantry".to_owned(),
        "Battleline".to_owned(),
        "Imperium".to_owned(),
        "Anathma Psykana".to_owned(),
        "Prosecutors".to_owned(),
    ];
    Unit::new(
        "Prosecutors",
        140,
        stats,
        3,
        loadout.ranged_weapons,
        loadout.melee_weapons,
        tags,
    )
}

} // verus!
