//! The combat resolution engine.
//!
//! A `Unit` is an immutable description of a squad of identical models; its
//! live state during a battle — remaining model count and the wounds left on
//! the current model — is threaded explicitly through the phase functions as
//! a pair of values. One weapon's activation runs the hit, wound, save and
//! damage steps in order; the phase resolvers apply that pipeline across a
//! whole loadout; the combat loop alternates movement, shooting, charge and
//! melee phases with victory checks between them, until a side is
//! eliminated or the round cap is reached.
//!
//! Every executable function is pinned to a specification-level model of the
//! same computation over the dice stream, so a battle's outcome is provably
//! a function of the unit profiles and the dice alone.

use vstd::prelude::*;

verus! {

use crate::dice::Dice;
use crate::dice::lemma_advanced_compose;
use crate::dice::lemma_advanced_peek;
use crate::dice::lemma_advanced_zero;

/// Per-unit defensive and mobility profile. Thresholds are on the 1–6 die
/// scale where lower is better; an invulnerable save of 7 or more can never
/// beat a die and so stands for "none".
#[derive(Clone, Copy, Debug, PartialEq, Eq, Structural)]
pub struct Stats {
    pub movement: i8,
    pub toughness: i8,
    pub save: i8,
    pub invulnerable: i8,
    pub wounds: i8,
    pub leadership: i8,
    pub objective_control: i8,
}

/// One weapon's offensive profile. A `weapon_range` of 0 marks a
/// melee-only weapon. Tags are free-form labels that the engine does not
/// interpret.
#[derive(Clone, Debug)]
pub struct Weapons {
    pub name: String,
    pub weapon_range: i8,
    pub attacks: i8,
    pub hit: i8,
    pub strength: i8,
    pub armour_pen: i8,
    pub damage: i8,
    pub tags: Vec<String>,
}

/// A unit's weapons, partitioned into ranged and melee sequences. An empty
/// sequence simply contributes nothing in its phase.
#[derive(Clone, Debug)]
pub struct WeaponLoadout {
    pub ranged_weapons: Vec<Weapons>,
    pub melee_weapons: Vec<Weapons>,
}

/// An immutable combatant: a squad of `quantity` identical models sharing
/// one statline and one weapon loadout. Live model and wound counts are
/// threaded through the phase functions, never stored here.
#[derive(Clone, Debug)]
pub struct Unit {
    pub name: String,
    pub points: i16,
    pub quantity: i8,
    pub stats: Stats,
    pub ranged_weapons: Vec<Weapons>,
    pub melee_weapons: Vec<Weapons>,
    pub tags: Vec<String>,
}

/// The side that eliminated its opponent.
#[derive(Clone, Copy, Debug, PartialEq, Eq, Structural)]
pub enum Winner {
    Attacker,
    Defender,
}

/// Statline fields are small positive integers; the bounds of 63 keep every
/// derived quantity (doubled toughness, save worsened by armour
/// penetration) inside `i8`.
pub open spec fn stats_wf(s: Stats) -> bool {
    &&& 0 <= s.movement
    &&& 1 <= s.toughness <= 63
    &&& 1 <= s.save <= 63
    &&& 1 <= s.invulnerable <= 63
    &&& 1 <= s.wounds
    &&& 1 <= s.leadership
    &&& 1 <= s.objective_control
}

/// Weapon fields are small non-negative integers; a hit threshold of 0
/// hits on any face (a torrent weapon), and `damage` is at least 1.
pub open spec fn weapon_wf(w: Weapons) -> bool {
    &&& 0 <= w.weapon_range
    &&& 0 <= w.attacks
    &&& 0 <= w.hit
    &&& 1 <= w.strength <= 63
    &&& 0 <= w.armour_pen <= 63
    &&& 1 <= w.damage
}

/// A unit is well-formed when its statline is, it fields at least one
/// model, and every weapon of either loadout is well-formed.
pub open spec fn unit_wf(u: Unit) -> bool {
    &&& stats_wf(u.stats)
    &&& 1 <= u.quantity
    &&& forall|i: int| 0 <= i < u.ranged_weapons@.len() ==> weapon_wf(#[trigger] u.ranged_weapons@[i])
    &&& forall|i: int| 0 <= i < u.melee_weapons@.len() ==> weapon_wf(#[trigger] u.melee_weapons@[i])
}

/// The numeric profile of a weapon, for pinning catalog entries down in
/// contracts field by field.
pub open spec fn weapon_profile(
    w: Weapons,
    weapon_range: int,
    attacks: int,
    hit: int,
    strength: int,
    armour_pen: int,
    damage: int,
) -> bool {
    &&& w.weapon_range == weapon_range
    &&& w.attacks == attacks
    &&& w.hit == hit
    &&& w.strength == strength
    &&& w.armour_pen == armour_pen
    &&& w.damage == damage
}

/// How many of the next `n` dice land at or above `threshold`.
pub open spec fn count_successes(d: Dice, n: nat, threshold: int) -> nat
    decreases n,
{
    if n == 0 {
        0
    } else {
        count_successes(d, (n - 1) as nat, threshold) + if d.peek((n - 1) as nat) as int
            >= threshold {
            1nat
        } else {
            0nat
        }
    }
}

/// How many of the next `n` dice land strictly below `threshold` — the
/// failed saves, since a defender saves by rolling high.
pub open spec fn count_failures(d: Dice, n: nat, threshold: int) -> nat
    decreases n,
{
    if n == 0 {
        0
    } else {
        count_failures(d, (n - 1) as nat, threshold) + if (d.peek((n - 1) as nat) as int)
            < threshold {
            1nat
        } else {
            0nat
        }
    }
}

/// The die face a wound roll must reach, from the strength/toughness
/// comparison: 2 when strength doubles toughness, 3 when it merely exceeds
/// it, 4 at parity, 6 when toughness doubles strength, 5 otherwise.
pub open spec fn spec_wound_threshold(strength: int, toughness: int) -> int {
    if strength > toughness {
        if strength >= 2 * toughness {
            2
        } else {
            3
        }
    } else if strength == toughness {
        4
    } else {
        if 2 * strength <= toughness {
            6
        } else {
            5
        }
    }
}

/// The save threshold the defender actually rolls against: the normal save
/// worsened by armour penetration, unless the invulnerable save is better.
pub open spec fn spec_effective_save(save: int, armour_pen: int, invulnerable: int) -> int {
    if save + armour_pen < invulnerable {
        save + armour_pen
    } else {
        invulnerable
    }
}

/// A unit advances by its full movement allowance and never overshoots
/// past the enemy: the new distance is `max(0, distance - allowance)`.
pub open spec fn spec_movement(distance: int, allowance: int) -> int {
    if distance - allowance <= 0 {
        0
    } else {
        distance - allowance
    }
}

/// The live state `(models, wounds)` after `n` damage instances of `dmg`
/// each, against models with `full` wounds apiece. An instance that matches
/// or exceeds the victim's capacity or its remaining wounds destroys it and
/// the next model starts at full; once the count reaches zero, further
/// instances do nothing.
pub open spec fn spec_damage(full: int, models: int, wounds: int, n: nat, dmg: int) -> (int, int)
    decreases n,
{
    if n == 0 {
        (models, wounds)
    } else {
        let prev = spec_damage(full, models, wounds, (n - 1) as nat, dmg);
        if prev.0 <= 0 {
            prev
        } else if dmg >= full || dmg >= prev.1 {
            (prev.0 - 1, full)
        } else {
            (prev.0, prev.1 - dmg)
        }
    }
}

/// One weapon's full activation against live state `(models, wounds)`:
/// returns the new state and how many dice the activation consumed.
pub open spec fn spec_attack(w: Weapons, s: Stats, models: int, wounds: int, d: Dice) -> (
    int,
    int,
    nat,
) {
    let hits = count_successes(d, w.attacks as nat, w.hit as int);
    let threshold = spec_wound_threshold(w.strength as int, s.toughness as int);
    let wound_count = count_successes(d.advanced(w.attacks as nat), hits, threshold);
    let save = spec_effective_save(s.save as int, w.armour_pen as int, s.invulnerable as int);
    let failed = count_failures(d.advanced(w.attacks as nat + hits), wound_count, save);
    let end = spec_damage(s.wounds as int, models, wounds, failed, w.damage as int);
    (end.0, end.1, w.attacks as nat + hits + wound_count)
}

/// The shooting phase: each ranged weapon in loadout order fires if the
/// target is within its range, and the live state threads through.
pub open spec fn spec_shooting(
    ws: Seq<Weapons>,
    s: Stats,
    models: int,
    wounds: int,
    distance: int,
    d: Dice,
) -> (int, int, nat)
    decreases ws.len(),
{
    if ws.len() == 0 {
        (models, wounds, 0)
    } else if distance <= ws[0].weapon_range {
        let a = spec_attack(ws[0], s, models, wounds, d);
        let rest = spec_shooting(ws.skip(1), s, a.0, a.1, distance, d.advanced(a.2));
        (rest.0, rest.1, a.2 + rest.2)
    } else {
        spec_shooting(ws.skip(1), s, models, wounds, distance, d)
    }
}

/// The melee phase: as shooting, but every weapon strikes — once engaged
/// there is no range gate.
pub open spec fn spec_melee(ws: Seq<Weapons>, s: Stats, models: int, wounds: int, d: Dice) -> (
    int,
    int,
    nat,
)
    decreases ws.len(),
{
    if ws.len() == 0 {
        (models, wounds, 0)
    } else {
        let a = spec_attack(ws[0], s, models, wounds, d);
        let rest = spec_melee(ws.skip(1), s, a.0, a.1, d.advanced(a.2));
        (rest.0, rest.1, a.2 + rest.2)
    }
}

/// The charge attempt: `(engaged, charged, dice consumed)`. At distance 0
/// the units are already engaged; within 12 the charger rolls two dice and
/// engages iff their sum reaches the distance; beyond 12 no attempt is made.
pub open spec fn spec_charge(distance: int, d: Dice) -> (bool, bool, nat) {
    if distance <= 0 {
        (true, false, 0)
    } else if distance <= 12 {
        let sum = d.peek(0) + d.peek(1);
        (sum >= distance, sum >= distance, 2)
    } else {
        (false, false, 0)
    }
}

/// The whole battle as a function of the dice stream. Each round: the
/// attacker moves, shoots, attempts a charge, and if the units are engaged
/// both sides fight in melee, attacker first; a side whose model count
/// reaches zero loses on the spot, the victory checks standing between the
/// phases exactly as the combat loop performs them. `fuel` bounds the
/// number of rounds; when it runs out before either side is eliminated the
/// battle is undecided (`None`).
pub open spec fn spec_simulate(
    attacker: Unit,
    defender: Unit,
    distance: int,
    attacker_models: int,
    attacker_wounds: int,
    defender_models: int,
    defender_wounds: int,
    d: Dice,
    fuel: nat,
) -> Option<Winner>
    decreases fuel,
{
    if fuel == 0 {
        None
    } else {
        let dist = spec_movement(distance, attacker.stats.movement as int);
        let sh = spec_shooting(
            attacker.ranged_weapons@,
            defender.stats,
            defender_models,
            defender_wounds,
            dist,
            d,
        );
        let d1 = d.advanced(sh.2);
        if sh.0 <= 0 {
            Some(Winner::Attacker)
        } else {
            let ch = spec_charge(dist, d1);
            let d2 = d1.advanced(ch.2);
            let strike = if ch.0 {
                spec_melee(attacker.melee_weapons@, defender.stats, sh.0, sh.1, d2)
            } else {
                (sh.0, sh.1, 0nat)
            };
            let d3 = d2.advanced(strike.2);
            if strike.0 <= 0 {
                Some(Winner::Attacker)
            } else {
                let counter = if ch.0 {
                    spec_melee(
                        defender.melee_weapons@,
                        attacker.stats,
                        attacker_models,
                        attacker_wounds,
                        d3,
                    )
                } else {
                    (attacker_models, attacker_wounds, 0nat)
                };
                let d4 = d3.advanced(counter.2);
                if counter.0 <= 0 {
                    Some(Winner::Defender)
                } else {
                    spec_simulate(
                        attacker,
                        defender,
                        dist,
                        counter.0,
                        counter.1,
                        strike.0,
                        strike.1,
                        d4,
                        (fuel - 1) as nat,
                    )
                }
            }
        }
    }
}

impl Unit {
    /// Assembles a unit from its parts, copying them unchanged.
    pub fn new(
        name: &str,
        points: i16,
        stats: Stats,
        quantity: i8,
        ranged_weapons: Vec<Weapons>,
        melee_weapons: Vec<Weapons>,
        tags: Vec<String>,
    ) -> (u: Unit)
        ensures
            u.name@ == name@,
            u.points == points,
            u.stats == stats,
            u.quantity == quantity,
            u.ranged_weapons == ranged_weapons,
            u.melee_weapons == melee_weapons,
            u.tags == tags,
    {
        Unit {
            name: name.to_owned(),
            points,
            quantity,
            stats,
            tags,
            ranged_weapons,
            melee_weapons,
        }
    }

    /// Moves this unit its full allowance toward the enemy, stopping at 0.
    pub fn movement(&self, distance: i8) -> (r: i8)
        requires
            stats_wf(self.stats),
            0 <= distance,
        ensures
            r as int == spec_movement(distance as int, self.stats.movement as int),
            0 <= r <= distance,
    {
        let moved = distance - self.stats.movement;
        if moved <= 0 {
            0
        } else {
            moved
        }
    }

    /// True exactly when the given live model count means elimination.
    pub fn check_victory(target_models: i8) -> (r: bool)
        ensures
            r == (target_models <= 0),
    {
        target_models <= 0
    }
}

/// Computes the wound threshold for a strength/toughness pairing.
pub fn wound_threshold(strength: i8, toughness: i8) -> (t: i8)
    requires
        1 <= strength <= 63,
        1 <= toughness <= 63,
    ensures
        t as int == spec_wound_threshold(strength as int, toughness as int),
        2 <= t <= 6,
{
    if strength > toughness {
        if strength >= 2 * toughness {
            2
        } else {
            3
        }
    } else if strength == toughness {
        4
    } else {
        if 2 * strength <= toughness {
            6
        } else {
            5
        }
    }
}

/// Picks the save the defender rolls against: the armour save worsened by
/// penetration, or the invulnerable save when that is better.
pub fn effective_save(save: i8, armour_pen: i8, invulnerable: i8) -> (r: i8)
    requires
        1 <= save <= 63,
        0 <= armour_pen <= 63,
        1 <= invulnerable <= 63,
    ensures
        r as int == spec_effective_save(save as int, armour_pen as int, invulnerable as int),
        1 <= r,
{
    let modified = save + armour_pen;
    if modified < invulnerable {
        modified
    } else {
        invulnerable
    }
}

impl Stats {
    /// Checks the statline invariant at run time.
    pub fn is_valid(&self) -> (r: bool)
        ensures
            r == stats_wf(*self),
    {
        0 <= self.movement && 1 <= self.toughness && self.toughness <= 63 && 1 <= self.save
            && self.save <= 63 && 1 <= self.invulnerable && self.invulnerable <= 63
            && 1 <= self.wounds && 1 <= self.leadership && 1 <= self.objective_control
    }
}

impl Weapons {
    /// Checks the weapon invariant at run time.
    pub fn is_valid(&self) -> (r: bool)
        ensures
            r == weapon_wf(*self),
    {
        0 <= self.weapon_range && 0 <= self.attacks && 0 <= self.hit && 1 <= self.strength
            && self.strength <= 63 && 0 <= self.armour_pen && self.armour_pen <= 63
            && 1 <= self.damage
    }
}

impl Unit {
    /// Checks the unit invariant at run time: statline, model count, and
    /// every weapon of both loadouts.
    pub fn is_valid(&self) -> (r: bool)
        ensures
            r == unit_wf(*self),
    {
        if !self.stats.is_valid() || self.quantity < 1 {
            return false;
        }
        let mut i: usize = 0;
        while i < self.ranged_weapons.len()
            invariant
                i <= self.ranged_weapons@.len(),
                forall|j: int| 0 <= j < i ==> weapon_wf(#[trigger] self.ranged_weapons@[j]),
            decreases self.ranged_weapons@.len() - i,
        {
            if !self.ranged_weapons[i].is_valid() {
                return false;
            }
            i = i + 1;
        }
        let mut k: usize = 0;
        while k < self.melee_weapons.len()
            invariant
                k <= self.melee_weapons@.len(),
                forall|j: int| 0 <= j < k ==> weapon_wf(#[trigger] self.melee_weapons@[j]),
            decreases self.melee_weapons@.len() - k,
        {
            if !self.melee_weapons[k].is_valid() {
                return false;
            }
            k = k + 1;
        }
        true
    }
}

impl Unit {
    /// Rolls one die per attack of `weapon`; a face at or above the hit
    /// threshold is a successful hit. Returns the number of hits, which is
    /// always between 0 and the weapon's attack count.
    pub fn hit(weapon: &Weapons, dice: &mut Dice) -> (r: i8)
        requires
            weapon_wf(*weapon),
            old(dice).wf(),
        ensures
            final(dice).wf(),
            *final(dice) == old(dice).advanced(weapon.attacks as nat),
            r as nat == count_successes(*old(dice), weapon.attacks as nat, weapon.hit as int),
            0 <= r <= weapon.attacks,
    {
        let mut success: i8 = 0;
        let mut i: i8 = 0;
        proof {
            lemma_advanced_zero(*old(dice));
        }
        while i < weapon.attacks
            invariant
                weapon_wf(*weapon),
                old(dice).wf(),
                dice.wf(),
                0 <= i <= weapon.attacks,
                0 <= success <= i,
                *dice == old(dice).advanced(i as nat),
                success as nat == count_successes(*old(dice), i as nat, weapon.hit as int),
            decreases weapon.attacks - i,
        {
            proof {
                lemma_advanced_peek(*old(dice), i as nat, 0);
                lemma_advanced_compose(*old(dice), i as nat, 1);
            }
            let face = dice.roll();
            if face as i8 >= weapon.hit {
                success = success + 1;
            }
            i = i + 1;
        }
        success
    }

    /// Derives the wound threshold from the weapon's strength and the
    /// defender's toughness, then rolls one die per hit; a face at or above
    /// the threshold is a successful wound.
    pub fn wound(weapon: &Weapons, defender: &Unit, hits: i8, dice: &mut Dice) -> (r: i8)
        requires
            weapon_wf(*weapon),
            stats_wf(defender.stats),
            0 <= hits,
            old(dice).wf(),
        ensures
            final(dice).wf(),
            *final(dice) == old(dice).advanced(hits as nat),
            r as nat == count_successes(
                *old(dice),
                hits as nat,
                spec_wound_threshold(weapon.strength as int, defender.stats.toughness as int),
            ),
            0 <= r <= hits,
    {
        let threshold = wound_threshold(weapon.strength, defender.stats.toughness);
        let mut success: i8 = 0;
        let mut i: i8 = 0;
        proof {
            lemma_advanced_zero(*old(dice));
        }
        while i < hits
            invariant
                old(dice).wf(),
                dice.wf(),
                0 <= i <= hits,
                0 <= success <= i,
                threshold as int == spec_wound_threshold(
                    weapon.strength as int,
                    defender.stats.toughness as int,
                ),
                *dice == old(dice).advanced(i as nat),
                success as nat == count_successes(*old(dice), i as nat, threshold as int),
            decreases hits - i,
        {
            proof {
                lemma_advanced_peek(*old(dice), i as nat, 0);
                lemma_advanced_compose(*old(dice), i as nat, 1);
            }
            let face = dice.roll();
            if face as i8 >= threshold {
                success = success + 1;
            }
            i = i + 1;
        }
        success
    }

    /// Rolls one die per wound against the effective save; a face strictly
    /// below the threshold is a failed save and propagates as damage.
    pub fn save(weapon: &Weapons, defender: &Unit, wounds: i8, dice: &mut Dice) -> (r: i8)
        requires
            weapon_wf(*weapon),
            stats_wf(defender.stats),
            0 <= wounds,
            old(dice).wf(),
        ensures
            final(dice).wf(),
            *final(dice) == old(dice).advanced(wounds as nat),
            r as nat == count_failures(
                *old(dice),
                wounds as nat,
                spec_effective_save(
                    defender.stats.save as int,
                    weapon.armour_pen as int,
                    defender.stats.invulnerable as int,
                ),
            ),
            0 <= r <= wounds,
    {
        let threshold = effective_save(
            defender.stats.save,
            weapon.armour_pen,
            defender.stats.invulnerable,
        );
        let mut failed: i8 = 0;
        let mut i: i8 = 0;
        proof {
            lemma_advanced_zero(*old(dice));
        }
        while i < wounds
            invariant
                old(dice).wf(),
                dice.wf(),
                0 <= i <= wounds,
                0 <= failed <= i,
                threshold as int == spec_effective_save(
                    defender.stats.save as int,
                    weapon.armour_pen as int,
                    defender.stats.invulnerable as int,
                ),
                *dice == old(dice).advanced(i as nat),
                failed as nat == count_failures(*old(dice), i as nat, threshold as int),
            decreases wounds - i,
        {
            proof {
                lemma_advanced_peek(*old(dice), i as nat, 0);
                lemma_advanced_compose(*old(dice), i as nat, 1);
            }
            let face = dice.roll();
            if (face as i8) < threshold {
                failed = failed + 1;
            }
            i = i + 1;
        }
        failed
    }

    /// Applies `hits` damage instances of `damage` each to the live state
    /// `(current_models, current_wounds)`. A destroyed model hands the
    /// counter to the next model at full capacity; the model count never
    /// goes below zero, and a surviving active model always keeps between
    /// 1 and full wounds.
    pub fn damage(
        defender: &Unit,
        current_models: i8,
        current_wounds: i8,
        hits: i8,
        damage: i8,
    ) -> (r: (i8, i8))
        requires
            stats_wf(defender.stats),
            0 <= hits,
            1 <= damage,
            0 <= current_models,
            current_models > 0 ==> 1 <= current_wounds <= defender.stats.wounds,
        ensures
            (r.0 as int, r.1 as int) == spec_damage(
                defender.stats.wounds as int,
                current_models as int,
                current_wounds as int,
                hits as nat,
                damage as int,
            ),
            0 <= r.0 <= current_models,
            r.0 > 0 ==> 1 <= r.1 <= defender.stats.wounds,
    {
        let full = defender.stats.wounds;
        let mut models = current_models;
        let mut wounds = current_wounds;
        let mut i: i8 = 0;
        while i < hits
            invariant
                0 <= i <= hits,
                0 <= models <= current_models,
                models > 0 ==> 1 <= wounds <= full,
                1 <= damage,
                full == defender.stats.wounds,
                (models as int, wounds as int) == spec_damage(
                    full as int,
                    current_models as int,
                    current_wounds as int,
                    i as nat,
                    damage as int,
                ),
            decreases hits - i,
        {
            if models > 0 {
                if damage >= full || damage >= wounds {
                    models = models - 1;
                    wounds = full;
                } else {
                    wounds = wounds - damage;
                }
            }
            i = i + 1;
        }
        (models, wounds)
    }

    /// One weapon's full activation: hit, wound, save and damage in order,
    /// all against the same defender live state.
    pub fn attack(
        weapon: &Weapons,
        defender: &Unit,
        target_models: i8,
        target_wounds: i8,
        dice: &mut Dice,
    ) -> (r: (i8, i8))
        requires
            weapon_wf(*weapon),
            stats_wf(defender.stats),
            old(dice).wf(),
            0 <= target_models,
            target_models > 0 ==> 1 <= target_wounds <= defender.stats.wounds,
        ensures
            final(dice).wf(),
            ({
                let a = spec_attack(
                    *weapon,
                    defender.stats,
                    target_models as int,
                    target_wounds as int,
                    *old(dice),
                );
                &&& r.0 as int == a.0
                &&& r.1 as int == a.1
                &&& *final(dice) == old(dice).advanced(a.2)
            }),
            0 <= r.0 <= target_models,
            r.0 > 0 ==> 1 <= r.1 <= defender.stats.wounds,
    {
        let hits = Unit::hit(weapon, dice);
        let wound_count = Unit::wound(weapon, defender, hits, dice);
        proof {
            lemma_advanced_compose(*old(dice), weapon.attacks as nat, hits as nat);
        }
        let failed = Unit::save(weapon, defender, wound_count, dice);
        proof {
            lemma_advanced_compose(
                *old(dice),
                (weapon.attacks + hits) as nat,
                wound_count as nat,
            );
        }
        Unit::damage(defender, target_models, target_wounds, failed, weapon.damage)
    }
}

impl Unit {
    /// The shooting phase: every ranged weapon of `attacker` that has the
    /// target within range fires in loadout order, later weapons seeing the
    /// damage already dealt by earlier ones. Out-of-range weapons
    /// contribute nothing.
    pub fn shooting(
        attacker: &Unit,
        defender: &Unit,
        target_models: i8,
        target_wounds: i8,
        distance: i8,
        dice: &mut Dice,
    ) -> (r: (i8, i8))
        requires
            unit_wf(*attacker),
            stats_wf(defender.stats),
            old(dice).wf(),
            0 <= target_models,
            target_models > 0 ==> 1 <= target_wounds <= defender.stats.wounds,
        ensures
            final(dice).wf(),
            ({
                let s = spec_shooting(
                    attacker.ranged_weapons@,
                    defender.stats,
                    target_models as int,
                    target_wounds as int,
                    distance as int,
                    *old(dice),
                );
                &&& r.0 as int == s.0
                &&& r.1 as int == s.1
                &&& *final(dice) == old(dice).advanced(s.2)
            }),
            0 <= r.0 <= target_models,
            r.0 > 0 ==> 1 <= r.1 <= defender.stats.wounds,
    {
        let ghost s = spec_shooting(
            attacker.ranged_weapons@,
            defender.stats,
            target_models as int,
            target_wounds as int,
            distance as int,
            *old(dice),
        );
        let mut models = target_models;
        let mut wounds = target_wounds;
        let mut i: usize = 0;
        let count = attacker.ranged_weapons.len();
        proof {
            assert(attacker.ranged_weapons@.skip(0) =~= attacker.ranged_weapons@);
        }
        while i < count
            invariant
                unit_wf(*attacker),
                stats_wf(defender.stats),
                count == attacker.ranged_weapons@.len(),
                old(dice).wf(),
                dice.wf(),
                0 <= i <= count,
                0 <= models <= target_models,
                models > 0 ==> 1 <= wounds <= defender.stats.wounds,
                s == spec_shooting(
                    attacker.ranged_weapons@,
                    defender.stats,
                    target_models as int,
                    target_wounds as int,
                    distance as int,
                    *old(dice),
                ),
                ({
                    let rest = spec_shooting(
                        attacker.ranged_weapons@.skip(i as int),
                        defender.stats,
                        models as int,
                        wounds as int,
                        distance as int,
                        *dice,
                    );
                    &&& rest.0 == s.0
                    &&& rest.1 == s.1
                    &&& (*dice).advanced(rest.2) == old(dice).advanced(s.2)
                }),
            decreases count - i,
        {
            let ghost before = *dice;
            let ghost pre_models = models as int;
            let ghost pre_wounds = wounds as int;
            proof {
                let suffix = attacker.ranged_weapons@.skip(i as int);
                assert(suffix[0] == attacker.ranged_weapons@[i as int]);
                assert(suffix.skip(1) =~= attacker.ranged_weapons@.skip(i as int + 1));
            }
            let weapon = &attacker.ranged_weapons[i];
            if distance <= weapon.weapon_range {
                let outcome = Unit::attack(weapon, defender, models, wounds, dice);
                models = outcome.0;
                wounds = outcome.1;
                proof {
                    let a = spec_attack(*weapon, defender.stats, pre_models, pre_wounds, before);
                    let rest = spec_shooting(
                        attacker.ranged_weapons@.skip(i as int + 1),
                        defender.stats,
                        models as int,
                        wounds as int,
                        distance as int,
                        *dice,
                    );
                    lemma_advanced_compose(before, a.2, rest.2);
                }
            }
            i = i + 1;
        }
        proof {
            lemma_advanced_zero(*dice);
        }
        (models, wounds)
    }
}

impl Unit {
    /// The melee phase: every melee weapon of `source` strikes `target` in
    /// loadout order — once engaged there is no range gate — and the live
    /// state threads through exactly as in shooting.
    pub fn melee(
        source: &Unit,
        target: &Unit,
        target_models: i8,
        target_wounds: i8,
        dice: &mut Dice,
    ) -> (r: (i8, i8))
        requires
            unit_wf(*source),
            stats_wf(target.stats),
            old(dice).wf(),
            0 <= target_models,
            target_models > 0 ==> 1 <= target_wounds <= target.stats.wounds,
        ensures
            final(dice).wf(),
            ({
                let s = spec_melee(
                    source.melee_weapons@,
                    target.stats,
                    target_models as int,
                    target_wounds as int,
                    *old(dice),
                );
                &&& r.0 as int == s.0
                &&& r.1 as int == s.1
                &&& *final(dice) == old(dice).advanced(s.2)
            }),
            0 <= r.0 <= target_models,
            r.0 > 0 ==> 1 <= r.1 <= target.stats.wounds,
    {
        let ghost s = spec_melee(
            source.melee_weapons@,
            target.stats,
            target_models as int,
            target_wounds as int,
            *old(dice),
        );
        let mut models = target_models;
        let mut wounds = target_wounds;
        let mut i: usize = 0;
        let count = source.melee_weapons.len();
        proof {
            assert(source.melee_weapons@.skip(0) =~= source.melee_weapons@);
        }
        while i < count
            invariant
                unit_wf(*source),
                stats_wf(target.stats),
                count == source.melee_weapons@.len(),
                old(dice).wf(),
                dice.wf(),
                0 <= i <= count,
                0 <= models <= target_models,
                models > 0 ==> 1 <= wounds <= target.stats.wounds,
                s == spec_melee(
                    source.melee_weapons@,
                    target.stats,
                    target_models as int,
                    target_wounds as int,
                    *old(dice),
                ),
                ({
                    let rest = spec_melee(
                        source.melee_weapons@.skip(i as int),
                        target.stats,
                        models as int,
                        wounds as int,
                        *dice,
                    );
                    &&& rest.0 == s.0
                    &&& rest.1 == s.1
                    &&& (*dice).advanced(rest.2) == old(dice).advanced(s.2)
                }),
            decreases count - i,
        {
            let ghost before = *dice;
            let ghost pre_models = models as int;
            let ghost pre_wounds = wounds as int;
            proof {
                let suffix = source.melee_weapons@.skip(i as int);
                assert(suffix[0] == source.melee_weapons@[i as int]);
                assert(suffix.skip(1) =~= source.melee_weapons@.skip(i as int + 1));
            }
            let weapon = &source.melee_weapons[i];
            let outcome = Unit::attack(weapon, target, models, wounds, dice);
            models = outcome.0;
            wounds = outcome.1;
            proof {
                let a = spec_attack(*weapon, target.stats, pre_models, pre_wounds, before);
                let rest = spec_melee(
                    source.melee_weapons@.skip(i as int + 1),
                    target.stats,
                    models as int,
                    wounds as int,
                    *dice,
                );
                lemma_advanced_compose(before, a.2, rest.2);
            }
            i = i + 1;
        }
        proof {
            lemma_advanced_zero(*dice);
        }
        (models, wounds)
    }

    /// The charge attempt at the current distance: already engaged at 0,
    /// two dice against the distance within 12, no attempt beyond 12.
    /// Returns `(engaged, charged)`.
    pub fn charge(&self, distance: i8, dice: &mut Dice) -> (r: (bool, bool))
        requires
            old(dice).wf(),
        ensures
            final(dice).wf(),
            ({
                let c = spec_charge(distance as int, *old(dice));
                &&& r.0 == c.0
                &&& r.1 == c.1
                &&& *final(dice) == old(dice).advanced(c.2)
            }),
    {
        if distance <= 0 {
            proof {
                lemma_advanced_zero(*old(dice));
            }
            (true, false)
        } else if distance <= 12 {
            let first = dice.roll();
            let second = dice.roll();
            proof {
                lemma_advanced_peek(*old(dice), 1, 0);
                lemma_advanced_compose(*old(dice), 1, 1);
            }
            let made_it = (first + second) as i8 >= distance;
            (made_it, made_it)
        } else {
            proof {
                lemma_advanced_zero(*old(dice));
            }
            (false, false)
        }
    }
}

impl Unit {
    /// Resolves a whole battle, round by round, until one side is
    /// eliminated or `max_rounds` rounds have been fought. Returns the
    /// winning side, or `None` when the cap ran out first — the cap
    /// guarantees termination even when neither loadout can hurt the other.
    pub fn simulate_combat(
        attacker: Unit,
        defender: Unit,
        starting_distance: i8,
        max_rounds: u32,
        dice: &mut Dice,
    ) -> (r: Option<Winner>)
        requires
            unit_wf(attacker),
            unit_wf(defender),
            0 <= starting_distance,
            old(dice).wf(),
        ensures
            final(dice).wf(),
            r == spec_simulate(
                attacker,
                defender,
                starting_distance as int,
                attacker.quantity as int,
                attacker.stats.wounds as int,
                defender.quantity as int,
                defender.stats.wounds as int,
                *old(dice),
                max_rounds as nat,
            ),
    {
        let ghost full = spec_simulate(
            attacker,
            defender,
            starting_distance as int,
            attacker.quantity as int,
            attacker.stats.wounds as int,
            defender.quantity as int,
            defender.stats.wounds as int,
            *old(dice),
            max_rounds as nat,
        );
        let mut distance = starting_distance;
        let mut attacker_models = attacker.quantity;
        let mut attacker_wounds = attacker.stats.wounds;
        let mut defender_models = defender.quantity;
        let mut defender_wounds = defender.stats.wounds;
        let mut rounds_left = max_rounds;
        let mut outcome: Option<Winner> = None;
        while outcome.is_none() && rounds_left > 0
            invariant
                unit_wf(attacker),
                unit_wf(defender),
                old(dice).wf(),
                dice.wf(),
                0 <= distance,
                0 <= attacker_models <= attacker.quantity,
                attacker_models > 0 ==> 1 <= attacker_wounds <= attacker.stats.wounds,
                0 <= defender_models <= defender.quantity,
                defender_models > 0 ==> 1 <= defender_wounds <= defender.stats.wounds,
                outcome is None ==> full == spec_simulate(
                    attacker,
                    defender,
                    distance as int,
                    attacker_models as int,
                    attacker_wounds as int,
                    defender_models as int,
                    defender_wounds as int,
                    *dice,
                    rounds_left as nat,
                ),
                outcome is Some ==> full == outcome,
            decreases rounds_left,
        {
            distance = attacker.movement(distance);
            let shot = Unit::shooting(
                &attacker,
                &defender,
                defender_models,
                defender_wounds,
                distance,
                dice,
            );
            defender_models = shot.0;
            defender_wounds = shot.1;
            if Unit::check_victory(defender_models) {
                outcome = Some(Winner::Attacker);
            } else {
                let charge_result = attacker.charge(distance, dice);
                let engaged = charge_result.0;
                if engaged {
                    let strike = Unit::melee(
                        &attacker,
                        &defender,
                        defender_models,
                        defender_wounds,
                        dice,
                    );
                    defender_models = strike.0;
                    defender_wounds = strike.1;
                } else {
                    proof {
                        lemma_advanced_zero(*dice);
                    }
                }
                if Unit::check_victory(defender_models) {
                    outcome = Some(Winner::Attacker);
                } else {
                    if engaged {
                        let counter = Unit::melee(
                            &defender,
                            &attacker,
                            attacker_models,
                            attacker_wounds,
                            dice,
                        );
                        attacker_models = counter.0;
                        attacker_wounds = counter.1;
                    } else {
                        proof {
                            lemma_advanced_zero(*dice);
                        }
                    }
                    if Unit::check_victory(attacker_models) {
                        outcome = Some(Winner::Defender);
                    }
                }
            }
            rounds_left = rounds_left - 1;
        }
        outcome
    }
}

} // verus!
