//! Engine-wide laws, stated and proved against the specification model.

use vstd::prelude::*;

verus! {

use crate::combat::Unit;
use crate::combat::count_successes;
use crate::combat::spec_simulate;
use crate::dice::Dice;

/// Law: lowering a hit threshold never costs successes. On any one dice
/// stream, the rolls that reach the harder threshold also reach the easier
/// one, so the success count can only grow as the threshold drops.
pub proof fn lemma_hit_threshold_monotone(d: Dice, n: nat, easier: int, harder: int)
    requires
        easier <= harder,
    ensures
        count_successes(d, n, harder) <= count_successes(d, n, easier),
    decreases n,
{
    if n > 0 {
        lemma_hit_threshold_monotone(d, (n - 1) as nat, easier, harder);
    }
}

/// Law: a battle is deterministic. Rerunning the full pipeline with equal
/// units, an equal starting state and an equal dice stream lands on the
/// identical outcome — there is no hidden input.
pub proof fn lemma_simulation_deterministic(
    attacker1: Unit,
    defender1: Unit,
    distance1: int,
    attacker_models1: int,
    attacker_wounds1: int,
    defender_models1: int,
    defender_wounds1: int,
    dice1: Dice,
    fuel1: nat,
    attacker2: Unit,
    defender2: Unit,
    distance2: int,
    attacker_models2: int,
    attacker_wounds2: int,
    defender_models2: int,
    defender_wounds2: int,
    dice2: Dice,
    fuel2: nat,
)
    requires
        attacker1 == attacker2,
        defender1 == defender2,
        distance1 == distance2,
        attacker_models1 == attacker_models2,
        attacker_wounds1 == attacker_wounds2,
        defender_models1 == defender_models2,
        defender_wounds1 == defender_wounds2,
        dice1 == dice2,
        fuel1 == fuel2,
    ensures
        spec_simulate(
            attacker1,
            defender1,
            distance1,
            attacker_models1,
            attacker_wounds1,
            defender_models1,
            defender_wounds1,
            dice1,
            fuel1,
        ) == spec_simulate(
            attacker2,
            defender2,
            distance2,
            attacker_models2,
            attacker_wounds2,
            defender_models2,
            defender_wounds2,
            dice2,
            fuel2,
        ),
{
}

} // verus!
