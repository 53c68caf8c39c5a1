//! The dice source: a cyclic stream of six-sided die rolls.
//!
//! Combat consumes dice one at a time. The stream is an explicit value — a
//! table of pre-chosen faces and a cursor that wraps around — so that a
//! battle resolved twice from equal streams provably lands on equal results,
//! and tests can supply a fixed sequence.

use vstd::prelude::*;

verus! {

use vstd::arithmetic::div_mod::lemma_add_mod_noop;
use vstd::arithmetic::div_mod::lemma_add_mod_noop_right;
use vstd::arithmetic::div_mod::lemma_mod_division_less_than_divisor;
use vstd::arithmetic::div_mod::lemma_mod_self_0;
use vstd::arithmetic::div_mod::lemma_small_mod;

broadcast use vstd::std_specs::vec::axiom_spec_len;

/// A deterministic producer of uniform die faces in `[1, 6]`.
///
/// `rolls` is the face table and `next` the cursor; drawing hands out
/// `rolls[next]` and moves the cursor forward, wrapping at the end of the
/// table, so the source never runs dry.
#[derive(Debug)]
pub struct Dice {
    pub rolls: Vec<u8>,
    pub next: usize,
}

impl Dice {
    /// The table is non-empty, every stored face is a die face, and the
    /// cursor is inside the table.
    pub open spec fn wf(self) -> bool {
        &&& self.rolls@.len() > 0
        &&& (self.next as int) < self.rolls@.len()
        &&& forall|i: int| 0 <= i < self.rolls@.len() ==> 1 <= #[trigger] self.rolls@[i] <= 6
    }

    /// The face that the `k`-th draw from now will produce.
    pub open spec fn peek(self, k: nat) -> u8 {
        self.rolls@[(self.next + k) % (self.rolls@.len() as int)]
    }

    /// The source as it stands after `n` draws.
    pub open spec fn advanced(self, n: nat) -> Dice {
        Dice {
            rolls: self.rolls,
            next: ((self.next + n) % (self.rolls@.len() as int)) as usize,
        }
    }

    /// Builds a source from a table of faces, rejecting an empty table and
    /// any entry outside `[1, 6]`.
    pub fn new(rolls: Vec<u8>) -> (r: Option<Dice>)
        ensures
            match r {
                Some(d) => {
                    &&& d.wf()
                    &&& d.rolls == rolls
                    &&& d.next == 0
                },
                None => rolls@.len() == 0 || exists|i: int|
                    0 <= i < rolls@.len() && !(1 <= #[trigger] rolls@[i] <= 6),
            },
    {
        if rolls.len() == 0 {
            return None;
        }
        let mut i: usize = 0;
        while i < rolls.len()
            invariant
                i <= rolls@.len(),
                forall|j: int| 0 <= j < i ==> 1 <= #[trigger] rolls@[j] <= 6,
            decreases rolls@.len() - i,
        {
            let face = rolls[i];
            if face < 1 || face > 6 {
                return None;
            }
            i = i + 1;
        }
        Some(Dice { rolls, next: 0 })
    }

    /// Draws one die face and moves the cursor forward by one.
    pub fn roll(&mut self) -> (r: u8)
        requires
            old(self).wf(),
        ensures
            final(self).wf(),
            1 <= r <= 6,
            r == old(self).peek(0),
            *final(self) == old(self).advanced(1),
    {
        let r = self.rolls[self.next];
        let len = self.rolls.len();
        if self.next == len - 1 {
            self.next = 0;
        } else {
            self.next = self.next + 1;
        }
        proof {
            let m = self.rolls@.len() as nat;
            lemma_small_mod(old(self).next as nat, m);
            if old(self).next + 1 == m {
                lemma_mod_self_0(m as int);
            } else {
                lemma_small_mod((old(self).next + 1) as nat, m);
            }
        }
        r
    }
}

/// Advancing by zero draws leaves a well-formed source unchanged.
pub proof fn lemma_advanced_zero(d: Dice)
    requires
        d.wf(),
    ensures
        d.advanced(0) == d,
{
    lemma_small_mod(d.next as nat, d.rolls@.len() as nat);
}

/// Drawing `a` faces and then `b` faces is drawing `a + b` faces.
pub proof fn lemma_advanced_compose(d: Dice, a: nat, b: nat)
    requires
        d.wf(),
    ensures
        d.advanced(a).advanced(b) == d.advanced(a + b),
{
    let m = d.rolls@.len() as int;
    assert(d.rolls.len() == d.rolls@.len());
    lemma_mod_division_less_than_divisor(d.next + a, m);
    lemma_add_mod_noop_right((d.next + a) % m, b as int, m);
    lemma_add_mod_noop(d.next + a, b as int, m);
}

/// Looking `k` draws past an advance of `a` is looking `a + k` draws ahead.
pub proof fn lemma_advanced_peek(d: Dice, a: nat, k: nat)
    requires
        d.wf(),
    ensures
        d.advanced(a).peek(k) == d.peek(a + k),
{
    let m = d.rolls@.len() as int;
    assert(d.rolls.len() == d.rolls@.len());
    lemma_mod_division_less_than_divisor(d.next + a, m);
    lemma_add_mod_noop_right((d.next + a) % m, k as int, m);
    lemma_add_mod_noop(d.next + a, k as int, m);
}

} // verus!
