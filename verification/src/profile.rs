//! A treasury of orbs and what it can pay for.
//!
//! A hero pulled alone ("sniping") costs 5 orbs. A full summoning circle of
//! five heroes costs 5 + 4 + 4 + 4 + 3 = 20 orbs.

use vstd::prelude::*;

verus! {

/// Orbs that one sniped pull costs.
pub const SNIPE_COST: u32 = 5;

/// Orbs that one full circle of five pulls costs.
pub const CIRCLE_COST: u32 = 20;

/// Heroes that one full circle yields.
pub const HEROES_PER_CIRCLE: u32 = 5;

/// Heroes that `orbs` pay for when every circle is pulled in full.
pub open spec fn full_circle_heroes(orbs: nat) -> nat {
    (orbs / 20) * 5
}

/// Heroes that `orbs` pay for when every pull is sniped alone.
pub open spec fn sniped_heroes(orbs: nat) -> nat {
    orbs / 5
}

/// One named treasury as it is kept in the database: the orbs it holds and
/// the two pull potentials computed from them. Each field may be absent in a
/// database that was written by hand.
#[derive(Clone, Copy, Debug, PartialEq, Eq)]
pub struct OrbProfile {
    pub orb_treasury: Option<u32>,
    pub maximum_hero_pull_potential: Option<u32>,
    pub optimal_hero_pull_potential: Option<u32>,
}

impl OrbProfile {
    /// The profile of a treasury of `orbs` orbs, with both potentials filled in.
    pub fn from_treasury(orbs: u32) -> (p: OrbProfile)
        ensures
            p.orb_treasury == Some(orbs),
            p.maximum_hero_pull_potential == Some(full_circle_heroes(orbs as nat) as u32),
            p.optimal_hero_pull_potential == Some(sniped_heroes(orbs as nat) as u32),
    {
        let maximum = orbs / CIRCLE_COST * HEROES_PER_CIRCLE;
        let optimal = (orbs - orbs % SNIPE_COST) / SNIPE_COST;
        assert((orbs - orbs % 5) / 5 == orbs / 5);
        OrbProfile {
            orb_treasury: Some(orbs),
            maximum_hero_pull_potential: Some(maximum),
            optimal_hero_pull_potential: Some(optimal),
        }
    }
}

/// The two potentials spend what the treasury holds and leave less than the
/// price of one more purchase: sniped pulls leave fewer than 5 orbs, full
/// circles leave fewer than 20, and a circle hero costs 4 orbs.
pub proof fn lemma_potentials_spend_the_treasury(orbs: nat)
    ensures
        sniped_heroes(orbs) * 5 <= orbs < sniped_heroes(orbs) * 5 + 5,
        full_circle_heroes(orbs) * 4 <= orbs < full_circle_heroes(orbs) * 4 + 20,
        full_circle_heroes(orbs) % 5 == 0,
{
}

/// More orbs never pay for fewer heroes, in either way of pulling.
pub proof fn lemma_potentials_grow_with_orbs(a: nat, b: nat)
    requires
        a <= b,
    ensures
        sniped_heroes(a) <= sniped_heroes(b),
        full_circle_heroes(a) <= full_circle_heroes(b),
{
    assert(a / 5 <= b / 5) by (nonlinear_arith)
        requires
            a <= b,
    ;
    assert(a / 20 <= b / 20) by (nonlinear_arith)
        requires
            a <= b,
    ;
}

} // verus!
