//! The integer side of a summoning projection.
//!
//! A projection walks through a treasury pull by pull. Its probabilities are
//! floating-point and are kept by the caller; what is counted here is exact:
//! the orbs left, the pulls made, the duplicates and pity breakers that the
//! caller reported, and the block ("tenth") that each pull belongs to.

use vstd::prelude::*;
use crate::profile::{full_circle_heroes, sniped_heroes};

verus! {

/// What a projection works with, taken from a stored profile.
#[derive(Clone, Copy, Debug)]
pub struct ProjectionPlan {
    /// Orbs spent on sniped pulls: the treasury rounded down to a multiple of 5.
    pub snipe_orbs: u32,
    /// Orbs spent on full circles: the treasury rounded down to a multiple of 20.
    pub circle_orbs: u32,
    /// Pulls in each block of the sniped projection: a tenth of the sniped potential.
    pub pulls_per_block: u32,
    /// Whether the sniped potential is large enough (over 10) for the
    /// ten-copies estimate to be reported.
    pub reports_ten_copies: bool,
}

impl ProjectionPlan {
    /// The plan for a treasury of `orbs` orbs whose stored sniped potential is `optimal`.
    pub fn new(orbs: u32, optimal: u32) -> (p: ProjectionPlan)
        ensures
            p.snipe_orbs == orbs - orbs % 5,
            p.circle_orbs == orbs - orbs % 20,
            p.pulls_per_block == optimal / 10,
            p.reports_ten_copies == (optimal > 10),
    {
        ProjectionPlan {
            snipe_orbs: orbs - orbs % 5,
            circle_orbs: orbs - orbs % 20,
            pulls_per_block: optimal / 10,
            reports_ten_copies: optimal > 10,
        }
    }
}

/// The block that pull `index` (counted from 1) falls in, counted from 1,
/// when blocks hold `per_block` pulls each.
pub open spec fn block_of_pull(index: int, per_block: int) -> int {
    1 + (index - 1) / per_block
}

/// The counters of a sniped projection, seen as numbers.
pub struct SnipeTallyView {
    pub start: int,
    pub orbs_left: int,
    pub summoned: int,
    pub duplicates: int,
    pub pity_breakers: int,
    pub tenth: int,
    pub pulls_per_block: int,
    pub row_open: bool,
}

impl SnipeTallyView {
    /// Pulls whose row has been closed.
    pub open spec fn closed_rows(self) -> int {
        if self.row_open {
            self.summoned - 1
        } else {
            self.summoned
        }
    }

    /// What every state of a sniped projection keeps: the orbs spent and left
    /// add up to the start, each pull reports at most one duplicate and one
    /// pity breaker, and the block counter is the block after the last closed row.
    pub open spec fn valid(self) -> bool {
        &&& 0 <= self.start <= u32::MAX
        &&& self.start % 5 == 0
        &&& 0 <= self.orbs_left
        &&& 0 <= self.summoned
        &&& self.orbs_left + 5 * self.summoned == self.start
        &&& 0 <= self.duplicates <= self.summoned
        &&& 0 <= self.pity_breakers <= self.summoned
        &&& 0 <= self.pulls_per_block <= u32::MAX
        &&& (self.row_open ==> self.summoned >= 1)
        &&& (self.pulls_per_block > 0 ==> self.tenth == 1 + self.closed_rows() / self.pulls_per_block)
        &&& (self.pulls_per_block == 0 ==> self.tenth == 1 && self.closed_rows() == 0)
    }
}

/// The counters of a sniped projection (each pull costs 5 orbs).
pub struct SnipeTally {
    start: u32,
    orbs_left: u32,
    summoned: u32,
    duplicates: u32,
    pity_breakers: u32,
    tenth: u32,
    pulls_per_block: u32,
    row_open: bool,
}

/// What one sniped pull reports to the caller.
#[derive(Clone, Copy, Debug)]
pub struct SnipeRow {
    /// Orbs before the pull.
    pub orbs_before: u32,
    /// Orbs after the pull.
    pub orbs_after: u32,
    /// The pull's number, from 1.
    pub index: u32,
    /// The block the pull falls in, from 1.
    pub tenth: u32,
    /// Pity breakers counted so far, this pull's included.
    pub pity_breakers: u32,
    /// Whether the pull lies within the first block.
    pub within_first_block: bool,
    /// Whether the summoning rate rises after this pull (every fifth pull).
    pub rate_rises: bool,
}

impl View for SnipeTally {
    type V = SnipeTallyView;

    closed spec fn view(&self) -> SnipeTallyView {
        SnipeTallyView {
            start: self.start as int,
            orbs_left: self.orbs_left as int,
            summoned: self.summoned as int,
            duplicates: self.duplicates as int,
            pity_breakers: self.pity_breakers as int,
            tenth: self.tenth as int,
            pulls_per_block: self.pulls_per_block as int,
            row_open: self.row_open,
        }
    }
}

proof fn lemma_next_block(closed: int, m: int)
    requires
        closed >= 0,
        m > 0,
    ensures
        (closed + 1) / m == closed / m + (if (closed + 1) % m == 0 { 1int } else { 0int }),
{
    assert((closed + 1) / m == closed / m + (if (closed + 1) % m == 0 { 1int } else { 0int }))
        by (nonlinear_arith)
        requires
            closed >= 0,
            m > 0,
    {
        let q = closed / m;
        let r = closed % m;
        assert(closed == q * m + r && 0 <= r < m);
        if r + 1 == m {
            assert(closed + 1 == (q + 1) * m);
        } else {
            assert(closed + 1 == q * m + (r + 1));
        }
    }
}

impl SnipeTally {
    /// A projection over `orbs` orbs (rounded down to a multiple of 5), with
    /// blocks of `pulls_per_block` pulls.
    pub fn new(orbs: u32, pulls_per_block: u32) -> (t: SnipeTally)
        ensures
            t@.valid(),
            t@.start == orbs - orbs % 5,
            t@.orbs_left == orbs - orbs % 5,
            t@.summoned == 0,
            t@.duplicates == 0,
            t@.pity_breakers == 0,
            t@.tenth == 1,
            t@.pulls_per_block == pulls_per_block,
            !t@.row_open,
    {
        let start = orbs - orbs % 5;
        proof {
            if pulls_per_block > 0 {
                assert(0int / (pulls_per_block as int) == 0);
            }
        }
        SnipeTally {
            start,
            orbs_left: start,
            summoned: 0,
            duplicates: 0,
            pity_breakers: 0,
            tenth: 1,
            pulls_per_block,
            row_open: false,
        }
    }

    /// Orbs not yet spent.
    pub fn orbs_left(&self) -> (r: u32)
        ensures
            r == self@.orbs_left,
    {
        self.orbs_left
    }

    /// Pulls made so far.
    pub fn summoned(&self) -> (r: u32)
        ensures
            r == self@.summoned,
    {
        self.summoned
    }

    /// Duplicates reported so far.
    pub fn duplicates(&self) -> (r: u32)
        ensures
            r == self@.duplicates,
    {
        self.duplicates
    }

    /// Pity breakers reported so far.
    pub fn pity_breakers(&self) -> (r: u32)
        ensures
            r == self@.pity_breakers,
    {
        self.pity_breakers
    }

    /// Whether another sniped pull can be paid for.
    pub fn can_snipe(&self) -> (r: bool)
        ensures
            r == (self@.orbs_left >= 5),
    {
        self.orbs_left >= 5
    }

    /// Makes one sniped pull. `duplicate` and `pity_breaker` are the caller's
    /// verdicts for this pull. The pull's row stays open until `close_row`.
    pub fn advance(&mut self, duplicate: bool, pity_breaker: bool) -> (row: SnipeRow)
        requires
            old(self)@.valid(),
            old(self)@.orbs_left >= 5,
            !old(self)@.row_open,
        ensures
            final(self)@.valid(),
            final(self)@ == (SnipeTallyView {
                orbs_left: old(self)@.orbs_left - 5,
                summoned: old(self)@.summoned + 1,
                duplicates: old(self)@.duplicates + if duplicate { 1int } else { 0int },
                pity_breakers: old(self)@.pity_breakers + if pity_breaker { 1int } else { 0int },
                row_open: true,
                ..old(self)@
            }),
            row.orbs_before == old(self)@.orbs_left,
            row.orbs_after == old(self)@.orbs_left - 5,
            row.index == old(self)@.summoned + 1,
            row.tenth == old(self)@.tenth,
            row.pity_breakers == final(self)@.pity_breakers,
            row.within_first_block == (row.index <= old(self)@.pulls_per_block),
            row.rate_rises == (row.index % 5 == 0),
    {
        self.orbs_left = self.orbs_left - 5;
        self.summoned = self.summoned + 1;
        if duplicate {
            self.duplicates = self.duplicates + 1;
        }
        if pity_breaker {
            self.pity_breakers = self.pity_breakers + 1;
        }
        self.row_open = true;
        let index = self.summoned;
        SnipeRow {
            orbs_before: self.orbs_left + 5,
            orbs_after: self.orbs_left,
            index,
            tenth: self.tenth,
            pity_breakers: self.pity_breakers,
            within_first_block: index <= self.pulls_per_block,
            rate_rises: index % 5 == 0,
        }
    }

    /// Closes the open row: the block counter moves on when the pull just made
    /// ends a block. Blocks must hold at least one pull.
    pub fn close_row(&mut self)
        requires
            old(self)@.valid(),
            old(self)@.row_open,
            old(self)@.pulls_per_block > 0,
        ensures
            final(self)@.valid(),
            final(self)@ == (SnipeTallyView {
                tenth: old(self)@.tenth + if old(self)@.summoned % old(self)@.pulls_per_block == 0 {
                    1int
                } else {
                    0int
                },
                row_open: false,
                ..old(self)@
            }),
            final(self)@.tenth == 1 + old(self)@.summoned / old(self)@.pulls_per_block,
    {
        proof {
            lemma_next_block(self.summoned - 1, self.pulls_per_block as int);
            assert(self.summoned / self.pulls_per_block <= self.summoned) by (nonlinear_arith)
                requires
                    self.pulls_per_block > 0,
            ;
        }
        if self.summoned % self.pulls_per_block == 0 {
            self.tenth = self.tenth + 1;
        }
        self.row_open = false;
    }
}

/// The counters of a full-circle projection, seen as numbers.
pub struct CircleTallyView {
    pub start: int,
    pub orbs_left: int,
    pub circles: int,
    pub duplicates: int,
}

impl CircleTallyView {
    /// What every state of a full-circle projection keeps: the orbs spent and
    /// left add up to the start, and each circle reports at most one duplicate.
    pub open spec fn valid(self) -> bool {
        &&& 0 <= self.start <= u32::MAX
        &&& self.start % 20 == 0
        &&& 0 <= self.orbs_left
        &&& 0 <= self.circles
        &&& self.orbs_left + 20 * self.circles == self.start
        &&& 0 <= self.duplicates <= self.circles
    }

    /// The number of the next pull, from 1: five per circle already made.
    pub open spec fn next_pull(self) -> int {
        1 + 5 * self.circles
    }
}

/// The counters of a full-circle projection (each circle costs 20 orbs and
/// yields five pulls).
pub struct CircleTally {
    start: u32,
    orbs_left: u32,
    circles: u32,
    duplicates: u32,
}

/// What one full circle reports to the caller.
#[derive(Clone, Copy, Debug)]
pub struct CircleRound {
    /// Orbs before the circle.
    pub orbs_before: u32,
    /// The number of the circle's first pull, from 1.
    pub first_pull: u32,
    /// Whether the chance of no copy compounds after this circle (once more
    /// than five pulls have been made).
    pub chance_compounds: bool,
}

impl View for CircleTally {
    type V = CircleTallyView;

    closed spec fn view(&self) -> CircleTallyView {
        CircleTallyView {
            start: self.start as int,
            orbs_left: self.orbs_left as int,
            circles: self.circles as int,
            duplicates: self.duplicates as int,
        }
    }
}

impl CircleTally {
    /// A projection over `orbs` orbs, rounded down to a multiple of 20.
    pub fn new(orbs: u32) -> (t: CircleTally)
        ensures
            t@.valid(),
            t@.start == orbs - orbs % 20,
            t@.orbs_left == orbs - orbs % 20,
            t@.circles == 0,
            t@.duplicates == 0,
    {
        let start = orbs - orbs % 20;
        CircleTally { start, orbs_left: start, circles: 0, duplicates: 0 }
    }

    /// Orbs not yet spent.
    pub fn orbs_left(&self) -> (r: u32)
        ensures
            r == self@.orbs_left,
    {
        self.orbs_left
    }

    /// Duplicates reported so far.
    pub fn duplicates(&self) -> (r: u32)
        ensures
            r == self@.duplicates,
    {
        self.duplicates
    }

    /// Whether orbs are left for another circle.
    pub fn can_circle(&self) -> (r: bool)
        ensures
            r == (self@.orbs_left > 0),
    {
        self.orbs_left > 0
    }

    /// Pulls one full circle. `duplicate` is the caller's verdict, taken
    /// before the circle.
    pub fn advance(&mut self, duplicate: bool) -> (round: CircleRound)
        requires
            old(self)@.valid(),
            old(self)@.orbs_left > 0,
        ensures
            final(self)@.valid(),
            final(self)@ == (CircleTallyView {
                orbs_left: old(self)@.orbs_left - 20,
                circles: old(self)@.circles + 1,
                duplicates: old(self)@.duplicates + if duplicate { 1int } else { 0int },
                ..old(self)@
            }),
            old(self)@.orbs_left >= 20,
            round.orbs_before == old(self)@.orbs_left,
            round.first_pull == old(self)@.next_pull(),
            round.chance_compounds == (final(self)@.next_pull() > 5),
    {
        let first_pull = 1 + 5 * self.circles;
        self.orbs_left = self.orbs_left - 20;
        self.circles = self.circles + 1;
        if duplicate {
            self.duplicates = self.duplicates + 1;
        }
        let next = first_pull + 5;
        CircleRound { orbs_before: self.orbs_left + 20, first_pull, chance_compounds: next > 5 }
    }
}

/// A full-circle projection stops with nothing left over, after as many
/// circles as its orbs pay for.
pub proof fn lemma_circles_use_every_orb(t: CircleTallyView)
    requires
        t.valid(),
        t.orbs_left <= 0,
    ensures
        t.orbs_left == 0,
        t.circles == t.start / 20,
        5 * t.circles == full_circle_heroes(t.start as nat),
{
}

/// Every pull lands in the block that its number calls for: the row of pull
/// `index` carries block `1 + (index - 1) / per_block`.
pub proof fn lemma_rows_carry_their_block(t: SnipeTallyView)
    requires
        t.valid(),
        !t.row_open,
        t.pulls_per_block > 0,
    ensures
        t.tenth == block_of_pull(t.summoned + 1, t.pulls_per_block),
{
}

/// A sniped projection stops with nothing left over, after exactly as many
/// pulls as its orbs pay for.
pub proof fn lemma_snipes_use_every_orb(t: SnipeTallyView)
    requires
        t.valid(),
        t.orbs_left < 5,
    ensures
        t.orbs_left == 0,
        t.summoned == t.start / 5,
        t.summoned == sniped_heroes(t.start as nat),
{
}

/// Projecting a treasury makes as many pulls as its potentials promise: the
/// orbs set aside for sniping pay for exactly the sniped potential, and those
/// set aside for circles for exactly the full-circle potential.
pub proof fn lemma_projections_match_potentials(orbs: nat)
    ensures
        (orbs - orbs % 5) / 5 == sniped_heroes(orbs),
        ((orbs - orbs % 20) / 20) * 5 == full_circle_heroes(orbs),
        (orbs - orbs % 5) % 5 == 0,
        (orbs - orbs % 20) % 20 == 0,
{
}

} // verus!
