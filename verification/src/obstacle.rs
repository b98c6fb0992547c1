//! Obstacles: a wall at a fixed world column with a gap whose center is
//! random and whose size shrinks as the score grows, plus the collision test.
use vstd::prelude::*;

verus! {

use crate::player::Player;
use crate::rng::random_in_range;
use crate::{BASE_GAP_SIZE, GAP_ROW_MAX, GAP_ROW_MIN, MIN_GAP_SIZE};

/// An obstacle: world column `x`, row of the gap's center, and the total
/// vertical size of the gap.
#[derive(Clone, Copy, PartialEq, Eq, Debug)]
pub struct Obstacle {
    pub x: i32,
    pub gap_y: i32,
    pub size: i32,
}

/// Total gap size for a given score: the base size minus one row per score
/// point, floored at the minimum size.
pub open spec fn spec_gap_size(score: int) -> int {
    if BASE_GAP_SIZE - score >= MIN_GAP_SIZE {
        BASE_GAP_SIZE - score
    } else {
        MIN_GAP_SIZE as int
    }
}

/// Half of a gap, rounded down; the gap extends this far above and below
/// its center row.
pub open spec fn spec_half(size: int) -> int {
    size / 2
}

impl Obstacle {
    /// Every obstacle the game creates satisfies this: the gap center lies
    /// in the fixed vertical band and the size is between the floor and the
    /// base size.
    pub open spec fn wf(self) -> bool {
        &&& GAP_ROW_MIN <= self.gap_y < GAP_ROW_MAX
        &&& MIN_GAP_SIZE <= self.size <= BASE_GAP_SIZE
    }

    /// The collision predicate: the player hits this obstacle exactly when
    /// the columns match and the player's row lies strictly outside the gap;
    /// a player exactly on the gap's edge survives.
    pub open spec fn spec_hit(self, p: Player) -> bool {
        &&& p.x == self.x
        &&& (p.y < self.gap_y - spec_half(self.size as int)
            || p.y > self.gap_y + spec_half(self.size as int))
    }

    /// An obstacle at column `x` with the given gap center, sized for the
    /// given score. This deterministic constructor carries the whole sizing
    /// rule; the random constructor and tests both go through it.
    pub fn with_gap(x: i32, gap_y: i32, score: i32) -> (o: Obstacle)
        requires
            GAP_ROW_MIN <= gap_y < GAP_ROW_MAX,
            0 <= score,
        ensures
            o == (Obstacle { x, gap_y, size: spec_gap_size(score as int) as i32 }),
            o.size == spec_gap_size(score as int),
            o.wf(),
    {
        let size: i32 = if BASE_GAP_SIZE - score >= MIN_GAP_SIZE {
            BASE_GAP_SIZE - score
        } else {
            MIN_GAP_SIZE
        };
        Obstacle { x, gap_y, size }
    }

    /// A fresh obstacle at column `x`, sized for the given score, with the
    /// gap center drawn at random from the fixed band. Only the band is
    /// known of the center; everything else is exact.
    pub fn new(x: i32, score: i32) -> (o: Obstacle)
        requires
            0 <= score,
        ensures
            o.x == x,
            o.size == spec_gap_size(score as int),
            GAP_ROW_MIN <= o.gap_y < GAP_ROW_MAX,
            o.wf(),
    {
        let gap_y = random_in_range(GAP_ROW_MIN, GAP_ROW_MAX);
        Obstacle::with_gap(x, gap_y, score)
    }

    /// Whether the player hits this obstacle.
    pub fn hit_obstacle(&self, player: &Player) -> (hit: bool)
        requires
            self.wf(),
        ensures
            hit == self.spec_hit(*player),
    {
        let half_size = self.size / 2;
        let does_x_match = player.x == self.x;
        let player_above_gap = player.y < self.gap_y - half_size;
        let player_below_gap = player.y > self.gap_y + half_size;
        does_x_match && (player_above_gap || player_below_gap)
    }
}

/// Gap shrinkage law: as the score grows the gap never widens, and its
/// half-size never falls below one row.
pub proof fn lemma_gap_monotone(score_low: int, score_high: int)
    requires
        0 <= score_low <= score_high,
    ensures
        spec_gap_size(score_high) <= spec_gap_size(score_low),
        spec_half(spec_gap_size(score_high)) <= spec_half(spec_gap_size(score_low)),
        1 <= spec_half(spec_gap_size(score_high)),
{
}

/// For an even score the half-size has a closed form: half the base size
/// minus half the score, floored at one row.
pub proof fn lemma_half_size_formula(score: int)
    requires
        0 <= score,
        score % 2 == 0,
    ensures
        spec_half(spec_gap_size(score)) == if BASE_GAP_SIZE / 2 - score / 2 >= 1 {
            BASE_GAP_SIZE / 2 - score / 2
        } else {
            1int
        },
{
}

} // verus!
