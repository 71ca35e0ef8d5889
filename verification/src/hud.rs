//! The score and the figures that the display reads.

use vstd::prelude::*;
use crate::collision::Collidable;

verus! {

/// The player's score.
#[derive(Clone, Copy, PartialEq, Eq, Structural, Debug)]
pub struct PlayerScore {
    pub score: u32,
}

impl Default for PlayerScore {
    fn default() -> (s: PlayerScore)
        ensures
            s.score == 0,
    {
        PlayerScore { score: 0 }
    }
}

/// `score` raised by `gain`, stopping at the largest value a score can hold.
pub open spec fn raised(score: u32, gain: int) -> u32 {
    if score + gain > u32::MAX {
        u32::MAX
    } else {
        (score + gain) as u32
    }
}

impl PlayerScore {
    /// Credits `points`, stopping at the largest value a score can hold.
    pub fn award(&mut self, points: u32)
        ensures
            final(self).score == raised(old(self).score, points as int),
    {
        if points > u32::MAX - self.score {
            self.score = u32::MAX;
        } else {
            self.score = self.score + points;
        }
    }
}

/// Health as a share of the maximum, in percent, rounded down.
pub open spec fn health_share(collidable: Collidable) -> int {
    if collidable.hit_points >= collidable.max_hit_points {
        100
    } else {
        (collidable.hit_points * 100) / (collidable.max_hit_points as int)
    }
}

/// The width of the health bar: health as a share of the maximum, in
/// percent, rounded down and never above 100.
pub fn health_percentage(collidable: &Collidable) -> (percent: u32)
    ensures
        percent == health_share(*collidable),
        percent <= 100,
{
    if collidable.hit_points >= collidable.max_hit_points {
        100
    } else {
        let share: u64 = (collidable.hit_points as u64 * 100) / (collidable.max_hit_points as u64);
        assert(share <= 100) by (nonlinear_arith)
            requires
                share == (collidable.hit_points * 100) / (collidable.max_hit_points as int),
                collidable.hit_points < collidable.max_hit_points,
        ;
        share as u32
    }
}

/// The width of the ship's health bar in percent, where there is a ship.
pub fn update_health_bar(ship: Option<&Collidable>) -> (width: Option<u32>)
    ensures
        width == match ship {
            Some(collidable) => Some(health_share(*collidable) as u32),
            None => None,
        },
{
    match ship {
        Some(collidable) => Some(health_percentage(collidable)),
        None => None,
    }
}

} // verus!
