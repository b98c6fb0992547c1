//! Player physics: gravity integration, the flap impulse, and the clamp
//! that keeps the player on screen at the top.
use vstd::prelude::*;

verus! {

use crate::{FLAP_VELOCITY_TENTHS, GRAVITY_TENTHS, PLAYER_START_X, PLAYER_START_Y,
    TERMINAL_VELOCITY_TENTHS};

/// The player: a world column `x` that only ever grows, a screen row `y`
/// (larger is lower), and a vertical velocity in tenths of a row per step.
#[derive(Clone, Copy, PartialEq, Eq, Debug)]
pub struct Player {
    pub x: i32,
    pub y: i32,
    pub velocity_tenths: i32,
}

/// Integer part of `v / 10`, truncated toward zero, as Rust's float-to-int
/// cast would truncate the velocity before it is added to the row.
pub open spec fn row_step(v: int) -> int {
    if v >= 0 {
        v / 10
    } else {
        -((-v) / 10)
    }
}

/// Rows below zero are clamped back to the top of the screen.
pub open spec fn clamp_row(y: int) -> int {
    if y < 0 {
        0
    } else {
        y
    }
}

impl Player {
    /// Every reachable player state satisfies this: the row is on or below
    /// the top edge, and the velocity stays inside the flap/terminal band.
    /// Velocity is always an even number of tenths, since every operation
    /// moves it by the even gravity increment or resets it to an even value.
    pub open spec fn wf(self) -> bool {
        &&& 0 <= self.y
        &&& self.velocity_wf()
    }

    /// The velocity band every reachable player keeps: between the flap
    /// impulse and the terminal value, and an even number of tenths.
    pub open spec fn velocity_wf(self) -> bool {
        &&& FLAP_VELOCITY_TENTHS <= self.velocity_tenths <= TERMINAL_VELOCITY_TENTHS
        &&& self.velocity_tenths % 2 == 0
    }

    /// Velocity after gravity acted once: one increment unless the player
    /// already fell at terminal velocity.
    pub open spec fn spec_gravity_velocity(self) -> int {
        if self.velocity_tenths < TERMINAL_VELOCITY_TENTHS {
            self.velocity_tenths + GRAVITY_TENTHS
        } else {
            self.velocity_tenths as int
        }
    }

    /// The player after one simulation step.
    pub open spec fn spec_advanced(self) -> Player {
        Player {
            x: (self.x + 1) as i32,
            y: clamp_row(self.y + row_step(self.spec_gravity_velocity())) as i32,
            velocity_tenths: self.spec_gravity_velocity() as i32,
        }
    }

    /// The player right after a flap impulse.
    pub open spec fn spec_flapped(self) -> Player {
        Player { velocity_tenths: FLAP_VELOCITY_TENTHS, ..self }
    }

    /// A fresh player at the given coordinates, at rest.
    pub fn new(x: i32, y: i32) -> (p: Player)
        ensures
            p == (Player { x, y, velocity_tenths: 0 }),
            y >= 0 ==> p.wf(),
    {
        Player { x, y, velocity_tenths: 0 }
    }

    /// The player a run starts with.
    pub fn start() -> (p: Player)
        ensures
            p == (Player { x: PLAYER_START_X, y: PLAYER_START_Y, velocity_tenths: 0 }),
            p.wf(),
    {
        Player::new(PLAYER_START_X, PLAYER_START_Y)
    }

    /// One simulation step: gravity raises the velocity toward the terminal
    /// value, the truncated velocity moves the row, the row is clamped to
    /// stay at least zero, and the column advances by exactly one.
    pub fn advance(&mut self)
        requires
            old(self).wf(),
            old(self).x < i32::MAX,
            old(self).y <= i32::MAX - 2,
        ensures
            *final(self) == old(self).spec_advanced(),
            final(self).wf(),
            final(self).x == old(self).x + 1,
            final(self).y >= 0,
            final(self).velocity_tenths <= TERMINAL_VELOCITY_TENTHS,
    {
        if self.velocity_tenths < TERMINAL_VELOCITY_TENTHS {
            self.velocity_tenths = self.velocity_tenths + GRAVITY_TENTHS;
        }
        let dy: i32 = if self.velocity_tenths >= 0 {
            self.velocity_tenths / 10
        } else {
            -((-self.velocity_tenths) / 10)
        };
        self.y = self.y + dy;
        self.x = self.x + 1;
        if self.y < 0 {
            self.y = 0;
        }
    }

    /// A flap impulse: the velocity is reset to the fixed upward value and
    /// nothing else changes.
    pub fn flap(&mut self)
        ensures
            *final(self) == old(self).spec_flapped(),
            old(self).wf() ==> final(self).wf(),
    {
        self.velocity_tenths = FLAP_VELOCITY_TENTHS;
    }
}

/// Terminal velocity law: a simulation step never pushes the velocity past
/// the terminal value, and it keeps the player well formed; by induction the
/// velocity stays capped over any number of steps.
pub proof fn lemma_velocity_capped(p: Player)
    requires
        p.wf(),
        p.y <= i32::MAX - 2,
    ensures
        p.spec_advanced().velocity_tenths <= TERMINAL_VELOCITY_TENTHS,
        p.spec_advanced().wf(),
{
}

/// The player after `n` simulation steps with no flap in between.
pub open spec fn spec_advanced_times(p: Player, n: nat) -> Player
    decreases n,
{
    if n == 0 {
        p
    } else {
        spec_advanced_times(p, (n - 1) as nat).spec_advanced()
    }
}

/// Terminal velocity holds for every tick count: however many simulation
/// steps run, the velocity never leaves its band, so it never exceeds the
/// terminal value.
pub proof fn lemma_velocity_capped_forever(p: Player, n: nat)
    requires
        p.velocity_wf(),
    ensures
        spec_advanced_times(p, n).velocity_wf(),
        spec_advanced_times(p, n).velocity_tenths <= TERMINAL_VELOCITY_TENTHS,
    decreases n,
{
    if n > 0 {
        lemma_velocity_capped_forever(p, (n - 1) as nat);
    }
}

/// Flapping moves the player up: from any well-formed state with velocity at
/// least -1.0 rows per step (-10 tenths) and a row below the top edge,
/// flapping and then advancing ends exactly one row higher than the start,
/// strictly above where advancing alone would have ended.
pub proof fn lemma_flap_then_advance(p: Player)
    requires
        p.wf(),
        p.velocity_tenths >= -10,
        1 <= p.y <= i32::MAX - 2,
    ensures
        p.spec_flapped().spec_advanced().y == p.y - 1,
        p.spec_flapped().spec_advanced().y < p.spec_advanced().y,
{
}

} // verus!
