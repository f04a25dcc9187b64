//! The controllable entity: position and vertical velocity.
//!
//! Velocity is kept in half-cells per physics step, as an integer: the gravity
//! increment is one half-cell (0.5), the cap two cells (2.0), and a flap resets
//! velocity to two cells upward (-2.0), so every reachable velocity is a whole
//! number of halves.  When velocity is applied to the vertical position it is
//! converted to whole cells by truncation toward zero: -1.5 moves the player
//! up by one cell, not two.

use vstd::prelude::*;

use crate::surface::Color;
use crate::surface::DrawCommand;

verus! {

/// Gravity adds this many half-cells of downward velocity per physics step.
pub const VELOCITY_INCREMENT_HALVES: i32 = 1;

/// Velocity never exceeds this many half-cells downward.
pub const VELOCITY_CAP_HALVES: i32 = 4;

/// A flap resets velocity to this many half-cells (negative is upward).
pub const FLAP_VELOCITY_HALVES: i32 = -4;

/// The player: world-space position and vertical velocity in half-cells.
#[derive(Clone, Copy, Debug, PartialEq, Eq, Structural)]
pub struct Player {
    /// World-space horizontal position; advances by one per physics step.
    pub x: i32,
    /// World-space vertical position; never negative, larger is lower.
    pub y: i32,
    /// Vertical velocity in half-cells per physics step; negative is upward.
    pub velocity_halves: i32,
}

/// Velocity after one physics step: the increment is added, but never past the
/// cap — the result is the minimum of `v + increment` and the cap.
pub open spec fn spec_velocity_after_step(v: int) -> int {
    if v + VELOCITY_INCREMENT_HALVES <= VELOCITY_CAP_HALVES {
        v + VELOCITY_INCREMENT_HALVES
    } else {
        VELOCITY_CAP_HALVES as int
    }
}

/// Whole-cell vertical offset of a velocity in half-cells: division by two,
/// truncating toward zero (so -3 halves moves one cell up, not two).
pub open spec fn spec_fall_offset(v: int) -> int {
    if v >= 0 {
        v / 2
    } else {
        -((-v) / 2)
    }
}

impl Player {
    /// Velocity within the range a flap and the cap allow, and the player not
    /// above the top of the world.
    pub open spec fn wf(self) -> bool {
        &&& FLAP_VELOCITY_HALVES <= self.velocity_halves <= VELOCITY_CAP_HALVES
        &&& 0 <= self.y
    }

    /// The player after one physics step: velocity is incremented up to the
    /// cap, the vertical position moves by the new velocity's whole-cell part
    /// and is clamped to stay at or below the top, and the horizontal position
    /// advances by one.
    pub open spec fn spec_step(self) -> Player {
        let v2 = spec_velocity_after_step(self.velocity_halves as int);
        let y2 = self.y + spec_fall_offset(v2);
        Player {
            x: (self.x + 1) as i32,
            y: (if y2 < 0 { 0 } else { y2 }) as i32,
            velocity_halves: v2 as i32,
        }
    }

    /// The player after a flap: velocity reset to the flap constant, position
    /// untouched.
    pub open spec fn spec_flap(self) -> Player {
        Player { velocity_halves: FLAP_VELOCITY_HALVES, ..self }
    }

    /// The single cell the player is drawn in: always screen column 0 (the
    /// world scrolls under the player), at the player's vertical position.
    pub open spec fn spec_draw(self) -> DrawCommand {
        DrawCommand::SetCell {
            x: 0,
            y: self.y,
            fg: Color::Yellow,
            bg: Color::Black,
            glyph: '@',
        }
    }

    /// A fresh player at the given position with zero velocity.
    pub fn new(x: i32, y: i32) -> (p: Player)
        ensures
            p.x == x,
            p.y == y,
            p.velocity_halves == 0,
            y >= 0 ==> p.wf(),
    {
        Player { x, y, velocity_halves: 0 }
    }

    /// One physics step: gravity, fall, advance.  The new velocity is the
    /// minimum of the old velocity plus the increment and the cap; the new
    /// vertical position is the old one plus the new velocity's whole-cell
    /// part, clamped to zero from below; the horizontal position grows by one.
    pub fn gravity_and_move(&mut self)
        requires
            old(self).wf(),
            old(self).x < i32::MAX,
            old(self).y <= i32::MAX - 2,
        ensures
            *final(self) == old(self).spec_step(),
            final(self).wf(),
            final(self).x == old(self).x + 1,
    {
        if self.velocity_halves < VELOCITY_CAP_HALVES {
            self.velocity_halves = self.velocity_halves + VELOCITY_INCREMENT_HALVES;
        }
        let offset: i32 = if self.velocity_halves >= 0 {
            self.velocity_halves / 2
        } else {
            -((-self.velocity_halves) / 2)
        };
        self.y = self.y + offset;
        self.x = self.x + 1;
        if self.y < 0 {
            self.y = 0;
        }
    }

    /// A discrete upward impulse: velocity is reset to the flap constant no
    /// matter what it was; the position does not change.
    pub fn flap(&mut self)
        ensures
            *final(self) == old(self).spec_flap(),
            final(self).velocity_halves == FLAP_VELOCITY_HALVES,
    {
        self.velocity_halves = FLAP_VELOCITY_HALVES;
    }

    /// Append the player's draw command to the surface's command list.
    pub fn render(&self, out: &mut Vec<DrawCommand>)
        ensures
            final(out)@ == old(out)@.push(self.spec_draw()),
    {
        out.push(DrawCommand::SetCell {
            x: 0,
            y: self.y,
            fg: Color::Yellow,
            bg: Color::Black,
            glyph: '@',
        });
    }
}

/// Flapping is idempotent: a second flap in the same tick leaves the player
/// exactly as the first one did, whatever the velocity was before.
pub proof fn lemma_flap_idempotent(p: Player)
    ensures
        p.spec_flap().spec_flap() == p.spec_flap(),
{
}

} // verus!
