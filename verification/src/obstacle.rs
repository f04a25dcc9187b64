//! A vertical barrier with a passable gap.
//!
//! Exactly one obstacle is in flight at a time.  Its gap is a centered band:
//! the rows strictly above `gap_center - gap_size / 2` and strictly below
//! `gap_center + gap_size / 2` are solid (the halving truncates).  The gap
//! center of a fresh obstacle is drawn at random from a fixed range; the gap
//! size shrinks linearly with the score but never below two.

use vstd::prelude::*;

use crate::player::Player;
use crate::surface::Color;
use crate::surface::DrawCommand;
use crate::surface::SCREEN_HEIGHT;

verus! {

/// Smallest gap center a fresh obstacle can have (inclusive).
pub const GAP_CENTER_MIN: i32 = 10;

/// Largest gap center a fresh obstacle can have (exclusive).
pub const GAP_CENTER_MAX: i32 = 40;

/// Gap size of an obstacle made at score zero; the gap shrinks from here.
pub const BASE_GAP_SIZE: i32 = 20;

/// The barrier: a column position and the gap cut into it.
#[derive(Clone, Copy, Debug, PartialEq, Eq, Structural)]
pub struct Obstacle {
    /// World-space horizontal position of the barrier column.
    pub x: i32,
    /// Vertical center of the passable gap.
    pub gap_center: i32,
    /// Total vertical span of the passable gap.
    pub gap_size: i32,
}

/// Gap size for a fresh obstacle at the given score: the base size less the
/// score, but never below two.
pub open spec fn spec_gap_size(score: int) -> int {
    if BASE_GAP_SIZE - score >= 2 {
        BASE_GAP_SIZE - score
    } else {
        2
    }
}

impl Obstacle {
    /// Gap center inside the generation range and gap size between its floor
    /// and the base size.
    pub open spec fn wf(self) -> bool {
        &&& GAP_CENTER_MIN <= self.gap_center < GAP_CENTER_MAX
        &&& 2 <= self.gap_size <= BASE_GAP_SIZE
    }

    /// Half the gap size, truncated; the gap reaches this far from its center
    /// in both directions.
    pub open spec fn spec_half_size(self) -> int {
        (self.gap_size as int) / 2
    }

    /// The collision shape: the player collides exactly when it is in the
    /// barrier's column and its vertical position lies strictly outside the
    /// closed band `[gap_center - half, gap_center + half]`.
    pub open spec fn spec_collides(self, p: Player) -> bool {
        &&& p.x == self.x
        &&& (p.y < self.gap_center - self.spec_half_size() || p.y > self.gap_center
            + self.spec_half_size())
    }

    /// The barrier's draw commands, given the player's world position: the
    /// barrier column translated to screen space, one cell per solid row above
    /// and below the gap, top to bottom.
    pub open spec fn spec_draw(self, player_x: i32) -> Seq<DrawCommand> {
        let sx = self.x - player_x;
        let top = self.gap_center - self.spec_half_size();
        let bottom = self.gap_center + self.spec_half_size();
        Seq::new(top as nat, |i: int| (DrawCommand::SetCell {
            x: sx as i32,
            y: i as i32,
            fg: Color::Red,
            bg: Color::Black,
            glyph: '|',
        })) + Seq::new((SCREEN_HEIGHT - bottom) as nat, |i: int| (DrawCommand::SetCell {
            x: sx as i32,
            y: (bottom + i) as i32,
            fg: Color::Red,
            bg: Color::Black,
            glyph: '|',
        }))
    }

    /// An obstacle built from an explicitly given gap center: the verified
    /// half of construction, shared by [`Obstacle::new`] and by any caller
    /// that injects a deterministic gap center.
    pub fn with_gap(x: i32, score: i32, gap_center: i32) -> (o: Obstacle)
        requires
            0 <= score,
            GAP_CENTER_MIN <= gap_center < GAP_CENTER_MAX,
        ensures
            o.x == x,
            o.gap_center == gap_center,
            o.gap_size == spec_gap_size(score as int),
            o.wf(),
    {
        let gap_size: i32 = if score <= BASE_GAP_SIZE - 2 {
            BASE_GAP_SIZE - score
        } else {
            2
        };
        Obstacle { x, gap_center, gap_size }
    }

    /// A fresh obstacle at the given column: the gap center is drawn at
    /// random from `[GAP_CENTER_MIN, GAP_CENTER_MAX)`, the gap size is
    /// `spec_gap_size(score)`.
    pub fn new(x: i32, score: i32) -> (o: Obstacle)
        requires
            0 <= score,
        ensures
            o.x == x,
            GAP_CENTER_MIN <= o.gap_center < GAP_CENTER_MAX,
            o.gap_size == spec_gap_size(score as int),
            o.wf(),
    {
        let gap_center: i32 = random_in_range(GAP_CENTER_MIN, GAP_CENTER_MAX);
        Obstacle::with_gap(x, score, gap_center)
    }

    /// Does the player collide with this barrier?  True exactly when the
    /// player is in the barrier's column and vertically outside the gap band;
    /// false at every other column.
    pub fn hit_obstacle(&self, player: &Player) -> (r: bool)
        requires
            self.wf(),
        ensures
            r == self.spec_collides(*player),
    {
        let half_size: i32 = self.gap_size / 2;
        let does_x_match: bool = player.x == self.x;
        let player_above_gap: bool = player.y < self.gap_center - half_size;
        let player_below_gap: bool = player.y > self.gap_center + half_size;
        does_x_match && (player_above_gap || player_below_gap)
    }

    /// Append the barrier's draw commands to the surface's command list.
    pub fn render(&self, out: &mut Vec<DrawCommand>, player_x: i32)
        requires
            self.wf(),
            self.x - player_x <= i32::MAX,
            i32::MIN <= self.x - player_x,
        ensures
            final(out)@ == old(out)@ + self.spec_draw(player_x),
    {
        let ghost out0: Seq<DrawCommand> = out@;
        let screen_x: i32 = self.x - player_x;
        let half_size: i32 = self.gap_size / 2;
        let top: i32 = self.gap_center - half_size;
        let bottom: i32 = self.gap_center + half_size;
        let mut y: i32 = 0;
        while y < top
            invariant
                0 <= y <= top,
                self.wf(),
                top == self.gap_center - self.spec_half_size(),
                screen_x == self.x - player_x,
                out@.len() == out0.len() + y,
                forall|j: int| 0 <= j < out0.len() ==> #[trigger] out@[j] == out0[j],
                forall|j: int|
                    out0.len() <= j < out@.len() ==> #[trigger] out@[j] == (DrawCommand::SetCell {
                        x: screen_x,
                        y: (j - out0.len()) as i32,
                        fg: Color::Red,
                        bg: Color::Black,
                        glyph: '|',
                    }),
            decreases top - y,
        {
            out.push(DrawCommand::SetCell {
                x: screen_x,
                y,
                fg: Color::Red,
                bg: Color::Black,
                glyph: '|',
            });
            y = y + 1;
        }
        let mut z: i32 = bottom;
        while z < SCREEN_HEIGHT
            invariant
                bottom <= z <= SCREEN_HEIGHT,
                self.wf(),
                top == self.gap_center - self.spec_half_size(),
                bottom == self.gap_center + self.spec_half_size(),
                screen_x == self.x - player_x,
                out@.len() == out0.len() + top + (z - bottom),
                forall|j: int| 0 <= j < out0.len() ==> #[trigger] out@[j] == out0[j],
                forall|j: int|
                    out0.len() <= j < out0.len() + top ==> #[trigger] out@[j]
                        == (DrawCommand::SetCell {
                        x: screen_x,
                        y: (j - out0.len()) as i32,
                        fg: Color::Red,
                        bg: Color::Black,
                        glyph: '|',
                    }),
                forall|j: int|
                    out0.len() + top <= j < out@.len() ==> #[trigger] out@[j]
                        == (DrawCommand::SetCell {
                        x: screen_x,
                        y: (bottom + (j - out0.len() - top)) as i32,
                        fg: Color::Red,
                        bg: Color::Black,
                        glyph: '|',
                    }),
            decreases SCREEN_HEIGHT - z,
        {
            out.push(DrawCommand::SetCell {
                x: screen_x,
                y: z,
                fg: Color::Red,
                bg: Color::Black,
                glyph: '|',
            });
            z = z + 1;
        }
        proof {
            assert(out@.len() == out0.len() + self.spec_draw(player_x).len());
            assert(out@ =~= out0 + self.spec_draw(player_x));
        }
    }
}

/// Relies on bracket_lib's `RandomNumberGenerator::range(min, max)`: a freshly
/// seeded generator returns a value drawn from the half-open range
/// `[min, max)`.
#[verifier::external_body]
fn random_in_range(min: i32, max: i32) -> (r: i32)
    requires
        min < max,
    ensures
        min <= r < max,
{
    let mut random = bracket_lib::prelude::RandomNumberGenerator::new();
    random.range(min, max)
}

/// The gap of a fresh obstacle never shrinks below two cells, however large
/// the score grows.
pub proof fn lemma_gap_size_never_below_two(score: int)
    ensures
        spec_gap_size(score) >= 2,
{
}

/// A player in any column other than the barrier's never collides with it,
/// whatever its vertical position.
pub proof fn lemma_no_collision_off_column(o: Obstacle, p: Player)
    requires
        p.x != o.x,
    ensures
        !o.spec_collides(p),
{
}

} // verus!
