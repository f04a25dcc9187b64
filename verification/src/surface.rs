//! Vocabulary shared with the rendering/input surface.
//!
//! The core never draws by itself: each tick it returns a sequence of
//! [`DrawCommand`]s for the shell to carry out, and it receives at most one
//! logical [`Key`] per tick.  Text is passed as a semantic [`Msg`], so that
//! contracts can speak of exactly which line is printed where; the shell turns
//! each message into its on-screen string.

use vstd::prelude::*;

verus! {

/// Width of the visible screen in cells; also the lead distance at which a
/// fresh obstacle is spawned ahead of the player.
pub const SCREEN_WIDTH: i32 = 80;

/// Height of the visible screen in cells; falling past it loses the game.
pub const SCREEN_HEIGHT: i32 = 50;

/// The colors the core draws with; the shell maps each to its backend value.
#[derive(Clone, Copy, Debug, PartialEq, Eq, Structural)]
pub enum Color {
    Black,
    NavyBlue,
    Red,
    Yellow,
}

/// The three logical key events the core reacts to.  The shell maps physical
/// keys to these; any other key is reported as no event at all.
#[derive(Clone, Copy, Debug, PartialEq, Eq, Structural)]
pub enum Key {
    /// Upward impulse while playing (space bar).
    Flap,
    /// Start or restart a run from the menu or the losing screen.
    Play,
    /// Ask the shell to end the event loop.
    Quit,
}

/// A line of text the core asks the surface to print.  Score-bearing messages
/// carry the number; the shell owns the exact wording.
#[derive(Clone, Copy, Debug, PartialEq, Eq, Structural)]
pub enum Msg {
    /// The menu title line.
    Title,
    /// "press this key to play" instruction.
    PlayHint,
    /// "press this key to quit" instruction.
    QuitHint,
    /// "press this key to flap" instruction shown during play.
    FlapHint,
    /// The running score line shown during play.
    Score { value: i32 },
    /// The headline of the losing screen.
    LostTitle,
    /// The final-score line of the losing screen.
    FinalScore { value: i32 },
}

/// One drawing primitive, mirroring what the surface offers: clear the screen,
/// clear to a background color, set a single cell, or print a message.
#[derive(Clone, Copy, Debug, PartialEq, Eq, Structural)]
pub enum DrawCommand {
    Clear,
    ClearBackground { color: Color },
    SetCell { x: i32, y: i32, fg: Color, bg: Color, glyph: char },
    Print { x: i32, y: i32, msg: Msg },
    PrintCentered { y: i32, msg: Msg },
}

} // verus!
