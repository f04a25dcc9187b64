//! The per-tick state machine: menu, play, losing screen.
//!
//! The shell calls [`State::tick`] once per render frame with the elapsed
//! wall-clock milliseconds and at most one key; the tick mutates the state,
//! returns the draw commands for the frame and says whether the player asked
//! to quit.  Physics runs on a fixed cadence decoupled from the render rate:
//! a step fires only when the accumulated frame time passes a threshold, and
//! the accumulator then resets, while a flap is allowed on every tick.

use vstd::prelude::*;

use crate::obstacle::GAP_CENTER_MAX;
use crate::obstacle::GAP_CENTER_MIN;
use crate::obstacle::Obstacle;
use crate::obstacle::spec_gap_size;
use crate::player::Player;
use crate::surface::Color;
use crate::surface::DrawCommand;
use crate::surface::Key;
use crate::surface::Msg;
use crate::surface::SCREEN_HEIGHT;
use crate::surface::SCREEN_WIDTH;

verus! {

/// A physics step fires once the accumulated frame time exceeds this many
/// milliseconds.
pub const FRAME_DURATION_MS: u64 = 75;

/// Horizontal start position of a fresh player.
pub const PLAYER_START_X: i32 = 5;

/// Vertical start position of a fresh player.
pub const PLAYER_START_Y: i32 = 25;

/// The discrete top-level mode: which behavior runs each tick.
#[derive(Clone, Copy, Debug, PartialEq, Eq, Structural)]
pub enum GameMode {
    Menu,
    Playing,
    Ended,
}

/// The whole game state: one player, one obstacle, the score, the physics
/// accumulator and the mode.
#[derive(Clone, Copy, Debug, PartialEq, Eq, Structural)]
pub struct State {
    pub player: Player,
    /// Milliseconds accumulated toward the next physics step.
    pub frame_time: u64,
    pub obstacle: Obstacle,
    pub mode: GameMode,
    /// Obstacles passed in the current run.
    pub score: i32,
}

/// What every tick output carries: the frame's draw commands, in order, and
/// whether the player asked the shell to end the loop.
pub struct TickOutput {
    pub commands: Vec<DrawCommand>,
    pub quit: bool,
}

/// A state as a fresh run leaves it: player at the start position with zero
/// velocity, score and accumulator zero, and a well-formed obstacle one
/// screen width ahead with the full base gap.  Mode is not constrained here:
/// a fresh `State` starts in the menu, a restart goes straight to playing.
pub open spec fn spec_fresh_run(s: State) -> bool {
    &&& s.player == (Player { x: PLAYER_START_X, y: PLAYER_START_Y, velocity_halves: 0 })
    &&& s.frame_time == 0
    &&& s.score == 0
    &&& s.obstacle.x == SCREEN_WIDTH
    &&& s.obstacle.gap_size == spec_gap_size(0)
    &&& s.obstacle.wf()
}

/// Does a physics step fire this tick?  Exactly when the accumulated frame
/// time, with this tick's delta added, exceeds the threshold.
pub open spec fn spec_physics_fires(frame_time: u64, delta_ms: u32) -> bool {
    frame_time + delta_ms > FRAME_DURATION_MS
}

/// The accumulator after the tick: reset to zero when a step fired, otherwise
/// grown by the delta.
pub open spec fn spec_frame_time_after(frame_time: u64, delta_ms: u32) -> int {
    if spec_physics_fires(frame_time, delta_ms) {
        0
    } else {
        frame_time + delta_ms
    }
}

/// The player after the tick's physics and input: one step if the cadence
/// fired, then a flap if the flap key came in this tick.
pub open spec fn spec_player_after(p: Player, frame_time: u64, delta_ms: u32, key: Option<
    Key,
>) -> Player {
    let stepped = if spec_physics_fires(frame_time, delta_ms) {
        p.spec_step()
    } else {
        p
    };
    if key == Some(Key::Flap) {
        stepped.spec_flap()
    } else {
        stepped
    }
}

/// Has the player passed the obstacle?  Exactly when the player's column is
/// strictly beyond the obstacle's.
pub open spec fn spec_passes(p: Player, o: Obstacle) -> bool {
    p.x > o.x
}

/// The loss condition: the player fell past the bottom of the screen, or the
/// obstacle reports a collision.
pub open spec fn spec_lost_now(p: Player, o: Obstacle) -> bool {
    p.y > SCREEN_HEIGHT || o.spec_collides(p)
}

/// The menu's draw commands: clear, then the title and the two instruction
/// lines.
pub open spec fn spec_menu_commands() -> Seq<DrawCommand> {
    seq![
        DrawCommand::Clear,
        (DrawCommand::PrintCentered { y: 5, msg: Msg::Title }),
        (DrawCommand::PrintCentered { y: 8, msg: Msg::PlayHint }),
        (DrawCommand::PrintCentered { y: 9, msg: Msg::QuitHint }),
    ]
}

/// The losing screen's draw commands: clear, the loss headline, the final
/// score, and the same two instruction lines as the menu.
pub open spec fn spec_lost_commands(score: i32) -> Seq<DrawCommand> {
    seq![
        DrawCommand::Clear,
        (DrawCommand::PrintCentered { y: 5, msg: Msg::LostTitle }),
        (DrawCommand::PrintCentered { y: 6, msg: Msg::FinalScore { value: score } }),
        (DrawCommand::PrintCentered { y: 8, msg: Msg::PlayHint }),
        (DrawCommand::PrintCentered { y: 9, msg: Msg::QuitHint }),
    ]
}

/// A playing tick's draw commands: the background clear, then the obstacle's
/// cells against the moved player's column, the player's cell, and the two
/// text lines with the score as it stands after the tick.
pub open spec fn spec_play_commands(o: Obstacle, p: Player, score: i32) -> Seq<DrawCommand> {
    seq![(DrawCommand::ClearBackground { color: Color::NavyBlue })] + o.spec_draw(p.x) + seq![
        p.spec_draw(),
        (DrawCommand::Print { x: 0, y: 0, msg: Msg::FlapHint }),
        (DrawCommand::Print { x: 0, y: 1, msg: Msg::Score { value: score } }),
    ]
}

/// How a menu-like tick (menu or losing screen) changes the state: the play
/// key starts a fresh playing run, any other input leaves the state alone,
/// and the quit flag is raised exactly on the quit key.
pub open spec fn spec_menu_transition(pre: State, key: Option<Key>, post: State, quit: bool) -> bool {
    &&& (match key {
        Some(Key::Play) => spec_fresh_run(post) && post.mode == GameMode::Playing,
        _ => post == pre,
    })
    &&& quit == (key == Some(Key::Quit))
}

/// How a playing tick changes the state.  The player moves by the fixed
/// cadence and the flap key; the accumulator follows the cadence.  If the
/// moved player has passed the obstacle, the score grows by one and a fresh
/// obstacle stands one screen width ahead of the player with the shrunken
/// gap; otherwise score and obstacle stay.  The mode becomes `Ended` exactly
/// when the loss condition holds of the moved player and the surviving
/// obstacle.
pub open spec fn spec_play_transition(pre: State, delta_ms: u32, key: Option<Key>, post: State) -> bool {
    let p2 = spec_player_after(pre.player, pre.frame_time, delta_ms, key);
    &&& post.player == p2
    &&& post.frame_time == spec_frame_time_after(pre.frame_time, delta_ms)
    &&& (if spec_passes(p2, pre.obstacle) {
        &&& post.score == pre.score + 1
        &&& post.obstacle.x == p2.x + SCREEN_WIDTH
        &&& post.obstacle.gap_size == spec_gap_size(pre.score + 1)
        &&& GAP_CENTER_MIN <= post.obstacle.gap_center < GAP_CENTER_MAX
    } else {
        &&& post.score == pre.score
        &&& post.obstacle == pre.obstacle
    })
    &&& post.mode == (if spec_lost_now(p2, post.obstacle) {
        GameMode::Ended
    } else {
        GameMode::Playing
    })
}

impl State {
    /// The game-wide invariant: player and obstacle well formed, the player
    /// not yet beyond the obstacle, score and positions non-negative, the
    /// accumulator at or below the threshold, and — while playing — the
    /// player still on screen.
    pub open spec fn wf(self) -> bool {
        &&& self.player.wf()
        &&& self.obstacle.wf()
        &&& 0 <= self.player.x <= self.obstacle.x
        &&& 0 <= self.score
        &&& self.frame_time <= FRAME_DURATION_MS
        &&& (self.mode == GameMode::Playing ==> self.player.y <= SCREEN_HEIGHT)
    }

    /// A fresh game: a fresh run's board, shown as the menu.
    pub fn new() -> (s: State)
        ensures
            s.wf(),
            spec_fresh_run(s),
            s.mode == GameMode::Menu,
    {
        State {
            player: Player::new(PLAYER_START_X, PLAYER_START_Y),
            frame_time: 0,
            obstacle: Obstacle::new(SCREEN_WIDTH, 0),
            mode: GameMode::Menu,
            score: 0,
        }
    }

    /// Begin a fresh run: player back at the start, score and accumulator
    /// zero, a fresh obstacle one screen width ahead, mode `Playing`.  The
    /// fresh obstacle's gap has exactly the base size, since the score is
    /// back at zero.
    pub fn restart(&mut self)
        ensures
            final(self).wf(),
            spec_fresh_run(*final(self)),
            final(self).mode == GameMode::Playing,
    {
        self.player = Player::new(PLAYER_START_X, PLAYER_START_Y);
        self.score = 0;
        self.obstacle = Obstacle::new(SCREEN_WIDTH, 0);
        self.frame_time = 0;
        self.mode = GameMode::Playing;
    }

    /// One menu tick: draw the menu, then start a run on the play key or
    /// raise the quit flag on the quit key.
    pub fn main_menu(&mut self, key: Option<Key>) -> (out: TickOutput)
        requires
            old(self).wf(),
        ensures
            final(self).wf(),
            spec_menu_transition(*old(self), key, *final(self), out.quit),
            out.commands@ == spec_menu_commands(),
    {
        let mut commands: Vec<DrawCommand> = Vec::new();
        commands.push(DrawCommand::Clear);
        commands.push(DrawCommand::PrintCentered { y: 5, msg: Msg::Title });
        commands.push(DrawCommand::PrintCentered { y: 8, msg: Msg::PlayHint });
        commands.push(DrawCommand::PrintCentered { y: 9, msg: Msg::QuitHint });
        let mut quit: bool = false;
        match key {
            Some(Key::Play) => self.restart(),
            Some(Key::Quit) => quit = true,
            _ => {},
        }
        proof {
            assert(commands@ =~= spec_menu_commands());
        }
        TickOutput { commands, quit }
    }

    /// One losing-screen tick: draw the loss message with the final score,
    /// then the same restart/quit handling as the menu.
    pub fn lost(&mut self, key: Option<Key>) -> (out: TickOutput)
        requires
            old(self).wf(),
        ensures
            final(self).wf(),
            spec_menu_transition(*old(self), key, *final(self), out.quit),
            out.commands@ == spec_lost_commands(old(self).score),
    {
        let mut commands: Vec<DrawCommand> = Vec::new();
        commands.push(DrawCommand::Clear);
        commands.push(DrawCommand::PrintCentered { y: 5, msg: Msg::LostTitle });
        commands.push(DrawCommand::PrintCentered { y: 6, msg: Msg::FinalScore { value: self.score } });
        commands.push(DrawCommand::PrintCentered { y: 8, msg: Msg::PlayHint });
        commands.push(DrawCommand::PrintCentered { y: 9, msg: Msg::QuitHint });
        let mut quit: bool = false;
        match key {
            Some(Key::Play) => self.restart(),
            Some(Key::Quit) => quit = true,
            _ => {},
        }
        proof {
            assert(commands@ =~= spec_lost_commands(old(self).score));
        }
        TickOutput { commands, quit }
    }

    /// One playing tick: accumulate the delta and fire at most one physics
    /// step, flap on the flap key, draw obstacle then player, score a pass
    /// and spawn the next obstacle, and fall to `Ended` on the loss
    /// condition.
    pub fn play(&mut self, delta_ms: u32, key: Option<Key>) -> (out: TickOutput)
        requires
            old(self).wf(),
            old(self).mode == GameMode::Playing,
            old(self).obstacle.x <= i32::MAX - SCREEN_WIDTH - 1,
            old(self).score < i32::MAX,
        ensures
            final(self).wf(),
            spec_play_transition(*old(self), delta_ms, key, *final(self)),
            out.commands@ == spec_play_commands(
                old(self).obstacle,
                spec_player_after(old(self).player, old(self).frame_time, delta_ms, key),
                final(self).score,
            ),
            out.quit == false,
    {
        let mut commands: Vec<DrawCommand> = Vec::new();
        commands.push(DrawCommand::ClearBackground { color: Color::NavyBlue });
        self.frame_time = self.frame_time + (delta_ms as u64);
        if self.frame_time > FRAME_DURATION_MS {
            self.frame_time = 0;
            self.player.gravity_and_move();
        }
        match key {
            Some(Key::Flap) => self.player.flap(),
            _ => {},
        }
        self.obstacle.render(&mut commands, self.player.x);
        self.player.render(&mut commands);
        if self.player.x > self.obstacle.x {
            self.score = self.score + 1;
            self.obstacle = Obstacle::new(self.player.x + SCREEN_WIDTH, self.score);
        }
        commands.push(DrawCommand::Print { x: 0, y: 0, msg: Msg::FlapHint });
        commands.push(DrawCommand::Print { x: 0, y: 1, msg: Msg::Score { value: self.score } });
        if self.player.y > SCREEN_HEIGHT || self.obstacle.hit_obstacle(&self.player) {
            self.mode = GameMode::Ended;
        }
        proof {
            assert(commands@ =~= spec_play_commands(
                old(self).obstacle,
                spec_player_after(old(self).player, old(self).frame_time, delta_ms, key),
                self.score,
            ));
        }
        TickOutput { commands, quit: false }
    }

    /// One tick, dispatched on the current mode: the menu behavior in
    /// `Menu`, the playing behavior in `Playing`, the losing screen in
    /// `Ended`.
    pub fn tick(&mut self, delta_ms: u32, key: Option<Key>) -> (out: TickOutput)
        requires
            old(self).wf(),
            old(self).obstacle.x <= i32::MAX - SCREEN_WIDTH - 1,
            old(self).score < i32::MAX,
        ensures
            final(self).wf(),
            (match old(self).mode {
                GameMode::Menu => spec_menu_transition(*old(self), key, *final(self), out.quit)
                    && out.commands@ == spec_menu_commands(),
                GameMode::Playing => spec_play_transition(*old(self), delta_ms, key, *final(self))
                    && out.commands@ == spec_play_commands(
                    old(self).obstacle,
                    spec_player_after(old(self).player, old(self).frame_time, delta_ms, key),
                    final(self).score,
                ) && out.quit == false,
                GameMode::Ended => spec_menu_transition(*old(self), key, *final(self), out.quit)
                    && out.commands@ == spec_lost_commands(old(self).score),
            }),
    {
        match self.mode {
            GameMode::Menu => self.main_menu(key),
            GameMode::Playing => self.play(delta_ms, key),
            GameMode::Ended => self.lost(key),
        }
    }
}

} // verus!
