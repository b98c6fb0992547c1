//! The game's state machine: menu, playing, and end screens, the frame
//! timer that decouples simulation from rendering, scoring, and the
//! transitions into and out of a run.
use vstd::prelude::*;

verus! {

use crate::obstacle::{spec_gap_size, Obstacle};
use crate::player::Player;
use crate::render::{spec_obstacle_commands, spec_player_glyph, Color, Message, RenderCommand};
use crate::{FRAME_DURATION_MS, PLAYER_START_X, PLAYER_START_Y, SCREEN_HEIGHT, SCREEN_WIDTH};

/// Which screen the game is on. Exactly one mode is active at a time.
#[derive(Clone, Copy, PartialEq, Eq, Debug)]
pub enum GameMode {
    Menu,
    Playing,
    End,
}

/// The input signals the game reacts to. At most one arrives per frame;
/// the host maps pressed keys to these.
#[derive(Clone, Copy, PartialEq, Eq, Debug)]
pub enum InputSignal {
    Flap,
    Start,
    Quit,
}

/// What one frame hands back to the host: drawing commands in order, and
/// whether the player asked to leave the game.
pub struct FrameOutput {
    pub commands: Vec<RenderCommand>,
    pub quit: bool,
}

/// The whole game state: the player, the one live obstacle, the score, the
/// milliseconds accumulated toward the next simulation step, and the mode.
#[derive(Clone, Copy, PartialEq, Eq, Debug)]
pub struct State {
    pub player: Player,
    pub frame_time_ms: u64,
    pub obstacle: Obstacle,
    pub mode: GameMode,
    pub score: i32,
}

/// A state as a run begins: the fixed start player, score zero, the frame
/// timer cleared, and an obstacle one screen width ahead with the widest gap.
pub open spec fn spec_fresh_run(st: State) -> bool {
    &&& st.mode == GameMode::Playing
    &&& st.score == 0
    &&& st.frame_time_ms == 0
    &&& st.player == (Player { x: PLAYER_START_X, y: PLAYER_START_Y, velocity_tenths: 0 })
    &&& st.obstacle.x == SCREEN_WIDTH
    &&& st.obstacle.size == spec_gap_size(0)
    &&& st.obstacle.wf()
}

/// What the menu screen draws.
pub open spec fn spec_menu_commands() -> Seq<RenderCommand> {
    seq![
        RenderCommand::ClearScreen,
        RenderCommand::CenteredText { y: 5, message: Message::Welcome },
        RenderCommand::CenteredText { y: 8, message: Message::PlayGame },
        RenderCommand::CenteredText { y: 9, message: Message::QuitGame },
    ]
}

/// What the end screen draws, showing the score the run ended with.
pub open spec fn spec_dead_commands(score: i32) -> Seq<RenderCommand> {
    seq![
        RenderCommand::ClearScreen,
        RenderCommand::CenteredText { y: 5, message: Message::Dead },
        RenderCommand::CenteredText { y: 6, message: Message::PointsEarned { value: score } },
        RenderCommand::CenteredText { y: 8, message: Message::PlayAgain },
        RenderCommand::CenteredText { y: 9, message: Message::QuitGame },
    ]
}

/// What a playing frame draws: the cleared screen, the player and the hint
/// and score texts, then the obstacle. The player and obstacle are drawn as
/// they stand after this frame's physics but before the obstacle may be
/// passed and replaced, and the score text shows the score before this
/// frame, exactly as the frame computes them.
pub open spec fn spec_play_commands(p: Player, o: Obstacle, score: i32) -> Seq<RenderCommand> {
    seq![
        RenderCommand::ClearScreen,
        RenderCommand::ClearBackground { color: Color::Navy },
        spec_player_glyph(p),
        RenderCommand::Text { x: 0, y: 0, message: Message::FlapHint },
        RenderCommand::Text { x: 0, y: 1, message: Message::Score { value: score } },
    ] + spec_obstacle_commands(o, p.x as int)
}

/// The menu and end screens react the same way: "start" begins a fresh run,
/// "quit" raises only the quit flag, anything else changes nothing.
pub open spec fn spec_menu_choice(pre: State, key: Option<InputSignal>, post: State, quit: bool) -> bool {
    &&& (key == Some(InputSignal::Start) ==> spec_fresh_run(post))
    &&& (key != Some(InputSignal::Start) ==> post == pre)
    &&& quit == (key == Some(InputSignal::Quit))
}

impl State {
    /// Every state the game can reach satisfies this. While playing, the
    /// player sits on screen vertically, the obstacle lies no further than
    /// one screen width ahead, and the score never outruns the player's
    /// column (each point needs a passed obstacle, which takes progress).
    pub open spec fn wf(self) -> bool {
        &&& self.player.wf()
        &&& self.obstacle.wf()
        &&& 0 <= self.score
        &&& self.frame_time_ms <= FRAME_DURATION_MS
        &&& self.mode == GameMode::Playing ==> {
            &&& self.player.y <= SCREEN_HEIGHT
            &&& self.score <= self.player.x
            &&& self.player.x <= self.obstacle.x <= self.player.x + SCREEN_WIDTH
        }
    }

    /// Whether this frame's elapsed time pushes the accumulated time past
    /// the threshold, so that exactly one simulation step runs.
    pub open spec fn spec_steps(self, elapsed_ms: u32) -> bool {
        self.frame_time_ms + elapsed_ms > FRAME_DURATION_MS
    }

    /// The player after one playing frame: one simulation step if the
    /// threshold was crossed, then the flap impulse if one was sent. A flap
    /// acts immediately, whether or not a step ran.
    pub open spec fn spec_frame_player(self, elapsed_ms: u32, flap: bool) -> Player {
        let moved = if self.spec_steps(elapsed_ms) {
            self.player.spec_advanced()
        } else {
            self.player
        };
        if flap {
            moved.spec_flapped()
        } else {
            moved
        }
    }

    /// The whole playing-frame transition, short of the one random draw: how
    /// the timer, player, score and obstacle move, when the run ends, and
    /// what is drawn. Of a replacement obstacle's gap center only the band
    /// (through its well-formedness) is promised.
    pub open spec fn spec_play_step(
        pre: State,
        elapsed_ms: u32,
        key: Option<InputSignal>,
        post: State,
        quit: bool,
        cmds: Seq<RenderCommand>,
    ) -> bool {
        let p2 = pre.spec_frame_player(elapsed_ms, key == Some(InputSignal::Flap));
        let passed = p2.x > pre.obstacle.x;
        &&& post.player == p2
        &&& post.frame_time_ms == (if pre.spec_steps(elapsed_ms) {
            0
        } else {
            pre.frame_time_ms + elapsed_ms
        })
        &&& post.score == pre.score + (if passed {
            1int
        } else {
            0int
        })
        &&& (passed ==> {
            &&& post.obstacle.x == p2.x + SCREEN_WIDTH
            &&& post.obstacle.size == spec_gap_size(pre.score + 1)
            &&& post.obstacle.wf()
        })
        &&& (!passed ==> post.obstacle == pre.obstacle)
        &&& post.mode == (if p2.y > SCREEN_HEIGHT || post.obstacle.spec_hit(p2) {
            GameMode::End
        } else {
            GameMode::Playing
        })
        &&& quit == false
        &&& cmds == spec_play_commands(p2, pre.obstacle, pre.score)
    }

    /// The state the game starts in: the menu, over a fresh run's board.
    pub fn new() -> (st: State)
        ensures
            st.mode == GameMode::Menu,
            st.score == 0,
            st.frame_time_ms == 0,
            st.player == (Player { x: PLAYER_START_X, y: PLAYER_START_Y, velocity_tenths: 0 }),
            st.obstacle.x == SCREEN_WIDTH,
            st.obstacle.size == spec_gap_size(0),
            st.wf(),
    {
        State {
            player: Player::start(),
            frame_time_ms: 0,
            obstacle: Obstacle::new(SCREEN_WIDTH, 0),
            mode: GameMode::Menu,
            score: 0,
        }
    }

    /// Begin a fresh run: reset the player, the timer and the score, place
    /// a new obstacle one screen width ahead, and switch to playing.
    pub fn restart(&mut self)
        ensures
            spec_fresh_run(*final(self)),
            final(self).wf(),
    {
        self.player = Player::start();
        self.frame_time_ms = 0;
        self.obstacle = Obstacle::new(SCREEN_WIDTH, 0);
        self.mode = GameMode::Playing;
        self.score = 0;
    }

    /// One frame on the menu screen.
    pub fn main_menu(&mut self, key: Option<InputSignal>) -> (out: FrameOutput)
        requires
            old(self).wf(),
        ensures
            final(self).wf(),
            spec_menu_choice(*old(self), key, *final(self), out.quit),
            out.commands@ == spec_menu_commands(),
    {
        let mut commands: Vec<RenderCommand> = Vec::new();
        commands.push(RenderCommand::ClearScreen);
        commands.push(RenderCommand::CenteredText { y: 5, message: Message::Welcome });
        commands.push(RenderCommand::CenteredText { y: 8, message: Message::PlayGame });
        commands.push(RenderCommand::CenteredText { y: 9, message: Message::QuitGame });
        let mut quit = false;
        match key {
            Some(InputSignal::Start) => self.restart(),
            Some(InputSignal::Quit) => quit = true,
            _ => {},
        }
        proof {
            assert(commands@ =~= spec_menu_commands());
        }
        FrameOutput { commands, quit }
    }

    /// One frame on the end screen; it shows the score the run ended with.
    pub fn dead(&mut self, key: Option<InputSignal>) -> (out: FrameOutput)
        requires
            old(self).wf(),
        ensures
            final(self).wf(),
            spec_menu_choice(*old(self), key, *final(self), out.quit),
            out.commands@ == spec_dead_commands(old(self).score),
    {
        let mut commands: Vec<RenderCommand> = Vec::new();
        commands.push(RenderCommand::ClearScreen);
        commands.push(RenderCommand::CenteredText { y: 5, message: Message::Dead });
        commands.push(
            RenderCommand::CenteredText { y: 6, message: Message::PointsEarned { value: self.score } },
        );
        commands.push(RenderCommand::CenteredText { y: 8, message: Message::PlayAgain });
        commands.push(RenderCommand::CenteredText { y: 9, message: Message::QuitGame });
        let mut quit = false;
        match key {
            Some(InputSignal::Start) => self.restart(),
            Some(InputSignal::Quit) => quit = true,
            _ => {},
        }
        proof {
            assert(commands@ =~= spec_dead_commands(old(self).score));
        }
        FrameOutput { commands, quit }
    }

    /// One playing frame: accumulate elapsed time and run one simulation
    /// step when it crosses the threshold; apply a flap at once; draw the
    /// board; score and replace a passed obstacle; end the run if the player
    /// falls past the bottom boundary or hits the obstacle.
    pub fn play(&mut self, elapsed_ms: u32, key: Option<InputSignal>) -> (out: FrameOutput)
        requires
            old(self).wf(),
            old(self).mode == GameMode::Playing,
            old(self).player.x + SCREEN_WIDTH + 1 <= i32::MAX,
        ensures
            final(self).wf(),
            State::spec_play_step(*old(self), elapsed_ms, key, *final(self), out.quit, out.commands@),
    {
        let mut commands: Vec<RenderCommand> = Vec::new();
        commands.push(RenderCommand::ClearScreen);
        commands.push(RenderCommand::ClearBackground { color: Color::Navy });
        self.frame_time_ms = self.frame_time_ms + (elapsed_ms as u64);
        if self.frame_time_ms > FRAME_DURATION_MS {
            self.frame_time_ms = 0;
            self.player.advance();
        }
        if let Some(InputSignal::Flap) = key {
            self.player.flap();
        }
        commands.push(self.player.render_command());
        commands.push(RenderCommand::Text { x: 0, y: 0, message: Message::FlapHint });
        commands.push(RenderCommand::Text { x: 0, y: 1, message: Message::Score { value: self.score } });
        let mut obstacle_commands = self.obstacle.render_commands(self.player.x);
        commands.append(&mut obstacle_commands);
        if self.player.x > self.obstacle.x {
            self.score = self.score + 1;
            self.obstacle = Obstacle::new(self.player.x + SCREEN_WIDTH, self.score);
        }
        if self.player.y > SCREEN_HEIGHT || self.obstacle.hit_obstacle(&self.player) {
            self.mode = GameMode::End;
        }
        proof {
            assert(commands@ =~= spec_play_commands(
                old(self).spec_frame_player(elapsed_ms, key == Some(InputSignal::Flap)),
                old(self).obstacle,
                old(self).score,
            ));
        }
        FrameOutput { commands, quit: false }
    }

    /// One frame, whatever the mode: the single entry point a host drives
    /// the game through, handing in the elapsed milliseconds since the last
    /// frame and at most one input signal.
    pub fn handle_frame(&mut self, elapsed_ms: u32, key: Option<InputSignal>) -> (out: FrameOutput)
        requires
            old(self).wf(),
            old(self).mode == GameMode::Playing ==> old(self).player.x + SCREEN_WIDTH + 1
                <= i32::MAX,
        ensures
            final(self).wf(),
            old(self).mode == GameMode::Menu ==> spec_menu_choice(
                *old(self),
                key,
                *final(self),
                out.quit,
            ) && out.commands@ == spec_menu_commands(),
            old(self).mode == GameMode::End ==> spec_menu_choice(
                *old(self),
                key,
                *final(self),
                out.quit,
            ) && out.commands@ == spec_dead_commands(old(self).score),
            old(self).mode == GameMode::Playing ==> State::spec_play_step(
                *old(self),
                elapsed_ms,
                key,
                *final(self),
                out.quit,
                out.commands@,
            ),
    {
        match self.mode {
            GameMode::Menu => self.main_menu(key),
            GameMode::Playing => self.play(elapsed_ms, key),
            GameMode::End => self.dead(key),
        }
    }
}

} // verus!
