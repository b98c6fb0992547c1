//! What the game asks its host to draw each frame, as plain data. The host
//! owns the terminal; the simulation only emits these commands, so all of
//! the frame's geometry stays verifiable.
use vstd::prelude::*;

verus! {

use crate::obstacle::{spec_half, Obstacle};
use crate::player::Player;
use crate::SCREEN_HEIGHT;

/// The palette the game draws with; the host maps these to real colors.
#[derive(Clone, Copy, PartialEq, Eq, Debug)]
pub enum Color {
    Yellow,
    Red,
    Navy,
    Black,
}

/// The texts the game shows; the host turns them into strings. The score
/// texts carry the number to show.
#[derive(Clone, Copy, PartialEq, Eq, Debug)]
pub enum Message {
    FlapHint,
    Score { value: i32 },
    Welcome,
    PlayGame,
    QuitGame,
    Dead,
    PointsEarned { value: i32 },
    PlayAgain,
}

/// One drawing command, in the order the host should execute them.
/// Coordinates are screen columns and rows.
#[derive(Clone, Copy, PartialEq, Eq, Debug)]
pub enum RenderCommand {
    ClearScreen,
    ClearBackground { color: Color },
    Glyph { x: i32, y: i32, fg: Color, bg: Color, glyph: char },
    Text { x: i32, y: i32, message: Message },
    CenteredText { y: i32, message: Message },
}

/// The single glyph the player is drawn with, always at screen column zero.
pub open spec fn spec_player_glyph(p: Player) -> RenderCommand {
    RenderCommand::Glyph { x: 0, y: p.y, fg: Color::Yellow, bg: Color::Black, glyph: '@' }
}

/// One bar glyph of an obstacle at the given screen position.
pub open spec fn spec_bar_glyph(screen_x: int, y: int) -> RenderCommand {
    RenderCommand::Glyph {
        x: screen_x as i32,
        y: y as i32,
        fg: Color::Red,
        bg: Color::Black,
        glyph: '|',
    }
}

/// Everything an obstacle draws: a bar from the top of the screen down to
/// the gap, and a bar from below the gap to the bottom of the screen, at the
/// obstacle's column shifted by the player's progress.
pub open spec fn spec_obstacle_commands(o: Obstacle, player_x: int) -> Seq<RenderCommand> {
    let screen_x = o.x - player_x;
    let top_end = o.gap_y - spec_half(o.size as int);
    let bottom_start = o.gap_y + spec_half(o.size as int);
    Seq::new(top_end as nat, |i: int| spec_bar_glyph(screen_x, i)) + Seq::new(
        (SCREEN_HEIGHT - bottom_start) as nat,
        |i: int| spec_bar_glyph(screen_x, bottom_start + i),
    )
}

impl Player {
    /// The command that draws the player.
    pub fn render_command(&self) -> (c: RenderCommand)
        ensures
            c == spec_player_glyph(*self),
    {
        RenderCommand::Glyph { x: 0, y: self.y, fg: Color::Yellow, bg: Color::Black, glyph: '@' }
    }
}

impl Obstacle {
    /// The commands that draw this obstacle, given the player's world
    /// column: bars above and below the gap, nothing in the gap itself.
    pub fn render_commands(&self, player_x: i32) -> (cs: Vec<RenderCommand>)
        requires
            self.wf(),
            i32::MIN <= self.x - player_x <= i32::MAX,
        ensures
            cs@ == spec_obstacle_commands(*self, player_x as int),
    {
        let screen_x = self.x - player_x;
        let half_size = self.size / 2;
        let top_end = self.gap_y - half_size;
        let bottom_start = self.gap_y + half_size;
        let mut cs: Vec<RenderCommand> = Vec::new();
        let mut y: i32 = 0;
        while y < top_end
            invariant
                0 <= y <= top_end,
                top_end == self.gap_y - spec_half(self.size as int),
                top_end < SCREEN_HEIGHT,
                screen_x == self.x - player_x,
                cs@ == Seq::new(y as nat, |i: int| spec_bar_glyph(screen_x as int, i)),
            decreases top_end - y,
        {
            cs.push(
                RenderCommand::Glyph {
                    x: screen_x,
                    y,
                    fg: Color::Red,
                    bg: Color::Black,
                    glyph: '|',
                },
            );
            y = y + 1;
            proof {
                assert(cs@ =~= Seq::new(y as nat, |i: int| spec_bar_glyph(screen_x as int, i)));
            }
        }
        let mut y: i32 = bottom_start;
        while y < SCREEN_HEIGHT
            invariant
                bottom_start <= y <= SCREEN_HEIGHT,
                0 < bottom_start == self.gap_y + spec_half(self.size as int),
                top_end == self.gap_y - spec_half(self.size as int),
                screen_x == self.x - player_x,
                cs@ == Seq::new(top_end as nat, |i: int| spec_bar_glyph(screen_x as int, i))
                    + Seq::new(
                    (y - bottom_start) as nat,
                    |i: int| spec_bar_glyph(screen_x as int, bottom_start + i),
                ),
            decreases SCREEN_HEIGHT - y,
        {
            cs.push(
                RenderCommand::Glyph {
                    x: screen_x,
                    y,
                    fg: Color::Red,
                    bg: Color::Black,
                    glyph: '|',
                },
            );
            y = y + 1;
            proof {
                assert(cs@ =~= Seq::new(top_end as nat, |i: int| spec_bar_glyph(screen_x as int, i))
                    + Seq::new(
                    (y - bottom_start) as nat,
                    |i: int| spec_bar_glyph(screen_x as int, bottom_start + i),
                ));
            }
        }
        proof {
            assert(cs@ =~= spec_obstacle_commands(*self, player_x as int));
        }
        cs
    }
}

} // verus!
