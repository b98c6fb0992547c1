use flappy_dragon::game::{GameMode, InputSignal, State};
use flappy_dragon::obstacle::Obstacle;
use flappy_dragon::player::Player;
use flappy_dragon::render::{Message, RenderCommand};

fn playing_state(player: Player, obstacle: Obstacle) -> State {
    State { player, frame_time_ms: 0, obstacle, mode: GameMode::Playing, score: 0 }
}

#[test]
fn menu_start_begins_fresh_run() {
    let mut st = State::new();
    assert_eq!(st.mode, GameMode::Menu);
    let out = st.handle_frame(0, Some(InputSignal::Start));
    assert_eq!(st.mode, GameMode::Playing);
    assert_eq!(st.score, 0);
    assert_eq!(st.player, Player { x: 5, y: 25, velocity_tenths: 0 });
    assert_eq!(st.frame_time_ms, 0);
    assert_eq!(st.obstacle.x, 80);
    assert_eq!(st.obstacle.size, 20);
    assert!(st.obstacle.gap_y >= 10 && st.obstacle.gap_y < 40);
    assert!(!out.quit);
    assert_eq!(
        out.commands,
        vec![
            RenderCommand::ClearScreen,
            RenderCommand::CenteredText { y: 5, message: Message::Welcome },
            RenderCommand::CenteredText { y: 8, message: Message::PlayGame },
            RenderCommand::CenteredText { y: 9, message: Message::QuitGame },
        ]
    );
}

#[test]
fn passing_obstacle_scores_and_replaces_it() {
    // Gap center at the lowest row keeps a player hugging the top edge
    // safe: the gap spans rows 0..=20.
    let mut st = playing_state(Player::new(5, 25), Obstacle::with_gap(80, 10, 0));
    for _ in 0..75 {
        let out = st.handle_frame(76, Some(InputSignal::Flap));
        assert_eq!(st.mode, GameMode::Playing);
        assert_eq!(st.score, 0);
        assert!(!out.quit);
    }
    assert_eq!(st.player.x, 80);
    st.handle_frame(76, Some(InputSignal::Flap));
    assert_eq!(st.player.x, 81);
    assert_eq!(st.mode, GameMode::Playing);
    assert_eq!(st.score, 1);
    assert_eq!(st.obstacle.x, 161);
    assert_eq!(st.obstacle.size, 19);
    assert!(st.obstacle.gap_y >= 10 && st.obstacle.gap_y < 40);
}

#[test]
fn falling_past_bottom_ends_run() {
    // At terminal velocity on the bottom row, one step lands on row 52.
    let mut st = playing_state(
        Player { x: 5, y: 50, velocity_tenths: 20 },
        Obstacle::with_gap(80, 25, 0),
    );
    let out = st.handle_frame(76, None);
    assert_eq!(st.player.y, 52);
    assert_eq!(st.mode, GameMode::End);
    assert!(!out.quit);
}

#[test]
fn collision_ends_run() {
    // The narrow gap spans rows 34..=36; the player arrives at column 80
    // on row 25, above the gap.
    let mut st = playing_state(Player::new(79, 25), Obstacle::with_gap(80, 35, 18));
    let out = st.handle_frame(76, None);
    assert_eq!(st.player.x, 80);
    assert_eq!(st.mode, GameMode::End);
    assert!(!out.quit);
}

#[test]
fn end_start_restarts_with_score_reset() {
    let mut st = playing_state(
        Player { x: 5, y: 50, velocity_tenths: 20 },
        Obstacle::with_gap(80, 25, 0),
    );
    st.score = 5;
    st.handle_frame(76, None);
    assert_eq!(st.mode, GameMode::End);
    let out = st.handle_frame(0, Some(InputSignal::Start));
    assert_eq!(
        out.commands,
        vec![
            RenderCommand::ClearScreen,
            RenderCommand::CenteredText { y: 5, message: Message::Dead },
            RenderCommand::CenteredText { y: 6, message: Message::PointsEarned { value: 5 } },
            RenderCommand::CenteredText { y: 8, message: Message::PlayAgain },
            RenderCommand::CenteredText { y: 9, message: Message::QuitGame },
        ]
    );
    assert_eq!(st.mode, GameMode::Playing);
    assert_eq!(st.score, 0);
    assert_eq!(st.player, Player { x: 5, y: 25, velocity_tenths: 0 });
    assert_eq!(st.obstacle.x, 80);
    assert_eq!(st.obstacle.size, 20);
    assert!(st.obstacle.gap_y >= 10 && st.obstacle.gap_y < 40);
}

#[test]
fn quit_raises_flag_and_changes_nothing() {
    let mut st = State::new();
    let out = st.handle_frame(0, Some(InputSignal::Quit));
    assert!(out.quit);
    assert_eq!(st.mode, GameMode::Menu);

    let mut ended = playing_state(
        Player { x: 5, y: 50, velocity_tenths: 20 },
        Obstacle::with_gap(80, 25, 0),
    );
    ended.handle_frame(76, None);
    assert_eq!(ended.mode, GameMode::End);
    let out = ended.handle_frame(0, Some(InputSignal::Quit));
    assert!(out.quit);
    assert_eq!(ended.mode, GameMode::End);
}

#[test]
fn menu_ignores_other_signals_and_time() {
    let mut st = State::new();
    let before = st;
    let out = st.handle_frame(10_000, Some(InputSignal::Flap));
    assert!(!out.quit);
    assert_eq!(st, before);
    let out = st.handle_frame(10_000, None);
    assert!(!out.quit);
    assert_eq!(st, before);
}

#[test]
fn frame_timer_gates_simulation_but_not_flap() {
    let mut st = playing_state(Player::new(5, 25), Obstacle::with_gap(80, 25, 0));
    st.handle_frame(40, None);
    assert_eq!(st.player.x, 5);
    assert_eq!(st.frame_time_ms, 40);
    st.handle_frame(40, None);
    assert_eq!(st.player.x, 6);
    assert_eq!(st.frame_time_ms, 0);
    // A flap lands immediately even when no simulation step runs.
    st.handle_frame(10, Some(InputSignal::Flap));
    assert_eq!(st.player.x, 6);
    assert_eq!(st.player.velocity_tenths, -20);
    assert_eq!(st.frame_time_ms, 10);
}

#[test]
fn playing_frame_draws_board_in_order() {
    let mut st = playing_state(Player::new(5, 25), Obstacle::with_gap(80, 25, 0));
    st.score = 3;
    let out = st.handle_frame(0, None);
    assert_eq!(out.commands[0], RenderCommand::ClearScreen);
    assert!(matches!(out.commands[1], RenderCommand::ClearBackground { .. }));
    assert!(matches!(out.commands[2], RenderCommand::Glyph { x: 0, y: 25, .. }));
    assert_eq!(out.commands[3], RenderCommand::Text { x: 0, y: 0, message: Message::FlapHint });
    assert_eq!(
        out.commands[4],
        RenderCommand::Text { x: 0, y: 1, message: Message::Score { value: 3 } }
    );
    // The obstacle stands 75 columns ahead; its bars fill all rows but the
    // gap rows 15..=35: 15 on top, 15 below.
    assert_eq!(out.commands.len(), 5 + 30);
    assert!(matches!(out.commands[5], RenderCommand::Glyph { x: 75, y: 0, .. }));
}
