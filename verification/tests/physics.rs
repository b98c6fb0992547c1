use flappy_dragon::obstacle::Obstacle;
use flappy_dragon::player::Player;
use flappy_dragon::render::{Color, RenderCommand};

#[test]
fn velocity_never_exceeds_terminal() {
    let mut p = Player::start();
    for _ in 0..200 {
        p.advance();
        assert!(p.velocity_tenths <= 20);
    }
    assert_eq!(p.velocity_tenths, 20);
}

#[test]
fn flap_then_advance_moves_up_one_row() {
    let mut flapped = Player::new(5, 25);
    flapped.flap();
    flapped.advance();
    assert_eq!(flapped.y, 24);

    let mut coasting = Player::new(5, 25);
    coasting.advance();
    assert_eq!(coasting.y, 25);
    assert!(flapped.y < coasting.y);
}

#[test]
fn row_clamped_at_zero() {
    let mut p = Player::new(5, 0);
    p.flap();
    p.advance();
    assert_eq!(p.y, 0);
    assert!(p.y >= 0);
}

#[test]
fn advance_moves_column_by_one() {
    let mut p = Player::start();
    assert_eq!(p.x, 5);
    p.advance();
    assert_eq!(p.x, 6);
    p.advance();
    assert_eq!(p.x, 7);
}

#[test]
fn gravity_ramps_before_row_moves() {
    let mut p = Player::start();
    for expected_velocity in [2, 4, 6, 8] {
        p.advance();
        assert_eq!(p.velocity_tenths, expected_velocity);
        assert_eq!(p.y, 25);
    }
    p.advance();
    assert_eq!(p.velocity_tenths, 10);
    assert_eq!(p.y, 26);
}

#[test]
fn gap_size_shrinks_with_score() {
    let mut previous_half = i32::MAX;
    for score in 0..30 {
        let o = Obstacle::with_gap(0, 20, score);
        let expected = i32::max(2, 20 - score);
        assert_eq!(o.size, expected);
        let half = o.size / 2;
        assert!(half <= previous_half);
        assert!(half >= 1);
        previous_half = half;
    }
}

#[test]
fn gap_size_floored_at_minimum() {
    assert_eq!(Obstacle::with_gap(0, 20, 18).size, 2);
    assert_eq!(Obstacle::with_gap(0, 20, 19).size, 2);
    assert_eq!(Obstacle::with_gap(0, 20, 1000).size, 2);
    assert_eq!(Obstacle::with_gap(0, 20, 0).size, 20);
}

#[test]
fn collision_boundary_is_inclusive_to_survival() {
    // Gap center 25, size 20, so the gap spans rows 15..=35 at column 10.
    let o = Obstacle::with_gap(10, 25, 0);
    assert_eq!(o.size / 2, 10);
    assert!(o.hit_obstacle(&Player::new(10, 14)));
    assert!(!o.hit_obstacle(&Player::new(10, 15)));
    assert!(!o.hit_obstacle(&Player::new(10, 35)));
    assert!(o.hit_obstacle(&Player::new(10, 36)));
    assert!(!o.hit_obstacle(&Player::new(11, 14)));
}

#[test]
fn random_gap_stays_in_band() {
    for _ in 0..50 {
        let o = Obstacle::new(80, 0);
        assert!(o.gap_y >= 10);
        assert!(o.gap_y < 40);
        assert_eq!(o.size, 20);
        assert_eq!(o.x, 80);
    }
}

#[test]
fn player_draws_as_one_glyph() {
    let p = Player::new(5, 17);
    let c = p.render_command();
    assert_eq!(
        c,
        RenderCommand::Glyph { x: 0, y: 17, fg: Color::Yellow, bg: Color::Black, glyph: '@' }
    );
}

#[test]
fn obstacle_draws_bars_around_gap() {
    // Gap rows 15..=35, so bars cover rows 0..15 and 35+1..50 exclusive of
    // the gap: rows 0..=14 and 35..=49 at screen column 10 - 5 = 5.
    let o = Obstacle::with_gap(10, 25, 0);
    let cs = o.render_commands(5);
    assert_eq!(cs.len(), 30);
    assert_eq!(
        cs[0],
        RenderCommand::Glyph { x: 5, y: 0, fg: Color::Red, bg: Color::Black, glyph: '|' }
    );
    assert_eq!(
        cs[14],
        RenderCommand::Glyph { x: 5, y: 14, fg: Color::Red, bg: Color::Black, glyph: '|' }
    );
    assert_eq!(
        cs[15],
        RenderCommand::Glyph { x: 5, y: 35, fg: Color::Red, bg: Color::Black, glyph: '|' }
    );
    assert_eq!(
        cs[29],
        RenderCommand::Glyph { x: 5, y: 49, fg: Color::Red, bg: Color::Black, glyph: '|' }
    );
}
