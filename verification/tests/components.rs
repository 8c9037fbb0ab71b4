use easel::math::LinearCongruentialGenerator;
use easel::pause::{Button, State};
use easel::pong::{paddle_pos, Direction, Game, State as GameState};
use easel::size::{u32_to_usize, usize_to_u32, SizeU32};
use easel::universe::{Cell, Point, Universe};

#[test]
fn lcg_known_sequence_from_zero() {
    let mut lcg = LinearCongruentialGenerator::new();
    assert_eq!(lcg.next_u32(), 12345);
    assert_eq!(lcg.next_u32(), 12345u32.wrapping_mul(1_103_515_245).wrapping_add(12345));
}

#[test]
fn lcg_from_seed_and_parity() {
    let mut lcg = LinearCongruentialGenerator::from_seed(1);
    let v = lcg.next_u32();
    assert_eq!(v, 1_103_515_245u32.wrapping_add(12345));
    let mut lcg2 = LinearCongruentialGenerator::from_seed(1);
    let mut lcg3 = LinearCongruentialGenerator::from_seed(1);
    assert_eq!(lcg2.next_bool(), v % 2 != 0);
    assert_eq!(lcg3.next_i32(), v as i32);
}

#[test]
fn pause_button_toggles_and_reports() {
    let mut b = Button::new();
    assert!(b.is_paused());
    assert_eq!(b.click(), State::Play);
    assert!(!b.is_paused());
    assert_eq!(b.click(), State::Pause);
    assert!(b.is_paused());
}

#[test]
fn pause_state_text_shows_next_action() {
    // The label shows what the button will do, not what it already did.
    assert_eq!(State::Pause.text(), "\u{23f5}\u{fe0e}");
    assert_eq!(State::Play.text(), "\u{23f8}\u{fe0e}");
    assert_eq!(State::Pause.not(), State::Play);
    assert_eq!(State::Play.not(), State::Pause);
}

#[test]
fn size_conversions_round_trip() {
    assert_eq!(u32_to_usize(7), 7usize);
    assert_eq!(usize_to_u32(7), 7u32);
    let s = SizeU32 { height: 3, width: 4 };
    assert_eq!(u32_to_usize(s.height), 3);
    assert_eq!(u32_to_usize(s.width), 4);
}

#[test]
fn paddle_moves_and_clamps() {
    assert_eq!(paddle_pos(100, None, 50), 100);
    assert_eq!(paddle_pos(100, Some(Direction::Up), 30), 70);
    assert_eq!(paddle_pos(10, Some(Direction::Up), 30), 0);
    assert_eq!(paddle_pos(100, Some(Direction::Down), 30), 130);
    assert_eq!(paddle_pos(210, Some(Direction::Down), 30), 220);
}

#[test]
fn game_begins_once() {
    let mut g = Game::new();
    assert_eq!(g.state(), GameState::Start);
    assert!(g.start());
    assert_eq!(g.state(), GameState::Play);
    // A second serve reports that the game was already in play.
    assert!(!g.start());
    assert_eq!(g.state(), GameState::Play);
}

#[test]
fn game_reports_paddle_positions() {
    let mut g = Game::new();
    assert_eq!(g.paddle_y(), (20, 200));
    g.player1_move(Some(Direction::Down));
    g.tick(Some(30));
    assert_eq!(g.paddle_y(), (50, 200));
}

#[test]
fn game_scoring_and_steering() {
    let mut g = Game::new();
    assert_eq!(g.score(), (0, 0));
    g.player1_score();
    g.increment_player2_score();
    g.increment_player2_score();
    assert_eq!(g.score(), (1, 2));
    g.reset();
    assert_eq!(g.score(), (0, 0));
    g.player1_move(Some(Direction::Down));
    g.player2_move(Some(Direction::Up));
    g.tick(Some(10));
    g.tick(None);
    g.player1_move(None);
    g.tick(Some(10));
}

#[test]
fn universe_blinker_oscillates() {
    let mut u = Universe::new();
    u.resize(SizeU32 { height: 5, width: 5 });
    // A horizontal blinker in the middle row.
    u.set(2, 1, Cell::Live);
    u.set(2, 2, Cell::Live);
    u.set(2, 3, Cell::Live);
    u.tick();
    // It flips to a vertical blinker.
    assert_eq!(u.at(Point { i: 1, j: 2 }), Cell::Live);
    assert_eq!(u.at(Point { i: 2, j: 2 }), Cell::Live);
    assert_eq!(u.at(Point { i: 3, j: 2 }), Cell::Live);
    assert_eq!(u.at(Point { i: 2, j: 1 }), Cell::Dead);
    assert_eq!(u.at(Point { i: 2, j: 3 }), Cell::Dead);
    u.tick();
    // And back to horizontal.
    assert_eq!(u.at(Point { i: 2, j: 1 }), Cell::Live);
    assert_eq!(u.at(Point { i: 2, j: 2 }), Cell::Live);
    assert_eq!(u.at(Point { i: 2, j: 3 }), Cell::Live);
    assert_eq!(u.at(Point { i: 1, j: 2 }), Cell::Dead);
    assert_eq!(u.at(Point { i: 3, j: 2 }), Cell::Dead);
}

#[test]
fn universe_resize_preserves_surviving_cells() {
    let mut u = Universe::new();
    u.resize(SizeU32 { height: 2, width: 2 });
    u.set(0, 0, Cell::Live);
    u.set(1, 1, Cell::Live);
    u.resize(SizeU32 { height: 3, width: 1 });
    assert_eq!(u.height(), 3);
    assert_eq!(u.width(), 1);
    assert_eq!(u.at(Point { i: 0, j: 0 }), Cell::Live);
    assert_eq!(u.at(Point { i: 1, j: 0 }), Cell::Dead);
    assert_eq!(u.at(Point { i: 2, j: 0 }), Cell::Dead);
}

#[test]
fn universe_speckle_pattern() {
    let mut u = Universe::new();
    u.resize(SizeU32 { height: 2, width: 4 });
    u.speckle();
    for i in 0..2u32 {
        for j in 0..4u32 {
            let k = i * 4 + j;
            let want = if k % 2 == 0 || k % 7 == 0 { Cell::Live } else { Cell::Dead };
            assert_eq!(u.at(Point { i, j }), want, "cell ({i}, {j})");
        }
    }
}
