//! Integer game state for the paddle demo.
//!
//! All coordinates are virtual units; converting elapsed milliseconds into a
//! travel distance involves floating point and stays with the shell, which
//! hands the computed distance in.

use vstd::prelude::*;

verus! {

/// The virtual court width, roughly 16:9 with the height.
pub const VIRTUAL_WIDTH: u32 = 426;

/// The virtual court height.
pub const VIRTUAL_HEIGHT: u32 = 240;

/// The height of a paddle, in virtual units.
pub const PADDLE_HEIGHT: u32 = 20;

/// Paddle travel speed, in virtual units per second.
pub const PADDLE_SPEED: u32 = 200;

/// Which way a paddle is being steered.
#[derive(Clone, Copy, PartialEq, Eq, Structural, Debug)]
pub enum Direction {
    Up,
    Down,
}

/// The lowest position a paddle's top edge can take.
pub const PADDLE_MAX_Y: u32 = 220;

/// Where a paddle ends up after travelling `distance` from `y` in the given
/// direction: clamped to the top of the court going up, and to
/// [`PADDLE_MAX_Y`] going down.
pub open spec fn paddle_step(y: u32, dir: Option<Direction>, distance: u32) -> int {
    match dir {
        Some(Direction::Up) => if y >= distance {
            y - distance
        } else {
            0
        },
        Some(Direction::Down) => if y + distance <= PADDLE_MAX_Y {
            y + distance
        } else {
            PADDLE_MAX_Y as int
        },
        None => y as int,
    }
}

/// Moves a paddle by `distance` virtual units in the given direction, if
/// any, clamping at the court edges.
pub fn paddle_pos(old_y: u32, dir: Option<Direction>, distance: u32) -> (r: u32)
    requires
        old_y <= PADDLE_MAX_Y,
    ensures
        r == paddle_step(old_y, dir, distance),
        r <= PADDLE_MAX_Y,
{
    match dir {
        Some(Direction::Up) => old_y.saturating_sub(distance),
        Some(Direction::Down) => {
            let moved = if distance <= PADDLE_MAX_Y - old_y {
                old_y + distance
            } else {
                PADDLE_MAX_Y
            };
            moved
        },
        None => old_y,
    }
}

/// Whether a game has begun: play waits at `Start` until the ball is
/// served, and the ball stays frozen outside `Play`.
#[derive(Clone, Copy, PartialEq, Eq, Structural, Debug)]
pub enum State {
    Start,
    Play,
}

/// The phase, score, paddle positions, and steering state of one game.
pub struct Game {
    state: State,
    score: (u16, u16),
    paddle_y: (u32, u32),
    move_: (Option<Direction>, Option<Direction>),
}

impl Game {
    /// The game's current phase.
    pub closed spec fn state_spec(self) -> State {
        self.state
    }

    /// The two players' scores.
    pub closed spec fn score_spec(self) -> (u16, u16) {
        self.score
    }

    /// The two paddles' top edges.
    pub closed spec fn paddle_y_spec(self) -> (u32, u32) {
        self.paddle_y
    }

    /// The two players' current steering.
    pub closed spec fn move_spec(self) -> (Option<Direction>, Option<Direction>) {
        self.move_
    }

    /// Both paddles sit within the court.
    pub open spec fn wf(self) -> bool {
        self.paddle_y_spec().0 <= PADDLE_MAX_Y && self.paddle_y_spec().1 <= PADDLE_MAX_Y
    }

    /// A fresh game: waiting to begin, no score, paddles near the court
    /// edges, nobody steering.
    pub fn new() -> (r: Game)
        ensures
            r.wf(),
            r.state_spec() is Start,
            r.score_spec() == (0u16, 0u16),
            r.paddle_y_spec() == (20u32, 200u32),
            r.move_spec().0 is None && r.move_spec().1 is None,
    {
        Game { state: State::Start, score: (0, 0), paddle_y: (20, 200), move_: (None, None) }
    }

    /// Begins play. Returns true on success, and false if the game was
    /// already in play.
    pub fn start(&mut self) -> (r: bool)
        ensures
            final(self).state_spec() is Play,
            r == (old(self).state_spec() is Start),
            final(self).score_spec() == old(self).score_spec(),
            final(self).paddle_y_spec() == old(self).paddle_y_spec(),
            final(self).move_spec() == old(self).move_spec(),
    {
        let was = self.state;
        self.state = State::Play;
        match was {
            State::Start => true,
            State::Play => false,
        }
    }

    /// The game's current phase.
    pub fn state(&self) -> (r: State)
        ensures
            r == self.state_spec(),
    {
        self.state
    }

    /// The two paddles' top edges.
    pub fn paddle_y(&self) -> (r: (u32, u32))
        ensures
            r == self.paddle_y_spec(),
    {
        self.paddle_y
    }

    /// The current score.
    pub fn score(&self) -> (r: (u16, u16))
        ensures
            r == self.score_spec(),
    {
        self.score
    }

    /// Awards player one a point.
    pub fn player1_score(&mut self)
        requires
            old(self).score_spec().0 < u16::MAX,
        ensures
            final(self).score_spec().0 == old(self).score_spec().0 + 1,
            final(self).score_spec().1 == old(self).score_spec().1,
            final(self).state_spec() == old(self).state_spec(),
            final(self).paddle_y_spec() == old(self).paddle_y_spec(),
            final(self).move_spec() == old(self).move_spec(),
    {
        self.score.0 = self.score.0 + 1;
    }

    /// Awards player two a point.
    pub fn increment_player2_score(&mut self)
        requires
            old(self).score_spec().1 < u16::MAX,
        ensures
            final(self).score_spec().1 == old(self).score_spec().1 + 1,
            final(self).score_spec().0 == old(self).score_spec().0,
            final(self).state_spec() == old(self).state_spec(),
            final(self).paddle_y_spec() == old(self).paddle_y_spec(),
            final(self).move_spec() == old(self).move_spec(),
    {
        self.score.1 = self.score.1 + 1;
    }

    /// Clears the score.
    pub fn reset(&mut self)
        ensures
            final(self).score_spec() == (0u16, 0u16),
            final(self).state_spec() == old(self).state_spec(),
            final(self).paddle_y_spec() == old(self).paddle_y_spec(),
            final(self).move_spec() == old(self).move_spec(),
    {
        self.score = (0, 0);
    }

    /// Steers player one's paddle.
    pub fn player1_move(&mut self, dir: Option<Direction>)
        ensures
            final(self).move_spec() == (dir, old(self).move_spec().1),
            final(self).score_spec() == old(self).score_spec(),
            final(self).state_spec() == old(self).state_spec(),
            final(self).paddle_y_spec() == old(self).paddle_y_spec(),
    {
        self.move_.0 = dir;
    }

    /// Steers player two's paddle.
    pub fn player2_move(&mut self, dir: Option<Direction>)
        ensures
            final(self).move_spec() == (old(self).move_spec().0, dir),
            final(self).score_spec() == old(self).score_spec(),
            final(self).state_spec() == old(self).state_spec(),
            final(self).paddle_y_spec() == old(self).paddle_y_spec(),
    {
        self.move_.1 = dir;
    }

    /// Advances both paddles by the distance travelled since the last tick,
    /// or not at all when no time has been measured yet.
    pub fn tick(&mut self, distance: Option<u32>)
        requires
            old(self).wf(),
        ensures
            final(self).wf(),
            final(self).score_spec() == old(self).score_spec(),
            final(self).state_spec() == old(self).state_spec(),
            final(self).move_spec() == old(self).move_spec(),
            distance is None ==> final(self).paddle_y_spec() == old(self).paddle_y_spec(),
            distance matches Some(d) ==> {
                &&& final(self).paddle_y_spec().0 == paddle_step(
                    old(self).paddle_y_spec().0,
                    old(self).move_spec().0,
                    d,
                )
                &&& final(self).paddle_y_spec().1 == paddle_step(
                    old(self).paddle_y_spec().1,
                    old(self).move_spec().1,
                    d,
                )
            },
    {
        let d = match distance {
            None => {
                return ;
            },
            Some(d) => d,
        };
        self.paddle_y = (
            paddle_pos(self.paddle_y.0, self.move_.0, d),
            paddle_pos(self.paddle_y.1, self.move_.1, d),
        );
    }
}

} // verus!
