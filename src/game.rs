//! The court model of one match and the operations of a tick: paddle moves,
//! input handling, local ball physics, power moves, the computer opponents and
//! the application of remote state.
use vstd::prelude::*;
use crate::ai::{
    elapsed, fatigue_cap, lemma_fatigue_monotone, next_fatigue, AiDraws, AiView, ComputerAi,
    MAX_DIFFICULTY,
};
use crate::game_theme::GameTheme;
use crate::court::{
    row_to_court, spec_row_to_court, spec_court_to_row, court_to_row, spec_to_cells, to_cells,
    COURT_HEIGHT, COURT_WIDTH,
};
use crate::network::{BallMsg, GameStatus, NetworkEvent, StateMsg};
use crate::helpers::{padded_name, string_to_char_array, Area, PLAYER_NAME_CHAR_LEN};
use crate::rng::random_in;

verus! {

/// Rows that a paddle covers.
pub const DEFAULT_BAR_LENGTH: u8 = 5;

/// Columns per tick of a ball in play.
pub const DEFAULT_BALL_VELOCITY_X: i8 = 3;

/// Rows per tick of a ball in play.
pub const DEFAULT_BALL_VELOCITY_Y: i8 = 1;

/// Columns that a paddle covers at each side of the court.
pub const DEFAULT_PADDLE_WIDTH: u16 = 3;

/// Power moves that each player starts a match with.
pub const STARTING_POWER_MOVES: u8 = 10;

/// Difficulty (hundredths) when none is given.
pub const DEFAULT_DIFFICULTY: u32 = 100;

/// Columns per tick of a powered ball.
pub const POWER_VELOCITY_X: i8 = 6;

/// Step of a difficulty adjustment (hundredths).
pub const DIFFICULTY_STEP: u32 = 10;

/// One paddle, its owner's name and score, and who drives it.
#[derive(Clone, Copy, Debug)]
pub struct Player {
    pub name: [char; PLAYER_NAME_CHAR_LEN],
    pub score: u32,
    pub power_moves_left: u8,
    /// When a power move was last used (ms); only for visual feedback.
    pub last_power_used_at: Option<u64>,
    /// Top row of the paddle, within the court's inner rows.
    pub bar_position: u16,
    pub bar_length: u8,
    /// Whether the computer drives this paddle; fixed when the match is made.
    pub is_computer: bool,
    pub computer_ai: Option<ComputerAi>,
}

/// The ball, in terminal cells for local physics and in court units for a
/// networked match.
#[derive(Clone, Copy, Debug)]
pub struct Ball {
    pub x: u16,
    pub y: u16,
    pub vx: i8,
    pub vy: i8,
    pub is_powered: bool,
    /// Last authoritative position and velocity from the server.
    pub net_x: i32,
    pub net_y: i32,
    pub net_dx: i32,
    pub net_dy: i32,
    /// Position that is drawn.
    pub render_x: i32,
    pub render_y: i32,
}

#[derive(Clone, Copy, Debug, PartialEq, Eq, Structural)]
pub enum GameType {
    /// Two computer opponents play each other with local physics.
    ScreenSaver,
    /// A remote server owns the physics; this client drives one paddle.
    WithNetwork,
}

/// A key press, as far as the game reads keys.
#[derive(Clone, Copy, Debug, PartialEq, Eq, Structural)]
pub enum Key {
    Up,
    Down,
    Left,
    Right,
    Enter,
    Esc,
    Char(char),
}

/// The whole state of one match. It is also the snapshot that a renderer
/// reads after each tick.
#[derive(Clone, Copy, Debug)]
pub struct Game {
    pub game_type: GameType,
    pub left: Player,
    pub right: Player,
    pub ball: Ball,
    pub game_area: Area,
    pub is_paused: bool,
    /// Set when the ball passed a paddle and is drawn up to the goal line
    /// before the point is scored.
    pub scored_keep_display: bool,
    /// Difficulty in hundredths, `0..=MAX_DIFFICULTY`.
    pub difficulty: u32,
    pub should_exit: bool,
    pub theme: GameTheme,
    /// In a networked match, the paddle (0 or 1) that this client drives.
    pub local_player_index: Option<usize>,
    /// Set when the local player asks to serve; taken by the network side.
    pub pending_serve: bool,
    /// Set when the local player is ready for another match; taken by the
    /// network side.
    pub pending_ready: bool,
    /// Whether any ball state has come from the server yet.
    pub has_ball_data: bool,
    /// Whether the server has ended the match.
    pub is_game_over: bool,
    /// Whether the connection to the broker is up.
    pub connected: bool,
    /// The court position of the local paddle that was last published.
    pub last_published_y: Option<i32>,
}

pub open spec fn sat_sub(a: int, b: int) -> int {
    if a >= b {
        a - b
    } else {
        0
    }
}

impl Player {
    /// The paddle has its fixed length, and the computer drives it exactly
    /// when it has a controller, which is within its bounds.
    pub open spec fn wf(self) -> bool {
        &&& self.bar_length == DEFAULT_BAR_LENGTH
        &&& self.is_computer == (self.computer_ai is Some)
        &&& (self.computer_ai matches Some(ai) ==> ai.wf())
    }

    /// The paddle lies within `inner_height` rows.
    pub open spec fn in_bounds(self, inner_height: int) -> bool {
        self.bar_position + self.bar_length <= inner_height
    }
}

impl Player {
    /// `self` is as a new match at `difficulty` in `area` makes each player:
    /// no score, all power moves, the paddle at the starting row, and driven
    /// by the computer exactly in a screensaver match.
    pub open spec fn fresh(self, area: Area, game_type: GameType, difficulty: int) -> bool {
        &&& self.score == 0
        &&& self.power_moves_left == STARTING_POWER_MOVES
        &&& self.last_power_used_at is None
        &&& self.bar_length == DEFAULT_BAR_LENGTH
        &&& self.bar_position == Game::start_row(area)
        &&& self.is_computer == (game_type == GameType::ScreenSaver)
        &&& self.computer_ai == (if game_type == GameType::ScreenSaver {
            Some(ComputerAi::spec_new(difficulty))
        } else {
            None
        })
    }
}

impl Ball {
    pub open spec fn wf(self) -> bool {
        self.vx != i8::MIN && self.vy != i8::MIN
    }
}

impl Game {
    /// Columns inside the court's frame, less the paddle gutter.
    pub open spec fn inner_width(self) -> int {
        sat_sub(self.game_area.width as int, 3)
    }

    /// Rows inside the court's frame.
    pub open spec fn inner_height(self) -> int {
        sat_sub(self.game_area.height as int, 2)
    }

    pub open spec fn player(self, index: int) -> Player {
        if index == 0 {
            self.left
        } else {
            self.right
        }
    }

    /// `self` with player `index` replaced.
    pub open spec fn with_player(self, index: int, p: Player) -> Game {
        if index == 0 {
            Game { left: p, ..self }
        } else {
            Game { right: p, ..self }
        }
    }

    /// Both paddles lie within the court's inner rows.
    pub open spec fn paddles_in_bounds(self) -> bool {
        self.left.in_bounds(self.inner_height()) && self.right.in_bounds(self.inner_height())
    }

    pub open spec fn wf(self) -> bool {
        &&& self.left.wf()
        &&& self.right.wf()
        &&& self.ball.wf()
        &&& self.difficulty <= MAX_DIFFICULTY
        &&& (self.local_player_index matches Some(i) ==> i < 2)
    }

    /// Where a new match puts each paddle: centred, and inside the court.
    pub open spec fn start_row(area: Area) -> int {
        vstd::math::min(
            sat_sub((area.height / 2) as int, (DEFAULT_BAR_LENGTH / 2) as int),
            sat_sub(sat_sub(area.height as int, 2), DEFAULT_BAR_LENGTH as int),
        )
    }

    /// A new match between `player_names`, in `game_area`, at `difficulty`
    /// hundredths (clamped to `0..=MAX_DIFFICULTY`; `DEFAULT_DIFFICULTY` if
    /// none). In a screensaver match the computer drives both paddles.
    pub fn new(player_names: [&str; 2], game_area: Area, game_type: GameType, difficulty: Option<
        u32,
    >) -> (r: Game)
        ensures
            r.wf(),
            r.difficulty == (match difficulty {
                Some(d) => vstd::math::min(d as int, MAX_DIFFICULTY as int),
                None => DEFAULT_DIFFICULTY as int,
            }),
            r.game_type == game_type,
            r.game_area == game_area,
            r.left.name@ == padded_name(player_names[0]@),
            r.right.name@ == padded_name(player_names[1]@),
            r.left.fresh(game_area, game_type, r.difficulty as int),
            r.right.fresh(game_area, game_type, r.difficulty as int),
            r.ball.x == sat_sub(game_area.width as int, 4) / 2,
            r.ball.y == sat_sub(game_area.height as int, 4) / 2,
            r.ball.vx == DEFAULT_BALL_VELOCITY_X,
            r.ball.vy == DEFAULT_BALL_VELOCITY_Y,
            !r.ball.is_powered,
            !r.is_paused,
            !r.scored_keep_display,
            !r.should_exit,
            !r.is_game_over,
            !r.pending_serve,
            !r.pending_ready,
            !r.has_ball_data,
            !r.connected,
            r.last_published_y is None,
            r.ball.render_x == COURT_WIDTH / 2 && r.ball.render_y == COURT_HEIGHT / 2,
            r.local_player_index is None,
            r.theme == GameTheme::Monokai,
            game_area.height >= 2 + DEFAULT_BAR_LENGTH ==> r.paddles_in_bounds(),
    {
        let final_difficulty = match difficulty {
            Some(d) => if d < MAX_DIFFICULTY {
                d
            } else {
                MAX_DIFFICULTY
            },
            None => DEFAULT_DIFFICULTY,
        };
        let is_computer = game_type == GameType::ScreenSaver;
        let computer_ai = if is_computer {
            Some(ComputerAi::new(final_difficulty))
        } else {
            None
        };
        let half_bar = (DEFAULT_BAR_LENGTH / 2) as u16;
        let centred = if game_area.height / 2 >= half_bar {
            game_area.height / 2 - half_bar
        } else {
            0
        };
        let inner_height = if game_area.height >= 2 {
            game_area.height - 2
        } else {
            0
        };
        let lowest = if inner_height >= DEFAULT_BAR_LENGTH as u16 {
            inner_height - DEFAULT_BAR_LENGTH as u16
        } else {
            0
        };
        let bar_position = if centred < lowest {
            centred
        } else {
            lowest
        };
        let player1 = Player {
            name: string_to_char_array(player_names[0]),
            score: 0,
            power_moves_left: STARTING_POWER_MOVES,
            last_power_used_at: None,
            bar_position,
            bar_length: DEFAULT_BAR_LENGTH,
            is_computer,
            computer_ai,
        };
        let player2 = Player {
            name: string_to_char_array(player_names[1]),
            score: 0,
            power_moves_left: STARTING_POWER_MOVES,
            last_power_used_at: None,
            bar_position,
            bar_length: DEFAULT_BAR_LENGTH,
            is_computer,
            computer_ai,
        };
        let ball = Ball {
            x: if game_area.width >= 4 {
                (game_area.width - 4) / 2
            } else {
                0
            },
            y: if game_area.height >= 4 {
                (game_area.height - 4) / 2
            } else {
                0
            },
            vx: DEFAULT_BALL_VELOCITY_X,
            vy: DEFAULT_BALL_VELOCITY_Y,
            is_powered: false,
            net_x: COURT_WIDTH / 2,
            net_y: COURT_HEIGHT / 2,
            net_dx: 0,
            net_dy: 0,
            render_x: COURT_WIDTH / 2,
            render_y: COURT_HEIGHT / 2,
        };
        let r = Game {
            game_type,
            left: player1,
            right: player2,
            ball,
            game_area,
            is_paused: false,
            scored_keep_display: false,
            difficulty: final_difficulty,
            should_exit: false,
            theme: GameTheme::Monokai,
            local_player_index: None,
            pending_serve: false,
            pending_ready: false,
            has_ball_data: false,
            is_game_over: false,
            connected: false,
            last_published_y: None,
        };
        r
    }

    pub fn get_area(&self) -> (r: Area)
        ensures
            r == self.game_area,
    {
        self.game_area
    }

    /// The lowest top row of a paddle in `area`.
    pub open spec fn lowest_row(area: Area) -> int {
        sat_sub(sat_sub(area.height as int, 2), DEFAULT_BAR_LENGTH as int)
    }

    /// `p` after a resize to `area`: a paddle that would stick out below the
    /// inner rows moves up to their bottom.
    pub open spec fn fitted(p: Player, area: Area) -> Player {
        if p.bar_position > Game::lowest_row(area) {
            Player { bar_position: Game::lowest_row(area) as u16, ..p }
        } else {
            p
        }
    }

    fn lowest_row_of(area: Area) -> (r: u16)
        ensures
            r == Game::lowest_row(area),
    {
        let inner_height = if area.height >= 2 {
            area.height - 2
        } else {
            0
        };
        if inner_height >= DEFAULT_BAR_LENGTH as u16 {
            inner_height - DEFAULT_BAR_LENGTH as u16
        } else {
            0
        }
    }

    /// Resizes the court; paddles stay inside it.
    pub fn set_area(&mut self, game_area: Area)
        requires
            old(self).wf(),
        ensures
            final(self).wf(),
            final(self).left == Game::fitted(old(self).left, game_area),
            final(self).right == Game::fitted(old(self).right, game_area),
            *final(self) == (Game {
                game_area,
                left: final(self).left,
                right: final(self).right,
                ..*old(self)
            }),
            game_area.height >= 2 + DEFAULT_BAR_LENGTH ==> final(self).paddles_in_bounds(),
    {
        let lowest = Game::lowest_row_of(game_area);
        self.game_area = game_area;
        if self.left.bar_position > lowest {
            self.left.bar_position = lowest;
        }
        if self.right.bar_position > lowest {
            self.right.bar_position = lowest;
        }
    }

    pub fn get_player(&self, index: usize) -> (r: &Player)
        requires
            index < 2,
        ensures
            *r == self.player(index as int),
    {
        if index == 0 {
            &self.left
        } else {
            &self.right
        }
    }

    pub fn set_theme(&mut self, theme: GameTheme)
        ensures
            *final(self) == (Game { theme, ..*old(self) }),
    {
        self.theme = theme;
    }

    /// Makes this client drive paddle `index` of a networked match.
    pub fn set_local_player_index(&mut self, index: usize)
        requires
            index < 2,
        ensures
            *final(self) == (Game { local_player_index: Some(index), ..*old(self) }),
    {
        self.local_player_index = Some(index);
    }

    pub fn toggle_pause(&mut self)
        ensures
            *final(self) == (Game { is_paused: !old(self).is_paused, ..*old(self) }),
    {
        self.is_paused = !self.is_paused;
    }

    /// Player `index` after a move: up one row for a positive `direction`,
    /// down one for a negative one, within the court; a computer-driven
    /// paddle does not move.
    pub open spec fn moved(self, index: int, direction: i8) -> Player {
        let p = self.player(index);
        if direction == 0 || p.is_computer {
            p
        } else if direction > 0 {
            if p.bar_position > 0 {
                Player { bar_position: (p.bar_position - 1) as u16, ..p }
            } else {
                p
            }
        } else if p.bar_position + p.bar_length < self.inner_height() {
            Player { bar_position: (p.bar_position + 1) as u16, ..p }
        } else {
            p
        }
    }

    /// Moves paddle `index` by one row: up for a positive `direction`, down
    /// for a negative one. A paddle stays within the court, and one that the
    /// computer drives does not move.
    pub fn move_player(&mut self, index: usize, direction: i8)
        requires
            index < 2,
        ensures
            *final(self) == old(self).with_player(index as int, old(self).moved(index as int, direction)),
            old(self).paddles_in_bounds() ==> final(self).paddles_in_bounds(),
            old(self).wf() ==> final(self).wf(),
    {
        if direction == 0 {
            return;
        }
        let mut p = *self.get_player(index);
        if p.is_computer {
            return;
        }
        if direction > 0 {
            if p.bar_position > 0 {
                p.bar_position = p.bar_position - 1;
            }
        } else {
            let inner_height = if self.game_area.height >= 2 {
                self.game_area.height - 2
            } else {
                0
            };
            if (p.bar_position as u32) + (p.bar_length as u32) < inner_height as u32 {
                p.bar_position = p.bar_position + 1;
            }
        }
        if index == 0 {
            self.left = p;
        } else {
            self.right = p;
        }
    }
}

/// `pos + v`, saturating at the ends of `u16`.
pub open spec fn offset(pos: u16, v: i8) -> int {
    if pos + v < 0 {
        0
    } else if pos + v > u16::MAX {
        u16::MAX as int
    } else {
        pos + v
    }
}

fn offset_of(pos: u16, v: i8) -> (r: u16)
    ensures
        r == offset(pos, v),
{
    let sum: i32 = pos as i32 + v as i32;
    if sum < 0 {
        0
    } else if sum > u16::MAX as i32 {
        u16::MAX
    } else {
        sum as u16
    }
}

/// Row `row` lies within the paddle of `p`.
pub open spec fn in_band(p: Player, row: int) -> bool {
    p.bar_position <= row < p.bar_position + p.bar_length
}

fn bump_score(score: u32) -> (r: u32)
    ensures
        r == Game::bump(score),
{
    if score < u32::MAX {
        score + 1
    } else {
        score
    }
}

fn in_band_of(p: &Player, row: u16) -> (r: bool)
    ensures
        r == in_band(*p, row as int),
{
    row >= p.bar_position && (row as u32) < p.bar_position as u32 + p.bar_length as u32
}

impl Game {
    /// The court is large enough for local physics: four columns between the
    /// gutters and three inner rows.
    pub open spec fn playable(self) -> bool {
        self.game_area.width >= 7 && self.game_area.height >= 5
    }

    pub open spec fn next_x(self) -> int {
        offset(self.ball.x, self.ball.vx)
    }

    pub open spec fn next_y(self) -> int {
        offset(self.ball.y, self.ball.vy)
    }

    /// The ball after the top and bottom walls: it bounces off a wall it
    /// reaches, and stays next to it.
    pub open spec fn ball_after_walls(self) -> Ball {
        let b = self.ball;
        let ny = self.next_y();
        if ny == 0 || ny >= self.inner_height() {
            Ball {
                vy: -b.vy as i8,
                y: (if ny == 0 {
                    0
                } else {
                    self.inner_height() - 1
                }) as u16,
                ..b
            }
        } else {
            Ball { y: ny as u16, ..b }
        }
    }

    /// The column at which the right paddle returns the ball.
    pub open spec fn right_face(self) -> int {
        self.inner_width() - DEFAULT_PADDLE_WIDTH - 1
    }

    /// The left paddle returns the ball in this step.
    pub open spec fn hits_left(self) -> bool {
        &&& !self.scored_keep_display
        &&& self.next_x() <= DEFAULT_PADDLE_WIDTH
        &&& self.ball.vx < 0
        &&& in_band(self.left, self.next_y())
    }

    /// The right paddle returns the ball in this step.
    pub open spec fn hits_right(self) -> bool {
        &&& !self.scored_keep_display
        &&& self.next_x() >= self.right_face()
        &&& self.ball.vx > 0
        &&& in_band(self.right, self.next_y())
    }

    /// One step of local physics, given the row at which a ball that left the
    /// court comes back and the side it is then served to: the match after
    /// the step, and the paddle (1 or 2) that returned the ball, if one did.
    pub open spec fn spec_advance_ball(self, reset_row: u16, serve_right: bool) -> (Game, Option<u8>) {
        let b = self.ball_after_walls();
        let nx = self.next_x();
        if self.hits_left() {
            (Game { ball: Ball { vx: -b.vx as i8, x: DEFAULT_PADDLE_WIDTH, ..b }, ..self }, Some(1u8))
        } else if self.hits_right() {
            (
                Game {
                    ball: Ball {
                        vx: (-DEFAULT_BALL_VELOCITY_X) as i8,
                        x: self.right_face() as u16,
                        is_powered: false,
                        ..b
                    },
                    ..self
                },
                Some(2u8),
            )
        } else if nx < DEFAULT_PADDLE_WIDTH || nx > self.right_face() {
            if nx == 0 || nx >= self.inner_width() {
                let scored = if nx == 0 {
                    Game {
                        right: Player { score: Game::bump(self.right.score), ..self.right },
                        ..self
                    }
                } else {
                    Game {
                        left: Player { score: Game::bump(self.left.score), ..self.left },
                        ..self
                    }
                };
                (
                    Game {
                        ball: Ball {
                            x: (self.inner_width() / 2) as u16,
                            y: reset_row,
                            vx: if serve_right {
                                DEFAULT_BALL_VELOCITY_X
                            } else {
                                (-DEFAULT_BALL_VELOCITY_X) as i8
                            },
                            is_powered: false,
                            ..b
                        },
                        scored_keep_display: false,
                        ..scored
                    },
                    None,
                )
            } else {
                (Game { ball: Ball { x: nx as u16, ..b }, scored_keep_display: true, ..self }, None)
            }
        } else {
            (Game { ball: Ball { x: nx as u16, ..b }, ..self }, None)
        }
    }

    /// A score plus one, held at the largest `u32`.
    pub open spec fn bump(score: u32) -> u32 {
        if score < u32::MAX {
            (score + 1) as u32
        } else {
            score
        }
    }

    /// One step of local physics (see `spec_advance_ball`), with the row and
    /// side of a new serve given.
    pub fn advance_ball(&mut self, reset_row: u16, serve_right: bool) -> (r: Option<u8>)
        requires
            old(self).wf(),
            old(self).playable(),
            1 <= reset_row < old(self).inner_height() - 1,
        ensures
            (*final(self), r) == old(self).spec_advance_ball(reset_row, serve_right),
            final(self).wf(),
            final(self).left.bar_position == old(self).left.bar_position,
            final(self).right.bar_position == old(self).right.bar_position,
            final(self).game_area == old(self).game_area,
    {
        let g = *self;
        let inner_width = g.game_area.width - 3;
        let right_face = inner_width - DEFAULT_PADDLE_WIDTH - 1;
        let new_x = offset_of(g.ball.x, g.ball.vx);
        let new_y = offset_of(g.ball.y, g.ball.vy);
        let b = g.walls();
        if !g.scored_keep_display && new_x <= DEFAULT_PADDLE_WIDTH && g.ball.vx < 0 && in_band_of(
            &g.left,
            new_y,
        ) {
            *self = Game { ball: Ball { vx: -b.vx, x: DEFAULT_PADDLE_WIDTH, ..b }, ..g };
            Some(1)
        } else if !g.scored_keep_display && new_x >= right_face && g.ball.vx > 0 && in_band_of(
            &g.right,
            new_y,
        ) {
            *self = Game {
                ball: Ball { vx: -DEFAULT_BALL_VELOCITY_X, x: right_face, is_powered: false, ..b },
                ..g
            };
            Some(2)
        } else if new_x < DEFAULT_PADDLE_WIDTH || new_x > right_face {
            if new_x == 0 || new_x >= inner_width {
                let scored = if new_x == 0 {
                    Game { right: Player { score: bump_score(g.right.score), ..g.right }, ..g }
                } else {
                    Game { left: Player { score: bump_score(g.left.score), ..g.left }, ..g }
                };
                let vx = if serve_right {
                    DEFAULT_BALL_VELOCITY_X
                } else {
                    -DEFAULT_BALL_VELOCITY_X
                };
                *self = Game {
                    ball: Ball { x: inner_width / 2, y: reset_row, vx, is_powered: false, ..b },
                    scored_keep_display: false,
                    ..scored
                };
                None
            } else {
                *self = Game { ball: Ball { x: new_x, ..b }, scored_keep_display: true, ..g };
                None
            }
        } else {
            *self = Game { ball: Ball { x: new_x, ..b }, ..g };
            None
        }
    }

    fn walls(&self) -> (b: Ball)
        requires
            self.wf(),
            self.playable(),
        ensures
            b == self.ball_after_walls(),
    {
        let inner_height = self.game_area.height - 2;
        let new_y = offset_of(self.ball.y, self.ball.vy);
        if new_y == 0 || new_y >= inner_height {
            Ball {
                vy: -self.ball.vy,
                y: if new_y == 0 {
                    0
                } else {
                    inner_height - 1
                },
                ..self.ball
            }
        } else {
            Ball { y: new_y, ..self.ball }
        }
    }

    /// One step of local physics; a ball that leaves the court comes back in
    /// the middle column at a random row strictly between the walls, served
    /// to a random side. On a court too small to play on nothing moves.
    pub fn update_ball_position(&mut self) -> (r: Option<u8>)
        requires
            old(self).wf(),
        ensures
            final(self).wf(),
            old(self).playable() ==> exists|row: u16, serve_right: bool|
                1 <= row < old(self).inner_height() - 1 && (*final(self), r)
                    == old(self).spec_advance_ball(row, serve_right),
            !old(self).playable() ==> *final(self) == *old(self) && r is None,
            final(self).left.bar_position == old(self).left.bar_position,
            final(self).right.bar_position == old(self).right.bar_position,
            final(self).game_area == old(self).game_area,
    {
        if self.game_area.width < 7 || self.game_area.height < 5 {
            return None;
        }
        let inner_height = self.game_area.height - 2;
        let row = random_in(1, inner_height - 1);
        let serve_right = random_in(0, 2) == 0;
        self.advance_ball(row, serve_right)
    }

    /// The number of power-move columns in front of a goal line at
    /// `difficulty`: twelve at none, shrinking to four at one and to none at
    /// one and a half, rounded half up.
    pub open spec fn allowed_range(difficulty: int) -> int {
        if 8 * difficulty >= 1200 {
            0
        } else {
            (1250 - 8 * difficulty) / 100
        }
    }

    /// Player `index` may use a power move now: it has one left, the ball
    /// comes towards its paddle, level with it, and close to its goal line.
    pub open spec fn power_window(self, index: int) -> bool {
        let p = self.player(index);
        let b = self.ball;
        let range = Game::allowed_range(self.difficulty as int);
        let approaching = if index == 0 {
            b.vx < 0
        } else {
            b.vx > 0
        };
        let near = if index == 0 {
            b.x > 1 && b.x < 1 + range
        } else {
            let edge = sat_sub(self.game_area.width as int, 1);
            b.x > sat_sub(edge, range) && b.x < sat_sub(edge, 1)
        };
        p.power_moves_left > 0 && approaching && in_band(p, b.y as int) && near
    }

    /// The match after player `index` tries a power move at time `now`.
    pub open spec fn spec_power_move(self, index: int, now: u64) -> Game {
        let p = self.player(index);
        if self.power_window(index) {
            Game {
                ball: Ball {
                    vx: if index == 0 {
                        POWER_VELOCITY_X
                    } else {
                        (-POWER_VELOCITY_X) as i8
                    },
                    is_powered: true,
                    ..self.ball
                },
                ..self.with_player(
                    index,
                    Player {
                        power_moves_left: (p.power_moves_left - 1) as u8,
                        last_power_used_at: Some(now),
                        ..p
                    },
                )
            }
        } else {
            self
        }
    }

    fn power_window_of(&self, index: usize) -> (r: bool)
        requires
            index < 2,
            self.wf(),
        ensures
            r == self.power_window(index as int),
    {
        let p = *self.get_player(index);
        if p.power_moves_left == 0 {
            return false;
        }
        let approaching = if index == 0 {
            self.ball.vx < 0
        } else {
            self.ball.vx > 0
        };
        let within_bar = in_band_of(&p, self.ball.y);
        let range: u16 = if 8 * self.difficulty >= 1200 {
            0
        } else {
            ((1250 - 8 * self.difficulty) / 100) as u16
        };
        let near = if index == 0 {
            self.ball.x > 1 && (self.ball.x as u32) < 1 + range as u32
        } else {
            let edge = if self.game_area.width >= 1 {
                self.game_area.width - 1
            } else {
                0
            };
            let from = if edge >= range {
                edge - range
            } else {
                0
            };
            let to = if edge >= 1 {
                edge - 1
            } else {
                0
            };
            self.ball.x > from && self.ball.x < to
        };
        approaching && within_bar && near
    }

    /// Player `index` tries a power move at time `now` (ms): inside the
    /// window it sends the ball back at power speed and uses up one charge;
    /// outside it nothing changes.
    pub fn power_move(&mut self, index: usize, now: u64)
        requires
            index < 2,
            old(self).wf(),
        ensures
            *final(self) == old(self).spec_power_move(index as int, now),
            old(self).player(index as int).power_moves_left == 0 ==> *final(self) == *old(self),
            final(self).wf(),
            old(self).paddles_in_bounds() ==> final(self).paddles_in_bounds(),
    {
        if self.power_window_of(index) {
            let g = *self;
            let p = *g.get_player(index);
            let ball = Ball {
                vx: if index == 0 {
                    POWER_VELOCITY_X
                } else {
                    -POWER_VELOCITY_X
                },
                is_powered: true,
                ..g.ball
            };
            let q = Player {
                power_moves_left: p.power_moves_left - 1,
                last_power_used_at: Some(now),
                ..p
            };
            *self = if index == 0 {
                Game { ball, left: q, ..g }
            } else {
                Game { ball, right: q, ..g }
            };
        }
    }
}

impl Game {
    /// What the controller of paddle `index` sees at time `now`.
    pub open spec fn ai_view(self, index: int, now: u64) -> AiView {
        AiView {
            now,
            screensaver: self.game_type == GameType::ScreenSaver,
            left_side: index == 0,
            area_width: self.game_area.width,
            area_height: self.game_area.height,
            ball_x: self.ball.x,
            ball_y: self.ball.y,
            ball_vx: self.ball.vx,
            ball_vy: self.ball.vy,
            bar_position: self.player(index).bar_position,
            bar_length: self.player(index).bar_length,
        }
    }

    /// The match after the controller of paddle `index` runs at `now` with
    /// draws `d`; a paddle that the computer does not drive stays as it is.
    pub open spec fn spec_computer_step(self, index: int, now: u64, d: AiDraws) -> Game {
        let p = self.player(index);
        if !p.is_computer {
            self
        } else {
            match p.computer_ai {
                None => self,
                Some(ai) => {
                    let v = self.ai_view(index, now);
                    let next = ai.spec_tick(v, d);
                    self.with_player(
                        index,
                        Player {
                            computer_ai: Some(next),
                            bar_position: ComputerAi::spec_position(next, v, d) as u16,
                            ..p
                        },
                    )
                },
            }
        }
    }

    /// Runs the controller of paddle `index` for a tick at time `now` (ms)
    /// with the random draws `d`, and moves the paddle where it says.
    pub fn update_computer_player(&mut self, index: usize, now: u64, d: AiDraws)
        requires
            index < 2,
            old(self).wf(),
            d.valid(),
        ensures
            *final(self) == old(self).spec_computer_step(index as int, now, d),
            !old(self).player(index as int).is_computer ==> *final(self) == *old(self),
            final(self).wf(),
            old(self).paddles_in_bounds() ==> final(self).paddles_in_bounds(),
    {
        let p = *self.get_player(index);
        if !p.is_computer {
            return;
        }
        match p.computer_ai {
            None => {},
            Some(ai) => {
                let mut ai = ai;
                let v = AiView {
                    now,
                    screensaver: self.game_type == GameType::ScreenSaver,
                    left_side: index == 0,
                    area_width: self.game_area.width,
                    area_height: self.game_area.height,
                    ball_x: self.ball.x,
                    ball_y: self.ball.y,
                    ball_vx: self.ball.vx,
                    ball_vy: self.ball.vy,
                    bar_position: p.bar_position,
                    bar_length: p.bar_length,
                };
                assert(v == self.ai_view(index as int, now));
                let row = ai.tick(v, d);
                let q = Player { computer_ai: Some(ai), bar_position: row, ..p };
                if index == 0 {
                    self.left = q;
                } else {
                    self.right = q;
                }
            },
        }
    }

    /// Runs the controller of paddle `index` with fresh random draws.
    pub fn run_computer_player(&mut self, index: usize, now: u64)
        requires
            index < 2,
            old(self).wf(),
        ensures
            exists|d: AiDraws| d.valid() && *final(self) == old(self).spec_computer_step(index as int, now, d),
            final(self).wf(),
            old(self).paddles_in_bounds() ==> final(self).paddles_in_bounds(),
    {
        let d = AiDraws {
            error: random_in(0, 1000),
            oops_roll: random_in(0, 1000),
            oops: random_in(0, 1000),
            extra_roll: random_in(0, 1000),
            extra: random_in(0, 1000),
            jitter: random_in(0, 1000),
        };
        self.update_computer_player(index, now, d);
    }

    /// Milliseconds between two ticks of local physics: the simulation runs at
    /// 15 ticks a second at difficulty 0, 25 more per unit of difficulty,
    /// rounded half up.
    pub open spec fn spec_frame_interval(difficulty: int) -> int {
        (8000 + 60 + difficulty) / (120 + 2 * difficulty)
    }

    pub fn frame_interval_ms(&self) -> (r: u64)
        requires
            self.wf(),
        ensures
            r == Game::spec_frame_interval(self.difficulty as int),
    {
        let d = self.difficulty as u64;
        (8060 + d) / (120 + 2 * d)
    }

    /// Whether a tick of local physics is due `elapsed` ms after the last.
    pub fn frame_due(&self, elapsed: u64) -> (r: bool)
        requires
            self.wf(),
        ensures
            r == (elapsed >= Game::spec_frame_interval(self.difficulty as int)),
    {
        elapsed >= self.frame_interval_ms()
    }

    /// A tick of a local match at time `now`, given the draws of both
    /// controllers and of a possible new serve: both computer paddles move,
    /// then the ball, if the court is large enough to play on.
    pub open spec fn spec_frame(
        self,
        now: u64,
        d0: AiDraws,
        d1: AiDraws,
        reset_row: u16,
        serve_right: bool,
    ) -> (Game, Option<u8>) {
        let g = self.spec_computer_step(0, now, d0).spec_computer_step(1, now, d1);
        if g.playable() {
            g.spec_advance_ball(reset_row, serve_right)
        } else {
            (g, None)
        }
    }

    /// One tick of a local match at time `now` (ms), with fresh random draws
    /// (see `spec_frame`). A networked match has no local physics, and nothing
    /// changes.
    pub fn step_frame(&mut self, now: u64) -> (r: Option<u8>)
        requires
            old(self).wf(),
        ensures
            final(self).wf(),
            old(self).paddles_in_bounds() ==> final(self).paddles_in_bounds(),
            old(self).game_type == GameType::WithNetwork ==> *final(self) == *old(self) && r is None,
            old(self).game_type == GameType::ScreenSaver ==> exists|
                d0: AiDraws,
                d1: AiDraws,
                reset_row: u16,
                serve_right: bool,
            |
                d0.valid() && d1.valid() && (old(self).playable() ==> 1 <= reset_row
                    < old(self).inner_height() - 1) && (*final(self), r) == old(self).spec_frame(
                    now,
                    d0,
                    d1,
                    reset_row,
                    serve_right,
                ),
    {
        if self.game_type == GameType::WithNetwork {
            return None;
        }
        let ghost g0 = *self;
        self.run_computer_player(0, now);
        let ghost g1 = *self;
        self.run_computer_player(1, now);
        let ghost g2 = *self;
        let r = self.update_ball_position();
        proof {
            let d0 = choose|d: AiDraws| d.valid() && g1 == g0.spec_computer_step(0, now, d);
            let d1 = choose|d: AiDraws| d.valid() && g2 == g1.spec_computer_step(1, now, d);
            assert(g2.game_area == g0.game_area);
            if g2.playable() {
                let (row, sr) = choose|row: u16, sr: bool|
                    1 <= row < g2.inner_height() - 1 && (*self, r) == g2.spec_advance_ball(row, sr);
                assert((*self, r) == g0.spec_frame(now, d0, d1, row, sr));
            } else {
                assert((*self, r) == g0.spec_frame(now, d0, d1, 1, true));
            }
        }
        r
    }

    /// The match after key `key` at time `now`, outside the pause menu.
    pub open spec fn spec_key(self, key: Key, now: u64) -> Game {
        if key == Key::Esc || key == Key::Char('q') {
            Game { should_exit: true, ..self }
        } else if key == Key::Char('p') {
            if self.game_type != GameType::WithNetwork {
                Game { is_paused: !self.is_paused, ..self }
            } else {
                self
            }
        } else if self.is_game_over {
            if key == Key::Enter || key == Key::Char(' ') || key == Key::Char('r') {
                Game { pending_ready: true, ..self }
            } else {
                self
            }
        } else {
            match self.local_player_index {
                Some(i) => {
                    if key == Key::Up || key == Key::Char('w') {
                        self.with_player(i as int, self.moved(i as int, 1i8))
                    } else if key == Key::Down || key == Key::Char('s') {
                        self.with_player(i as int, self.moved(i as int, -1i8))
                    } else if key == Key::Char(' ') || key == Key::Enter {
                        Game { pending_serve: true, ..self }
                    } else {
                        self
                    }
                },
                None => {
                    if key == Key::Char('/') {
                        self.spec_power_move(0, now)
                    } else if key == Key::Up {
                        self.with_player(0, self.moved(0, 1i8))
                    } else if key == Key::Down {
                        self.with_player(0, self.moved(0, -1i8))
                    } else if key == Key::Char(' ') {
                        self.spec_power_move(1, now)
                    } else if key == Key::Char('w') {
                        self.with_player(1, self.moved(1, 1i8))
                    } else if key == Key::Char('s') {
                        self.with_player(1, self.moved(1, -1i8))
                    } else {
                        self
                    }
                },
            }
        }
    }

    /// Handles a key press during play at time `now` (ms). Esc or `q` quits;
    /// `p` pauses a local match. After the server ended a match only Enter,
    /// space or `r` (ready for another) count. In a networked match the arrow
    /// keys or `w`/`s` move the local paddle and Enter or space serves; in a
    /// local match the left player uses the arrows and `/`, the right one
    /// `w`/`s` and space.
    pub fn handle_key_event(&mut self, key: Key, now: u64)
        requires
            old(self).wf(),
        ensures
            *final(self) == old(self).spec_key(key, now),
            final(self).difficulty == old(self).difficulty,
            final(self).game_area == old(self).game_area,
            final(self).game_type == old(self).game_type,
            final(self).wf(),
            old(self).paddles_in_bounds() ==> final(self).paddles_in_bounds(),
    {
        if key == Key::Esc || key == Key::Char('q') {
            self.should_exit = true;
        } else if key == Key::Char('p') {
            if self.game_type != GameType::WithNetwork {
                self.toggle_pause();
            }
        } else if self.is_game_over {
            if key == Key::Enter || key == Key::Char(' ') || key == Key::Char('r') {
                self.pending_ready = true;
            }
        } else {
            match self.local_player_index {
                Some(i) => {
                    if key == Key::Up || key == Key::Char('w') {
                        self.move_player(i, 1);
                    } else if key == Key::Down || key == Key::Char('s') {
                        self.move_player(i, -1);
                    } else if key == Key::Char(' ') || key == Key::Enter {
                        self.pending_serve = true;
                    }
                },
                None => {
                    if key == Key::Char('/') {
                        self.power_move(0, now);
                    } else if key == Key::Up {
                        self.move_player(0, 1);
                    } else if key == Key::Down {
                        self.move_player(0, -1);
                    } else if key == Key::Char(' ') {
                        self.power_move(1, now);
                    } else if key == Key::Char('w') {
                        self.move_player(1, 1);
                    } else if key == Key::Char('s') {
                        self.move_player(1, -1);
                    }
                },
            }
        }
    }

    /// The match after key `key` in the pause menu.
    pub open spec fn spec_pause_key(self, key: Key) -> Game {
        if key == Key::Char('p') || key == Key::Enter {
            Game { is_paused: false, ..self }
        } else if key == Key::Esc {
            Game { should_exit: true, ..self }
        } else if key == Key::Char('d') {
            Game { theme: self.theme.spec_next(), ..self }
        } else if key == Key::Left {
            Game { difficulty: sat_sub(self.difficulty as int, DIFFICULTY_STEP as int) as u32, ..self }
        } else if key == Key::Right {
            Game {
                difficulty: vstd::math::min(
                    self.difficulty + DIFFICULTY_STEP,
                    MAX_DIFFICULTY as int,
                ) as u32,
                ..self
            }
        } else {
            self
        }
    }

    /// Handles a key press in the pause menu: `p` or Enter resumes, Esc
    /// quits, `d` cycles the theme, and the left and right arrows lower and
    /// raise the difficulty by a tenth, within its range.
    pub fn handle_pause_key(&mut self, key: Key)
        requires
            old(self).wf(),
        ensures
            *final(self) == old(self).spec_pause_key(key),
            final(self).wf(),
            old(self).paddles_in_bounds() ==> final(self).paddles_in_bounds(),
    {
        if key == Key::Char('p') || key == Key::Enter {
            self.is_paused = false;
        } else if key == Key::Esc {
            self.should_exit = true;
        } else if key == Key::Char('d') {
            self.theme = self.theme.next();
        } else if key == Key::Left {
            self.difficulty = if self.difficulty >= DIFFICULTY_STEP {
                self.difficulty - DIFFICULTY_STEP
            } else {
                0
            };
        } else if key == Key::Right {
            self.difficulty = if self.difficulty + DIFFICULTY_STEP < MAX_DIFFICULTY {
                self.difficulty + DIFFICULTY_STEP
            } else {
                MAX_DIFFICULTY
            };
        }
    }

    /// A scroll of the mouse wheel moves the local paddle (the left one in a
    /// local match): up for `up`, else down.
    pub fn handle_scroll(&mut self, up: bool)
        requires
            old(self).wf(),
        ensures
            ({
                let i = match old(self).local_player_index {
                    Some(i) => i as int,
                    None => 0,
                };
                *final(self) == old(self).with_player(i, old(self).moved(i, if up { 1i8 } else { -1i8 }))
            }),
            final(self).wf(),
            old(self).paddles_in_bounds() ==> final(self).paddles_in_bounds(),
    {
        let i = match self.local_player_index {
            Some(i) => i,
            None => 0,
        };
        self.move_player(i, if up { 1i8 } else { -1i8 });
    }
}

/// Least change of the local paddle (thousandths of a court unit) that is
/// published again.
pub const PUBLISH_EPSILON: i32 = 10;

impl Game {
    /// Rows over which the top of paddle `index` travels.
    pub open spec fn travel_rows(self, index: int) -> int {
        sat_sub(self.inner_height(), self.player(index).bar_length as int)
    }

    fn travel_rows_of(&self, index: usize) -> (r: u16)
        requires
            index < 2,
        ensures
            r == self.travel_rows(index as int),
    {
        let inner_height = if self.game_area.height >= 2 {
            self.game_area.height - 2
        } else {
            0
        };
        let len = self.get_player(index).bar_length as u16;
        if inner_height >= len {
            inner_height - len
        } else {
            0
        }
    }

    /// The match after the opponent's paddle `index` is reported at court
    /// position `y`; on a court with no inner rows nothing changes.
    pub open spec fn spec_set_opponent_paddle(self, index: int, y: i32) -> Game {
        if self.inner_height() == 0 {
            self
        } else {
            let p = self.player(index);
            self.with_player(
                index,
                Player {
                    bar_position: spec_court_to_row(y as int, self.travel_rows(index)) as u16,
                    ..p
                },
            )
        }
    }

    /// Puts paddle `index` at court position `y` (mapped onto its rows at
    /// once, with no smoothing).
    pub fn set_opponent_paddle(&mut self, index: usize, y: i32)
        requires
            index < 2,
            old(self).wf(),
        ensures
            *final(self) == old(self).spec_set_opponent_paddle(index as int, y),
            final(self).wf(),
            old(self).paddles_in_bounds() ==> final(self).paddles_in_bounds(),
    {
        if self.game_area.height <= 2 {
            return;
        }
        let rows = self.travel_rows_of(index);
        let row = court_to_row(y, rows);
        if index == 0 {
            self.left.bar_position = row;
        } else {
            self.right.bar_position = row;
        }
    }

    /// The match after a ball sample from the server: stored, and drawn at
    /// exactly that position.
    pub open spec fn spec_set_ball(self, x: i32, y: i32, dx: i32, dy: i32) -> Game {
        Game {
            ball: Ball {
                net_x: x,
                net_y: y,
                net_dx: dx,
                net_dy: dy,
                render_x: x,
                render_y: y,
                ..self.ball
            },
            has_ball_data: true,
            ..self
        }
    }

    /// Stores the server's ball state and draws the ball exactly there: the
    /// server is the only physics, and nothing is interpolated.
    pub fn set_ball_from_network(&mut self, x: i32, y: i32, dx: i32, dy: i32)
        ensures
            *final(self) == old(self).spec_set_ball(x, y, dx, dy),
    {
        self.ball.net_x = x;
        self.ball.net_y = y;
        self.ball.net_dx = dx;
        self.ball.net_dy = dy;
        self.ball.render_x = x;
        self.ball.render_y = y;
        self.has_ball_data = true;
    }

    /// Overwrites both scores with the server's.
    pub fn set_scores(&mut self, p1: u32, p2: u32)
        ensures
            *final(self) == (Game {
                left: Player { score: p1, ..old(self).left },
                right: Player { score: p2, ..old(self).right },
                ..*old(self)
            }),
    {
        self.left.score = p1;
        self.right.score = p2;
    }

    /// The court position of paddle `index`, for publishing.
    pub fn get_paddle_physics_y(&self, index: usize) -> (r: i32)
        requires
            index < 2,
        ensures
            r == spec_row_to_court(self.player(index as int).bar_position as int, self.travel_rows(index as int)),
    {
        let rows = self.travel_rows_of(index);
        row_to_court(self.get_player(index).bar_position, rows)
    }

    /// The match after a state message: both scores overwritten, and the
    /// game-over flag set by an ended match and cleared by a playing one.
    pub open spec fn spec_apply_state(self, st: StateMsg) -> Game {
        let scored = Game {
            left: Player { score: st.p1_score, ..self.left },
            right: Player { score: st.p2_score, ..self.right },
            ..self
        };
        match st.status {
            GameStatus::Ended => Game { is_game_over: true, ..scored },
            GameStatus::Playing => Game { is_game_over: false, pending_ready: false, ..scored },
            GameStatus::Waiting => scored,
        }
    }

    fn apply_state(&mut self, st: &StateMsg)
        ensures
            *final(self) == old(self).spec_apply_state(*st),
    {
        self.set_scores(st.p1_score, st.p2_score);
        match st.status {
            GameStatus::Ended => {
                self.is_game_over = true;
            },
            GameStatus::Playing => {
                self.is_game_over = false;
                self.pending_ready = false;
            },
            GameStatus::Waiting => {},
        }
    }

    /// The match after a report from the network side.
    pub open spec fn spec_apply(self, event: NetworkEvent) -> Game {
        match event {
            NetworkEvent::OpponentPaddle(y) => match self.local_player_index {
                Some(i) => self.spec_set_opponent_paddle(1 - i, y),
                None => self,
            },
            NetworkEvent::BallUpdate(b) => self.spec_set_ball(b.x, b.y, b.dx, b.dy),
            NetworkEvent::StateUpdate(st) => self.spec_apply_state(st),
            NetworkEvent::Connected => Game { connected: true, ..self },
            NetworkEvent::Disconnected => Game { connected: false, ..self },
        }
    }

    /// Applies one report of the network side: the opponent's paddle, the
    /// ball and the scores are overwritten by the server's; an ended match
    /// sets the game-over flag and a playing one clears it; connection
    /// changes only update the indicator.
    pub fn apply_network_event(&mut self, event: &NetworkEvent)
        requires
            old(self).wf(),
        ensures
            *final(self) == old(self).spec_apply(*event),
            final(self).wf(),
            old(self).paddles_in_bounds() ==> final(self).paddles_in_bounds(),
    {
        match event {
            NetworkEvent::OpponentPaddle(y) => match self.local_player_index {
                Some(i) => self.set_opponent_paddle(1 - i, *y),
                None => {},
            },
            NetworkEvent::BallUpdate(b) => self.set_ball_from_network(b.x, b.y, b.dx, b.dy),
            NetworkEvent::StateUpdate(st) => self.apply_state(st),
            NetworkEvent::Connected => {
                self.connected = true;
            },
            NetworkEvent::Disconnected => {
                self.connected = false;
            },
        }
    }

    /// The court position of the local paddle if it should be published: it
    /// has never been, or it moved by more than `PUBLISH_EPSILON` since.
    pub open spec fn spec_paddle_update(self) -> Option<i32> {
        match self.local_player_index {
            None => None,
            Some(i) => {
                let y = spec_row_to_court(self.player(i as int).bar_position as int, self.travel_rows(i as int));
                match self.last_published_y {
                    None => Some(y as i32),
                    Some(last) => if y - last > PUBLISH_EPSILON || last - y > PUBLISH_EPSILON {
                        Some(y as i32)
                    } else {
                        None
                    },
                }
            },
        }
    }

    /// The local paddle's court position, when it is due to be published;
    /// it is then recorded as the last one published.
    pub fn paddle_update(&mut self) -> (r: Option<i32>)
        requires
            old(self).wf(),
        ensures
            r == old(self).spec_paddle_update(),
            *final(self) == (match r {
                Some(y) => Game { last_published_y: Some(y), ..*old(self) },
                None => *old(self),
            }),
    {
        match self.local_player_index {
            None => None,
            Some(i) => {
                let y = self.get_paddle_physics_y(i);
                let due = match self.last_published_y {
                    None => true,
                    Some(last) => (y as i64) - (last as i64) > PUBLISH_EPSILON as i64
                        || (last as i64) - (y as i64) > PUBLISH_EPSILON as i64,
                };
                if due {
                    self.last_published_y = Some(y);
                    Some(y)
                } else {
                    None
                }
            },
        }
    }

    /// Whether the local player asked to serve since the last call; the
    /// request is cleared.
    pub fn take_pending_serve(&mut self) -> (r: bool)
        ensures
            r == old(self).pending_serve,
            *final(self) == (Game { pending_serve: false, ..*old(self) }),
    {
        let r = self.pending_serve;
        self.pending_serve = false;
        r
    }

    /// Whether the local player said it is ready since the last call; the
    /// signal is cleared.
    pub fn take_pending_ready(&mut self) -> (r: bool)
        ensures
            r == old(self).pending_ready,
            *final(self) == (Game { pending_ready: false, ..*old(self) }),
    {
        let r = self.pending_ready;
        self.pending_ready = false;
        r
    }

    /// The cell (column, row) inside the court's frame at which the ball is
    /// drawn. In a networked match the court position is scaled onto the
    /// inner cells, less the ball's own width of two columns and height of
    /// one row.
    pub open spec fn spec_ball_cell(self) -> (u16, u16) {
        if self.game_type == GameType::WithNetwork {
            let cols = sat_sub(sat_sub(self.game_area.width as int, 2), 2);
            let rows = sat_sub(sat_sub(self.game_area.height as int, 2), 1);
            (
                spec_to_cells(self.ball.render_x as int, COURT_WIDTH as int, cols) as u16,
                spec_to_cells(self.ball.render_y as int, COURT_HEIGHT - 1000, rows) as u16,
            )
        } else {
            (self.ball.x, self.ball.y)
        }
    }

    pub fn ball_cell(&self) -> (r: (u16, u16))
        ensures
            r == self.spec_ball_cell(),
    {
        if self.game_type == GameType::WithNetwork {
            let inner_w = if self.game_area.width >= 2 {
                self.game_area.width - 2
            } else {
                0
            };
            let inner_h = if self.game_area.height >= 2 {
                self.game_area.height - 2
            } else {
                0
            };
            let cols = if inner_w >= 2 {
                inner_w - 2
            } else {
                0
            };
            let rows = if inner_h >= 1 {
                inner_h - 1
            } else {
                0
            };
            (
                to_cells(self.ball.render_x, COURT_WIDTH, cols),
                to_cells(self.ball.render_y, COURT_HEIGHT - 1000, rows),
            )
        } else {
            (self.ball.x, self.ball.y)
        }
    }
}

/// A ball at the left paddle's face, moving left, whose next row lies within
/// the paddle (and with no goal-line hold in force) is returned by one step:
/// its horizontal velocity changes sign and keeps its magnitude, it stays at
/// the face, and the step reports paddle 1.
pub proof fn lemma_left_paddle_reflects(g: Game, reset_row: u16, serve_right: bool)
    requires
        g.wf(),
        g.playable(),
        !g.scored_keep_display,
        g.ball.x == DEFAULT_PADDLE_WIDTH,
        g.ball.vx < 0,
        in_band(g.left, g.next_y()),
    ensures
        ({
            let (h, r) = g.spec_advance_ball(reset_row, serve_right);
            &&& h.ball.vx == -g.ball.vx
            &&& h.ball.x == DEFAULT_PADDLE_WIDTH
            &&& r == Some(1u8)
        }),
{
}

/// A ball that leaves the court on the left (its next column is the edge and
/// the left paddle does not return it) scores exactly one point for player
/// 2, leaves player 1's score alone, and comes back unpowered in the middle
/// column, served sideways at the serve speed to the drawn side, so never
/// with no horizontal velocity.
pub proof fn lemma_left_exit_scores(g: Game, reset_row: u16, serve_right: bool)
    requires
        g.wf(),
        g.playable(),
        g.next_x() == 0,
        !g.hits_left(),
        g.right.score < u32::MAX,
    ensures
        ({
            let (h, r) = g.spec_advance_ball(reset_row, serve_right);
            &&& h.right.score == g.right.score + 1
            &&& h.left.score == g.left.score
            &&& h.ball.x == g.inner_width() / 2
            &&& h.ball.y == reset_row
            &&& h.ball.vx == (if serve_right {
                DEFAULT_BALL_VELOCITY_X as int
            } else {
                -DEFAULT_BALL_VELOCITY_X
            })
            &&& h.ball.vx != 0
            &&& !h.ball.is_powered
            &&& !h.scored_keep_display
            &&& r is None
        }),
{
    assert(!g.hits_right());
}

/// Of two ball samples from the server applied one after the other, the
/// second is the one drawn, exactly.
pub proof fn lemma_ball_snap(g: Game, first: BallMsg, second: BallMsg)
    ensures
        ({
            let h = g.spec_apply(NetworkEvent::BallUpdate(first)).spec_apply(
                NetworkEvent::BallUpdate(second),
            );
            h.ball.render_x == second.x && h.ball.render_y == second.y
        }),
{
}

/// In every match, a paddle with a controller has it run on each tick: its
/// fatigue becomes `min(fatigue + dt * rate, cap)` for the time `dt` since
/// the controller's last tick and the rate and ceiling of the match's mode,
/// so it never decreases and never passes that ceiling.
pub proof fn lemma_controller_fatigue(g: Game, index: int, now: u64, d: AiDraws)
    requires
        g.wf(),
        0 <= index < 2,
        g.player(index).computer_ai is Some,
        g.player(index).computer_ai->0.fatigue <= fatigue_cap(
            g.game_type == GameType::ScreenSaver,
        ),
    ensures
        ({
            let ai = g.player(index).computer_ai->0;
            let ss = g.game_type == GameType::ScreenSaver;
            let next = g.spec_computer_step(index, now, d).player(index).computer_ai;
            &&& next is Some
            &&& next->0.fatigue == next_fatigue(ai.fatigue as int, elapsed(ai.last_update, now), ss)
            &&& ai.fatigue <= next->0.fatigue <= fatigue_cap(ss)
        }),
{
    let ai = g.player(index).computer_ai->0;
    lemma_fatigue_monotone(ai, g.ai_view(index, now), d);
}

} // verus!
