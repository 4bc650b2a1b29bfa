//! The simulation state machine.
//!
//! A `GameContext` owns the snake body (head first), the pending direction,
//! the food cell, the game state and mode, the score, and the text display
//! model it keeps in step with them. An external driver calls `move_player`,
//! `toggle_pause`, `toggle_mode` and `do_next_tick` at its own cadence.
//!
//! Grid coordinates are the cells `[0, GRID_X_SIZE) x [0, GRID_Y_SIZE)`; a
//! candidate head on `-1` or on the size itself has left the grid. Under
//! classic rules that ends the game; under wall-pass rules the travelled axis
//! wraps to the opposite edge. A playing tick checks, in order: food (on the
//! candidate head, before any wrap), self-collision (likewise on the
//! candidate head), then walls; if the player survives, the move is
//! committed.

use vstd::prelude::*;
use vstd::string::StringExecFns;
use rand::Rng;
use crate::constants::{GRID_X_SIZE, GRID_Y_SIZE};
use crate::data::text_data::{get_game_context_text, initial_display};
use crate::decimal::{dec_str, to_decimal};
use crate::entities::text_elements::{
    display_wf, mode_line_text, same_but_text, same_but_visible, score_text, TextDisplayModel,
    TextLine,
};

verus! {

/// How often the food spawner samples at random before it falls back to a
/// deterministic scan of the grid.
pub const SPAWN_RETRY_LIMIT: u32 = 100;

/// The lifecycle of one run. `Over` is terminal: only constructing a fresh
/// `GameContext` starts a new run.
#[derive(Clone, Copy, Debug, PartialEq, Eq, Structural)]
pub enum GameState {
    Playing,
    Paused,
    Over,
}

/// The direction the head moves on the next tick.
#[derive(Clone, Copy, Debug, PartialEq, Eq, Structural)]
pub enum PlayerDirection {
    Up,
    Down,
    Left,
    Right,
}

/// The wall rule in force.
#[derive(Clone, Copy, Debug, PartialEq, Eq, Structural)]
pub enum GameMode {
    Classic,
    WallPass,
}

/// The name painted on the mode display line.
pub open spec fn mode_text(m: GameMode) -> Seq<char> {
    match m {
        GameMode::Classic => "Classic"@,
        GameMode::WallPass => "Wall Pass"@,
    }
}

impl GameMode {
    /// The name painted on the mode display line.
    pub fn display_text(&self) -> (s: String)
        ensures
            s@ == mode_text(*self),
    {
        match self {
            GameMode::Classic => String::from_str("Classic"),
            GameMode::WallPass => String::from_str("Wall Pass"),
        }
    }
}

/// A grid cell, as a pair of integer coordinates.
#[derive(Clone, Copy, Debug, PartialEq, Eq, Structural)]
pub struct Point(pub i32, pub i32);

/// The cell lies on the grid.
pub open spec fn in_grid(p: Point) -> bool {
    &&& 0 <= p.0 < GRID_X_SIZE as i32
    &&& 0 <= p.1 < GRID_Y_SIZE as i32
}

/// Horizontal step of one tick in direction `d`.
pub open spec fn dx(d: PlayerDirection) -> int {
    match d {
        PlayerDirection::Left => -1,
        PlayerDirection::Right => 1,
        _ => 0,
    }
}

/// Vertical step of one tick in direction `d`.
pub open spec fn dy(d: PlayerDirection) -> int {
    match d {
        PlayerDirection::Up => -1,
        PlayerDirection::Down => 1,
        _ => 0,
    }
}

/// Whether `v` holds the cell `p`.
fn contains_point(v: &Vec<Point>, p: Point) -> (r: bool)
    ensures
        r == v@.contains(p),
{
    let mut i: usize = 0;
    while i < v.len()
        invariant
            i <= v@.len(),
            forall|j: int| 0 <= j < i ==> v@[j] != p,
        decreases v@.len() - i,
    {
        if v[i] == p {
            proof {
                assert(v@[i as int] == p);
            }
            return true;
        }
        i += 1;
    }
    false
}

/// An element-for-element copy of `v`.
fn clone_points(v: &Vec<Point>) -> (r: Vec<Point>)
    ensures
        r@ == v@,
{
    let mut r: Vec<Point> = Vec::new();
    let mut i: usize = 0;
    while i < v.len()
        invariant
            i <= v@.len(),
            r@ == v@.subrange(0, i as int),
        decreases v@.len() - i,
    {
        r.push(v[i]);
        proof {
            assert(r@ =~= v@.subrange(0, i + 1));
        }
        i += 1;
    }
    proof {
        assert(r@ =~= v@);
    }
    r
}

/// Relies on `rand::Rng::gen_range` over the half-open range `0..n`: the
/// result is uniformly random in that range. The call panics only on an
/// empty range, which the precondition rules out.
#[verifier::external_body]
fn random_below(n: u32) -> (r: u32)
    requires
        n > 0,
    ensures
        r < n,
{
    rand::thread_rng().gen_range(0..n)
}

impl Point {
    /// A uniformly random cell of the grid.
    fn new() -> (p: Point)
        ensures
            in_grid(p),
    {
        let rnd_x = random_below(GRID_X_SIZE);
        let rnd_y = random_below(GRID_Y_SIZE);
        Point(rnd_x as i32, rnd_y as i32)
    }

    /// A grid cell outside `no_intersect`: sampled at random, by a bounded
    /// number of draws; when the grid is nearly full, found by a scan
    /// instead. `None` exactly when every grid cell is in `no_intersect`.
    pub fn new_no_intersect(no_intersect: &Vec<Point>) -> (r: Option<Point>)
        ensures
            match r {
                Some(p) => in_grid(p) && !no_intersect@.contains(p),
                None => forall|p: Point| in_grid(p) ==> no_intersect@.contains(p),
            },
    {
        let mut attempts: u32 = 0;
        while attempts < SPAWN_RETRY_LIMIT
            decreases SPAWN_RETRY_LIMIT - attempts,
        {
            let candidate = Point::new();
            if !contains_point(no_intersect, candidate) {
                return Some(candidate);
            }
            attempts += 1;
        }
        let mut y: u32 = 0;
        while y < GRID_Y_SIZE
            invariant
                y <= GRID_Y_SIZE,
                forall|p: Point| in_grid(p) && p.1 < y ==> no_intersect@.contains(p),
            decreases GRID_Y_SIZE - y,
        {
            let mut x: u32 = 0;
            while x < GRID_X_SIZE
                invariant
                    x <= GRID_X_SIZE,
                    y < GRID_Y_SIZE,
                    forall|p: Point| in_grid(p) && p.1 < y ==> no_intersect@.contains(p),
                    forall|p: Point|
                        in_grid(p) && p.1 == y && p.0 < x ==> no_intersect@.contains(p),
                decreases GRID_X_SIZE - x,
            {
                let candidate = Point(x as i32, y as i32);
                if !contains_point(no_intersect, candidate) {
                    return Some(candidate);
                }
                x += 1;
            }
            y += 1;
        }
        None
    }

    /// Componentwise vector addition.
    pub fn add(self, rhs: Point) -> (r: Point)
        requires
            i32::MIN <= self.0 + rhs.0 <= i32::MAX,
            i32::MIN <= self.1 + rhs.1 <= i32::MAX,
        ensures
            r.0 == self.0 + rhs.0,
            r.1 == self.1 + rhs.1,
    {
        Point(self.0 + rhs.0, self.1 + rhs.1)
    }
}

impl Default for Point {
    /// A uniformly random cell of the grid.
    fn default() -> (p: Point)
        ensures
            in_grid(p),
    {
        Self::new()
    }
}

/// The simulation: snake, food, state, mode, score, and the display model
/// kept in step with them.
#[derive(Debug)]
pub struct GameContext {
    pub player_position: Vec<Point>,
    pub player_direction: PlayerDirection,
    pub food: Point,
    pub state: GameState,
    pub mode: GameMode,
    pub score: usize,
    pub text_elements: TextDisplayModel,
}

/// Pausing swaps `Playing` and `Paused`; `Over` is untouched.
pub open spec fn toggled_pause(s: GameState) -> GameState {
    match s {
        GameState::Playing => GameState::Paused,
        GameState::Paused => GameState::Playing,
        GameState::Over => GameState::Over,
    }
}

/// The other wall rule.
pub open spec fn toggled_mode(m: GameMode) -> GameMode {
    match m {
        GameMode::Classic => GameMode::WallPass,
        GameMode::WallPass => GameMode::Classic,
    }
}

/// The three-segment starting body on the middle row.
pub open spec fn initial_body() -> Seq<Point> {
    seq![
        Point((GRID_X_SIZE / 2) as i32, (GRID_Y_SIZE / 2) as i32),
        Point((GRID_X_SIZE / 2 - 1) as i32, (GRID_Y_SIZE / 2) as i32),
        Point((GRID_X_SIZE / 2 - 2) as i32, (GRID_Y_SIZE / 2) as i32),
    ]
}

/// A freshly constructed simulation: paused, classic rules, score zero,
/// heading right, the starting body, food off the body, and the startup
/// display layout.
pub open spec fn is_initial(c: GameContext) -> bool {
    &&& c.state is Paused
    &&& c.mode is Classic
    &&& c.score == 0
    &&& c.player_direction is Right
    &&& c.player_position@ == initial_body()
    &&& in_grid(c.food)
    &&& !c.player_position@.contains(c.food)
    &&& initial_display(c.text_elements)
}

impl GameContext {
    /// The cell the first body segment occupies.
    pub open spec fn head(self) -> Point {
        self.player_position@[0]
    }

    /// Candidate next-head coordinates: the head moved one step in the
    /// pending direction, before any wall handling.
    pub open spec fn next_x(self) -> int {
        self.head().0 + dx(self.player_direction)
    }

    pub open spec fn next_y(self) -> int {
        self.head().1 + dy(self.player_direction)
    }

    /// The candidate head lands on the food cell.
    pub open spec fn eats(self) -> bool {
        self.next_x() == self.food.0 && self.next_y() == self.food.1
    }

    /// The candidate head lands on a current body segment.
    pub open spec fn hits_self(self) -> bool {
        exists|i: int|
            0 <= i < self.player_position@.len()
                && (#[trigger] self.player_position@[i]).0 == self.next_x()
                && self.player_position@[i].1 == self.next_y()
    }

    /// The candidate head lies on or beyond the grid boundary.
    pub open spec fn leaves_grid(self) -> bool {
        !(0 <= self.next_x() < GRID_X_SIZE as i32 && 0 <= self.next_y() < GRID_Y_SIZE as i32)
    }

    /// Wall-pass rules: the candidate x coordinate, with the travelled axis
    /// wrapped to the opposite edge where it crossed the boundary.
    pub open spec fn wrapped_x(self) -> int {
        match self.player_direction {
            PlayerDirection::Left => if self.next_x() == -1 {
                GRID_X_SIZE - 1
            } else {
                self.next_x()
            },
            PlayerDirection::Right => if self.next_x() == GRID_X_SIZE as i32 {
                0
            } else {
                self.next_x()
            },
            _ => self.next_x(),
        }
    }

    /// Wall-pass rules: the candidate y coordinate, wrapped like `wrapped_x`.
    pub open spec fn wrapped_y(self) -> int {
        match self.player_direction {
            PlayerDirection::Up => if self.next_y() == -1 {
                GRID_Y_SIZE - 1
            } else {
                self.next_y()
            },
            PlayerDirection::Down => if self.next_y() == GRID_Y_SIZE as i32 {
                0
            } else {
                self.next_y()
            },
            _ => self.next_y(),
        }
    }

    /// The head cell a surviving playing tick commits.
    pub open spec fn eff_x(self) -> int {
        if self.mode is WallPass {
            self.wrapped_x()
        } else {
            self.next_x()
        }
    }

    pub open spec fn eff_y(self) -> int {
        if self.mode is WallPass {
            self.wrapped_y()
        } else {
            self.next_y()
        }
    }

    /// The cell a surviving playing tick commits as the new head.
    pub open spec fn committed_head(self) -> Point {
        Point(self.eff_x() as i32, self.eff_y() as i32)
    }

    /// The body a surviving playing tick commits: the new head in front and,
    /// unless the tick ate, the tail dropped.
    pub open spec fn committed_body(self) -> Seq<Point> {
        if self.eats() {
            self.player_position@.insert(0, self.committed_head())
        } else {
            self.player_position@.drop_last().insert(0, self.committed_head())
        }
    }

    /// The cells a food respawn on an eating tick must avoid: the grown body
    /// (with its placeholder tail) and the incoming head.
    pub open spec fn grown_avoid(self) -> Seq<Point> {
        self.player_position@.push(Point(0, 0)).push(self.food)
    }

    /// After eating, no grid cell would be left for the food.
    pub open spec fn board_full_after_meal(self) -> bool {
        forall|p: Point| in_grid(p) ==> self.grown_avoid().contains(p)
    }

    /// A playing tick ends the game: self-collision, a classic wall hit, or
    /// no cell left for the food after eating.
    pub open spec fn dies(self) -> bool {
        ||| self.hits_self()
        ||| self.mode is Classic && self.leaves_grid()
        ||| self.eats() && self.board_full_after_meal()
    }

    /// The invariant every mutator preserves: the body and the food lie on
    /// the grid; until the game is over, the body is the three starting
    /// segments plus one per food eaten; and the display mirrors the state
    /// (score line text, pause and game-over visibility).
    pub open spec fn wf(self) -> bool {
        &&& forall|i: int|
            0 <= i < self.player_position@.len() ==> in_grid(#[trigger] self.player_position@[i])
        &&& in_grid(self.food)
        &&& !(self.state is Over) ==> self.player_position@.len() == self.score + 3
        &&& display_wf(self.text_elements)
        &&& score_text(self.text_elements) == dec_str(self.score as nat)
        &&& self.text_elements.pause_element.visible == (self.state is Paused)
        &&& self.text_elements.game_over_element.visible == (self.state is Over)
    }

    /// A fresh, paused simulation on the starting body, with food off the
    /// body.
    pub fn new() -> (c: GameContext)
        ensures
            c.wf(),
            is_initial(c),
    {
        let text_elements = get_game_context_text();
        let half_x = (GRID_X_SIZE / 2) as i32;
        let half_y = (GRID_Y_SIZE / 2) as i32;
        let mut player_position: Vec<Point> = Vec::new();
        player_position.push(Point(half_x, half_y));
        player_position.push(Point(half_x - 1, half_y));
        player_position.push(Point(half_x - 2, half_y));
        proof {
            assert(player_position@ =~= initial_body());
        }
        let food = match Point::new_no_intersect(&player_position) {
            Some(p) => p,
            None => {
                proof {
                    assert(in_grid(Point(0, 0)));
                    assert(forall|j: int|
                        0 <= j < player_position@.len() ==> player_position@[j] != Point(0, 0));
                    assert(false);
                }
                Point(0, 0)
            },
        };
        let c = GameContext {
            player_position,
            player_direction: PlayerDirection::Right,
            state: GameState::Paused,
            mode: GameMode::Classic,
            food,
            score: 0,
            text_elements,
        };
        proof {
            reveal_strlit("0");
            assert(dec_str(0) =~= "0"@);
        }
        c
    }

    /// Advances the simulation one tick.
    ///
    /// Paused: nothing happens. Over: the tail segment is popped until the
    /// body is gone (the death-shrink animation). Playing: the candidate
    /// head is the head moved one step; landing on the food grows the body
    /// by one, scores a point, rewrites the score line and respawns the food
    /// off the grown body and incoming head; the game ends on
    /// self-collision, on a classic wall hit, or when no cell is left for
    /// the food; otherwise the move is committed (new head in front, tail
    /// dropped).
    pub fn do_next_tick(&mut self)
        requires
            old(self).wf(),
        ensures
            final(self).wf(),
            final(self).player_direction == old(self).player_direction,
            final(self).mode == old(self).mode,
            final(self).text_elements.mode_element == old(self).text_elements.mode_element,
            final(self).text_elements.pause_element == old(self).text_elements.pause_element,
            old(self).state is Paused ==> *final(self) == *old(self),
            old(self).state is Over ==> ({
                &&& final(self).state is Over
                &&& final(self).score == old(self).score
                &&& final(self).food == old(self).food
                &&& final(self).text_elements == old(self).text_elements
                &&& final(self).player_position@ == if old(self).player_position@.len() > 0 {
                    old(self).player_position@.drop_last()
                } else {
                    old(self).player_position@
                }
            }),
            old(self).state is Playing ==> ({
                let c = *old(self);
                let n = *final(self);
                &&& n.state == if c.dies() {
                    GameState::Over
                } else {
                    GameState::Playing
                }
                &&& n.score == if c.eats() {
                    c.score + 1
                } else {
                    c.score as int
                }
                &&& c.eats() ==> same_but_text(
                    c.text_elements.score_element,
                    n.text_elements.score_element,
                ) && score_text(n.text_elements) == dec_str((c.score + 1) as nat)
                &&& !c.eats() ==> n.text_elements.score_element == c.text_elements.score_element
                &&& c.dies() ==> n.text_elements.game_over_element.visible == true
                    && same_but_visible(
                    c.text_elements.game_over_element,
                    n.text_elements.game_over_element,
                )
                &&& !c.dies() ==> n.text_elements.game_over_element
                    == c.text_elements.game_over_element
                &&& c.eats() && !c.board_full_after_meal() ==> in_grid(n.food)
                    && !c.grown_avoid().contains(n.food) && !n.player_position@.contains(n.food)
                &&& !(c.eats() && !c.board_full_after_meal()) ==> n.food == c.food
                &&& !c.dies() ==> n.player_position@ == c.committed_body()
                &&& c.eats() ==> c.committed_head() == c.food
                &&& c.dies() ==> n.player_position@ == if c.eats() {
                    c.player_position@.push(Point(0, 0))
                } else {
                    c.player_position@
                }
            }),
    {
        match self.state {
            GameState::Over => {
                if self.player_position.len() > 0 {
                    self.player_position.pop();
                }
            },
            GameState::Paused => {},
            GameState::Playing => {
                proof {
                    assert(in_grid(old(self).player_position@[0]));
                }
                let head = self.player_position[0];
                let nh = match self.player_direction {
                    PlayerDirection::Up => head.add(Point(0, -1)),
                    PlayerDirection::Down => head.add(Point(0, 1)),
                    PlayerDirection::Left => head.add(Point(-1, 0)),
                    PlayerDirection::Right => head.add(Point(1, 0)),
                };
                let ate = nh == self.food;
                let collided = contains_point(&self.player_position, nh);
                proof {
                    assert(collided == old(self).hits_self());
                }
                let mut alive = !collided;
                if ate {
                    let old_len = self.player_position.len();
                    proof {
                        assert(self.score + 3 == old_len);
                    }
                    self.player_position.push(Point(0, 0));
                    self.score = self.score + 1;
                    self.update_display_score();
                    let mut avoid = clone_points(&self.player_position);
                    avoid.push(nh);
                    proof {
                        assert(avoid@ == old(self).grown_avoid());
                    }
                    match Point::new_no_intersect(&avoid) {
                        Some(p) => {
                            self.food = p;
                        },
                        None => {
                            alive = false;
                        },
                    }
                }
                let nh2 = match self.mode {
                    GameMode::Classic => {
                        if nh.0 == -1 || nh.0 == GRID_X_SIZE as i32 || nh.1 == -1 || nh.1
                            == GRID_Y_SIZE as i32 {
                            alive = false;
                        }
                        nh
                    },
                    GameMode::WallPass => {
                        match self.player_direction {
                            PlayerDirection::Up => if nh.1 == -1 {
                                Point(nh.0, GRID_Y_SIZE as i32 - 1)
                            } else {
                                nh
                            },
                            PlayerDirection::Down => if nh.1 == GRID_Y_SIZE as i32 {
                                Point(nh.0, 0)
                            } else {
                                nh
                            },
                            PlayerDirection::Left => if nh.0 == -1 {
                                Point(GRID_X_SIZE as i32 - 1, nh.1)
                            } else {
                                nh
                            },
                            PlayerDirection::Right => if nh.0 == GRID_X_SIZE as i32 {
                                Point(0, nh.1)
                            } else {
                                nh
                            },
                        }
                    },
                };
                proof {
                    assert(alive == !old(self).dies());
                    assert(nh2.0 == old(self).eff_x() && nh2.1 == old(self).eff_y());
                }
                if !alive {
                    self.game_over();
                } else {
                    self.player_position.pop();
                    self.player_position.insert(0, nh2);
                    proof {
                        assert(old(self).committed_head() == nh2);
                        if old(self).eats() {
                            assert(self.player_position@ =~= old(self).player_position@.insert(
                                0,
                                nh2,
                            ));
                        }
                        assert(self.player_position@ =~= old(self).committed_body());
                    }
                }
                proof {
                    if old(self).eats() && !old(self).board_full_after_meal() {
                        assert forall|q: Point| self.player_position@.contains(q)
                            implies old(self).grown_avoid().contains(q) by {
                            let i = choose|i: int|
                                0 <= i < self.player_position@.len() && self.player_position@[i]
                                    == q;
                            if old(self).dies() {
                                assert(old(self).grown_avoid()[i] == q);
                            } else {
                                if i == 0 {
                                    assert(old(self).grown_avoid()[old(self).grown_avoid().len()
                                        - 1] == q);
                                } else {
                                    assert(old(self).grown_avoid()[i - 1] == q);
                                }
                            }
                        }
                    }
                }
            },
        }
    }

    /// Sets the direction the next tick will use. No validation happens
    /// here: reversing into the body is legal input, resolved by the
    /// self-collision check at tick time.
    pub fn move_player(&mut self, direction: PlayerDirection)
        requires
            old(self).wf(),
        ensures
            final(self).wf(),
            final(self).player_direction == direction,
            final(self).player_position == old(self).player_position,
            final(self).food == old(self).food,
            final(self).state == old(self).state,
            final(self).mode == old(self).mode,
            final(self).score == old(self).score,
            final(self).text_elements == old(self).text_elements,
    {
        self.player_direction = direction;
    }

    /// Swaps `Playing` and `Paused` and mirrors the new state on the pause
    /// overlay; when the game is over, nothing changes.
    pub fn toggle_pause(&mut self)
        requires
            old(self).wf(),
        ensures
            final(self).wf(),
            final(self).state == toggled_pause(old(self).state),
            old(self).state is Over ==> *final(self) == *old(self),
            final(self).player_position == old(self).player_position,
            final(self).player_direction == old(self).player_direction,
            final(self).food == old(self).food,
            final(self).mode == old(self).mode,
            final(self).score == old(self).score,
            final(self).text_elements.score_element == old(self).text_elements.score_element,
            final(self).text_elements.mode_element == old(self).text_elements.mode_element,
            final(self).text_elements.game_over_element
                == old(self).text_elements.game_over_element,
            same_but_visible(
                old(self).text_elements.pause_element,
                final(self).text_elements.pause_element,
            ),
            final(self).text_elements.pause_element.visible == (final(self).state is Paused),
    {
        self.state = match self.state {
            GameState::Playing => GameState::Paused,
            GameState::Paused => GameState::Playing,
            GameState::Over => GameState::Over,
        };
        let paused = match self.state {
            GameState::Paused => true,
            _ => false,
        };
        self.text_elements.pause_element.visible = paused;
    }

    /// Flips the wall rule, resets the score to zero, truncates the body to
    /// its three-segment starting size, and rewrites the score and mode
    /// lines — whatever the current game state.
    pub fn toggle_mode(&mut self)
        requires
            old(self).wf(),
        ensures
            final(self).wf(),
            final(self).mode == toggled_mode(old(self).mode),
            final(self).score == 0,
            final(self).state == old(self).state,
            final(self).player_direction == old(self).player_direction,
            final(self).food == old(self).food,
            final(self).player_position@ == if old(self).player_position@.len() >= 3 {
                old(self).player_position@.subrange(0, 3)
            } else {
                old(self).player_position@
            },
            final(self).text_elements.pause_element == old(self).text_elements.pause_element,
            final(self).text_elements.game_over_element
                == old(self).text_elements.game_over_element,
            same_but_text(
                old(self).text_elements.score_element,
                final(self).text_elements.score_element,
            ),
            score_text(final(self).text_elements) == dec_str(0),
            same_but_text(
                old(self).text_elements.mode_element,
                final(self).text_elements.mode_element,
            ),
            mode_line_text(final(self).text_elements) == mode_text(final(self).mode),
    {
        self.mode = match self.mode {
            GameMode::WallPass => GameMode::Classic,
            GameMode::Classic => GameMode::WallPass,
        };
        self.score = 0;
        self.player_position.truncate(3);
        self.update_display_score();
        self.update_display_game_mode();
    }

    /// Ends the game: state to `Over`, game-over overlay shown.
    fn game_over(&mut self)
        ensures
            final(self).state is Over,
            final(self).player_position == old(self).player_position,
            final(self).player_direction == old(self).player_direction,
            final(self).food == old(self).food,
            final(self).mode == old(self).mode,
            final(self).score == old(self).score,
            final(self).text_elements.score_element == old(self).text_elements.score_element,
            final(self).text_elements.mode_element == old(self).text_elements.mode_element,
            final(self).text_elements.pause_element == old(self).text_elements.pause_element,
            final(self).text_elements.game_over_element.visible == true,
            same_but_visible(
                old(self).text_elements.game_over_element,
                final(self).text_elements.game_over_element,
            ),
    {
        self.state = GameState::Over;
        self.text_elements.game_over_element.visible = true;
    }

    /// Rewrites the score line to the current score's decimal numeral.
    fn update_display_score(&mut self)
        requires
            display_wf(old(self).text_elements),
        ensures
            final(self).player_position == old(self).player_position,
            final(self).player_direction == old(self).player_direction,
            final(self).food == old(self).food,
            final(self).state == old(self).state,
            final(self).mode == old(self).mode,
            final(self).score == old(self).score,
            final(self).text_elements.mode_element == old(self).text_elements.mode_element,
            final(self).text_elements.pause_element == old(self).text_elements.pause_element,
            final(self).text_elements.game_over_element
                == old(self).text_elements.game_over_element,
            same_but_text(
                old(self).text_elements.score_element,
                final(self).text_elements.score_element,
            ),
            score_text(final(self).text_elements) == dec_str(old(self).score as nat),
            display_wf(final(self).text_elements),
    {
        let text = to_decimal(self.score);
        let vertical_order = self.text_elements.score_element.lines[0].vertical_order;
        let position = self.text_elements.score_element.lines[0].position;
        let alignment = self.text_elements.score_element.lines[0].alignment;
        let font = self.text_elements.score_element.lines[0].font;
        self.text_elements.score_element.lines[0] = TextLine {
            vertical_order,
            position,
            alignment,
            font,
            text,
        };
    }

    /// Rewrites the mode line to the current mode's name.
    fn update_display_game_mode(&mut self)
        requires
            display_wf(old(self).text_elements),
        ensures
            final(self).player_position == old(self).player_position,
            final(self).player_direction == old(self).player_direction,
            final(self).food == old(self).food,
            final(self).state == old(self).state,
            final(self).mode == old(self).mode,
            final(self).score == old(self).score,
            final(self).text_elements.score_element == old(self).text_elements.score_element,
            final(self).text_elements.pause_element == old(self).text_elements.pause_element,
            final(self).text_elements.game_over_element
                == old(self).text_elements.game_over_element,
            same_but_text(
                old(self).text_elements.mode_element,
                final(self).text_elements.mode_element,
            ),
            mode_line_text(final(self).text_elements) == mode_text(old(self).mode),
            display_wf(final(self).text_elements),
    {
        let text = self.mode.display_text();
        let vertical_order = self.text_elements.mode_element.lines[0].vertical_order;
        let position = self.text_elements.mode_element.lines[0].position;
        let alignment = self.text_elements.mode_element.lines[0].alignment;
        let font = self.text_elements.mode_element.lines[0].font;
        self.text_elements.mode_element.lines[0] = TextLine {
            vertical_order,
            position,
            alignment,
            font,
            text,
        };
    }
}

impl Default for GameContext {
    /// A fresh, paused simulation, as `GameContext::new` builds it.
    fn default() -> (c: GameContext)
        ensures
            c.wf(),
            is_initial(c),
    {
        Self::new()
    }
}

/// Law: toggling pause swaps `Playing` and `Paused`, so toggling twice
/// returns to the start — for either of those two states.
pub proof fn lemma_toggle_pause_alternates(s: GameState)
    requires
        s is Playing || s is Paused,
    ensures
        toggled_pause(s) != s,
        toggled_pause(toggled_pause(s)) == s,
{
}

/// Law: while the invariant holds, the score line always shows the decimal
/// numeral of the current score.
pub proof fn lemma_score_display(c: GameContext)
    requires
        c.wf(),
    ensures
        score_text(c.text_elements) == dec_str(c.score as nat),
{
}

/// Law: under classic rules, a playing tick whose candidate head is on or
/// beyond the boundary ends the game.
pub proof fn lemma_classic_wall_ends_game(c: GameContext)
    requires
        c.wf(),
        c.state is Playing,
        c.mode is Classic,
        c.leaves_grid(),
    ensures
        c.dies(),
{
}

/// Law: a surviving playing tick on a duplicate-free body commits a
/// duplicate-free body, as long as no wall-pass wrap was involved. (The tick
/// checks self-collision on the candidate head before wrapping, so a wrapped
/// head may land on a retained segment; that is the one exception.)
pub proof fn lemma_commit_keeps_distinct(c: GameContext)
    requires
        c.wf(),
        c.state is Playing,
        !c.dies(),
        !(c.mode is WallPass && c.leaves_grid()),
        c.player_position@.no_duplicates(),
    ensures
        c.committed_body().no_duplicates(),
{
    let body = c.player_position@;
    let head = c.committed_head();
    assert(c.eff_x() == c.next_x() && c.eff_y() == c.next_y());
    assert(head.0 == c.next_x() && head.1 == c.next_y());
    assert(forall|i: int| 0 <= i < body.len() ==> (#[trigger] body[i]) != head) by {
        assert(!c.hits_self());
    }
    let base = if c.eats() {
        body
    } else {
        body.drop_last()
    };
    let committed = c.committed_body();
    assert(committed == base.insert(0, head));
    assert(committed.len() == base.len() + 1);
    assert(forall|k: int| 1 <= k < committed.len() ==> committed[k] == base[k - 1]);
    assert forall|i: int, j: int|
        0 <= i < committed.len() && 0 <= j < committed.len() && i != j implies committed[i]
        != committed[j] by {
        if i == 0 {
            assert(committed[j] == base[j - 1] && base[j - 1] == body[j - 1]);
        } else if j == 0 {
            assert(committed[i] == base[i - 1] && base[i - 1] == body[i - 1]);
        } else {
            assert(committed[i] == body[i - 1] && committed[j] == body[j - 1]);
        }
    }
}

/// Law: under wall-pass rules, a candidate head that has left the grid
/// neither eats nor collides nor ends the game; the committed head is the
/// wrapped cell, back on the grid.
pub proof fn lemma_wallpass_wrap_keeps_playing(c: GameContext)
    requires
        c.wf(),
        c.state is Playing,
        c.mode is WallPass,
        c.leaves_grid(),
    ensures
        !c.eats(),
        !c.hits_self(),
        !c.dies(),
        0 <= c.eff_x() < GRID_X_SIZE as i32,
        0 <= c.eff_y() < GRID_Y_SIZE as i32,
{
    assert(in_grid(c.player_position@[0]));
    if c.hits_self() {
        let i = choose|i: int|
            0 <= i < c.player_position@.len() && (#[trigger] c.player_position@[i]).0
                == c.next_x() && c.player_position@[i].1 == c.next_y();
        assert(in_grid(c.player_position@[i]));
        assert(false);
    }
}

} // verus!
