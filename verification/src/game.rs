//! The game state and its rules: construction, steering, the tick, and the
//! placing of food.

use crate::chance::random_below;
use crate::geometry::{Direction, Position};
use crate::input::Key;
use std::collections::VecDeque;
use vstd::prelude::*;

verus! {

/// Tick interval of a fresh game, in milliseconds.
pub const INITIAL_TICK_MS: u64 = 150;

/// The tick interval never drops below this, in milliseconds.
pub const MIN_TICK_MS: u64 = 80;

/// How much faster the game ticks after each food eaten, in milliseconds.
pub const TICK_STEP_MS: u64 = 2;

/// Points earned per food eaten.
pub const FOOD_REWARD: u32 = 10;

/// How many random cells are tried for the food before the free cells are
/// listed and one of them is drawn.
pub const FOOD_TRIES: u32 = 32;

/// A game of snake on a `width` by `height` grid.
///
/// The snake's head is the front of `snake`. `direction` is the direction of
/// the last tick; `next_direction` is the one the next tick will take.
#[derive(Debug, Clone, PartialEq, Eq)]
pub struct Game {
    pub snake: VecDeque<Position>,
    pub direction: Direction,
    pub next_direction: Direction,
    pub food: Position,
    pub score: u32,
    pub game_over: bool,
    pub width: i32,
    pub height: i32,
    pub speed_ms: u64,
}

/// The tick interval after one more food: two milliseconds less, but never
/// below the floor.
pub open spec fn faster(speed_ms: u64) -> u64 {
    if speed_ms >= MIN_TICK_MS + TICK_STEP_MS {
        (speed_ms - TICK_STEP_MS) as u64
    } else {
        MIN_TICK_MS
    }
}

impl Game {
    /// Whether `p` lies on the board.
    pub open spec fn in_bounds(&self, p: Position) -> bool {
        0 <= p.x < self.width && 0 <= p.y < self.height
    }

    /// Whether `p` lies on the board and the snake does not cover it.
    pub open spec fn is_free(&self, p: Position) -> bool {
        self.in_bounds(p) && !self.snake@.contains(p)
    }

    /// Whether the snake covers every cell of the board.
    pub open spec fn board_full(&self) -> bool {
        forall|p: Position| self.in_bounds(p) ==> #[trigger] self.snake@.contains(p)
    }

    /// What holds of the board and the snake in every game: the board has a
    /// cell, the snake has a head on the board, no cell holds two segments,
    /// and the tick interval is between its floor and its initial value.
    pub open spec fn body_wf(&self) -> bool {
        &&& self.width >= 1
        &&& self.height >= 1
        &&& self.snake@.len() >= 1
        &&& self.in_bounds(self.snake@[0])
        &&& self.snake@.no_duplicates()
        &&& MIN_TICK_MS <= self.speed_ms <= INITIAL_TICK_MS
    }

    /// What holds of every game: `body_wf`, the food is on the board, and the
    /// food is off the snake, unless the game ended because the snake covers
    /// the whole board.
    pub open spec fn wf(&self) -> bool {
        &&& self.body_wf()
        &&& self.in_bounds(self.food)
        &&& (!self.snake@.contains(self.food) || (self.game_over && self.board_full()))
    }

    /// Where the head will be after the next tick.
    pub open spec fn next_head(&self) -> Position {
        self.snake@[0].moved(self.next_direction)
    }

    /// Whether the next tick ends the game: the head would leave the board or
    /// run into a cell of the snake, the tail's cell included.
    pub open spec fn crashes(&self) -> bool {
        !self.in_bounds(self.next_head()) || self.snake@.contains(self.next_head())
    }

    /// Whether the next tick eats the food.
    pub open spec fn eats(&self) -> bool {
        !self.crashes() && self.next_head() == self.food
    }

    /// Whether the next tick moves the snake onto the food: the game runs
    /// and the head's next cell holds it.
    pub open spec fn grows(&self) -> bool {
        !self.game_over && self.eats()
    }

    /// The snake after the next tick. A finished game and a crash leave it;
    /// a tick that eats puts the new head in front; any other tick does so
    /// and drops the tail.
    pub open spec fn snake_after_tick(&self) -> Seq<Position> {
        if self.game_over || self.crashes() {
            self.snake@
        } else if self.eats() {
            seq![self.next_head()] + self.snake@
        } else {
            seq![self.next_head()] + self.snake@.drop_last()
        }
    }

    /// The score after the next tick: the reward more if it eats.
    pub open spec fn score_after_tick(&self) -> int {
        if self.grows() {
            self.score + FOOD_REWARD
        } else {
            self.score as int
        }
    }

    /// The tick interval after the next tick: shortened if it eats.
    pub open spec fn speed_after_tick(&self) -> u64 {
        if self.grows() {
            faster(self.speed_ms)
        } else {
            self.speed_ms
        }
    }

    /// Whether `update` may be called: the game is well formed, and a tick
    /// that eats leaves the score within its type.
    pub open spec fn tick_allowed(&self) -> bool {
        &&& self.wf()
        &&& self.grows() ==> self.score <= u32::MAX - FOOD_REWARD
    }

    /// The pending direction after `key`: an arrow replaces it unless it asks
    /// for the reverse of the direction of the last tick; other keys leave it.
    pub open spec fn steered(&self, key: Key) -> Direction {
        match key.arrow() {
            Some(d) => if d == self.direction.reverse() {
                self.next_direction
            } else {
                d
            },
            None => self.next_direction,
        }
    }

    /// The start of a game on an empty board: three segments in the middle
    /// row, head rightmost, heading right.
    pub open spec fn initial_snake(width: i32, height: i32) -> Seq<Position> {
        seq![
            Position { x: (width / 2) as i32, y: (height / 2) as i32 },
            Position { x: (width / 2 - 1) as i32, y: (height / 2) as i32 },
            Position { x: (width / 2 - 2) as i32, y: (height / 2) as i32 },
        ]
    }

    /// Starts a game on a `width` by `height` board. The food lands on a free
    /// cell; on a board so small that the snake leaves none, the game is over
    /// from the start.
    pub fn new(width: i32, height: i32) -> (game: Game)
        requires
            width >= 1,
            height >= 1,
        ensures
            game.wf(),
            game.width == width,
            game.height == height,
            game.snake@ == Self::initial_snake(width, height),
            game.direction == Direction::Right,
            game.next_direction == Direction::Right,
            game.score == 0,
            game.speed_ms == INITIAL_TICK_MS,
            game.game_over == game.board_full(),
            !game.game_over ==> game.is_free(game.food),
            game.game_over ==> game.food == (Position { x: 0, y: 0 }),
    {
        let mut snake: VecDeque<Position> = VecDeque::new();
        let start = Position { x: width / 2, y: height / 2 };
        snake.push_back(start);
        snake.push_back(Position { x: start.x - 1, y: start.y });
        snake.push_back(Position { x: start.x - 2, y: start.y });
        assert(snake@ =~= Self::initial_snake(width, height));
        let mut game = Game {
            snake,
            direction: Direction::Right,
            next_direction: Direction::Right,
            food: Position { x: 0, y: 0 },
            score: 0,
            game_over: false,
            width,
            height,
            speed_ms: INITIAL_TICK_MS,
        };
        game.spawn_food();
        game
    }

    /// Returns whether the next tick is due, `elapsed_ms` milliseconds after
    /// the last one.
    pub fn tick_due(&self, elapsed_ms: u128) -> (due: bool)
        ensures
            due == (elapsed_ms >= self.speed_ms),
    {
        elapsed_ms >= self.speed_ms as u128
    }

    /// Returns whether `p` lies on the board.
    pub fn on_board(&self, p: Position) -> (inside: bool)
        ensures
            inside == self.in_bounds(p),
    {
        0 <= p.x && p.x < self.width && 0 <= p.y && p.y < self.height
    }

    /// Returns whether a segment of the snake lies on `p`.
    pub fn occupies(&self, p: Position) -> (hit: bool)
        ensures
            hit == self.snake@.contains(p),
    {
        let mut i: usize = 0;
        while i < self.snake.len()
            invariant
                i <= self.snake@.len(),
                forall|k: int| 0 <= k < i ==> self.snake@[k] != p,
            decreases self.snake@.len() - i,
        {
            if self.snake[i] == p {
                return true;
            }
            i += 1;
        }
        false
    }

    /// Returns whether no two segments of the snake share a cell.
    pub fn segments_distinct(&self) -> (ok: bool)
        ensures
            ok == self.snake@.no_duplicates(),
    {
        let n: usize = self.snake.len();
        let mut i: usize = 0;
        while i < n
            invariant
                n == self.snake@.len(),
                i <= n,
                forall|a: int, b: int|
                    0 <= a < i && a < b < n ==> self.snake@[a] != self.snake@[b],
            decreases n - i,
        {
            let mut j: usize = i + 1;
            while j < n
                invariant
                    n == self.snake@.len(),
                    i < j <= n,
                    forall|b: int| i < b < j ==> self.snake@[i as int] != self.snake@[b],
                decreases n - j,
            {
                if self.snake[i] == self.snake[j] {
                    return false;
                }
                j += 1;
            }
            i += 1;
        }
        true
    }

    /// Returns whether this game is well formed, as `wf` says.
    pub fn is_well_formed(&self) -> (ok: bool)
        ensures
            ok == self.wf(),
    {
        if self.width < 1 || self.height < 1 || self.snake.len() == 0 {
            return false;
        }
        if self.speed_ms < MIN_TICK_MS || self.speed_ms > INITIAL_TICK_MS {
            return false;
        }
        if !self.on_board(self.snake[0]) || !self.on_board(self.food) {
            return false;
        }
        if !self.segments_distinct() {
            return false;
        }
        if self.occupies(self.food) {
            if !self.game_over {
                return false;
            }
            let cells = self.free_cells();
            proof {
                if cells@.len() > 0 {
                    assert(cells@.contains(cells@[0]));
                } else {
                    assert forall|p: Position| self.in_bounds(p) implies #[trigger] self.snake@.contains(
                        p,
                    ) by {
                        assert(!cells@.contains(p));
                    }
                }
            }
            return cells.len() == 0;
        }
        true
    }

    /// Lists the free cells of the board, row by row, each row from column 0
    /// upwards.
    pub fn free_cells(&self) -> (cells: Vec<Position>)
        ensures
            forall|p: Position| #[trigger] cells@.contains(p) <==> self.is_free(p),
            forall|i: int, j: int|
                0 <= i < j < cells@.len() ==> (#[trigger] cells@[i]).precedes(#[trigger] cells@[j]),
    {
        let mut cells: Vec<Position> = Vec::new();
        let mut y: i32 = 0;
        while y < self.height
            invariant
                0 <= y,
                forall|i: int|
                    0 <= i < cells@.len() ==> self.is_free(#[trigger] cells@[i]) && cells@[i].y < y,
                forall|p: Position|
                    self.is_free(p) && p.y < y ==> #[trigger] cells@.contains(p),
                forall|i: int, j: int|
                    0 <= i < j < cells@.len() ==> (#[trigger] cells@[i]).precedes(
                        #[trigger] cells@[j],
                    ),
            decreases self.height - y,
        {
            let mut x: i32 = 0;
            while x < self.width
                invariant
                    0 <= x,
                    0 <= y < self.height,
                    forall|i: int|
                        0 <= i < cells@.len() ==> self.is_free(#[trigger] cells@[i]) && (cells@[i].y
                            < y || (cells@[i].y == y && cells@[i].x < x)),
                    forall|p: Position|
                        self.is_free(p) && (p.y < y || (p.y == y && p.x < x))
                            ==> #[trigger] cells@.contains(p),
                    forall|i: int, j: int|
                        0 <= i < j < cells@.len() ==> (#[trigger] cells@[i]).precedes(
                            #[trigger] cells@[j],
                        ),
                decreases self.width - x,
            {
                let p = Position { x, y };
                if !self.occupies(p) {
                    let ghost before = cells@;
                    cells.push(p);
                    proof {
                        assert(cells@[before.len() as int] == p);
                        assert forall|q: Position|
                            self.is_free(q) && (q.y < y || (q.y == y && q.x < x + 1))
                                implies #[trigger] cells@.contains(q) by {
                            if q != p {
                                assert(before.contains(q));
                                let k = choose|k: int| 0 <= k < before.len() && before[k] == q;
                                assert(cells@[k] == q);
                            }
                        }
                    }
                }
                x += 1;
            }
            y += 1;
        }
        cells
    }

    /// Puts the food on `cells[pick]`; with no cell to choose from, ends the
    /// game and leaves the food where it is.
    pub fn place_food(&mut self, cells: &Vec<Position>, pick: usize)
        requires
            cells@.len() > 0 ==> pick < cells@.len(),
        ensures
            cells@.len() > 0 ==> *final(self) == (Game { food: cells@[pick as int], ..*old(self) }),
            cells@.len() == 0 ==> *final(self) == (Game { game_over: true, ..*old(self) }),
            old(self).wf() && (forall|i: int|
                0 <= i < cells@.len() ==> old(self).is_free(#[trigger] cells@[i]))
                ==> final(self).wf(),
    {
        if cells.len() == 0 {
            self.game_over = true;
        } else {
            self.food = cells[pick];
        }
    }

    /// Puts the food on `p` if `p` is a free cell of the board, and says
    /// whether it did.
    pub fn try_food(&mut self, p: Position) -> (taken: bool)
        ensures
            taken == old(self).is_free(p),
            taken ==> *final(self) == (Game { food: p, ..*old(self) }),
            !taken ==> *final(self) == *old(self),
            old(self).wf() ==> final(self).wf(),
    {
        if self.on_board(p) && !self.occupies(p) {
            self.food = p;
            true
        } else {
            false
        }
    }

    /// Moves the food to a free cell chosen at random. When the snake covers
    /// the whole board there is no such cell: the game ends and the food
    /// stays.
    ///
    /// Random cells of the board are tried first, `FOOD_TRIES` of them at
    /// most. If the snake covers them all, the free cells are listed and one
    /// of the list is drawn.
    pub fn spawn_food(&mut self)
        ensures
            !old(self).board_full() ==> final(self).is_free(final(self).food) && *final(self) == (
            Game { food: final(self).food, ..*old(self) }),
            old(self).board_full() ==> *final(self) == (Game { game_over: true, ..*old(self) }),
            old(self).body_wf() && old(self).in_bounds(old(self).food) ==> final(self).wf(),
    {
        if self.width >= 1 && self.height >= 1 {
            let mut tries: u32 = 0;
            while tries < FOOD_TRIES
                invariant
                    *self == *old(self),
                    self.width >= 1,
                    self.height >= 1,
                decreases FOOD_TRIES - tries,
            {
                let x: usize = random_below(self.width as usize);
                let y: usize = random_below(self.height as usize);
                let p = Position { x: x as i32, y: y as i32 };
                if self.try_food(p) {
                    proof {
                        assert(old(self).in_bounds(p) && !old(self).snake@.contains(p));
                    }
                    return ;
                }
                tries += 1;
            }
        }
        let cells = self.free_cells();
        let pick: usize = if cells.len() > 0 {
            random_below(cells.len())
        } else {
            0
        };
        proof {
            if cells@.len() > 0 {
                assert(cells@.contains(cells@[pick as int]));
                assert(self.in_bounds(cells@[pick as int]));
            } else {
                assert forall|p: Position| self.in_bounds(p) implies #[trigger] self.snake@.contains(
                    p,
                ) by {
                    assert(!cells@.contains(p));
                }
            }
        }
        self.place_food(&cells, pick);
    }

    /// Queues a change of direction. An arrow key sets the pending direction,
    /// unless it asks for the reverse of the direction of the last tick; any
    /// other key changes nothing.
    pub fn handle_input(&mut self, key: Key)
        ensures
            *final(self) == (Game { next_direction: old(self).steered(key), ..*old(self) }),
            old(self).wf() ==> final(self).wf(),
            key.arrow() == Some(old(self).direction.reverse()) ==> final(self).next_direction
                == old(self).next_direction,
    {
        match key.direction() {
            Some(d) => {
                if d != self.direction.opposite() {
                    self.next_direction = d;
                }
            },
            None => {},
        }
    }

    /// Returns whether `update` may be called on this game.
    pub fn can_update(&self) -> (ok: bool)
        ensures
            ok == self.tick_allowed(),
    {
        if !self.is_well_formed() {
            return false;
        }
        if self.game_over || self.score <= u32::MAX - FOOD_REWARD {
            return true;
        }
        let new_head = self.snake[0].step(self.next_direction);
        !(self.on_board(new_head) && !self.occupies(new_head) && new_head == self.food)
    }

    /// Advances the game by one tick.
    ///
    /// A finished game stays as it is. Otherwise the pending direction is
    /// taken and the head moves one cell. If that cell is off the board or on
    /// the snake, the game ends and the snake stays. If it holds the food,
    /// the snake grows by the new head, the score rises by the reward, the
    /// tick interval shortens, and new food is placed. Otherwise the snake
    /// shifts: the new head joins and the tail leaves.
    pub fn update(&mut self)
        requires
            old(self).tick_allowed(),
        ensures
            final(self).wf(),
            final(self).width == old(self).width,
            final(self).height == old(self).height,
            old(self).game_over ==> *final(self) == *old(self),
            !old(self).game_over ==> final(self).direction == old(self).next_direction
                && final(self).next_direction == old(self).next_direction,
            !old(self).game_over && old(self).crashes() ==> *final(self) == (Game {
                direction: old(self).next_direction,
                game_over: true,
                ..*old(self)
            }),
            final(self).snake@ == old(self).snake_after_tick(),
            final(self).score == old(self).score_after_tick(),
            final(self).speed_ms == old(self).speed_after_tick(),
            !old(self).game_over && !old(self).crashes() && !old(self).eats() ==> {
                &&& final(self).food == old(self).food
                &&& !final(self).game_over
            },
            old(self).grows() ==> {
                &&& final(self).game_over == final(self).board_full()
                &&& !final(self).game_over ==> final(self).is_free(final(self).food)
                &&& final(self).game_over ==> final(self).food == old(self).food
            },
            final(self).snake@.len() == old(self).snake@.len() + (if old(self).grows() {
                1int
            } else {
                0int
            }),
            final(self).score >= old(self).score,
            MIN_TICK_MS <= final(self).speed_ms <= old(self).speed_ms,
    {
        if self.game_over {
            return ;
        }
        self.direction = self.next_direction;
        let head = self.snake[0];
        let new_head = head.step(self.direction);
        if !self.on_board(new_head) || self.occupies(new_head) {
            self.game_over = true;
            return ;
        }
        let ghost before = self.snake@;
        self.snake.push_front(new_head);
        proof {
            lemma_grown(before, new_head);
        }
        if new_head == self.food {
            self.score += FOOD_REWARD;
            self.spawn_food();
            if self.speed_ms >= MIN_TICK_MS + TICK_STEP_MS {
                self.speed_ms = self.speed_ms - TICK_STEP_MS;
            } else {
                self.speed_ms = MIN_TICK_MS;
            }
        } else {
            self.snake.pop_back();
            proof {
                lemma_shifted(before, new_head);
                assert(self.snake@ =~= seq![new_head] + before.drop_last());
            }
        }
    }
}

/// While a game runs, the food lies on the board and off the snake.
pub proof fn lemma_food_off_snake(game: Game)
    requires
        game.wf(),
        !game.game_over,
    ensures
        game.is_free(game.food),
        !game.snake@.contains(game.food),
{
}

/// The food lies under the snake only in a game that has ended with the snake
/// covering the whole board.
pub proof fn lemma_food_under_snake_means_full(game: Game)
    requires
        game.wf(),
        game.snake@.contains(game.food),
    ensures
        game.game_over,
        game.board_full(),
{
}

/// No two segments of the snake share a cell.
pub proof fn lemma_segments_distinct(game: Game, i: int, j: int)
    requires
        game.wf(),
        0 <= i < game.snake@.len(),
        0 <= j < game.snake@.len(),
        i != j,
    ensures
        game.snake@[i] != game.snake@[j],
{
}

/// A tick keeps the segments of the snake distinct, whatever the score,
/// the food and the tick interval are.
pub proof fn lemma_tick_keeps_segments_distinct(game: Game)
    requires
        game.snake@.len() >= 1,
        game.snake@.no_duplicates(),
    ensures
        game.snake_after_tick().no_duplicates(),
{
    if !game.game_over && !game.crashes() {
        lemma_grown(game.snake@, game.next_head());
        lemma_shifted(game.snake@, game.next_head());
    }
}

/// The snake never shrinks: a tick that eats makes it one segment longer,
/// any other tick leaves its length. With the food on the board and off the
/// snake, a running game eats exactly when the head's next cell is the
/// food's.
pub proof fn lemma_tick_length(game: Game)
    requires
        game.snake@.len() >= 1,
    ensures
        game.snake_after_tick().len() == game.snake@.len() + (if game.grows() {
            1int
        } else {
            0int
        }),
        game.snake_after_tick().len() >= game.snake@.len(),
        game.is_free(game.food) ==> (game.grows() <==> !game.game_over && game.next_head()
            == game.food),
{
}

/// The score never drops: a tick that eats adds the reward, any other tick
/// leaves the score.
pub proof fn lemma_tick_score(game: Game)
    ensures
        game.score_after_tick() == game.score + (if game.grows() {
            FOOD_REWARD as int
        } else {
            0int
        }),
        game.score_after_tick() >= game.score,
{
}

/// The tick interval never grows and never drops below the floor: a tick
/// that eats takes the step off, down to the floor; any other tick leaves
/// the interval.
pub proof fn lemma_tick_speed(game: Game)
    requires
        game.speed_ms >= MIN_TICK_MS,
    ensures
        MIN_TICK_MS <= game.speed_after_tick() <= game.speed_ms,
        game.grows() ==> game.speed_after_tick() == (if game.speed_ms - TICK_STEP_MS
            >= MIN_TICK_MS {
            game.speed_ms - TICK_STEP_MS
        } else {
            MIN_TICK_MS as int
        }),
        !game.grows() ==> game.speed_after_tick() == game.speed_ms,
{
}

/// A tick that does not eat leaves the food off the snake.
pub proof fn lemma_tick_keeps_food_off_snake(game: Game)
    requires
        game.snake@.len() >= 1,
        game.is_free(game.food),
        !game.grows(),
    ensures
        !game.snake_after_tick().contains(game.food),
{
    let after = game.snake_after_tick();
    if !game.game_over && !game.crashes() && after.contains(game.food) {
        let k = choose|k: int| 0 <= k < after.len() && after[k] == game.food;
        if k > 0 {
            assert(game.snake@[k - 1] == game.food);
        }
    }
}

/// A finished game stays finished with the same snake, score and interval.
pub proof fn lemma_tick_of_finished_game(game: Game)
    requires
        game.game_over,
    ensures
        game.snake_after_tick() == game.snake@,
        game.score_after_tick() == game.score,
        game.speed_after_tick() == game.speed_ms,
{
}

/// The tick interval only ever shortens, by the step at most, and never
/// drops below the floor.
pub proof fn lemma_faster_bounds(speed_ms: u64)
    requires
        speed_ms >= MIN_TICK_MS,
    ensures
        MIN_TICK_MS <= faster(speed_ms) <= speed_ms,
        speed_ms - faster(speed_ms) <= TICK_STEP_MS,
        speed_ms >= MIN_TICK_MS + TICK_STEP_MS ==> faster(speed_ms) == speed_ms - TICK_STEP_MS,
{
}

/// A new head on a cell that the snake does not cover keeps the segments
/// distinct, and the grown snake covers that cell and what it covered before.
pub proof fn lemma_grown(body: Seq<Position>, head: Position)
    requires
        body.no_duplicates(),
        !body.contains(head),
    ensures
        (seq![head] + body).no_duplicates(),
        (seq![head] + body)[0] == head,
        (seq![head] + body).len() == body.len() + 1,
        forall|p: Position| (seq![head] + body).contains(p) <==> p == head || body.contains(p),
{
    let grown = seq![head] + body;
    assert(grown[0] == head);
    assert forall|i: int, j: int| 0 <= i < grown.len() && 0 <= j < grown.len() && i != j implies grown[i]
        != grown[j] by {
        if i > 0 {
            assert(grown[i] == body[i - 1]);
        }
        if j > 0 {
            assert(grown[j] == body[j - 1]);
        }
    }
    assert forall|p: Position| grown.contains(p) <==> p == head || body.contains(p) by {
        if grown.contains(p) {
            let k = choose|k: int| 0 <= k < grown.len() && grown[k] == p;
            if k > 0 {
                assert(body[k - 1] == p);
            }
        }
        if body.contains(p) {
            let k = choose|k: int| 0 <= k < body.len() && body[k] == p;
            assert(grown[k + 1] == p);
        }
    }
}

/// A snake that takes a new head on a cell it does not cover and gives up its
/// tail keeps its segments distinct and its length, and covers the new head's
/// cell and nothing but that and what it covered before.
pub proof fn lemma_shifted(body: Seq<Position>, head: Position)
    requires
        body.len() >= 1,
        body.no_duplicates(),
        !body.contains(head),
    ensures
        (seq![head] + body.drop_last()).no_duplicates(),
        (seq![head] + body.drop_last())[0] == head,
        (seq![head] + body.drop_last()).len() == body.len(),
        (seq![head] + body.drop_last()) =~= (seq![head] + body).drop_last(),
        forall|p: Position|
            (seq![head] + body.drop_last()).contains(p) ==> p == head || body.contains(p),
{
    let rest = body.drop_last();
    assert forall|i: int, j: int| 0 <= i < rest.len() && 0 <= j < rest.len() && i != j implies rest[i]
        != rest[j] by {
        assert(rest[i] == body[i]);
        assert(rest[j] == body[j]);
    }
    assert forall|p: Position| rest.contains(p) implies body.contains(p) by {
        let k = choose|k: int| 0 <= k < rest.len() && rest[k] == p;
        assert(body[k] == p);
    }
    lemma_grown(rest, head);
}

} // verus!
