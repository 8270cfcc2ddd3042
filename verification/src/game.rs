//! Game logic for snake.

use crate::arena::{lemma_arena_has_room, lemma_cover_needs_all_cells, Arena};
use crate::models::{Coordinate, Direction, State};
use rand::Rng;
use vstd::prelude::*;

verus! {

/// Store data about the game.
pub struct Game {
    /// The snake, head first.
    pub player_position: Vec<Coordinate>,
    /// The heading the head takes at the next tick.
    pub player_direction: Direction,
    pub food: Coordinate,
    pub state: State,
    /// The grid the game is played on.
    pub arena: Arena,
}

/// The snake every game starts with: three cells in row 1, head first, with
/// the head on the right.
pub open spec fn start_body() -> Seq<Coordinate> {
    seq![Coordinate(3, 1), Coordinate(2, 1), Coordinate(1, 1)]
}

/// How many random cells a food placement draws before it stops drawing and
/// takes the first free cell of the arena instead.
pub const MAX_DRAWS: u32 = 1024;

/// Whether `a` comes before `b` when cells are read row by row, each row
/// from left to right.
pub open spec fn precedes(a: Coordinate, b: Coordinate) -> bool {
    a.1 < b.1 || (a.1 == b.1 && a.0 < b.0)
}

/// The heading a snake has after it is asked to turn to `requested`: a
/// request to double back is ignored, any other is followed.
pub open spec fn turned(current: Direction, requested: Direction) -> Direction {
    if requested == current.opposite() {
        current
    } else {
        requested
    }
}

/// The state after the pause key: playing and paused swap, a finished game
/// stays finished.
pub open spec fn toggled(state: State) -> State {
    match state {
        State::Playing => State::Paused,
        State::Paused => State::Playing,
        _ => state,
    }
}

/// Draws a number from 0 up to, but not including, `bound`.
///
/// Calls `rand::Rng::gen_range` on `rand::thread_rng()` with the range
/// `0..bound`. The contract is taken on trust from that crate: the call
/// panics on an empty range, which `requires` rules out, and returns a value
/// inside the range. Which value is drawn is left open, so two calls may
/// differ.
#[verifier::external_body]
fn random_below(bound: i32) -> (n: i32)
    requires
        0 < bound,
    ensures
        0 <= n < bound,
{
    rand::thread_rng().gen_range(0..bound)
}

impl Game {
    /// The snake as a sequence of cells, head first.
    pub open spec fn body(&self) -> Seq<Coordinate> {
        self.player_position@
    }

    /// The cell of the snake's head.
    pub open spec fn head(&self) -> Coordinate {
        self.body()[0]
    }

    /// The game is well formed: the arena can host a game, and the snake has
    /// at least three cells, is shorter than the winning length, lies inside
    /// the arena and covers no cell twice.
    pub open spec fn wf(&self) -> bool {
        &&& self.arena.wf()
        &&& 3 <= self.body().len() < self.arena.spec_win_length()
        &&& forall|i: int| 0 <= i < self.body().len() ==> self.arena.spec_contains(#[trigger] self.body()[i])
        &&& self.body().no_duplicates()
    }

    /// The cell the head moves to at the next tick.
    pub open spec fn next_head(&self) -> Coordinate {
        self.head().plus(self.player_direction.step())
    }

    /// Whether the snake covers `cell`.
    pub open spec fn covers(&self, cell: Coordinate) -> bool {
        self.body().contains(cell)
    }

    /// Whether a head that moves to `cell` collides: with the edge of the
    /// arena, or with the snake itself.
    pub open spec fn collides(&self, cell: Coordinate) -> bool {
        !self.arena.spec_contains(cell) || self.covers(cell)
    }

    /// Whether food may be placed on `cell`: it lies inside the arena and
    /// the snake does not cover it.
    pub open spec fn is_free(&self, cell: Coordinate) -> bool {
        self.arena.spec_contains(cell) && !self.covers(cell)
    }

    /// This game with its state replaced by `state`.
    pub open spec fn with_state(self, state: State) -> Game {
        Game { state, ..self }
    }

    /// This game with its heading replaced by `direction`.
    pub open spec fn with_direction(self, direction: Direction) -> Game {
        Game { player_direction: direction, ..self }
    }

    /// The game is as a start or a reset leaves it in `arena`: the starting
    /// snake heading right, paused, with the food on a free cell.
    pub open spec fn is_fresh(&self, arena: Arena) -> bool {
        &&& self.body() == start_body()
        &&& self.player_direction == Direction::Right
        &&& self.state == State::Paused
        &&& self.arena == arena
        &&& self.is_free(self.food)
    }

    /// The snake after a step onto `cell` that drops the tail.
    pub open spec fn moved_body(&self, cell: Coordinate) -> Seq<Coordinate> {
        seq![cell] + self.body().drop_last()
    }

    /// The snake after a step onto `cell` that keeps the tail.
    pub open spec fn grown_body(&self, cell: Coordinate) -> Seq<Coordinate> {
        seq![cell] + self.body()
    }

    /// Check that the game is well formed. A game that was made by `new`
    /// and changed only through its own methods always is.
    pub fn is_well_formed(&self) -> (ok: bool)
        ensures
            ok == self.wf(),
    {
        if !self.arena.is_valid() {
            return false;
        }
        let len = self.player_position.len();
        if len < 3 || len >= self.arena.win_length() {
            return false;
        }
        let mut i: usize = 0;
        while i < len
            invariant
                len == self.player_position.len(),
                i <= len,
                forall|k: int| 0 <= k < i ==> self.arena.spec_contains(#[trigger] self.body()[k]),
                forall|k: int, l: int| 0 <= k < i && k < l < len ==> self.body()[k] != self.body()[l],
            decreases len - i,
        {
            if !self.arena.contains(self.player_position[i]) {
                return false;
            }
            let mut j: usize = i + 1;
            while j < len
                invariant
                    len == self.player_position.len(),
                    i < j <= len,
                    forall|l: int| i < l < j ==> self.body()[i as int] != self.body()[l],
                decreases len - j,
            {
                if self.player_position[i] == self.player_position[j] {
                    return false;
                }
                j += 1;
            }
            i += 1;
        }
        true
    }

    /// Check if any segment of the snake lies on `cell`.
    pub fn occupies(&self, cell: Coordinate) -> (found: bool)
        ensures
            found == self.covers(cell),
    {
        let mut i: usize = 0;
        while i < self.player_position.len()
            invariant
                i <= self.player_position.len(),
                forall|k: int| 0 <= k < i ==> self.body()[k] != cell,
            decreases self.player_position.len() - i,
        {
            if self.player_position[i] == cell {
                return true;
            }
            i += 1;
        }
        false
    }

    /// Check if the next head position is a collision with the snake or the arena.
    pub fn collision(&self, next_head_position: Coordinate) -> (hit: bool)
        ensures
            hit == self.collides(next_head_position),
    {
        // Player has exited arena.
        if next_head_position.0 < 0 || next_head_position.1 < 0 || next_head_position.0
            >= self.arena.width || next_head_position.1 >= self.arena.height {
            return true;
        }
        // Player has hit self.

        self.occupies(next_head_position)
    }

    /// Find the first cell, reading row by row, that the snake does not
    /// cover. The snake must leave a cell of the arena free.
    pub fn first_free_cell(&self) -> (cell: Coordinate)
        requires
            self.arena.wf(),
            self.body().len() < self.arena.cells(),
        ensures
            self.is_free(cell),
            forall|c: Coordinate|
                self.arena.spec_contains(c) && precedes(c, cell) ==> self.covers(c),
    {
        let mut x: i32 = 0;
        let mut y: i32 = 0;
        while y < self.arena.height
            invariant
                self.arena.wf(),
                0 <= x < self.arena.width,
                0 <= y <= self.arena.height,
                forall|c: Coordinate|
                    self.arena.spec_contains(c) && precedes(c, Coordinate(x, y)) ==> self.covers(c),
            decreases self.arena.height - y, self.arena.width - x,
        {
            let cell = Coordinate(x, y);
            if !self.occupies(cell) {
                return cell;
            }
            x += 1;
            if x == self.arena.width {
                x = 0;
                y += 1;
            }
        }
        proof {
            // Every row has been read and every cell was covered, which a
            // snake shorter than the number of cells cannot do.
            assert forall|c: Coordinate| self.arena.spec_contains(c) implies self.body().contains(
                c,
            ) by {
                assert(precedes(c, Coordinate(x, y)));
                assert(self.covers(c));
            }
            lemma_cover_needs_all_cells(self.arena, self.body());
        }
        Coordinate(x, y)
    }

    /// Generate a new food position that doesn't collide with the snake.
    ///
    /// Cells are drawn at random from the whole arena until one is free.
    /// After `MAX_DRAWS` covered cells in a row the first free cell of the
    /// arena is taken, so that the placement always ends.
    pub fn generate_food(&self) -> (new_food: Coordinate)
        requires
            self.arena.wf(),
            self.body().len() < self.arena.cells(),
        ensures
            self.is_free(new_food),
    {
        let mut draws: u32 = 0;
        while draws < MAX_DRAWS
            invariant
                self.arena.wf(),
            decreases MAX_DRAWS - draws,
        {
            let x = random_below(self.arena.width);
            let y = random_below(self.arena.height);
            let new_food = Coordinate(x, y);
            if !self.occupies(new_food) {
                return new_food;
            }
            draws += 1;
        }
        self.first_free_cell()
    }

    /// Create a new game in `arena` with a random food position.
    pub fn new(arena: Arena) -> (game: Game)
        requires
            arena.wf(),
        ensures
            game.wf(),
            game.is_fresh(arena),
    {
        let mut game = Game {
            player_position: vec![Coordinate(3, 1), Coordinate(2, 1), Coordinate(1, 1)],
            player_direction: Direction::Right,
            state: State::Paused,
            food: Coordinate(5, 5),
            arena,
        };
        proof {
            lemma_arena_has_room(arena);
            assert(game.body() =~= start_body());
        }
        game.food = game.generate_food();
        game
    }

    /// Reset the game to its initial state.
    pub fn reset(&mut self)
        requires
            old(self).arena.wf(),
        ensures
            final(self).wf(),
            final(self).is_fresh(old(self).arena),
    {
        self.player_position = vec![Coordinate(3, 1), Coordinate(2, 1), Coordinate(1, 1)];
        self.player_direction = Direction::Right;
        self.state = State::Paused;
        proof {
            lemma_arena_has_room(self.arena);
            assert(self.body() =~= start_body());
        }
        self.food = self.generate_food();
    }

    /// Check if the snake's next step takes its head onto the food.
    pub fn ate_food(&self) -> (eaten: bool)
        requires
            self.body().len() > 0,
            self.head().can_add(self.player_direction.step()),
        ensures
            eaten == (self.next_head() == self.food),
    {
        self.player_position[0] + self.player_direction.unit_vector() == self.food
    }

    /// Process the next tick of the game.
    /// Moves the snake, checks for collisions, and updates the game state.
    ///
    /// A finished game is reset and nothing moves in that tick. A paused
    /// game is left as it is. A playing snake steps onto the cell in front
    /// of its head: a collision ends the game and leaves snake and food in
    /// place; a step onto the food that brings the snake to the winning
    /// length wins the game, again with snake and food left in place; any
    /// other step onto the food grows the snake by the new head and puts new
    /// food on a cell that the grown snake leaves free; every other step
    /// moves the snake and drops its tail.
    pub fn next_tick(&mut self)
        requires
            old(self).state == State::Playing ==> old(self).wf(),
            old(self).state == State::Over || old(self).state == State::Win ==> old(
                self,
            ).arena.wf(),
        ensures
            old(self).state != State::Paused ==> final(self).wf(),
            old(self).wf() ==> final(self).wf(),
            final(self).arena == old(self).arena,
            old(self).is_free(old(self).food) ==> final(self).is_free(final(self).food),
            match old(self).state {
                State::Over | State::Win => final(self).is_fresh(old(self).arena),
                State::Paused => *final(self) == *old(self),
                State::Playing => {
                    let next_head = old(self).next_head();
                    if old(self).collides(next_head) {
                        *final(self) == old(self).with_state(State::Over)
                    } else if next_head != old(self).food {
                        &&& final(self).body() == old(self).moved_body(next_head)
                        &&& final(self).player_direction == old(self).player_direction
                        &&& final(self).food == old(self).food
                        &&& final(self).state == State::Playing
                    } else if old(self).body().len() + 1 == old(self).arena.spec_win_length() {
                        *final(self) == old(self).with_state(State::Win)
                    } else {
                        &&& final(self).body() == old(self).grown_body(next_head)
                        &&& final(self).player_direction == old(self).player_direction
                        &&& final(self).is_free(final(self).food)
                        &&& final(self).state == State::Playing
                    }
                },
            },
    {
        if let State::Win | State::Over = self.state {
            self.reset();
        }
        if let State::Paused = self.state {
            return;
        }
        let head_position = self.player_position[0];
        let next_head_position = head_position + self.player_direction.unit_vector();

        if self.collision(next_head_position) {
            self.state = State::Over;
            return;
        }
        let eaten = self.ate_food();
        if eaten {
            if self.player_position.len() + 1 == self.arena.win_length() {
                self.state = State::Win;
                return;
            }
        } else {
            self.player_position.pop();
        }

        self.player_position.insert(0, next_head_position);
        proof {
            assert(self.body() =~= if eaten {
                old(self).grown_body(next_head_position)
            } else {
                old(self).moved_body(next_head_position)
            });
            assert forall|i: int| 0 <= i < self.body().len() implies self.arena.spec_contains(
                #[trigger] self.body()[i],
            ) by {
                if i > 0 {
                    assert(self.body()[i] == old(self).body()[i - 1]);
                }
            }
            assert forall|i: int, j: int|
                0 <= i < self.body().len() && 0 <= j < self.body().len() && i != j implies self.body()[i]
                != self.body()[j] by {
                if i > 0 {
                    assert(self.body()[i] == old(self).body()[i - 1]);
                }
                if j > 0 {
                    assert(self.body()[j] == old(self).body()[j - 1]);
                }
            }
        }
        if eaten {
            self.food = self.generate_food();
        }
    }

    /// Move the snake up.
    pub fn move_up(&mut self)
        ensures
            final(self).wf() == old(self).wf(),
            *final(self) == old(self).with_direction(
                turned(old(self).player_direction, Direction::Up),
            ),
    {
        // Don't let the player double back.
        if let Direction::Down = self.player_direction {
            return;
        }
        self.player_direction = Direction::Up;
    }

    /// Move the snake down.
    pub fn move_down(&mut self)
        ensures
            final(self).wf() == old(self).wf(),
            *final(self) == old(self).with_direction(
                turned(old(self).player_direction, Direction::Down),
            ),
    {
        // Don't let the player double back.
        if let Direction::Up = self.player_direction {
            return;
        }
        self.player_direction = Direction::Down;
    }

    /// Move the snake right.
    pub fn move_right(&mut self)
        ensures
            final(self).wf() == old(self).wf(),
            *final(self) == old(self).with_direction(
                turned(old(self).player_direction, Direction::Right),
            ),
    {
        // Don't let the player double back.
        if let Direction::Left = self.player_direction {
            return;
        }
        self.player_direction = Direction::Right;
    }

    /// Move the snake left.
    pub fn move_left(&mut self)
        ensures
            final(self).wf() == old(self).wf(),
            *final(self) == old(self).with_direction(
                turned(old(self).player_direction, Direction::Left),
            ),
    {
        // Don't let the player double back.
        if let Direction::Right = self.player_direction {
            return;
        }
        self.player_direction = Direction::Left;
    }

    /// Toggle the game state between paused and playing.
    pub fn toggle_pause(&mut self)
        ensures
            final(self).wf() == old(self).wf(),
            *final(self) == old(self).with_state(toggled(old(self).state)),
    {
        self.state = match self.state {
            State::Playing => State::Paused,
            State::Paused => State::Playing,
            _ => self.state,
        }
    }
}

} // verus!
