//! The snake: its heading, the chain of cells it occupies, and the per-frame
//! state machine that steers, moves, eats, grows and starts over.

use vstd::prelude::*;
use crate::arena::{in_arena, Position};
use crate::clock::{ClockView, MovementClock};
use crate::direction::{requested_direction, step, step_from, steer, Direction, Key};

verus! {

/// Period of the movement clock: 150 milliseconds, in nanoseconds.
pub const MOVEMENT_PERIOD_NANOS: u64 = 150_000_000;

/// The lead segment of the snake and the way it is heading.
#[derive(Clone, Copy, Debug)]
pub struct SnakeHead {
    pub direction: Direction,
}

impl Default for SnakeHead {
    /// A head that heads up, as at the start of a game.
    fn default() -> (r: SnakeHead)
        ensures
            r.direction == Direction::Up,
    {
        SnakeHead { direction: Direction::Up }
    }
}

/// What a fired or idle movement update did.
#[derive(Clone, Copy, Debug, PartialEq, Eq, Structural)]
pub enum TickOutcome {
    /// The clock did not fire: nothing moved.
    Idle,
    /// The snake moved one cell.
    Moved,
    /// The head hit a wall or the body; the game started over.
    GameOver,
}

/// The model of a game.
pub ghost struct SnakeState {
    /// The heading of the head.
    pub direction: Direction,
    /// The cells of the snake, head first, tail last.
    pub chain: Seq<Position>,
    /// Where the tail stood before the most recent move: the cell where a new
    /// segment is added.
    pub pending_tail: Option<Position>,
    /// The cells that hold food.
    pub food: Seq<Position>,
    /// The movement clock.
    pub clock: ClockView,
}

impl SnakeState {
    /// The snake is never empty and lies inside the arena, and so does the cell
    /// kept for growth.
    pub open spec fn wf(self) -> bool {
        &&& self.chain.len() >= 1
        &&& forall|i: int| 0 <= i < self.chain.len() ==> in_arena(#[trigger] self.chain[i])
        &&& (self.pending_tail matches Some(p) ==> in_arena(p))
        &&& self.clock.wf()
    }

    /// The cell the head moves to on the next fired tick.
    pub open spec fn next_head(self) -> Position {
        step(self.chain[0], self.direction)
    }

    /// The same game with the clock advanced by `delta` nanoseconds.
    pub open spec fn advance_clock(self, delta: nat) -> SnakeState {
        SnakeState { clock: self.clock.advanced(delta), ..self }
    }

    /// Moving now would leave the arena or run into the snake as it stands before
    /// the move (its own head and tail included).
    pub open spec fn collides(self) -> bool {
        !in_arena(self.next_head()) || self.chain.contains(self.next_head())
    }
}

/// The cells of a new game: head at (3, 3), one segment below it at (3, 2).
pub open spec fn start_chain() -> Seq<Position> {
    seq![Position { x: 3, y: 3 }, Position { x: 3, y: 2 }]
}

/// The game started over: the start chain heading up, no food and nothing kept
/// for growth. The clock runs on.
pub open spec fn restarted(s: SnakeState) -> SnakeState {
    SnakeState {
        direction: Direction::Up,
        chain: start_chain(),
        pending_tail: None,
        food: Seq::empty(),
        clock: s.clock,
    }
}

/// The chain after the head moves to `h`: each segment takes the cell its
/// predecessor held before the move, and the old tail cell is left.
pub open spec fn shifted(chain: Seq<Position>, h: Position) -> Seq<Position> {
    Seq::new(chain.len(), |i: int| if i == 0 { h } else { chain[i - 1] })
}

/// The game after steering with the held keys.
pub open spec fn steered(s: SnakeState, held: Seq<Key>) -> SnakeState {
    SnakeState { direction: steer(s.direction, held), ..s }
}

/// The game after one fired tick: a collision starts the game over; otherwise
/// the snake shifts one cell and remembers where its tail stood.
pub open spec fn moved(s: SnakeState) -> SnakeState {
    if s.collides() {
        restarted(s)
    } else {
        SnakeState {
            chain: shifted(s.chain, s.next_head()),
            pending_tail: Some(s.chain.last()),
            ..s
        }
    }
}

/// The game after the clock has advanced by `delta` nanoseconds, and moved if it
/// fired.
pub open spec fn ticked(s: SnakeState, delta: nat) -> SnakeState {
    let c = s.advance_clock(delta);
    if s.clock.fires(delta) {
        moved(c)
    } else {
        c
    }
}

/// What a movement update of `delta` nanoseconds reports.
pub open spec fn tick_outcome(s: SnakeState, delta: nat) -> TickOutcome {
    if !s.clock.fires(delta) {
        TickOutcome::Idle
    } else if s.collides() {
        TickOutcome::GameOver
    } else {
        TickOutcome::Moved
    }
}

/// The food that is not at `h`, in its order.
pub open spec fn uneaten(food: Seq<Position>, h: Position) -> Seq<Position>
    decreases food.len(),
{
    if food.len() == 0 {
        food
    } else {
        let rest = uneaten(food.drop_last(), h);
        if food.last() == h {
            rest
        } else {
            rest.push(food.last())
        }
    }
}

/// How many food items lie at `h`.
pub open spec fn hits(food: Seq<Position>, h: Position) -> nat
    decreases food.len(),
{
    if food.len() == 0 {
        0
    } else {
        hits(food.drop_last(), h) + if food.last() == h { 1nat } else { 0nat }
    }
}

/// The game once the food under the head is eaten.
pub open spec fn eaten(s: SnakeState) -> SnakeState {
    SnakeState { food: uneaten(s.food, s.chain[0]), ..s }
}

/// The number of growth events that eating queues: one per food item under the head.
pub open spec fn growth_of(s: SnakeState) -> nat {
    hits(s.food, s.chain[0])
}

/// The game after `n` growth events: one segment per event, at the cell kept for
/// growth, if one is kept.
pub open spec fn grown(s: SnakeState, n: nat) -> SnakeState {
    match s.pending_tail {
        Some(p) => SnakeState { chain: s.chain + Seq::new(n, |i: int| p), ..s },
        None => s,
    }
}

/// One frame: steer and advance the clock. If it fired, move (starting over on a
/// collision), then eat and grow; otherwise nothing else happens.
pub open spec fn frame(s: SnakeState, held: Seq<Key>, delta: nat) -> SnakeState {
    let t = ticked(steered(s, held), delta);
    if s.clock.fires(delta) {
        grown(eaten(t), growth_of(t))
    } else {
        t
    }
}

/// A game of snake.
#[derive(Debug)]
pub struct SnakeGame {
    head: SnakeHead,
    chain: Vec<Position>,
    pending_tail: Option<Position>,
    food: Vec<Position>,
    clock: MovementClock,
}

impl View for SnakeGame {
    type V = SnakeState;

    closed spec fn view(&self) -> SnakeState {
        SnakeState {
            direction: self.head.direction,
            chain: self.chain@,
            pending_tail: self.pending_tail,
            food: self.food@,
            clock: self.clock@,
        }
    }
}

/// Whether `p` is one of the cells of `chain`.
fn occupies(chain: &Vec<Position>, p: Position) -> (r: bool)
    ensures
        r == chain@.contains(p),
{
    let mut i: usize = 0;
    while i < chain.len()
        invariant
            i <= chain@.len(),
            forall|j: int| 0 <= j < i ==> chain@[j] != p,
        decreases chain@.len() - i,
    {
        if chain[i] == p {
            return true;
        }
        i = i + 1;
    }
    false
}

/// The start chain.
fn start_cells() -> (r: Vec<Position>)
    ensures
        r@ == start_chain(),
{
    let mut v: Vec<Position> = Vec::new();
    v.push(Position { x: 3, y: 3 });
    v.push(Position { x: 3, y: 2 });
    assert(v@ =~= start_chain());
    v
}

impl SnakeGame {
    /// A new game whose clock fires every `period` nanoseconds.
    pub fn new(period: u64) -> (r: SnakeGame)
        ensures
            r@ == restarted(r@),
            r@.clock == (ClockView { period: period as nat, elapsed: 0 }),
            r@.wf(),
    {
        SnakeGame {
            head: SnakeHead::default(),
            chain: start_cells(),
            pending_tail: None,
            food: Vec::new(),
            clock: MovementClock::from_nanos(period),
        }
    }

    /// A game in which the snake heads `direction` and occupies `chain`, head first,
    /// with no food and nothing kept for growth; `None` unless the chain is
    /// non-empty and lies inside the arena.
    pub fn from_chain(direction: Direction, chain: Vec<Position>, period: u64) -> (r: Option<SnakeGame>)
        ensures
            r is Some <==> (chain@.len() >= 1 && forall|i: int| 0 <= i < chain@.len() ==> in_arena(#[trigger] chain@[i])),
            r matches Some(g) ==> g@ == (SnakeState {
                direction,
                chain: chain@,
                pending_tail: None,
                food: Seq::empty(),
                clock: ClockView { period: period as nat, elapsed: 0 },
            }),
    {
        if chain.len() == 0 {
            return None;
        }
        let mut i: usize = 0;
        while i < chain.len()
            invariant
                i <= chain@.len(),
                forall|j: int| 0 <= j < i ==> in_arena(#[trigger] chain@[j]),
            decreases chain@.len() - i,
        {
            if !chain[i].in_arena() {
                return None;
            }
            i = i + 1;
        }
        Some(SnakeGame {
            head: SnakeHead { direction },
            chain,
            pending_tail: None,
            food: Vec::new(),
            clock: MovementClock::from_nanos(period),
        })
    }

    /// Starts the game over: the start chain heading up, no food, nothing kept for
    /// growth. The clock runs on.
    pub fn reset(&mut self)
        requires
            old(self)@.wf(),
        ensures
            final(self)@ == restarted(old(self)@),
            final(self)@.wf(),
    {
        self.head = SnakeHead::default();
        self.chain = start_cells();
        self.pending_tail = None;
        self.food = Vec::new();
    }

    /// Steers with the keys currently held: the first of them in priority order
    /// gives the new heading, unless it points straight back.
    pub fn handle_input(&mut self, held: &Vec<Key>)
        requires
            old(self)@.wf(),
        ensures
            final(self)@ == steered(old(self)@, held@),
            final(self)@.wf(),
    {
        match requested_direction(held) {
            Some(d) => {
                if d != self.head.direction.opposite() {
                    self.head.direction = d;
                }
            },
            None => {},
        }
    }

    /// Advances the clock by `delta` nanoseconds. If it fires, the head moves one
    /// cell; on a collision with a wall or the snake the game starts over.
    pub fn movement(&mut self, delta: u64) -> (r: TickOutcome)
        requires
            old(self)@.wf(),
        ensures
            final(self)@ == ticked(old(self)@, delta as nat),
            r == tick_outcome(old(self)@, delta as nat),
            final(self)@.wf(),
    {
        if !self.clock.tick(delta) {
            return TickOutcome::Idle;
        }
        let old_head = self.chain[0];
        let next = step_from(old_head, self.head.direction);
        if !next.in_arena() || occupies(&self.chain, next) {
            self.reset();
            return TickOutcome::GameOver;
        }
        let len = self.chain.len();
        let tail = self.chain[len - 1];
        let mut cells: Vec<Position> = Vec::new();
        cells.push(next);
        let mut i: usize = 1;
        while i < len
            invariant
                1 <= i <= len,
                len == self.chain@.len(),
                cells@ =~= shifted(self.chain@, next).take(i as int),
            decreases len - i,
        {
            cells.push(self.chain[i - 1]);
            i = i + 1;
        }
        assert(cells@ =~= shifted(self.chain@, next));
        self.chain = cells;
        self.pending_tail = Some(tail);
        TickOutcome::Moved
    }

    /// Eats the food under the head; returns the number of growth events queued,
    /// one per item eaten.
    pub fn eater(&mut self) -> (r: usize)
        requires
            old(self)@.wf(),
        ensures
            final(self)@ == eaten(old(self)@),
            r == growth_of(old(self)@),
            final(self)@.wf(),
    {
        let h = self.chain[0];
        let mut kept: Vec<Position> = Vec::new();
        let mut n: usize = 0;
        let mut i: usize = 0;
        while i < self.food.len()
            invariant
                i <= self.food@.len(),
                kept@ == uneaten(self.food@.take(i as int), h),
                n == hits(self.food@.take(i as int), h),
                n <= i,
            decreases self.food@.len() - i,
        {
            let f = self.food[i];
            assert(self.food@.take(i + 1).drop_last() =~= self.food@.take(i as int));
            if f == h {
                n = n + 1;
            } else {
                kept.push(f);
            }
            i = i + 1;
        }
        assert(self.food@.take(i as int) =~= self.food@);
        self.food = kept;
        n
    }

    /// Applies `growth` growth events: each adds one segment at the cell where the
    /// tail stood before the last move. Nothing grows before the first move.
    pub fn grow(&mut self, growth: usize)
        requires
            old(self)@.wf(),
        ensures
            final(self)@ == grown(old(self)@, growth as nat),
            final(self)@.wf(),
    {
        match self.pending_tail {
            Some(p) => {
                let ghost start = self.chain@;
                let mut k: usize = 0;
                while k < growth
                    invariant
                        k <= growth,
                        self.pending_tail == Some(p),
                        in_arena(p),
                        self.head == old(self).head,
                        self.food@ == old(self).food@,
                        self.clock@ == old(self).clock@,
                        start == old(self).chain@,
                        self.chain@ =~= start + Seq::new(k as nat, |i: int| p),
                    decreases growth - k,
                {
                    self.chain.push(p);
                    k = k + 1;
                }
            },
            None => {},
        }
    }

    /// One frame: steering, then movement; when the clock fired, eating and growth
    /// follow. A frame on which the clock does not fire only steers and advances it.
    pub fn update(&mut self, held: &Vec<Key>, delta: u64) -> (r: TickOutcome)
        requires
            old(self)@.wf(),
        ensures
            final(self)@ == frame(old(self)@, held@, delta as nat),
            r == tick_outcome(steered(old(self)@, held@), delta as nat),
            final(self)@.wf(),
    {
        self.handle_input(held);
        let r = self.movement(delta);
        if r != TickOutcome::Idle {
            let growth = self.eater();
            self.grow(growth);
        }
        r
    }
}


impl SnakeGame {
    /// The heading of the head.
    pub fn direction(&self) -> (r: Direction)
        ensures
            r == self@.direction,
    {
        self.head.direction
    }

    /// Points the head in `direction`, whatever it was heading before.
    pub fn set_direction(&mut self, direction: Direction)
        requires
            old(self)@.wf(),
        ensures
            final(self)@ == (SnakeState { direction, ..old(self)@ }),
            final(self)@.wf(),
    {
        self.head.direction = direction;
    }

    /// The cell of the head.
    pub fn head(&self) -> (r: Position)
        requires
            self@.wf(),
        ensures
            r == self@.chain[0],
    {
        self.chain[0]
    }

    /// The cells of the snake, head first.
    pub fn chain(&self) -> (r: &Vec<Position>)
        ensures
            r@ == self@.chain,
    {
        &self.chain
    }

    /// Where the tail stood before the most recent move, if the snake has moved
    /// since the game started.
    pub fn pending_tail(&self) -> (r: Option<Position>)
        ensures
            r == self@.pending_tail,
    {
        self.pending_tail
    }

    /// The cells that hold food.
    pub fn food(&self) -> (r: &Vec<Position>)
        ensures
            r@ == self@.food,
    {
        &self.food
    }

    /// Puts a food item at `p`.
    pub fn add_food(&mut self, p: Position)
        requires
            old(self)@.wf(),
        ensures
            final(self)@ == (SnakeState { food: old(self)@.food.push(p), ..old(self)@ }),
            final(self)@.wf(),
    {
        self.food.push(p);
    }

    /// The movement clock.
    pub fn clock(&self) -> (r: &MovementClock)
        ensures
            r@ == self@.clock,
    {
        &self.clock
    }
}

/// Sets up a game of snake with the standard movement period.
#[derive(Clone, Copy, Debug)]
pub struct SnakePlugin;

impl SnakePlugin {
    /// A new game: the start chain heading up, with a clock that fires every
    /// 150 milliseconds.
    pub fn build(&self) -> (r: SnakeGame)
        ensures
            r@ == restarted(r@),
            r@.clock == (ClockView { period: MOVEMENT_PERIOD_NANOS as nat, elapsed: 0 }),
            r@.wf(),
    {
        SnakeGame::new(MOVEMENT_PERIOD_NANOS)
    }
}

} // verus!
