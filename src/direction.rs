//! Headings of the snake and the keys that steer it.

use vstd::prelude::*;
use crate::arena::Position;

verus! {

/// A heading on the grid. Up increases `y`.
#[derive(Clone, Copy, Debug, PartialEq, Eq, Structural)]
pub enum Direction {
    Left,
    Up,
    Right,
    Down,
}

/// The heading that points the other way.
pub open spec fn opposite_of(d: Direction) -> Direction {
    match d {
        Direction::Left => Direction::Right,
        Direction::Up => Direction::Down,
        Direction::Right => Direction::Left,
        Direction::Down => Direction::Up,
    }
}

/// Change of `x` for one step in direction `d`.
pub open spec fn dx(d: Direction) -> int {
    match d {
        Direction::Left => -1,
        Direction::Right => 1,
        _ => 0,
    }
}

/// Change of `y` for one step in direction `d`.
pub open spec fn dy(d: Direction) -> int {
    match d {
        Direction::Up => 1,
        Direction::Down => -1,
        _ => 0,
    }
}

/// The cell one step from `p` in direction `d`.
pub open spec fn step(p: Position, d: Direction) -> Position {
    Position { x: (p.x + dx(d)) as i32, y: (p.y + dy(d)) as i32 }
}

impl Direction {
    /// The heading that points the other way: Left and Right, Up and Down.
    pub fn opposite(self) -> (r: Direction)
        ensures
            r == opposite_of(self),
    {
        match self {
            Direction::Left => Direction::Right,
            Direction::Up => Direction::Down,
            Direction::Right => Direction::Left,
            Direction::Down => Direction::Up,
        }
    }
}

/// The cell one step from `p` in direction `d`.
pub fn step_from(p: Position, d: Direction) -> (r: Position)
    requires
        i32::MIN < p.x < i32::MAX,
        i32::MIN < p.y < i32::MAX,
    ensures
        r == step(p, d),
        r.x == p.x + dx(d),
        r.y == p.y + dy(d),
{
    match d {
        Direction::Left => Position { x: p.x - 1, y: p.y },
        Direction::Up => Position { x: p.x, y: p.y + 1 },
        Direction::Right => Position { x: p.x + 1, y: p.y },
        Direction::Down => Position { x: p.x, y: p.y - 1 },
    }
}

/// The physical keys that steer the snake: arrows and W, A, S, D.
#[derive(Clone, Copy, Debug, PartialEq, Eq, Structural)]
pub enum Key {
    ArrowLeft,
    ArrowRight,
    ArrowDown,
    ArrowUp,
    KeyA,
    KeyD,
    KeyS,
    KeyW,
}

/// Number of steering keys.
pub const KEY_COUNT: usize = 8;

/// The steering keys in the order in which they are consulted.
pub open spec fn priority(i: int) -> Key {
    if i == 0 {
        Key::ArrowLeft
    } else if i == 1 {
        Key::ArrowRight
    } else if i == 2 {
        Key::ArrowDown
    } else if i == 3 {
        Key::ArrowUp
    } else if i == 4 {
        Key::KeyA
    } else if i == 5 {
        Key::KeyD
    } else if i == 6 {
        Key::KeyS
    } else {
        Key::KeyW
    }
}

/// The heading a key asks for.
pub open spec fn direction_of(k: Key) -> Direction {
    match k {
        Key::ArrowLeft | Key::KeyA => Direction::Left,
        Key::ArrowRight | Key::KeyD => Direction::Right,
        Key::ArrowDown | Key::KeyS => Direction::Down,
        Key::ArrowUp | Key::KeyW => Direction::Up,
    }
}

/// The first key in priority order, from position `i` on, that is held.
pub open spec fn first_held_from(held: Seq<Key>, i: int) -> Option<Key>
    decreases KEY_COUNT - i,
{
    if i < 0 || i >= KEY_COUNT {
        None
    } else if held.contains(priority(i)) {
        Some(priority(i))
    } else {
        first_held_from(held, i + 1)
    }
}

/// The heading asked for by the held keys: that of the first held key in
/// priority order, if any is held.
pub open spec fn requested(held: Seq<Key>) -> Option<Direction> {
    match first_held_from(held, 0) {
        Some(k) => Some(direction_of(k)),
        None => None,
    }
}

/// The heading after steering from `d` with the keys `held`: the requested heading,
/// unless none is requested or it would turn the snake straight back.
pub open spec fn steer(d: Direction, held: Seq<Key>) -> Direction {
    match requested(held) {
        Some(c) => if c == opposite_of(d) { d } else { c },
        None => d,
    }
}

impl Key {
    /// The heading this key asks for.
    pub fn direction(self) -> (r: Direction)
        ensures
            r == direction_of(self),
    {
        match self {
            Key::ArrowLeft | Key::KeyA => Direction::Left,
            Key::ArrowRight | Key::KeyD => Direction::Right,
            Key::ArrowDown | Key::KeyS => Direction::Down,
            Key::ArrowUp | Key::KeyW => Direction::Up,
        }
    }
}

/// The steering key at position `i` of the priority order.
pub fn key_at(i: usize) -> (r: Key)
    requires
        i < KEY_COUNT,
    ensures
        r == priority(i as int),
{
    if i == 0 {
        Key::ArrowLeft
    } else if i == 1 {
        Key::ArrowRight
    } else if i == 2 {
        Key::ArrowDown
    } else if i == 3 {
        Key::ArrowUp
    } else if i == 4 {
        Key::KeyA
    } else if i == 5 {
        Key::KeyD
    } else if i == 6 {
        Key::KeyS
    } else {
        Key::KeyW
    }
}

/// Whether `k` is among the held keys.
fn is_held(held: &Vec<Key>, k: Key) -> (r: bool)
    ensures
        r == held@.contains(k),
{
    let mut i: usize = 0;
    while i < held.len()
        invariant
            i <= held@.len(),
            forall|j: int| 0 <= j < i ==> held@[j] != k,
        decreases held@.len() - i,
    {
        if held[i] == k {
            return true;
        }
        i = i + 1;
    }
    false
}

/// The heading asked for by the held keys: the first held key in priority order
/// decides; the rest are ignored.
pub fn requested_direction(held: &Vec<Key>) -> (r: Option<Direction>)
    ensures
        r == requested(held@),
{
    let mut i: usize = 0;
    while i < KEY_COUNT
        invariant
            i <= KEY_COUNT,
            first_held_from(held@, 0) == first_held_from(held@, i as int),
        decreases KEY_COUNT - i,
    {
        let k = key_at(i);
        if is_held(held, k) {
            return Some(k.direction());
        }
        i = i + 1;
    }
    None
}

} // verus!
