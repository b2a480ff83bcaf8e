//! Properties of the game that span several steps or hold of every state.

use vstd::prelude::*;
use vstd::arithmetic::div_mod::lemma_mod_pos_bound;
use crate::arena::{in_arena, Position, HEIGHT, WIDTH};
use crate::direction::{dx, dy, opposite_of, requested, steer, Direction, Key};
use crate::snake::{
    eaten, frame, grown, growth_of, moved, restarted, start_chain, steered, tick_outcome, ticked,
    SnakeState, TickOutcome,
};

verus! {

/// The game after one frame per entry of `steps`: each entry gives the keys held
/// and the time that passed, in nanoseconds.
pub open spec fn drive(s: SnakeState, steps: Seq<(Seq<Key>, nat)>) -> SnakeState
    decreases steps.len(),
{
    if steps.len() == 0 {
        s
    } else {
        drive(frame(s, steps[0].0, steps[0].1), steps.drop_first())
    }
}

/// Every frame of `drive(s, steps)` fires the clock and does not collide.
pub open spec fn drive_is_safe(s: SnakeState, steps: Seq<(Seq<Key>, nat)>) -> bool
    decreases steps.len(),
{
    if steps.len() == 0 {
        true
    } else {
        &&& s.clock.fires(steps[0].1)
        &&& !steered(s, steps[0].0).collides()
        &&& drive_is_safe(frame(s, steps[0].0, steps[0].1), steps.drop_first())
    }
}

/// The headings actually taken, one per frame, starting from heading `d`.
pub open spec fn headings(d: Direction, steps: Seq<(Seq<Key>, nat)>) -> Seq<Direction>
    decreases steps.len(),
{
    if steps.len() == 0 {
        Seq::empty()
    } else {
        let e = steer(d, steps[0].0);
        seq![e] + headings(e, steps.drop_first())
    }
}

/// Total change of `x` along the headings `ds`.
pub open spec fn sum_dx(ds: Seq<Direction>) -> int
    decreases ds.len(),
{
    if ds.len() == 0 {
        0
    } else {
        dx(ds[0]) + sum_dx(ds.drop_first())
    }
}

/// Total change of `y` along the headings `ds`.
pub open spec fn sum_dy(ds: Seq<Direction>) -> int
    decreases ds.len(),
{
    if ds.len() == 0 {
        0
    } else {
        dy(ds[0]) + sum_dy(ds.drop_first())
    }
}

/// A move that does not collide keeps the game well formed; its head is one step
/// from the old head.
pub proof fn lemma_moved_wf(s: SnakeState)
    requires
        s.wf(),
    ensures
        moved(s).wf(),
        !s.collides() ==> moved(s).chain[0] == s.next_head(),
        !s.collides() ==> moved(s).chain[0].x == s.chain[0].x + dx(s.direction),
        !s.collides() ==> moved(s).chain[0].y == s.chain[0].y + dy(s.direction),
{
    if !s.collides() {
        let m = moved(s);
        assert forall|i: int| 0 <= i < m.chain.len() implies in_arena(#[trigger] m.chain[i]) by {
            if i > 0 {
                assert(in_arena(s.chain[i - 1]));
            }
        }
        assert(in_arena(s.chain[s.chain.len() - 1]));
    } else {
        assert(start_chain()[0] == Position { x: 3, y: 3 });
        assert(start_chain()[1] == Position { x: 3, y: 2 });
    }
}

/// Driving through `steps` and then one more frame is driving through the longer
/// sequence: a run of `update` calls, one per entry, is `drive`.
pub proof fn lemma_drive_push(s: SnakeState, steps: Seq<(Seq<Key>, nat)>, last: (Seq<Key>, nat))
    ensures
        drive(s, steps.push(last)) == frame(drive(s, steps), last.0, last.1),
        drive_is_safe(s, steps.push(last)) == (drive_is_safe(s, steps) && drive(s, steps).clock.fires(
            last.1,
        ) && !steered(drive(s, steps), last.0).collides()),
    decreases steps.len(),
{
    let longer = steps.push(last);
    assert(longer[0] == if steps.len() > 0 { steps[0] } else { last });
    if steps.len() > 0 {
        let f = frame(s, steps[0].0, steps[0].1);
        lemma_drive_push(f, steps.drop_first(), last);
        assert(longer.drop_first() =~= steps.drop_first().push(last));
    } else {
        let f = frame(s, last.0, last.1);
        assert(longer.drop_first() =~= steps);
        assert(drive(f, steps) == f);
        assert(drive_is_safe(f, steps));
    }
}

/// A frame whose clock fires and whose move does not collide keeps the game well
/// formed, takes the steered heading and moves the head one step along it; eating
/// and growth leave the head where it is.
pub proof fn lemma_frame_moves_head(s: SnakeState, held: Seq<Key>, delta: nat)
    requires
        s.wf(),
        s.clock.fires(delta),
        !steered(s, held).collides(),
    ensures
        frame(s, held, delta).wf(),
        frame(s, held, delta).direction == steer(s.direction, held),
        frame(s, held, delta).chain[0].x == s.chain[0].x + dx(steer(s.direction, held)),
        frame(s, held, delta).chain[0].y == s.chain[0].y + dy(steer(s.direction, held)),
{
    let c = steered(s, held).advance_clock(delta);
    if s.clock.period > 0 {
        lemma_mod_pos_bound((s.clock.elapsed + delta) as int, s.clock.period as int);
    }
    assert(c.wf());
    lemma_moved_wf(c);
    let t = ticked(steered(s, held), delta);
    assert(t == moved(c));
    let e = eaten(t);
    let f = grown(e, growth_of(t));
    assert(f.chain[0] == t.chain[0]);
    assert forall|i: int| 0 <= i < f.chain.len() implies in_arena(#[trigger] f.chain[i]) by {
        if i >= t.chain.len() {
            assert(f.chain[i] == t.pending_tail->Some_0);
        } else {
            assert(in_arena(t.chain[i]));
        }
    }
}

/// Over frames whose clock fires and whose move does not collide, the head ends at
/// its start cell plus one unit step for each heading actually taken, where a
/// request to turn straight back is ignored.
pub proof fn lemma_head_follows_headings(s: SnakeState, steps: Seq<(Seq<Key>, nat)>)
    requires
        s.wf(),
        drive_is_safe(s, steps),
    ensures
        drive(s, steps).wf(),
        drive(s, steps).chain[0].x == s.chain[0].x + sum_dx(headings(s.direction, steps)),
        drive(s, steps).chain[0].y == s.chain[0].y + sum_dy(headings(s.direction, steps)),
    decreases steps.len(),
{
    if steps.len() > 0 {
        let f = frame(s, steps[0].0, steps[0].1);
        lemma_frame_moves_head(s, steps[0].0, steps[0].1);
        lemma_head_follows_headings(f, steps.drop_first());
        let hs = headings(s.direction, steps);
        assert(hs[0] == f.direction);
        assert(hs.drop_first() =~= headings(f.direction, steps.drop_first()));
    }
}

/// A request to turn straight back leaves the heading as it was.
pub proof fn lemma_reverse_ignored(d: Direction, held: Seq<Key>)
    requires
        requested(held) == Some(opposite_of(d)),
    ensures
        steer(d, held) == d,
{
}

/// After a fired tick that does not collide, each segment holds the cell its
/// predecessor held before the tick, and the head has moved one step.
pub proof fn lemma_body_follows(s: SnakeState, delta: nat)
    requires
        s.wf(),
        s.clock.fires(delta),
        !s.collides(),
    ensures
        ticked(s, delta).chain.len() == s.chain.len(),
        ticked(s, delta).chain[0] == s.next_head(),
        forall|i: int| 1 <= i < s.chain.len() ==> #[trigger] ticked(s, delta).chain[i] == s.chain[i - 1],
        ticked(s, delta).pending_tail == Some(s.chain.last()),
{
}

/// Heading onto a cell of the snake ends the game once and starts it over.
pub proof fn lemma_self_collision(s: SnakeState, d: Direction, delta: nat)
    requires
        s.wf(),
        s.clock.fires(delta),
        (SnakeState { direction: d, ..s }).chain.contains((SnakeState { direction: d, ..s }).next_head()),
    ensures
        tick_outcome(SnakeState { direction: d, ..s }, delta) == TickOutcome::GameOver,
        ticked(SnakeState { direction: d, ..s }, delta) == restarted(s).advance_clock(delta),
{
}

/// Stepping onto a cell just outside the arena ends the game and starts it over.
pub proof fn lemma_wall_collision(s: SnakeState, delta: nat)
    requires
        s.wf(),
        s.clock.fires(delta),
        s.next_head().x == -1 || s.next_head().y == -1 || s.next_head().x == WIDTH
            || s.next_head().y == HEIGHT,
    ensures
        tick_outcome(s, delta) == TickOutcome::GameOver,
        ticked(s, delta) == restarted(s).advance_clock(delta),
{
}

/// A frame whose tick moves the snake onto exactly one food item adds exactly one
/// segment, at the cell where the tail stood before that tick.
pub proof fn lemma_growth(s: SnakeState, held: Seq<Key>, delta: nat)
    requires
        s.wf(),
        s.clock.fires(delta),
        !steered(s, held).collides(),
        growth_of(ticked(steered(s, held), delta)) == 1,
    ensures
        frame(s, held, delta).chain.len() == s.chain.len() + 1,
        ticked(steered(s, held), delta).pending_tail == Some(s.chain.last()),
        frame(s, held, delta).chain.last() == s.chain.last(),
{
    let t = ticked(steered(s, held), delta);
    let g = grown(eaten(t), 1);
    assert(g.chain.last() == s.chain.last());
}

/// Starting over is idempotent: from the start state it gives the same state, and
/// a chain already at the start cells stays as it is, in length and cells.
pub proof fn lemma_reset_idempotent(s: SnakeState)
    ensures
        restarted(restarted(s)) == restarted(s),
        s.chain == start_chain() ==> restarted(s).chain == s.chain,
{
}

} // verus!
