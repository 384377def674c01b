//! What holds of every tick, proved over the model of the game.
use vstd::prelude::*;
use crate::board::Point;
use crate::game::{after_intent, step_state, tick_state, tick_target, GameState, Status};
use crate::input::Intent;
use crate::snake::{opposite, shifted, turned, Direction};

verus! {

/// A tick in which the head does not reach the fruit leaves the length of the
/// body as it was.
pub proof fn lemma_length_kept_without_fruit(s: GameState, intent: Option<Intent>, respawn: Point)
    requires
        s.wf(),
        tick_target(s, intent) != Some(s.fruit),
    ensures
        tick_state(s, intent, respawn).body.len() == s.body.len(),
{
}

/// A tick in which the head reaches the fruit lengthens the body by one, and
/// the fruit moves to its new cell strictly inside the walls. This holds where
/// the fruit is not on the body (the head would run into it) and the new cell
/// differs from the old one.
pub proof fn lemma_growth_on_fruit(s: GameState, intent: Option<Intent>, respawn: Point)
    requires
        s.wf(),
        tick_target(s, intent) == Some(s.fruit),
        !s.body.contains(s.fruit),
        s.board.is_interior(respawn),
        respawn != s.fruit,
    ensures
        tick_state(s, intent, respawn).body.len() == s.body.len() + 1,
        tick_state(s, intent, respawn).fruit == respawn,
        tick_state(s, intent, respawn).fruit != s.fruit,
        s.board.is_interior(tick_state(s, intent, respawn).fruit),
        tick_state(s, intent, respawn).status == Status::Running,
{
    let s1 = after_intent(s, intent);
    assert(s1.body == s.body && s1.fruit == s.fruit && s1.board == s.board);
}

/// A turn never leaves the snake heading the exact opposite way.
pub proof fn lemma_turn_never_reverses(cur: Direction, req: Direction)
    ensures
        turned(cur, req) != opposite(cur),
{
}

/// In a tick that the game survives, the head moves exactly one cell along the
/// direction in effect, and the rest of the body is the old body, less the
/// tail unless the snake grew.
pub proof fn lemma_head_moves_one_cell(s: GameState, intent: Option<Intent>, respawn: Point)
    requires
        s.wf(),
        s.status == Status::Running,
        tick_state(s, intent, respawn).status == Status::Running,
    ensures
        ({
            let s1 = after_intent(s, intent);
            let t = tick_state(s, intent, respawn);
            &&& (t.body[0].0 as int, t.body[0].1 as int) == shifted(s.body[0], s1.direction)
            &&& t.body.drop_first() == s.body || t.body.drop_first() == s.body.drop_last()
        }),
{
    let s1 = after_intent(s, intent);
    let t = tick_state(s, intent, respawn);
    assert(s1.body == s.body);
    assert(t.body.drop_first() =~= s.body || t.body.drop_first() =~= s.body.drop_last());
}

/// A head that moves into a cell of the body, other than the tail the snake
/// vacates when it does not grow, ends the game.
pub proof fn lemma_self_collision_ends(s: GameState, intent: Option<Intent>, respawn: Point)
    requires
        s.wf(),
        tick_target(s, intent) matches Some(h) && s.kept(h).contains(h),
    ensures
        tick_state(s, intent, respawn).status == Status::Terminated,
{
    let s1 = after_intent(s, intent);
    assert(s1.body == s.body && s1.fruit == s.fruit);
}

/// A head that moves into a wall cell, or past the edge of the coordinates,
/// ends the game.
pub proof fn lemma_wall_collision_ends(s: GameState, intent: Option<Intent>, respawn: Point)
    requires
        s.wf(),
        s.status == Status::Running,
        after_intent(s, intent).status == Status::Running,
        tick_target(s, intent) matches Some(h) ==> s.board.is_wall_spec(h.0 as int, h.1 as int),
    ensures
        tick_state(s, intent, respawn).status == Status::Terminated,
{
}

} // verus!
