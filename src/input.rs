use vstd::prelude::*;
use crate::snake::Direction;

verus! {

/// What a key press asks of the game.
#[derive(Clone, Copy, PartialEq, Eq, Structural, Debug)]
pub enum Intent {
    TurnTo(Direction),
    Quit,
}

/// The intent of the character key `c`, pressed with Control or without.
pub open spec fn key_intent_spec(c: char, control: bool) -> Option<Intent> {
    if control {
        if c == 'c' || c == 'q' {
            Some(Intent::Quit)
        } else {
            None
        }
    } else if c == 'q' {
        Some(Intent::Quit)
    } else if c == 'w' {
        Some(Intent::TurnTo(Direction::North))
    } else if c == 's' {
        Some(Intent::TurnTo(Direction::South))
    } else if c == 'a' {
        Some(Intent::TurnTo(Direction::West))
    } else if c == 'd' {
        Some(Intent::TurnTo(Direction::East))
    } else {
        None
    }
}

/// A key pressed with Control: `c` and `q` quit, any other is ignored.
pub fn control_key_intent(c: char) -> (r: Option<Intent>)
    ensures
        r == key_intent_spec(c, true),
{
    match c {
        'c' | 'q' => Some(Intent::Quit),
        _ => None,
    }
}

/// A key pressed alone: `w`, `s`, `a`, `d` turn North, South, West, East;
/// `q` quits; any other is ignored.
pub fn plain_key_intent(c: char) -> (r: Option<Intent>)
    ensures
        r == key_intent_spec(c, false),
{
    match c {
        'q' => Some(Intent::Quit),
        'w' => Some(Intent::TurnTo(Direction::North)),
        's' => Some(Intent::TurnTo(Direction::South)),
        'a' => Some(Intent::TurnTo(Direction::West)),
        'd' => Some(Intent::TurnTo(Direction::East)),
        _ => None,
    }
}

/// The intent of the character key `c`, pressed with Control or without.
pub fn key_intent(c: char, control: bool) -> (r: Option<Intent>)
    ensures
        r == key_intent_spec(c, control),
{
    if control {
        control_key_intent(c)
    } else {
        plain_key_intent(c)
    }
}

/// Intents waiting for the simulation, oldest first.
pub struct IntentQueue {
    pub pending: Vec<Intent>,
}

impl IntentQueue {
    pub fn new() -> (r: IntentQueue)
        ensures
            r.pending@ == Seq::<Intent>::empty(),
    {
        IntentQueue { pending: Vec::new() }
    }

    /// Adds `i` behind the intents already waiting.
    pub fn push(&mut self, i: Intent)
        ensures
            final(self).pending@ == old(self).pending@.push(i),
    {
        self.pending.push(i);
    }

    /// Takes the oldest waiting intent, if any.
    pub fn pop_oldest(&mut self) -> (r: Option<Intent>)
        ensures
            old(self).pending@.len() == 0 ==> r is None && final(self).pending@ == old(self).pending@,
            old(self).pending@.len() > 0 ==> r == Some(old(self).pending@[0])
                && final(self).pending@ == old(self).pending@.subrange(1, old(self).pending@.len() as int),
    {
        if self.pending.len() == 0 {
            None
        } else {
            Some(self.pending.remove(0))
        }
    }
}

} // verus!
