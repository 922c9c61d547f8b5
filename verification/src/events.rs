//! Input events and the actions they ask for.

use vstd::prelude::*;

verus! {

/// A key of the keyboard, as far as playback tells keys apart.
#[derive(Clone, Copy, Debug, PartialEq, Eq, Structural)]
pub enum Key {
    Escape,
    Other,
}

/// An event of the window system, as far as playback tells events apart.
#[derive(Clone, Copy, Debug, PartialEq, Eq, Structural)]
pub enum InputEvent {
    /// The window was asked to close.
    Quit,
    /// A key went down.
    KeyDown { key: Key },
    /// Anything else.
    Other,
}

/// What the user asks of the playback.
#[derive(Clone, Copy, Debug, PartialEq, Eq, Structural)]
pub enum Action {
    Quit,
}

/// The action that an event asks for: closing the window and pressing
/// escape ask to quit, every other event asks for nothing.
pub open spec fn action_of(event: InputEvent) -> Option<Action> {
    match event {
        InputEvent::Quit => Some(Action::Quit),
        InputEvent::KeyDown { key: Key::Escape } => Some(Action::Quit),
        _ => None,
    }
}

/// The actions asked for by the events that were pending at one tick, in
/// the events' order.
pub fn actions(events: &Vec<InputEvent>) -> (actions: Vec<Action>)
    ensures
        actions@ == events@.filter_map(|e: InputEvent| action_of(e)),
{
    let ghost to_action = |e: InputEvent| action_of(e);
    let mut actions: Vec<Action> = Vec::new();
    let mut i: usize = 0;
    while i < events.len()
        invariant
            0 <= i <= events.len(),
            to_action == |e: InputEvent| action_of(e),
            actions@ == events@.take(i as int).filter_map(to_action),
        decreases events.len() - i,
    {
        proof {
            events@.lemma_filter_map_take_succ(to_action, i as int);
        }
        match events[i] {
            InputEvent::Quit => actions.push(Action::Quit),
            InputEvent::KeyDown { key } => {
                if key == Key::Escape {
                    actions.push(Action::Quit);
                }
            },
            InputEvent::Other => {},
        }
        i += 1;
    }
    assert(events@.take(i as int) == events@);
    actions
}

/// One of the actions asks to quit.
pub open spec fn asks_to_quit(actions: Seq<Action>) -> bool {
    exists|i: int| 0 <= i < actions.len() && actions[i] == Action::Quit
}

/// Whether the actions of one tick ask to end the playback. To quit is
/// all that can be asked, so any action does.
pub fn quit_requested(actions: &Vec<Action>) -> (quit: bool)
    ensures
        quit == asks_to_quit(actions@),
{
    let quit = actions.len() > 0;
    proof {
        if quit {
            assert(actions@[0] == Action::Quit);
        }
    }
    quit
}

} // verus!
