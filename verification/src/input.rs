//! The input an embedder reports through the C API, as the events Servo is notified of.

use vstd::prelude::*;

verus! {

broadcast use vstd::string::group_string_axioms;

/// A mouse button, as the C API names it.
#[derive(Clone, Copy, Debug, PartialEq, Eq, Structural)]
pub enum ServoMouseButton {
    Left,
    Middle,
    Right,
}

/// A key that is not a character, as the C API names it.
#[derive(Clone, Copy, Debug, PartialEq, Eq, Structural)]
pub enum ServoNamedKey {
    Enter,
    Tab,
    Backspace,
    Delete,
    Escape,
    ArrowLeft,
    ArrowRight,
    ArrowUp,
    ArrowDown,
    Home,
    End,
    PageUp,
    PageDown,
}

/// Whether a mouse button went down or came up.
#[derive(Clone, Copy, Debug, PartialEq, Eq, Structural)]
pub enum MouseButtonAction {
    Down,
    Up,
}

/// Whether a key went down or came up.
#[derive(Clone, Copy, Debug, PartialEq, Eq, Structural)]
pub enum KeyState {
    Down,
    Up,
}

/// The key of a keyboard event: a named key, or one that types a character.
#[derive(Clone, Copy, Debug, PartialEq, Eq, Structural)]
pub enum Key {
    Named(ServoNamedKey),
    Character(char),
}

/// A key going down or coming up.
#[derive(Clone, Copy, Debug, PartialEq, Eq, Structural)]
pub struct KeyEvent {
    pub state: KeyState,
    pub key: Key,
}

pub open spec fn button_action(down: bool) -> MouseButtonAction {
    if down {
        MouseButtonAction::Down
    } else {
        MouseButtonAction::Up
    }
}

pub open spec fn key_state(down: bool) -> KeyState {
    if down {
        KeyState::Down
    } else {
        KeyState::Up
    }
}

/// The events that type `text`: for each character in turn, its key going down, then up.
pub open spec fn typing_events(text: Seq<char>) -> Seq<KeyEvent> {
    Seq::new(2 * text.len(), |j: int| typing_event(text, j))
}

/// The `j`th event that types `text`: the key of its `j / 2`th character, going down when `j` is
/// even and coming up when it is odd.
pub open spec fn typing_event(text: Seq<char>, j: int) -> KeyEvent {
    KeyEvent {
        state: if j % 2 == 0 {
            KeyState::Down
        } else {
            KeyState::Up
        },
        key: Key::Character(text[j / 2]),
    }
}

/// Typing one more character adds its key going down, then up.
proof fn lemma_typing_events_push(done: Seq<char>, c: char)
    ensures
        typing_events(done.push(c)) == typing_events(done).push(
            KeyEvent { state: KeyState::Down, key: Key::Character(c) },
        ).push(KeyEvent { state: KeyState::Up, key: Key::Character(c) }),
{
    let next = done.push(c);
    let mid = typing_events(done).push(KeyEvent { state: KeyState::Down, key: Key::Character(c) });
    let expected = mid.push(KeyEvent { state: KeyState::Up, key: Key::Character(c) });
    assert forall|j: int| 0 <= j < typing_events(next).len() implies typing_events(next)[j]
        == expected[j] by {
        if j < 2 * done.len() {
            assert(next[j / 2] == done[j / 2]);
        }
    }
    assert(typing_events(next) =~= expected);
}

/// The action of a mouse button event: `Down` when the button went down, `Up` otherwise.
pub fn mouse_button_action(down: bool) -> (res: MouseButtonAction)
    ensures
        res == button_action(down),
{
    if down {
        MouseButtonAction::Down
    } else {
        MouseButtonAction::Up
    }
}

/// The event of the named key `key` going down, or coming up.
pub fn named_key_event(key: ServoNamedKey, down: bool) -> (res: KeyEvent)
    ensures
        res == (KeyEvent { state: key_state(down), key: Key::Named(key) }),
{
    let state = if down {
        KeyState::Down
    } else {
        KeyState::Up
    };
    KeyEvent { state, key: Key::Named(key) }
}

/// The events that type `text`: each character's key goes down, then up, before the next one's.
pub fn typing_key_events(text: &str) -> (res: Vec<KeyEvent>)
    ensures
        res@ == typing_events(text@),
{
    let mut events: Vec<KeyEvent> = Vec::new();
    proof {
        assert(text@.take(0).len() == 0);
        assert(typing_events(text@.take(0)).len() == 0);
        assert(typing_events(text@.take(0)) =~= Seq::<KeyEvent>::empty());
    }
    for c in it: text.chars()
        invariant
            it.seq() == text@,
            events@ == typing_events(text@.take(it.index() as int)),
    {
        let ghost done = text@.take(it.index() as int);
        proof {
            assert(text@.take(it.index() + 1) =~= done.push(c));
        }
        events.push(KeyEvent { state: KeyState::Down, key: Key::Character(c) });
        events.push(KeyEvent { state: KeyState::Up, key: Key::Character(c) });
        proof {
            lemma_typing_events_push(done, c);
        }
    }
    proof {
        assert(text@.take(text@.len() as int) =~= text@);
    }
    events
}

} // verus!
