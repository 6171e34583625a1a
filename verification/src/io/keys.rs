use vstd::prelude::*;

use crate::io::joypad::JoypadButton;
use crate::vm::IoEvent;

verus! {

/// A key of the host keyboard that the emulator listens to.
#[derive(Debug, Clone, Copy, PartialEq, Eq, Structural)]
pub enum Key {
    Escape,
    Tab,
    Right,
    Left,
    Up,
    Down,
    Z,
    X,
    Space,
    Return,
    Q,
    F1,
}

/// The Game Boy button a key stands for: the arrows for the pad, Z for A, X for B, Space for
/// Select and Return for Start.
pub open spec fn spec_key_button(key: Key) -> Option<JoypadButton> {
    match key {
        Key::Right => Some(JoypadButton::Right),
        Key::Left => Some(JoypadButton::Left),
        Key::Up => Some(JoypadButton::Up),
        Key::Down => Some(JoypadButton::Down),
        Key::Z => Some(JoypadButton::A),
        Key::X => Some(JoypadButton::B),
        Key::Space => Some(JoypadButton::Select),
        Key::Return => Some(JoypadButton::Start),
        _ => None,
    }
}

/// The button keys, in the order their events are sent.
pub open spec fn spec_button_keys() -> Seq<Key> {
    seq![Key::Right, Key::Left, Key::Up, Key::Down, Key::Z, Key::X, Key::Space, Key::Return]
}

/// One event where `cond` holds, none otherwise.
pub open spec fn event_if(cond: bool, event: IoEvent) -> Seq<IoEvent> {
    if cond {
        seq![event]
    } else {
        Seq::empty()
    }
}

/// The button events of the first `n` button keys: a press for each of them in `keys`
/// (`pressed`), or a release.
pub open spec fn spec_button_events(keys: Seq<Key>, pressed: bool, n: int) -> Seq<IoEvent>
    decreases n,
{
    if n <= 0 {
        Seq::empty()
    } else {
        let k = spec_button_keys()[n - 1];
        let b = spec_key_button(k)->Some_0;
        spec_button_events(keys, pressed, n - 1) + event_if(
            keys.contains(k),
            if pressed {
                IoEvent::ButtonPressed(b)
            } else {
                IoEvent::ButtonReleased(b)
            },
        )
    }
}

/// The events of one frame of keyboard input, in order: Tab selects the next color scheme (the
/// previous one with Shift held); F1 turns the frame-rate limit off or back on; Ctrl+Q exits;
/// then a press for each button key pressed and a release for each button key released, each
/// in the order Right, Left, Up, Down, Z, X, Space, Return.
pub open spec fn spec_key_events(
    pressed: Seq<Key>,
    released: Seq<Key>,
    shift: bool,
    ctrl: bool,
) -> Seq<IoEvent> {
    event_if(
        pressed.contains(Key::Tab),
        if shift {
            IoEvent::PrevColorScheme
        } else {
            IoEvent::NextColorScheme
        },
    ) + event_if(pressed.contains(Key::F1), IoEvent::ToggleFPSLimit) + event_if(
        ctrl && pressed.contains(Key::Q),
        IoEvent::Exit,
    ) + spec_button_events(pressed, true, 8) + spec_button_events(released, false, 8)
}

/// Whether `key` is among `keys`.
fn has_key(keys: &[Key], key: Key) -> (r: bool)
    ensures
        r == keys@.contains(key),
{
    let mut i: usize = 0;
    while i < keys.len()
        invariant
            i <= keys.len(),
            forall|j: int| 0 <= j < i ==> keys@[j] != key,
        decreases keys.len() - i,
    {
        if keys[i] == key {
            assert(keys@[i as int] == key);
            return true;
        }
        i += 1;
    }
    false
}

/// Appends `event` where `cond` holds.
fn push_if(events: &mut Vec<IoEvent>, cond: bool, event: IoEvent)
    ensures
        final(events)@ == old(events)@ + event_if(cond, event),
{
    if cond {
        events.push(event);
    }
    assert(events@ =~= old(events)@ + event_if(cond, event));
}

/// The button events of one frame: a press (`pressed`) or a release for each button key in
/// `keys`.
fn button_events(events: &mut Vec<IoEvent>, keys: &[Key], pressed: bool)
    ensures
        final(events)@ == old(events)@ + spec_button_events(keys@, pressed, 8),
{
    let buttons = [
        (Key::Right, JoypadButton::Right),
        (Key::Left, JoypadButton::Left),
        (Key::Up, JoypadButton::Up),
        (Key::Down, JoypadButton::Down),
        (Key::Z, JoypadButton::A),
        (Key::X, JoypadButton::B),
        (Key::Space, JoypadButton::Select),
        (Key::Return, JoypadButton::Start),
    ];
    let ghost start = events@;
    let mut n: usize = 0;
    while n < 8
        invariant
            n <= 8,
            forall|i: int|
                0 <= i < 8 ==> #[trigger] buttons@[i].0 == spec_button_keys()[i]
                    && spec_key_button(buttons@[i].0) == Some(buttons@[i].1),
            events@ == start + spec_button_events(keys@, pressed, n as int),
        decreases 8 - n,
    {
        let (key, button) = buttons[n];
        let present = has_key(keys, key);
        let event = if pressed {
            IoEvent::ButtonPressed(button)
        } else {
            IoEvent::ButtonReleased(button)
        };
        push_if(events, present, event);
        n += 1;
        assert(events@ =~= start + spec_button_events(keys@, pressed, n as int));
    }
}

/// The events of one frame of keyboard input: the keys pressed and released in it, and
/// whether Shift and Ctrl are held.
pub fn key_events(pressed: &[Key], released: &[Key], shift: bool, ctrl: bool) -> (r: Vec<
    IoEvent,
>)
    ensures
        r@ == spec_key_events(pressed@, released@, shift, ctrl),
{
    let mut events: Vec<IoEvent> = Vec::new();
    let tab = has_key(pressed, Key::Tab);
    push_if(
        &mut events,
        tab,
        if shift {
            IoEvent::PrevColorScheme
        } else {
            IoEvent::NextColorScheme
        },
    );
    let f1 = has_key(pressed, Key::F1);
    push_if(&mut events, f1, IoEvent::ToggleFPSLimit);
    let q = has_key(pressed, Key::Q);
    push_if(&mut events, ctrl && q, IoEvent::Exit);
    button_events(&mut events, pressed, true);
    button_events(&mut events, released, false);
    assert(events@ =~= spec_key_events(pressed@, released@, shift, ctrl));
    events
}

/// Whether the keys pressed in a frame ask for a cartridge to be inserted (Escape).
pub fn wants_cartridge(pressed: &[Key]) -> (r: bool)
    ensures
        r == pressed@.contains(Key::Escape),
{
    has_key(pressed, Key::Escape)
}

} // verus!
