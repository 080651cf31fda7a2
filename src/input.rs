//! Snapshots of keyboard, mouse and display state, refreshed by the game loop.
use std::collections::HashMap;
use vstd::prelude::*;

verus! {

broadcast use vstd::std_specs::hash::group_hash_axioms;

/// Whether a key or mouse button is held down.
#[derive(Copy, Clone, Debug, PartialEq, Eq, Hash, Structural)]
pub enum ButtonState {
    Pressed,
    Released,
}

/// The last recorded transition of a key or mouse button, with the tick it happened in.
#[derive(Copy, Clone, Debug, PartialEq, Eq, Structural)]
pub struct Button {
    tick_number: u64,
    state: ButtonState,
}

impl Button {
    /// The tick number and the state.
    pub closed spec fn view(&self) -> (u64, ButtonState) {
        (self.tick_number, self.state)
    }

    pub fn new(tick_number: u64, state: ButtonState) -> (r: Button)
        ensures
            r@ == (tick_number, state),
    {
        Button { tick_number, state }
    }

    pub fn get_tick_number(&self) -> (r: u64)
        ensures
            r == self@.0,
    {
        self.tick_number
    }

    pub fn get_state(&self) -> (r: ButtonState)
        ensures
            r == self@.1,
    {
        self.state
    }
}

/// What is known of a key or button for which no transition was recorded.
pub open spec fn untouched() -> (u64, ButtonState) {
    (0, ButtonState::Released)
}

/// A keyboard key, by the backend's key code number.
#[derive(Copy, Clone, Debug, PartialEq, Eq, Hash, Structural)]
pub struct KeyCode {
    pub code: u32,
}

/// A mouse button.
#[derive(Copy, Clone, Debug, PartialEq, Eq, Hash, Structural)]
pub enum MouseButton {
    Left,
    Right,
    Middle,
    Other(u16),
}

/// A distinct number for each mouse button.
pub open spec fn mouse_button_index(b: MouseButton) -> int {
    match b {
        MouseButton::Left => 0,
        MouseButton::Right => 1,
        MouseButton::Middle => 2,
        MouseButton::Other(n) => 3 + n,
    }
}

impl MouseButton {
    pub fn index(&self) -> (r: u32)
        ensures
            r as int == mouse_button_index(*self),
    {
        match self {
            MouseButton::Left => 0,
            MouseButton::Right => 1,
            MouseButton::Middle => 2,
            MouseButton::Other(n) => 3 + *n as u32,
        }
    }
}

/// The recorded state of every key.
pub struct Keyboard {
    keys: HashMap<u32, Button>,
}

impl Keyboard {
    /// The tick number and state recorded for `key`.
    pub closed spec fn key_state(&self, key: KeyCode) -> (u64, ButtonState) {
        if self.keys@.contains_key(key.code) {
            self.keys@[key.code]@
        } else {
            untouched()
        }
    }

    pub fn new() -> (r: Keyboard)
        ensures
            forall|k: KeyCode| #[trigger] r.key_state(k) == untouched(),
    {
        Keyboard { keys: HashMap::new() }
    }

    pub fn get_key(&self, key_code: KeyCode) -> (r: Button)
        ensures
            r@ == self.key_state(key_code),
    {
        match self.keys.get(&key_code.code) {
            Some(key) => *key,
            None => Button::new(0, ButtonState::Released),
        }
    }

    pub fn set_key_state(&mut self, key_code: KeyCode, key: Button)
        ensures
            forall|k: KeyCode|
                #[trigger] final(self).key_state(k) == if k == key_code {
                    key@
                } else {
                    old(self).key_state(k)
                },
    {
        self.keys.insert(key_code.code, key);
    }
}

/// The recorded state of every mouse button, and the pointer position in pixels.
pub struct Mouse {
    buttons: HashMap<u32, Button>,
    position: (i32, i32),
}

impl Mouse {
    /// The tick number and state recorded for `button`.
    pub closed spec fn button_state(&self, button: MouseButton) -> (u64, ButtonState) {
        if self.buttons@.contains_key(mouse_button_index(button) as u32) {
            self.buttons@[mouse_button_index(button) as u32]@
        } else {
            untouched()
        }
    }

    pub closed spec fn position(&self) -> (i32, i32) {
        self.position
    }

    pub fn new() -> (r: Mouse)
        ensures
            forall|b: MouseButton| #[trigger] r.button_state(b) == untouched(),
            r.position() == (0i32, 0i32),
    {
        Mouse { buttons: HashMap::new(), position: (0, 0) }
    }

    pub fn set_mouse_button(&mut self, button: MouseButton, state: Button)
        ensures
            forall|b: MouseButton|
                #[trigger] final(self).button_state(b) == if b == button {
                    state@
                } else {
                    old(self).button_state(b)
                },
            final(self).position() == old(self).position(),
    {
        let key = button.index();
        self.buttons.insert(key, state);
        assert forall|b: MouseButton| #[trigger] self.button_state(b) == if b == button {
            state@
        } else {
            old(self).button_state(b)
        } by {
            if b != button {
                assert(mouse_button_index(b) != mouse_button_index(button));
            }
        }
    }

    pub fn get_button(&self, mouse_button: MouseButton) -> (r: Button)
        ensures
            r@ == self.button_state(mouse_button),
    {
        match self.buttons.get(&mouse_button.index()) {
            Some(button) => *button,
            None => Button::new(0, ButtonState::Released),
        }
    }

    pub fn set_mouse_position(&mut self, pos: (i32, i32))
        ensures
            final(self).position() == pos,
            forall|b: MouseButton| #[trigger] final(self).button_state(b) == old(self).button_state(b),
    {
        self.position = pos;
    }

    pub fn get_mouse_position(&self) -> (r: (i32, i32))
        ensures
            r == self.position(),
    {
        self.position
    }
}

/// The size of the drawing surface in pixels.
pub struct Display {
    resolution: (u32, u32),
}

impl Display {
    pub closed spec fn resolution(&self) -> (u32, u32) {
        self.resolution
    }

    pub fn new(resolution: (u32, u32)) -> (r: Display)
        ensures
            r.resolution() == resolution,
    {
        Display { resolution }
    }

    pub fn set_resolution(&mut self, resolution: (u32, u32))
        ensures
            final(self).resolution() == resolution,
    {
        self.resolution = resolution;
    }

    pub fn get_resolution(&self) -> (r: (u32, u32))
        ensures
            r == self.resolution(),
    {
        self.resolution
    }
}

/// What the window reports between two polls.
#[derive(Copy, Clone, Debug, PartialEq, Eq, Structural)]
pub enum InputEvent {
    Resized(u32, u32),
    Closed,
    Focused(bool),
    Key(KeyCode, ButtonState),
    MouseMoved(i32, i32),
    MouseInput(MouseButton, ButtonState),
}

/// Records `event` in the input state, tagging button transitions with `tick_number`.
/// Returns false for a close request, which changes nothing; focus changes nothing either.
pub fn apply_input(
    event: InputEvent,
    tick_number: u64,
    keyboard: &mut Keyboard,
    mouse: &mut Mouse,
    display: &mut Display,
) -> (r: bool)
    ensures
        r == (event != InputEvent::Closed),
        forall|k: KeyCode|
            #[trigger] final(keyboard).key_state(k) == match event {
                InputEvent::Key(code, state) if code == k => (tick_number, state),
                _ => old(keyboard).key_state(k),
            },
        forall|b: MouseButton|
            #[trigger] final(mouse).button_state(b) == match event {
                InputEvent::MouseInput(button, state) if button == b => (tick_number, state),
                _ => old(mouse).button_state(b),
            },
        final(mouse).position() == match event {
            InputEvent::MouseMoved(x, y) => (x, y),
            _ => old(mouse).position(),
        },
        final(display).resolution() == match event {
            InputEvent::Resized(w, h) => (w, h),
            _ => old(display).resolution(),
        },
{
    match event {
        InputEvent::Resized(w, h) => {
            display.set_resolution((w, h));
            true
        },
        InputEvent::Closed => false,
        InputEvent::Focused(_) => true,
        InputEvent::Key(code, state) => {
            keyboard.set_key_state(code, Button::new(tick_number, state));
            true
        },
        InputEvent::MouseMoved(x, y) => {
            mouse.set_mouse_position((x, y));
            true
        },
        InputEvent::MouseInput(button, state) => {
            mouse.set_mouse_button(button, Button::new(tick_number, state));
            true
        },
    }
}

} // verus!
