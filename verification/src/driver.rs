//! Decision logic of the host's action loop: decoding client messages into
//! actions, translating key codes, and turning each tick's combined output
//! into the pointer commands the injection backend must perform. The loop
//! itself — timers, hotkeys, sockets and the OS injection calls — lives with
//! the unverified collaborators; everything decided here is pure.
use vstd::prelude::*;

use crate::input_combiner::Output;
use crate::ClientInput;

verus! {

/// A key a client can press, as the host injects it.
#[derive(Clone, Copy, Debug, PartialEq, Eq, Structural)]
pub enum Key {
    Layout(char),
    Return,
    Space,
    UpArrow,
    LeftArrow,
    RightArrow,
    DownArrow,
}

/// One unit of work for the host's action loop.
#[derive(Debug, PartialEq, Eq)]
pub enum Action {
    Mouse {
        client_id: String,
        delta_x: i32,
        delta_y: i32,
        left_button_down: bool,
        right_button_down: bool,
    },
    KeyDown { client_id: String, key: Key },
    KeyUp { client_id: String, key: Key },
    Tick,
    ToggleInput,
}

/// Whether bit `n` of `input` is set; false beyond the width of `u16`.
pub open spec fn spec_get_bit_at(input: u16, n: u8) -> bool {
    n < 16 && input & (1u16 << n) != 0
}

pub fn get_bit_at(input: u16, n: u8) -> (r: bool)
    ensures
        r == spec_get_bit_at(input, n),
{
    if n < 16 {
        input & (1u16 << n) != 0
    } else {
        false
    }
}

/// The key a browser-style key code names, for the codes the host supports.
pub open spec fn key_for_code(code: Seq<char>) -> Option<Key> {
    if code == "KeyW"@ {
        Some(Key::Layout('w'))
    } else if code == "KeyA"@ {
        Some(Key::Layout('a'))
    } else if code == "KeyS"@ {
        Some(Key::Layout('s'))
    } else if code == "KeyD"@ {
        Some(Key::Layout('d'))
    } else if code == "KeyQ"@ {
        Some(Key::Layout('q'))
    } else if code == "KeyE"@ {
        Some(Key::Layout('e'))
    } else if code == "KeyR"@ {
        Some(Key::Layout('r'))
    } else if code == "Enter"@ {
        Some(Key::Return)
    } else if code == "Space"@ {
        Some(Key::Space)
    } else if code == "ArrowUp"@ {
        Some(Key::UpArrow)
    } else if code == "ArrowLeft"@ {
        Some(Key::LeftArrow)
    } else if code == "ArrowRight"@ {
        Some(Key::RightArrow)
    } else if code == "ArrowDown"@ {
        Some(Key::DownArrow)
    } else if code == "Digit1"@ {
        Some(Key::Layout('1'))
    } else if code == "Digit2"@ {
        Some(Key::Layout('2'))
    } else if code == "Digit3"@ {
        Some(Key::Layout('3'))
    } else if code == "Digit4"@ {
        Some(Key::Layout('4'))
    } else if code == "Digit5"@ {
        Some(Key::Layout('5'))
    } else if code == "Digit6"@ {
        Some(Key::Layout('6'))
    } else if code == "Digit7"@ {
        Some(Key::Layout('7'))
    } else if code == "Digit8"@ {
        Some(Key::Layout('8'))
    } else if code == "Digit9"@ {
        Some(Key::Layout('9'))
    } else {
        None
    }
}

/// Whether two string slices hold the same characters.
fn str_eq(a: &str, b: &str) -> (r: bool)
    ensures
        r == (a@ == b@),
{
    let owned_a: String = a.to_owned();
    let owned_b: String = b.to_owned();
    owned_a == owned_b
}

pub fn translate_key_code(code: &str) -> (key: Option<Key>)
    ensures
        key == key_for_code(code@),
{
    if str_eq(code, "KeyW") {
        Some(Key::Layout('w'))
    } else if str_eq(code, "KeyA") {
        Some(Key::Layout('a'))
    } else if str_eq(code, "KeyS") {
        Some(Key::Layout('s'))
    } else if str_eq(code, "KeyD") {
        Some(Key::Layout('d'))
    } else if str_eq(code, "KeyQ") {
        Some(Key::Layout('q'))
    } else if str_eq(code, "KeyE") {
        Some(Key::Layout('e'))
    } else if str_eq(code, "KeyR") {
        Some(Key::Layout('r'))
    } else if str_eq(code, "Enter") {
        Some(Key::Return)
    } else if str_eq(code, "Space") {
        Some(Key::Space)
    } else if str_eq(code, "ArrowUp") {
        Some(Key::UpArrow)
    } else if str_eq(code, "ArrowLeft") {
        Some(Key::LeftArrow)
    } else if str_eq(code, "ArrowRight") {
        Some(Key::RightArrow)
    } else if str_eq(code, "ArrowDown") {
        Some(Key::DownArrow)
    } else if str_eq(code, "Digit1") {
        Some(Key::Layout('1'))
    } else if str_eq(code, "Digit2") {
        Some(Key::Layout('2'))
    } else if str_eq(code, "Digit3") {
        Some(Key::Layout('3'))
    } else if str_eq(code, "Digit4") {
        Some(Key::Layout('4'))
    } else if str_eq(code, "Digit5") {
        Some(Key::Layout('5'))
    } else if str_eq(code, "Digit6") {
        Some(Key::Layout('6'))
    } else if str_eq(code, "Digit7") {
        Some(Key::Layout('7'))
    } else if str_eq(code, "Digit8") {
        Some(Key::Layout('8'))
    } else if str_eq(code, "Digit9") {
        Some(Key::Layout('9'))
    } else {
        None
    }
}

/// Decodes one client message into the action the host performs for it:
/// mouse contributions carry the client id, the deltas and the two button
/// bits; key messages carry the translated key, and a message whose key code
/// the host does not support decodes to no action.
pub fn action_for_input(client_id: &str, input: ClientInput) -> (action: Option<Action>)
    ensures
        match input {
            ClientInput::Mouse { dx, dy, btns } => action matches Some(Action::Mouse {
                client_id: cid,
                delta_x,
                delta_y,
                left_button_down,
                right_button_down,
            }) && cid@ == client_id@ && delta_x == dx && delta_y == dy && left_button_down
                == spec_get_bit_at(btns, 0) && right_button_down == spec_get_bit_at(btns, 1),
            ClientInput::KeyDown { code } => match key_for_code(code@) {
                Some(k) => action matches Some(Action::KeyDown { client_id: cid, key })
                    && cid@ == client_id@ && key == k,
                None => action is None,
            },
            ClientInput::KeyUp { code } => match key_for_code(code@) {
                Some(k) => action matches Some(Action::KeyUp { client_id: cid, key })
                    && cid@ == client_id@ && key == k,
                None => action is None,
            },
        },
{
    match input {
        ClientInput::Mouse { dx, dy, btns } => Some(Action::Mouse {
            client_id: client_id.to_owned(),
            delta_x: dx,
            delta_y: dy,
            left_button_down: get_bit_at(btns, 0),
            right_button_down: get_bit_at(btns, 1),
        }),
        ClientInput::KeyDown { code } => match translate_key_code(code.as_str()) {
            Some(key) => Some(Action::KeyDown { client_id: client_id.to_owned(), key }),
            None => None,
        },
        ClientInput::KeyUp { code } => match translate_key_code(code.as_str()) {
            Some(key) => Some(Action::KeyUp { client_id: client_id.to_owned(), key }),
            None => None,
        },
    }
}

/// One pointer operation the injection backend must perform.
#[derive(Clone, Copy, Debug, PartialEq, Eq, Structural)]
pub enum PointerAction {
    MoveRelative { delta_x: i32, delta_y: i32 },
    LeftDown,
    LeftUp,
    RightDown,
    RightUp,
}

/// The pointer operations one combined output asks for, given the button
/// levels already applied: when injection is off, none; otherwise the
/// relative move, then a press or release for each button whose level
/// changed (buttons are level-triggered, so an unchanged level asks for
/// nothing).
pub open spec fn pointer_actions_for(
    inject: bool,
    last_left: bool,
    last_right: bool,
    out: Output,
) -> Seq<PointerAction> {
    if !inject {
        Seq::empty()
    } else {
        seq![
            PointerAction::MoveRelative {
                delta_x: out.mouse_delta_x,
                delta_y: out.mouse_delta_y,
            },
        ] + (if out.mouse_left_button_down && !last_left {
            seq![PointerAction::LeftDown]
        } else if !out.mouse_left_button_down && last_left {
            seq![PointerAction::LeftUp]
        } else {
            Seq::empty()
        }) + (if out.mouse_right_button_down && !last_right {
            seq![PointerAction::RightDown]
        } else if !out.mouse_right_button_down && last_right {
            seq![PointerAction::RightUp]
        } else {
            Seq::empty()
        })
    }
}

/// The state the host's loop carries from tick to tick: whether remote input
/// is currently enabled, whether pointer injection is wired up at all, and
/// the button levels last applied to the OS pointer.
pub struct DriverState {
    pub input_enabled: bool,
    pub mouse_enabled: bool,
    pub last_left_button_down: bool,
    pub last_right_button_down: bool,
}

impl DriverState {
    /// Remote input starts enabled, with both buttons up.
    pub fn new(mouse_enabled: bool) -> (s: Self)
        ensures
            s.input_enabled,
            s.mouse_enabled == mouse_enabled,
            !s.last_left_button_down,
            !s.last_right_button_down,
    {
        DriverState {
            input_enabled: true,
            mouse_enabled,
            last_left_button_down: false,
            last_right_button_down: false,
        }
    }

    /// The hotkey toggle: flips whether remote input is applied.
    pub fn toggle_input(&mut self)
        ensures
            final(self).input_enabled == !old(self).input_enabled,
            final(self).mouse_enabled == old(self).mouse_enabled,
            final(self).last_left_button_down == old(self).last_left_button_down,
            final(self).last_right_button_down == old(self).last_right_button_down,
    {
        self.input_enabled = !self.input_enabled;
    }

    /// Consumes one tick's combined output: returns the pointer operations
    /// to perform and remembers the output's button levels as the baseline
    /// for the next tick (also while injection is disabled, so that
    /// re-enabling does not replay stale button edges).
    pub fn apply_output(&mut self, out: &Output) -> (commands: Vec<PointerAction>)
        ensures
            commands@ == pointer_actions_for(
                old(self).input_enabled && old(self).mouse_enabled,
                old(self).last_left_button_down,
                old(self).last_right_button_down,
                *out,
            ),
            final(self).input_enabled == old(self).input_enabled,
            final(self).mouse_enabled == old(self).mouse_enabled,
            final(self).last_left_button_down == out.mouse_left_button_down,
            final(self).last_right_button_down == out.mouse_right_button_down,
    {
        let mut commands: Vec<PointerAction> = Vec::new();
        if self.input_enabled && self.mouse_enabled {
            commands.push(PointerAction::MoveRelative {
                delta_x: out.mouse_delta_x,
                delta_y: out.mouse_delta_y,
            });
            if out.mouse_left_button_down && !self.last_left_button_down {
                commands.push(PointerAction::LeftDown);
            } else if !out.mouse_left_button_down && self.last_left_button_down {
                commands.push(PointerAction::LeftUp);
            }
            if out.mouse_right_button_down && !self.last_right_button_down {
                commands.push(PointerAction::RightDown);
            } else if !out.mouse_right_button_down && self.last_right_button_down {
                commands.push(PointerAction::RightUp);
            }
        }
        proof {
            assert(commands@ =~= pointer_actions_for(
                self.input_enabled && self.mouse_enabled,
                self.last_left_button_down,
                self.last_right_button_down,
                *out,
            ));
        }
        self.last_left_button_down = out.mouse_left_button_down;
        self.last_right_button_down = out.mouse_right_button_down;
        commands
    }
}

} // verus!
