//! The joypad register: the state of the buttons and the direction pad, as the selected group
//! of four keys.
use vstd::prelude::*;

use crate::memory::Address;

verus! {

/// The keys that are pressed
#[derive(Debug, Clone, Copy, PartialEq, Eq, Structural)]
pub struct State {
    /// The left direction
    pub left: bool,
    /// The right direction
    pub right: bool,
    /// The up direction
    pub up: bool,
    /// The down direction
    pub down: bool,
    /// The A button
    pub a: bool,
    /// The B button
    pub b: bool,
    /// The start button
    pub start: bool,
    /// The select button
    pub select: bool,
}

impl State {
    /// No key is pressed
    pub fn new() -> (r: Self)
        ensures
            r == (State {
                left: false,
                right: false,
                up: false,
                down: false,
                a: false,
                b: false,
                start: false,
                select: false,
            }),
    {
        State {
            left: false,
            right: false,
            up: false,
            down: false,
            a: false,
            b: false,
            start: false,
            select: false,
        }
    }
}

/// A key of the Game Boy
#[derive(Debug, Clone, Copy, PartialEq, Eq, Structural)]
pub enum Key {
    /// Up on the direction pad
    Up,
    /// Down on the direction pad
    Down,
    /// Left on the direction pad
    Left,
    /// Right on the direction pad
    Right,
    /// The A button
    A,
    /// The B button
    B,
    /// The start button
    Start,
    /// The select button
    Select,
}

/// The key of the Game Boy that a key of the keyboard of a desktop computer stands for, by
/// the character it types: W, S, A and D for the direction pad, J for A, K for B, the
/// semicolon for start and the space bar for select.
pub open spec fn spec_host_key(code: u32) -> Option<Key> {
    if code == 0x77 {
        Some(Key::Up)
    } else if code == 0x73 {
        Some(Key::Down)
    } else if code == 0x64 {
        Some(Key::Right)
    } else if code == 0x61 {
        Some(Key::Left)
    } else if code == 0x6A {
        Some(Key::A)
    } else if code == 0x6B {
        Some(Key::B)
    } else if code == 0x3B {
        Some(Key::Start)
    } else if code == 0x20 {
        Some(Key::Select)
    } else {
        None
    }
}

/// The key of the Game Boy that a key of the keyboard stands for, by the code of the character
/// it types (see `spec_host_key`)
pub fn host_key(code: u32) -> (r: Option<Key>)
    ensures
        r == spec_host_key(code),
{
    if code == 0x77 {
        Some(Key::Up)
    } else if code == 0x73 {
        Some(Key::Down)
    } else if code == 0x64 {
        Some(Key::Right)
    } else if code == 0x61 {
        Some(Key::Left)
    } else if code == 0x6A {
        Some(Key::A)
    } else if code == 0x6B {
        Some(Key::B)
    } else if code == 0x3B {
        Some(Key::Start)
    } else if code == 0x20 {
        Some(Key::Select)
    } else {
        None
    }
}

/// The keys of `state`, with `key` pressed or released.
pub open spec fn with_key(state: State, key: Key, pressed: bool) -> State {
    match key {
        Key::Up => State { up: pressed, ..state },
        Key::Down => State { down: pressed, ..state },
        Key::Left => State { left: pressed, ..state },
        Key::Right => State { right: pressed, ..state },
        Key::A => State { a: pressed, ..state },
        Key::B => State { b: pressed, ..state },
        Key::Start => State { start: pressed, ..state },
        Key::Select => State { select: pressed, ..state },
    }
}

impl State {
    /// Presses or releases a key
    pub fn set_key(&mut self, key: Key, pressed: bool)
        ensures
            *final(self) == with_key(*old(self), key, pressed),
    {
        match key {
            Key::Up => self.up = pressed,
            Key::Down => self.down = pressed,
            Key::Left => self.left = pressed,
            Key::Right => self.right = pressed,
            Key::A => self.a = pressed,
            Key::B => self.b = pressed,
            Key::Start => self.start = pressed,
            Key::Select => self.select = pressed,
        }
    }
}

/// The state of the joypad register.
pub struct JoypadModel {
    /// The buttons (bit 0 A, 1 B, 2 select, 3 start), 0 when pressed
    pub buttons: u8,
    /// The direction pad (bit 0 right, 1 left, 2 up, 3 down), 0 when pressed
    pub dpad: u8,
    /// The buttons are selected
    pub sel_buttons: bool,
    /// The direction pad is selected
    pub sel_dpad: bool,
}

/// The joypad
pub struct Joypad {
    buttons: u8,
    dpad: u8,
    sel_buttons: bool,
    sel_dpad: bool,
}

impl View for Joypad {
    type V = JoypadModel;

    closed spec fn view(&self) -> JoypadModel {
        JoypadModel {
            buttons: self.buttons,
            dpad: self.dpad,
            sel_buttons: self.sel_buttons,
            sel_dpad: self.sel_dpad,
        }
    }
}

/// The four low bits of a group of keys: bit `i` is 0 when key `i` is pressed.
pub open spec fn key_nibble(k0: bool, k1: bool, k2: bool, k3: bool) -> u8 {
    ((if k0 {
        0u8
    } else {
        1u8
    }) | (if k1 {
        0u8
    } else {
        2u8
    }) | (if k2 {
        0u8
    } else {
        4u8
    }) | (if k3 {
        0u8
    } else {
        8u8
    })) as u8
}

/// The value that a read of the joypad register returns: the selected group of keys, with the
/// select bits set for the group that is not selected.
pub open spec fn joypad_read(j: JoypadModel) -> u8 {
    if j.sel_dpad && j.sel_buttons {
        j.dpad & j.buttons
    } else if j.sel_dpad {
        j.dpad | 0x20
    } else if j.sel_buttons {
        j.buttons | 0x10
    } else {
        0x3f
    }
}

/// The joypad after a write of `value`: bit 4 clear selects the direction pad, bit 5 clear the
/// buttons.
pub open spec fn joypad_write(j: JoypadModel, value: u8) -> JoypadModel {
    JoypadModel { sel_dpad: value & 0x10 == 0, sel_buttons: value & 0x20 == 0, ..j }
}

/// A key group reads 0 in the bit of each pressed key and 1 in the bit of each released one.
pub proof fn lemma_key_nibble_bits(k0: bool, k1: bool, k2: bool, k3: bool)
    ensures
        (key_nibble(k0, k1, k2, k3) & 0x01 == 0) == k0,
        (key_nibble(k0, k1, k2, k3) & 0x02 == 0) == k1,
        (key_nibble(k0, k1, k2, k3) & 0x04 == 0) == k2,
        (key_nibble(k0, k1, k2, k3) & 0x08 == 0) == k3,
        key_nibble(k0, k1, k2, k3) < 0x10,
{
    let v = key_nibble(k0, k1, k2, k3);
    assert((v & 0x01 == 0) == k0 && (v & 0x02 == 0) == k1 && (v & 0x04 == 0) == k2 && (v & 0x08
        == 0) == k3 && v < 0x10) by (bit_vector)
        requires
            v == ((if k0 {
                0u8
            } else {
                1u8
            }) | (if k1 {
                0u8
            } else {
                2u8
            }) | (if k2 {
                0u8
            } else {
                4u8
            }) | (if k3 {
                0u8
            } else {
                8u8
            })),
    ;
}

/// With the buttons selected alone, the joypad register reads the buttons of the pressed keys
/// as 0 (A, B, select and start from bit 0), and sets the bit that deselects the direction pad.
pub proof fn lemma_buttons_read(j: JoypadModel, state: State)
    requires
        j.buttons == key_nibble(state.a, state.b, state.select, state.start),
        j.sel_buttons,
        !j.sel_dpad,
    ensures
        (joypad_read(j) & 0x01 == 0) == state.a,
        (joypad_read(j) & 0x02 == 0) == state.b,
        (joypad_read(j) & 0x04 == 0) == state.select,
        (joypad_read(j) & 0x08 == 0) == state.start,
        joypad_read(j) & 0x30 == 0x10,
{
    lemma_key_nibble_bits(state.a, state.b, state.select, state.start);
    let v = j.buttons;
    assert((v | 0x10) & 0x01 == v & 0x01 && (v | 0x10) & 0x02 == v & 0x02 && (v | 0x10) & 0x04
        == v & 0x04 && (v | 0x10) & 0x08 == v & 0x08 && (v | 0x10) & 0x30 == 0x10) by (bit_vector)
        requires
            v < 0x10,
    ;
}

/// The bits of one key: all four set but bit `bit` when the key is pressed.
fn to_bit(val: bool, bit: u8) -> (r: u8)
    requires
        bit < 4,
    ensures
        r == (if val {
            !(1u8 << bit) & 0xf
        } else {
            0x0fu8
        }),
{
    if val {
        !(1u8 << bit) & 0xf
    } else {
        0x0f
    }
}

proof fn lemma_key_nibble(k0: bool, k1: bool, k2: bool, k3: bool)
    ensures
        (if k0 {
            !(1u8 << 0u8) & 0xf
        } else {
            0x0fu8
        }) & (if k1 {
            !(1u8 << 1u8) & 0xf
        } else {
            0x0fu8
        }) & (if k2 {
            !(1u8 << 2u8) & 0xf
        } else {
            0x0fu8
        }) & (if k3 {
            !(1u8 << 3u8) & 0xf
        } else {
            0x0fu8
        }) == key_nibble(k0, k1, k2, k3),
{
    assert((if k0 {
        !(1u8 << 0u8) & 0xf
    } else {
        0x0fu8
    }) & (if k1 {
        !(1u8 << 1u8) & 0xf
    } else {
        0x0fu8
    }) & (if k2 {
        !(1u8 << 2u8) & 0xf
    } else {
        0x0fu8
    }) & (if k3 {
        !(1u8 << 3u8) & 0xf
    } else {
        0x0fu8
    }) == ((if k0 {
        0u8
    } else {
        1u8
    }) | (if k1 {
        0u8
    } else {
        2u8
    }) | (if k2 {
        0u8
    } else {
        4u8
    }) | (if k3 {
        0u8
    } else {
        8u8
    }))) by (bit_vector);
}

impl Joypad {
    /// A joypad with no key pressed and no group selected
    pub fn new() -> (r: Self)
        ensures
            r@ == (JoypadModel { buttons: 0xf, dpad: 0xf, sel_buttons: false, sel_dpad: false }),
    {
        Self {
            // buttons are read as 0 when pressed, 1 when not pressed
            buttons: 0xf,
            dpad: 0xf,
            sel_dpad: false,
            sel_buttons: false,
        }
    }

    /// Updates the keys from the given state
    pub fn update_buttons(&mut self, state: &State)
        ensures
            final(self)@ == (JoypadModel {
                buttons: key_nibble(state.a, state.b, state.select, state.start),
                dpad: key_nibble(state.right, state.left, state.up, state.down),
                ..old(self)@
            }),
    {
        self.buttons = to_bit(state.a, 0) & to_bit(state.b, 1) & to_bit(state.select, 2) & to_bit(
            state.start,
            3,
        );
        self.dpad = to_bit(state.right, 0) & to_bit(state.left, 1) & to_bit(state.up, 2) & to_bit(
            state.down,
            3,
        );
        proof {
            lemma_key_nibble(state.a, state.b, state.select, state.start);
            lemma_key_nibble(state.right, state.left, state.up, state.down);
        }
    }

    /// Reads the joypad register
    pub fn read(&self, address: Address) -> (r: u8)
        ensures
            r == joypad_read(self@),
    {
        if self.sel_dpad && self.sel_buttons {
            self.dpad & self.buttons
        } else if self.sel_dpad {
            self.dpad | 0x20
        } else if self.sel_buttons {
            self.buttons | 0x10
        } else {
            0x3f
        }
    }

    /// Writes the joypad register: selects the groups of keys
    pub fn write(&mut self, address: Address, value: u8)
        ensures
            final(self)@ == joypad_write(old(self)@, value),
    {
        self.sel_dpad = value & 0x10 == 0;
        self.sel_buttons = value & 0x20 == 0;
    }
}

} // verus!
