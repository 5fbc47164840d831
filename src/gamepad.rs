//! The virtual controller state that replaces the real one while a script runs,
//! and its fixed 16-byte little-endian layout (`XINPUT_STATE`).
use vstd::prelude::*;
use crate::bytes::{le16, le16_bytes, le32, le32_bytes};
use crate::input::{GamepadAxis, GamepadButton, InputType};

verus! {

/// Bit of `wButtons` that a gamepad button drives.
pub open spec fn button_mask(b: GamepadButton) -> u16 {
    match b {
        GamepadButton::Up => 0x0001,
        GamepadButton::Down => 0x0002,
        GamepadButton::Left => 0x0004,
        GamepadButton::Right => 0x0008,
        GamepadButton::Start => 0x0010,
        GamepadButton::Select => 0x0020,
        GamepadButton::StickLeft => 0x0040,
        GamepadButton::StickRight => 0x0080,
        GamepadButton::ShoulderLeft => 0x0100,
        GamepadButton::ShoulderRight => 0x0200,
        GamepadButton::A => 0x1000,
        GamepadButton::B => 0x2000,
        GamepadButton::X => 0x4000,
        GamepadButton::Y => 0x8000,
    }
}

pub fn gamepad_button_mask(b: GamepadButton) -> (r: u16)
    ensures
        r == button_mask(b),
{
    match b {
        GamepadButton::Up => 0x0001,
        GamepadButton::Down => 0x0002,
        GamepadButton::Left => 0x0004,
        GamepadButton::Right => 0x0008,
        GamepadButton::Start => 0x0010,
        GamepadButton::Select => 0x0020,
        GamepadButton::StickLeft => 0x0040,
        GamepadButton::StickRight => 0x0080,
        GamepadButton::ShoulderLeft => 0x0100,
        GamepadButton::ShoulderRight => 0x0200,
        GamepadButton::A => 0x1000,
        GamepadButton::B => 0x2000,
        GamepadButton::X => 0x4000,
        GamepadButton::Y => 0x8000,
    }
}

/// Packet numbers count up and wrap around.
pub open spec fn next_packet(p: u32) -> u32 {
    if p == u32::MAX {
        0
    } else {
        (p + 1) as u32
    }
}

/// The controller state reported to the target in place of the real pad.
#[derive(Clone, Copy, Debug, PartialEq, Eq, Structural)]
pub struct VirtualGamepad {
    pub packet_number: u32,
    pub buttons: u16,
    pub left_trigger: u8,
    pub right_trigger: u8,
    pub thumb_lx: i16,
    pub thumb_ly: i16,
    pub thumb_rx: i16,
    pub thumb_ry: i16,
}

impl VirtualGamepad {
    /// The `XINPUT_STATE` bytes: packet number, buttons, the two triggers,
    /// then the four stick axes, each little-endian.
    pub open spec fn state_bytes(&self) -> Seq<u8> {
        le32(self.packet_number) + le16(self.buttons) + seq![self.left_trigger, self.right_trigger]
            + le16(self.thumb_lx as u16) + le16(self.thumb_ly as u16) + le16(self.thumb_rx as u16)
            + le16(self.thumb_ry as u16)
    }

    /// All buttons released, sticks centred, triggers up.
    pub fn new() -> (r: Self)
        ensures
            r == (VirtualGamepad {
                packet_number: 0,
                buttons: 0,
                left_trigger: 0,
                right_trigger: 0,
                thumb_lx: 0,
                thumb_ly: 0,
                thumb_rx: 0,
                thumb_ry: 0,
            }),
    {
        VirtualGamepad {
            packet_number: 0,
            buttons: 0,
            left_trigger: 0,
            right_trigger: 0,
            thumb_lx: 0,
            thumb_ly: 0,
            thumb_rx: 0,
            thumb_ry: 0,
        }
    }

    /// Presses or releases one button and counts a new packet.
    pub fn send_gamepad_button(&mut self, button: GamepadButton, input_type: InputType)
        ensures
            final(self).packet_number == next_packet(old(self).packet_number),
            final(self).buttons == (match input_type {
                InputType::Down => old(self).buttons | button_mask(button),
                InputType::Up => old(self).buttons & !button_mask(button),
            }),
            final(self).left_trigger == old(self).left_trigger,
            final(self).right_trigger == old(self).right_trigger,
            final(self).thumb_lx == old(self).thumb_lx,
            final(self).thumb_ly == old(self).thumb_ly,
            final(self).thumb_rx == old(self).thumb_rx,
            final(self).thumb_ry == old(self).thumb_ry,
    {
        self.packet_number = self.packet_number.wrapping_add(1);
        let mask = gamepad_button_mask(button);
        match input_type {
            InputType::Down => {
                self.buttons = self.buttons | mask;
            },
            InputType::Up => {
                self.buttons = self.buttons & !mask;
            },
        }
    }

    /// Sets one axis, keeping the low bits of `amount` as the field holds them,
    /// and counts a new packet.
    pub fn send_gamepad_axis(&mut self, axis: GamepadAxis, amount: i32)
        ensures
            final(self).packet_number == next_packet(old(self).packet_number),
            final(self).buttons == old(self).buttons,
            final(self).thumb_lx == (if axis == GamepadAxis::StickLeftX {
                amount as i16
            } else {
                old(self).thumb_lx
            }),
            final(self).thumb_ly == (if axis == GamepadAxis::StickLeftY {
                amount as i16
            } else {
                old(self).thumb_ly
            }),
            final(self).thumb_rx == (if axis == GamepadAxis::StickRightX {
                amount as i16
            } else {
                old(self).thumb_rx
            }),
            final(self).thumb_ry == (if axis == GamepadAxis::StickRightY {
                amount as i16
            } else {
                old(self).thumb_ry
            }),
            final(self).left_trigger == (if axis == GamepadAxis::TriggerLeft {
                amount as u8
            } else {
                old(self).left_trigger
            }),
            final(self).right_trigger == (if axis == GamepadAxis::TriggerRight {
                amount as u8
            } else {
                old(self).right_trigger
            }),
    {
        self.packet_number = self.packet_number.wrapping_add(1);
        match axis {
            GamepadAxis::StickLeftX => {
                self.thumb_lx = amount as i16;
            },
            GamepadAxis::StickLeftY => {
                self.thumb_ly = amount as i16;
            },
            GamepadAxis::StickRightX => {
                self.thumb_rx = amount as i16;
            },
            GamepadAxis::StickRightY => {
                self.thumb_ry = amount as i16;
            },
            GamepadAxis::TriggerLeft => {
                self.left_trigger = amount as u8;
            },
            GamepadAxis::TriggerRight => {
                self.right_trigger = amount as u8;
            },
        }
    }

    /// The 16 bytes that the target's controller hook copies out.
    pub fn to_bytes(&self) -> (r: Vec<u8>)
        ensures
            r@ == self.state_bytes(),
            r@.len() == 16,
    {
        let mut out = le32_bytes(self.packet_number);
        out.append(&mut le16_bytes(self.buttons));
        out.push(self.left_trigger);
        out.push(self.right_trigger);
        out.append(&mut le16_bytes(self.thumb_lx as u16));
        out.append(&mut le16_bytes(self.thumb_ly as u16));
        out.append(&mut le16_bytes(self.thumb_rx as u16));
        out.append(&mut le16_bytes(self.thumb_ry as u16));
        assert(out@ =~= self.state_bytes());
        out
    }
}

} // verus!
