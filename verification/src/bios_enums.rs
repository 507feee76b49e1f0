//! Symbolic names for the BIOS services the second boot stage uses for
//! diagnostics output, each paired with its architecturally defined number.

use vstd::prelude::*;

verus! {

/// BIOS interrupt vectors used during the second stage.
#[allow(non_camel_case_types)]
#[derive(Clone, Copy, Debug, PartialEq, Eq, Structural)]
pub enum Interrupts {
    VIDEO,
}

impl Interrupts {
    /// The interrupt vector number.
    pub open spec fn spec_number(self) -> u8 {
        match self {
            Interrupts::VIDEO => 0x10,
        }
    }

    /// The interrupt vector number.
    pub fn as_u8(&self) -> (r: u8)
        ensures
            r == self.spec_number(),
    {
        match self {
            Interrupts::VIDEO => 0x10,
        }
    }
}

/// BIOS video services.
#[derive(Clone, Copy, Debug, PartialEq, Eq, Structural)]
pub enum Video {
    SetMode,
    DisplayChar,
    DisplayStr,
}

impl Video {
    /// The service number of the video call.
    pub open spec fn spec_number(self) -> u8 {
        match self {
            Video::SetMode => 0x0,
            Video::DisplayChar => 0xE,
            Video::DisplayStr => 0x13,
        }
    }

    /// The service number of the video call.
    pub fn as_u8(&self) -> (r: u8)
        ensures
            r == self.spec_number(),
    {
        match self {
            Video::SetMode => 0x0,
            Video::DisplayChar => 0xE,
            Video::DisplayStr => 0x13,
        }
    }
}

/// BIOS video modes.
#[allow(non_camel_case_types)]
#[derive(Clone, Copy, Debug, PartialEq, Eq, Structural)]
pub enum VideoModes {
    /// VGA common text mode: 80x25 characters, 9x16 pixel boxes, 720x400
    /// pixels.
    VGA_TX_80X25_PB_9X16_PR_720X400,
}

impl VideoModes {
    /// The mode number handed to the set-mode video service.
    pub open spec fn spec_number(self) -> u8 {
        match self {
            VideoModes::VGA_TX_80X25_PB_9X16_PR_720X400 => 0x3,
        }
    }

    /// The mode number handed to the set-mode video service.
    pub fn as_u8(&self) -> (r: u8)
        ensures
            r == self.spec_number(),
    {
        match self {
            VideoModes::VGA_TX_80X25_PB_9X16_PR_720X400 => 0x3,
        }
    }
}

/// Sizes of the disk address packet.
#[derive(Clone, Copy, Debug, PartialEq, Eq, Structural)]
pub enum PacketSize {
    Default,
}

impl PacketSize {
    /// The packet size in bytes.
    pub open spec fn spec_number(self) -> u8 {
        match self {
            PacketSize::Default => 0x10,
        }
    }

    /// The packet size in bytes.
    pub fn as_u8(&self) -> (r: u8)
        ensures
            r == self.spec_number(),
    {
        match self {
            PacketSize::Default => 0x10,
        }
    }
}

/// The 16 VGA text colours, in their architectural order.
#[derive(Clone, Copy, Debug, PartialEq, Eq, Structural)]
pub enum Color {
    Black,
    Blue,
    Green,
    Cyan,
    Red,
    Magenta,
    Brown,
    LightGray,
    DarkGray,
    LightBlue,
    LightGreen,
    LightCyan,
    LightRed,
    Pink,
    Yellow,
    White,
}

impl Color {
    /// The colour's VGA attribute number.
    pub open spec fn spec_number(self) -> u8 {
        match self {
            Color::Black => 0,
            Color::Blue => 1,
            Color::Green => 2,
            Color::Cyan => 3,
            Color::Red => 4,
            Color::Magenta => 5,
            Color::Brown => 6,
            Color::LightGray => 7,
            Color::DarkGray => 8,
            Color::LightBlue => 9,
            Color::LightGreen => 10,
            Color::LightCyan => 11,
            Color::LightRed => 12,
            Color::Pink => 13,
            Color::Yellow => 14,
            Color::White => 15,
        }
    }

    /// The colour's VGA attribute number.
    pub fn as_u8(&self) -> (r: u8)
        ensures
            r == self.spec_number(),
    {
        match self {
            Color::Black => 0,
            Color::Blue => 1,
            Color::Green => 2,
            Color::Cyan => 3,
            Color::Red => 4,
            Color::Magenta => 5,
            Color::Brown => 6,
            Color::LightGray => 7,
            Color::DarkGray => 8,
            Color::LightBlue => 9,
            Color::LightGreen => 10,
            Color::LightCyan => 11,
            Color::LightRed => 12,
            Color::Pink => 13,
            Color::Yellow => 14,
            Color::White => 15,
        }
    }
}

} // verus!
