//! Symbolic names for the BIOS interrupt vectors, service numbers and
//! descriptor-table selectors the first boot stage relies on, each paired
//! with the numeric value the hardware interface defines for it.

use vstd::prelude::*;

verus! {

/// BIOS interrupt vectors used during the first stage.
#[allow(non_camel_case_types)]
#[derive(Clone, Copy, Debug, PartialEq, Eq, Structural)]
pub enum Interrupts {
    VIDEO,
    DISK,
}

impl Interrupts {
    /// The interrupt vector number.
    pub open spec fn spec_number(self) -> u8 {
        match self {
            Interrupts::VIDEO => 0x10,
            Interrupts::DISK => 0x13,
        }
    }

    /// The interrupt vector number.
    pub fn as_u8(&self) -> (r: u8)
        ensures
            r == self.spec_number(),
    {
        match self {
            Interrupts::VIDEO => 0x10,
            Interrupts::DISK => 0x13,
        }
    }
}

/// Selectors into the boot descriptor table.
#[derive(Clone, Copy, Debug, PartialEq, Eq, Structural)]
pub enum Sections {
    Null,
    KernelCode,
    KernelData,
}

impl Sections {
    /// The selector value: the byte offset of the descriptor in the table.
    pub open spec fn spec_number(self) -> u8 {
        match self {
            Sections::Null => 0x0,
            Sections::KernelCode => 0x8,
            Sections::KernelData => 0x10,
        }
    }

    /// The selector value: the byte offset of the descriptor in the table.
    pub fn as_u8(&self) -> (r: u8)
        ensures
            r == self.spec_number(),
    {
        match self {
            Sections::Null => 0x0,
            Sections::KernelCode => 0x8,
            Sections::KernelData => 0x10,
        }
    }
}

/// BIOS disk services.
#[derive(Clone, Copy, Debug, PartialEq, Eq, Structural)]
pub enum Disk {
    ExtendedRead,
}

impl Disk {
    /// The service number placed in `ah` before raising the disk interrupt.
    pub open spec fn spec_number(self) -> u8 {
        match self {
            Disk::ExtendedRead => 0x42,
        }
    }

    /// The service number placed in `ah` before raising the disk interrupt.
    pub fn as_u8(&self) -> (r: u8)
        ensures
            r == self.spec_number(),
    {
        match self {
            Disk::ExtendedRead => 0x42,
        }
    }
}

/// BIOS video services.
#[derive(Clone, Copy, Debug, PartialEq, Eq, Structural)]
pub enum Video {
    SetMode,
}

impl Video {
    /// The service number of the video call.
    pub open spec fn spec_number(self) -> u8 {
        match self {
            Video::SetMode => 0x0,
        }
    }

    /// The service number of the video call.
    pub fn as_u8(&self) -> (r: u8)
        ensures
            r == self.spec_number(),
    {
        match self {
            Video::SetMode => 0x0,
        }
    }
}

/// BIOS video modes.
#[allow(non_camel_case_types)]
#[derive(Clone, Copy, Debug, PartialEq, Eq, Structural)]
pub enum VideoModes {
    /// VGA common text mode: 80x25 characters, 9x16 pixel boxes, 720x400
    /// pixels.
    VGA_TX_80X25_PB_9X16_PR_720X400,
}

impl VideoModes {
    /// The mode number handed to the set-mode video service.
    pub open spec fn spec_number(self) -> u8 {
        match self {
            VideoModes::VGA_TX_80X25_PB_9X16_PR_720X400 => 0x3,
        }
    }

    /// The mode number handed to the set-mode video service.
    pub fn as_u8(&self) -> (r: u8)
        ensures
            r == self.spec_number(),
    {
        match self {
            VideoModes::VGA_TX_80X25_PB_9X16_PR_720X400 => 0x3,
        }
    }
}

/// Sizes of the disk address packet.
#[derive(Clone, Copy, Debug, PartialEq, Eq, Structural)]
pub enum PacketSize {
    Default,
}

impl PacketSize {
    /// The packet size in bytes.
    pub open spec fn spec_number(self) -> u8 {
        match self {
            PacketSize::Default => 0x10,
        }
    }

    /// The packet size in bytes.
    pub fn as_u8(&self) -> (r: u8)
        ensures
            r == self.spec_number(),
    {
        match self {
            PacketSize::Default => 0x10,
        }
    }
}

} // verus!
