//! The BIOS disk address packet: the in-memory structure handed to the
//! extended-read disk service to load sectors into memory. Building the
//! packet is pure computation and lives here; raising the disk interrupt is
//! a hardware call that lives with the runner outside this crate.

use vstd::prelude::*;

verus! {

use crate::enums::PacketSize;

/// The extended-read request: how many sectors to read starting at which
/// logical block, and the segment:offset destination in memory. The layout
/// the BIOS expects starts with the packet size and a zero byte.
#[derive(Clone, Copy, Debug, PartialEq, Eq, Structural)]
pub struct DiskAddressPacket {
    /// The size of the packet: always 16 bytes.
    pub packet_size: u8,
    /// Always zero.
    pub zero: u8,
    /// How many sectors to read.
    pub num_of_blocks: u16,
    /// Which offset in memory to save the data at.
    pub memory_address: u16,
    /// Memory segment for the offset.
    pub segment: u16,
    /// The logical block address of the first sector.
    pub abs_block_num: u64,
}

impl DiskAddressPacket {
    /// A packet requesting `num_of_blocks` sectors starting at logical block
    /// `abs_block_num`, to be stored at `segment:memory_address`.
    pub fn new(num_of_blocks: u16, memory_address: u16, segment: u16, abs_block_num: u64) -> (r:
        Self)
        ensures
            r.packet_size == 0x10,
            r.zero == 0,
            r.num_of_blocks == num_of_blocks,
            r.memory_address == memory_address,
            r.segment == segment,
            r.abs_block_num == abs_block_num,
    {
        Self {
            packet_size: PacketSize::Default.as_u8(),
            zero: 0,
            num_of_blocks,
            memory_address,
            segment,
            abs_block_num,
        }
    }
}

} // verus!
