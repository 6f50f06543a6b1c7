//! The bus of the machine and the memory behind it.

use vstd::prelude::*;
use crate::{combine_bytes_to_u16, word_of};

verus! {

pub const ADDR_LO: u16 = 0x0000;

pub const ADDR_HI: u16 = 0xFFFF;

/// Number of cells behind the bus: one for each 16-bit address.
pub const MEMORY_SIZE: usize = 0x1_0000;

/// Whether `address` lies in one of the two reserved I/O regions, the
/// picture-unit registers and the I/O ports. Nothing is stored there.
pub open spec fn is_io_stub(address: u16) -> bool {
    0x2000 <= address <= 0x2007 || 0x4000 <= address <= 0x401F
}

/// What a read of `address` gives on a bus that holds `cells`.
pub open spec fn bus_read(cells: Seq<u8>, address: u16) -> u8 {
    if is_io_stub(address) {
        0
    } else {
        cells[address as int]
    }
}

/// The cells after `byte` was written to `address`.
pub open spec fn bus_write(cells: Seq<u8>, address: u16, byte: u8) -> Seq<u8> {
    if is_io_stub(address) {
        cells
    } else {
        cells.update(address as int, byte)
    }
}

/// The address that follows `address`; the last one is followed by the first.
pub open spec fn next_address(address: u16) -> u16 {
    if address == 0xFFFF {
        0
    } else {
        (address + 1) as u16
    }
}

/// The little-endian word read at `address` and the address that follows it.
pub open spec fn bus_read_word(cells: Seq<u8>, address: u16) -> u16 {
    word_of(bus_read(cells, next_address(address)), bus_read(cells, address))
}

/// The cells after `bytes` were written one by one from `address` upwards.
pub open spec fn bus_write_bytes(cells: Seq<u8>, address: u16, bytes: Seq<u8>) -> Seq<u8> {
    Seq::new(
        cells.len(),
        |at: int|
            if address <= at < address + bytes.len() && !is_io_stub(at as u16) {
                bytes[at - address]
            } else {
                cells[at]
            },
    )
}

/// A read after a write gives the written byte at the written address,
/// unless the address is reserved, and what was there before at any other.
pub proof fn lemma_write_then_read(cells: Seq<u8>, address: u16, byte: u8, other: u16)
    requires
        cells.len() == MEMORY_SIZE,
    ensures
        bus_write(cells, address, byte).len() == MEMORY_SIZE,
        bus_read(bus_write(cells, address, byte), address) == if is_io_stub(address) {
            0
        } else {
            byte
        },
        other != address ==> bus_read(bus_write(cells, address, byte), other) == bus_read(
            cells,
            other,
        ),
{
}

/// After a run of bytes was written, each of them reads back from its
/// address, unless the address is reserved, and every address outside the
/// run reads as before.
pub proof fn lemma_write_bytes_then_read(cells: Seq<u8>, address: u16, bytes: Seq<u8>, at: u16)
    requires
        cells.len() == MEMORY_SIZE,
        address + bytes.len() <= MEMORY_SIZE,
    ensures
        bus_write_bytes(cells, address, bytes).len() == MEMORY_SIZE,
        bus_read(bus_write_bytes(cells, address, bytes), at) == if is_io_stub(at) {
            0
        } else if address <= at < address + bytes.len() {
            bytes[at - address]
        } else {
            cells[at as int]
        },
{
}

/// A byte-addressable bus with a 16-bit address space.
pub trait Bus {
    /// The byte stored under each address, in the order of the addresses.
    spec fn cells(&self) -> Seq<u8>;

    /// There is one cell for each address.
    proof fn lemma_cells_len(&self)
        ensures
            self.cells().len() == MEMORY_SIZE,
    ;

    fn read_byte(&self, address: u16) -> (byte: u8)
        ensures
            byte == bus_read(self.cells(), address),
    ;

    fn write_byte(&mut self, address: u16, byte: u8)
        ensures
            final(self).cells() == bus_write(old(self).cells(), address, byte),
    ;

    fn read_word(&self, address: u16) -> (word: u16)
        ensures
            word == bus_read_word(self.cells(), address),
    ;

    /// Writes `bytes` to the addresses from `address` upwards. They have to
    /// fit below the top of the address space.
    fn write_bytes(&mut self, address: u16, bytes: &[u8])
        requires
            address + bytes@.len() <= MEMORY_SIZE,
        ensures
            final(self).cells() == bus_write_bytes(old(self).cells(), address, bytes@),
    {
        proof {
            self.lemma_cells_len();
        }
        let mut offset: usize = 0;
        while offset < bytes.len()
            invariant
                offset <= bytes@.len(),
                address + bytes@.len() <= MEMORY_SIZE,
                self.cells() == bus_write_bytes(
                    old(self).cells(),
                    address,
                    bytes@.subrange(0, offset as int),
                ),
                self.cells().len() == MEMORY_SIZE,
            decreases bytes@.len() - offset,
        {
            let at: u16 = (address as usize + offset) as u16;
            self.write_byte(at, bytes[offset]);
            offset = offset + 1;
        }
        assert(bytes@.subrange(0, offset as int) == bytes@);
    }
}

/// The memory of the machine: plain storage under every address but those of
/// the two reserved I/O regions, which read as zero and keep nothing.
#[derive(Copy, Clone)]
pub struct Memory {
    bytes: [u8; MEMORY_SIZE],
}

impl Default for Memory {
    fn default() -> (memory: Self)
        ensures
            memory.cells() == Seq::new(MEMORY_SIZE as nat, |at: int| 0u8),
    {
        Self::new()
    }
}

impl Bus for Memory {
    closed spec fn cells(&self) -> Seq<u8> {
        self.bytes@
    }

    proof fn lemma_cells_len(&self) {
    }

    fn read_byte(&self, address: u16) -> (byte: u8) {
        // the reserved regions belong to devices that are not attached
        if (0x2000 <= address && address <= 0x2007) || (0x4000 <= address && address <= 0x401F) {
            0
        } else {
            self.bytes[address as usize]
        }
    }

    fn read_word(&self, address: u16) -> (word: u16) {
        let low = self.read_byte(address);
        let high = self.read_byte(address.wrapping_add(1));
        combine_bytes_to_u16(high, low)
    }

    fn write_byte(&mut self, address: u16, byte: u8) {
        if (0x2000 <= address && address <= 0x2007) || (0x4000 <= address && address <= 0x401F) {
        } else {
            self.bytes[address as usize] = byte;
        }
    }
}

impl Memory {
    /// A memory with zero in every cell.
    pub fn new() -> (memory: Memory)
        ensures
            memory.cells() == Seq::new(MEMORY_SIZE as nat, |at: int| 0u8),
    {
        Memory { bytes: [0u8; MEMORY_SIZE] }
    }

    /// A copy of all cells, the reserved regions included.
    pub fn dump(&self) -> (bytes: [u8; MEMORY_SIZE])
        ensures
            bytes@ == self.cells(),
    {
        self.bytes
    }
}

} // verus!
