//! Flat byte-addressable memory covering the full 16-bit address space.

use vstd::prelude::*;

verus! {

/// Number of addressable cells: the full 16-bit address space.
pub const MEMORY_SIZE: usize = 65536;

/// The cell one past `address`, wrapping to 0 at the top of the address space.
pub open spec fn next_addr(address: u16) -> u16 {
    ((address + 1) % 0x10000) as u16
}

/// Low byte of a 16-bit word.
pub open spec fn lo_byte(w: u16) -> u8 {
    (w % 0x100) as u8
}

/// High byte of a 16-bit word.
pub open spec fn hi_byte(w: u16) -> u8 {
    (w / 0x100) as u8
}

/// A fixed-size store of unsigned 8-bit cells, addressed 0..MEMORY_SIZE-1.
/// Every 16-bit address is in bounds, so reads and writes always succeed.
pub struct Memory {
    data: Vec<u8>,
}

impl View for Memory {
    type V = Seq<u8>;

    closed spec fn view(&self) -> Seq<u8> {
        self.data@
    }
}

impl Memory {
    /// The address space never changes size after construction.
    pub open spec fn wf(&self) -> bool {
        self@.len() == MEMORY_SIZE
    }

    /// A fresh memory with every cell zero.
    pub fn default() -> (m: Memory)
        ensures
            m.wf(),
            forall|j: int| 0 <= j < MEMORY_SIZE ==> m@[j] == 0,
    {
        let mut data: Vec<u8> = Vec::new();
        let mut i: usize = 0;
        while i < MEMORY_SIZE
            invariant
                data@.len() == i,
                i <= MEMORY_SIZE,
                forall|j: int| 0 <= j < i ==> data@[j] == 0,
            decreases MEMORY_SIZE - i,
        {
            data.push(0);
            i = i + 1;
        }
        Memory { data }
    }

    /// Resets every cell to 0. Idempotent: repeated calls have no effect
    /// beyond the zeroing itself.
    pub fn init(&mut self)
        requires
            old(self).wf(),
        ensures
            final(self).wf(),
            forall|j: int| 0 <= j < MEMORY_SIZE ==> final(self)@[j] == 0,
    {
        let mut i: usize = 0;
        while i < MEMORY_SIZE
            invariant
                self.wf(),
                i <= MEMORY_SIZE,
                forall|j: int| 0 <= j < i ==> self@[j] == 0,
            decreases MEMORY_SIZE - i,
        {
            self.data[i] = 0;
            i = i + 1;
        }
    }

    /// Pure lookup; always succeeds for any representable 16-bit address.
    pub fn read(&self, address: u16) -> (b: u8)
        requires
            self.wf(),
        ensures
            b == self@[address as int],
    {
        self.data[address as usize]
    }

    /// Stores one byte. The loader populates a program image through this
    /// before execution begins.
    pub fn write(&mut self, address: u16, value: u8)
        requires
            old(self).wf(),
        ensures
            final(self).wf(),
            final(self)@ == old(self)@.update(address as int, value),
    {
        self.data[address as usize] = value;
    }

    /// Little-endian word store: low byte at `address`, high byte at the
    /// following cell (wrapping to 0 past the top of the address space).
    /// Deducts 2 units from the caller's cycle budget.
    pub fn write_word(&mut self, cycles: &mut u32, address: u16, value: u16)
        requires
            old(self).wf(),
            *old(cycles) >= 2,
        ensures
            final(self).wf(),
            final(self)@ == old(self)@
                .update(address as int, lo_byte(value))
                .update(next_addr(address) as int, hi_byte(value)),
            *final(cycles) == *old(cycles) - 2,
    {
        self.data[address as usize] = (value % 0x100) as u8;
        let high_addr: u16 = if address == 0xFFFF { 0 } else { address + 1 };
        self.data[high_addr as usize] = (value / 0x100) as u8;
        *cycles = *cycles - 2;
    }
}

} // verus!
