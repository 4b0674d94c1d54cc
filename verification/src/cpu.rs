//! The processor: registers, status flags, and the fetch-decode-execute loop.
//!
//! The machine's behaviour is pinned down by a specification-level
//! interpreter: [`step`] gives the effect of one instruction on the
//! registers and memory, and [`run`] iterates it under a cycle budget.
//! `execute` is proved to agree with `run` exactly.

use vstd::prelude::*;

use crate::memory::Memory;
use crate::memory::MEMORY_SIZE;
use crate::memory::hi_byte;
use crate::memory::lo_byte;
use crate::memory::next_addr;

verus! {

/// LDA, immediate addressing.
pub const INS_LDA_IM: u8 = 0xA9;

/// LDA, zero-page addressing.
pub const INS_LDA_ZP: u8 = 0xA5;

/// LDA, zero-page,X addressing.
pub const INS_LDA_ZPX: u8 = 0xB5;

/// JSR, absolute addressing.
pub const INS_JSR: u8 = 0x20;

/// Address where execution begins after reset.
pub const RESET_VECTOR: u16 = 0xFFFC;

/// The program counter after one increment, wrapping at the top of the
/// 16-bit address space.
pub open spec fn spec_inc16(w: u16) -> u16 {
    ((w + 1) % 0x10000) as u16
}

/// A 16-bit value after one decrement, wrapping past zero.
pub open spec fn spec_dec16(w: u16) -> u16 {
    if w == 0 { 0xFFFF } else { (w - 1) as u16 }
}

/// An 8-bit value after one decrement, wrapping past zero.
pub open spec fn spec_dec8(b: u8) -> u8 {
    if b == 0 { 0xFF } else { (b - 1) as u8 }
}

/// Zero-page indexed address: the index register is added to the base in
/// 8-bit arithmetic, so the sum wraps within the zero page and never
/// carries into page 1.
pub open spec fn zp_index(base: u8, x: u8) -> u8 {
    ((base + x) % 0x100) as u8
}

/// Little-endian assembly of a 16-bit word: first byte low, second high.
pub open spec fn word_le(lo: u8, hi: u8) -> u16 {
    (lo + hi * 0x100) as u16
}

/// The zero flag a load leaves behind: 1 iff the loaded value is 0.
pub open spec fn zero_flag(value: u8) -> u8 {
    if value == 0 { 1 } else { 0 }
}

/// The negative flag a load leaves behind: 1 iff bit 7 of the value is set.
pub open spec fn negative_flag(value: u8) -> u8 {
    if value >= 0x80 { 1 } else { 0 }
}

/// The architectural state: program counter, stack pointer, accumulator,
/// two index registers, and seven single-bit status flags, each held as
/// 0 or 1. All fields are observable by the caller between instructions.
pub struct CPU {
    /// Program counter: address of the next instruction byte to fetch.
    pub pc: u16,
    /// Stack pointer.
    pub sp: u8,
    /// Accumulator.
    pub a: u8,
    /// Index register X.
    pub x: u8,
    /// Index register Y.
    pub y: u8,
    /// Carry flag.
    pub c: u8,
    /// Zero flag.
    pub z: u8,
    /// Interrupt-disable flag.
    pub i: u8,
    /// Decimal-mode flag.
    pub d: u8,
    /// Break flag.
    pub b: u8,
    /// Overflow flag.
    pub v: u8,
    /// Negative flag.
    pub n: u8,
}

/// Whether `op` is an opcode the dispatch table implements.
pub open spec fn known_opcode(op: u8) -> bool {
    op == INS_LDA_IM || op == INS_LDA_ZP || op == INS_LDA_ZPX || op == INS_JSR
}

/// Total cycle cost of the instruction whose opcode is `op`, the opcode
/// fetch included. An unrecognized opcode halts execution before any
/// fetch, so it costs nothing.
pub open spec fn instruction_cost(op: u8) -> nat {
    if op == INS_LDA_IM {
        2
    } else if op == INS_LDA_ZP {
        3
    } else if op == INS_LDA_ZPX {
        4
    } else if op == INS_JSR {
        6
    } else {
        0
    }
}

/// The effect of executing one recognized instruction from `c.pc`: the
/// new register file and the new memory contents. An unrecognized opcode
/// leaves the state untouched (execution halts on it instead).
///
/// JSR pushes the address of its own last byte; the push lands at the
/// stack pointer's value taken directly as a 16-bit address (the
/// stack-page base is not added).
pub open spec fn step(c: CPU, m: Seq<u8>) -> (CPU, Seq<u8>) {
    let op = m[c.pc as int];
    let pc1 = spec_inc16(c.pc);
    if op == INS_LDA_IM {
        let value = m[pc1 as int];
        (CPU { pc: spec_inc16(pc1), a: value, z: zero_flag(value), n: negative_flag(value), ..c }, m)
    } else if op == INS_LDA_ZP {
        let addr = m[pc1 as int];
        let value = m[addr as int];
        (CPU { pc: spec_inc16(pc1), a: value, z: zero_flag(value), n: negative_flag(value), ..c }, m)
    } else if op == INS_LDA_ZPX {
        let addr = zp_index(m[pc1 as int], c.x);
        let value = m[addr as int];
        (CPU { pc: spec_inc16(pc1), a: value, z: zero_flag(value), n: negative_flag(value), ..c }, m)
    } else if op == INS_JSR {
        let pc2 = spec_inc16(pc1);
        let target = word_le(m[pc1 as int], m[pc2 as int]);
        let sp1 = spec_dec8(c.sp);
        let ret = spec_dec16(spec_inc16(pc2));
        (
            CPU { pc: target, sp: sp1, ..c },
            m.update(sp1 as int, lo_byte(ret)).update(next_addr(sp1 as u16) as int, hi_byte(ret)),
        )
    } else {
        (c, m)
    }
}

/// The machine after running under a cycle budget: recognized
/// instructions execute one after another, each consuming its full cost,
/// until the budget is spent, an unrecognized opcode is reached, or the
/// next instruction cannot be paid for in full. The third component is
/// the budget left over: 0 after clean exhaustion, positive when
/// execution halted early.
pub open spec fn run(c: CPU, m: Seq<u8>, budget: nat) -> (CPU, Seq<u8>, nat)
    decreases budget,
{
    if budget == 0 {
        (c, m, budget)
    } else {
        let op = m[c.pc as int];
        if !known_opcode(op) || budget < instruction_cost(op) {
            (c, m, budget)
        } else {
            let s = step(c, m);
            run(s.0, s.1, (budget - instruction_cost(op)) as nat)
        }
    }
}

/// With a budget of exactly one instruction's cost, precisely that
/// instruction executes and the budget is consumed in full: 2 cycles for
/// LDA immediate, 3 for LDA zero-page, 4 for LDA zero-page,X, and 6 for
/// JSR. (An unrecognized opcode executes nothing and costs nothing.)
pub proof fn lemma_cycle_accounting(c: CPU, m: Seq<u8>)
    ensures
        run(c, m, instruction_cost(m[c.pc as int])) == (step(c, m).0, step(c, m).1, 0nat),
{
    let cost = instruction_cost(m[c.pc as int]);
    let s = step(c, m);
    assert(run(s.0, s.1, 0) == (s.0, s.1, 0nat));
    assert(run(c, m, cost) == run(s.0, s.1, (cost - cost) as nat));
}

/// The budget is never overdrawn: the remainder a run leaves behind never
/// exceeds what was supplied, and a nonzero remainder arises only where
/// the opcode at the final program counter is unrecognized or its
/// instruction costs more than remains — execution never begins an
/// instruction it cannot pay for in full, and a program of recognized
/// instructions that exactly covers the budget ends with it at 0.
pub proof fn lemma_budget_never_overdrawn(c: CPU, m: Seq<u8>, budget: nat)
    ensures
        run(c, m, budget).2 <= budget,
        run(c, m, budget).2 > 0 ==> {
            let op = run(c, m, budget).1[run(c, m, budget).0.pc as int];
            !known_opcode(op) || run(c, m, budget).2 < instruction_cost(op)
        },
    decreases budget,
{
    if budget == 0 {
    } else {
        let op = m[c.pc as int];
        if known_opcode(op) && budget >= instruction_cost(op) {
            let s = step(c, m);
            lemma_budget_never_overdrawn(s.0, s.1, (budget - instruction_cost(op)) as nat);
        }
    }
}

impl CPU {
    /// A processor before any reset: registers zero, flags raised.
    /// `reset` must run before `execute`.
    pub fn default() -> (cpu: CPU)
        ensures
            cpu == (CPU { pc: 0, sp: 0, a: 0, x: 0, y: 0, c: 1, z: 1, i: 1, d: 1, b: 1, v: 1, n: 1 }),
    {
        CPU { pc: 0, sp: 0, a: 0, x: 0, y: 0, c: 1, z: 1, i: 1, d: 1, b: 1, v: 1, n: 1 }
    }

    /// Power-on state: the program counter at the reset vector, the stack
    /// pointer at the top of its page, registers and flags cleared, and
    /// every memory cell zeroed.
    pub fn reset(&mut self, memory: &mut Memory)
        requires
            old(memory).wf(),
        ensures
            final(memory).wf(),
            *final(self) == (CPU {
                pc: RESET_VECTOR,
                sp: 0xFF,
                a: 0,
                x: 0,
                y: 0,
                c: 0,
                z: 0,
                i: 0,
                d: 0,
                b: 0,
                v: 0,
                n: 0,
            }),
            forall|j: int| 0 <= j < MEMORY_SIZE ==> final(memory)@[j] == 0,
    {
        self.pc = RESET_VECTOR;
        self.sp = 0xFF;
        self.a = 0;
        self.x = 0;
        self.y = 0;

        self.c = 0;
        self.z = 0;
        self.i = 0;
        self.d = 0;
        self.b = 0;
        self.v = 0;
        self.n = 0;

        memory.init();
    }

    /// Reads one byte: from `explicit_address` if given, otherwise from the
    /// program counter. When `increase_pc` is set the program counter
    /// advances by one (wrapping) whichever address was read. Costs 1 cycle.
    pub fn fetch_byte(
        &mut self,
        cycles: &mut u32,
        memory: &Memory,
        increase_pc: bool,
        address: Option<u16>,
    ) -> (data: u8)
        requires
            memory.wf(),
            *old(cycles) >= 1,
        ensures
            data == memory@[(match address {
                Some(explicit) => explicit,
                None => old(self).pc,
            }) as int],
            *final(cycles) == *old(cycles) - 1,
            *final(self) == (CPU {
                pc: if increase_pc { spec_inc16(old(self).pc) } else { old(self).pc },
                ..*old(self)
            }),
    {
        let mem_addr: u16 = match address {
            Some(explicit) => explicit,
            None => self.pc,
        };
        let data = memory.read(mem_addr);

        if increase_pc {
            self.pc = if self.pc == 0xFFFF { 0 } else { self.pc + 1 };
        }
        *cycles = *cycles - 1;

        data
    }

    /// Reads two consecutive bytes from the program counter (advancing it
    /// past both) and assembles them little-endian. Costs 2 cycles.
    pub fn fetch_word(&mut self, cycles: &mut u32, memory: &Memory) -> (data: u16)
        requires
            memory.wf(),
            *old(cycles) >= 2,
        ensures
            data == word_le(
                memory@[old(self).pc as int],
                memory@[spec_inc16(old(self).pc) as int],
            ),
            *final(cycles) == *old(cycles) - 2,
            *final(self) == (CPU { pc: spec_inc16(spec_inc16(old(self).pc)), ..*old(self) }),
    {
        let low_byte = self.fetch_byte(cycles, memory, true, None);
        let high_byte = self.fetch_byte(cycles, memory, true, None);

        (high_byte as u16) * 0x100 + (low_byte as u16)
    }

    /// Cycle cost of the instruction `op`, the opcode fetch included.
    fn cost_of(op: u8) -> (cost: u32)
        ensures
            cost == instruction_cost(op),
    {
        if op == INS_LDA_IM {
            2
        } else if op == INS_LDA_ZP {
            3
        } else if op == INS_LDA_ZPX {
            4
        } else if op == INS_JSR {
            6
        } else {
            0
        }
    }

    /// The fetch-decode-execute loop. Instructions run whole: before each
    /// one, the opcode at the program counter is decoded and its full cost
    /// compared against the remaining budget. Execution stops when the
    /// budget reaches exactly 0; when the next instruction costs more than
    /// remains; or at an unrecognized opcode, which would otherwise repeat
    /// without bound. In the latter two cases it stops before the
    /// instruction touches any state, leaving the unspent remainder in
    /// `cycles` to report where it halted. The budget is never overdrawn
    /// and no fetch is ever performed against an exhausted budget.
    pub fn execute(&mut self, cycles: &mut u32, memory: &mut Memory)
        requires
            old(memory).wf(),
        ensures
            final(memory).wf(),
            (*final(self), final(memory)@, *final(cycles) as nat) == run(
                *old(self),
                old(memory)@,
                *old(cycles) as nat,
            ),
    {
        let ghost c0 = *self;
        let ghost m0 = memory@;
        let ghost n0 = *cycles as nat;

        while *cycles > 0
            invariant
                memory.wf(),
                run(c0, m0, n0) == run(*self, memory@, *cycles as nat),
            ensures
                memory.wf(),
                run(c0, m0, n0) == (*self, memory@, *cycles as nat),
            decreases *cycles,
        {
            let op = memory.read(self.pc);
            let recognized = op == INS_LDA_IM || op == INS_LDA_ZP || op == INS_LDA_ZPX
                || op == INS_JSR;
            let cost = Self::cost_of(op);
            if !recognized || *cycles < cost {
                break;
            }

            let instruction = self.fetch_byte(cycles, memory, true, None);

            if instruction == INS_LDA_IM {
                let value = self.fetch_byte(cycles, memory, true, None);
                self.a = value;
                self.set_status_after_load();
            } else if instruction == INS_LDA_ZP {
                let zero_page_addr = self.fetch_byte(cycles, memory, false, None);
                let value = self.fetch_byte(cycles, memory, true, Some(zero_page_addr as u16));
                self.a = value;
                self.set_status_after_load();
            } else if instruction == INS_LDA_ZPX {
                let base = self.fetch_byte(cycles, memory, false, None);
                let zero_page_addr = ((base as u16 + self.x as u16) % 0x100) as u8;
                *cycles = *cycles - 1;
                let value = self.fetch_byte(cycles, memory, true, Some(zero_page_addr as u16));
                self.a = value;
                self.set_status_after_load();
            } else if instruction == INS_JSR {
                let sub_routine_addr = self.fetch_word(cycles, memory);
                self.sp = if self.sp == 0 { 0xFF } else { self.sp - 1 };
                let return_addr: u16 = if self.pc == 0 { 0xFFFF } else { self.pc - 1 };
                memory.write_word(cycles, self.sp as u16, return_addr);
                self.pc = sub_routine_addr;
                *cycles = *cycles - 1;
            }
        }
    }

    /// The flag rule shared by all loads: `z` records whether the
    /// accumulator is zero, `n` records its bit 7. No other flag moves.
    fn set_status_after_load(&mut self)
        ensures
            *final(self) == (CPU {
                z: zero_flag(old(self).a),
                n: negative_flag(old(self).a),
                ..*old(self)
            }),
    {
        self.z = if self.a == 0 { 1 } else { 0 };
        self.n = if self.a >= 0x80 { 1 } else { 0 };
    }
}

} // verus!
