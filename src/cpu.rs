use vstd::prelude::*;

use crate::memory::{Memory, INTERRUPT_ENABLED, INTERRUPT_REQUEST};

verus! {

/// The five interrupt sources, highest priority first.
#[derive(Clone, Copy, Debug, PartialEq, Eq, Structural)]
pub enum Interrupt {
    VBlank,
    Lcd,
    Timer,
    Serial,
    Joypad,
}

impl Interrupt {
    /// Bit of the source in IF and IE.
    pub open spec fn spec_bit(self) -> u8 {
        match self {
            Interrupt::VBlank => 0x01,
            Interrupt::Lcd => 0x02,
            Interrupt::Timer => 0x04,
            Interrupt::Serial => 0x08,
            Interrupt::Joypad => 0x10,
        }
    }

    /// Address the CPU jumps to when it services the source.
    pub open spec fn spec_vector(self) -> u16 {
        match self {
            Interrupt::VBlank => 0x40,
            Interrupt::Lcd => 0x48,
            Interrupt::Timer => 0x50,
            Interrupt::Serial => 0x58,
            Interrupt::Joypad => 0x60,
        }
    }

    pub fn bit(self) -> (r: u8)
        ensures
            r == self.spec_bit(),
    {
        match self {
            Interrupt::VBlank => 0x01,
            Interrupt::Lcd => 0x02,
            Interrupt::Timer => 0x04,
            Interrupt::Serial => 0x08,
            Interrupt::Joypad => 0x10,
        }
    }

    pub fn vector(self) -> (r: u16)
        ensures
            r == self.spec_vector(),
    {
        match self {
            Interrupt::VBlank => 0x40,
            Interrupt::Lcd => 0x48,
            Interrupt::Timer => 0x50,
            Interrupt::Serial => 0x58,
            Interrupt::Joypad => 0x60,
        }
    }
}

/// The highest-priority source among the set bits of `pending`, if any.
pub open spec fn spec_highest(pending: u8) -> Option<Interrupt> {
    if pending & 0x01 != 0 {
        Some(Interrupt::VBlank)
    } else if pending & 0x02 != 0 {
        Some(Interrupt::Lcd)
    } else if pending & 0x04 != 0 {
        Some(Interrupt::Timer)
    } else if pending & 0x08 != 0 {
        Some(Interrupt::Serial)
    } else if pending & 0x10 != 0 {
        Some(Interrupt::Joypad)
    } else {
        None
    }
}

pub fn highest(pending: u8) -> (r: Option<Interrupt>)
    ensures
        r == spec_highest(pending),
{
    if pending & 0x01 != 0 {
        Some(Interrupt::VBlank)
    } else if pending & 0x02 != 0 {
        Some(Interrupt::Lcd)
    } else if pending & 0x04 != 0 {
        Some(Interrupt::Timer)
    } else if pending & 0x08 != 0 {
        Some(Interrupt::Serial)
    } else if pending & 0x10 != 0 {
        Some(Interrupt::Joypad)
    } else {
        None
    }
}

/// Requests that are both raised in IF and enabled in IE.
pub open spec fn pending_of(m: &Memory) -> u8 {
    m.rom@[0xFF0F] & m.rom@[0xFFFF] & 0x1F
}

/// The SM83 register file and control state.
#[derive(Clone, Copy, Debug, PartialEq, Eq, Structural)]
pub struct Cpu {
    pub a: u8,
    /// Flags: Z bit 7, N bit 6, H bit 5, C bit 4; bits 3-0 always zero.
    pub f: u8,
    pub b: u8,
    pub c: u8,
    pub d: u8,
    pub e: u8,
    pub h: u8,
    pub l: u8,
    pub pc: u16,
    pub sp: u16,
    /// Interrupt master enable.
    pub ime: bool,
    /// EI was executed: IME turns on after the next instruction.
    pub ime_pending: bool,
    pub halted: bool,
    /// STOP was executed: the CPU waits for a button press.
    pub stopped: bool,
    /// The opcode that stopped the CPU because it is not part of the instruction set.
    pub fault: Option<u8>,
}

impl Cpu {
    pub open spec fn wf(&self) -> bool {
        self.f & 0x0F == 0
    }

    pub open spec fn spec_new() -> Cpu {
        Cpu {
            a: 0x01,
            f: 0xB0,
            b: 0x00,
            c: 0x13,
            d: 0x00,
            e: 0xD8,
            h: 0x01,
            l: 0x4D,
            pc: 0x100,
            sp: 0xFFFE,
            ime: true,
            ime_pending: false,
            halted: false,
            stopped: false,
            fault: None,
        }
    }

    /// The CPU as the boot ROM hands over to the cartridge.
    pub fn new() -> (r: Cpu)
        ensures
            r == Cpu::spec_new(),
            r.wf(),
            r.a == 0x01 && r.f == 0xB0 && r.b == 0x00 && r.c == 0x13,
            r.d == 0x00 && r.e == 0xD8 && r.h == 0x01 && r.l == 0x4D,
            r.pc == 0x100 && r.sp == 0xFFFE,
            r.ime && !r.ime_pending && !r.halted && !r.stopped && r.fault.is_none(),
    {
        assert(0xB0u8 & 0x0F == 0) by (bit_vector);
        Cpu {
            a: 0x01,
            f: 0xB0,
            b: 0x00,
            c: 0x13,
            d: 0x00,
            e: 0xD8,
            h: 0x01,
            l: 0x4D,
            pc: 0x100,
            sp: 0xFFFE,
            ime: true,
            ime_pending: false,
            halted: false,
            stopped: false,
            fault: None,
        }
    }
}





/// `base` moved by the signed byte `e`, modulo 0x10000.
pub open spec fn spec_offset(base: u16, e: u8) -> u16 {
    ((base + (if e < 128 {
        e as int
    } else {
        e - 256
    }) + 0x10000) % 0x10000) as u16
}

/// Register `r` in instruction order B, C, D, E, H, L, -, A (6 is the memory operand).
pub open spec fn spec_reg(c: Cpu, r: u8) -> u8 {
    if r == 0 {
        c.b
    } else if r == 1 {
        c.c
    } else if r == 2 {
        c.d
    } else if r == 3 {
        c.e
    } else if r == 4 {
        c.h
    } else if r == 5 {
        c.l
    } else {
        c.a
    }
}

/// `c` with register `r` (not 6) set to `v`.
pub open spec fn spec_set_reg(c: Cpu, r: u8, v: u8) -> Cpu {
    if r == 0 {
        Cpu { b: v, ..c }
    } else if r == 1 {
        Cpu { c: v, ..c }
    } else if r == 2 {
        Cpu { d: v, ..c }
    } else if r == 3 {
        Cpu { e: v, ..c }
    } else if r == 4 {
        Cpu { h: v, ..c }
    } else if r == 5 {
        Cpu { l: v, ..c }
    } else {
        Cpu { a: v, ..c }
    }
}

/// The 0x40-0xBF opcodes with (HL) as an operand: LD r,(HL), LD (HL),r and the ALU on (HL).
pub open spec fn memory_operand_effect(c: Cpu, m: &Memory, c2: Cpu, m2: &Memory, r: u32) -> bool {
    let op = m.spec_read(c.pc as int);
    let next = Cpu { pc: ((c.pc + 1) % 0x10000) as u16, ..c };
    let hl = c.h * 256 + c.l;
    let v = m.spec_read(hl);
    &&& (0x40 <= op < 0x80 && op != 0x76 && op % 8 == 6) ==> r == 8 && *m2 == *m && c2
        == spec_set_reg(next, (op / 8) % 8, v)
    &&& (0x70 <= op < 0x78 && op != 0x76) ==> r == 8 && c2 == next && m.write_post(
        m2,
        hl as usize,
        spec_reg(c, op % 8),
    )
    &&& (0x80 <= op < 0xC0 && op % 8 == 6) ==> r == 8 && *m2 == *m && c2 == (Cpu {
        a: alu_result((op / 8) % 8, c.a, v, c.f).0,
        f: alu_result((op / 8) % 8, c.a, v, c.f).1,
        ..next
    })
}

/// What one instruction does for the opcodes with a single register form: NOP, HALT,
/// LD r,r' and the ALU on a register (the memory operand excluded).
pub open spec fn instruction_effect(c: Cpu, m: &Memory, c2: Cpu, m2: &Memory, r: u32) -> bool {
    let op = m.spec_read(c.pc as int);
    let next = Cpu { pc: ((c.pc + 1) % 0x10000) as u16, ..c };
    &&& op == 0x00 ==> r == 4 && c2 == next && *m2 == *m
    &&& op == 0x76 ==> r == 4 && c2 == (Cpu { halted: true, ..next }) && *m2 == *m
    &&& (0x40 <= op < 0x80 && op != 0x76 && op % 8 != 6 && (op / 8) % 8 != 6) ==> r == 4 && c2
        == spec_set_reg(next, (op / 8) % 8, spec_reg(c, op % 8)) && *m2 == *m
    &&& (0x80 <= op < 0xC0 && op % 8 != 6) ==> r == 4 && *m2 == *m && c2 == (Cpu {
        a: alu_result((op / 8) % 8, c.a, spec_reg(c, op % 8), c.f).0,
        f: alu_result((op / 8) % 8, c.a, spec_reg(c, op % 8), c.f).1,
        ..next
    })
    &&& memory_operand_effect(c, m, c2, m2, r)
    &&& (op < 0x40 || op >= 0xC0) ==> immediate_effect(c, m, c2, m2, r)
    &&& op < 0x40 ==> low_effect(next, m, c2, m2, r, op)
    &&& (op >= 0xC0 && op != 0xCB) ==> high_effect(next, m, c2, m2, r, op)
    &&& op == 0xCB ==> cb_effect(next, m, c2, m2, r)
}

/// The effect of the opcodes with immediate operands that touch registers only: LD r,n,
/// ALU A,n, JP nn and JR e.
pub open spec fn immediate_effect(c: Cpu, m: &Memory, c2: Cpu, m2: &Memory, r: u32) -> bool {
    let op = m.spec_read(c.pc as int);
    let n = m.spec_read((c.pc + 1) % 0x10000);
    let nn = n + 256 * m.spec_read((c.pc + 2) % 0x10000);
    let after2 = Cpu { pc: ((c.pc + 2) % 0x10000) as u16, ..c };
    &&& (op < 0x40 && op % 8 == 6 && op / 8 != 6) ==> r == 8 && *m2 == *m && c2 == spec_set_reg(
        after2,
        op / 8,
        n,
    )
    &&& (op >= 0xC0 && op % 8 == 6) ==> r == 8 && *m2 == *m && c2 == (Cpu {
        a: alu_result((op / 8) % 8, c.a, n, c.f).0,
        f: alu_result((op / 8) % 8, c.a, n, c.f).1,
        ..after2
    })
    &&& op == 0xC3 ==> r == 16 && *m2 == *m && c2 == (Cpu { pc: nn as u16, ..c })
    &&& op == 0x18 ==> r == 12 && *m2 == *m && c2 == (Cpu {
        pc: spec_offset(after2.pc, n),
        ..c
    })
}


/// Condition `cc` of the jump, call and return instructions: NZ, Z, NC, C.
pub open spec fn spec_condition(c: Cpu, cc: u8) -> bool {
    if cc == 0 {
        c.f & 0x80 == 0
    } else if cc == 1 {
        c.f & 0x80 != 0
    } else if cc == 2 {
        c.f & 0x10 == 0
    } else {
        c.f & 0x10 != 0
    }
}

/// `c` with register pair `idx` (BC, DE, HL, SP) set to `v`.
pub open spec fn spec_set_rr(c: Cpu, idx: u8, v: u16) -> Cpu {
    if idx == 0 {
        Cpu { b: (v / 256) as u8, c: (v % 256) as u8, ..c }
    } else if idx == 1 {
        Cpu { d: (v / 256) as u8, e: (v % 256) as u8, ..c }
    } else if idx == 2 {
        Cpu { h: (v / 256) as u8, l: (v % 256) as u8, ..c }
    } else {
        Cpu { sp: v, ..c }
    }
}

/// The opcodes that are not part of the instruction set.
pub open spec fn is_illegal(op: u8) -> bool {
    op == 0xD3 || op == 0xDB || op == 0xDD || op == 0xE3 || op == 0xE4 || op == 0xEB || op == 0xEC
        || op == 0xED || op == 0xF4 || op == 0xFC || op == 0xFD
}


/// 2 to the power `y`, for a bit index of a byte.
pub open spec fn spec_pow2(y: u8) -> u8 {
    if y == 0 {
        1
    } else if y == 1 {
        2
    } else if y == 2 {
        4
    } else if y == 3 {
        8
    } else if y == 4 {
        16
    } else if y == 5 {
        32
    } else if y == 6 {
        64
    } else {
        128
    }
}

/// Result and carry of the CB rotate or shift `y` (RLC, RRC, RL, RR, SLA, SRA, SWAP, SRL) of
/// `v` with carry in `cin`.
pub open spec fn cb_shift(y: u8, v: u8, cin: int) -> (u8, bool) {
    if y == 0 {
        (((v % 128) * 2 + v / 128) as u8, v >= 128)
    } else if y == 1 {
        ((v / 2 + (v % 2) * 128) as u8, v % 2 == 1)
    } else if y == 2 {
        (((v % 128) * 2 + cin) as u8, v >= 128)
    } else if y == 3 {
        ((v / 2 + cin * 128) as u8, v % 2 == 1)
    } else if y == 4 {
        (((v % 128) * 2) as u8, v >= 128)
    } else if y == 5 {
        ((v / 2 + (v / 128) * 128) as u8, v % 2 == 1)
    } else if y == 6 {
        (((v % 16) * 16 + v / 16) as u8, false)
    } else {
        ((v / 2) as u8, v % 2 == 1)
    }
}

/// Effect of a CB-prefixed opcode on a register; `c` is the CPU with PC at the second byte.
pub open spec fn cb_effect(c: Cpu, m: &Memory, c2: Cpu, m2: &Memory, r: u32) -> bool {
    let cb = m.spec_read(c.pc as int);
    let reg = cb % 8;
    let y = (cb / 8) % 8;
    let group = cb / 64;
    let v = spec_reg(c, reg);
    let next = Cpu { pc: ((c.pc + 1) % 0x10000) as u16, ..c };
    let cf = c.f & 0x10 != 0;
    let cin: int = if cf {
        1
    } else {
        0
    };
    let sh = cb_shift(y, v, cin);
    reg != 6 ==> r == 8 && *m2 == *m && c2 == if group == 0 {
        spec_set_reg(Cpu { f: flag_byte(sh.0 == 0, false, false, sh.1), ..next }, reg, sh.0)
    } else if group == 1 {
        Cpu { f: flag_byte((v / spec_pow2(y)) % 2 == 0, false, true, cf), ..next }
    } else if group == 2 {
        spec_set_reg(next, reg, v & !spec_pow2(y))
    } else {
        spec_set_reg(next, reg, v | spec_pow2(y))
    }
}

/// A after DAA, and the carry it leaves.
pub open spec fn daa_result(a: u8, f: u8) -> (u8, bool) {
    let n = f & 0x40 != 0;
    let h = f & 0x20 != 0;
    let cf = f & 0x10 != 0;
    if !n {
        let up: int = if cf || a > 0x99 {
            0x60
        } else {
            0
        };
        let low: int = if h || a % 16 > 9 {
            6
        } else {
            0
        };
        (((a + up + low) % 256) as u8, cf || a > 0x99)
    } else {
        let up: int = if cf {
            0x60
        } else {
            0
        };
        let low: int = if h {
            6
        } else {
            0
        };
        (((a - up - low + 512) % 256) as u8, cf)
    }
}

/// Effects of opcodes below 0x40, column by column (opcode modulo 8); `c` is the CPU with PC
/// already past the opcode.
pub open spec fn low_effect(c: Cpu, m: &Memory, c2: Cpu, m2: &Memory, r: u32, op: u8) -> bool {
    &&& op % 8 == 0 ==> low_col_jumps(c, m, c2, m2, r, op)
    &&& op % 8 == 1 ==> low_col_pairs(c, m, c2, m2, r, op)
    &&& op % 8 == 2 ==> low_col_indirect(c, m, c2, m2, r, op)
    &&& op % 8 == 3 ==> low_col_inc_dec_pair(c, m, c2, m2, r, op)
    &&& (op % 8 == 4 || op % 8 == 5) ==> low_col_inc_dec(c, m, c2, m2, r, op)
    &&& op % 8 == 7 ==> low_col_accumulator(c, m, c2, m2, r, op)
}

/// STOP and JR cc.
pub open spec fn low_col_jumps(c: Cpu, m: &Memory, c2: Cpu, m2: &Memory, r: u32, op: u8) -> bool {
    let y = op / 8;
    let n = m.spec_read(c.pc as int);
    let pc1 = ((c.pc + 1) % 0x10000) as u16;
    &&& op == 0x10 ==> r == 4 && *m2 == *m && c2 == (Cpu { pc: pc1, stopped: true, ..c })
    &&& y >= 4 ==> *m2 == *m && if spec_condition(c, (y - 4) as u8) {
        r == 12 && c2 == (Cpu { pc: spec_offset(pc1, n), ..c })
    } else {
        r == 8 && c2 == (Cpu { pc: pc1, ..c })
    }
}

/// LD rr,nn and ADD HL,rr.
pub open spec fn low_col_pairs(c: Cpu, m: &Memory, c2: Cpu, m2: &Memory, r: u32, op: u8) -> bool {
    let y = op / 8;
    let nn = m.spec_read(c.pc as int) + 256 * m.spec_read((c.pc + 1) % 0x10000);
    let v16 = spec_get_rr(c, y / 2);
    let hl = spec_get_rr(c, 2);
    &&& y % 2 == 0 ==> r == 12 && *m2 == *m && c2 == spec_set_rr(
        Cpu { pc: ((c.pc + 2) % 0x10000) as u16, ..c },
        y / 2,
        nn as u16,
    )
    &&& y % 2 == 1 ==> r == 8 && *m2 == *m && c2 == (Cpu {
        f: flag_byte(c.f & 0x80 != 0, false, hl % 0x1000 + v16 % 0x1000 > 0xFFF, hl + v16 > 0xFFFF),
        ..spec_set_rr(c, 2, ((hl + v16) % 0x10000) as u16)
    })
}

/// Loads and stores of A through (BC), (DE), (HL+) and (HL-).
pub open spec fn low_col_indirect(c: Cpu, m: &Memory, c2: Cpu, m2: &Memory, r: u32, op: u8) -> bool {
    let y = op / 8;
    let p = y / 2;
    let hl = spec_get_rr(c, 2);
    let addr: u16 = if p < 2 {
        spec_get_rr(c, p)
    } else {
        hl
    };
    let hl_after: u16 = if p == 2 {
        ((hl + 1) % 0x10000) as u16
    } else {
        ((hl + 0xFFFF) % 0x10000) as u16
    };
    &&& y % 2 == 1 ==> r == 8 && *m2 == *m && c2 == (if p < 2 {
        Cpu { a: m.spec_read(addr as int), ..c }
    } else {
        spec_set_rr(Cpu { a: m.spec_read(addr as int), ..c }, 2, hl_after)
    })
    &&& y % 2 == 0 ==> r == 8 && m.write_post(m2, addr as usize, c.a) && c2 == (if p < 2 {
        c
    } else {
        spec_set_rr(c, 2, hl_after)
    })
}

/// INC rr and DEC rr.
pub open spec fn low_col_inc_dec_pair(c: Cpu, m: &Memory, c2: Cpu, m2: &Memory, r: u32, op: u8) -> bool {
    let y = op / 8;
    let v16 = spec_get_rr(c, y / 2);
    r == 8 && *m2 == *m && c2 == spec_set_rr(
        c,
        y / 2,
        if y % 2 == 0 {
            ((v16 + 1) % 0x10000) as u16
        } else {
            ((v16 + 0xFFFF) % 0x10000) as u16
        },
    )
}

/// INC r and DEC r on a register.
pub open spec fn low_col_inc_dec(c: Cpu, m: &Memory, c2: Cpu, m2: &Memory, r: u32, op: u8) -> bool {
    let y = op / 8;
    let z = op % 8;
    let cf = c.f & 0x10 != 0;
    let v = spec_reg(c, y);
    &&& (z == 4 && y != 6) ==> r == 4 && *m2 == *m && c2 == (Cpu {
        f: flag_byte((v + 1) % 256 == 0, false, v % 16 == 15, cf),
        ..spec_set_reg(c, y, ((v + 1) % 256) as u8)
    })
    &&& (z == 5 && y != 6) ==> r == 4 && *m2 == *m && c2 == (Cpu {
        f: flag_byte((v + 255) % 256 == 0, true, v % 16 == 0, cf),
        ..spec_set_reg(c, y, ((v + 255) % 256) as u8)
    })
}

/// The rotates of A, DAA, CPL, SCF and CCF.
pub open spec fn low_col_accumulator(c: Cpu, m: &Memory, c2: Cpu, m2: &Memory, r: u32, op: u8) -> bool {
    let zf = c.f & 0x80 != 0;
    let cf = c.f & 0x10 != 0;
    let cin: int = if cf {
        1
    } else {
        0
    };
    let a = c.a;
    &&& op == 0x07 ==> r == 4 && *m2 == *m && c2 == (Cpu {
        a: ((a % 128) * 2 + a / 128) as u8,
        f: flag_byte(false, false, false, a >= 128),
        ..c
    })
    &&& op == 0x0F ==> r == 4 && *m2 == *m && c2 == (Cpu {
        a: (a / 2 + (a % 2) * 128) as u8,
        f: flag_byte(false, false, false, a % 2 == 1),
        ..c
    })
    &&& op == 0x17 ==> r == 4 && *m2 == *m && c2 == (Cpu {
        a: ((a % 128) * 2 + cin) as u8,
        f: flag_byte(false, false, false, a >= 128),
        ..c
    })
    &&& op == 0x1F ==> r == 4 && *m2 == *m && c2 == (Cpu {
        a: (a / 2 + cin * 128) as u8,
        f: flag_byte(false, false, false, a % 2 == 1),
        ..c
    })
    &&& op == 0x2F ==> r == 4 && *m2 == *m && c2 == (Cpu {
        a: !c.a,
        f: flag_byte(zf, true, true, cf),
        ..c
    })
    &&& op == 0x27 ==> r == 4 && *m2 == *m && c2 == (Cpu {
        a: daa_result(a, c.f).0,
        f: flag_byte(daa_result(a, c.f).0 == 0, c.f & 0x40 != 0, false, daa_result(a, c.f).1),
        ..c
    })
    &&& op == 0x37 ==> r == 4 && *m2 == *m && c2 == (Cpu { f: flag_byte(zf, false, false, true), ..c })
    &&& op == 0x3F ==> r == 4 && *m2 == *m && c2 == (Cpu { f: flag_byte(zf, false, false, !cf), ..c })
}

/// Effects of opcodes from 0xC0 (unknown opcodes, JP cc, RET, CALL, RST); `c` is the CPU with
/// PC already past the opcode.
pub open spec fn high_effect(c: Cpu, m: &Memory, c2: Cpu, m2: &Memory, r: u32, op: u8) -> bool {
    let y = (op / 8) % 8;
    let nn = m.spec_read(c.pc as int) + 256 * m.spec_read((c.pc + 1) % 0x10000);
    let pc2 = ((c.pc + 2) % 0x10000) as u16;
    let popped = m.spec_read(c.sp as int) + 256 * m.spec_read((c.sp + 1) % 0x10000);
    &&& is_illegal(op) ==> r == 4 && *m2 == *m && c2 == (Cpu { fault: Some(op), ..c })
    &&& (op % 8 == 2 && y < 4) ==> *m2 == *m && if spec_condition(c, y) {
        r == 16 && c2 == (Cpu { pc: nn as u16, ..c })
    } else {
        r == 12 && c2 == (Cpu { pc: pc2, ..c })
    }
    &&& op == 0xC9 ==> r == 16 && *m2 == *m && c2 == (Cpu {
        pc: popped as u16,
        sp: c.sp.wrapping_add(2),
        ..c
    })
    &&& op % 8 == 7 ==> r == 16 && c2 == (Cpu {
        pc: (y * 8) as u16,
        sp: c.sp.wrapping_sub(2),
        ..c
    }) && (stack_in_ram(c.sp) ==> pushed(m, m2, c.sp, c.pc))
    &&& op == 0xCD ==> r == 24 && c2 == (Cpu {
        pc: nn as u16,
        sp: c.sp.wrapping_sub(2),
        ..c
    }) && (stack_in_ram(c.sp) ==> pushed(m, m2, c.sp, pc2))
    &&& high_effect_more(c, m, c2, m2, r, op)
}

/// Further effects of opcodes from 0xC0: conditional returns and calls, RETI, JP HL,
/// LD SP,HL, POP, PUSH, and the loads and stores through 0xFF00 + n, 0xFF00 + C and nn.
pub open spec fn high_effect_more(c: Cpu, m: &Memory, c2: Cpu, m2: &Memory, r: u32, op: u8) -> bool {
    let y = (op / 8) % 8;
    let n = m.spec_read(c.pc as int);
    let nn = n + 256 * m.spec_read((c.pc + 1) % 0x10000);
    let pc1 = ((c.pc + 1) % 0x10000) as u16;
    let pc2 = ((c.pc + 2) % 0x10000) as u16;
    let popped = m.spec_read(c.sp as int) + 256 * m.spec_read((c.sp + 1) % 0x10000);
    let lo = (popped % 256) as u8;
    let hl = c.h * 256 + c.l;
    &&& (op % 8 == 0 && y < 4) ==> *m2 == *m && if spec_condition(c, y) {
        r == 20 && c2 == (Cpu { pc: popped as u16, sp: c.sp.wrapping_add(2), ..c })
    } else {
        r == 8 && c2 == c
    }
    &&& op == 0xD9 ==> r == 16 && *m2 == *m && c2 == (Cpu {
        pc: popped as u16,
        sp: c.sp.wrapping_add(2),
        ime: c2.ime,
        ..c
    })
    &&& op == 0xE9 ==> r == 4 && *m2 == *m && c2 == (Cpu { pc: hl as u16, ..c })
    &&& op == 0xF9 ==> r == 8 && *m2 == *m && c2 == (Cpu { sp: hl as u16, ..c })
    &&& (op % 16 == 1 && op != 0xF1) ==> r == 12 && *m2 == *m && c2 == spec_set_rr(
        Cpu { sp: c.sp.wrapping_add(2), ..c },
        y / 2,
        popped as u16,
    )
    &&& op == 0xF1 ==> r == 12 && *m2 == *m && c2 == (Cpu {
        a: (popped / 256) as u8,
        f: flag_byte(lo >= 128, (lo / 64) % 2 == 1, (lo / 32) % 2 == 1, (lo / 16) % 2 == 1),
        sp: c.sp.wrapping_add(2),
        ..c
    })
    &&& op % 16 == 5 ==> r == 16 && c2 == (Cpu { sp: c.sp.wrapping_sub(2), ..c }) && (
    stack_in_ram(c.sp) ==> pushed(
        m,
        m2,
        c.sp,
        if op == 0xF5 {
            (c.a * 256 + c.f) as u16
        } else {
            spec_get_rr(c, y / 2)
        },
    ))
    &&& (op % 8 == 4 && y < 4) ==> if spec_condition(c, y) {
        r == 24 && c2 == (Cpu { pc: nn as u16, sp: c.sp.wrapping_sub(2), ..c }) && (stack_in_ram(
            c.sp,
        ) ==> pushed(m, m2, c.sp, pc2))
    } else {
        r == 12 && c2 == (Cpu { pc: pc2, ..c }) && *m2 == *m
    }
    &&& op == 0xF0 ==> r == 12 && *m2 == *m && c2 == (Cpu {
        a: m.spec_read(0xFF00 + n),
        pc: pc1,
        ..c
    })
    &&& op == 0xE0 ==> r == 12 && c2 == (Cpu { pc: pc1, ..c }) && m.write_post(
        m2,
        (0xFF00 + n) as usize,
        c.a,
    )
    &&& op == 0xF2 ==> r == 8 && *m2 == *m && c2 == (Cpu { a: m.spec_read(0xFF00 + c.c), ..c })
    &&& op == 0xE2 ==> r == 8 && c2 == c && m.write_post(m2, (0xFF00 + c.c) as usize, c.a)
    &&& op == 0xFA ==> r == 16 && *m2 == *m && c2 == (Cpu { a: m.spec_read(nn), pc: pc2, ..c })
    &&& op == 0xEA ==> r == 16 && c2 == (Cpu { pc: pc2, ..c }) && m.write_post(
        m2,
        nn as usize,
        c.a,
    )
}

/// Register pair `idx`: BC, DE, HL, SP.
pub open spec fn spec_get_rr(c: Cpu, idx: u8) -> u16 {
    if idx == 0 {
        (c.b * 256 + c.c) as u16
    } else if idx == 1 {
        (c.d * 256 + c.e) as u16
    } else if idx == 2 {
        (c.h * 256 + c.l) as u16
    } else {
        c.sp
    }
}

/// The flags byte with Z, N, H, C as given.
pub open spec fn flag_byte(z: bool, n: bool, h: bool, c: bool) -> u8 {
    (if z {
        0x80u8
    } else {
        0u8
    }) | (if n {
        0x40u8
    } else {
        0u8
    }) | (if h {
        0x20u8
    } else {
        0u8
    }) | (if c {
        0x10u8
    } else {
        0u8
    })
}

/// A and F after ALU operation `op` (ADD, ADC, SUB, SBC, AND, XOR, OR, CP) of A with `v`.
pub open spec fn alu_result(op: u8, a: u8, v: u8, f: u8) -> (u8, u8) {
    let cin: int = if f & 0x10 != 0 {
        1
    } else {
        0
    };
    if op == 0 || op == 1 {
        let cy: int = if op == 1 {
            cin
        } else {
            0
        };
        let sum = a + v + cy;
        let res = (sum % 256) as u8;
        (res, flag_byte(res == 0, false, a % 16 + v % 16 + cy > 15, sum > 255))
    } else if op == 2 || op == 3 || op == 7 {
        let cy: int = if op == 3 {
            cin
        } else {
            0
        };
        let res = ((a - v - cy + 512) % 256) as u8;
        (if op == 7 {
            a
        } else {
            res
        }, flag_byte(res == 0, true, a % 16 < v % 16 + cy, a < v + cy))
    } else if op == 4 {
        (a & v, flag_byte(a & v == 0, false, true, false))
    } else if op == 5 {
        (a ^ v, flag_byte(a ^ v == 0, false, false, false))
    } else {
        (a | v, flag_byte(a | v == 0, false, false, false))
    }
}


/// Address `a` is RAM that a CPU write stores into as it is and a read gives back: VRAM,
/// work RAM, the sprite table, high RAM and IE.
pub open spec fn plain_ram(a: int) -> bool {
    ||| 0x8000 <= a < 0xA000
    ||| 0xC000 <= a < 0xE000
    ||| 0xFE00 <= a < 0xFEA0
    ||| 0xFF80 <= a <= 0xFFFF
}

/// The two bytes below SP are plain RAM.
pub open spec fn stack_in_ram(sp: u16) -> bool {
    plain_ram(sp - 1) && plain_ram(sp - 2)
}

/// `m2` holds `v` pushed below `sp` (high byte at SP - 1, low at SP - 2) over `m`, and is
/// otherwise unchanged.
pub open spec fn pushed(m: &Memory, m2: &Memory, sp: u16, v: u16) -> bool {
    &&& m2.spec_read(sp - 1) == v / 256
    &&& m2.spec_read(sp - 2) == v % 256
    &&& m2.same_but_rom(m)
    &&& m2.rom@.len() == m.rom@.len()
    &&& forall|k: int|
        0 <= k < 0x10000 && k != sp - 1 && k != sp - 2 ==> #[trigger] m2.rom@[k] == m.rom@[k]
}

/// A flags byte from its four flags; bits 3-0 are zero.
fn flags(z: bool, n: bool, h: bool, c: bool) -> (r: u8)
    ensures
        r == flag_byte(z, n, h, c),
        r & 0x0F == 0,
        (r & 0x80 != 0) == z,
        (r & 0x40 != 0) == n,
        (r & 0x20 != 0) == h,
        (r & 0x10 != 0) == c,
{
    let zb: u8 = if z {
        0x80
    } else {
        0
    };
    let nb: u8 = if n {
        0x40
    } else {
        0
    };
    let hb: u8 = if h {
        0x20
    } else {
        0
    };
    let cb: u8 = if c {
        0x10
    } else {
        0
    };
    let r = zb | nb | hb | cb;
    assert(r & 0x0F == 0 && ((r & 0x80 != 0) == (zb != 0)) && ((r & 0x40 != 0) == (nb != 0)) && ((
    r & 0x20 != 0) == (hb != 0)) && ((r & 0x10 != 0) == (cb != 0))) by (bit_vector)
        requires
            r == zb | nb | hb | cb,
            zb == 0x80 || zb == 0,
            nb == 0x40 || nb == 0,
            hb == 0x20 || hb == 0,
            cb == 0x10 || cb == 0,
    ;
    r
}

/// T-states of an instruction or of a dispatch: a multiple of 4 up to 24.
pub open spec fn valid_cycles(r: u32) -> bool {
    4 <= r <= 24 && r % 4 == 0
}

impl Cpu {
    pub open spec fn same_control(&self, o: &Cpu) -> bool {
        &&& self.ime == o.ime
        &&& self.ime_pending == o.ime_pending
        &&& self.halted == o.halted
        &&& self.fault == o.fault
    }

    fn zero_flag(&self) -> (r: bool)
        ensures
            r == (self.f & 0x80 != 0),
    {
        self.f & 0x80 != 0
    }

    fn carry_flag(&self) -> (r: bool)
        ensures
            r == (self.f & 0x10 != 0),
    {
        self.f & 0x10 != 0
    }

    fn half_flag(&self) -> (r: bool)
        ensures
            r == (self.f & 0x20 != 0),
    {
        self.f & 0x20 != 0
    }

    fn sub_flag(&self) -> (r: bool)
        ensures
            r == (self.f & 0x40 != 0),
    {
        self.f & 0x40 != 0
    }

    fn hl(&self) -> (r: u16)
        ensures
            r == self.h * 256 + self.l,
    {
        (self.h as u16) * 256 + self.l as u16
    }

    fn set_hl(&mut self, v: u16)
        ensures
            final(self).h == v / 256,
            final(self).l == v % 256,
            final(self).f == old(self).f,
            final(self).same_control(old(self)),
            *final(self) == spec_set_rr(*old(self), 2, v),
    {
        self.h = (v / 256) as u8;
        self.l = (v % 256) as u8;
    }

    /// Register pair `idx`: BC, DE, HL, SP.
    fn get_rr(&self, idx: u8) -> (r: u16)
        requires
            idx < 4,
        ensures
            r == spec_get_rr(*self, idx),
    {
        if idx == 0 {
            (self.b as u16) * 256 + self.c as u16
        } else if idx == 1 {
            (self.d as u16) * 256 + self.e as u16
        } else if idx == 2 {
            self.hl()
        } else {
            self.sp
        }
    }

    fn set_rr(&mut self, idx: u8, v: u16)
        requires
            idx < 4,
        ensures
            final(self).f == old(self).f,
            final(self).same_control(old(self)),
            final(self).pc == old(self).pc,
            *final(self) == spec_set_rr(*old(self), idx, v),
    {
        let hi = (v / 256) as u8;
        let lo = (v % 256) as u8;
        if idx == 0 {
            self.b = hi;
            self.c = lo;
        } else if idx == 1 {
            self.d = hi;
            self.e = lo;
        } else if idx == 2 {
            self.h = hi;
            self.l = lo;
        } else {
            self.sp = v;
        }
    }

    /// Register `r` in instruction order B, C, D, E, H, L, (HL), A.
    fn reg(&self, memory: &Memory, r: u8) -> (v: u8)
        requires
            memory.wf(),
            r < 8,
        ensures
            r != 6 ==> v == spec_reg(*self, r),
            r == 6 ==> v == memory.spec_read(self.h * 256 + self.l),
    {
        if r == 0 {
            self.b
        } else if r == 1 {
            self.c
        } else if r == 2 {
            self.d
        } else if r == 3 {
            self.e
        } else if r == 4 {
            self.h
        } else if r == 5 {
            self.l
        } else if r == 6 {
            memory.read(self.hl() as usize)
        } else {
            self.a
        }
    }

    fn set_reg(&mut self, memory: &mut Memory, r: u8, v: u8)
        requires
            old(memory).wf(),
            r < 8,
        ensures
            final(memory).wf(),
            final(memory).cart == old(memory).cart,
            final(self).f == old(self).f,
            final(self).same_control(old(self)),
            final(self).pc == old(self).pc,
            final(self).sp == old(self).sp,
            r != 6 ==> *final(self) == spec_set_reg(*old(self), r, v) && *final(memory) == *old(
                memory,
            ),
            r == 6 ==> *final(self) == *old(self) && old(memory).write_post(
                final(memory),
                (old(self).h * 256 + old(self).l) as usize,
                v,
            ),
    {
        if r == 0 {
            self.b = v;
        } else if r == 1 {
            self.c = v;
        } else if r == 2 {
            self.d = v;
        } else if r == 3 {
            self.e = v;
        } else if r == 4 {
            self.h = v;
        } else if r == 5 {
            self.l = v;
        } else if r == 6 {
            memory.write(self.hl() as usize, v);
        } else {
            self.a = v;
        }
    }

    fn fetch8(&mut self, memory: &Memory) -> (r: u8)
        requires
            memory.wf(),
        ensures
            r == memory.spec_read(old(self).pc as int),
            final(self).pc == (old(self).pc + 1) % 0x10000,
            *final(self) == (Cpu { pc: final(self).pc, ..*old(self) }),
    {
        let r = memory.read(self.pc as usize);
        self.pc = self.pc.wrapping_add(1);
        r
    }

    fn fetch16(&mut self, memory: &Memory) -> (r: u16)
        requires
            memory.wf(),
        ensures
            *final(self) == (Cpu { pc: final(self).pc, ..*old(self) }),
            final(self).pc == (old(self).pc + 2) % 0x10000,
            r == memory.spec_read(old(self).pc as int) + 256 * memory.spec_read(
                (old(self).pc + 1) % 0x10000,
            ),
    {
        let lo = self.fetch8(memory);
        let hi = self.fetch8(memory);
        (hi as u16) * 256 + lo as u16
    }

    /// Pushes `v`: high byte at SP - 1, low byte at SP - 2.
    fn push16(&mut self, memory: &mut Memory, v: u16)
        requires
            old(memory).wf(),
        ensures
            final(memory).wf(),
            final(memory).cart == old(memory).cart,
            *final(self) == (Cpu { sp: old(self).sp.wrapping_sub(2), ..*old(self) }),
            stack_in_ram(old(self).sp) ==> pushed(old(memory), final(memory), old(self).sp, v),
    {
        self.sp = self.sp.wrapping_sub(1);
        memory.write(self.sp as usize, (v / 256) as u8);
        self.sp = self.sp.wrapping_sub(1);
        memory.write(self.sp as usize, (v % 256) as u8);
        assert(self.sp == old(self).sp.wrapping_sub(2));
    }

    fn pop16(&mut self, memory: &Memory) -> (r: u16)
        requires
            memory.wf(),
        ensures
            *final(self) == (Cpu { sp: old(self).sp.wrapping_add(2), ..*old(self) }),
            r == memory.spec_read(old(self).sp as int) + 256 * memory.spec_read(
                (old(self).sp + 1) % 0x10000,
            ),
    {
        let lo = memory.read(self.sp as usize);
        self.sp = self.sp.wrapping_add(1);
        let hi = memory.read(self.sp as usize);
        self.sp = self.sp.wrapping_add(1);
        (hi as u16) * 256 + lo as u16
    }

    /// ADD, ADC, SUB, SBC, AND, XOR, OR or CP (`op` in that order) of A with `v`.
    fn alu(&mut self, op: u8, v: u8)
        requires
            op < 8,
        ensures
            final(self).wf(),
            *final(self) == (Cpu { a: final(self).a, f: final(self).f, ..*old(self) }),
            (final(self).a, final(self).f) == alu_result(op, old(self).a, v, old(self).f),
    {
        let a = self.a as u16;
        let w = v as u16;
        let carry: u16 = if self.carry_flag() {
            1
        } else {
            0
        };
        let lo_a = (self.a % 16) as u16;
        let lo_v = (v % 16) as u16;
        if op == 0 || op == 1 {
            let cin: u16 = if op == 1 {
                carry
            } else {
                0
            };
            let r = a + w + cin;
            let res = (r % 256) as u8;
            self.f = flags(res == 0, false, lo_a + lo_v + cin > 15, r > 255);
            self.a = res;
        } else if op == 2 || op == 3 || op == 7 {
            let cin: u16 = if op == 3 {
                carry
            } else {
                0
            };
            let res = ((a + 512 - w - cin) % 256) as u8;
            self.f = flags(res == 0, true, lo_a < lo_v + cin, a < w + cin);
            if op != 7 {
                self.a = res;
            }
        } else if op == 4 {
            self.a = self.a & v;
            self.f = flags(self.a == 0, false, true, false);
        } else if op == 5 {
            self.a = self.a ^ v;
            self.f = flags(self.a == 0, false, false, false);
        } else {
            self.a = self.a | v;
            self.f = flags(self.a == 0, false, false, false);
        }
    }

    /// The CB-prefixed rotates, shifts, SWAP, BIT, RES and SET; returns the T-states.
    #[verifier::rlimit(100)]
    fn execute_cb(&mut self, memory: &mut Memory) -> (r: u32)
        requires
            old(self).wf(),
            old(memory).wf(),
        ensures
            final(self).wf(),
            final(memory).wf(),
            final(memory).cart == old(memory).cart,
            final(self).same_control(old(self)),
            valid_cycles(r),
            cb_effect(*old(self), old(memory), *final(self), final(memory), r),
    {
        let cb = self.fetch8(memory);
        let r = cb % 8;
        let y = (cb / 8) % 8;
        let group = cb / 64;
        let v = self.reg(memory, r);
        let slow: u32 = if r == 6 {
            8
        } else {
            0
        };
        if group == 1 {
            let bit_set = (v / pow2(y)) % 2 == 1;
            self.f = flags(!bit_set, false, true, self.carry_flag());
            return if r == 6 {
                12
            } else {
                8
            };
        }
        let res: u8 = if group == 2 {
            v & !pow2(y)
        } else if group == 3 {
            v | pow2(y)
        } else {
            let old_c: u8 = if self.carry_flag() {
                1
            } else {
                0
            };
            let (res, c) = if y == 0 {
                ((v % 128) * 2 + v / 128, v >= 128)
            } else if y == 1 {
                (v / 2 + (v % 2) * 128, v % 2 == 1)
            } else if y == 2 {
                ((v % 128) * 2 + old_c, v >= 128)
            } else if y == 3 {
                (v / 2 + old_c * 128, v % 2 == 1)
            } else if y == 4 {
                ((v % 128) * 2, v >= 128)
            } else if y == 5 {
                (v / 2 + (v / 128) * 128, v % 2 == 1)
            } else if y == 6 {
                ((v % 16) * 16 + v / 16, false)
            } else {
                (v / 2, v % 2 == 1)
            };
            self.f = flags(res == 0, false, false, c);
            res
        };
        self.set_reg(memory, r, res);
        8 + slow
    }
}

/// 2 to the power `y`, for a bit index of a byte.
fn pow2(y: u8) -> (r: u8)
    requires
        y < 8,
    ensures
        r >= 1,
        r == spec_pow2(y),
{
    if y == 0 {
        1
    } else if y == 1 {
        2
    } else if y == 2 {
        4
    } else if y == 3 {
        8
    } else if y == 4 {
        16
    } else if y == 5 {
        32
    } else if y == 6 {
        64
    } else {
        128
    }
}


impl Cpu {
    /// Condition `cc` of the jump, call and return instructions: NZ, Z, NC, C.
    fn condition(&self, cc: u8) -> (r: bool)
        ensures
            r == spec_condition(*self, cc),
    {
        if cc == 0 {
            !self.zero_flag()
        } else if cc == 1 {
            self.zero_flag()
        } else if cc == 2 {
            !self.carry_flag()
        } else {
            self.carry_flag()
        }
    }

    /// `base` moved by the signed byte `e`, wrapping.
    fn offset(base: u16, e: u8) -> (r: u16)
        ensures
            r == spec_offset(base, e),
    {
        if e < 128 {
            base.wrapping_add(e as u16)
        } else {
            base.wrapping_sub(256 - e as u16)
        }
    }

    /// Opcodes 0x00 to 0x3F: loads, 16-bit arithmetic, INC/DEC, rotates of A, relative jumps,
    /// DAA, CPL, SCF and CCF.
    fn execute_low(&mut self, memory: &mut Memory, op: u8) -> (r: u32)
        requires
            old(self).wf(),
            old(memory).wf(),
            op < 0x40,
        ensures
            final(self).wf(),
            final(memory).wf(),
            final(memory).cart == old(memory).cart,
            final(self).same_control(old(self)),
            valid_cycles(r),
            op == 0 ==> r == 4 && *final(self) == *old(self) && *final(memory) == *old(memory),
            low_effect(*old(self), old(memory), *final(self), final(memory), r, op),
            op % 8 == 6 && op / 8 != 6 ==> r == 8 && *final(memory) == *old(memory) && *final(self)
                == spec_set_reg(
                Cpu { pc: ((old(self).pc + 1) % 0x10000) as u16, ..*old(self) },
                op / 8,
                old(memory).spec_read(old(self).pc as int),
            ),
            op == 0x18 ==> r == 12 && *final(memory) == *old(memory) && *final(self) == (Cpu {
                pc: spec_offset(
                    ((old(self).pc + 1) % 0x10000) as u16,
                    old(memory).spec_read(old(self).pc as int),
                ),
                ..*old(self)
            }),
    {
        let z = op % 8;
        if z == 0 {
            self.low_misc(memory, op)
        } else if z == 1 {
            self.low_pairs(memory, op)
        } else if z == 2 {
            self.low_indirect(memory, op)
        } else if z == 3 {
            self.low_inc_dec_pair(memory, op)
        } else if z == 4 || z == 5 {
            self.low_inc_dec(memory, op)
        } else if z == 6 {
            self.low_load_imm(memory, op)
        } else {
            self.low_accumulator(memory, op)
        }
    }

    /// NOP, LD (nn),SP, STOP and the relative jumps.
    #[verifier::rlimit(100)]
    fn low_misc(&mut self, memory: &mut Memory, op: u8) -> (r: u32)
        requires
            old(self).wf(),
            old(memory).wf(),
            op < 0x40,
            op % 8 == 0,
        ensures
            final(self).wf(),
            final(memory).wf(),
            final(memory).cart == old(memory).cart,
            final(self).same_control(old(self)),
            valid_cycles(r),
            op == 0 ==> r == 4 && *final(self) == *old(self) && *final(memory) == *old(memory),
            low_col_jumps(*old(self), old(memory), *final(self), final(memory), r, op),
            op % 8 == 6 && op / 8 != 6 ==> r == 8 && *final(memory) == *old(memory) && *final(self)
                == spec_set_reg(
                Cpu { pc: ((old(self).pc + 1) % 0x10000) as u16, ..*old(self) },
                op / 8,
                old(memory).spec_read(old(self).pc as int),
            ),
            op == 0x18 ==> r == 12 && *final(memory) == *old(memory) && *final(self) == (Cpu {
                pc: spec_offset(
                    ((old(self).pc + 1) % 0x10000) as u16,
                    old(memory).spec_read(old(self).pc as int),
                ),
                ..*old(self)
            }),
    {
        let y = op / 8;
        let z = op % 8;
        let p = y / 2;
        if y == 0 {
            4
        } else if y == 1 {
            let addr = self.fetch16(memory);
            memory.write(addr as usize, (self.sp % 256) as u8);
            memory.write(addr.wrapping_add(1) as usize, (self.sp / 256) as u8);
            20
        } else if y == 2 {
            // STOP: its second byte is skipped.
            self.fetch8(memory);
            self.stopped = true;
            4
        } else {
            let e = self.fetch8(memory);
            if y == 3 || self.condition(y - 4) {
                self.pc = Cpu::offset(self.pc, e);
                12
            } else {
                8
            }
        }
    }

    /// LD rr,nn and ADD HL,rr.
    #[verifier::rlimit(100)]
    fn low_pairs(&mut self, memory: &mut Memory, op: u8) -> (r: u32)
        requires
            old(self).wf(),
            old(memory).wf(),
            op < 0x40,
            op % 8 == 1,
        ensures
            final(self).wf(),
            final(memory).wf(),
            final(memory).cart == old(memory).cart,
            final(self).same_control(old(self)),
            valid_cycles(r),
            op == 0 ==> r == 4 && *final(self) == *old(self) && *final(memory) == *old(memory),
            low_col_pairs(*old(self), old(memory), *final(self), final(memory), r, op),
            op % 8 == 6 && op / 8 != 6 ==> r == 8 && *final(memory) == *old(memory) && *final(self)
                == spec_set_reg(
                Cpu { pc: ((old(self).pc + 1) % 0x10000) as u16, ..*old(self) },
                op / 8,
                old(memory).spec_read(old(self).pc as int),
            ),
            op == 0x18 ==> r == 12 && *final(memory) == *old(memory) && *final(self) == (Cpu {
                pc: spec_offset(
                    ((old(self).pc + 1) % 0x10000) as u16,
                    old(memory).spec_read(old(self).pc as int),
                ),
                ..*old(self)
            }),
    {
        let y = op / 8;
        let z = op % 8;
        let p = y / 2;
        if y % 2 == 0 {
            let v = self.fetch16(memory);
            self.set_rr(p, v);
            12
        } else {
            let hl = self.hl() as u32;
            let v = self.get_rr(p) as u32;
            let sum = hl + v;
            self.f = flags(self.zero_flag(), false, hl % 0x1000 + v % 0x1000 > 0xFFF, sum > 0xFFFF);
            self.set_hl((sum % 0x10000) as u16);
            8
        }
    }

    /// Loads between A and (BC), (DE), (HL+), (HL-).
    #[verifier::rlimit(100)]
    fn low_indirect(&mut self, memory: &mut Memory, op: u8) -> (r: u32)
        requires
            old(self).wf(),
            old(memory).wf(),
            op < 0x40,
            op % 8 == 2,
        ensures
            final(self).wf(),
            final(memory).wf(),
            final(memory).cart == old(memory).cart,
            final(self).same_control(old(self)),
            valid_cycles(r),
            op == 0 ==> r == 4 && *final(self) == *old(self) && *final(memory) == *old(memory),
            low_col_indirect(*old(self), old(memory), *final(self), final(memory), r, op),
            op % 8 == 6 && op / 8 != 6 ==> r == 8 && *final(memory) == *old(memory) && *final(self)
                == spec_set_reg(
                Cpu { pc: ((old(self).pc + 1) % 0x10000) as u16, ..*old(self) },
                op / 8,
                old(memory).spec_read(old(self).pc as int),
            ),
            op == 0x18 ==> r == 12 && *final(memory) == *old(memory) && *final(self) == (Cpu {
                pc: spec_offset(
                    ((old(self).pc + 1) % 0x10000) as u16,
                    old(memory).spec_read(old(self).pc as int),
                ),
                ..*old(self)
            }),
    {
        let y = op / 8;
        let z = op % 8;
        let p = y / 2;
        let addr: u16 = if p == 0 {
            self.get_rr(0)
        } else if p == 1 {
            self.get_rr(1)
        } else {
            self.hl()
        };
        if y % 2 == 0 {
            memory.write(addr as usize, self.a);
        } else {
            self.a = memory.read(addr as usize);
        }
        if p == 2 {
            self.set_hl(addr.wrapping_add(1));
        } else if p == 3 {
            self.set_hl(addr.wrapping_sub(1));
        }
        8
    }

    /// INC rr and DEC rr.
    #[verifier::rlimit(100)]
    fn low_inc_dec_pair(&mut self, memory: &mut Memory, op: u8) -> (r: u32)
        requires
            old(self).wf(),
            old(memory).wf(),
            op < 0x40,
            op % 8 == 3,
        ensures
            final(self).wf(),
            final(memory).wf(),
            final(memory).cart == old(memory).cart,
            final(self).same_control(old(self)),
            valid_cycles(r),
            op == 0 ==> r == 4 && *final(self) == *old(self) && *final(memory) == *old(memory),
            low_col_inc_dec_pair(*old(self), old(memory), *final(self), final(memory), r, op),
            op % 8 == 6 && op / 8 != 6 ==> r == 8 && *final(memory) == *old(memory) && *final(self)
                == spec_set_reg(
                Cpu { pc: ((old(self).pc + 1) % 0x10000) as u16, ..*old(self) },
                op / 8,
                old(memory).spec_read(old(self).pc as int),
            ),
            op == 0x18 ==> r == 12 && *final(memory) == *old(memory) && *final(self) == (Cpu {
                pc: spec_offset(
                    ((old(self).pc + 1) % 0x10000) as u16,
                    old(memory).spec_read(old(self).pc as int),
                ),
                ..*old(self)
            }),
    {
        let y = op / 8;
        let z = op % 8;
        let p = y / 2;
        let v = self.get_rr(p);
        if y % 2 == 0 {
            self.set_rr(p, v.wrapping_add(1));
        } else {
            self.set_rr(p, v.wrapping_sub(1));
        }
        8
    }

    /// INC r and DEC r.
    #[verifier::rlimit(100)]
    fn low_inc_dec(&mut self, memory: &mut Memory, op: u8) -> (r: u32)
        requires
            old(self).wf(),
            old(memory).wf(),
            op < 0x40,
            op % 8 == 4 || op % 8 == 5,
        ensures
            final(self).wf(),
            final(memory).wf(),
            final(memory).cart == old(memory).cart,
            final(self).same_control(old(self)),
            valid_cycles(r),
            op == 0 ==> r == 4 && *final(self) == *old(self) && *final(memory) == *old(memory),
            low_col_inc_dec(*old(self), old(memory), *final(self), final(memory), r, op),
            op % 8 == 6 && op / 8 != 6 ==> r == 8 && *final(memory) == *old(memory) && *final(self)
                == spec_set_reg(
                Cpu { pc: ((old(self).pc + 1) % 0x10000) as u16, ..*old(self) },
                op / 8,
                old(memory).spec_read(old(self).pc as int),
            ),
            op == 0x18 ==> r == 12 && *final(memory) == *old(memory) && *final(self) == (Cpu {
                pc: spec_offset(
                    ((old(self).pc + 1) % 0x10000) as u16,
                    old(memory).spec_read(old(self).pc as int),
                ),
                ..*old(self)
            }),
    {
        let y = op / 8;
        let z = op % 8;
        let p = y / 2;
        let v = self.reg(memory, y);
        let res = if z == 4 {
            v.wrapping_add(1)
        } else {
            v.wrapping_sub(1)
        };
        let h = if z == 4 {
            v % 16 == 15
        } else {
            v % 16 == 0
        };
        let c = self.carry_flag();
        self.set_reg(memory, y, res);
        self.f = flags(res == 0, z == 5, h, c);
        if y == 6 {
            12
        } else {
            4
        }
    }

    /// LD r,n.
    #[verifier::rlimit(100)]
    fn low_load_imm(&mut self, memory: &mut Memory, op: u8) -> (r: u32)
        requires
            old(self).wf(),
            old(memory).wf(),
            op < 0x40,
            op % 8 == 6,
        ensures
            final(self).wf(),
            final(memory).wf(),
            final(memory).cart == old(memory).cart,
            final(self).same_control(old(self)),
            valid_cycles(r),
            op == 0 ==> r == 4 && *final(self) == *old(self) && *final(memory) == *old(memory),
            op % 8 == 6 && op / 8 != 6 ==> r == 8 && *final(memory) == *old(memory) && *final(self)
                == spec_set_reg(
                Cpu { pc: ((old(self).pc + 1) % 0x10000) as u16, ..*old(self) },
                op / 8,
                old(memory).spec_read(old(self).pc as int),
            ),
            op == 0x18 ==> r == 12 && *final(memory) == *old(memory) && *final(self) == (Cpu {
                pc: spec_offset(
                    ((old(self).pc + 1) % 0x10000) as u16,
                    old(memory).spec_read(old(self).pc as int),
                ),
                ..*old(self)
            }),
    {
        let y = op / 8;
        let z = op % 8;
        let p = y / 2;
        let v = self.fetch8(memory);
        self.set_reg(memory, y, v);
        if y == 6 {
            12
        } else {
            8
        }
    }

    /// The rotates of A, DAA, CPL, SCF and CCF.
    #[verifier::rlimit(100)]
    fn low_accumulator(&mut self, memory: &mut Memory, op: u8) -> (r: u32)
        requires
            old(self).wf(),
            old(memory).wf(),
            op < 0x40,
            op % 8 == 7,
        ensures
            final(self).wf(),
            final(memory).wf(),
            final(memory).cart == old(memory).cart,
            final(self).same_control(old(self)),
            valid_cycles(r),
            op == 0 ==> r == 4 && *final(self) == *old(self) && *final(memory) == *old(memory),
            low_col_accumulator(*old(self), old(memory), *final(self), final(memory), r, op),
            op % 8 == 6 && op / 8 != 6 ==> r == 8 && *final(memory) == *old(memory) && *final(self)
                == spec_set_reg(
                Cpu { pc: ((old(self).pc + 1) % 0x10000) as u16, ..*old(self) },
                op / 8,
                old(memory).spec_read(old(self).pc as int),
            ),
            op == 0x18 ==> r == 12 && *final(memory) == *old(memory) && *final(self) == (Cpu {
                pc: spec_offset(
                    ((old(self).pc + 1) % 0x10000) as u16,
                    old(memory).spec_read(old(self).pc as int),
                ),
                ..*old(self)
            }),
    {
        let y = op / 8;
        let z = op % 8;
        let p = y / 2;
        let a = self.a;
        let c = self.carry_flag();
        if y < 4 {
            let old_c: u8 = if c {
                1
            } else {
                0
            };
            let (res, carry) = if y == 0 {
                ((a % 128) * 2 + a / 128, a >= 128)
            } else if y == 1 {
                (a / 2 + (a % 2) * 128, a % 2 == 1)
            } else if y == 2 {
                ((a % 128) * 2 + old_c, a >= 128)
            } else {
                (a / 2 + old_c * 128, a % 2 == 1)
            };
            self.a = res;
            self.f = flags(false, false, false, carry);
        } else if y == 4 {
            let n = self.sub_flag();
            let h = self.half_flag();
            let mut res = a;
            let mut carry = c;
            if !n {
                if c || a > 0x99 {
                    res = res.wrapping_add(0x60);
                    carry = true;
                }
                if h || a % 16 > 9 {
                    res = res.wrapping_add(0x06);
                }
            } else {
                if c {
                    res = res.wrapping_sub(0x60);
                }
                if h {
                    res = res.wrapping_sub(0x06);
                }
            }
            self.a = res;
            self.f = flags(res == 0, n, false, carry);
        } else if y == 5 {
            self.a = !a;
            self.f = flags(self.zero_flag(), true, true, c);
        } else if y == 6 {
            self.f = flags(self.zero_flag(), false, false, true);
        } else {
            self.f = flags(self.zero_flag(), false, false, !c);
        }
        4
    }

    /// Opcodes 0xC0 to 0xFF: returns, pops and pushes, jumps and calls, immediate arithmetic,
    /// RST, high-page loads, stack-pointer arithmetic, DI, EI and the CB prefix.
    #[verifier::rlimit(100)]
    fn execute_high(&mut self, memory: &mut Memory, op: u8) -> (r: u32)
        requires
            old(self).wf(),
            old(memory).wf(),
            0xC0 <= op,
            op != 0xCB,
        ensures
            ime_effect(*old(self), *final(self), op),
            final(self).wf(),
            high_effect(*old(self), old(memory), *final(self), final(memory), r, op),
            final(memory).wf(),
            final(memory).cart == old(memory).cart,
            final(self).halted == old(self).halted,
            valid_cycles(r),
            op % 8 == 6 ==> r == 8 && *final(memory) == *old(memory) && *final(self) == (Cpu {
                a: alu_result((op / 8) % 8, old(self).a, old(memory).spec_read(old(self).pc as int), old(self).f).0,
                f: alu_result((op / 8) % 8, old(self).a, old(memory).spec_read(old(self).pc as int), old(self).f).1,
                pc: ((old(self).pc + 1) % 0x10000) as u16,
                ..*old(self)
            }),
            op == 0xC3 ==> r == 16 && *final(memory) == *old(memory) && *final(self) == (Cpu {
                pc: (old(memory).spec_read(old(self).pc as int) + 256 * old(memory).spec_read(
                    (old(self).pc + 1) % 0x10000,
                )) as u16,
                ..*old(self)
            }),
    {
        let y = (op / 8) % 8;
        let z = op % 8;
        let p = y / 2;
        if z == 0 {
            if y < 4 {
                if self.condition(y) {
                    self.pc = self.pop16(memory);
                    20
                } else {
                    8
                }
            } else if y == 4 || y == 6 {
                let n = self.fetch8(memory) as usize;
                if y == 4 {
                    memory.write(0xFF00 + n, self.a);
                } else {
                    self.a = memory.read(0xFF00 + n);
                }
                12
            } else {
                let e = self.fetch8(memory);
                let sp = self.sp;
                let h = sp % 16 + (e % 16) as u16 > 15;
                let c = sp % 256 + e as u16 > 255;
                let res = Cpu::offset(sp, e);
                self.f = flags(false, false, h, c);
                if y == 5 {
                    self.sp = res;
                    16
                } else {
                    self.set_hl(res);
                    12
                }
            }
        } else if z == 1 {
            if y % 2 == 0 {
                let v = self.pop16(memory);
                if p == 3 {
                    self.a = (v / 256) as u8;
                    let lo = (v % 256) as u8;
                    self.f = flags(lo >= 128, (lo / 64) % 2 == 1, (lo / 32) % 2 == 1, (lo / 16) % 2 == 1);
                } else {
                    self.set_rr(p, v);
                }
                12
            } else if p == 0 {
                self.pc = self.pop16(memory);
                16
            } else if p == 1 {
                self.pc = self.pop16(memory);
                self.ime = true;
                16
            } else if p == 2 {
                self.pc = self.hl();
                4
            } else {
                self.sp = self.hl();
                8
            }
        } else if z == 2 {
            if y < 4 {
                let addr = self.fetch16(memory);
                if self.condition(y) {
                    self.pc = addr;
                    16
                } else {
                    12
                }
            } else if y == 4 || y == 6 {
                let addr = 0xFF00 + self.c as usize;
                if y == 4 {
                    memory.write(addr, self.a);
                } else {
                    self.a = memory.read(addr);
                }
                8
            } else {
                let addr = self.fetch16(memory) as usize;
                if y == 5 {
                    memory.write(addr, self.a);
                } else {
                    self.a = memory.read(addr);
                }
                16
            }
        } else if z == 3 {
            if y == 0 {
                self.pc = self.fetch16(memory);
                16
            } else if y == 6 {
                self.ime = false;
                self.ime_pending = false;
                4
            } else if y == 7 {
                self.ime_pending = true;
                4
            } else {
                self.fault = Some(op);
                4
            }
        } else if z == 4 {
            if y < 4 {
                let addr = self.fetch16(memory);
                if self.condition(y) {
                    let ret = self.pc;
                    self.push16(memory, ret);
                    self.pc = addr;
                    24
                } else {
                    12
                }
            } else {
                self.fault = Some(op);
                4
            }
        } else if z == 5 {
            if y % 2 == 0 {
                let v: u16 = if p == 3 {
                    (self.a as u16) * 256 + self.f as u16
                } else {
                    self.get_rr(p)
                };
                self.push16(memory, v);
                16
            } else if p == 0 {
                let addr = self.fetch16(memory);
                let ret = self.pc;
                self.push16(memory, ret);
                self.pc = addr;
                24
            } else {
                self.fault = Some(op);
                4
            }
        } else if z == 6 {
            let v = self.fetch8(memory);
            self.alu(y, v);
            8
        } else {
            let ret = self.pc;
            self.push16(memory, ret);
            self.pc = (y as u16) * 8;
            16
        }
    }

    /// Fetches, decodes and runs one instruction; returns its T-states.
    #[verifier::rlimit(100)]
    fn execute_instruction(&mut self, memory: &mut Memory) -> (r: u32)
        requires
            old(self).wf(),
            old(memory).wf(),
        ensures
            final(self).wf(),
            final(memory).wf(),
            final(memory).cart == old(memory).cart,
            valid_cycles(r),
            instruction_effect(*old(self), old(memory), *final(self), final(memory), r),
            ime_effect(*old(self), *final(self), old(memory).spec_read(old(self).pc as int)),
    {
        let op = self.fetch8(memory);
        if op < 0x40 {
            self.execute_low(memory, op)
        } else if op < 0x80 {
            if op == 0x76 {
                self.halted = true;
                4
            } else {
                let src = op % 8;
                let v = self.reg(memory, src);
                let dst = (op / 8) % 8;
                self.set_reg(memory, dst, v);
                if src == 6 || dst == 6 {
                    8
                } else {
                    4
                }
            }
        } else if op < 0xC0 {
            let src = op % 8;
            let v = self.reg(memory, src);
            self.alu((op / 8) % 8, v);
            if src == 6 {
                8
            } else {
                4
            }
        } else if op == 0xCB {
            self.execute_cb(memory)
        } else {
            self.execute_high(memory, op)
        }
    }
}


proof fn lemma_some_pending(p: u8)
    requires
        p & 0x1F != 0,
    ensures
        spec_highest(p) is Some,
{
    assert(p & 0x1F != 0 ==> p & 0x01 != 0 || p & 0x02 != 0 || p & 0x04 != 0 || p & 0x08 != 0
        || p & 0x10 != 0) by (bit_vector);
}

/// How opcode `op` leaves IME and its pending flag: DI clears both, EI sets the pending flag,
/// RETI sets IME, every other opcode keeps both.
pub open spec fn ime_effect(c: Cpu, c2: Cpu, op: u8) -> bool {
    &&& op == 0xF3 ==> !c2.ime && !c2.ime_pending
    &&& op == 0xFB ==> c2.ime == c.ime && c2.ime_pending
    &&& op != 0xF3 && op != 0xFB ==> c2.ime_pending == c.ime_pending
    &&& op != 0xF3 && op != 0xFB && op != 0xD9 ==> c2.ime == c.ime
    &&& op == 0xD9 ==> c2.ime
}

/// What one step of the CPU leaves: `c`, `m` before; `c2`, `m2` after; `r` T-states.
pub open spec fn execute_post(c: Cpu, m: &Memory, c2: Cpu, m2: &Memory, r: u32) -> bool {
    let op = m.spec_read(c.pc as int);
    let runs = !c.stopped && !(c.ime && pending_of(m) != 0) && !c.halted && c.fault is None;
    &&& m2.cart == m.cart
    &&& valid_cycles(r)
    &&& (c.stopped ==> r == 4 && c2 == (Cpu {
            stopped: m.pressed == 0,
            ..c
        }) && *m2 == *m)
    &&& (!c.stopped && c.ime && pending_of(m) != 0 ==> {
            &&& r == 20
            &&& c2.pc == spec_highest(pending_of(m)).unwrap().spec_vector()
            &&& c2.sp == c.sp.wrapping_sub(2)
            &&& !c2.ime
            &&& !c2.halted
            &&& stack_in_ram(c.sp) ==> {
                &&& m2.spec_read(c.sp - 1) == c.pc / 256
                &&& m2.spec_read(c.sp - 2) == c.pc % 256
                &&& m2.rom@[0xFF0F] == m.rom@[0xFF0F] & !spec_highest(
                    pending_of(m),
                ).unwrap().spec_bit()
            }
        })
    &&& (!c.stopped && !(c.ime && pending_of(m) != 0) && c.halted ==> {
            &&& r == 4
            &&& c2 == (Cpu { halted: pending_of(m) == 0, ..c })
            &&& *m2 == *m
        })
    &&& (!c.stopped && !(c.ime && pending_of(m) != 0) && !c.halted
            && c.fault is Some ==> r == 4 && c2 == c && *m2
            == *m)
    &&& (!c.stopped && !(c.ime && pending_of(m) != 0) && !c.halted
            && c.fault is None ==> instruction_effect(
            c,
            m,
            Cpu { ime: c.ime, ime_pending: c.ime_pending, ..c2 },
            m2,
            r,
        ))
    &&& runs && op == 0xF3 ==> !c2.ime && !c2.ime_pending
    &&& runs && op == 0xFB && !c.ime_pending ==> c2.ime == c.ime && c2.ime_pending
    &&& runs && c.ime_pending && op != 0xF3 ==> c2.ime && !c2.ime_pending
    &&& runs && !c.ime_pending && op != 0xF3 && op != 0xFB && op != 0xD9 ==> c2.ime == c.ime
        && !c2.ime_pending
    &&& runs && op == 0xD9 ==> c2.ime && !c2.ime_pending
}

impl Cpu {
    /// Dispatches `interrupt`: IME off, its IF bit cleared, PC pushed, PC at its vector.
    pub fn service_interrupt(&mut self, memory: &mut Memory, interrupt: Interrupt) -> (r: u32)
        requires
            old(self).wf(),
            old(memory).wf(),
        ensures
            final(self).wf(),
            final(memory).wf(),
            final(memory).cart == old(memory).cart,
            r == 20,
            stack_in_ram(old(self).sp) ==> final(memory).spec_read(old(self).sp - 1) == old(
                self,
            ).pc / 256 && final(memory).spec_read(old(self).sp - 2) == old(self).pc % 256
                && final(memory).rom@[0xFF0F] == old(memory).rom@[0xFF0F] & !interrupt.spec_bit(),
            *final(self) == (Cpu {
                pc: interrupt.spec_vector(),
                sp: old(self).sp.wrapping_sub(2),
                ime: false,
                halted: false,
                ..*old(self)
            }),
    {
        self.ime = false;
        self.halted = false;
        let req = memory.read_force(INTERRUPT_REQUEST);
        memory.write_force(INTERRUPT_REQUEST, req & !interrupt.bit());
        let ret = self.pc;
        self.push16(memory, ret);
        self.pc = interrupt.vector();
        20
    }

    /// The source to dispatch now, if IME is on and a request is both raised and enabled.
    pub fn handle_interrupts(&self, memory: &Memory) -> (r: Option<Interrupt>)
        requires
            memory.wf(),
        ensures
            r == if self.ime {
                spec_highest(pending_of(memory))
            } else {
                None
            },
    {
        if self.ime {
            let pending = memory.read_force(INTERRUPT_REQUEST) & memory.read_force(INTERRUPT_ENABLED)
                & 0x1F;
            highest(pending)
        } else {
            None
        }
    }

    /// One step of the CPU: a stopped wait, an interrupt dispatch, a halted wait, or one
    /// instruction.
    /// Returns the T-states it took.
    pub fn execute(&mut self, memory: &mut Memory) -> (r: u32)
        requires
            old(self).wf(),
            old(memory).wf(),
        ensures
            final(self).wf(),
            final(self).f & 0x0F == 0,
            final(memory).wf(),
            execute_post(*old(self), old(memory), *final(self), final(memory), r),
    {
        if self.stopped {
            if memory.pressed != 0 {
                self.stopped = false;
            }
            return 4;
        }
        let pending = memory.read_force(INTERRUPT_REQUEST) & memory.read_force(INTERRUPT_ENABLED)
            & 0x1F;
        proof {
            let p = pending;
            let x = memory.rom@[0xFF0F];
            let y = memory.rom@[0xFFFF];
            assert(p & 0x1F == p) by (bit_vector)
                requires
                    p == x & y & 0x1F,
            ;
        }
        if self.ime && pending != 0 {
            proof {
                lemma_some_pending(pending);
            }
            match self.handle_interrupts(memory) {
                Some(interrupt) => {
                    return self.service_interrupt(memory, interrupt);
                },
                None => {
                    return 4;
                },
            }
        }
        if self.halted {
            if pending != 0 {
                self.halted = false;
            }
            return 4;
        }
        if self.fault.is_some() {
            return 4;
        }
        let enable = self.ime_pending;
        let r = self.execute_instruction(memory);
        if enable && self.ime_pending {
            self.ime = true;
            self.ime_pending = false;
        }
        r
    }
}

} // verus!
