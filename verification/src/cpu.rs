//! The MOS 6502 CPU core.
//!
//! The CPU is a pure state machine over an externally supplied memory: every
//! entry point receives the bus by mutable reference. Eight-bit registers A,
//! X and Y, the stack pointer S, a 16-bit program counter, and seven status
//! flags stored as booleans with one packing and one unpacking routine as
//! the single source of truth at push and pull sites. A `skip_cycles`
//! counter meters the remainder of each instruction's cycle budget so the
//! driver can tick the CPU at a uniform cycle rate.
//!
//! Every mutation is specified against the spec-level interpreter
//! ([`spec_step`], [`spec_execute`], [`spec_resolve`] and their helpers):
//! each executable entry point's contract states that its effect on the CPU
//! and bus views equals the interpreter's.

use vstd::prelude::*;

use crate::bus::Bus;
use crate::bus::BusView;
use crate::bus::spec_bus_read;
use crate::bus::spec_bus_write;
use crate::cpu_opcodes::AddressingMode;
use crate::cpu_opcodes::Instruction;
use crate::cpu_opcodes::Opcode;
use crate::cpu_opcodes::lemma_decode_cycles;
use crate::cpu_opcodes::operand_count;
use crate::cpu_opcodes::spec_decode;
use crate::cpu_opcodes::spec_operand_len;
use crate::errors::EmuError;
use crate::trace::build_trace_line;
use crate::trace::spec_trace_line;

verus! {

/// The three ways control can be wrested from the program: a maskable
/// interrupt request, a non-maskable interrupt, and the BRK instruction.
#[derive(Clone, Copy, Debug, PartialEq, Eq, Structural)]
pub enum InterruptType {
    IRQ,
    NMI,
    BRK_,
}

/// The 6502 CPU register file, flags, cycle counters, addressing-mode
/// scratch registers and the instruction trace side channel.
pub struct CPU {
    /// Stack pointer; the stack lives at 0x0100 + sp and grows downward.
    pub sp: u8,
    /// Accumulator.
    pub r_a: u8,
    /// X index register.
    pub r_x: u8,
    /// Y index register.
    pub r_y: u8,
    /// Program counter.
    pub pc: u16,
    /// Free-running count of cycles ticked.
    pub cycles: u64,
    /// Remaining cycles of the last instruction's budget.
    pub skip_cycles: u8,
    /// Carry flag.
    pub f_c: bool,
    /// Zero flag.
    pub f_z: bool,
    /// IRQ disable flag.
    pub f_i: bool,
    /// Decimal flag; stored but never consulted arithmetically.
    pub f_d: bool,
    /// Break flag.
    pub f_b: bool,
    /// Unused flag; software-visible as 1.
    pub f_u: bool,
    /// Overflow flag.
    pub f_v: bool,
    /// Negative flag.
    pub f_n: bool,
    /// Effective address resolved by the addressing mode.
    pub operand_addr: u16,
    /// Sign-extended branch displacement resolved by the Relative mode.
    pub branch_offset: u16,
    /// Whether each fetched instruction emits a trace line.
    pub trace_enabled: bool,
    /// Trace lines emitted so far, oldest first.
    pub trace_log: Vec<Vec<u8>>,
}

/// Mathematical view of the CPU.
#[verifier::ext_equal]
pub struct CpuView {
    pub sp: u8,
    pub r_a: u8,
    pub r_x: u8,
    pub r_y: u8,
    pub pc: u16,
    pub cycles: u64,
    pub skip_cycles: u8,
    pub f_c: bool,
    pub f_z: bool,
    pub f_i: bool,
    pub f_d: bool,
    pub f_b: bool,
    pub f_u: bool,
    pub f_v: bool,
    pub f_n: bool,
    pub operand_addr: u16,
    pub branch_offset: u16,
    pub trace_enabled: bool,
    pub trace_log: Seq<Seq<u8>>,
}

impl View for CPU {
    type V = CpuView;

    open spec fn view(&self) -> CpuView {
        CpuView {
            sp: self.sp,
            r_a: self.r_a,
            r_x: self.r_x,
            r_y: self.r_y,
            pc: self.pc,
            cycles: self.cycles,
            skip_cycles: self.skip_cycles,
            f_c: self.f_c,
            f_z: self.f_z,
            f_i: self.f_i,
            f_d: self.f_d,
            f_b: self.f_b,
            f_u: self.f_u,
            f_v: self.f_v,
            f_n: self.f_n,
            operand_addr: self.operand_addr,
            branch_offset: self.branch_offset,
            trace_enabled: self.trace_enabled,
            trace_log: self.trace_log@.map_values(|t: Vec<u8>| t@),
        }
    }
}

/// The status byte in its push layout, bit 7 to bit 0: N V U B D I Z C.
pub open spec fn spec_pack_status(
    c: bool,
    z: bool,
    i: bool,
    d: bool,
    b: bool,
    u: bool,
    v: bool,
    n: bool,
) -> u8 {
    ((if c {
        1int
    } else {
        0
    }) + (if z {
        2int
    } else {
        0
    }) + (if i {
        4int
    } else {
        0
    }) + (if d {
        8int
    } else {
        0
    }) + (if b {
        16int
    } else {
        0
    }) + (if u {
        32int
    } else {
        0
    }) + (if v {
        64int
    } else {
        0
    }) + (if n {
        128int
    } else {
        0
    })) as u8
}

/// The flag fields reconstituted from a status byte in push layout.
pub open spec fn spec_unpack_status(c: CpuView, value: u8) -> CpuView {
    CpuView {
        f_c: value % 2 == 1,
        f_z: value / 2 % 2 == 1,
        f_i: value / 4 % 2 == 1,
        f_d: value / 8 % 2 == 1,
        f_b: value / 16 % 2 == 1,
        f_u: value / 32 % 2 == 1,
        f_v: value / 64 % 2 == 1,
        f_n: value / 128 % 2 == 1,
        ..c
    }
}

impl CpuView {
    /// The packed status byte with the stored B and U flags.
    pub open spec fn status(self) -> u8 {
        spec_pack_status(
            self.f_c,
            self.f_z,
            self.f_i,
            self.f_d,
            self.f_b,
            self.f_u,
            self.f_v,
            self.f_n,
        )
    }
}

/// A fresh CPU: all registers, flags and counters cleared; nothing traced
/// yet.
pub open spec fn spec_cpu_new(trace_enabled: bool) -> CpuView {
    CpuView {
        sp: 0,
        r_a: 0,
        r_x: 0,
        r_y: 0,
        pc: 0,
        cycles: 0,
        skip_cycles: 0,
        f_c: false,
        f_z: false,
        f_i: false,
        f_d: false,
        f_b: false,
        f_u: false,
        f_v: false,
        f_n: false,
        operand_addr: 0,
        branch_offset: 0,
        trace_enabled: trace_enabled,
        trace_log: Seq::empty(),
    }
}

/// Where the stack pointer points: page 0x01.
pub open spec fn spec_stack_addr(sp: u8) -> u16 {
    (0x100 + sp) as u16
}

/// One push: the byte lands at 0x0100 + sp, then sp decrements, wrapping
/// within 8 bits.
pub open spec fn spec_push(c: CpuView, b: BusView, value: u8) -> (CpuView, BusView) {
    let (b1, r) = spec_bus_write(b, spec_stack_addr(c.sp), value);
    (CpuView { sp: c.sp.wrapping_sub(1), ..c }, b1)
}

/// One pull: sp increments, wrapping within 8 bits, then the byte at
/// 0x0100 + sp is read.
pub open spec fn spec_pull(c: CpuView, b: BusView) -> (CpuView, BusView, u8) {
    let sp1 = c.sp.wrapping_add(1);
    let (b1, r) = spec_bus_read(b, spec_stack_addr(sp1));
    let value = match r {
        Ok(v) => v,
        Err(_) => 0u8,
    };
    (CpuView { sp: sp1, ..c }, b1, value)
}

/// The byte a read of `addr` yields (0 in the failing cases, which callers
/// rule out).
pub open spec fn spec_read_value(b: BusView, addr: u16) -> u8 {
    match spec_bus_read(b, addr).1 {
        Ok(v) => v,
        Err(_) => 0u8,
    }
}

/// The little-endian word at an interrupt vector.
pub open spec fn spec_vector_word(b: BusView, addr: u16) -> u16 {
    (spec_read_value(b, addr.wrapping_add(1)) as u16 * 0x100 + spec_read_value(b, addr) as u16) as u16
}

/// An 8-bit branch displacement sign-extended to 16 bits.
pub open spec fn spec_sign_extend(value: u8) -> u16 {
    if value >= 0x80 {
        ((value + 0xFF00) as u16)
    } else {
        value as u16
    }
}

/// What resolving an addressing mode does: reads operand bytes (advancing
/// the program counter past them), fills `operand_addr` or `branch_offset`,
/// and yields the page-crossing cycle penalty. A failing operand read
/// leaves the state as it stood at the failure.
pub open spec fn spec_resolve(c: CpuView, b: BusView, addr_mode: AddressingMode) -> (
    CpuView,
    BusView,
    Result<u8, EmuError>,
) {
    match addr_mode {
        AddressingMode::Implied => (c, b, Ok(0)),
        AddressingMode::Immediate => (
            CpuView { operand_addr: c.pc, pc: c.pc.wrapping_add(1), ..c },
            b,
            Ok(0),
        ),
        AddressingMode::ZeroPage => {
            let (b1, r0) = spec_bus_read(b, c.pc);
            match r0 {
                Err(e) => (c, b1, Err(e)),
                Ok(operand) => (
                    CpuView { pc: c.pc.wrapping_add(1), operand_addr: operand as u16, ..c },
                    b1,
                    Ok(0),
                ),
            }
        },
        AddressingMode::ZeroPageX => {
            let (b1, r0) = spec_bus_read(b, c.pc);
            match r0 {
                Err(e) => (c, b1, Err(e)),
                Ok(operand) => (
                    CpuView {
                        pc: c.pc.wrapping_add(1),
                        operand_addr: (((operand + c.r_x) % 0x100) as u16),
                        ..c
                    },
                    b1,
                    Ok(0),
                ),
            }
        },
        AddressingMode::ZeroPageY => {
            let (b1, r0) = spec_bus_read(b, c.pc);
            match r0 {
                Err(e) => (c, b1, Err(e)),
                Ok(operand) => (
                    CpuView {
                        pc: c.pc.wrapping_add(1),
                        operand_addr: (((operand + c.r_y) % 0x100) as u16),
                        ..c
                    },
                    b1,
                    Ok(0),
                ),
            }
        },
        AddressingMode::Relative => {
            let (b1, r0) = spec_bus_read(b, c.pc);
            match r0 {
                Err(e) => (c, b1, Err(e)),
                Ok(operand) => (
                    CpuView {
                        pc: c.pc.wrapping_add(1),
                        branch_offset: spec_sign_extend(operand),
                        ..c
                    },
                    b1,
                    Ok(0),
                ),
            }
        },
        AddressingMode::Absolute => {
            let (b1, r0) = spec_bus_read(b, c.pc);
            match r0 {
                Err(e) => (c, b1, Err(e)),
                Ok(lo) => {
                    let c1 = CpuView { pc: c.pc.wrapping_add(1), ..c };
                    let (b2, r1) = spec_bus_read(b1, c1.pc);
                    match r1 {
                        Err(e) => (c1, b2, Err(e)),
                        Ok(hi) => (
                            CpuView {
                                pc: c1.pc.wrapping_add(1),
                                operand_addr: ((hi as u16 * 0x100 + lo as u16) as u16),
                                ..c1
                            },
                            b2,
                            Ok(0),
                        ),
                    }
                },
            }
        },
        AddressingMode::AbsoluteX => {
            let (b1, r0) = spec_bus_read(b, c.pc);
            match r0 {
                Err(e) => (c, b1, Err(e)),
                Ok(lo) => {
                    let c1 = CpuView { pc: c.pc.wrapping_add(1), ..c };
                    let (b2, r1) = spec_bus_read(b1, c1.pc);
                    match r1 {
                        Err(e) => (c1, b2, Err(e)),
                        Ok(hi) => {
                            let base = ((hi as u16 * 0x100 + lo as u16) as u16);
                            let sum = base.wrapping_add(c.r_x as u16);
                            (
                                CpuView { pc: c1.pc.wrapping_add(1), operand_addr: sum, ..c1 },
                                b2,
                                Ok(
                                    if sum / 0x100 != hi as u16 {
                                        1u8
                                    } else {
                                        0u8
                                    },
                                ),
                            )
                        },
                    }
                },
            }
        },
        AddressingMode::AbsoluteY => {
            let (b1, r0) = spec_bus_read(b, c.pc);
            match r0 {
                Err(e) => (c, b1, Err(e)),
                Ok(lo) => {
                    let c1 = CpuView { pc: c.pc.wrapping_add(1), ..c };
                    let (b2, r1) = spec_bus_read(b1, c1.pc);
                    match r1 {
                        Err(e) => (c1, b2, Err(e)),
                        Ok(hi) => {
                            let base = ((hi as u16 * 0x100 + lo as u16) as u16);
                            let sum = base.wrapping_add(c.r_y as u16);
                            (
                                CpuView { pc: c1.pc.wrapping_add(1), operand_addr: sum, ..c1 },
                                b2,
                                Ok(
                                    if sum / 0x100 != hi as u16 {
                                        1u8
                                    } else {
                                        0u8
                                    },
                                ),
                            )
                        },
                    }
                },
            }
        },
        AddressingMode::Indirect => {
            let (b1, r0) = spec_bus_read(b, c.pc);
            match r0 {
                Err(e) => (c, b1, Err(e)),
                Ok(ptr_lo) => {
                    let c1 = CpuView { pc: c.pc.wrapping_add(1), ..c };
                    let (b2, r1) = spec_bus_read(b1, c1.pc);
                    match r1 {
                        Err(e) => (c1, b2, Err(e)),
                        Ok(ptr_hi) => {
                            let c2 = CpuView { pc: c1.pc.wrapping_add(1), ..c1 };
                            let ptr = ((ptr_hi as u16 * 0x100 + ptr_lo as u16) as u16);
                            let (b3, r2) = spec_bus_read(b2, ptr);
                            match r2 {
                                Err(e) => (c2, b3, Err(e)),
                                Ok(lo) => {
                                    // The 6502 indirect page-boundary bug: a
                                    // pointer whose low byte is 0xFF takes
                                    // its high byte from the start of the
                                    // same page, not the next one.
                                    let hi_addr = if ptr_lo == 0xFF {
                                        ((ptr - 0xFF) as u16)
                                    } else {
                                        ((ptr + 1) as u16)
                                    };
                                    let (b4, r3) = spec_bus_read(b3, hi_addr);
                                    match r3 {
                                        Err(e) => (c2, b4, Err(e)),
                                        Ok(hi) => (
                                            CpuView {
                                                operand_addr: ((hi as u16 * 0x100
                                                    + lo as u16) as u16),
                                                ..c2
                                            },
                                            b4,
                                            Ok(0),
                                        ),
                                    }
                                },
                            }
                        },
                    }
                },
            }
        },
        AddressingMode::IndirectX => {
            let (b1, r0) = spec_bus_read(b, c.pc);
            match r0 {
                Err(e) => (c, b1, Err(e)),
                Ok(zp) => {
                    let c1 = CpuView { pc: c.pc.wrapping_add(1), ..c };
                    let lo_addr = (((zp + c.r_x) % 0x100) as u16);
                    let hi_addr = (((zp + c.r_x + 1) % 0x100) as u16);
                    let (b2, r1) = spec_bus_read(b1, lo_addr);
                    match r1 {
                        Err(e) => (c1, b2, Err(e)),
                        Ok(lo) => {
                            let (b3, r2) = spec_bus_read(b2, hi_addr);
                            match r2 {
                                Err(e) => (c1, b3, Err(e)),
                                Ok(hi) => (
                                    CpuView {
                                        operand_addr: ((hi as u16 * 0x100 + lo as u16) as u16),
                                        ..c1
                                    },
                                    b3,
                                    Ok(0),
                                ),
                            }
                        },
                    }
                },
            }
        },
        AddressingMode::IndirectY => {
            let (b1, r0) = spec_bus_read(b, c.pc);
            match r0 {
                Err(e) => (c, b1, Err(e)),
                Ok(zp) => {
                    let c1 = CpuView { pc: c.pc.wrapping_add(1), ..c };
                    let (b2, r1) = spec_bus_read(b1, zp as u16);
                    match r1 {
                        Err(e) => (c1, b2, Err(e)),
                        Ok(lo) => {
                            let (b3, r2) = spec_bus_read(b2, (((zp + 1) % 0x100) as u16));
                            match r2 {
                                Err(e) => (c1, b3, Err(e)),
                                Ok(hi) => {
                                    let base = ((hi as u16 * 0x100 + lo as u16) as u16);
                                    let sum = base.wrapping_add(c.r_y as u16);
                                    (
                                        CpuView { operand_addr: sum, ..c1 },
                                        b3,
                                        Ok(
                                            if sum / 0x100 != hi as u16 {
                                                1u8
                                            } else {
                                                0u8
                                            },
                                        ),
                                    )
                                },
                            }
                        },
                    }
                },
            }
        },
    }
}

/// The instruction's cycle budget: base cycles plus the addressing-mode
/// page-crossing penalty (branches add their own on top).
pub open spec fn spec_total_cycles(instr: Instruction, penalty: u8) -> u8 {
    ((instr.cycles + penalty) as u8)
}

/// The operand value an instruction consumes: the accumulator under the
/// Implied (accumulator) mode, else the byte read at the resolved operand
/// address.
pub open spec fn spec_fetch_operand(c: CpuView, b: BusView, addr_mode: AddressingMode) -> (
    BusView,
    Result<u8, EmuError>,
) {
    if addr_mode == AddressingMode::Implied {
        (b, Ok(c.r_a))
    } else {
        spec_bus_read(b, c.operand_addr)
    }
}

/// ADC: A + operand + C as a 16-bit sum; C from bit 8, Z from the low byte,
/// N from bit 7, V from `(~(A ^ operand) & (A ^ sum)) & 0x80`.
pub open spec fn spec_adc_apply(c: CpuView, d: u8) -> CpuView {
    let sum = c.r_a + d + (if c.f_c {
        1int
    } else {
        0
    });
    let r = ((sum % 256) as u8);
    CpuView {
        r_a: r,
        f_c: sum > 255,
        f_z: r == 0,
        f_v: ((!(c.r_a ^ d)) & (c.r_a ^ r)) & 0x80 != 0,
        f_n: r & 0x80 != 0,
        ..c
    }
}

/// SBC: A + ~operand + C + 1 as a 16-bit sum (A - operand + C modulo 256);
/// flags set symmetrically to ADC over that sum.
pub open spec fn spec_sbc_apply(c: CpuView, d: u8) -> CpuView {
    let inv = !d;
    let sum = c.r_a + inv + (if c.f_c {
        1int
    } else {
        0
    }) + 1;
    let r = ((sum % 256) as u8);
    CpuView {
        r_a: r,
        f_c: sum > 255,
        f_z: r == 0,
        f_v: ((r ^ c.r_a) & (r ^ inv)) & 0x80 != 0,
        f_n: r & 0x80 != 0,
        ..c
    }
}

/// CMP/CPX/CPY: C when the register is at least the operand, Z when they
/// are equal, N from bit 7 of the 8-bit difference.
pub open spec fn spec_compare_apply(c: CpuView, reg: u8, d: u8) -> CpuView {
    CpuView {
        f_c: reg >= d,
        f_z: reg == d,
        f_n: reg.wrapping_sub(d) & 0x80 != 0,
        ..c
    }
}

/// ASL: the value doubled; C from the bit shifted out.
pub open spec fn spec_shift_asl(d: u8) -> (u8, bool) {
    ((((d * 2) % 256) as u8), d * 2 > 255)
}

/// LSR: the value halved; C from the bit shifted out.
pub open spec fn spec_shift_lsr(d: u8) -> (u8, bool) {
    (((d / 2) as u8), d % 2 == 1)
}

/// ROL: rotate left through carry.
pub open spec fn spec_shift_rol(d: u8, cin: bool) -> (u8, bool) {
    let s = d * 2 + (if cin {
        1int
    } else {
        0
    });
    (((s % 256) as u8), s > 255)
}

/// ROR: rotate right through carry.
pub open spec fn spec_shift_ror(d: u8, cin: bool) -> (u8, bool) {
    (((d / 2 + (if cin {
        128int
    } else {
        0
    })) as u8), d % 2 == 1)
}

/// A taken branch: the program counter moves by the sign-extended
/// displacement, costing one extra cycle, and one more when the move
/// crosses a page; a branch not taken costs nothing extra.
pub open spec fn spec_branch_apply(
    c: CpuView,
    b: BusView,
    instr: Instruction,
    penalty: u8,
    taken: bool,
) -> (CpuView, BusView, Result<u8, EmuError>) {
    if taken {
        let target = c.pc.wrapping_add(c.branch_offset);
        let crossed = target / 0x100 != c.pc / 0x100;
        (
            CpuView { pc: target, ..c },
            b,
            Ok(
                ((instr.cycles + penalty + 1 + if crossed {
                    1int
                } else {
                    0
                }) as u8),
            ),
        )
    } else {
        (c, b, Ok(spec_total_cycles(instr, penalty)))
    }
}

/// What executing one decoded instruction does, after its addressing mode
/// has been resolved: the new CPU and bus state and the instruction's total
/// cycle budget, or the fault that stopped it.
pub open spec fn spec_execute_decoded(c: CpuView, b: BusView, instr: Instruction, penalty: u8) -> (
    CpuView,
    BusView,
    Result<u8, EmuError>,
) {
    let total = spec_total_cycles(instr, penalty);
    match instr.opcode {
        Opcode::ADC => {
            let (b2, fr) = spec_fetch_operand(c, b, instr.addr_mode);
            match fr {
                Err(e) => (c, b2, Err(e)),
                Ok(d) => (spec_adc_apply(c, d), b2, Ok(total)),
            }
        },
        Opcode::SBC => {
            let (b2, fr) = spec_fetch_operand(c, b, instr.addr_mode);
            match fr {
                Err(e) => (c, b2, Err(e)),
                Ok(d) => (spec_sbc_apply(c, d), b2, Ok(total)),
            }
        },
        Opcode::AND => {
            let (b2, fr) = spec_fetch_operand(c, b, instr.addr_mode);
            match fr {
                Err(e) => (c, b2, Err(e)),
                Ok(d) => {
                    let r = c.r_a & d;
                    (CpuView { r_a: r, f_z: r == 0, f_n: r & 0x80 != 0, ..c }, b2, Ok(total))
                },
            }
        },
        Opcode::ORA => {
            let (b2, fr) = spec_fetch_operand(c, b, instr.addr_mode);
            match fr {
                Err(e) => (c, b2, Err(e)),
                Ok(d) => {
                    let r = c.r_a | d;
                    (CpuView { r_a: r, f_z: r == 0, f_n: r & 0x80 != 0, ..c }, b2, Ok(total))
                },
            }
        },
        Opcode::EOR => {
            let (b2, fr) = spec_fetch_operand(c, b, instr.addr_mode);
            match fr {
                Err(e) => (c, b2, Err(e)),
                Ok(d) => {
                    let r = c.r_a ^ d;
                    (CpuView { r_a: r, f_z: r == 0, f_n: r & 0x80 != 0, ..c }, b2, Ok(total))
                },
            }
        },
        Opcode::BIT => {
            let (b2, fr) = spec_fetch_operand(c, b, instr.addr_mode);
            match fr {
                Err(e) => (c, b2, Err(e)),
                Ok(d) => (
                    CpuView {
                        f_z: c.r_a & d == 0,
                        f_n: d & 0x80 != 0,
                        f_v: d & 0x40 != 0,
                        ..c
                    },
                    b2,
                    Ok(total),
                ),
            }
        },
        Opcode::LDA => {
            let (b2, fr) = spec_fetch_operand(c, b, instr.addr_mode);
            match fr {
                Err(e) => (c, b2, Err(e)),
                Ok(d) => (CpuView { r_a: d, f_z: d == 0, f_n: d & 0x80 != 0, ..c }, b2, Ok(total)),
            }
        },
        Opcode::LDX => {
            let (b2, fr) = spec_fetch_operand(c, b, instr.addr_mode);
            match fr {
                Err(e) => (c, b2, Err(e)),
                Ok(d) => (CpuView { r_x: d, f_z: d == 0, f_n: d & 0x80 != 0, ..c }, b2, Ok(total)),
            }
        },
        Opcode::LDY => {
            let (b2, fr) = spec_fetch_operand(c, b, instr.addr_mode);
            match fr {
                Err(e) => (c, b2, Err(e)),
                Ok(d) => (CpuView { r_y: d, f_z: d == 0, f_n: d & 0x80 != 0, ..c }, b2, Ok(total)),
            }
        },
        Opcode::CMP => {
            let (b2, fr) = spec_fetch_operand(c, b, instr.addr_mode);
            match fr {
                Err(e) => (c, b2, Err(e)),
                Ok(d) => (spec_compare_apply(c, c.r_a, d), b2, Ok(total)),
            }
        },
        Opcode::CPX => {
            let (b2, fr) = spec_fetch_operand(c, b, instr.addr_mode);
            match fr {
                Err(e) => (c, b2, Err(e)),
                Ok(d) => (spec_compare_apply(c, c.r_x, d), b2, Ok(total)),
            }
        },
        Opcode::CPY => {
            let (b2, fr) = spec_fetch_operand(c, b, instr.addr_mode);
            match fr {
                Err(e) => (c, b2, Err(e)),
                Ok(d) => (spec_compare_apply(c, c.r_y, d), b2, Ok(total)),
            }
        },
        Opcode::ASL => {
            let (b2, fr) = spec_fetch_operand(c, b, instr.addr_mode);
            match fr {
                Err(e) => (c, b2, Err(e)),
                Ok(d) => {
                    let (r, carry) = spec_shift_asl(d);
                    if instr.addr_mode == AddressingMode::Implied {
                        (
                            CpuView { r_a: r, f_c: carry, f_z: r == 0, f_n: r & 0x80 != 0, ..c },
                            b2,
                            Ok(total),
                        )
                    } else {
                        let (b3, wr) = spec_bus_write(b2, c.operand_addr, r);
                        match wr {
                            Err(e) => (c, b3, Err(e)),
                            Ok(_) => (
                                CpuView { f_c: carry, f_z: r == 0, f_n: r & 0x80 != 0, ..c },
                                b3,
                                Ok(total),
                            ),
                        }
                    }
                },
            }
        },
        Opcode::LSR => {
            let (b2, fr) = spec_fetch_operand(c, b, instr.addr_mode);
            match fr {
                Err(e) => (c, b2, Err(e)),
                Ok(d) => {
                    let (r, carry) = spec_shift_lsr(d);
                    if instr.addr_mode == AddressingMode::Implied {
                        (
                            CpuView { r_a: r, f_c: carry, f_z: r == 0, f_n: r & 0x80 != 0, ..c },
                            b2,
                            Ok(total),
                        )
                    } else {
                        let (b3, wr) = spec_bus_write(b2, c.operand_addr, r);
                        match wr {
                            Err(e) => (c, b3, Err(e)),
                            Ok(_) => (
                                CpuView { f_c: carry, f_z: r == 0, f_n: r & 0x80 != 0, ..c },
                                b3,
                                Ok(total),
                            ),
                        }
                    }
                },
            }
        },
        Opcode::ROL => {
            let (b2, fr) = spec_fetch_operand(c, b, instr.addr_mode);
            match fr {
                Err(e) => (c, b2, Err(e)),
                Ok(d) => {
                    let (r, carry) = spec_shift_rol(d, c.f_c);
                    if instr.addr_mode == AddressingMode::Implied {
                        (
                            CpuView { r_a: r, f_c: carry, f_z: r == 0, f_n: r & 0x80 != 0, ..c },
                            b2,
                            Ok(total),
                        )
                    } else {
                        let (b3, wr) = spec_bus_write(b2, c.operand_addr, r);
                        match wr {
                            Err(e) => (c, b3, Err(e)),
                            Ok(_) => (
                                CpuView { f_c: carry, f_z: r == 0, f_n: r & 0x80 != 0, ..c },
                                b3,
                                Ok(total),
                            ),
                        }
                    }
                },
            }
        },
        Opcode::ROR => {
            let (b2, fr) = spec_fetch_operand(c, b, instr.addr_mode);
            match fr {
                Err(e) => (c, b2, Err(e)),
                Ok(d) => {
                    let (r, carry) = spec_shift_ror(d, c.f_c);
                    if instr.addr_mode == AddressingMode::Implied {
                        (
                            CpuView { r_a: r, f_c: carry, f_z: r == 0, f_n: r & 0x80 != 0, ..c },
                            b2,
                            Ok(total),
                        )
                    } else {
                        let (b3, wr) = spec_bus_write(b2, c.operand_addr, r);
                        match wr {
                            Err(e) => (c, b3, Err(e)),
                            Ok(_) => (
                                CpuView { f_c: carry, f_z: r == 0, f_n: r & 0x80 != 0, ..c },
                                b3,
                                Ok(total),
                            ),
                        }
                    }
                },
            }
        },
        Opcode::INC => {
            let (b2, fr) = spec_fetch_operand(c, b, instr.addr_mode);
            match fr {
                Err(e) => (c, b2, Err(e)),
                Ok(d) => {
                    let r = d.wrapping_add(1);
                    let (b3, wr) = spec_bus_write(b2, c.operand_addr, r);
                    match wr {
                        Err(e) => (c, b3, Err(e)),
                        Ok(_) => (
                            CpuView { f_z: r == 0, f_n: r & 0x80 != 0, ..c },
                            b3,
                            Ok(total),
                        ),
                    }
                },
            }
        },
        Opcode::DEC => {
            let (b2, fr) = spec_fetch_operand(c, b, instr.addr_mode);
            match fr {
                Err(e) => (c, b2, Err(e)),
                Ok(d) => {
                    let r = d.wrapping_sub(1);
                    let (b3, wr) = spec_bus_write(b2, c.operand_addr, r);
                    match wr {
                        Err(e) => (c, b3, Err(e)),
                        Ok(_) => (
                            CpuView { f_z: r == 0, f_n: r & 0x80 != 0, ..c },
                            b3,
                            Ok(total),
                        ),
                    }
                },
            }
        },
        Opcode::STA => {
            let (b2, wr) = spec_bus_write(b, c.operand_addr, c.r_a);
            match wr {
                Err(e) => (c, b2, Err(e)),
                Ok(_) => (c, b2, Ok(total)),
            }
        },
        Opcode::STX => {
            let (b2, wr) = spec_bus_write(b, c.operand_addr, c.r_x);
            match wr {
                Err(e) => (c, b2, Err(e)),
                Ok(_) => (c, b2, Ok(total)),
            }
        },
        Opcode::STY => {
            let (b2, wr) = spec_bus_write(b, c.operand_addr, c.r_y);
            match wr {
                Err(e) => (c, b2, Err(e)),
                Ok(_) => (c, b2, Ok(total)),
            }
        },
        Opcode::BCC => spec_branch_apply(c, b, instr, penalty, !c.f_c),
        Opcode::BCS => spec_branch_apply(c, b, instr, penalty, c.f_c),
        Opcode::BEQ => spec_branch_apply(c, b, instr, penalty, c.f_z),
        Opcode::BNE => spec_branch_apply(c, b, instr, penalty, !c.f_z),
        Opcode::BMI => spec_branch_apply(c, b, instr, penalty, c.f_n),
        Opcode::BPL => spec_branch_apply(c, b, instr, penalty, !c.f_n),
        Opcode::BVS => spec_branch_apply(c, b, instr, penalty, c.f_v),
        Opcode::BVC => spec_branch_apply(c, b, instr, penalty, !c.f_v),
        Opcode::PHA => {
            let (c2, b2) = spec_push(c, b, c.r_a);
            (c2, b2, Ok(total))
        },
        Opcode::PHP => {
            let (c2, b2) = spec_push(
                c,
                b,
                spec_pack_status(c.f_c, c.f_z, c.f_i, c.f_d, true, true, c.f_v, c.f_n),
            );
            (CpuView { f_b: false, f_u: false, ..c2 }, b2, Ok(total))
        },
        Opcode::PLA => {
            let (c2, b2, v) = spec_pull(c, b);
            (CpuView { r_a: v, f_z: v == 0, f_n: v & 0x80 != 0, ..c2 }, b2, Ok(total))
        },
        Opcode::PLP => {
            let (c2, b2, v) = spec_pull(c, b);
            (CpuView { f_u: true, ..spec_unpack_status(c2, v) }, b2, Ok(total))
        },
        Opcode::JMP => (CpuView { pc: c.operand_addr, ..c }, b, Ok(total)),
        Opcode::JMPI => (CpuView { pc: c.operand_addr, ..c }, b, Ok(total)),
        Opcode::JSR => {
            let cj = CpuView { pc: c.pc.wrapping_sub(1), ..c };
            let (c2, b2) = spec_push(cj, b, ((cj.pc / 0x100) as u8));
            let (c3, b3) = spec_push(c2, b2, ((cj.pc % 0x100) as u8));
            (CpuView { pc: c.operand_addr, ..c3 }, b3, Ok(total))
        },
        Opcode::RTS => {
            let (c2, b2, lo) = spec_pull(c, b);
            let (c3, b3, hi) = spec_pull(c2, b2);
            let ret = ((hi as u16 * 0x100 + lo as u16) as u16);
            (CpuView { pc: ret.wrapping_add(1), ..c3 }, b3, Ok(total))
        },
        Opcode::RTI => {
            let (c2, b2, st) = spec_pull(c, b);
            let c2u = CpuView { f_u: true, f_b: false, ..spec_unpack_status(c2, st) };
            let (c3, b3, lo) = spec_pull(c2u, b2);
            let (c4, b4, hi) = spec_pull(c3, b3);
            (CpuView { pc: ((hi as u16 * 0x100 + lo as u16) as u16), ..c4 }, b4, Ok(total))
        },
        Opcode::BRK => {
            let cb = CpuView { pc: c.pc.wrapping_add(1), ..c };
            let (c2, b2) = spec_push(cb, b, ((cb.pc / 0x100) as u8));
            let (c3, b3) = spec_push(c2, b2, ((cb.pc % 0x100) as u8));
            let (c4, b4) = spec_push(
                c3,
                b3,
                spec_pack_status(c.f_c, c.f_z, c.f_i, c.f_d, true, c.f_u, c.f_v, c.f_n),
            );
            (
                CpuView { f_i: true, pc: spec_vector_word(b4, 0xFFFE), ..c4 },
                b4,
                Ok(total),
            )
        },
        Opcode::TAX => (
            CpuView { r_x: c.r_a, f_z: c.r_a == 0, f_n: c.r_a & 0x80 != 0, ..c },
            b,
            Ok(total),
        ),
        Opcode::TAY => (
            CpuView { r_y: c.r_a, f_z: c.r_a == 0, f_n: c.r_a & 0x80 != 0, ..c },
            b,
            Ok(total),
        ),
        Opcode::TXA => (
            CpuView { r_a: c.r_x, f_z: c.r_x == 0, f_n: c.r_x & 0x80 != 0, ..c },
            b,
            Ok(total),
        ),
        Opcode::TYA => (
            CpuView { r_a: c.r_y, f_z: c.r_y == 0, f_n: c.r_y & 0x80 != 0, ..c },
            b,
            Ok(total),
        ),
        Opcode::TSX => (
            CpuView { r_x: c.sp, f_z: c.sp == 0, f_n: c.sp & 0x80 != 0, ..c },
            b,
            Ok(total),
        ),
        Opcode::TXS => (CpuView { sp: c.r_x, ..c }, b, Ok(total)),
        Opcode::INX => {
            let r = c.r_x.wrapping_add(1);
            (CpuView { r_x: r, f_z: r == 0, f_n: r & 0x80 != 0, ..c }, b, Ok(total))
        },
        Opcode::INY => {
            let r = c.r_y.wrapping_add(1);
            (CpuView { r_y: r, f_z: r == 0, f_n: r & 0x80 != 0, ..c }, b, Ok(total))
        },
        Opcode::DEX => {
            let r = c.r_x.wrapping_sub(1);
            (CpuView { r_x: r, f_z: r == 0, f_n: r & 0x80 != 0, ..c }, b, Ok(total))
        },
        Opcode::DEY => {
            let r = c.r_y.wrapping_sub(1);
            (CpuView { r_y: r, f_z: r == 0, f_n: r & 0x80 != 0, ..c }, b, Ok(total))
        },
        Opcode::CLC => (CpuView { f_c: false, ..c }, b, Ok(total)),
        Opcode::SEC => (CpuView { f_c: true, ..c }, b, Ok(total)),
        Opcode::CLI => (CpuView { f_i: false, ..c }, b, Ok(total)),
        Opcode::SEI => (CpuView { f_i: true, ..c }, b, Ok(total)),
        Opcode::CLV => (CpuView { f_v: false, ..c }, b, Ok(total)),
        Opcode::CLD => (CpuView { f_d: false, ..c }, b, Ok(total)),
        Opcode::SED => (CpuView { f_d: true, ..c }, b, Ok(total)),
        Opcode::NOP => (c, b, Ok(total)),
        Opcode::UnknownOperation => (c, b, Ok(total)),
    }
}

/// What executing one decoded instruction does, addressing-mode resolution
/// included.
#[verifier::opaque]
pub open spec fn spec_execute(c: CpuView, b: BusView, instr: Instruction) -> (
    CpuView,
    BusView,
    Result<u8, EmuError>,
) {
    let (c1, b1, pr) = spec_resolve(c, b, instr.addr_mode);
    match pr {
        Err(e) => (c1, b1, Err(e)),
        Ok(penalty) => spec_execute_decoded(c1, b1, instr, penalty),
    }
}

/// One trace line appended: formatted over the pre-fetch program counter,
/// the raw instruction bytes and the current register file.
pub open spec fn spec_trace_push(c: CpuView, bytes: Seq<u8>, op: Opcode) -> CpuView {
    CpuView {
        trace_log: c.trace_log.push(
            spec_trace_line(c.pc, bytes, op, c.r_a, c.r_x, c.r_y, c.status(), c.sp),
        ),
        ..c
    }
}

/// What emitting a trace line does: re-read the opcode byte at the program
/// counter and the operand bytes its addressing mode implies, and append
/// the formatted line. A failing read leaves the log untouched.
#[verifier::opaque]
pub open spec fn spec_trace(c: CpuView, b: BusView) -> (CpuView, BusView, Result<(), EmuError>) {
    let (b1, r0) = spec_bus_read(b, c.pc);
    match r0 {
        Err(e) => (c, b1, Err(e)),
        Ok(op_byte) => {
            let instr = spec_decode(op_byte);
            let n = spec_operand_len(instr.addr_mode);
            if n == 0 {
                (spec_trace_push(c, seq![op_byte], instr.opcode), b1, Ok(()))
            } else {
                let (b2, r1) = spec_bus_read(b1, c.pc.wrapping_add(1));
                match r1 {
                    Err(e) => (c, b2, Err(e)),
                    Ok(o1) => {
                        if n == 1 {
                            (spec_trace_push(c, seq![op_byte, o1], instr.opcode), b2, Ok(()))
                        } else {
                            let (b3, r2) = spec_bus_read(b2, c.pc.wrapping_add(2));
                            match r2 {
                                Err(e) => (c, b3, Err(e)),
                                Ok(o2) => (
                                    spec_trace_push(c, seq![op_byte, o1, o2], instr.opcode),
                                    b3,
                                    Ok(()),
                                ),
                            }
                        }
                    },
                }
            }
        },
    }
}

/// Entering an interrupt: push the program counter high byte then low byte,
/// then the status with B clear and U set; disable further IRQs; load the
/// program counter from the vector; stall.
pub open spec fn spec_service_interrupt(c: CpuView, b: BusView, vector: u16, stall: u8) -> (
    CpuView,
    BusView,
) {
    let (c1, b1) = spec_push(c, b, (c.pc / 0x100) as u8);
    let (c2, b2) = spec_push(c1, b1, (c.pc % 0x100) as u8);
    let (c3, b3) = spec_push(
        c2,
        b2,
        spec_pack_status(c.f_c, c.f_z, c.f_i, c.f_d, false, true, c.f_v, c.f_n),
    );
    (CpuView { f_i: true, pc: spec_vector_word(b3, vector), skip_cycles: stall, ..c3 }, b3)
}

impl CPU {
    /// Builds a fresh CPU. Tracing is a construction-time option; when it is
    /// on, each fetched instruction appends one line to `trace_log`.
    pub fn new(trace_enabled: bool) -> (r: CPU)
        ensures
            r@ == spec_cpu_new(trace_enabled),
    {
        CPU {
            sp: 0x00,
            r_a: 0x00,
            r_x: 0x00,
            r_y: 0x00,
            pc: 0x0000,
            cycles: 0,
            skip_cycles: 0,
            f_c: false,
            f_z: false,
            f_i: false,
            f_d: false,
            f_b: false,
            f_u: false,
            f_v: false,
            f_n: false,
            operand_addr: 0x0000,
            branch_offset: 0x0000,
            trace_enabled,
            trace_log: Vec::new(),
        }
    }

    /// Packs the stored flags into a status byte, with the B and U bits as
    /// given; the one packing routine used at every push site.
    pub fn pack_status(&self, b_flag: bool, u_flag: bool) -> (r: u8)
        ensures
            r == spec_pack_status(
                self.f_c,
                self.f_z,
                self.f_i,
                self.f_d,
                b_flag,
                u_flag,
                self.f_v,
                self.f_n,
            ),
    {
        let mut r: u8 = 0;
        if self.f_c {
            r = r + 1;
        }
        if self.f_z {
            r = r + 2;
        }
        if self.f_i {
            r = r + 4;
        }
        if self.f_d {
            r = r + 8;
        }
        if b_flag {
            r = r + 16;
        }
        if u_flag {
            r = r + 32;
        }
        if self.f_v {
            r = r + 64;
        }
        if self.f_n {
            r = r + 128;
        }
        r
    }

    /// The packed status byte with the stored B and U flags.
    pub fn status_byte(&self) -> (r: u8)
        ensures
            r == self@.status(),
    {
        self.pack_status(self.f_b, self.f_u)
    }

    /// Reconstitutes all eight flag fields from a status byte; the one
    /// unpacking routine used at every pull site.
    pub fn set_status_byte(&mut self, value: u8)
        ensures
            final(self)@ == spec_unpack_status(old(self)@, value),
    {
        self.f_c = value % 2 == 1;
        self.f_z = value / 2 % 2 == 1;
        self.f_i = value / 4 % 2 == 1;
        self.f_d = value / 8 % 2 == 1;
        self.f_b = value / 16 % 2 == 1;
        self.f_u = value / 32 % 2 == 1;
        self.f_v = value / 64 % 2 == 1;
        self.f_n = value / 128 % 2 == 1;
    }

    /// One read through the bus on the CPU's behalf.
    pub fn read(&self, addr: u16, bus: &mut Bus) -> (r: Result<u8, EmuError>)
        requires
            old(bus)@.wf(),
        ensures
            ({
                let (b, v) = spec_bus_read(old(bus)@, addr);
                final(bus)@ == b && r == v
            }),
            final(bus)@.wf(),
    {
        bus.read(addr)
    }

    /// One write through the bus on the CPU's behalf.
    pub fn write(&mut self, addr: u16, value: u8, bus: &mut Bus) -> (r: Result<(), EmuError>)
        requires
            old(bus)@.wf(),
        ensures
            final(self)@ == old(self)@,
            ({
                let (b, v) = spec_bus_write(old(bus)@, addr, value);
                final(bus)@ == b && r == v
            }),
            final(bus)@.wf(),
    {
        bus.write(addr, value)
    }

    /// Pushes one byte onto the stack: write at 0x0100 + sp, then
    /// post-decrement sp.
    fn push_stack(&mut self, bus: &mut Bus, value: u8)
        requires
            old(bus)@.wf(),
        ensures
            ({
                let (c, b) = spec_push(old(self)@, old(bus)@, value);
                final(self)@ == c && final(bus)@ == b
            }),
            final(bus)@.wf(),
    {
        let addr: u16 = 0x100 + self.sp as u16;
        match bus.write(addr, value) {
            Ok(_) => {},
            Err(_) => {},
        }
        self.sp = self.sp.wrapping_sub(1);
    }

    /// Pulls one byte from the stack: pre-increment sp, then read at
    /// 0x0100 + sp.
    fn pull_stack(&mut self, bus: &mut Bus) -> (r: u8)
        requires
            old(bus)@.wf(),
        ensures
            ({
                let (c, b, v) = spec_pull(old(self)@, old(bus)@);
                final(self)@ == c && final(bus)@ == b && r == v
            }),
            final(bus)@.wf(),
    {
        self.sp = self.sp.wrapping_add(1);
        let addr: u16 = 0x100 + self.sp as u16;
        match bus.read(addr) {
            Ok(v) => v,
            Err(_) => 0,
        }
    }

    /// Reads one interrupt-vector byte; vectors live in the PRG ROM window,
    /// where reads always succeed and leave the bus unchanged.
    fn read_vector_byte(&self, bus: &mut Bus, addr: u16) -> (r: u8)
        requires
            old(bus)@.wf(),
            addr >= 0x8000,
        ensures
            final(bus)@ == old(bus)@,
            r == spec_read_value(old(bus)@, addr),
    {
        proof {
            reveal(crate::bus::spec_bus_read);
        }
        match bus.read(addr) {
            Ok(v) => v,
            Err(_) => 0,
        }
    }

    /// Hardware reset: clear the registers and flags, set U, park the stack
    /// pointer at 0xFD, load the program counter from the reset vector at
    /// 0xFFFC/0xFFFD, reset the cycle count and stall 8 cycles.
    pub fn reset(&mut self, bus: &mut Bus)
        requires
            old(bus)@.wf(),
        ensures
            final(bus)@ == old(bus)@,
            final(self)@ == (CpuView {
                r_a: 0,
                r_x: 0,
                r_y: 0,
                sp: 0xFD,
                pc: spec_vector_word(old(bus)@, 0xFFFC),
                f_c: false,
                f_z: false,
                f_i: false,
                f_d: false,
                f_b: false,
                f_u: true,
                f_v: false,
                f_n: false,
                operand_addr: 0,
                branch_offset: 0,
                cycles: 0,
                skip_cycles: 8,
                ..old(self)@
            }),
    {
        self.r_a = 0x00;
        self.r_x = 0x00;
        self.r_y = 0x00;
        self.sp = 0xFD;
        self.f_c = false;
        self.f_z = false;
        self.f_i = false;
        self.f_d = false;
        self.f_b = false;
        self.f_u = true;
        self.f_v = false;
        self.f_n = false;
        let lo: u8 = self.read_vector_byte(bus, 0xFFFC);
        let hi: u8 = self.read_vector_byte(bus, 0xFFFD);
        self.pc = (hi as u16) * 0x100 + (lo as u16);
        self.operand_addr = 0x0000;
        self.branch_offset = 0x0000;
        self.cycles = 0;
        self.skip_cycles = 8;
    }

    /// Maskable interrupt request: ignored while the I flag is set;
    /// otherwise the interrupt entry sequence with the 0xFFFE/0xFFFF vector
    /// and a 7-cycle stall.
    pub fn interrupt(&mut self, bus: &mut Bus)
        requires
            old(bus)@.wf(),
        ensures
            old(self).f_i ==> final(self)@ == old(self)@ && final(bus)@ == old(bus)@,
            !old(self).f_i ==> ({
                let (c, b) = spec_service_interrupt(old(self)@, old(bus)@, 0xFFFE, 7);
                final(self)@ == c && final(bus)@ == b
            }),
            final(bus)@.wf(),
    {
        if self.f_i {
            return ;
        }
        self.service_interrupt(bus, InterruptType::IRQ);
    }

    /// Non-maskable interrupt: always taken; the interrupt entry sequence
    /// with the 0xFFFA/0xFFFB vector and an 8-cycle stall.
    pub fn non_maskable_interrupt(&mut self, bus: &mut Bus)
        requires
            old(bus)@.wf(),
        ensures
            ({
                let (c, b) = spec_service_interrupt(old(self)@, old(bus)@, 0xFFFA, 8);
                final(self)@ == c && final(bus)@ == b
            }),
            final(bus)@.wf(),
    {
        self.service_interrupt(bus, InterruptType::NMI);
    }

    /// The shared interrupt entry sequence for the two hardware interrupt
    /// lines (BRK runs its own variant inside the executor).
    fn service_interrupt(&mut self, bus: &mut Bus, kind: InterruptType)
        requires
            old(bus)@.wf(),
            kind != InterruptType::BRK_,
        ensures
            ({
                let vector: u16 = if kind == InterruptType::IRQ {
                    0xFFFE
                } else {
                    0xFFFA
                };
                let stall: u8 = if kind == InterruptType::IRQ {
                    7
                } else {
                    8
                };
                let (c, b) = spec_service_interrupt(old(self)@, old(bus)@, vector, stall);
                final(self)@ == c && final(bus)@ == b
            }),
            final(bus)@.wf(),
    {
        let (vector, stall): (u16, u8) = match kind {
            InterruptType::IRQ => (0xFFFE, 7),
            InterruptType::NMI => (0xFFFA, 8),
            InterruptType::BRK_ => (0xFFFE, 7),
        };
        let pc_hi: u8 = (self.pc / 0x100) as u8;
        let pc_lo: u8 = (self.pc % 0x100) as u8;
        self.push_stack(bus, pc_hi);
        self.push_stack(bus, pc_lo);
        let status: u8 = self.pack_status(false, true);
        self.push_stack(bus, status);
        self.f_i = true;
        let lo: u8 = self.read_vector_byte(bus, vector);
        let hi: u8 = self.read_vector_byte(bus, vector + 1);
        self.pc = (hi as u16) * 0x100 + (lo as u16);
        self.skip_cycles = stall;
    }

    /// Resolves an addressing mode: reads the operand bytes, advances the
    /// program counter past them, fills `operand_addr` (or `branch_offset`
    /// for Relative) and returns the page-crossing cycle penalty.
    #[verifier::rlimit(100)]
    fn load_address_mode(&mut self, addr_mode: AddressingMode, bus: &mut Bus) -> (r: Result<
        u8,
        EmuError,
    >)
        requires
            old(bus)@.wf(),
        ensures
            ({
                let (c, b, v) = spec_resolve(old(self)@, old(bus)@, addr_mode);
                final(self)@ == c && final(bus)@ == b && r == v
            }),
            final(bus)@.wf(),
            r matches Ok(p) ==> p <= 1,
    {
        match addr_mode {
            AddressingMode::Implied => Ok(0),
            AddressingMode::Immediate => {
                self.operand_addr = self.pc;
                self.pc = self.pc.wrapping_add(1);
                Ok(0)
            },
            AddressingMode::ZeroPage => {
                let operand: u8 = match bus.read(self.pc) {
                    Ok(v) => v,
                    Err(e) => return Err(e),
                };
                self.pc = self.pc.wrapping_add(1);
                self.operand_addr = operand as u16;
                Ok(0)
            },
            AddressingMode::ZeroPageX => {
                let operand: u8 = match bus.read(self.pc) {
                    Ok(v) => v,
                    Err(e) => return Err(e),
                };
                self.pc = self.pc.wrapping_add(1);
                self.operand_addr = (operand as u16 + self.r_x as u16) % 0x100;
                Ok(0)
            },
            AddressingMode::ZeroPageY => {
                let operand: u8 = match bus.read(self.pc) {
                    Ok(v) => v,
                    Err(e) => return Err(e),
                };
                self.pc = self.pc.wrapping_add(1);
                self.operand_addr = (operand as u16 + self.r_y as u16) % 0x100;
                Ok(0)
            },
            AddressingMode::Relative => {
                let operand: u8 = match bus.read(self.pc) {
                    Ok(v) => v,
                    Err(e) => return Err(e),
                };
                self.pc = self.pc.wrapping_add(1);
                self.branch_offset = if operand >= 0x80 {
                    operand as u16 + 0xFF00
                } else {
                    operand as u16
                };
                Ok(0)
            },
            AddressingMode::Absolute => {
                let lo: u8 = match bus.read(self.pc) {
                    Ok(v) => v,
                    Err(e) => return Err(e),
                };
                self.pc = self.pc.wrapping_add(1);
                let hi: u8 = match bus.read(self.pc) {
                    Ok(v) => v,
                    Err(e) => return Err(e),
                };
                self.pc = self.pc.wrapping_add(1);
                self.operand_addr = (hi as u16) * 0x100 + (lo as u16);
                Ok(0)
            },
            AddressingMode::AbsoluteX => {
                let lo: u8 = match bus.read(self.pc) {
                    Ok(v) => v,
                    Err(e) => return Err(e),
                };
                self.pc = self.pc.wrapping_add(1);
                let hi: u8 = match bus.read(self.pc) {
                    Ok(v) => v,
                    Err(e) => return Err(e),
                };
                self.pc = self.pc.wrapping_add(1);
                let base: u16 = (hi as u16) * 0x100 + (lo as u16);
                let sum: u16 = base.wrapping_add(self.r_x as u16);
                self.operand_addr = sum;
                if sum / 0x100 != hi as u16 {
                    Ok(1)
                } else {
                    Ok(0)
                }
            },
            AddressingMode::AbsoluteY => {
                let lo: u8 = match bus.read(self.pc) {
                    Ok(v) => v,
                    Err(e) => return Err(e),
                };
                self.pc = self.pc.wrapping_add(1);
                let hi: u8 = match bus.read(self.pc) {
                    Ok(v) => v,
                    Err(e) => return Err(e),
                };
                self.pc = self.pc.wrapping_add(1);
                let base: u16 = (hi as u16) * 0x100 + (lo as u16);
                let sum: u16 = base.wrapping_add(self.r_y as u16);
                self.operand_addr = sum;
                if sum / 0x100 != hi as u16 {
                    Ok(1)
                } else {
                    Ok(0)
                }
            },
            AddressingMode::Indirect => {
                let ptr_lo: u8 = match bus.read(self.pc) {
                    Ok(v) => v,
                    Err(e) => return Err(e),
                };
                self.pc = self.pc.wrapping_add(1);
                let ptr_hi: u8 = match bus.read(self.pc) {
                    Ok(v) => v,
                    Err(e) => return Err(e),
                };
                self.pc = self.pc.wrapping_add(1);
                let ptr: u16 = (ptr_hi as u16) * 0x100 + (ptr_lo as u16);
                let lo: u8 = match bus.read(ptr) {
                    Ok(v) => v,
                    Err(e) => return Err(e),
                };
                // The 6502 indirect page-boundary bug: a pointer with low
                // byte 0xFF takes its high byte from the start of the same
                // page, not the next one.
                let hi_addr: u16 = if ptr_lo == 0xFF {
                    ptr - 0xFF
                } else {
                    ptr + 1
                };
                let hi: u8 = match bus.read(hi_addr) {
                    Ok(v) => v,
                    Err(e) => return Err(e),
                };
                self.operand_addr = (hi as u16) * 0x100 + (lo as u16);
                Ok(0)
            },
            AddressingMode::IndirectX => {
                let zp: u8 = match bus.read(self.pc) {
                    Ok(v) => v,
                    Err(e) => return Err(e),
                };
                self.pc = self.pc.wrapping_add(1);
                let lo_addr: u16 = (zp as u16 + self.r_x as u16) % 0x100;
                let hi_addr: u16 = (zp as u16 + self.r_x as u16 + 1) % 0x100;
                let lo: u8 = match bus.read(lo_addr) {
                    Ok(v) => v,
                    Err(e) => return Err(e),
                };
                let hi: u8 = match bus.read(hi_addr) {
                    Ok(v) => v,
                    Err(e) => return Err(e),
                };
                self.operand_addr = (hi as u16) * 0x100 + (lo as u16);
                Ok(0)
            },
            AddressingMode::IndirectY => {
                let zp: u8 = match bus.read(self.pc) {
                    Ok(v) => v,
                    Err(e) => return Err(e),
                };
                self.pc = self.pc.wrapping_add(1);
                let lo: u8 = match bus.read(zp as u16) {
                    Ok(v) => v,
                    Err(e) => return Err(e),
                };
                let hi: u8 = match bus.read((zp as u16 + 1) % 0x100) {
                    Ok(v) => v,
                    Err(e) => return Err(e),
                };
                let base: u16 = (hi as u16) * 0x100 + (lo as u16);
                let sum: u16 = base.wrapping_add(self.r_y as u16);
                self.operand_addr = sum;
                if sum / 0x100 != hi as u16 {
                    Ok(1)
                } else {
                    Ok(0)
                }
            },
        }
    }

    /// Fetches the operand value: the accumulator under the Implied
    /// (accumulator) mode, else the byte at the resolved operand address.
    fn fetch_operand(&self, bus: &mut Bus, addr_mode: AddressingMode) -> (r: Result<u8, EmuError>)
        requires
            old(bus)@.wf(),
        ensures
            ({
                let (b, v) = spec_fetch_operand(self@, old(bus)@, addr_mode);
                final(bus)@ == b && r == v
            }),
            final(bus)@.wf(),
    {
        if addr_mode == AddressingMode::Implied {
            Ok(self.r_a)
        } else {
            bus.read(self.operand_addr)
        }
    }

    /// The instructions that consume an operand value and update registers
    /// and flags alone: arithmetic, logic, bit test, loads and compares.
    #[verifier::rlimit(100)]
    fn exec_alu(&mut self, instruction: &Instruction, penalty: u8, bus: &mut Bus) -> (r: Result<
        u8,
        EmuError,
    >)
        requires
            old(bus)@.wf(),
            instruction.cycles <= 7,
            penalty <= 1,
            matches!(
                instruction.opcode,
                Opcode::ADC
                    | Opcode::SBC
                    | Opcode::AND
                    | Opcode::ORA
                    | Opcode::EOR
                    | Opcode::BIT
                    | Opcode::LDA
                    | Opcode::LDX
                    | Opcode::LDY
                    | Opcode::CMP
                    | Opcode::CPX
                    | Opcode::CPY
            ),
        ensures
            ({
                let (c, b, v) = spec_execute_decoded(old(self)@, old(bus)@, *instruction, penalty);
                final(self)@ == c && final(bus)@ == b && r == v
            }),
            final(bus)@.wf(),
            r matches Ok(t) ==> instruction.cycles <= t <= instruction.cycles + penalty + 2,
    {
        let d: u8 = match self.fetch_operand(bus, instruction.addr_mode) {
            Ok(v) => v,
            Err(e) => return Err(e),
        };
        let total: u8 = instruction.cycles + penalty;
        match instruction.opcode {
            Opcode::ADC => {
                let a: u8 = self.r_a;
                let sum: u16 = a as u16 + d as u16 + (if self.f_c {
                    1u16
                } else {
                    0u16
                });
                let r8: u8 = (sum % 256) as u8;
                self.r_a = r8;
                self.f_c = sum > 255;
                self.f_z = r8 == 0;
                self.f_v = ((!(a ^ d)) & (a ^ r8)) & 0x80 != 0;
                self.f_n = r8 & 0x80 != 0;
            },
            Opcode::SBC => {
                let a: u8 = self.r_a;
                let inv: u8 = !d;
                let sum: u16 = a as u16 + inv as u16 + (if self.f_c {
                    1u16
                } else {
                    0u16
                }) + 1;
                let r8: u8 = (sum % 256) as u8;
                self.r_a = r8;
                self.f_c = sum > 255;
                self.f_z = r8 == 0;
                self.f_v = ((r8 ^ a) & (r8 ^ inv)) & 0x80 != 0;
                self.f_n = r8 & 0x80 != 0;
            },
            Opcode::AND => {
                let r8: u8 = self.r_a & d;
                self.r_a = r8;
                self.f_z = r8 == 0;
                self.f_n = r8 & 0x80 != 0;
            },
            Opcode::ORA => {
                let r8: u8 = self.r_a | d;
                self.r_a = r8;
                self.f_z = r8 == 0;
                self.f_n = r8 & 0x80 != 0;
            },
            Opcode::EOR => {
                let r8: u8 = self.r_a ^ d;
                self.r_a = r8;
                self.f_z = r8 == 0;
                self.f_n = r8 & 0x80 != 0;
            },
            Opcode::BIT => {
                self.f_z = self.r_a & d == 0;
                self.f_n = d & 0x80 != 0;
                self.f_v = d & 0x40 != 0;
            },
            Opcode::LDA => {
                self.r_a = d;
                self.f_z = d == 0;
                self.f_n = d & 0x80 != 0;
            },
            Opcode::LDX => {
                self.r_x = d;
                self.f_z = d == 0;
                self.f_n = d & 0x80 != 0;
            },
            Opcode::LDY => {
                self.r_y = d;
                self.f_z = d == 0;
                self.f_n = d & 0x80 != 0;
            },
            Opcode::CMP => {
                self.f_c = self.r_a >= d;
                self.f_z = self.r_a == d;
                self.f_n = self.r_a.wrapping_sub(d) & 0x80 != 0;
            },
            Opcode::CPX => {
                self.f_c = self.r_x >= d;
                self.f_z = self.r_x == d;
                self.f_n = self.r_x.wrapping_sub(d) & 0x80 != 0;
            },
            _ => {
                self.f_c = self.r_y >= d;
                self.f_z = self.r_y == d;
                self.f_n = self.r_y.wrapping_sub(d) & 0x80 != 0;
            },
        }
        Ok(total)
    }

    /// The shift, rotate, increment and decrement instructions: they read a
    /// value (accumulator or memory), rewrite it in place, and set flags
    /// from the result.
    #[verifier::rlimit(100)]
    fn exec_shift_rmw(&mut self, instruction: &Instruction, penalty: u8, bus: &mut Bus) -> (r:
        Result<u8, EmuError>)
        requires
            old(bus)@.wf(),
            instruction.cycles <= 7,
            penalty <= 1,
            matches!(
                instruction.opcode,
                Opcode::ASL | Opcode::LSR | Opcode::ROL | Opcode::ROR | Opcode::INC | Opcode::DEC
            ),
        ensures
            ({
                let (c, b, v) = spec_execute_decoded(old(self)@, old(bus)@, *instruction, penalty);
                final(self)@ == c && final(bus)@ == b && r == v
            }),
            final(bus)@.wf(),
            r matches Ok(t) ==> instruction.cycles <= t <= instruction.cycles + penalty + 2,
    {
        let d: u8 = match self.fetch_operand(bus, instruction.addr_mode) {
            Ok(v) => v,
            Err(e) => return Err(e),
        };
        let total: u8 = instruction.cycles + penalty;
        match instruction.opcode {
            Opcode::ASL => {
                let shifted: u16 = (d as u16) * 2;
                let r8: u8 = (shifted % 256) as u8;
                let carry: bool = shifted > 255;
                if instruction.addr_mode == AddressingMode::Implied {
                    self.r_a = r8;
                } else {
                    match bus.write(self.operand_addr, r8) {
                        Ok(_) => {},
                        Err(e) => return Err(e),
                    }
                }
                self.f_c = carry;
                self.f_z = r8 == 0;
                self.f_n = r8 & 0x80 != 0;
            },
            Opcode::LSR => {
                let r8: u8 = d / 2;
                let carry: bool = d % 2 == 1;
                if instruction.addr_mode == AddressingMode::Implied {
                    self.r_a = r8;
                } else {
                    match bus.write(self.operand_addr, r8) {
                        Ok(_) => {},
                        Err(e) => return Err(e),
                    }
                }
                self.f_c = carry;
                self.f_z = r8 == 0;
                self.f_n = r8 & 0x80 != 0;
            },
            Opcode::ROL => {
                let shifted: u16 = (d as u16) * 2 + (if self.f_c {
                    1u16
                } else {
                    0u16
                });
                let r8: u8 = (shifted % 256) as u8;
                let carry: bool = shifted > 255;
                if instruction.addr_mode == AddressingMode::Implied {
                    self.r_a = r8;
                } else {
                    match bus.write(self.operand_addr, r8) {
                        Ok(_) => {},
                        Err(e) => return Err(e),
                    }
                }
                self.f_c = carry;
                self.f_z = r8 == 0;
                self.f_n = r8 & 0x80 != 0;
            },
            Opcode::ROR => {
                let r8: u8 = d / 2 + (if self.f_c {
                    128u8
                } else {
                    0u8
                });
                let carry: bool = d % 2 == 1;
                if instruction.addr_mode == AddressingMode::Implied {
                    self.r_a = r8;
                } else {
                    match bus.write(self.operand_addr, r8) {
                        Ok(_) => {},
                        Err(e) => return Err(e),
                    }
                }
                self.f_c = carry;
                self.f_z = r8 == 0;
                self.f_n = r8 & 0x80 != 0;
            },
            Opcode::INC => {
                let r8: u8 = d.wrapping_add(1);
                match bus.write(self.operand_addr, r8) {
                    Ok(_) => {},
                    Err(e) => return Err(e),
                }
                self.f_z = r8 == 0;
                self.f_n = r8 & 0x80 != 0;
            },
            _ => {
                let r8: u8 = d.wrapping_sub(1);
                match bus.write(self.operand_addr, r8) {
                    Ok(_) => {},
                    Err(e) => return Err(e),
                }
                self.f_z = r8 == 0;
                self.f_n = r8 & 0x80 != 0;
            },
        }
        Ok(total)
    }

    /// The store instructions: they write a register through the bus and
    /// touch no flags.
    fn exec_store(&mut self, instruction: &Instruction, penalty: u8, bus: &mut Bus) -> (r: Result<
        u8,
        EmuError,
    >)
        requires
            old(bus)@.wf(),
            instruction.cycles <= 7,
            penalty <= 1,
            matches!(instruction.opcode, Opcode::STA | Opcode::STX | Opcode::STY),
        ensures
            ({
                let (c, b, v) = spec_execute_decoded(old(self)@, old(bus)@, *instruction, penalty);
                final(self)@ == c && final(bus)@ == b && r == v
            }),
            final(bus)@.wf(),
            r matches Ok(t) ==> instruction.cycles <= t <= instruction.cycles + penalty + 2,
    {
        let value: u8 = match instruction.opcode {
            Opcode::STA => self.r_a,
            Opcode::STX => self.r_x,
            _ => self.r_y,
        };
        match bus.write(self.operand_addr, value) {
            Ok(_) => Ok(instruction.cycles + penalty),
            Err(e) => Err(e),
        }
    }

    /// The conditional branches: when the tested flag matches, the program
    /// counter moves by the sign-extended displacement, at one extra cycle,
    /// plus one more when the move crosses a page.
    fn exec_branch(&mut self, instruction: &Instruction, penalty: u8, bus: &Bus) -> (r: Result<
        u8,
        EmuError,
    >)
        requires
            instruction.cycles <= 7,
            penalty <= 1,
            matches!(
                instruction.opcode,
                Opcode::BCC
                    | Opcode::BCS
                    | Opcode::BEQ
                    | Opcode::BNE
                    | Opcode::BMI
                    | Opcode::BPL
                    | Opcode::BVC
                    | Opcode::BVS
            ),
        ensures
            ({
                let (c, b, v) = spec_execute_decoded(old(self)@, bus@, *instruction, penalty);
                final(self)@ == c && bus@ == b && r == v
            }),
            r matches Ok(t) ==> instruction.cycles <= t <= instruction.cycles + penalty + 2,
    {
        let taken: bool = match instruction.opcode {
            Opcode::BCC => !self.f_c,
            Opcode::BCS => self.f_c,
            Opcode::BEQ => self.f_z,
            Opcode::BNE => !self.f_z,
            Opcode::BMI => self.f_n,
            Opcode::BPL => !self.f_n,
            Opcode::BVS => self.f_v,
            _ => !self.f_v,
        };
        if taken {
            let target: u16 = self.pc.wrapping_add(self.branch_offset);
            let crossed: bool = target / 0x100 != self.pc / 0x100;
            self.pc = target;
            Ok(
                instruction.cycles + penalty + 1 + (if crossed {
                    1u8
                } else {
                    0u8
                }),
            )
        } else {
            Ok(instruction.cycles + penalty)
        }
    }

    /// The stack and control-flow instructions: pushes, pulls, jumps,
    /// subroutine calls and returns, interrupt return and BRK.
    #[verifier::rlimit(100)]
    fn exec_stack_flow(&mut self, instruction: &Instruction, penalty: u8, bus: &mut Bus) -> (r:
        Result<u8, EmuError>)
        requires
            old(bus)@.wf(),
            instruction.cycles <= 7,
            penalty <= 1,
            matches!(
                instruction.opcode,
                Opcode::PHA
                    | Opcode::PHP
                    | Opcode::PLA
                    | Opcode::PLP
                    | Opcode::JMP
                    | Opcode::JMPI
                    | Opcode::JSR
                    | Opcode::RTS
                    | Opcode::RTI
                    | Opcode::BRK
            ),
        ensures
            ({
                let (c, b, v) = spec_execute_decoded(old(self)@, old(bus)@, *instruction, penalty);
                final(self)@ == c && final(bus)@ == b && r == v
            }),
            final(bus)@.wf(),
            r matches Ok(t) ==> instruction.cycles <= t <= instruction.cycles + penalty + 2,
    {
        let total: u8 = instruction.cycles + penalty;
        match instruction.opcode {
            Opcode::PHA => {
                let a: u8 = self.r_a;
                self.push_stack(bus, a);
            },
            Opcode::PHP => {
                let status: u8 = self.pack_status(true, true);
                self.push_stack(bus, status);
                self.f_b = false;
                self.f_u = false;
            },
            Opcode::PLA => {
                let v: u8 = self.pull_stack(bus);
                self.r_a = v;
                self.f_z = v == 0;
                self.f_n = v & 0x80 != 0;
            },
            Opcode::PLP => {
                let v: u8 = self.pull_stack(bus);
                self.set_status_byte(v);
                self.f_u = true;
            },
            Opcode::JMP => {
                self.pc = self.operand_addr;
            },
            Opcode::JMPI => {
                self.pc = self.operand_addr;
            },
            Opcode::JSR => {
                self.pc = self.pc.wrapping_sub(1);
                let pc_hi: u8 = (self.pc / 0x100) as u8;
                let pc_lo: u8 = (self.pc % 0x100) as u8;
                self.push_stack(bus, pc_hi);
                self.push_stack(bus, pc_lo);
                self.pc = self.operand_addr;
            },
            Opcode::RTS => {
                let lo: u8 = self.pull_stack(bus);
                let hi: u8 = self.pull_stack(bus);
                self.pc = ((hi as u16) * 0x100 + (lo as u16)).wrapping_add(1);
            },
            Opcode::RTI => {
                let status: u8 = self.pull_stack(bus);
                self.set_status_byte(status);
                self.f_u = true;
                self.f_b = false;
                let lo: u8 = self.pull_stack(bus);
                let hi: u8 = self.pull_stack(bus);
                self.pc = (hi as u16) * 0x100 + (lo as u16);
            },
            _ => {
                self.pc = self.pc.wrapping_add(1);
                let pc_hi: u8 = (self.pc / 0x100) as u8;
                let pc_lo: u8 = (self.pc % 0x100) as u8;
                self.push_stack(bus, pc_hi);
                self.push_stack(bus, pc_lo);
                let status: u8 = self.pack_status(true, self.f_u);
                self.push_stack(bus, status);
                self.f_i = true;
                let vec_lo: u8 = self.read_vector_byte(bus, 0xFFFE);
                let vec_hi: u8 = self.read_vector_byte(bus, 0xFFFF);
                self.pc = (vec_hi as u16) * 0x100 + (vec_lo as u16);
            },
        }
        Ok(total)
    }

    /// The implied register, transfer and flag instructions, and NOP.
    #[verifier::rlimit(100)]
    fn exec_implied(&mut self, instruction: &Instruction, penalty: u8, bus: &Bus) -> (r: Result<
        u8,
        EmuError,
    >)
        requires
            instruction.cycles <= 7,
            penalty <= 1,
            matches!(
                instruction.opcode,
                Opcode::TAX
                    | Opcode::TAY
                    | Opcode::TXA
                    | Opcode::TYA
                    | Opcode::TSX
                    | Opcode::TXS
                    | Opcode::INX
                    | Opcode::INY
                    | Opcode::DEX
                    | Opcode::DEY
                    | Opcode::CLC
                    | Opcode::SEC
                    | Opcode::CLI
                    | Opcode::SEI
                    | Opcode::CLV
                    | Opcode::CLD
                    | Opcode::SED
                    | Opcode::NOP
            ),
        ensures
            ({
                let (c, b, v) = spec_execute_decoded(old(self)@, bus@, *instruction, penalty);
                final(self)@ == c && bus@ == b && r == v
            }),
            r matches Ok(t) ==> instruction.cycles <= t <= instruction.cycles + penalty + 2,
    {
        match instruction.opcode {
            Opcode::TAX => {
                self.r_x = self.r_a;
                self.f_z = self.r_x == 0;
                self.f_n = self.r_x & 0x80 != 0;
            },
            Opcode::TAY => {
                self.r_y = self.r_a;
                self.f_z = self.r_y == 0;
                self.f_n = self.r_y & 0x80 != 0;
            },
            Opcode::TXA => {
                self.r_a = self.r_x;
                self.f_z = self.r_a == 0;
                self.f_n = self.r_a & 0x80 != 0;
            },
            Opcode::TYA => {
                self.r_a = self.r_y;
                self.f_z = self.r_a == 0;
                self.f_n = self.r_a & 0x80 != 0;
            },
            Opcode::TSX => {
                self.r_x = self.sp;
                self.f_z = self.r_x == 0;
                self.f_n = self.r_x & 0x80 != 0;
            },
            Opcode::TXS => {
                self.sp = self.r_x;
            },
            Opcode::INX => {
                self.r_x = self.r_x.wrapping_add(1);
                self.f_z = self.r_x == 0;
                self.f_n = self.r_x & 0x80 != 0;
            },
            Opcode::INY => {
                self.r_y = self.r_y.wrapping_add(1);
                self.f_z = self.r_y == 0;
                self.f_n = self.r_y & 0x80 != 0;
            },
            Opcode::DEX => {
                self.r_x = self.r_x.wrapping_sub(1);
                self.f_z = self.r_x == 0;
                self.f_n = self.r_x & 0x80 != 0;
            },
            Opcode::DEY => {
                self.r_y = self.r_y.wrapping_sub(1);
                self.f_z = self.r_y == 0;
                self.f_n = self.r_y & 0x80 != 0;
            },
            Opcode::CLC => {
                self.f_c = false;
            },
            Opcode::SEC => {
                self.f_c = true;
            },
            Opcode::CLI => {
                self.f_i = false;
            },
            Opcode::SEI => {
                self.f_i = true;
            },
            Opcode::CLV => {
                self.f_v = false;
            },
            Opcode::CLD => {
                self.f_d = false;
            },
            Opcode::SED => {
                self.f_d = true;
            },
            _ => {},
        }
        Ok(instruction.cycles + penalty)
    }

    /// Executes one decoded instruction: resolves its addressing mode, runs
    /// its semantic effect, and returns its total cycle budget.
    pub(crate) fn execute_instruction(&mut self, instruction: &Instruction, bus: &mut Bus) -> (r: Result<
        u8,
        EmuError,
    >)
        requires
            old(bus)@.wf(),
            instruction.cycles <= 7,
        ensures
            ({
                let (c, b, v) = spec_execute(old(self)@, old(bus)@, *instruction);
                final(self)@ == c && final(bus)@ == b && r == v
            }),
            final(bus)@.wf(),
            r matches Ok(t) ==> instruction.cycles <= t <= 10,
    {
        proof {
            reveal(spec_execute);
        }
        let penalty: u8 = match self.load_address_mode(instruction.addr_mode, bus) {
            Ok(p) => p,
            Err(e) => return Err(e),
        };
        match instruction.opcode {
            Opcode::ADC | Opcode::SBC | Opcode::AND | Opcode::ORA | Opcode::EOR | Opcode::BIT
                | Opcode::LDA | Opcode::LDX | Opcode::LDY | Opcode::CMP | Opcode::CPX
                | Opcode::CPY => self.exec_alu(instruction, penalty, bus),
            Opcode::ASL | Opcode::LSR | Opcode::ROL | Opcode::ROR | Opcode::INC | Opcode::DEC => self
                .exec_shift_rmw(instruction, penalty, bus),
            Opcode::STA | Opcode::STX | Opcode::STY => self.exec_store(instruction, penalty, bus),
            Opcode::BCC | Opcode::BCS | Opcode::BEQ | Opcode::BNE | Opcode::BMI | Opcode::BPL
                | Opcode::BVC | Opcode::BVS => self.exec_branch(instruction, penalty, bus),
            Opcode::PHA | Opcode::PHP | Opcode::PLA | Opcode::PLP | Opcode::JMP | Opcode::JMPI
                | Opcode::JSR | Opcode::RTS | Opcode::RTI | Opcode::BRK => self.exec_stack_flow(
                instruction,
                penalty,
                bus,
            ),
            Opcode::TAX | Opcode::TAY | Opcode::TXA | Opcode::TYA | Opcode::TSX | Opcode::TXS
                | Opcode::INX | Opcode::INY | Opcode::DEX | Opcode::DEY | Opcode::CLC
                | Opcode::SEC | Opcode::CLI | Opcode::SEI | Opcode::CLV | Opcode::CLD
                | Opcode::SED | Opcode::NOP => self.exec_implied(instruction, penalty, bus),
            Opcode::UnknownOperation => Ok(instruction.cycles + penalty),
        }
    }

    /// Emits one trace line: re-reads the opcode byte at the program
    /// counter (the one extra read tracing costs) and the operand bytes its
    /// addressing mode implies, formats them with the current registers,
    /// and appends the line to the log.
    pub(crate) fn trace(&mut self, bus: &mut Bus) -> (r: Result<(), EmuError>)
        requires
            old(bus)@.wf(),
        ensures
            ({
                let (c, b, v) = spec_trace(old(self)@, old(bus)@);
                final(self)@ == c && final(bus)@ == b && r == v
            }),
            final(bus)@.wf(),
    {
        proof {
            reveal(spec_trace);
        }
        let op_byte: u8 = match bus.read(self.pc) {
            Ok(v) => v,
            Err(e) => return Err(e),
        };
        let instruction: Instruction = Instruction::from_u8(op_byte);
        let n: usize = operand_count(instruction.addr_mode);
        let mut bytes: Vec<u8> = Vec::new();
        bytes.push(op_byte);
        if n == 0 {
            proof {
                assert(bytes@ =~= seq![op_byte]);
            }
        } else {
            let o1: u8 = match bus.read(self.pc.wrapping_add(1)) {
                Ok(v) => v,
                Err(e) => return Err(e),
            };
            bytes.push(o1);
            if n == 1 {
                proof {
                    assert(bytes@ =~= seq![op_byte, o1]);
                }
            } else {
                let o2: u8 = match bus.read(self.pc.wrapping_add(2)) {
                    Ok(v) => v,
                    Err(e) => return Err(e),
                };
                bytes.push(o2);
                proof {
                    assert(bytes@ =~= seq![op_byte, o1, o2]);
                }
            }
        }
        let status: u8 = self.pack_status(self.f_b, self.f_u);
        let line: Vec<u8> = build_trace_line(
            self.pc,
            &bytes,
            instruction.opcode,
            self.r_a,
            self.r_x,
            self.r_y,
            status,
            self.sp,
        );
        self.trace_log.push(line);
        proof {
            assert(self.trace_log@.map_values(|t: Vec<u8>| t@) =~= old(self).trace_log@.map_values(
                |t: Vec<u8>| t@,
            ).push(line@));
        }
        Ok(())
    }

}

} // verus!
