//! The CPU's driver tick.
//!
//! One [`CPU::step`] call advances guest time by one cycle: it either burns
//! one deferred cycle of the last instruction's budget or fetches, decodes
//! and executes the next instruction. [`spec_step`] is the tick in
//! mathematical form, split as the tick itself splits: [`spec_step_work`]
//! is the fetch-decode-execute part reached when no cycles are owed. The
//! lemmas spell the outcome out case by case and carry the correspondence
//! proof for the executable code.

use vstd::prelude::*;

use crate::bus::Bus;
use crate::bus::BusView;
use crate::bus::spec_bus_read;
use crate::cpu::CPU;
use crate::cpu::CpuView;
use crate::cpu::spec_execute;
use crate::cpu::spec_trace;
use crate::cpu_opcodes::Instruction;
use crate::cpu_opcodes::Opcode;
use crate::cpu_opcodes::lemma_decode_cycles;
use crate::cpu_opcodes::spec_decode;
use crate::errors::EmuError;

verus! {

/// The working part of a tick, reached when no cycles are owed: fetch and
/// decode the opcode at the program counter (failing with `BadOpcode` on a
/// byte outside the table), emit a trace line when tracing is on, execute
/// the instruction, and defer the rest of its cycle budget into
/// `skip_cycles`.
#[verifier::opaque]
pub open spec fn spec_step_work(c0: CpuView, b: BusView) -> (CpuView, BusView, Result<
    (),
    EmuError,
>) {
    let (b1, r0) = spec_bus_read(b, c0.pc);
    match r0 {
        Err(e) => (c0, b1, Err(e)),
        Ok(op_byte) => {
            let instr = spec_decode(op_byte);
            if instr.opcode == Opcode::UnknownOperation {
                (c0, b1, Err(EmuError::BadOpcode(op_byte)))
            } else {
                let (c2, b2, tr) = if c0.trace_enabled {
                    spec_trace(c0, b1)
                } else {
                    (c0, b1, Ok(()))
                };
                match tr {
                    Err(e) => (c2, b2, Err(e)),
                    Ok(_) => {
                        let c3 = CpuView { pc: c2.pc.wrapping_add(1), ..c2 };
                        let (c4, b4, er) = spec_execute(c3, b2, instr);
                        match er {
                            Err(e) => (c4, b4, Err(e)),
                            Ok(total) => (
                                CpuView { skip_cycles: ((total - 1) as u8), ..c4 },
                                b4,
                                Ok(()),
                            ),
                        }
                    },
                }
            }
        },
    }
}

/// One driver tick: the cycle count always advances by one; while stalling
/// that is all, except that one owed cycle is paid off; otherwise the tick
/// does the working part above.
#[verifier::opaque]
pub open spec fn spec_step(c: CpuView, b: BusView) -> (CpuView, BusView, Result<(), EmuError>) {
    let c0 = CpuView { cycles: c.cycles.wrapping_add(1), ..c };
    if c.skip_cycles > 0 {
        (CpuView { skip_cycles: ((c.skip_cycles - 1) as u8), ..c0 }, b, Ok(()))
    } else {
        spec_step_work(c0, b)
    }
}

/// While stalling, a tick burns one deferred cycle and touches nothing
/// else.
proof fn lemma_step_skip(c: CpuView, b: BusView)
    requires
        c.skip_cycles > 0,
    ensures
        spec_step(c, b) == (
            CpuView {
                cycles: c.cycles.wrapping_add(1),
                skip_cycles: ((c.skip_cycles - 1) as u8),
                ..c
            },
            b,
            Ok::<(), EmuError>(()),
        ),
{
    reveal(spec_step);
}

/// A tick that owes no cycles does the working part over the state with
/// the cycle count advanced.
proof fn lemma_step_unskip(c: CpuView, b: BusView)
    requires
        c.skip_cycles == 0,
    ensures
        spec_step(c, b) == spec_step_work(CpuView { cycles: c.cycles.wrapping_add(1), ..c }, b),
{
    reveal(spec_step);
}

/// A working part whose opcode fetch faults stops there.
proof fn lemma_work_fetch_err(c0: CpuView, b: BusView, b1: BusView, e: EmuError)
    requires
        spec_bus_read(b, c0.pc).0 == b1,
        spec_bus_read(b, c0.pc).1 == Err::<u8, EmuError>(e),
    ensures
        spec_step_work(c0, b) == (c0, b1, Err::<(), EmuError>(e)),
{
    reveal(spec_step_work);
}

/// A working part that fetches a byte outside the decode table faults
/// with `BadOpcode`.
proof fn lemma_work_bad_opcode(c0: CpuView, b: BusView, b1: BusView, op_byte: u8)
    requires
        spec_bus_read(b, c0.pc).0 == b1,
        spec_bus_read(b, c0.pc).1 == Ok::<u8, EmuError>(op_byte),
        spec_decode(op_byte).opcode == Opcode::UnknownOperation,
    ensures
        spec_step_work(c0, b) == (c0, b1, Err::<(), EmuError>(EmuError::BadOpcode(op_byte))),
{
    reveal(spec_step_work);
}

/// A working part whose trace emission faults stops there.
proof fn lemma_work_trace_err(
    c0: CpuView,
    b: BusView,
    b1: BusView,
    op_byte: u8,
    c2: CpuView,
    b2: BusView,
    e: EmuError,
)
    requires
        c0.trace_enabled,
        spec_bus_read(b, c0.pc).0 == b1,
        spec_bus_read(b, c0.pc).1 == Ok::<u8, EmuError>(op_byte),
        spec_decode(op_byte).opcode != Opcode::UnknownOperation,
        spec_trace(c0, b1).0 == c2,
        spec_trace(c0, b1).1 == b2,
        spec_trace(c0, b1).2 == Err::<(), EmuError>(e),
    ensures
        spec_step_work(c0, b) == (c2, b2, Err::<(), EmuError>(e)),
{
    reveal(spec_step_work);
}

/// A working part that reaches the executor: the executor's outcome
/// decides the tick's, and on success the rest of the cycle budget is
/// deferred.
proof fn lemma_work_execute(
    c0: CpuView,
    b: BusView,
    b1: BusView,
    op_byte: u8,
    c2: CpuView,
    b2: BusView,
)
    requires
        spec_bus_read(b, c0.pc).0 == b1,
        spec_bus_read(b, c0.pc).1 == Ok::<u8, EmuError>(op_byte),
        spec_decode(op_byte).opcode != Opcode::UnknownOperation,
        c0.trace_enabled ==> spec_trace(c0, b1).0 == c2,
        c0.trace_enabled ==> spec_trace(c0, b1).1 == b2,
        c0.trace_enabled ==> spec_trace(c0, b1).2 == Ok::<(), EmuError>(()),
        !c0.trace_enabled ==> c2 == c0 && b2 == b1,
    ensures
        ({
            let (c4, b4, er) = spec_execute(
                CpuView { pc: c2.pc.wrapping_add(1), ..c2 },
                b2,
                spec_decode(op_byte),
            );
            spec_step_work(c0, b) == match er {
                Err(e) => (c4, b4, Err::<(), EmuError>(e)),
                Ok(total) => (
                    CpuView { skip_cycles: ((total - 1) as u8), ..c4 },
                    b4,
                    Ok::<(), EmuError>(()),
                ),
            }
        }),
{
    reveal(spec_step_work);
}

impl CPU {
    /// The tail of a tick: advances the program counter past the opcode
    /// byte, executes the decoded instruction and defers the remainder of
    /// its cycle budget.
    #[verifier::rlimit(100)]
    #[verifier::spinoff_prover]
    fn step_execute_phase(
        &mut self,
        bus: &mut Bus,
        instruction: &Instruction,
        Ghost(op_byte): Ghost<u8>,
    ) -> (r: Result<(), EmuError>)
        requires
            old(bus)@.wf(),
            *instruction == spec_decode(op_byte),
            instruction.opcode != Opcode::UnknownOperation,
        ensures
            ({
                let (c4, b4, er) = spec_execute(
                    CpuView { pc: old(self)@.pc.wrapping_add(1), ..old(self)@ },
                    old(bus)@,
                    spec_decode(op_byte),
                );
                match er {
                    Err(e) => final(self)@ == c4 && final(bus)@ == b4 && r == Err::<(), EmuError>(
                        e,
                    ),
                    Ok(total) => final(self)@ == (CpuView {
                        skip_cycles: ((total - 1) as u8),
                        ..c4
                    }) && final(bus)@ == b4 && r == Ok::<(), EmuError>(()),
                }
            }),
            final(bus)@.wf(),
    {
        proof {
            lemma_decode_cycles(op_byte);
        }
        self.pc = self.pc.wrapping_add(1);
        let wait_cycles: u8 = match self.execute_instruction(instruction, bus) {
            Ok(v) => v,
            Err(e) => {
                return Err(e);
            },
        };
        self.skip_cycles = wait_cycles - 1;
        Ok(())
    }

    /// The working part of a tick: fetches, decodes and executes one
    /// instruction, emitting a trace line first when tracing is on, and
    /// defers the remainder of the instruction's cycle budget.
    #[verifier::rlimit(100)]
    #[verifier::spinoff_prover]
    fn step_work(&mut self, bus: &mut Bus) -> (r: Result<(), EmuError>)
        requires
            old(bus)@.wf(),
        ensures
            ({
                let (c, b, v) = spec_step_work(old(self)@, old(bus)@);
                final(self)@ == c && final(bus)@ == b && r == v
            }),
            final(bus)@.wf(),
    {
        let op_byte: u8 = match bus.read(self.pc) {
            Ok(v) => v,
            Err(e) => {
                proof {
                    lemma_work_fetch_err(old(self)@, old(bus)@, bus@, e);
                }
                return Err(e);
            },
        };
        let instruction: Instruction = Instruction::from_u8(op_byte);
        if instruction.opcode == Opcode::UnknownOperation {
            proof {
                lemma_work_bad_opcode(old(self)@, old(bus)@, bus@, op_byte);
            }
            return Err(EmuError::BadOpcode(op_byte));
        }
        proof {
            lemma_decode_cycles(op_byte);
        }
        let ghost b1 = bus@;
        if self.trace_enabled {
            let traced: () = match self.trace(bus) {
                Ok(v) => v,
                Err(e) => {
                    proof {
                        lemma_work_trace_err(old(self)@, old(bus)@, b1, op_byte, self@, bus@, e);
                    }
                    return Err(e);
                },
            };
        }
        let ghost c2 = self@;
        let ghost b2 = bus@;
        let r: Result<(), EmuError> = self.step_execute_phase(bus, &instruction, Ghost(op_byte));
        proof {
            lemma_work_execute(old(self)@, old(bus)@, b1, op_byte, c2, b2);
        }
        r
    }

    /// One driver tick. While stalling this only burns one deferred cycle;
    /// otherwise it fetches, decodes and executes one instruction, emitting
    /// a trace line first when tracing is on, and defers the remainder of
    /// the instruction's cycle budget.
    pub fn step(&mut self, bus: &mut Bus) -> (r: Result<(), EmuError>)
        requires
            old(bus)@.wf(),
        ensures
            ({
                let (c, b, v) = spec_step(old(self)@, old(bus)@);
                final(self)@ == c && final(bus)@ == b && r == v
            }),
            final(bus)@.wf(),
    {
        self.cycles = self.cycles.wrapping_add(1);
        if self.skip_cycles > 0 {
            self.skip_cycles = self.skip_cycles - 1;
            proof {
                lemma_step_skip(old(self)@, old(bus)@);
            }
            return Ok(());
        }
        proof {
            lemma_step_unskip(old(self)@, old(bus)@);
        }
        self.step_work(bus)
    }
}

} // verus!
