//! Instruction-trace formatting.
//!
//! When tracing is enabled the CPU emits one ASCII line per fetched
//! instruction, in the layout used to diff against reference logs: the
//! pre-fetch program counter, the raw instruction bytes, the mnemonic, and
//! the register columns, all in uppercase hexadecimal. [`spec_trace_line`]
//! is the mathematical form of a line; the executable builder is proved to
//! produce exactly that byte sequence.

use vstd::prelude::*;

use crate::cpu_opcodes::Opcode;

verus! {

/// Uppercase hexadecimal digit for a nibble.
pub open spec fn spec_hex_digit(n: u8) -> u8 {
    if n < 10 {
        (0x30 + n) as u8
    } else {
        (0x37 + n) as u8
    }
}

/// Two uppercase hexadecimal digits of a byte.
pub open spec fn spec_hex2(v: u8) -> Seq<u8> {
    seq![spec_hex_digit(v / 16), spec_hex_digit(v % 16)]
}

/// Four uppercase hexadecimal digits of a 16-bit word.
pub open spec fn spec_hex4(v: u16) -> Seq<u8> {
    spec_hex2((v / 0x100) as u8) + spec_hex2((v % 0x100) as u8)
}

/// `n` ASCII spaces (none when `n` is negative).
pub open spec fn spec_spaces(n: int) -> Seq<u8> {
    Seq::new(
        if n <= 0 {
            0
        } else {
            n as nat
        },
        |i: int| 0x20u8,
    )
}

/// ASCII mnemonic of an opcode; the sentinel renders as `???`.
pub open spec fn spec_mnemonic(op: Opcode) -> Seq<u8> {
    match op {
        Opcode::NOP => seq![0x4E, 0x4F, 0x50],
        Opcode::BRK => seq![0x42, 0x52, 0x4B],
        Opcode::JSR => seq![0x4A, 0x53, 0x52],
        Opcode::RTI => seq![0x52, 0x54, 0x49],
        Opcode::RTS => seq![0x52, 0x54, 0x53],
        Opcode::JMP => seq![0x4A, 0x4D, 0x50],
        Opcode::JMPI => seq![0x4A, 0x4D, 0x50, 0x49],
        Opcode::PHP => seq![0x50, 0x48, 0x50],
        Opcode::PLP => seq![0x50, 0x4C, 0x50],
        Opcode::PHA => seq![0x50, 0x48, 0x41],
        Opcode::PLA => seq![0x50, 0x4C, 0x41],
        Opcode::DEY => seq![0x44, 0x45, 0x59],
        Opcode::DEX => seq![0x44, 0x45, 0x58],
        Opcode::TAY => seq![0x54, 0x41, 0x59],
        Opcode::INY => seq![0x49, 0x4E, 0x59],
        Opcode::INX => seq![0x49, 0x4E, 0x58],
        Opcode::CLC => seq![0x43, 0x4C, 0x43],
        Opcode::SEC => seq![0x53, 0x45, 0x43],
        Opcode::CLI => seq![0x43, 0x4C, 0x49],
        Opcode::SEI => seq![0x53, 0x45, 0x49],
        Opcode::TYA => seq![0x54, 0x59, 0x41],
        Opcode::CLV => seq![0x43, 0x4C, 0x56],
        Opcode::CLD => seq![0x43, 0x4C, 0x44],
        Opcode::SED => seq![0x53, 0x45, 0x44],
        Opcode::TXA => seq![0x54, 0x58, 0x41],
        Opcode::TXS => seq![0x54, 0x58, 0x53],
        Opcode::TAX => seq![0x54, 0x41, 0x58],
        Opcode::TSX => seq![0x54, 0x53, 0x58],
        Opcode::ADC => seq![0x41, 0x44, 0x43],
        Opcode::SBC => seq![0x53, 0x42, 0x43],
        Opcode::AND => seq![0x41, 0x4E, 0x44],
        Opcode::ORA => seq![0x4F, 0x52, 0x41],
        Opcode::EOR => seq![0x45, 0x4F, 0x52],
        Opcode::ASL => seq![0x41, 0x53, 0x4C],
        Opcode::LSR => seq![0x4C, 0x53, 0x52],
        Opcode::ROL => seq![0x52, 0x4F, 0x4C],
        Opcode::ROR => seq![0x52, 0x4F, 0x52],
        Opcode::BIT => seq![0x42, 0x49, 0x54],
        Opcode::LDA => seq![0x4C, 0x44, 0x41],
        Opcode::LDX => seq![0x4C, 0x44, 0x58],
        Opcode::LDY => seq![0x4C, 0x44, 0x59],
        Opcode::STA => seq![0x53, 0x54, 0x41],
        Opcode::STX => seq![0x53, 0x54, 0x58],
        Opcode::STY => seq![0x53, 0x54, 0x59],
        Opcode::CMP => seq![0x43, 0x4D, 0x50],
        Opcode::CPX => seq![0x43, 0x50, 0x58],
        Opcode::CPY => seq![0x43, 0x50, 0x59],
        Opcode::INC => seq![0x49, 0x4E, 0x43],
        Opcode::DEC => seq![0x44, 0x45, 0x43],
        Opcode::BCC => seq![0x42, 0x43, 0x43],
        Opcode::BCS => seq![0x42, 0x43, 0x53],
        Opcode::BEQ => seq![0x42, 0x45, 0x51],
        Opcode::BNE => seq![0x42, 0x4E, 0x45],
        Opcode::BMI => seq![0x42, 0x4D, 0x49],
        Opcode::BPL => seq![0x42, 0x50, 0x4C],
        Opcode::BVC => seq![0x42, 0x56, 0x43],
        Opcode::BVS => seq![0x42, 0x56, 0x53],
        Opcode::UnknownOperation => seq![0x3F, 0x3F, 0x3F],
    }
}

/// The raw instruction bytes as space-separated hexadecimal pairs.
pub open spec fn spec_byte_column(bytes: Seq<u8>) -> Seq<u8> {
    if bytes.len() <= 1 {
        spec_hex2(bytes[0])
    } else if bytes.len() == 2 {
        spec_hex2(bytes[0]) + spec_spaces(1) + spec_hex2(bytes[1])
    } else {
        spec_hex2(bytes[0]) + spec_spaces(1) + spec_hex2(bytes[1]) + spec_spaces(1) + spec_hex2(
            bytes[2],
        )
    }
}

/// One trace line: the pre-fetch program counter, the instruction bytes
/// padded to eight columns, the mnemonic right-aligned to four columns, the
/// whole head padded to 47 columns, then the register columns.
pub open spec fn spec_trace_line(
    pc: u16,
    bytes: Seq<u8>,
    op: Opcode,
    a: u8,
    x: u8,
    y: u8,
    p: u8,
    sp: u8,
) -> Seq<u8> {
    let byte_col = spec_byte_column(bytes);
    let mne = spec_mnemonic(op);
    let head = spec_hex4(pc) + spec_spaces(2) + byte_col + spec_spaces(8 - byte_col.len())
        + spec_spaces(1) + spec_spaces(4 - mne.len()) + mne;
    head + spec_spaces(47 - head.len()) + seq![0x20u8, 0x41, 0x3A] + spec_hex2(a) + seq![
        0x20u8,
        0x58,
        0x3A,
    ] + spec_hex2(x) + seq![0x20u8, 0x59, 0x3A] + spec_hex2(y) + seq![0x20u8, 0x50, 0x3A]
        + spec_hex2(p) + seq![0x20u8, 0x53, 0x50, 0x3A] + spec_hex2(sp)
}

/// Uppercase hexadecimal digit of a nibble.
fn hex_digit(n: u8) -> (r: u8)
    requires
        n < 16,
    ensures
        r == spec_hex_digit(n),
{
    if n < 10 {
        0x30 + n
    } else {
        0x37 + n
    }
}

/// Appends the two hexadecimal digits of a byte.
fn push_hex2(out: &mut Vec<u8>, v: u8)
    ensures
        final(out)@ == old(out)@ + spec_hex2(v),
{
    out.push(hex_digit(v / 16));
    out.push(hex_digit(v % 16));
    proof {
        assert(out@ =~= old(out)@ + spec_hex2(v));
    }
}

/// Appends the four hexadecimal digits of a 16-bit word.
fn push_hex4(out: &mut Vec<u8>, v: u16)
    ensures
        final(out)@ == old(out)@ + spec_hex4(v),
{
    push_hex2(out, (v / 0x100) as u8);
    push_hex2(out, (v % 0x100) as u8);
    proof {
        assert(out@ =~= old(out)@ + spec_hex4(v));
    }
}

/// Appends `n` spaces.
fn push_spaces(out: &mut Vec<u8>, n: usize)
    ensures
        final(out)@ == old(out)@ + spec_spaces(n as int),
{
    let mut i: usize = 0;
    while i < n
        invariant
            i <= n,
            out@ == old(out)@ + spec_spaces(i as int),
        decreases n - i,
    {
        out.push(0x20);
        proof {
            assert(old(out)@ + spec_spaces(i + 1 as int) =~= (old(out)@ + spec_spaces(i as int)).push(
                0x20u8,
            ));
        }
        i = i + 1;
    }
}

/// Appends three bytes.
fn push3(out: &mut Vec<u8>, b0: u8, b1: u8, b2: u8)
    ensures
        final(out)@ == old(out)@ + seq![b0, b1, b2],
{
    out.push(b0);
    out.push(b1);
    out.push(b2);
    proof {
        assert(out@ =~= old(out)@ + seq![b0, b1, b2]);
    }
}

/// Appends four bytes.
fn push4(out: &mut Vec<u8>, b0: u8, b1: u8, b2: u8, b3: u8)
    ensures
        final(out)@ == old(out)@ + seq![b0, b1, b2, b3],
{
    out.push(b0);
    out.push(b1);
    out.push(b2);
    out.push(b3);
    proof {
        assert(out@ =~= old(out)@ + seq![b0, b1, b2, b3]);
    }
}

/// Appends the ASCII mnemonic of an opcode.
fn push_mnemonic(out: &mut Vec<u8>, op: Opcode)
    ensures
        final(out)@ == old(out)@ + spec_mnemonic(op),
{
    match op {
        Opcode::NOP => push3(out, 0x4E, 0x4F, 0x50),
        Opcode::BRK => push3(out, 0x42, 0x52, 0x4B),
        Opcode::JSR => push3(out, 0x4A, 0x53, 0x52),
        Opcode::RTI => push3(out, 0x52, 0x54, 0x49),
        Opcode::RTS => push3(out, 0x52, 0x54, 0x53),
        Opcode::JMP => push3(out, 0x4A, 0x4D, 0x50),
        Opcode::JMPI => push4(out, 0x4A, 0x4D, 0x50, 0x49),
        Opcode::PHP => push3(out, 0x50, 0x48, 0x50),
        Opcode::PLP => push3(out, 0x50, 0x4C, 0x50),
        Opcode::PHA => push3(out, 0x50, 0x48, 0x41),
        Opcode::PLA => push3(out, 0x50, 0x4C, 0x41),
        Opcode::DEY => push3(out, 0x44, 0x45, 0x59),
        Opcode::DEX => push3(out, 0x44, 0x45, 0x58),
        Opcode::TAY => push3(out, 0x54, 0x41, 0x59),
        Opcode::INY => push3(out, 0x49, 0x4E, 0x59),
        Opcode::INX => push3(out, 0x49, 0x4E, 0x58),
        Opcode::CLC => push3(out, 0x43, 0x4C, 0x43),
        Opcode::SEC => push3(out, 0x53, 0x45, 0x43),
        Opcode::CLI => push3(out, 0x43, 0x4C, 0x49),
        Opcode::SEI => push3(out, 0x53, 0x45, 0x49),
        Opcode::TYA => push3(out, 0x54, 0x59, 0x41),
        Opcode::CLV => push3(out, 0x43, 0x4C, 0x56),
        Opcode::CLD => push3(out, 0x43, 0x4C, 0x44),
        Opcode::SED => push3(out, 0x53, 0x45, 0x44),
        Opcode::TXA => push3(out, 0x54, 0x58, 0x41),
        Opcode::TXS => push3(out, 0x54, 0x58, 0x53),
        Opcode::TAX => push3(out, 0x54, 0x41, 0x58),
        Opcode::TSX => push3(out, 0x54, 0x53, 0x58),
        Opcode::ADC => push3(out, 0x41, 0x44, 0x43),
        Opcode::SBC => push3(out, 0x53, 0x42, 0x43),
        Opcode::AND => push3(out, 0x41, 0x4E, 0x44),
        Opcode::ORA => push3(out, 0x4F, 0x52, 0x41),
        Opcode::EOR => push3(out, 0x45, 0x4F, 0x52),
        Opcode::ASL => push3(out, 0x41, 0x53, 0x4C),
        Opcode::LSR => push3(out, 0x4C, 0x53, 0x52),
        Opcode::ROL => push3(out, 0x52, 0x4F, 0x4C),
        Opcode::ROR => push3(out, 0x52, 0x4F, 0x52),
        Opcode::BIT => push3(out, 0x42, 0x49, 0x54),
        Opcode::LDA => push3(out, 0x4C, 0x44, 0x41),
        Opcode::LDX => push3(out, 0x4C, 0x44, 0x58),
        Opcode::LDY => push3(out, 0x4C, 0x44, 0x59),
        Opcode::STA => push3(out, 0x53, 0x54, 0x41),
        Opcode::STX => push3(out, 0x53, 0x54, 0x58),
        Opcode::STY => push3(out, 0x53, 0x54, 0x59),
        Opcode::CMP => push3(out, 0x43, 0x4D, 0x50),
        Opcode::CPX => push3(out, 0x43, 0x50, 0x58),
        Opcode::CPY => push3(out, 0x43, 0x50, 0x59),
        Opcode::INC => push3(out, 0x49, 0x4E, 0x43),
        Opcode::DEC => push3(out, 0x44, 0x45, 0x43),
        Opcode::BCC => push3(out, 0x42, 0x43, 0x43),
        Opcode::BCS => push3(out, 0x42, 0x43, 0x53),
        Opcode::BEQ => push3(out, 0x42, 0x45, 0x51),
        Opcode::BNE => push3(out, 0x42, 0x4E, 0x45),
        Opcode::BMI => push3(out, 0x42, 0x4D, 0x49),
        Opcode::BPL => push3(out, 0x42, 0x50, 0x4C),
        Opcode::BVC => push3(out, 0x42, 0x56, 0x43),
        Opcode::BVS => push3(out, 0x42, 0x56, 0x53),
        Opcode::UnknownOperation => push3(out, 0x3F, 0x3F, 0x3F),
    }
}

/// Builds one trace line over the given pre-fetch state: program counter,
/// raw instruction bytes (opcode plus operands), mnemonic and register
/// columns.
pub fn build_trace_line(
    pc: u16,
    bytes: &Vec<u8>,
    op: Opcode,
    a: u8,
    x: u8,
    y: u8,
    p: u8,
    sp: u8,
) -> (r: Vec<u8>)
    requires
        1 <= bytes@.len() <= 3,
    ensures
        r@ == spec_trace_line(pc, bytes@, op, a, x, y, p, sp),
{
    let mut out: Vec<u8> = Vec::new();
    push_hex4(&mut out, pc);
    push_spaces(&mut out, 2);
    let byte_col_len: usize = if bytes.len() == 1 {
        push_hex2(&mut out, bytes[0]);
        2
    } else if bytes.len() == 2 {
        push_hex2(&mut out, bytes[0]);
        push_spaces(&mut out, 1);
        push_hex2(&mut out, bytes[1]);
        5
    } else {
        push_hex2(&mut out, bytes[0]);
        push_spaces(&mut out, 1);
        push_hex2(&mut out, bytes[1]);
        push_spaces(&mut out, 1);
        push_hex2(&mut out, bytes[2]);
        8
    };
    proof {
        assert(out@ =~= spec_hex4(pc) + spec_spaces(2) + spec_byte_column(bytes@));
        assert(spec_byte_column(bytes@).len() == byte_col_len);
    }
    push_spaces(&mut out, 8 - byte_col_len);
    push_spaces(&mut out, 1);
    let mne_len: usize = if matches!(op, Opcode::JMPI) {
        4
    } else {
        3
    };
    push_spaces(&mut out, 4 - mne_len);
    push_mnemonic(&mut out, op);
    let ghost head = spec_hex4(pc) + spec_spaces(2) + spec_byte_column(bytes@) + spec_spaces(
        8 - spec_byte_column(bytes@).len(),
    ) + spec_spaces(1) + spec_spaces(4 - spec_mnemonic(op).len()) + spec_mnemonic(op);
    proof {
        assert(spec_mnemonic(op).len() == mne_len);
        assert(out@ =~= head);
    }
    let head_len: usize = out.len();
    push_spaces(&mut out, if head_len < 47 {
        47 - head_len
    } else {
        0
    });
    proof {
        assert(out@ =~= head + spec_spaces(47 - head.len()));
    }
    push3(&mut out, 0x20, 0x41, 0x3A);
    push_hex2(&mut out, a);
    push3(&mut out, 0x20, 0x58, 0x3A);
    push_hex2(&mut out, x);
    push3(&mut out, 0x20, 0x59, 0x3A);
    push_hex2(&mut out, y);
    push3(&mut out, 0x20, 0x50, 0x3A);
    push_hex2(&mut out, p);
    push4(&mut out, 0x20, 0x53, 0x50, 0x3A);
    push_hex2(&mut out, sp);
    proof {
        assert(out@ =~= head + spec_spaces(47 - head.len()) + seq![0x20u8, 0x41, 0x3A] + spec_hex2(
            a,
        ) + seq![0x20u8, 0x58, 0x3A] + spec_hex2(x) + seq![0x20u8, 0x59, 0x3A] + spec_hex2(y)
            + seq![0x20u8, 0x50, 0x3A] + spec_hex2(p) + seq![0x20u8, 0x53, 0x50, 0x3A] + spec_hex2(
            sp,
        ));
        assert(out@ == spec_trace_line(pc, bytes@, op, a, x, y, p, sp));
    }
    out
}

} // verus!
