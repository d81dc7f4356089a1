//! The mathematical model of the processor: one step as a function from
//! registers, interrupt lines and memory to their next values.
use crate::address_mode::AddressMode;
use crate::decode::opcode_spec;
use crate::error::CpuError;
use crate::instruction::Instruction;
use crate::register::{
    flag, with_flag, with_zn, Register, BREAK, CARRY, DECIMAL, INTERRUPT_DISABLE, NEGATIVE,
    OVERFLOW, UNUSED, ZERO,
};
use vstd::prelude::*;

verus! {

/// Base of the stack page.
pub const STACK_PAGE: u16 = 0x0100;
/// Where the NMI handler's address is stored.
pub const NMI_VECTOR: u16 = 0xFFFA;
/// Where the reset handler's address is stored.
pub const RESET_VECTOR: u16 = 0xFFFC;
/// Where the IRQ and BRK handler's address is stored.
pub const IRQ_VECTOR: u16 = 0xFFFE;

/// Where an instruction's operand lives once its addressing mode is resolved.
#[derive(Copy, Clone, Debug, PartialEq, Eq, Structural)]
pub enum Operand {
    Accumulator,
    Implied,
    Memory(u16),
}

/// `a + k`, wrapping within the 16-bit address space.
pub open spec fn add16(a: u16, k: int) -> u16 {
    ((a as int + k) % 65536) as u16
}

/// The page (high byte) of an address.
pub open spec fn page(a: u16) -> int {
    a as int / 256
}

/// The little-endian word made of `lo` and `hi`.
pub open spec fn word(lo: u8, hi: u8) -> u16 {
    (hi as int * 256 + lo as int) as u16
}

/// The little-endian word stored at `a` and `a + 1`.
pub open spec fn read_word(mem: Seq<u8>, a: u16) -> u16 {
    word(mem[a as int], mem[add16(a, 1) as int])
}

/// The word stored at zero-page address `z` and `z + 1`, the second byte
/// wrapping within the zero page.
pub open spec fn zero_page_word(mem: Seq<u8>, z: u8) -> u16 {
    word(mem[z as int], mem[(z as int + 1) % 256])
}

/// The address that an indirect jump takes its high byte from: the byte
/// after `ptr`, but within the same page, as the original silicon does.
pub open spec fn indirect_high(ptr: u16) -> u16 {
    (page(ptr) * 256 + (ptr as int % 256 + 1) % 256) as u16
}

/// The memory address of stack slot `sp`.
pub open spec fn stack_addr(sp: u8) -> u16 {
    (STACK_PAGE as int + sp as int) as u16
}

/// Pushes `v`: stores it at the current slot, then moves the stack pointer down.
pub open spec fn push_spec(reg: Register, mem: Seq<u8>, v: u8) -> (Register, Seq<u8>) {
    (
        Register { stack_pointer: ((reg.stack_pointer as int + 255) % 256) as u8, ..reg },
        mem.update(stack_addr(reg.stack_pointer) as int, v),
    )
}

/// Pulls a byte: moves the stack pointer up, then reads that slot.
pub open spec fn pull_spec(reg: Register, mem: Seq<u8>) -> (Register, u8) {
    let sp = ((reg.stack_pointer as int + 1) % 256) as u8;
    (Register { stack_pointer: sp, ..reg }, mem[stack_addr(sp) as int])
}

/// Resolves `mode` with the program counter at the first operand byte:
/// the program counter after the operand, the operand, and whether
/// indexing or branching crossed a page.
pub open spec fn resolve_spec(mode: AddressMode, reg: Register, mem: Seq<u8>) -> (u16, Operand, bool) {
    let pc = reg.program_counter;
    let b = mem[pc as int];
    match mode {
        AddressMode::Accumulator => (pc, Operand::Accumulator, false),
        AddressMode::Implied => (pc, Operand::Implied, false),
        AddressMode::Immediate => (add16(pc, 1), Operand::Memory(pc), false),
        AddressMode::ZeroPage => (add16(pc, 1), Operand::Memory(b as u16), false),
        AddressMode::ZeroPageX => (
            add16(pc, 1),
            Operand::Memory(((b as int + reg.x as int) % 256) as u16),
            false,
        ),
        AddressMode::ZeroPageY => (
            add16(pc, 1),
            Operand::Memory(((b as int + reg.y as int) % 256) as u16),
            false,
        ),
        AddressMode::Relative => {
            let next = add16(pc, 1);
            let target = if b < 128 {
                add16(next, b as int)
            } else {
                add16(next, b as int - 256)
            };
            (next, Operand::Memory(target), page(next) != page(target))
        },
        AddressMode::Absolute => (add16(pc, 2), Operand::Memory(read_word(mem, pc)), false),
        AddressMode::AbsoluteX => {
            let base = read_word(mem, pc);
            let a = add16(base, reg.x as int);
            (add16(pc, 2), Operand::Memory(a), page(base) != page(a))
        },
        AddressMode::AbsoluteY => {
            let base = read_word(mem, pc);
            let a = add16(base, reg.y as int);
            (add16(pc, 2), Operand::Memory(a), page(base) != page(a))
        },
        AddressMode::Indirect => {
            let ptr = read_word(mem, pc);
            (
                add16(pc, 2),
                Operand::Memory(word(mem[ptr as int], mem[indirect_high(ptr) as int])),
                false,
            )
        },
        AddressMode::IndirectX => (
            add16(pc, 1),
            Operand::Memory(zero_page_word(mem, ((b as int + reg.x as int) % 256) as u8)),
            false,
        ),
        AddressMode::IndirectY => {
            let base = zero_page_word(mem, b);
            let a = add16(base, reg.y as int);
            (add16(pc, 1), Operand::Memory(a), page(base) != page(a))
        },
    }
}

/// The value an instruction reads from `operand`.
pub open spec fn operand_value(operand: Operand, reg: Register, mem: Seq<u8>) -> u8 {
    match operand {
        Operand::Accumulator => reg.accumulator,
        Operand::Memory(a) => mem[a as int],
        Operand::Implied => 0,
    }
}

/// Stores `v` where `operand` lives.
pub open spec fn store_spec(operand: Operand, reg: Register, mem: Seq<u8>, v: u8) -> (Register, Seq<u8>) {
    match operand {
        Operand::Accumulator => (Register { accumulator: v, ..reg }, mem),
        Operand::Memory(a) => (reg, mem.update(a as int, v)),
        Operand::Implied => (reg, mem),
    }
}

/// Binary add with carry: the 8-bit result, the carry out (unsigned
/// overflow) and the overflow flag (both inputs of one sign, the result of
/// the other).
pub open spec fn adc_spec(a: u8, m: u8, c: bool) -> (u8, bool, bool) {
    let sum = a as int + m as int + (if c { 1int } else { 0int });
    let r = (sum % 256) as u8;
    (r, sum > 255, (a < 128) == (m < 128) && (r < 128) != (a < 128))
}

/// Subtract with borrow is add with carry of the operand's complement.
pub open spec fn sbc_spec(a: u8, m: u8, c: bool) -> (u8, bool, bool) {
    adc_spec(a, (255 - m) as u8, c)
}

/// Decimal add with carry, as the NMOS part computes it: the BCD result, the
/// carry out, and Overflow, Negative and Zero. Zero comes from the binary
/// sum; Overflow and Negative from the high digit before its adjustment.
pub open spec fn adc_decimal_spec(a: u8, m: u8, c: bool) -> (u8, bool, bool, bool, bool) {
    let cin: int = if c { 1 } else { 0 };
    let lo0 = a as int % 16 + m as int % 16 + cin;
    let lo = if lo0 > 9 { lo0 + 6 } else { lo0 };
    let hi0 = a as int / 16 + m as int / 16 + (if lo > 15 { 1int } else { 0int });
    let unadjusted = ((hi0 % 16) * 16) as u8;
    let hi = if hi0 > 9 { hi0 + 6 } else { hi0 };
    (
        ((hi % 16) * 16 + lo % 16) as u8,
        hi > 15,
        (a < 128) == (m < 128) && (unadjusted < 128) != (a < 128),
        unadjusted >= 128,
        (a as int + m as int + cin) % 256 == 0,
    )
}

/// Decimal subtract with borrow: the BCD result. The flags are those of the
/// binary subtraction.
pub open spec fn sbc_decimal_spec(a: u8, m: u8, c: bool) -> u8 {
    let borrow: int = if c { 0 } else { 1 };
    let lo0 = a as int % 16 - m as int % 16 - borrow;
    let hi0 = a as int / 16 - m as int / 16 - (if lo0 < 0 { 1int } else { 0int });
    let lo = if lo0 < 0 { lo0 - 6 } else { lo0 };
    let hi = if hi0 < 0 { hi0 - 6 } else { hi0 };
    ((hi % 16) * 16 + lo % 16) as u8
}

/// Flags after comparing register value `r` with `m`.
pub open spec fn compare_spec(s: u8, r: u8, m: u8) -> u8 {
    with_flag(
        with_flag(with_flag(s, CARRY, r >= m), ZERO, r == m),
        NEGATIVE,
        (r as int - m as int + 256) % 256 >= 128,
    )
}

/// Result and carry out of a shift or rotate of `v` with carry-in `c`.
pub open spec fn shift_spec(ins: Instruction, v: u8, c: bool) -> (u8, bool) {
    let cin: int = if c { 1 } else { 0 };
    match ins {
        Instruction::ASL => (((v as int * 2) % 256) as u8, v >= 128),
        Instruction::LSR => ((v / 2) as u8, v % 2 == 1),
        Instruction::ROL => (((v as int * 2 + cin) % 256) as u8, v >= 128),
        _ => ((v as int / 2 + cin * 128) as u8, v % 2 == 1),
    }
}

/// Whether a branch instruction takes its branch under status `s`.
pub open spec fn taken_spec(ins: Instruction, s: u8) -> bool {
    match ins {
        Instruction::BCC => !flag(s, CARRY),
        Instruction::BCS => flag(s, CARRY),
        Instruction::BEQ => flag(s, ZERO),
        Instruction::BNE => !flag(s, ZERO),
        Instruction::BMI => flag(s, NEGATIVE),
        Instruction::BPL => !flag(s, NEGATIVE),
        Instruction::BVS => flag(s, OVERFLOW),
        Instruction::BVC => !flag(s, OVERFLOW),
        _ => false,
    }
}

/// The conditional branches.
pub open spec fn is_branch(ins: Instruction) -> bool {
    match ins {
        Instruction::BCC | Instruction::BCS | Instruction::BEQ | Instruction::BNE
        | Instruction::BMI | Instruction::BPL | Instruction::BVS | Instruction::BVC => true,
        _ => false,
    }
}

/// Instructions that spend one more cycle when indexing crosses a page.
pub open spec fn pays_page_cross(ins: Instruction) -> bool {
    match ins {
        Instruction::ADC | Instruction::AND | Instruction::CMP | Instruction::EOR
        | Instruction::LDA | Instruction::LDX | Instruction::LDY | Instruction::ORA
        | Instruction::SBC => true,
        _ => false,
    }
}

/// Cycles spent beyond the decode table's base count: a taken branch costs
/// one more and one more again when its target is on another page; a read
/// through an index that crosses a page costs one more.
pub open spec fn extra_cycles_spec(ins: Instruction, crossed: bool, taken: bool) -> int {
    if is_branch(ins) {
        if taken {
            if crossed { 2 } else { 1 }
        } else {
            0
        }
    } else if pays_page_cross(ins) && crossed {
        1
    } else {
        0
    }
}

/// Status as PLP and RTI restore it from a pulled byte: Break ignored, the
/// unused bit set.
pub open spec fn restored_status(v: u8) -> u8 {
    with_flag(with_flag(v, BREAK, false), UNUSED, true)
}

/// Pushes the program counter (high byte, then low) and `pushed` status,
/// sets InterruptDisable and jumps through `vector`.
pub open spec fn interrupt_spec(reg: Register, mem: Seq<u8>, vector: u16, pushed: u8) -> (Register, Seq<u8>) {
    let pc = reg.program_counter;
    let (r1, m1) = push_spec(reg, mem, (pc as int / 256) as u8);
    let (r2, m2) = push_spec(r1, m1, (pc as int % 256) as u8);
    let (r3, m3) = push_spec(r2, m2, pushed);
    (
        Register {
            program_counter: read_word(m3, vector),
            status: with_flag(reg.status, INTERRUPT_DISABLE, true),
            ..r3
        },
        m3,
    )
}

/// The status copy that a hardware interrupt pushes: Break clear.
pub open spec fn hardware_pushed_status(s: u8) -> u8 {
    with_flag(with_flag(s, BREAK, false), UNUSED, true)
}

/// The status copy that BRK and PHP push: Break set.
pub open spec fn software_pushed_status(s: u8) -> u8 {
    with_flag(with_flag(s, BREAK, true), UNUSED, true)
}

/// What `ins` does to registers and memory, the program counter already past
/// its operand.
///
/// `decimal` tells whether this processor honours the Decimal flag in ADC
/// and SBC; the console's part does not.
#[verifier::opaque]
pub open spec fn execute_spec(
    ins: Instruction,
    operand: Operand,
    reg: Register,
    mem: Seq<u8>,
    decimal: bool,
) -> (Register, Seq<u8>) {
    let v = operand_value(operand, reg, mem);
    let s = reg.status;
    let c = flag(s, CARRY);
    match ins {
        Instruction::LDA => (Register { accumulator: v, status: with_zn(s, v), ..reg }, mem),
        Instruction::LDX => (Register { x: v, status: with_zn(s, v), ..reg }, mem),
        Instruction::LDY => (Register { y: v, status: with_zn(s, v), ..reg }, mem),
        Instruction::STA => store_spec(operand, reg, mem, reg.accumulator),
        Instruction::STX => store_spec(operand, reg, mem, reg.x),
        Instruction::STY => store_spec(operand, reg, mem, reg.y),
        Instruction::TAX => (Register { x: reg.accumulator, status: with_zn(s, reg.accumulator), ..reg }, mem),
        Instruction::TAY => (Register { y: reg.accumulator, status: with_zn(s, reg.accumulator), ..reg }, mem),
        Instruction::TXA => (Register { accumulator: reg.x, status: with_zn(s, reg.x), ..reg }, mem),
        Instruction::TYA => (Register { accumulator: reg.y, status: with_zn(s, reg.y), ..reg }, mem),
        Instruction::TSX => (Register { x: reg.stack_pointer, status: with_zn(s, reg.stack_pointer), ..reg }, mem),
        Instruction::TXS => (Register { stack_pointer: reg.x, ..reg }, mem),
        Instruction::PHA => push_spec(reg, mem, reg.accumulator),
        Instruction::PHP => push_spec(reg, mem, software_pushed_status(s)),
        Instruction::PLA => {
            let (r1, p) = pull_spec(reg, mem);
            (Register { accumulator: p, status: with_zn(s, p), ..r1 }, mem)
        },
        Instruction::PLP => {
            let (r1, p) = pull_spec(reg, mem);
            (Register { status: restored_status(p), ..r1 }, mem)
        },
        Instruction::AND => {
            let r = reg.accumulator & v;
            (Register { accumulator: r, status: with_zn(s, r), ..reg }, mem)
        },
        Instruction::EOR => {
            let r = reg.accumulator ^ v;
            (Register { accumulator: r, status: with_zn(s, r), ..reg }, mem)
        },
        Instruction::ORA => {
            let r = reg.accumulator | v;
            (Register { accumulator: r, status: with_zn(s, r), ..reg }, mem)
        },
        Instruction::BIT => {
            let st = with_flag(
                with_flag(with_flag(s, ZERO, reg.accumulator & v == 0), OVERFLOW, flag(v, OVERFLOW)),
                NEGATIVE,
                flag(v, NEGATIVE),
            );
            (Register { status: st, ..reg }, mem)
        },
        Instruction::ADC => if decimal && flag(s, DECIMAL) {
            let (r, cout, ov, neg, z) = adc_decimal_spec(reg.accumulator, v, c);
            let st = with_flag(
                with_flag(with_flag(with_flag(s, CARRY, cout), OVERFLOW, ov), ZERO, z),
                NEGATIVE,
                neg,
            );
            (Register { accumulator: r, status: st, ..reg }, mem)
        } else {
            let (r, cout, ov) = adc_spec(reg.accumulator, v, c);
            let st = with_zn(with_flag(with_flag(s, CARRY, cout), OVERFLOW, ov), r);
            (Register { accumulator: r, status: st, ..reg }, mem)
        },
        Instruction::SBC => {
            let (r, cout, ov) = sbc_spec(reg.accumulator, v, c);
            let st = with_zn(with_flag(with_flag(s, CARRY, cout), OVERFLOW, ov), r);
            let acc = if decimal && flag(s, DECIMAL) {
                sbc_decimal_spec(reg.accumulator, v, c)
            } else {
                r
            };
            (Register { accumulator: acc, status: st, ..reg }, mem)
        },
        Instruction::CMP => (Register { status: compare_spec(s, reg.accumulator, v), ..reg }, mem),
        Instruction::CPX => (Register { status: compare_spec(s, reg.x, v), ..reg }, mem),
        Instruction::CPY => (Register { status: compare_spec(s, reg.y, v), ..reg }, mem),
        Instruction::INC => {
            let r = ((v as int + 1) % 256) as u8;
            store_spec(operand, Register { status: with_zn(s, r), ..reg }, mem, r)
        },
        Instruction::DEC => {
            let r = ((v as int + 255) % 256) as u8;
            store_spec(operand, Register { status: with_zn(s, r), ..reg }, mem, r)
        },
        Instruction::INX => {
            let r = ((reg.x as int + 1) % 256) as u8;
            (Register { x: r, status: with_zn(s, r), ..reg }, mem)
        },
        Instruction::INY => {
            let r = ((reg.y as int + 1) % 256) as u8;
            (Register { y: r, status: with_zn(s, r), ..reg }, mem)
        },
        Instruction::DEX => {
            let r = ((reg.x as int + 255) % 256) as u8;
            (Register { x: r, status: with_zn(s, r), ..reg }, mem)
        },
        Instruction::DEY => {
            let r = ((reg.y as int + 255) % 256) as u8;
            (Register { y: r, status: with_zn(s, r), ..reg }, mem)
        },
        Instruction::ASL | Instruction::LSR | Instruction::ROL | Instruction::ROR => {
            let (r, cout) = shift_spec(ins, v, c);
            store_spec(operand, Register { status: with_zn(with_flag(s, CARRY, cout), r), ..reg }, mem, r)
        },
        Instruction::JMP => match operand {
            Operand::Memory(a) => (Register { program_counter: a, ..reg }, mem),
            _ => (reg, mem),
        },
        Instruction::JSR => match operand {
            Operand::Memory(a) => {
                let ret = add16(reg.program_counter, -1);
                let (r1, m1) = push_spec(reg, mem, (ret as int / 256) as u8);
                let (r2, m2) = push_spec(r1, m1, (ret as int % 256) as u8);
                (Register { program_counter: a, ..r2 }, m2)
            },
            _ => (reg, mem),
        },
        Instruction::RTS => {
            let (r1, lo) = pull_spec(reg, mem);
            let (r2, hi) = pull_spec(r1, mem);
            (Register { program_counter: add16(word(lo, hi), 1), ..r2 }, mem)
        },
        Instruction::RTI => {
            let (r1, p) = pull_spec(reg, mem);
            let (r2, lo) = pull_spec(r1, mem);
            let (r3, hi) = pull_spec(r2, mem);
            (Register { program_counter: word(lo, hi), status: restored_status(p), ..r3 }, mem)
        },
        Instruction::BRK => interrupt_spec(
            Register { program_counter: add16(reg.program_counter, 1), ..reg },
            mem,
            IRQ_VECTOR,
            software_pushed_status(s),
        ),
        Instruction::BCC | Instruction::BCS | Instruction::BEQ | Instruction::BNE
        | Instruction::BMI | Instruction::BPL | Instruction::BVS | Instruction::BVC => match operand {
            Operand::Memory(target) => if taken_spec(ins, s) {
                (Register { program_counter: target, ..reg }, mem)
            } else {
                (reg, mem)
            },
            _ => (reg, mem),
        },
        Instruction::CLC => (Register { status: with_flag(s, CARRY, false), ..reg }, mem),
        Instruction::CLD => (Register { status: with_flag(s, DECIMAL, false), ..reg }, mem),
        Instruction::CLI => (Register { status: with_flag(s, INTERRUPT_DISABLE, false), ..reg }, mem),
        Instruction::CLV => (Register { status: with_flag(s, OVERFLOW, false), ..reg }, mem),
        Instruction::SEC => (Register { status: with_flag(s, CARRY, true), ..reg }, mem),
        Instruction::SED => (Register { status: with_flag(s, DECIMAL, true), ..reg }, mem),
        Instruction::SEI => (Register { status: with_flag(s, INTERRUPT_DISABLE, true), ..reg }, mem),
        Instruction::NOP => (reg, mem),
    }
}

/// The registers, the pending NMI and IRQ lines and memory after one step,
/// with what the step reports.
///
/// A pending NMI is serviced first, then a pending IRQ unless
/// InterruptDisable is set; each takes seven cycles. Otherwise the opcode
/// at the program counter is fetched and decoded; an unmapped one changes
/// nothing and is reported with its address.
pub open spec fn step_spec(reg: Register, nmi: bool, irq: bool, mem: Seq<u8>, decimal: bool) -> (
    Register,
    bool,
    bool,
    Seq<u8>,
    Result<u8, CpuError>,
) {
    if nmi {
        let (r, m) = interrupt_spec(reg, mem, NMI_VECTOR, hardware_pushed_status(reg.status));
        (r, false, irq, m, Ok(7))
    } else if irq && !flag(reg.status, INTERRUPT_DISABLE) {
        let (r, m) = interrupt_spec(reg, mem, IRQ_VECTOR, hardware_pushed_status(reg.status));
        (r, false, false, m, Ok(7))
    } else {
        let pc = reg.program_counter;
        let op = mem[pc as int];
        match opcode_spec(op) {
            None => (reg, nmi, irq, mem, Err(CpuError::UnmappedOpcode { opcode: op, program_counter: pc })),
            Some(e) => {
                let fetched = Register { program_counter: add16(pc, 1), ..reg };
                let (next_pc, operand, crossed) = resolve_spec(e.mode, fetched, mem);
                let resolved = Register { program_counter: next_pc, ..fetched };
                let (r, m) = execute_spec(e.instruction, operand, resolved, mem, decimal);
                let extra = extra_cycles_spec(e.instruction, crossed, taken_spec(e.instruction, reg.status));
                (r, nmi, irq, m, Ok((e.cycles as int + extra) as u8))
            },
        }
    }
}

} // verus!
