use crate::address_mode::AddressMode;
use crate::bus::Bus;
use crate::decode::DecodeTable;
use crate::error::CpuError;
use crate::instruction::Instruction;
use crate::register::{
    apply_flag, with_flag, Register, BREAK, CARRY, DECIMAL, INTERRUPT_DISABLE, NEGATIVE,
    OVERFLOW, UNUSED, ZERO,
};
use crate::semantics::{
    adc_decimal_spec, adc_spec, add16, compare_spec, execute_spec, extra_cycles_spec,
    hardware_pushed_status, indirect_high, interrupt_spec, operand_value, page, pull_spec,
    push_spec, read_word, resolve_spec, sbc_decimal_spec, sbc_spec, shift_spec,
    software_pushed_status, step_spec, store_spec, taken_spec, word, zero_page_word, Operand,
    IRQ_VECTOR, NMI_VECTOR, RESET_VECTOR, STACK_PAGE,
};
use vstd::prelude::*;

verus! {

/// `a + k`, wrapping within the address space.
fn wrap_add(a: u16, k: u16) -> (r: u16)
    ensures
        r == add16(a, k as int),
{
    ((a as u32 + k as u32) % 65536) as u16
}

/// `a - 1`, wrapping within the address space.
fn wrap_dec(a: u16) -> (r: u16)
    ensures
        r == add16(a, -1),
{
    if a == 0 {
        0xFFFF
    } else {
        a - 1
    }
}

fn make_word(lo: u8, hi: u8) -> (r: u16)
    ensures
        r == word(lo, hi),
{
    hi as u16 * 256 + lo as u16
}

fn fetch_word(bus: &Bus, a: u16) -> (r: u16)
    requires
        bus.wf(),
    ensures
        r == read_word(bus@, a),
{
    let lo = bus.read(a);
    let hi = bus.read(wrap_add(a, 1));
    make_word(lo, hi)
}

fn push(reg: &mut Register, bus: &mut Bus, v: u8)
    requires
        old(bus).wf(),
    ensures
        final(bus).wf(),
        (*final(reg), final(bus)@) == push_spec(*old(reg), old(bus)@, v),
{
    bus.write(STACK_PAGE + reg.stack_pointer as u16, v);
    reg.stack_pointer = ((reg.stack_pointer as u16 + 255) % 256) as u8;
}

fn pull(reg: &mut Register, bus: &Bus) -> (r: u8)
    requires
        bus.wf(),
    ensures
        (*final(reg), r) == pull_spec(*old(reg), bus@),
{
    reg.stack_pointer = ((reg.stack_pointer as u16 + 1) % 256) as u8;
    bus.read(STACK_PAGE + reg.stack_pointer as u16)
}

/// The target of a branch whose signed offset byte is `b`, counted from `next`.
fn branch_target(next: u16, b: u8) -> (r: u16)
    ensures
        r == (if b < 128 {
            add16(next, b as int)
        } else {
            add16(next, b as int - 256)
        }),
{
    if b < 128 {
        wrap_add(next, b as u16)
    } else {
        wrap_add(next, b as u16 + 0xFF00)
    }
}

/// `base` plus an index register, and whether that left the page of `base`.
fn indexed(base: u16, index: u8) -> (r: (u16, bool))
    ensures
        r.0 == add16(base, index as int),
        r.1 == (page(base) != page(r.0)),
{
    let a = wrap_add(base, index as u16);
    (a, base / 256 != a / 256)
}

fn same_page_next(ptr: u16) -> (r: u16)
    ensures
        r == indirect_high(ptr),
{
    ptr / 256 * 256 + (ptr % 256 + 1) % 256
}

fn fetch_zero_page_word(bus: &Bus, z: u8) -> (r: u16)
    requires
        bus.wf(),
    ensures
        r == zero_page_word(bus@, z),
{
    let lo = bus.read(z as u16);
    let hi = bus.read((z as u16 + 1) % 256);
    make_word(lo, hi)
}

/// Reads the operand bytes of `mode` at the program counter and advances it
/// past them.
fn resolve(reg: &mut Register, bus: &Bus, mode: AddressMode) -> (r: (Operand, bool))
    requires
        bus.wf(),
    ensures
        (final(reg).program_counter, r.0, r.1) == resolve_spec(mode, *old(reg), bus@),
        *final(reg) == (Register { program_counter: final(reg).program_counter, ..*old(reg) }),
        final(reg).program_counter == add16(old(reg).program_counter, mode.operand_len() as int),
{
    let pc = reg.program_counter;
    match mode {
        AddressMode::Accumulator => (Operand::Accumulator, false),
        AddressMode::Implied => (Operand::Implied, false),
        AddressMode::Immediate => {
            reg.program_counter = wrap_add(pc, 1);
            (Operand::Memory(pc), false)
        },
        AddressMode::ZeroPage => {
            reg.program_counter = wrap_add(pc, 1);
            (Operand::Memory(bus.read(pc) as u16), false)
        },
        AddressMode::ZeroPageX => {
            reg.program_counter = wrap_add(pc, 1);
            (Operand::Memory((bus.read(pc) as u16 + reg.x as u16) % 256), false)
        },
        AddressMode::ZeroPageY => {
            reg.program_counter = wrap_add(pc, 1);
            (Operand::Memory((bus.read(pc) as u16 + reg.y as u16) % 256), false)
        },
        AddressMode::Relative => {
            let next = wrap_add(pc, 1);
            reg.program_counter = next;
            let target = branch_target(next, bus.read(pc));
            (Operand::Memory(target), next / 256 != target / 256)
        },
        AddressMode::Absolute => {
            reg.program_counter = wrap_add(pc, 2);
            (Operand::Memory(fetch_word(bus, pc)), false)
        },
        AddressMode::AbsoluteX => {
            reg.program_counter = wrap_add(pc, 2);
            let (a, crossed) = indexed(fetch_word(bus, pc), reg.x);
            (Operand::Memory(a), crossed)
        },
        AddressMode::AbsoluteY => {
            reg.program_counter = wrap_add(pc, 2);
            let (a, crossed) = indexed(fetch_word(bus, pc), reg.y);
            (Operand::Memory(a), crossed)
        },
        AddressMode::Indirect => {
            reg.program_counter = wrap_add(pc, 2);
            let ptr = fetch_word(bus, pc);
            let lo = bus.read(ptr);
            let hi = bus.read(same_page_next(ptr));
            (Operand::Memory(make_word(lo, hi)), false)
        },
        AddressMode::IndirectX => {
            reg.program_counter = wrap_add(pc, 1);
            let z = ((bus.read(pc) as u16 + reg.x as u16) % 256) as u8;
            (Operand::Memory(fetch_zero_page_word(bus, z)), false)
        },
        AddressMode::IndirectY => {
            reg.program_counter = wrap_add(pc, 1);
            let base = fetch_zero_page_word(bus, bus.read(pc));
            let (a, crossed) = indexed(base, reg.y);
            (Operand::Memory(a), crossed)
        },
    }
}

fn read_operand(reg: &Register, bus: &Bus, operand: Operand) -> (r: u8)
    requires
        bus.wf(),
    ensures
        r == operand_value(operand, *reg, bus@),
{
    match operand {
        Operand::Accumulator => reg.accumulator,
        Operand::Memory(a) => bus.read(a),
        Operand::Implied => 0,
    }
}

fn store(reg: &mut Register, bus: &mut Bus, operand: Operand, v: u8)
    requires
        old(bus).wf(),
    ensures
        final(bus).wf(),
        (*final(reg), final(bus)@) == store_spec(operand, *old(reg), old(bus)@, v),
{
    match operand {
        Operand::Accumulator => {
            reg.accumulator = v;
        },
        Operand::Memory(a) => {
            bus.write(a, v);
        },
        Operand::Implied => {},
    }
}

/// Binary add with carry-in `c`: the result, the carry out and the overflow.
pub fn adc(a: u8, m: u8, c: bool) -> (r: (u8, bool, bool))
    ensures
        r == adc_spec(a, m, c),
{
    let sum: u16 = a as u16 + m as u16 + if c { 1u16 } else { 0u16 };
    let r = (sum % 256) as u8;
    (r, sum > 255, (a < 128) == (m < 128) && (r < 128) != (a < 128))
}

/// Binary subtract with borrow: Carry clear borrows one.
pub fn sbc(a: u8, m: u8, c: bool) -> (r: (u8, bool, bool))
    ensures
        r == sbc_spec(a, m, c),
{
    adc(a, 255 - m, c)
}

/// Decimal add with carry-in `c`: the BCD result, the carry out, and
/// Overflow, Negative and Zero as the NMOS part sets them.
pub fn adc_decimal(a: u8, m: u8, c: bool) -> (r: (u8, bool, bool, bool, bool))
    ensures
        r == adc_decimal_spec(a, m, c),
{
    let cin: u16 = if c { 1 } else { 0 };
    let lo0: u16 = a as u16 % 16 + m as u16 % 16 + cin;
    let lo: u16 = if lo0 > 9 { lo0 + 6 } else { lo0 };
    let hi0: u16 = a as u16 / 16 + m as u16 / 16 + if lo > 15 { 1u16 } else { 0u16 };
    let unadjusted: u8 = ((hi0 % 16) * 16) as u8;
    let hi: u16 = if hi0 > 9 { hi0 + 6 } else { hi0 };
    (
        ((hi % 16) * 16 + lo % 16) as u8,
        hi > 15,
        (a < 128) == (m < 128) && (unadjusted < 128) != (a < 128),
        unadjusted >= 128,
        (a as u16 + m as u16 + cin) % 256 == 0,
    )
}

/// Decimal subtract with borrow: the BCD result.
pub fn sbc_decimal(a: u8, m: u8, c: bool) -> (r: u8)
    ensures
        r == sbc_decimal_spec(a, m, c),
{
    let borrow: u16 = if c { 0 } else { 1 };
    // each digit is kept 32 above its signed value
    let lo_b: u16 = a as u16 % 16 + 32 - m as u16 % 16 - borrow;
    let lo_neg = lo_b < 32;
    let hi_b: u16 = a as u16 / 16 + 32 - m as u16 / 16 - if lo_neg { 1u16 } else { 0u16 };
    let lo: u16 = if lo_neg { lo_b - 6 } else { lo_b };
    let hi: u16 = if hi_b < 32 { hi_b - 6 } else { hi_b };
    proof {
        lemma_digit_bias(lo as int - 32);
        lemma_digit_bias(hi as int - 32);
    }
    ((hi % 16) * 16 + lo % 16) as u8
}

proof fn lemma_digit_bias(x: int)
    ensures
        (x + 32) % 16 == x % 16,
{
}

/// Status after comparing register value `r` with `m`.
pub fn compare(s: u8, r: u8, m: u8) -> (st: u8)
    ensures
        st == compare_spec(s, r, m),
{
    let st = apply_flag(s, CARRY, r >= m);
    let st = apply_flag(st, ZERO, r == m);
    apply_flag(st, NEGATIVE, (r as u16 + 256 - m as u16) % 256 >= 128)
}

/// Shift or rotate `v` as `ins` does, with carry-in `c`.
fn shift(ins: Instruction, v: u8, c: bool) -> (r: (u8, bool))
    ensures
        r == shift_spec(ins, v, c),
{
    let cin: u16 = if c { 1 } else { 0 };
    match ins {
        Instruction::ASL => (((v as u16 * 2) % 256) as u8, v >= 128),
        Instruction::LSR => (v / 2, v % 2 == 1),
        Instruction::ROL => (((v as u16 * 2 + cin) % 256) as u8, v >= 128),
        _ => ((v as u16 / 2 + cin * 128) as u8, v % 2 == 1),
    }
}

fn taken(ins: Instruction, reg: &Register) -> (r: bool)
    ensures
        r == taken_spec(ins, reg.status),
{
    match ins {
        Instruction::BCC => !reg.get_flag(CARRY),
        Instruction::BCS => reg.get_flag(CARRY),
        Instruction::BEQ => reg.get_flag(ZERO),
        Instruction::BNE => !reg.get_flag(ZERO),
        Instruction::BMI => reg.get_flag(NEGATIVE),
        Instruction::BPL => !reg.get_flag(NEGATIVE),
        Instruction::BVS => reg.get_flag(OVERFLOW),
        Instruction::BVC => !reg.get_flag(OVERFLOW),
        _ => false,
    }
}

fn pushed_status(s: u8, brk: bool) -> (r: u8)
    ensures
        r == (if brk {
            software_pushed_status(s)
        } else {
            hardware_pushed_status(s)
        }),
{
    apply_flag(apply_flag(s, BREAK, brk), UNUSED, true)
}

/// Pushes the program counter and `pushed`, sets InterruptDisable and jumps
/// through `vector`.
fn interrupt(reg: &mut Register, bus: &mut Bus, vector: u16, pushed: u8)
    requires
        old(bus).wf(),
    ensures
        final(bus).wf(),
        (*final(reg), final(bus)@) == interrupt_spec(*old(reg), old(bus)@, vector, pushed),
{
    let pc = reg.program_counter;
    push(reg, bus, (pc / 256) as u8);
    push(reg, bus, (pc % 256) as u8);
    push(reg, bus, pushed);
    reg.program_counter = fetch_word(bus, vector);
    reg.set_flag(INTERRUPT_DISABLE, true);
}

fn execute_transfer(ins: Instruction, operand: Operand, reg: &mut Register, bus: &mut Bus)
    requires
        old(bus).wf(),
        matches!(ins, Instruction::LDA | Instruction::LDX | Instruction::LDY | Instruction::STA
            | Instruction::STX | Instruction::STY | Instruction::TAX | Instruction::TAY
            | Instruction::TXA | Instruction::TYA | Instruction::TSX | Instruction::TXS),
    ensures
        final(bus).wf(),
        (*final(reg), final(bus)@) == execute_spec(ins, operand, *old(reg), old(bus)@, false),
{
    reveal(execute_spec);
    let v = read_operand(reg, bus, operand);
    match ins {
        Instruction::LDA => {
            reg.accumulator = v;
            reg.set_zn(v);
        },
        Instruction::LDX => {
            reg.x = v;
            reg.set_zn(v);
        },
        Instruction::LDY => {
            reg.y = v;
            reg.set_zn(v);
        },
        Instruction::STA => {
            let a = reg.accumulator;
            store(reg, bus, operand, a);
        },
        Instruction::STX => {
            let x = reg.x;
            store(reg, bus, operand, x);
        },
        Instruction::STY => {
            let y = reg.y;
            store(reg, bus, operand, y);
        },
        Instruction::TAX => {
            reg.x = reg.accumulator;
            reg.set_zn(reg.x);
        },
        Instruction::TAY => {
            reg.y = reg.accumulator;
            reg.set_zn(reg.y);
        },
        Instruction::TXA => {
            reg.accumulator = reg.x;
            reg.set_zn(reg.accumulator);
        },
        Instruction::TYA => {
            reg.accumulator = reg.y;
            reg.set_zn(reg.accumulator);
        },
        Instruction::TSX => {
            reg.x = reg.stack_pointer;
            reg.set_zn(reg.x);
        },
        _ => {
            reg.stack_pointer = reg.x;
        },
    }
}

fn execute_alu(ins: Instruction, operand: Operand, reg: &mut Register, bus: &mut Bus, decimal: bool)
    requires
        old(bus).wf(),
        matches!(ins, Instruction::AND | Instruction::EOR | Instruction::ORA | Instruction::BIT
            | Instruction::ADC | Instruction::SBC | Instruction::CMP | Instruction::CPX
            | Instruction::CPY),
    ensures
        final(bus).wf(),
        (*final(reg), final(bus)@) == execute_spec(ins, operand, *old(reg), old(bus)@, decimal),
{
    reveal(execute_spec);
    let v = read_operand(reg, bus, operand);
    let c = reg.get_flag(CARRY);
    match ins {
        Instruction::AND => {
            reg.accumulator = reg.accumulator & v;
            reg.set_zn(reg.accumulator);
        },
        Instruction::EOR => {
            reg.accumulator = reg.accumulator ^ v;
            reg.set_zn(reg.accumulator);
        },
        Instruction::ORA => {
            reg.accumulator = reg.accumulator | v;
            reg.set_zn(reg.accumulator);
        },
        Instruction::BIT => {
            reg.set_flag(ZERO, reg.accumulator & v == 0);
            reg.set_flag(OVERFLOW, v & OVERFLOW != 0);
            reg.set_flag(NEGATIVE, v & NEGATIVE != 0);
        },
        Instruction::ADC => {
            if decimal && reg.get_flag(DECIMAL) {
                let (r, cout, ov, neg, z) = adc_decimal(reg.accumulator, v, c);
                reg.set_flag(CARRY, cout);
                reg.set_flag(OVERFLOW, ov);
                reg.set_flag(ZERO, z);
                reg.set_flag(NEGATIVE, neg);
                reg.accumulator = r;
            } else {
                let (r, cout, ov) = adc(reg.accumulator, v, c);
                reg.set_flag(CARRY, cout);
                reg.set_flag(OVERFLOW, ov);
                reg.set_zn(r);
                reg.accumulator = r;
            }
        },
        Instruction::SBC => {
            let (r, cout, ov) = sbc(reg.accumulator, v, c);
            let acc = if decimal && reg.get_flag(DECIMAL) {
                sbc_decimal(reg.accumulator, v, c)
            } else {
                r
            };
            reg.set_flag(CARRY, cout);
            reg.set_flag(OVERFLOW, ov);
            reg.set_zn(r);
            reg.accumulator = acc;
        },
        Instruction::CMP => {
            reg.status = compare(reg.status, reg.accumulator, v);
        },
        Instruction::CPX => {
            reg.status = compare(reg.status, reg.x, v);
        },
        _ => {
            reg.status = compare(reg.status, reg.y, v);
        },
    }
}

fn execute_modify(ins: Instruction, operand: Operand, reg: &mut Register, bus: &mut Bus)
    requires
        old(bus).wf(),
        matches!(ins, Instruction::INC | Instruction::DEC | Instruction::INX | Instruction::INY
            | Instruction::DEX | Instruction::DEY | Instruction::ASL | Instruction::LSR
            | Instruction::ROL | Instruction::ROR),
    ensures
        final(bus).wf(),
        (*final(reg), final(bus)@) == execute_spec(ins, operand, *old(reg), old(bus)@, false),
{
    reveal(execute_spec);
    let v = read_operand(reg, bus, operand);
    match ins {
        Instruction::INC => {
            let r = ((v as u16 + 1) % 256) as u8;
            reg.set_zn(r);
            store(reg, bus, operand, r);
        },
        Instruction::DEC => {
            let r = ((v as u16 + 255) % 256) as u8;
            reg.set_zn(r);
            store(reg, bus, operand, r);
        },
        Instruction::INX => {
            reg.x = ((reg.x as u16 + 1) % 256) as u8;
            reg.set_zn(reg.x);
        },
        Instruction::INY => {
            reg.y = ((reg.y as u16 + 1) % 256) as u8;
            reg.set_zn(reg.y);
        },
        Instruction::DEX => {
            reg.x = ((reg.x as u16 + 255) % 256) as u8;
            reg.set_zn(reg.x);
        },
        Instruction::DEY => {
            reg.y = ((reg.y as u16 + 255) % 256) as u8;
            reg.set_zn(reg.y);
        },
        _ => {
            let (r, cout) = shift(ins, v, reg.get_flag(CARRY));
            reg.set_flag(CARRY, cout);
            reg.set_zn(r);
            store(reg, bus, operand, r);
        },
    }
}

fn execute_jump(ins: Instruction, operand: Operand, reg: &mut Register, bus: &mut Bus)
    requires
        old(bus).wf(),
        matches!(ins, Instruction::JMP | Instruction::BCC | Instruction::BCS | Instruction::BEQ
            | Instruction::BNE | Instruction::BMI | Instruction::BPL | Instruction::BVS
            | Instruction::BVC | Instruction::NOP),
    ensures
        final(bus).wf(),
        (*final(reg), final(bus)@) == execute_spec(ins, operand, *old(reg), old(bus)@, false),
{
    reveal(execute_spec);
    match ins {
        Instruction::JMP => {
            if let Operand::Memory(a) = operand {
                reg.program_counter = a;
            }
        },
        Instruction::NOP => {},
        _ => {
            if let Operand::Memory(target) = operand {
                if taken(ins, reg) {
                    reg.program_counter = target;
                }
            }
        },
    }
}

fn execute_jsr(operand: Operand, reg: &mut Register, bus: &mut Bus)
    requires
        old(bus).wf(),
    ensures
        final(bus).wf(),
        (*final(reg), final(bus)@) == execute_spec(Instruction::JSR, operand, *old(reg), old(bus)@, false),
{
    reveal(execute_spec);
    if let Operand::Memory(a) = operand {
        let ret = wrap_dec(reg.program_counter);
        push(reg, bus, (ret / 256) as u8);
        push(reg, bus, (ret % 256) as u8);
        reg.program_counter = a;
    }
}

fn execute_rts(operand: Operand, reg: &mut Register, bus: &mut Bus)
    requires
        old(bus).wf(),
    ensures
        final(bus).wf(),
        (*final(reg), final(bus)@) == execute_spec(Instruction::RTS, operand, *old(reg), old(bus)@, false),
{
    reveal(execute_spec);
    let lo = pull(reg, bus);
    let hi = pull(reg, bus);
    reg.program_counter = wrap_add(make_word(lo, hi), 1);
}

fn execute_rti(operand: Operand, reg: &mut Register, bus: &mut Bus)
    requires
        old(bus).wf(),
    ensures
        final(bus).wf(),
        (*final(reg), final(bus)@) == execute_spec(Instruction::RTI, operand, *old(reg), old(bus)@, false),
{
    reveal(execute_spec);
    let p = pull(reg, bus);
    let lo = pull(reg, bus);
    let hi = pull(reg, bus);
    reg.program_counter = make_word(lo, hi);
    reg.status = p;
    reg.set_flag(BREAK, false);
    reg.set_flag(UNUSED, true);
}

fn execute_brk(operand: Operand, reg: &mut Register, bus: &mut Bus)
    requires
        old(bus).wf(),
    ensures
        final(bus).wf(),
        (*final(reg), final(bus)@) == execute_spec(Instruction::BRK, operand, *old(reg), old(bus)@, false),
{
    reveal(execute_spec);
    let pushed = pushed_status(reg.status, true);
    reg.program_counter = wrap_add(reg.program_counter, 1);
    interrupt(reg, bus, IRQ_VECTOR, pushed);
}

fn execute_stack_flags(ins: Instruction, operand: Operand, reg: &mut Register, bus: &mut Bus)
    requires
        old(bus).wf(),
        matches!(ins, Instruction::PHA | Instruction::PHP | Instruction::PLA | Instruction::PLP
            | Instruction::CLC | Instruction::CLD | Instruction::CLI | Instruction::CLV
            | Instruction::SEC | Instruction::SED | Instruction::SEI),
    ensures
        final(bus).wf(),
        (*final(reg), final(bus)@) == execute_spec(ins, operand, *old(reg), old(bus)@, false),
{
    reveal(execute_spec);
    match ins {
        Instruction::PHA => {
            let a = reg.accumulator;
            push(reg, bus, a);
        },
        Instruction::PHP => {
            let p = pushed_status(reg.status, true);
            push(reg, bus, p);
        },
        Instruction::PLA => {
            let p = pull(reg, bus);
            reg.accumulator = p;
            reg.set_zn(p);
        },
        Instruction::PLP => {
            let p = pull(reg, bus);
            reg.status = p;
            reg.set_flag(BREAK, false);
            reg.set_flag(UNUSED, true);
        },
        Instruction::CLC => reg.set_flag(CARRY, false),
        Instruction::CLD => reg.set_flag(DECIMAL, false),
        Instruction::CLI => reg.set_flag(INTERRUPT_DISABLE, false),
        Instruction::CLV => reg.set_flag(OVERFLOW, false),
        Instruction::SEC => reg.set_flag(CARRY, true),
        Instruction::SED => reg.set_flag(DECIMAL, true),
        _ => reg.set_flag(INTERRUPT_DISABLE, true),
    }
}

fn extra_cycles(ins: Instruction, crossed: bool, is_taken: bool) -> (r: u8)
    ensures
        r == extra_cycles_spec(ins, crossed, is_taken),
{
    match ins {
        Instruction::BCC | Instruction::BCS | Instruction::BEQ | Instruction::BNE
        | Instruction::BMI | Instruction::BPL | Instruction::BVS | Instruction::BVC => {
            if is_taken {
                if crossed { 2 } else { 1 }
            } else {
                0
            }
        },
        Instruction::ADC | Instruction::AND | Instruction::CMP | Instruction::EOR
        | Instruction::LDA | Instruction::LDX | Instruction::LDY | Instruction::ORA
        | Instruction::SBC => if crossed { 1 } else { 0 },
        _ => 0,
    }
}

/// Carries out `ins` on its resolved operand.
fn execute(ins: Instruction, operand: Operand, reg: &mut Register, bus: &mut Bus, decimal: bool)
    requires
        old(bus).wf(),
    ensures
        final(bus).wf(),
        (*final(reg), final(bus)@) == execute_spec(ins, operand, *old(reg), old(bus)@, decimal),
{
    reveal(execute_spec);
    match ins {
        Instruction::LDA | Instruction::LDX | Instruction::LDY | Instruction::STA
        | Instruction::STX | Instruction::STY | Instruction::TAX | Instruction::TAY
        | Instruction::TXA | Instruction::TYA | Instruction::TSX | Instruction::TXS => {
            execute_transfer(ins, operand, reg, bus)
        },
        Instruction::AND | Instruction::EOR | Instruction::ORA | Instruction::BIT
        | Instruction::ADC | Instruction::SBC | Instruction::CMP | Instruction::CPX
        | Instruction::CPY => execute_alu(ins, operand, reg, bus, decimal),
        Instruction::INC | Instruction::DEC | Instruction::INX | Instruction::INY
        | Instruction::DEX | Instruction::DEY | Instruction::ASL | Instruction::LSR
        | Instruction::ROL | Instruction::ROR => execute_modify(ins, operand, reg, bus),
        Instruction::PHA | Instruction::PHP | Instruction::PLA | Instruction::PLP
        | Instruction::CLC | Instruction::CLD | Instruction::CLI | Instruction::CLV
        | Instruction::SEC | Instruction::SED | Instruction::SEI => {
            execute_stack_flags(ins, operand, reg, bus)
        },
        Instruction::JSR => execute_jsr(operand, reg, bus),
        Instruction::RTS => execute_rts(operand, reg, bus),
        Instruction::RTI => execute_rti(operand, reg, bus),
        Instruction::BRK => execute_brk(operand, reg, bus),
        _ => execute_jump(ins, operand, reg, bus),
    }
}

/// The processor: its registers, its decode table and the interrupt lines
/// that are raised and wait for the next instruction boundary.
pub struct CPU {
    pub register: Register,
    pub decoder: DecodeTable,
    pub nmi_pending: bool,
    pub irq_pending: bool,
    /// Whether ADC and SBC honour the Decimal flag. The console's part
    /// ignores it, and `new` builds that part.
    pub decimal_capable: bool,
}

impl CPU {
    pub open spec fn wf(&self) -> bool {
        self.decoder.wf()
    }

    /// A processor with every register zeroed, no interrupt pending and the
    /// documented decode table.
    pub fn new() -> (c: CPU)
        ensures
            c.wf(),
            c.register == (Register {
                program_counter: 0,
                stack_pointer: 0,
                accumulator: 0,
                x: 0,
                y: 0,
                status: 0,
            }),
            !c.nmi_pending,
            !c.irq_pending,
            !c.decimal_capable,
    {
        CPU {
            register: Register::new(),
            decoder: DecodeTable::new(),
            nmi_pending: false,
            irq_pending: false,
            decimal_capable: false,
        }
    }

    /// Reset: sets InterruptDisable, loads the program counter from the reset
    /// vector, pushes nothing and drops pending interrupts.
    pub fn reset(&mut self, bus: &Bus)
        requires
            bus.wf(),
        ensures
            final(self).register == (Register {
                program_counter: read_word(bus@, RESET_VECTOR),
                status: with_flag(old(self).register.status, INTERRUPT_DISABLE, true),
                ..old(self).register
            }),
            final(self).decoder == old(self).decoder,
            final(self).decimal_capable == old(self).decimal_capable,
            !final(self).nmi_pending,
            !final(self).irq_pending,
    {
        self.register.program_counter = fetch_word(bus, RESET_VECTOR);
        self.register.set_flag(INTERRUPT_DISABLE, true);
        self.nmi_pending = false;
        self.irq_pending = false;
    }

    /// Raises the NMI line; it is serviced at the next step.
    pub fn trigger_nmi(&mut self)
        ensures
            final(self).register == old(self).register,
            final(self).decoder == old(self).decoder,
            final(self).decimal_capable == old(self).decimal_capable,
            final(self).nmi_pending,
            final(self).irq_pending == old(self).irq_pending,
    {
        self.nmi_pending = true;
    }

    /// Raises the IRQ line; it is serviced at the first step at which
    /// InterruptDisable is clear.
    pub fn trigger_irq(&mut self)
        ensures
            final(self).register == old(self).register,
            final(self).decoder == old(self).decoder,
            final(self).decimal_capable == old(self).decimal_capable,
            final(self).nmi_pending == old(self).nmi_pending,
            final(self).irq_pending,
    {
        self.irq_pending = true;
    }

    /// One step: services a pending interrupt, or fetches, decodes and
    /// executes one instruction. Returns the cycles spent.
    pub fn step(&mut self, bus: &mut Bus) -> (r: Result<u8, CpuError>)
        requires
            old(self).wf(),
            old(bus).wf(),
        ensures
            final(self).wf(),
            final(bus).wf(),
            final(self).decoder == old(self).decoder,
            final(self).decimal_capable == old(self).decimal_capable,
            step_spec(
                old(self).register,
                old(self).nmi_pending,
                old(self).irq_pending,
                old(bus)@,
                old(self).decimal_capable,
            )
                == (
                final(self).register,
                final(self).nmi_pending,
                final(self).irq_pending,
                final(bus)@,
                r,
            ),
    {
        let mut reg = self.register;
        if self.nmi_pending {
            let pushed = pushed_status(reg.status, false);
            interrupt(&mut reg, bus, NMI_VECTOR, pushed);
            self.register = reg;
            self.nmi_pending = false;
            return Ok(7);
        }
        if self.irq_pending && !reg.get_flag(INTERRUPT_DISABLE) {
            let pushed = pushed_status(reg.status, false);
            interrupt(&mut reg, bus, IRQ_VECTOR, pushed);
            self.register = reg;
            self.irq_pending = false;
            return Ok(7);
        }
        let pc = reg.program_counter;
        let op = bus.read(pc);
        match self.decoder.get(op) {
            None => Err(CpuError::UnmappedOpcode { opcode: op, program_counter: pc }),
            Some(e) => {
                let is_taken = taken(e.instruction, &reg);
                reg.program_counter = wrap_add(pc, 1);
                let (operand, crossed) = resolve(&mut reg, bus, e.mode);
                execute(e.instruction, operand, &mut reg, bus, self.decimal_capable);
                self.register = reg;
                let extra = extra_cycles(e.instruction, crossed, is_taken);
                Ok((e.cycles as u16 + extra as u16) as u8)
            },
        }
    }
}

} // verus!
