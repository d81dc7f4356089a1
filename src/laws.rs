//! Properties of the processor model that span several steps or every state.
use crate::address_mode::AddressMode;
use crate::decode::opcode_spec;
use crate::instruction::Instruction;
use crate::register::{flag, Register, INTERRUPT_DISABLE};
use crate::semantics::{
    add16, execute_spec, hardware_pushed_status, indirect_high, resolve_spec, Operand, interrupt_spec, is_branch, page, pull_spec, push_spec, read_word, stack_addr, step_spec, taken_spec,
    word, IRQ_VECTOR, NMI_VECTOR,
};
use vstd::prelude::*;

verus! {

/// The registers and memory after pushing the bytes of `bs`, first to last.
pub open spec fn push_all(reg: Register, mem: Seq<u8>, bs: Seq<u8>) -> (Register, Seq<u8>)
    decreases bs.len(),
{
    if bs.len() == 0 {
        (reg, mem)
    } else {
        let (r, m) = push_all(reg, mem, bs.drop_last());
        push_spec(r, m, bs.last())
    }
}

/// The registers after pulling `n` bytes, with the bytes in the order pulled.
pub open spec fn pull_all(reg: Register, mem: Seq<u8>, n: nat) -> (Register, Seq<u8>)
    decreases n,
{
    if n == 0 {
        (reg, Seq::empty())
    } else {
        let (r, vs) = pull_all(reg, mem, (n - 1) as nat);
        let (r2, v) = pull_spec(r, mem);
        (r2, vs.push(v))
    }
}

proof fn lemma_push_all(reg: Register, mem: Seq<u8>, bs: Seq<u8>)
    requires
        mem.len() == 65536,
        bs.len() <= 256,
    ensures
        ({
            let (r, m) = push_all(reg, mem, bs);
            &&& r == Register {
                stack_pointer: ((reg.stack_pointer as int - bs.len()) % 256) as u8,
                ..reg
            }
            &&& m.len() == 65536
            &&& forall|i: int|
                0 <= i < bs.len() ==> m[stack_addr(((reg.stack_pointer as int - i) % 256) as u8) as int]
                    == #[trigger] bs[i]
            &&& forall|a: int| 0 <= a < 65536 && !(0x100 <= a <= 0x1FF) ==> #[trigger] m[a] == mem[a]
        }),
    decreases bs.len(),
{
    if bs.len() > 0 {
        let init = bs.drop_last();
        lemma_push_all(reg, mem, init);
        let (r0, m0) = push_all(reg, mem, init);
        let (r, m) = push_all(reg, mem, bs);
        let sp = reg.stack_pointer as int;
        let n = bs.len() as int;
        let top = r0.stack_pointer;
        assert(top as int == (sp - (n - 1)) % 256);
        assert(r.stack_pointer as int == (top as int + 255) % 256);
        assert((top as int + 255) % 256 == (sp - n) % 256);
        assert(m == m0.update(stack_addr(top) as int, bs[n - 1]));
        assert forall|i: int| 0 <= i < n implies m[stack_addr(
            ((sp - i) % 256) as u8,
        ) as int] == #[trigger] bs[i] by {
            if i < n - 1 {
                assert((sp - i) % 256 != (sp - (n - 1)) % 256);
                assert(init[i] == bs[i]);
            }
        }
    }
}

proof fn lemma_pull_all(reg: Register, mem: Seq<u8>, n: nat)
    ensures
        ({
            let (r, vs) = pull_all(reg, mem, n);
            &&& r == Register { stack_pointer: ((reg.stack_pointer as int + n) % 256) as u8, ..reg }
            &&& vs.len() == n
            &&& forall|j: int|
                0 <= j < n ==> #[trigger] vs[j] == mem[stack_addr(
                    ((reg.stack_pointer as int + 1 + j) % 256) as u8,
                ) as int]
        }),
    decreases n,
{
    if n > 0 {
        lemma_pull_all(reg, mem, (n - 1) as nat);
    }
}

proof fn lemma_slot_shift(sp: int, n: int, j: int)
    ensures
        ((sp - n) % 256 + 1 + j) % 256 == (sp - (n - 1 - j)) % 256,
        ((sp - n) % 256 + n) % 256 == sp % 256,
{
}

/// Pushing up to 256 bytes and pulling as many gives them back in reverse
/// order and restores the stack pointer; the pushes change nothing outside
/// the stack page 0x0100-0x01FF, however the stack pointer wraps.
pub proof fn lemma_stack_round_trip(reg: Register, mem: Seq<u8>, bs: Seq<u8>)
    requires
        mem.len() == 65536,
        bs.len() <= 256,
    ensures
        ({
            let (r1, m1) = push_all(reg, mem, bs);
            let (r2, vs) = pull_all(r1, m1, bs.len());
            &&& r2 == reg
            &&& vs == bs.reverse()
            &&& forall|a: int| 0 <= a < 65536 && !(0x100 <= a <= 0x1FF) ==> #[trigger] m1[a] == mem[a]
        }),
{
    lemma_push_all(reg, mem, bs);
    let (r1, m1) = push_all(reg, mem, bs);
    lemma_pull_all(r1, m1, bs.len());
    let (r2, vs) = pull_all(r1, m1, bs.len());
    let n = bs.len() as int;
    let sp = reg.stack_pointer as int;
    assert forall|j: int| 0 <= j < n implies #[trigger] vs[j] == bs.reverse()[j] by {
        let i = n - 1 - j;
        lemma_slot_shift(sp, n, j);
        assert(r1.stack_pointer as int == (sp - n) % 256);
        assert(vs[j] == m1[stack_addr(((r1.stack_pointer as int + 1 + j) % 256) as u8) as int]);
        assert(m1[stack_addr(((sp - i) % 256) as u8) as int] == bs[i]);
        assert(bs.reverse()[j] == bs[i]);
    }
    assert(vs =~= bs.reverse());
    lemma_slot_shift(sp, n, 0);
    assert(r2.stack_pointer == reg.stack_pointer);
}

proof fn lemma_interrupt_entry(reg: Register, mem: Seq<u8>, vector: u16, pushed: u8)
    requires
        mem.len() == 65536,
        vector >= 0xFFFA,
        vector < 0xFFFF,
    ensures
        ({
            let (r, m) = interrupt_spec(reg, mem, vector, pushed);
            flag(r.status, INTERRUPT_DISABLE) && r.program_counter == read_word(mem, vector)
        }),
{
    let s = reg.status;
    assert((s | 4u8) & 4u8 != 0u8) by (bit_vector);
    let pc = reg.program_counter;
    let (r1, m1) = push_spec(reg, mem, (pc as int / 256) as u8);
    let (r2, m2) = push_spec(r1, m1, (pc as int % 256) as u8);
    let (r3, m3) = push_spec(r2, m2, pushed);
    assert(m3[vector as int] == mem[vector as int]);
    assert(m3[add16(vector, 1) as int] == mem[add16(vector, 1) as int]);
}

/// While InterruptDisable is set a raised IRQ line is not serviced: the step
/// runs as if the line were low, and the line stays raised.
pub proof fn lemma_irq_masked(reg: Register, mem: Seq<u8>, decimal: bool)
    requires
        mem.len() == 65536,
        flag(reg.status, INTERRUPT_DISABLE),
    ensures
        ({
            let (r, nmi, irq, m, res) = step_spec(reg, false, false, mem, decimal);
            step_spec(reg, false, true, mem, decimal) == (r, nmi, true, m, res)
        }),
{
}

/// A raised NMI line is serviced whatever InterruptDisable holds: the step
/// takes seven cycles, lowers the line, sets InterruptDisable and leaves the
/// program counter at the address stored at the NMI vector.
pub proof fn lemma_nmi_serviced(reg: Register, irq: bool, mem: Seq<u8>, decimal: bool)
    requires
        mem.len() == 65536,
    ensures
        ({
            let (r, nmi, _, _, res) = step_spec(reg, true, irq, mem, decimal);
            &&& flag(r.status, INTERRUPT_DISABLE)
            &&& r.program_counter == read_word(mem, NMI_VECTOR)
            &&& !nmi
            &&& res == Ok::<u8, crate::error::CpuError>(7)
        }),
{
    lemma_interrupt_entry(reg, mem, NMI_VECTOR, hardware_pushed_status(reg.status));
}

/// A raised IRQ line with InterruptDisable clear and no NMI is serviced: the
/// step takes seven cycles, lowers the line, sets InterruptDisable and leaves
/// the program counter at the address stored at the IRQ vector.
pub proof fn lemma_irq_serviced(reg: Register, mem: Seq<u8>, decimal: bool)
    requires
        mem.len() == 65536,
        !flag(reg.status, INTERRUPT_DISABLE),
    ensures
        ({
            let (r, _, irq, _, res) = step_spec(reg, false, true, mem, decimal);
            &&& flag(r.status, INTERRUPT_DISABLE)
            &&& r.program_counter == read_word(mem, IRQ_VECTOR)
            &&& !irq
            &&& res == Ok::<u8, crate::error::CpuError>(7)
        }),
{
    lemma_interrupt_entry(reg, mem, IRQ_VECTOR, hardware_pushed_status(reg.status));
}

/// A branch that is not taken costs its base cycles and moves on to the next
/// instruction; a taken one costs one more, and two more when its target
/// lies on another page than the next instruction.
#[verifier::spinoff_prover]
#[verifier::rlimit(100)]
pub proof fn lemma_branch_cycles(reg: Register, mem: Seq<u8>, decimal: bool)
    requires
        mem.len() == 65536,
        opcode_spec(mem[reg.program_counter as int]) matches Some(e) && is_branch(e.instruction),
    ensures
        ({
            let e = opcode_spec(mem[reg.program_counter as int]).unwrap();
            let (r, _, _, _, res) = step_spec(reg, false, false, mem, decimal);
            let next = add16(reg.program_counter, 2);
            &&& !taken_spec(e.instruction, reg.status) ==> r.program_counter == next && res
                == Ok::<u8, crate::error::CpuError>(e.cycles)
            &&& taken_spec(e.instruction, reg.status) && page(r.program_counter) == page(next)
                ==> res == Ok::<u8, crate::error::CpuError>((e.cycles + 1) as u8)
            &&& taken_spec(e.instruction, reg.status) && page(r.program_counter) != page(next)
                ==> res == Ok::<u8, crate::error::CpuError>((e.cycles + 2) as u8)
        }),
{
    let pc = reg.program_counter;
    let op = mem[pc as int];
    lemma_branch_entries(op);
    let e = opcode_spec(op).unwrap();
    let fetched = Register { program_counter: add16(pc, 1), ..reg };
    let (next_pc, operand, crossed) = resolve_spec(e.mode, fetched, mem);
    let resolved = Register { program_counter: next_pc, ..fetched };
    assert(next_pc == add16(pc, 2));
    let target = operand->Memory_0;
    assert(operand == Operand::Memory(target));
    assert(crossed == (page(next_pc) != page(target)));
    lemma_branch_execute(e.instruction, target, resolved, mem, decimal);
}

proof fn lemma_branch_execute(ins: Instruction, target: u16, reg: Register, mem: Seq<u8>, decimal: bool)
    requires
        is_branch(ins),
    ensures
        execute_spec(ins, Operand::Memory(target), reg, mem, decimal) == (if taken_spec(ins, reg.status) {
            (Register { program_counter: target, ..reg }, mem)
        } else {
            (reg, mem)
        }),
{
    reveal(execute_spec);
}

proof fn lemma_branch_entries(op: u8)
    requires
        opcode_spec(op) matches Some(e) && is_branch(e.instruction),
    ensures
        opcode_spec(op).unwrap().mode == AddressMode::Relative,
        opcode_spec(op).unwrap().cycles == 2,
{
}

/// An indirect JMP through a pointer whose low byte is 0xFF reads the
/// target's high byte from the start of the pointer's own page, not from the
/// next page.
pub proof fn lemma_indirect_jump_page_wrap(reg: Register, mem: Seq<u8>, decimal: bool)
    requires
        mem.len() == 65536,
        mem[reg.program_counter as int] == 0x6C,
        read_word(mem, add16(reg.program_counter, 1)) % 256 == 0xFF,
    ensures
        ({
            let ptr = read_word(mem, add16(reg.program_counter, 1));
            let (r, _, _, _, res) = step_spec(reg, false, false, mem, decimal);
            &&& opcode_spec(0x6C) == Some(
                crate::decode::DecodeEntry {
                    instruction: Instruction::JMP,
                    mode: AddressMode::Indirect,
                    cycles: 5,
                },
            )
            &&& r.program_counter == word(mem[ptr as int], mem[ptr - 0xFF])
            &&& res == Ok::<u8, crate::error::CpuError>(5)
        }),
{
    let pc = reg.program_counter;
    let fetched = Register { program_counter: add16(pc, 1), ..reg };
    let (next_pc, operand, crossed) = resolve_spec(AddressMode::Indirect, fetched, mem);
    let resolved = Register { program_counter: next_pc, ..fetched };
    let ptr = read_word(mem, add16(pc, 1));
    assert(indirect_high(ptr) == ptr - 0xFF);
    lemma_jump_execute(operand->Memory_0, resolved, mem, decimal);
}

proof fn lemma_jump_execute(target: u16, reg: Register, mem: Seq<u8>, decimal: bool)
    ensures
        execute_spec(Instruction::JMP, Operand::Memory(target), reg, mem, decimal) == (
            Register { program_counter: target, ..reg },
            mem,
        ),
{
    reveal(execute_spec);
}

} // verus!
