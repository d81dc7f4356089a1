use vstd::prelude::*;

verus! {

/// The legal 6502 mnemonics. A tag only: operands are handled by the
/// addressing-mode resolver and the executor.
#[derive(Copy, Clone, Debug, PartialEq, Eq, Structural)]
pub enum Instruction {
    // load and store
    LDA,
    LDX,
    LDY,
    STA,
    STX,
    STY,
    // register transfer
    TAX,
    TAY,
    TXA,
    TYA,
    // stack
    TSX,
    TXS,
    PHA,
    PHP,
    PLA,
    PLP,
    // logical
    AND,
    EOR,
    ORA,
    BIT,
    // arithmetic
    ADC,
    SBC,
    CMP,
    CPX,
    CPY,
    // increment and decrement
    INC,
    INX,
    INY,
    DEC,
    DEX,
    DEY,
    // shifts and rotates
    ASL,
    LSR,
    ROL,
    ROR,
    // jumps and calls
    JMP,
    JSR,
    RTS,
    // branches
    BCC,
    BCS,
    BEQ,
    BMI,
    BNE,
    BPL,
    BVC,
    BVS,
    // status flag changes
    CLC,
    CLD,
    CLI,
    CLV,
    SEC,
    SED,
    SEI,
    // system
    BRK,
    NOP,
    RTI,
}

} // verus!
