use vstd::prelude::*;

verus! {

/// How an instruction locates its operand.
#[derive(Copy, Clone, Debug, PartialEq, Eq, Structural)]
pub enum AddressMode {
    Accumulator,
    Immediate,
    ZeroPage,
    ZeroPageX,
    ZeroPageY,
    Relative,
    Absolute,
    AbsoluteX,
    AbsoluteY,
    Indirect,
    IndirectX,
    IndirectY,
    Implied,
}

impl AddressMode {
    /// Number of operand bytes that follow the opcode in this mode.
    pub open spec fn operand_len(self) -> nat {
        match self {
            AddressMode::Accumulator | AddressMode::Implied => 0,
            AddressMode::Absolute | AddressMode::AbsoluteX | AddressMode::AbsoluteY
            | AddressMode::Indirect => 2,
            _ => 1,
        }
    }
}

} // verus!
