use vstd::prelude::*;

verus! {

/// Faults that the core reports to its caller instead of guessing.
#[derive(Copy, Clone, Debug, PartialEq, Eq, Structural)]
pub enum CpuError {
    /// The byte fetched at `program_counter` has no decode-table entry.
    UnmappedOpcode { opcode: u8, program_counter: u16 },
    /// Two definitions claimed the same opcode slot while the table was built.
    TableConstructionConflict { opcode: u8 },
}

} // verus!
