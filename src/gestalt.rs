use crate::bus::Bus;
use crate::cpu::CPU;
use crate::register::Register;
use vstd::prelude::*;

verus! {

/// The console: its processor and the memory the processor sees.
pub struct Gestalt {
    pub cpu: CPU,
    pub bus: Bus,
}

impl Gestalt {
    pub open spec fn wf(&self) -> bool {
        self.cpu.wf() && self.bus.wf()
    }

    /// A console with a zeroed processor and zeroed memory.
    pub fn new() -> (g: Gestalt)
        ensures
            g.wf(),
            g.cpu.register == (Register {
                program_counter: 0,
                stack_pointer: 0,
                accumulator: 0,
                x: 0,
                y: 0,
                status: 0,
            }),
            !g.cpu.nmi_pending,
            !g.cpu.irq_pending,
            forall|i: int| 0 <= i < 65536 ==> #[trigger] g.bus@[i] == 0,
    {
        Gestalt { cpu: CPU::new(), bus: Bus::new() }
    }
}

} // verus!
