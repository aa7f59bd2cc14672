//! The emulator session.

use vstd::prelude::*;

use crate::cpu::CPU;
use crate::cpu::spec_cpu_new;

verus! {

/// An emulator session: it owns the CPU. The driver owns the bus and hands
/// it to every stepping call by mutable reference.
pub struct NES {
    pub cpu: CPU,
}

impl NES {
    /// A fresh session with tracing off.
    pub fn new() -> (r: NES)
        ensures
            r.cpu@ == spec_cpu_new(false),
    {
        NES { cpu: CPU::new(false) }
    }
}

} // verus!
