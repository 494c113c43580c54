use vstd::prelude::*;

verus! {

/// The interrupts that this core delivers.
#[derive(Clone, Copy, Debug, PartialEq, Eq, Hash)]
pub enum InterruptType {
    NMI,
}

/// How the processor enters the handler of an interrupt.
#[derive(Clone, Copy, Debug, PartialEq, Eq)]
pub struct Interrupt {
    /// Where the handler's address is stored.
    pub vector_address: u16,
    /// The two break bits of the status byte that goes onto the stack.
    pub b_flag_mask: u8,
    /// Cycles that entering the handler takes.
    pub cpu_cycles: u8,
}

/// The descriptor of each interrupt.
pub open spec fn interrupt_descriptor(kind: InterruptType) -> Interrupt {
    match kind {
        InterruptType::NMI => Interrupt {
            vector_address: 0xFFFA,
            b_flag_mask: 0b0010_0000,
            cpu_cycles: 2,
        },
    }
}

impl Interrupt {
    pub fn new(vector_address: u16, b_flag_mask: u8, cpu_cycles: u8) -> (interrupt: Self)
        ensures
            interrupt == (Interrupt { vector_address, b_flag_mask, cpu_cycles }),
    {
        Self { vector_address, b_flag_mask, cpu_cycles }
    }

    /// The descriptor of `kind`.
    pub fn descriptor(kind: InterruptType) -> (interrupt: Self)
        ensures
            interrupt == interrupt_descriptor(kind),
    {
        match kind {
            InterruptType::NMI => Interrupt::new(0xFFFA, 0b0010_0000, 2),
        }
    }
}

} // verus!
