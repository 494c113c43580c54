use vstd::prelude::*;

verus! {

/// How an instruction finds its operand. `NoneAddressing` stands for the
/// implied, accumulator and relative forms and for the jumps.
#[derive(Clone, Copy, Debug, PartialEq, Eq, Structural)]
pub enum AddressingMode {
    Immediate,
    ZeroPage,
    ZeroPageX,
    ZeroPageY,
    Absolute,
    AbsoluteX,
    AbsoluteY,
    IndirectX,
    IndirectY,
    NoneAddressing,
}

} // verus!
