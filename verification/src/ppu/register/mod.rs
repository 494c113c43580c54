use vstd::prelude::*;

pub mod address;
pub mod control;
pub mod mask;
pub mod scroll;
pub mod status;

use address::AddressRegister;
use control::ControlRegister;
use mask::MaskRegister;
use scroll::ScrollRegister;
use status::StatusRegister;

verus! {

/// The register file that the picture unit exposes on the bus.
#[derive(Debug)]
pub struct PpuRegisters {
    pub address: AddressRegister,
    pub control: ControlRegister,
    pub mask: MaskRegister,
    pub scroll: ScrollRegister,
    pub status: StatusRegister,
}

impl Default for PpuRegisters {
    fn default() -> (r: Self)
        ensures
            r.address.value() == 0,
            r.address.expects_high(),
            r.control.bits_spec() == 0,
            r.mask.bits_spec() == 0,
            r.scroll.x() == 0,
            r.scroll.y() == 0,
            r.scroll.expects_x(),
            r.status.bits_spec() == 0,
    {
        Self {
            address: AddressRegister::default(),
            control: ControlRegister::default(),
            mask: MaskRegister::default(),
            scroll: ScrollRegister::default(),
            status: StatusRegister::default(),
        }
    }
}

} // verus!
