use vstd::prelude::*;

verus! {

/// The rendering flags, stored as written.
#[derive(Debug)]
pub struct MaskRegister {
    bits: u8,
}

impl MaskRegister {
    pub closed spec fn bits_spec(&self) -> u8 {
        self.bits
    }

    #[verifier::when_used_as_spec(bits_spec)]
    pub fn bits(&self) -> (bits: u8)
        ensures
            bits == self.bits_spec(),
    {
        self.bits
    }

    pub fn update(&mut self, data: u8)
        ensures
            final(self).bits() == data,
    {
        self.bits = data;
    }
}

impl Default for MaskRegister {
    fn default() -> (r: Self)
        ensures
            r.bits() == 0,
    {
        Self { bits: 0 }
    }
}

} // verus!
