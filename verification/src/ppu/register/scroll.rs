use vstd::prelude::*;

verus! {

/// The scroll position, written one coordinate at a time, `x` first.
#[derive(Debug)]
pub struct ScrollRegister {
    x: u8,
    y: u8,
    latch: bool,
}

impl ScrollRegister {
    pub closed spec fn x(&self) -> u8 {
        self.x
    }

    pub closed spec fn y(&self) -> u8 {
        self.y
    }

    /// Whether the next byte written is the horizontal coordinate.
    pub closed spec fn expects_x(&self) -> bool {
        !self.latch
    }

    pub fn write(&mut self, data: u8)
        ensures
            final(self).expects_x() == !old(self).expects_x(),
            final(self).x() == if old(self).expects_x() {
                data
            } else {
                old(self).x()
            },
            final(self).y() == if old(self).expects_x() {
                old(self).y()
            } else {
                data
            },
    {
        if self.latch {
            self.y = data;
        } else {
            self.x = data;
        }
        self.latch = !self.latch;
    }

    pub fn reset_latch(&mut self)
        ensures
            final(self).expects_x(),
            final(self).x() == old(self).x(),
            final(self).y() == old(self).y(),
    {
        self.latch = false;
    }
}

impl Default for ScrollRegister {
    fn default() -> (r: Self)
        ensures
            r.x() == 0,
            r.y() == 0,
            r.expects_x(),
    {
        Self { x: 0, y: 0, latch: false }
    }
}

} // verus!
