use vstd::prelude::*;

verus! {

/// An immutable byte image, such as a cartridge's program or character ROM.
#[derive(Debug)]
pub struct Rom(Vec<u8>);

impl View for Rom {
    type V = Seq<u8>;

    closed spec fn view(&self) -> Seq<u8> {
        self.0@
    }
}

impl Rom {
    /// An image of the given bytes.
    pub fn new(data: Vec<u8>) -> (rom: Self)
        ensures
            rom@ == data@,
    {
        Self(data)
    }

    pub fn len(&self) -> (n: usize)
        ensures
            n == self@.len(),
    {
        self.0.len()
    }

    pub fn is_empty(&self) -> (b: bool)
        ensures
            b == (self@.len() == 0),
    {
        self.0.len() == 0
    }

    /// The byte stored at `addr`.
    pub fn read(&self, addr: u16) -> (byte: u8)
        requires
            addr < self@.len(),
        ensures
            byte == self@[addr as int],
    {
        self.0[addr as usize]
    }

    /// The bytes of the image.
    pub fn as_slice(&self) -> (bytes: &[u8])
        ensures
            bytes@ == self@,
    {
        self.0.as_slice()
    }

}

impl Clone for Rom {
    fn clone(&self) -> (rom: Self)
        ensures
            rom@ == self@,
    {
        let mut bytes: Vec<u8> = Vec::new();
        let mut i: usize = 0;
        while i < self.0.len()
            invariant
                i <= self@.len(),
                bytes@ == self@.subrange(0, i as int),
            decreases self@.len() - i,
        {
            bytes.push(self.0[i]);
            assert(bytes@ =~= self@.subrange(0, i + 1));
            i += 1;
        }
        assert(bytes@ =~= self@);
        Self(bytes)
    }
}

impl Rom {
    /// Turns the image into a cursor that hands its bytes out front to back.
    pub fn into_iter(self) -> (it: RomIntoIterator)
        ensures
            it.bytes() == self@,
            it.position() == 0,
    {
        RomIntoIterator { data: self.0, index: 0 }
    }
}

/// A cursor over the bytes of a consumed `Rom`.
pub struct RomIntoIterator {
    data: Vec<u8>,
    index: usize,
}

impl RomIntoIterator {
    /// All bytes of the image the cursor was made from.
    pub closed spec fn bytes(&self) -> Seq<u8> {
        self.data@
    }

    /// How many bytes have been handed out.
    pub closed spec fn position(&self) -> nat {
        self.index as nat
    }

    #[verifier::type_invariant]
    spec fn within_bounds(&self) -> bool {
        self.index <= self.data@.len()
    }

    /// Hands out the next byte, or `None` once the image is exhausted.
    pub fn next(&mut self) -> (item: Option<u8>)
        ensures
            final(self).bytes() == old(self).bytes(),
            old(self).position() < old(self).bytes().len() ==> {
                &&& item == Some(old(self).bytes()[old(self).position() as int])
                &&& final(self).position() == old(self).position() + 1
            },
            old(self).position() >= old(self).bytes().len() ==> {
                &&& item.is_none()
                &&& final(self).position() == old(self).position()
            },
    {
        proof {
            use_type_invariant(&*self);
        }
        if self.index < self.data.len() {
            let byte = self.data[self.index];
            self.index += 1;
            Some(byte)
        } else {
            None
        }
    }
}

} // verus!
