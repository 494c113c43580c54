use vstd::prelude::*;
use vstd::string::StringExecFns;
use crate::text::{decimal, format_decimal};

verus! {

/// Size of the console's work RAM in bytes.
pub const RAM_SIZE: usize = 2048;

/// A linear byte store of `RAM_SIZE` bytes. Mirroring is the bus's concern.
#[derive(Debug)]
pub struct Ram([u8; RAM_SIZE]);

impl View for Ram {
    type V = Seq<u8>;

    closed spec fn view(&self) -> Seq<u8> {
        self.0@
    }
}

impl Ram {
    /// Every memory has exactly `RAM_SIZE` cells.
    pub proof fn lemma_len(&self)
        ensures
            self@.len() == RAM_SIZE,
    {
    }

    /// The byte in cell `addr`.
    pub fn read(&self, addr: u16) -> (byte: u8)
        requires
            addr < RAM_SIZE,
        ensures
            byte == self@[addr as int],
    {
        self.0[addr as usize]
    }

    /// Stores `byte` in cell `addr`.
    pub fn write(&mut self, addr: u16, byte: u8)
        requires
            addr < RAM_SIZE,
        ensures
            final(self)@ == old(self)@.update(addr as int, byte),
    {
        self.0[addr as usize] = byte;
    }

    /// Copies `data` into memory starting at `offset`.
    pub fn load(&mut self, offset: u16, data: &[u8])
        requires
            offset + data@.len() <= RAM_SIZE,
        ensures
            final(self)@.len() == RAM_SIZE,
            forall|i: int|
                0 <= i < RAM_SIZE ==> final(self)@[i] == if offset <= i < offset + data@.len() {
                    data@[i - offset]
                } else {
                    old(self)@[i]
                },
    {
        let mut i: usize = 0;
        while i < data.len()
            invariant
                i <= data@.len(),
                offset + data@.len() <= RAM_SIZE,
                self@.len() == RAM_SIZE,
                forall|k: int|
                    0 <= k < RAM_SIZE ==> self@[k] == if offset <= k < offset + i {
                        data@[k - offset]
                    } else {
                        old(self)@[k]
                    },
            decreases data@.len() - i,
        {
            self.0[offset as usize + i] = data[i];
            i += 1;
        }
    }

    /// A copy of the whole memory.
    pub fn dump(&self) -> (bytes: [u8; RAM_SIZE])
        ensures
            bytes@ == self@,
    {
        self.0
    }
}

/// The first `count` of `bytes` in decimal, each behind a space.
pub open spec fn listed(bytes: Seq<u8>, count: nat) -> Seq<char>
    decreases count,
{
    if count == 0 {
        Seq::empty()
    } else {
        listed(bytes, (count - 1) as nat) + " "@ + decimal(bytes[count - 1] as nat)
    }
}

impl Ram {
    /// The whole memory in decimal between square brackets.
    pub open spec fn description(bytes: Seq<u8>) -> Seq<char> {
        "["@ + listed(bytes, bytes.len()) + "]"@
    }

    /// Writes the whole memory down in decimal.
    pub fn describe(&self) -> (text: String)
        ensures
            text@ == Self::description(self@),
    {
        let mut list = String::new();
        let mut i: usize = 0;
        while i < RAM_SIZE
            invariant
                i <= RAM_SIZE,
                self@.len() == RAM_SIZE,
                list@ == listed(self@, i as nat),
            decreases RAM_SIZE - i,
        {
            list.append(" ");
            list.append(format_decimal(self.0[i] as u16).as_str());
            i += 1;
        }
        let mut text = String::from_str("[");
        text.append(list.as_str());
        text.append("]");
        text
    }
}

impl Default for Ram {
    fn default() -> (ram: Self)
        ensures
            ram@ == Seq::new(RAM_SIZE as nat, |i: int| 0u8),
    {
        let ram = Ram([0u8; RAM_SIZE]);
        assert(ram@ =~= Seq::new(RAM_SIZE as nat, |i: int| 0u8));
        ram
    }
}

} // verus!
