use vstd::prelude::*;
use crate::bits::{make_word, split_word, word, low_byte, high_byte};
use crate::error::{outcome, ErrorKind, Result};

verus! {

/// The state an access leaves behind, and what it yields.
pub type Access<S, T> = (S, std::result::Result<T, ErrorKind>);

/// Two byte reads, low byte first, composed into a word. The second read
/// sees what the first has left; the first failure ends the access. The
/// address after `0xFFFF` is 0.
pub open spec fn read_word_with<S>(
    read: spec_fn(S, u16) -> Access<S, u8>,
    state: S,
    addr: u16,
) -> Access<S, u16> {
    let low = read(state, addr);
    match low.1 {
        Err(kind) => (low.0, Err(kind)),
        Ok(lower) => {
            let high = read(low.0, addr.wrapping_add(1));
            match high.1 {
                Err(kind) => (high.0, Err(kind)),
                Ok(upper) => (high.0, Ok(word(lower, upper))),
            }
        },
    }
}

/// Two byte writes, low byte first; the first failure ends the access.
/// The address after `0xFFFF` is 0.
pub open spec fn write_word_with<S>(
    write: spec_fn(S, u16, u8) -> Access<S, ()>,
    state: S,
    addr: u16,
    word: u16,
) -> Access<S, ()> {
    let low = write(state, addr, low_byte(word));
    match low.1 {
        Err(kind) => (low.0, Err(kind)),
        Ok(_) => write(low.0, addr.wrapping_add(1), high_byte(word)),
    }
}

/// A device that can be read byte by byte over 16-bit addresses. A read
/// may change the device, and where it fails it may have done so already.
pub trait Read: View + Sized {
    /// What a read of one byte does to the device and what it yields.
    spec fn read_spec(state: Self::V, addr: u16) -> Access<Self::V, u8>;

    fn read_byte(&mut self, addr: u16) -> (r: Result<u8>)
        ensures
            (final(self)@, outcome(r)) == Self::read_spec(old(self)@, addr),
    ;

    /// Reads the little-endian word at `addr`.
    fn read_word(&mut self, addr: u16) -> (r: Result<u16>)
        ensures
            (final(self)@, outcome(r)) == read_word_with(
                |s: Self::V, a: u16| Self::read_spec(s, a),
                old(self)@,
                addr,
            ),
    {
        let lower = match self.read_byte(addr) {
            Ok(byte) => byte,
            Err(e) => return Err(e),
        };
        let upper = match self.read_byte(addr.wrapping_add(1)) {
            Ok(byte) => byte,
            Err(e) => return Err(e),
        };

        Ok(make_word(lower, upper))
    }
}

/// A device that can be written byte by byte over 16-bit addresses.
pub trait Write: View + Sized {
    /// What a write of one byte does to the device, and whether it is accepted.
    spec fn write_spec(state: Self::V, addr: u16, byte: u8) -> Access<Self::V, ()>;

    fn write_byte(&mut self, addr: u16, byte: u8) -> (r: Result<()>)
        ensures
            (final(self)@, outcome(r)) == Self::write_spec(old(self)@, addr, byte),
    ;

    /// Writes a word little-endian.
    fn write_word(&mut self, addr: u16, word: u16) -> (r: Result<()>)
        ensures
            (final(self)@, outcome(r)) == write_word_with(
                |s: Self::V, a: u16, b: u8| Self::write_spec(s, a, b),
                old(self)@,
                addr,
                word,
            ),
    {
        let (lower, upper) = split_word(word);

        match self.write_byte(addr, lower) {
            Ok(_) => self.write_byte(addr.wrapping_add(1), upper),
            Err(e) => Err(e),
        }
    }
}

} // verus!
