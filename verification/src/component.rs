use vstd::prelude::*;

verus! {

/// The smallest value of a machine word type.
pub trait Min: Sized {
    spec fn min_spec() -> Self;

    fn min() -> (value: Self)
        ensures
            value == Self::min_spec(),
    ;
}

/// The largest value of a machine word type.
pub trait Max: Sized {
    spec fn max_spec() -> Self;

    fn max() -> (value: Self)
        ensures
            value == Self::max_spec(),
    ;
}

impl Min for u8 {
    open spec fn min_spec() -> u8 {
        u8::MIN
    }

    fn min() -> u8 {
        u8::MIN
    }
}

impl Max for u8 {
    open spec fn max_spec() -> u8 {
        u8::MAX
    }

    fn max() -> u8 {
        u8::MAX
    }
}

impl Min for u16 {
    open spec fn min_spec() -> u16 {
        u16::MIN
    }

    fn min() -> u16 {
        u16::MIN
    }
}

impl Max for u16 {
    open spec fn max_spec() -> u16 {
        u16::MAX
    }

    fn max() -> u16 {
        u16::MAX
    }
}

/// The unit of `u8`, as `num::one` gives it: the crate defines it as the
/// literal 1 for every primitive integer type.
#[verifier::external_body]
fn one_u8() -> (unit: u8)
    ensures
        unit == 1,
{
    num::one()
}

/// The unit of `u16`, as `num::one` gives it: the crate defines it as the
/// literal 1 for every primitive integer type.
#[verifier::external_body]
fn one_u16() -> (unit: u16)
    ensures
        unit == 1,
{
    num::one()
}

/// A register: a cell that holds one machine word and counts in a circle.
#[derive(Debug)]
pub struct Component<T>(T);

impl<T: Copy> Component<T> {
    /// The word that the register holds.
    pub closed spec fn value(&self) -> T {
        self.0
    }

    pub fn new(value: T) -> (component: Self)
        ensures
            component.value() == value,
    {
        Self(value)
    }

    pub fn get(&self) -> (value: T)
        ensures
            value == self.value(),
    {
        self.0
    }

    pub fn set(&mut self, value: T)
        ensures
            final(self).value() == value,
    {
        self.0 = value;
    }
}

impl<T: Copy + Min> Component<T> {
    /// Sets the register to the smallest value of its type.
    pub fn reset(&mut self)
        ensures
            final(self).value() == T::min_spec(),
    {
        self.0 = T::min();
    }
}

impl Component<u8> {
    /// Counts up by one; after the largest value comes the smallest.
    pub fn increment(&mut self)
        ensures
            final(self).value() == old(self).value().wrapping_add(1),
    {
        if self.0 < <u8 as Max>::max() {
            self.0 = self.0 + one_u8();
        } else {
            self.0 = <u8 as Min>::min();
        }
    }

    /// Counts down by one; before the smallest value comes the largest.
    pub fn decrement(&mut self)
        ensures
            final(self).value() == old(self).value().wrapping_sub(1),
    {
        if self.0 > <u8 as Min>::min() {
            self.0 = self.0 - one_u8();
        } else {
            self.0 = <u8 as Max>::max();
        }
    }
}

impl Component<u16> {
    /// Counts up by one; after the largest value comes the smallest.
    pub fn increment(&mut self)
        ensures
            final(self).value() == old(self).value().wrapping_add(1),
    {
        if self.0 < <u16 as Max>::max() {
            self.0 = self.0 + one_u16();
        } else {
            self.0 = <u16 as Min>::min();
        }
    }

    /// Counts down by one; before the smallest value comes the largest.
    pub fn decrement(&mut self)
        ensures
            final(self).value() == old(self).value().wrapping_sub(1),
    {
        if self.0 > <u16 as Min>::min() {
            self.0 = self.0 - one_u16();
        } else {
            self.0 = <u16 as Max>::max();
        }
    }
}

} // verus!
