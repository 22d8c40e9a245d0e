//! Access classes of a register.
//!
//! A register block names each of its registers with one of two wrappers.
//! [`RO`] offers `read` alone; [`RW`] adds `write` and `modify`. Both always
//! act on the whole register.
//!
//! A wrapper holds a snapshot: the value that the register had when the
//! block was loaded, or that software has put there since. It is not the
//! register. The hardware may change a register at any time, so a value read
//! from a snapshot says nothing of what the register holds now, and two reads
//! of a snapshot agree where two reads of the register need not. Likewise a
//! write to a snapshot reaches the hardware, with whatever else the write
//! sets off there, only when the register itself is written.
//!
//! The wrappers classify; they do not guard. A block's fields are public and
//! both wrappers can be made from any value, so the snapshot of a read-only
//! register can be replaced like any other field. What is guaranteed of a
//! read-only register is stated where a block is written out: `store` on
//! [`crate::dma::register::ChannelRegisterBlock`] and on
//! [`crate::dma::register::RegisterBlock`] leaves every byte of a read-only
//! register as it was.

use vstd::prelude::*;

verus! {

/// A snapshot of a register that software may only read.
pub struct RO<T> {
    value: T,
}

/// A snapshot of a register that software may read and write.
pub struct RW<T> {
    value: T,
}

impl<T> View for RO<T> {
    type V = T;

    /// The value that the snapshot holds.
    closed spec fn view(&self) -> T {
        self.value
    }
}

impl<T> View for RW<T> {
    type V = T;

    /// The value that the snapshot holds.
    closed spec fn view(&self) -> T {
        self.value
    }
}

impl<T: Copy> RO<T> {
    /// The snapshot of a read-only register that read as `value`.
    pub fn new(value: T) -> (register: Self)
        ensures
            register@ == value,
    {
        RO { value }
    }

    /// The whole register, as the snapshot holds it.
    pub fn read(&self) -> (value: T)
        ensures
            value == self@,
    {
        self.value
    }
}

impl<T: Copy> RW<T> {
    /// The snapshot of a read-write register that read as `value`.
    pub fn new(value: T) -> (register: Self)
        ensures
            register@ == value,
    {
        RW { value }
    }

    /// The whole register, as the snapshot holds it.
    pub fn read(&self) -> (value: T)
        ensures
            value == self@,
    {
        self.value
    }

    /// Replaces the whole register in the snapshot.
    pub fn write(&mut self, value: T)
        ensures
            final(self)@ == value,
    {
        self.value = value;
    }

    /// Applies `f` to the whole register as the snapshot holds it and puts
    /// the result in its place.
    pub fn modify<F: FnOnce(T) -> T>(&mut self, f: F)
        requires
            call_requires(f, (old(self)@,)),
        ensures
            call_ensures(f, (old(self)@,), final(self)@),
    {
        let before: T = self.value;
        self.value = f(before);
    }
}

} // verus!
