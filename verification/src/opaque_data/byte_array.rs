//! Arrays of bytes whose length is part of their type.

use crate::framing::zeros;
use vstd::prelude::*;

verus! {

/// An array of bytes of a length that its type fixes.
pub trait ByteArray: Sized {
    /// The number of bytes in every array of the type.
    spec fn length() -> nat;

    /// The bytes of the array, in order.
    spec fn bytes(&self) -> Seq<u8>;

    /// An array of zeros.
    fn default() -> (array: Self)
        ensures
            array.bytes() == zeros(Self::length()),
    ;

    /// The number of bytes in every array of the type.
    fn len() -> (length: usize)
        ensures
            length == Self::length(),
    ;

    /// Puts `byte` at `index`.
    fn set(&mut self, index: usize, byte: u8)
        requires
            index < Self::length(),
            old(self).bytes().len() == Self::length(),
        ensures
            final(self).bytes() == old(self).bytes().update(index as int, byte),
    ;
}

impl<const N: usize> ByteArray for [u8; N] {
    open spec fn length() -> nat {
        N as nat
    }

    open spec fn bytes(&self) -> Seq<u8> {
        self@
    }

    fn default() -> (array: Self) {
        let array = [0u8;N];
        assert(array@ =~= zeros(N as nat));
        array
    }

    fn len() -> (length: usize) {
        N
    }

    fn set(&mut self, index: usize, byte: u8) {
        self[index] = byte;
    }
}

} // verus!
