//! Frame sequence numbers.
//!
//! A frame carries a counter that wraps at the width of its header field. The
//! receiver works with whatever unsigned width the frame header has.
use vstd::prelude::*;

verus! {

/// An unsigned counter that wraps at its own width.
pub trait SeqNum: Copy + Sized {
    /// The counter as a number.
    spec fn value(self) -> nat;

    /// How many values the counter has.
    spec fn modulus() -> nat;

    /// The counter at zero.
    spec fn zero_spec() -> Self;

    /// The counter one step on.
    spec fn next_spec(self) -> Self;

    /// The number of steps that lead from `origin` to `self`.
    spec fn steps_from_spec(self, origin: Self) -> Self;

    /// The values are the numbers below the modulus, and a number names one counter.
    proof fn values(a: Self, b: Self)
        ensures
            0 <= a.value() < Self::modulus(),
            a.value() == b.value() ==> a == b,
    ;

    /// What the operations do to the number.
    proof fn arithmetic(self, origin: Self)
        ensures
            Self::modulus() > 1,
            Self::zero_spec().value() == 0,
            self.next_spec().value() == (self.value() + 1) % Self::modulus(),
            self.steps_from_spec(origin).value() == (self.value() - origin.value())
                % Self::modulus() as int,
    ;

    fn zero() -> (r: Self)
        ensures
            r == Self::zero_spec(),
    ;

    fn next(self) -> (r: Self)
        ensures
            r == self.next_spec(),
    ;

    fn steps_from(self, origin: Self) -> (r: Self)
        ensures
            r == self.steps_from_spec(origin),
    ;

    fn same(self, other: Self) -> (r: bool)
        ensures
            r == (self == other),
    ;
}

impl SeqNum for u8 {
    open spec fn value(self) -> nat {
        self as nat
    }

    open spec fn modulus() -> nat {
        0x100
    }

    open spec fn zero_spec() -> u8 {
        0
    }

    open spec fn next_spec(self) -> u8 {
        self.wrapping_add(1)
    }

    open spec fn steps_from_spec(self, origin: u8) -> u8 {
        self.wrapping_sub(origin)
    }

    proof fn values(a: u8, b: u8) {
    }

    proof fn arithmetic(self, origin: u8) {
    }

    fn zero() -> (r: u8) {
        0
    }

    fn next(self) -> (r: u8) {
        self.wrapping_add(1)
    }

    fn steps_from(self, origin: u8) -> (r: u8) {
        self.wrapping_sub(origin)
    }

    fn same(self, other: u8) -> (r: bool) {
        self == other
    }
}

impl SeqNum for u16 {
    open spec fn value(self) -> nat {
        self as nat
    }

    open spec fn modulus() -> nat {
        0x1_0000
    }

    open spec fn zero_spec() -> u16 {
        0
    }

    open spec fn next_spec(self) -> u16 {
        self.wrapping_add(1)
    }

    open spec fn steps_from_spec(self, origin: u16) -> u16 {
        self.wrapping_sub(origin)
    }

    proof fn values(a: u16, b: u16) {
    }

    proof fn arithmetic(self, origin: u16) {
    }

    fn zero() -> (r: u16) {
        0
    }

    fn next(self) -> (r: u16) {
        self.wrapping_add(1)
    }

    fn steps_from(self, origin: u16) -> (r: u16) {
        self.wrapping_sub(origin)
    }

    fn same(self, other: u16) -> (r: bool) {
        self == other
    }
}

impl SeqNum for u32 {
    open spec fn value(self) -> nat {
        self as nat
    }

    open spec fn modulus() -> nat {
        0x1_0000_0000
    }

    open spec fn zero_spec() -> u32 {
        0
    }

    open spec fn next_spec(self) -> u32 {
        self.wrapping_add(1)
    }

    open spec fn steps_from_spec(self, origin: u32) -> u32 {
        self.wrapping_sub(origin)
    }

    proof fn values(a: u32, b: u32) {
    }

    proof fn arithmetic(self, origin: u32) {
    }

    fn zero() -> (r: u32) {
        0
    }

    fn next(self) -> (r: u32) {
        self.wrapping_add(1)
    }

    fn steps_from(self, origin: u32) -> (r: u32) {
        self.wrapping_sub(origin)
    }

    fn same(self, other: u32) -> (r: bool) {
        self == other
    }
}

} // verus!
