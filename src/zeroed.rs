use vstd::prelude::*;

verus! {

/// Element types for which the value whose bytes are all zero is a valid
/// value. `zero` names that value and `zeroed` produces it.
pub trait Zeroable: Sized {
    /// The value whose bytes are all zero.
    spec fn zero() -> Self;

    fn zeroed() -> (r: Self)
        ensures
            r == Self::zero(),
    ;
}

impl Zeroable for u8 {
    open spec fn zero() -> u8 {
        0
    }

    fn zeroed() -> (r: u8) {
        0
    }
}

impl Zeroable for u16 {
    open spec fn zero() -> u16 {
        0
    }

    fn zeroed() -> (r: u16) {
        0
    }
}

impl Zeroable for u32 {
    open spec fn zero() -> u32 {
        0
    }

    fn zeroed() -> (r: u32) {
        0
    }
}

impl Zeroable for u64 {
    open spec fn zero() -> u64 {
        0
    }

    fn zeroed() -> (r: u64) {
        0
    }
}

impl Zeroable for u128 {
    open spec fn zero() -> u128 {
        0
    }

    fn zeroed() -> (r: u128) {
        0
    }
}

impl Zeroable for usize {
    open spec fn zero() -> usize {
        0
    }

    fn zeroed() -> (r: usize) {
        0
    }
}

impl Zeroable for i8 {
    open spec fn zero() -> i8 {
        0
    }

    fn zeroed() -> (r: i8) {
        0
    }
}

impl Zeroable for i16 {
    open spec fn zero() -> i16 {
        0
    }

    fn zeroed() -> (r: i16) {
        0
    }
}

impl Zeroable for i32 {
    open spec fn zero() -> i32 {
        0
    }

    fn zeroed() -> (r: i32) {
        0
    }
}

impl Zeroable for i64 {
    open spec fn zero() -> i64 {
        0
    }

    fn zeroed() -> (r: i64) {
        0
    }
}

impl Zeroable for i128 {
    open spec fn zero() -> i128 {
        0
    }

    fn zeroed() -> (r: i128) {
        0
    }
}

impl Zeroable for isize {
    open spec fn zero() -> isize {
        0
    }

    fn zeroed() -> (r: isize) {
        0
    }
}

impl Zeroable for bool {
    open spec fn zero() -> bool {
        false
    }

    fn zeroed() -> (r: bool) {
        false
    }
}

impl Zeroable for char {
    open spec fn zero() -> char {
        '\0'
    }

    fn zeroed() -> (r: char) {
        '\0'
    }
}

impl Zeroable for () {
    open spec fn zero() -> () {
        ()
    }

    fn zeroed() -> (r: ()) {
        ()
    }
}

} // verus!
