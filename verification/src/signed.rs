//! The signed marker: the integer-capable representations whose values may
//! fall below zero.

use vstd::prelude::*;
use crate::Unsigned;

verus! {

/// A signed integer-like scalar representation: everything `Unsigned`
/// offers, over a range that extends below zero.
pub trait Signed: Unsigned {
}

impl Signed for i8 {
}

impl Signed for i16 {
}

impl Signed for i32 {
}

impl Signed for i64 {
}

impl Signed for i128 {
}

} // verus!
