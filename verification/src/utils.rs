//! Numeric widening and lossless bit-reinterpretation.
//!
//! These two capabilities are the foundation of key-to-index mapping: a key
//! is first reinterpreted as its underlying discriminant type
//! ([`TransmuteSafe`]) and the discriminant is then widened to the native
//! index width ([`ConstIntoUSize`]). Both conversions are lossless, which is
//! what makes the key-to-slot mapping injective.

use vstd::prelude::*;

verus! {

/// An unsigned fixed-width integer that widens losslessly to a native index.
///
/// `as_index` is the value the integer denotes; `native_index` produces that
/// value at the platform's index width. Widening is injective: two values
/// with the same denotation are the same value.
pub trait ConstIntoUSize: Copy + Sized {
    /// The denoted value, as a mathematical integer.
    spec fn as_index(self) -> int;

    /// Every denoted value is non-negative: the representation is unsigned.
    proof fn lemma_as_index_nonneg(self)
        ensures
            0 <= self.as_index(),
    ;

    /// The denotation is injective: widening loses nothing.
    proof fn lemma_as_index_injective(self, other: Self)
        requires
            self.as_index() == other.as_index(),
        ensures
            self == other,
    ;

    /// The denoted value at native index width.
    fn native_index(self) -> (r: usize)
        requires
            self.as_index() <= usize::MAX as int,
        ensures
            r as int == self.as_index(),
    ;
}

/// Widens an unsigned integer of any supported width to a native index.
pub fn into_usize<T: ConstIntoUSize>(value: T) -> (r: usize)
    requires
        value.as_index() <= usize::MAX as int,
    ensures
        r as int == value.as_index(),
{
    value.native_index()
}

impl ConstIntoUSize for u8 {
    open spec fn as_index(self) -> int {
        self as int
    }

    proof fn lemma_as_index_nonneg(self) {
    }

    proof fn lemma_as_index_injective(self, other: Self) {
    }

    fn native_index(self) -> (r: usize) {
        self as usize
    }
}

impl ConstIntoUSize for u16 {
    open spec fn as_index(self) -> int {
        self as int
    }

    proof fn lemma_as_index_nonneg(self) {
    }

    proof fn lemma_as_index_injective(self, other: Self) {
    }

    fn native_index(self) -> (r: usize) {
        self as usize
    }
}

impl ConstIntoUSize for u32 {
    open spec fn as_index(self) -> int {
        self as int
    }

    proof fn lemma_as_index_nonneg(self) {
    }

    proof fn lemma_as_index_injective(self, other: Self) {
    }

    fn native_index(self) -> (r: usize) {
        self as usize
    }
}

impl ConstIntoUSize for u64 {
    open spec fn as_index(self) -> int {
        self as int
    }

    proof fn lemma_as_index_nonneg(self) {
    }

    proof fn lemma_as_index_injective(self, other: Self) {
    }

    fn native_index(self) -> (r: usize) {
        self as usize
    }
}

impl ConstIntoUSize for usize {
    open spec fn as_index(self) -> int {
        self as int
    }

    proof fn lemma_as_index_nonneg(self) {
    }

    proof fn lemma_as_index_injective(self, other: Self) {
    }

    fn native_index(self) -> (r: usize) {
        self
    }
}

/// A value of `Self` can be losslessly reinterpreted as a value of `Dst`.
///
/// An implementation asserts that every value of `Self` corresponds to
/// exactly one value of `Dst` (`reinterpret_spec`) and provides the
/// reinterpretation as executable code proved against that correspondence.
/// Losslessness — two values with the same image are equal — is what lets a
/// container give each key its own slot.
pub trait TransmuteSafe<Dst: Copy>: Copy + Sized {
    /// The image of `self` under the reinterpretation.
    spec fn reinterpret_spec(self) -> Dst;

    /// The reinterpretation is injective: no two values share an image.
    proof fn lemma_reinterpret_lossless(self, other: Self)
        requires
            self.reinterpret_spec() == other.reinterpret_spec(),
        ensures
            self == other,
    ;

    /// Reinterprets `self` as a `Dst` value.
    fn reinterpret(self) -> (r: Dst)
        ensures
            r == self.reinterpret_spec(),
    ;
}

/// Reinterprets a value of `Src` as the corresponding value of `Dst`.
pub fn transmute_safe<Src: TransmuteSafe<Dst>, Dst: Copy>(src: Src) -> (r: Dst)
    ensures
        r == src.reinterpret_spec(),
{
    src.reinterpret()
}

/// Reinterprets the value behind a reference as the corresponding `Dst` value.
pub fn transmute_copy_safe<Src: TransmuteSafe<Dst>, Dst: Copy>(src: &Src) -> (r: Dst)
    ensures
        r == src.reinterpret_spec(),
{
    (*src).reinterpret()
}

} // verus!
