//! Ready-made key types: gapless domains of `N` values at each supported
//! representation width.
//!
//! A `KeyU8<N>` is one of the values `0, 1, …, N - 1` represented as a `u8`,
//! and likewise for the wider and the native representation widths. Each
//! type upholds the layout invariant by construction — a value outside the
//! domain cannot be built — so all of them are valid [`PrimitiveEnum`] key
//! types, and the same logical domain can be declared at any width.

use crate::map::{spec_key_to_index, PrimitiveEnum};
use crate::utils::TransmuteSafe;
use vstd::prelude::*;

verus! {

/// A key domain of `N` sequential values, represented as a `u8`.
#[derive(Copy, Clone, PartialEq, Eq, Debug)]
pub struct KeyU8<const N: usize> {
    value: u8,
}

impl<const N: usize> KeyU8<N> {
    /// The key with discriminant `value`, or `None` when `value` lies
    /// outside the domain. Succeeds exactly on `value < N`.
    pub fn new(value: u8) -> (r: Option<Self>)
        ensures
            r is Some <==> (value as int) < N as int,
            r matches Some(k) ==> spec_key_to_index(k) == value as int && k.valid(),
    {
        if (value as usize) < N {
            Some(KeyU8 { value })
        } else {
            None
        }
    }
}

impl<const N: usize> TransmuteSafe<u8> for KeyU8<N> {
    closed spec fn reinterpret_spec(self) -> u8 {
        self.value
    }

    proof fn lemma_reinterpret_lossless(self, other: Self) {
    }

    fn reinterpret(self) -> (r: u8) {
        self.value
    }
}

impl<const N: usize> PrimitiveEnum for KeyU8<N> {
    type Discriminant = u8;

    open spec fn max_variants() -> int {
        N as int
    }

    closed spec fn valid(self) -> bool {
        (self.value as int) < N as int
    }

    proof fn lemma_discriminant_in_range(self) {
    }

    fn slot_count() -> (n: usize) {
        N
    }
}

/// A key domain of `N` sequential values, represented as a `u16`.
#[derive(Copy, Clone, PartialEq, Eq, Debug)]
pub struct KeyU16<const N: usize> {
    value: u16,
}

impl<const N: usize> KeyU16<N> {
    /// The key with discriminant `value`, or `None` when `value` lies
    /// outside the domain. Succeeds exactly on `value < N`.
    pub fn new(value: u16) -> (r: Option<Self>)
        ensures
            r is Some <==> (value as int) < N as int,
            r matches Some(k) ==> spec_key_to_index(k) == value as int && k.valid(),
    {
        if (value as usize) < N {
            Some(KeyU16 { value })
        } else {
            None
        }
    }
}

impl<const N: usize> TransmuteSafe<u16> for KeyU16<N> {
    closed spec fn reinterpret_spec(self) -> u16 {
        self.value
    }

    proof fn lemma_reinterpret_lossless(self, other: Self) {
    }

    fn reinterpret(self) -> (r: u16) {
        self.value
    }
}

impl<const N: usize> PrimitiveEnum for KeyU16<N> {
    type Discriminant = u16;

    open spec fn max_variants() -> int {
        N as int
    }

    closed spec fn valid(self) -> bool {
        (self.value as int) < N as int
    }

    proof fn lemma_discriminant_in_range(self) {
    }

    fn slot_count() -> (n: usize) {
        N
    }
}

/// A key domain of `N` sequential values, represented as a `u32`.
#[derive(Copy, Clone, PartialEq, Eq, Debug)]
pub struct KeyU32<const N: usize> {
    value: u32,
}

impl<const N: usize> KeyU32<N> {
    /// The key with discriminant `value`, or `None` when `value` lies
    /// outside the domain. Succeeds exactly on `value < N`.
    pub fn new(value: u32) -> (r: Option<Self>)
        ensures
            r is Some <==> (value as int) < N as int,
            r matches Some(k) ==> spec_key_to_index(k) == value as int && k.valid(),
    {
        if (value as usize) < N {
            Some(KeyU32 { value })
        } else {
            None
        }
    }
}

impl<const N: usize> TransmuteSafe<u32> for KeyU32<N> {
    closed spec fn reinterpret_spec(self) -> u32 {
        self.value
    }

    proof fn lemma_reinterpret_lossless(self, other: Self) {
    }

    fn reinterpret(self) -> (r: u32) {
        self.value
    }
}

impl<const N: usize> PrimitiveEnum for KeyU32<N> {
    type Discriminant = u32;

    open spec fn max_variants() -> int {
        N as int
    }

    closed spec fn valid(self) -> bool {
        (self.value as int) < N as int
    }

    proof fn lemma_discriminant_in_range(self) {
    }

    fn slot_count() -> (n: usize) {
        N
    }
}

/// A key domain of `N` sequential values, represented as a `u64`.
#[derive(Copy, Clone, PartialEq, Eq, Debug)]
pub struct KeyU64<const N: usize> {
    value: u64,
}

impl<const N: usize> KeyU64<N> {
    /// The key with discriminant `value`, or `None` when `value` lies
    /// outside the domain. Succeeds exactly on `value < N`.
    pub fn new(value: u64) -> (r: Option<Self>)
        ensures
            r is Some <==> (value as int) < N as int,
            r matches Some(k) ==> spec_key_to_index(k) == value as int && k.valid(),
    {
        if value < N as u64 {
            Some(KeyU64 { value })
        } else {
            None
        }
    }
}

impl<const N: usize> TransmuteSafe<u64> for KeyU64<N> {
    closed spec fn reinterpret_spec(self) -> u64 {
        self.value
    }

    proof fn lemma_reinterpret_lossless(self, other: Self) {
    }

    fn reinterpret(self) -> (r: u64) {
        self.value
    }
}

impl<const N: usize> PrimitiveEnum for KeyU64<N> {
    type Discriminant = u64;

    open spec fn max_variants() -> int {
        N as int
    }

    closed spec fn valid(self) -> bool {
        (self.value as int) < N as int
    }

    proof fn lemma_discriminant_in_range(self) {
    }

    fn slot_count() -> (n: usize) {
        N
    }
}

/// A key domain of `N` sequential values, at the native index width.
#[derive(Copy, Clone, PartialEq, Eq, Debug)]
pub struct KeyUsize<const N: usize> {
    value: usize,
}

impl<const N: usize> KeyUsize<N> {
    /// The key with discriminant `value`, or `None` when `value` lies
    /// outside the domain. Succeeds exactly on `value < N`.
    pub fn new(value: usize) -> (r: Option<Self>)
        ensures
            r is Some <==> (value as int) < N as int,
            r matches Some(k) ==> spec_key_to_index(k) == value as int && k.valid(),
    {
        if value < N {
            Some(KeyUsize { value })
        } else {
            None
        }
    }
}

impl<const N: usize> TransmuteSafe<usize> for KeyUsize<N> {
    closed spec fn reinterpret_spec(self) -> usize {
        self.value
    }

    proof fn lemma_reinterpret_lossless(self, other: Self) {
    }

    fn reinterpret(self) -> (r: usize) {
        self.value
    }
}

impl<const N: usize> PrimitiveEnum for KeyUsize<N> {
    type Discriminant = usize;

    open spec fn max_variants() -> int {
        N as int
    }

    closed spec fn valid(self) -> bool {
        (self.value as int) < N as int
    }

    proof fn lemma_discriminant_in_range(self) {
    }

    fn slot_count() -> (n: usize) {
        N
    }
}

} // verus!
