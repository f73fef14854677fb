//! The key-to-index mapping and the fixed-capacity map container.
//!
//! A key type declares, through [`PrimitiveEnum`], an underlying unsigned
//! discriminant type and a slot count, together with the layout invariant
//! that every key's discriminant lies below the slot count. [`key_to_index`]
//! turns a key into a native index by reinterpreting it as its discriminant
//! and widening; the invariant guarantees the index is in bounds, so
//! [`ConstArrayMap`] accessors have no failure path.

use crate::utils::{into_usize, transmute_safe, ConstIntoUSize, TransmuteSafe};
use core::marker::PhantomData;
use vstd::prelude::*;

verus! {

/// A key type whose values are the variants of a closed enumeration with an
/// unsigned primitive representation.
///
/// The layout invariant — established once by whoever declares the key type,
/// typically from a derived [`crate::derive::PrimitiveEnumLayout`] — states
/// that every key value, reinterpreted as its discriminant and widened,
/// falls in `[0, max_variants())`. Every container access relies on it.
pub trait PrimitiveEnum: Copy + Sized + TransmuteSafe<Self::Discriminant> {
    /// The underlying numerical type used to represent the enum's variants.
    type Discriminant: ConstIntoUSize;

    /// The number of slots the key domain requires: one more than the
    /// greatest discriminant among the domain's values.
    spec fn max_variants() -> int;

    /// Whether a value belongs to the key domain. Constructors of the key
    /// type establish it; it is never re-checked at access time.
    spec fn valid(self) -> bool;

    /// The layout invariant: each valid key's discriminant lies in
    /// `[0, max_variants())`, and the slot count fits a native index.
    proof fn lemma_discriminant_in_range(self)
        requires
            self.valid(),
        ensures
            0 <= self.reinterpret_spec().as_index() < Self::max_variants(),
            Self::max_variants() <= usize::MAX as int,
    ;

    /// The slot count as a native index.
    fn slot_count() -> (n: usize)
        ensures
            n as int == Self::max_variants(),
    ;
}

/// The slot index a key maps to, as a mathematical integer.
pub open spec fn spec_key_to_index<K: PrimitiveEnum>(key: K) -> int {
    key.reinterpret_spec().as_index()
}

/// The key-to-index mapping is a bijection onto `[0, max_variants())`:
/// every key's index is in range, and distinct keys get distinct indices.
pub proof fn lemma_key_to_index_bijective<K: PrimitiveEnum>(k1: K, k2: K)
    requires
        k1.valid(),
        k2.valid(),
    ensures
        0 <= spec_key_to_index(k1) < K::max_variants(),
        spec_key_to_index(k1) == spec_key_to_index(k2) ==> k1 == k2,
{
    k1.lemma_discriminant_in_range();
    if spec_key_to_index(k1) == spec_key_to_index(k2) {
        k1.reinterpret_spec().lemma_as_index_injective(k2.reinterpret_spec());
        k1.lemma_reinterpret_lossless(k2);
    }
}

/// Maps a key to its slot index: reinterpret as the discriminant, then widen
/// to the native index width. By the layout invariant the result is below
/// `K::max_variants()`; no check is needed and none is made.
pub fn key_to_index<K: PrimitiveEnum>(key: K) -> (i: usize)
    requires
        key.valid(),
    ensures
        i as int == spec_key_to_index(key),
        (i as int) < K::max_variants(),
{
    proof {
        key.lemma_discriminant_in_range();
    }
    let repr: K::Discriminant = transmute_safe(key);
    into_usize(repr)
}

/// An associative array backed by one contiguous block of storage, one slot
/// per possible key value.
///
/// The container owns exactly `K::max_variants()` slots; a key addresses its
/// slot directly through [`key_to_index`], so access is a single index
/// computation and one memory access, with no hashing, no search and no
/// failure path.
pub struct ConstArrayMap<K: PrimitiveEnum, V> {
    storage: Vec<V>,
    keys: PhantomData<K>,
}

impl<K: PrimitiveEnum, V> View for ConstArrayMap<K, V> {
    type V = Seq<V>;

    /// The container's model: the sequence of its slots in index order.
    closed spec fn view(&self) -> Seq<V> {
        self.storage@
    }
}

impl<K: PrimitiveEnum, V> ConstArrayMap<K, V> {
    /// The container's structural invariant: one slot per possible key.
    pub open spec fn wf(self) -> bool {
        self@.len() == K::max_variants()
    }

    /// The value the container associates with `key`.
    pub open spec fn spec_get(self, key: K) -> V {
        self@[spec_key_to_index(key)]
    }

    /// Returns a reference to the value associated with the given key.
    ///
    /// This is the fast access mode: the layout invariant guarantees the
    /// derived index is in bounds, so no bounds failure can occur.
    pub fn get(&self, key: K) -> (v: &V)
        requires
            self.wf(),
            key.valid(),
        ensures
            *v == self.spec_get(key),
    {
        let idx = key_to_index(key);
        &self.storage[idx]
    }

    /// Returns a reference to the value associated with the given key,
    /// checking the derived index against the slot count.
    ///
    /// This is the checked access mode: it exists for evaluation contexts
    /// that cannot assume the unchecked-access guarantee. The check can
    /// never fail — the layout invariant makes the out-of-bounds branch
    /// unreachable — and the result equals that of [`Self::get`].
    pub fn const_get(&self, key: K) -> (v: &V)
        requires
            self.wf(),
            key.valid(),
        ensures
            *v == self.spec_get(key),
    {
        let idx = key_to_index(key);
        if idx < self.storage.len() {
            &self.storage[idx]
        } else {
            proof {
                assert(false);
            }
            &self.storage[0]
        }
    }

    /// Returns a mutable reference to the value associated with the given
    /// key. Writing through it changes that key's slot and no other.
    ///
    /// This is the fast access mode; see [`Self::get`].
    pub fn get_mut(&mut self, key: K) -> (v: &mut V)
        requires
            old(self).wf(),
            key.valid(),
        ensures
            *v == old(self).spec_get(key),
            final(self)@ == old(self)@.update(spec_key_to_index(key), *final(v)),
            final(self).wf(),
    {
        let idx = key_to_index(key);
        &mut self.storage[idx]
    }

    /// Returns a mutable reference to the value associated with the given
    /// key, checking the derived index against the slot count.
    ///
    /// This is the checked access mode; see [`Self::const_get`].
    pub fn const_get_mut(&mut self, key: K) -> (v: &mut V)
        requires
            old(self).wf(),
            key.valid(),
        ensures
            *v == old(self).spec_get(key),
            final(self)@ == old(self)@.update(spec_key_to_index(key), *final(v)),
            final(self).wf(),
    {
        let idx = key_to_index(key);
        if idx < self.storage.len() {
            &mut self.storage[idx]
        } else {
            proof {
                assert(false);
            }
            &mut self.storage[0]
        }
    }

    /// Takes the container by value and returns its values, in ascending
    /// slot-index order.
    pub fn into_values(self) -> (r: Vec<V>)
        ensures
            r@ == self@,
    {
        self.storage
    }
}

impl<K: PrimitiveEnum, V: Copy> ConstArrayMap<K, V> {
    /// A container with every slot holding `value`.
    ///
    /// This is the default-fill construction: queried at any key before any
    /// write, the container returns `value`.
    pub fn filled(value: V) -> (r: Self)
        ensures
            r.wf(),
            r@ == Seq::new(K::max_variants() as nat, |i: int| value),
            forall|k: K| k.valid() ==> #[trigger] r.spec_get(k) == value,
    {
        let n = K::slot_count();
        let mut storage: Vec<V> = Vec::new();
        for j in 0..n
            invariant
                storage@ =~= Seq::new(j as nat, |i: int| value),
        {
            storage.push(value);
        }
        let r = ConstArrayMap { storage, keys: PhantomData };
        proof {
            assert(r@ =~= Seq::new(K::max_variants() as nat, |i: int| value));
            assert forall|k: K| k.valid() implies #[trigger] r.spec_get(k) == value by {
                k.lemma_discriminant_in_range();
            }
        }
        r
    }

    /// A container built from a sparse list of key/value pairs: every slot
    /// starts at `default_value`, then each pair overwrites its key's slot in
    /// the given order, so a later pair for the same key wins.
    pub fn from_pairs(default_value: V, pairs: &Vec<(K, V)>) -> (r: Self)
        requires
            forall|j: int| 0 <= j < pairs@.len() ==> (#[trigger] pairs@[j].0).valid(),
        ensures
            r.wf(),
            r@ == spec_apply_pairs(
                Seq::new(K::max_variants() as nat, |i: int| default_value),
                pairs@,
            ),
    {
        let mut r = Self::filled(default_value);
        let ghost filled = r@;
        for j in 0..pairs.len()
            invariant
                r.wf(),
                r@ == spec_apply_pairs(filled, pairs@.take(j as int)),
                filled == Seq::new(K::max_variants() as nat, |i: int| default_value),
                forall|l: int| 0 <= l < pairs@.len() ==> (#[trigger] pairs@[l].0).valid(),
        {
            let (key, value) = pairs[j];
            proof {
                assert((pairs@[j as int].0).valid());
            }
            *r.get_mut(key) = value;
            proof {
                assert(pairs@.take(j + 1).drop_last() =~= pairs@.take(j as int));
                assert(pairs@.take(j + 1).last() == pairs@[j as int]);
            }
        }
        proof {
            assert(pairs@.take(pairs@.len() as int) =~= pairs@);
        }
        r
    }

    /// Returns the container's values, in ascending slot-index order. The
    /// container is left unchanged and can be read again.
    pub fn values(&self) -> (r: Vec<V>)
        ensures
            r@ == self@,
    {
        let mut r: Vec<V> = Vec::new();
        for j in 0..self.storage.len()
            invariant
                r@ =~= self.storage@.take(j as int),
        {
            r.push(self.storage[j]);
        }
        proof {
            assert(self.storage@.take(self.storage@.len() as int) =~= self.storage@);
        }
        r
    }
}

/// The slot sequence after applying `pairs` to `s` in order: each pair
/// overwrites the slot its key maps to.
pub open spec fn spec_apply_pairs<K: PrimitiveEnum, V>(s: Seq<V>, pairs: Seq<(K, V)>) -> Seq<V>
    decreases pairs.len(),
{
    if pairs.len() == 0 {
        s
    } else {
        spec_apply_pairs(s, pairs.drop_last()).update(
            spec_key_to_index(pairs.last().0),
            pairs.last().1,
        )
    }
}

/// Applying pairs never changes the number of slots.
pub proof fn lemma_apply_pairs_len<K: PrimitiveEnum, V>(s: Seq<V>, pairs: Seq<(K, V)>)
    requires
        s.len() == K::max_variants(),
        forall|l: int| 0 <= l < pairs.len() ==> (#[trigger] pairs[l].0).valid(),
    ensures
        spec_apply_pairs(s, pairs).len() == s.len(),
    decreases pairs.len(),
{
    if pairs.len() > 0 {
        lemma_apply_pairs_len(s, pairs.drop_last());
        lemma_key_to_index_bijective(pairs.last().0, pairs.last().0);
    }
}

/// Last write wins: if the pair at position `j` is the last one whose key
/// maps to slot `i`, that slot ends up holding that pair's value.
pub proof fn lemma_apply_pairs_last_write<K: PrimitiveEnum, V>(
    s: Seq<V>,
    pairs: Seq<(K, V)>,
    i: int,
    j: int,
)
    requires
        s.len() == K::max_variants(),
        forall|l: int| 0 <= l < pairs.len() ==> (#[trigger] pairs[l].0).valid(),
        0 <= i < s.len(),
        0 <= j < pairs.len(),
        spec_key_to_index(pairs[j].0) == i,
        forall|l: int| j < l < pairs.len() ==> spec_key_to_index(#[trigger] pairs[l].0) != i,
    ensures
        spec_apply_pairs(s, pairs)[i] == pairs[j].1,
    decreases pairs.len(),
{
    lemma_apply_pairs_len(s, pairs.drop_last());
    lemma_key_to_index_bijective(pairs.last().0, pairs.last().0);
    if j == pairs.len() - 1 {
        assert(pairs.last() == pairs[j]);
    } else {
        assert(spec_key_to_index(pairs[pairs.len() - 1].0) != i);
        assert(pairs.drop_last()[j] == pairs[j]);
        assert forall|l: int|
            j < l < pairs.drop_last().len() implies spec_key_to_index(
            #[trigger] pairs.drop_last()[l].0,
        ) != i by {
            assert(pairs.drop_last()[l] == pairs[l]);
        }
        lemma_apply_pairs_last_write(s, pairs.drop_last(), i, j);
    }
}

/// No write, no change: a slot that no pair's key maps to keeps its value.
pub proof fn lemma_apply_pairs_frame<K: PrimitiveEnum, V>(s: Seq<V>, pairs: Seq<(K, V)>, i: int)
    requires
        s.len() == K::max_variants(),
        forall|l: int| 0 <= l < pairs.len() ==> (#[trigger] pairs[l].0).valid(),
        0 <= i < s.len(),
        forall|l: int| 0 <= l < pairs.len() ==> spec_key_to_index(#[trigger] pairs[l].0) != i,
    ensures
        spec_apply_pairs(s, pairs)[i] == s[i],
    decreases pairs.len(),
{
    if pairs.len() > 0 {
        lemma_apply_pairs_len(s, pairs.drop_last());
        lemma_key_to_index_bijective(pairs.last().0, pairs.last().0);
        assert(spec_key_to_index(pairs[pairs.len() - 1].0) != i);
        assert forall|l: int|
            0 <= l < pairs.drop_last().len() implies spec_key_to_index(
            #[trigger] pairs.drop_last()[l].0,
        ) != i by {
            assert(pairs.drop_last()[l] == pairs[l]);
        }
        lemma_apply_pairs_frame(s, pairs.drop_last(), i);
    }
}

/// Last write wins at the container: a map built from `pairs` over a
/// default-filled container holds, at `key`, the value of the last pair
/// whose key shares `key`'s slot. In particular, building from
/// `[(k, v1), (k, v2)]` leaves `v2` at `k`.
pub proof fn lemma_from_pairs_last_write_wins<K: PrimitiveEnum, V>(
    m: ConstArrayMap<K, V>,
    default_value: V,
    pairs: Seq<(K, V)>,
    key: K,
    j: int,
)
    requires
        forall|l: int| 0 <= l < pairs.len() ==> (#[trigger] pairs[l].0).valid(),
        key.valid(),
        m@ == spec_apply_pairs(Seq::new(K::max_variants() as nat, |i: int| default_value), pairs),
        0 <= j < pairs.len(),
        spec_key_to_index(pairs[j].0) == spec_key_to_index(key),
        forall|l: int|
            j < l < pairs.len() ==> spec_key_to_index(#[trigger] pairs[l].0) != spec_key_to_index(
                key,
            ),
    ensures
        m.spec_get(key) == pairs[j].1,
{
    key.lemma_discriminant_in_range();
    lemma_apply_pairs_last_write(
        Seq::new(K::max_variants() as nat, |i: int| default_value),
        pairs,
        spec_key_to_index(key),
        j,
    );
}

/// A key that no pair writes to still reads the default value after
/// pair-list construction.
pub proof fn lemma_from_pairs_unwritten_key_keeps_default<K: PrimitiveEnum, V>(
    m: ConstArrayMap<K, V>,
    default_value: V,
    pairs: Seq<(K, V)>,
    key: K,
)
    requires
        forall|l: int| 0 <= l < pairs.len() ==> (#[trigger] pairs[l].0).valid(),
        key.valid(),
        m@ == spec_apply_pairs(Seq::new(K::max_variants() as nat, |i: int| default_value), pairs),
        forall|l: int|
            0 <= l < pairs.len() ==> spec_key_to_index(#[trigger] pairs[l].0) != spec_key_to_index(
                key,
            ),
    ensures
        m.spec_get(key) == default_value,
{
    key.lemma_discriminant_in_range();
    lemma_apply_pairs_frame(
        Seq::new(K::max_variants() as nat, |i: int| default_value),
        pairs,
        spec_key_to_index(key),
    );
}

/// Mutation visibility: overwriting the slot of `k1` makes the new value
/// visible at `k1` and leaves the value at every other key unchanged.
pub proof fn lemma_update_frame<K: PrimitiveEnum, V>(
    before: ConstArrayMap<K, V>,
    after: ConstArrayMap<K, V>,
    k1: K,
    k2: K,
    value: V,
)
    requires
        before.wf(),
        k1.valid(),
        k2.valid(),
        after@ == before@.update(spec_key_to_index(k1), value),
    ensures
        after.spec_get(k1) == value,
        k2 != k1 ==> after.spec_get(k2) == before.spec_get(k2),
{
    lemma_key_to_index_bijective(k1, k2);
    lemma_key_to_index_bijective(k2, k1);
}

/// Cross-width equivalence: two containers with equal slot sequences agree
/// at any two keys with equal slot indices, whatever the key types' internal
/// representation widths.
pub proof fn lemma_cross_width_equivalence<K1: PrimitiveEnum, K2: PrimitiveEnum, V>(
    m1: ConstArrayMap<K1, V>,
    m2: ConstArrayMap<K2, V>,
    k1: K1,
    k2: K2,
)
    requires
        m1@ == m2@,
        spec_key_to_index(k1) == spec_key_to_index(k2),
    ensures
        m1.spec_get(k1) == m2.spec_get(k2),
{
}

} // verus!
