//! A fixed-capacity associative container keyed by the values of a small,
//! closed, enumerable domain.
//!
//! Each key carries an unsigned integer discriminant that is, by the key
//! type's layout invariant, always below the domain's slot count. A
//! [`map::ConstArrayMap`] owns one slot per possible key value and turns a
//! key into its slot index with a lossless reinterpretation followed by a
//! widening cast, so every access is a single array index with no search and
//! no failure path.

pub mod derive;
pub mod keys;
pub mod map;
pub mod utils;
