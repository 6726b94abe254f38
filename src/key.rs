//! The key types for which the containers' contracts are stated.
use core::hash::Hash;
use vstd::prelude::*;

use crate::sealed::Sealed;

verus! {

/// Key types whose `==` holds exactly when the two values are the same value,
/// and whose `Hash` feeds the hasher bytes that depend on the value alone. For
/// these, a table that hashes through `SvmSHA256Hasher` (a deterministic
/// function of what it absorbed) finds a key exactly when an equal key was
/// inserted. The trait is sealed: only the types below implement it.
pub trait KeyModel: Eq + Hash + Sealed {}

impl Sealed for u8 {}
impl KeyModel for u8 {}
impl Sealed for u16 {}
impl KeyModel for u16 {}
impl Sealed for u32 {}
impl KeyModel for u32 {}
impl Sealed for u64 {}
impl KeyModel for u64 {}
impl Sealed for u128 {}
impl KeyModel for u128 {}
impl Sealed for usize {}
impl KeyModel for usize {}
impl Sealed for i8 {}
impl KeyModel for i8 {}
impl Sealed for i16 {}
impl KeyModel for i16 {}
impl Sealed for i32 {}
impl KeyModel for i32 {}
impl Sealed for i64 {}
impl KeyModel for i64 {}
impl Sealed for i128 {}
impl KeyModel for i128 {}
impl Sealed for isize {}
impl KeyModel for isize {}
impl Sealed for bool {}
impl KeyModel for bool {}
impl<const N: usize> Sealed for [u8; N] {}
impl<const N: usize> KeyModel for [u8; N] {}
impl<'a> Sealed for &'a [u8] {}
impl<'a> KeyModel for &'a [u8] {}

} // verus!
