//! Bitmasks as sets of catalog ids.
//!
//! A catalog id `k` (1-based) lives at bit `k - 1` of a mask. Permission masks
//! are 64 bits wide, role masks 16 bits wide; a role mask is read through its
//! zero extension to 64 bits, so that both kinds share one model.

use vstd::prelude::*;

verus! {

/// Number of permission ids a mask can hold.
pub const PERMISSION_WIDTH: i32 = 64;

/// Number of role ids a mask can hold.
pub const ROLE_WIDTH: i32 = 16;

/// The one-bit mask of catalog id `id`, for `1 <= id <= 64`.
pub open spec fn bit_of(id: int) -> u64 {
    1u64 << ((id - 1) as u64)
}

/// Whether catalog id `id` is a member of `mask`.
pub open spec fn has_id(mask: u64, id: int) -> bool {
    1 <= id <= 64 && mask & bit_of(id) != 0
}

/// Whether role id `id` is selected by the 16-bit role mask `roles`.
pub open spec fn has_role(roles: u16, id: int) -> bool {
    has_id(roles as u64, id)
}

/// The one-bit role mask of role id `id`, for `1 <= id <= 16`.
pub open spec fn role_bit_of(id: int) -> u16 {
    1u16 << ((id - 1) as u16)
}

proof fn lemma_bits_distinct(i: u64, j: u64)
    by (bit_vector)
    requires
        i < 64,
        j < 64,
    ensures
        ((1u64 << i) & (1u64 << j) != 0) <==> i == j,
{
}

proof fn lemma_or_bit(a: u64, b: u64, i: u64)
    by (bit_vector)
    requires
        i < 64,
    ensures
        ((a | b) & (1u64 << i) != 0) <==> (a & (1u64 << i) != 0 || b & (1u64 << i) != 0),
{
}

proof fn lemma_zero_bit(i: u64)
    by (bit_vector)
    requires
        i < 64,
    ensures
        0u64 & (1u64 << i) == 0,
{
}

proof fn lemma_narrow_bit(m: u16, i: u64)
    by (bit_vector)
    requires
        16 <= i < 64,
    ensures
        (m as u64) & (1u64 << i) == 0,
{
}

proof fn lemma_narrow_shift(i: u16)
    by (bit_vector)
    requires
        i < 16,
    ensures
        ((1u16 << i) as u64) == (1u64 << (i as u64)),
{
}

/// A one-bit role mask, read as a 64-bit mask, is the one-bit mask of the
/// same id.
pub proof fn lemma_role_bit(k: int)
    requires
        1 <= k <= 16,
    ensures
        role_bit_of(k) as u64 == bit_of(k),
{
    lemma_narrow_shift((k - 1) as u16);
}

/// The empty mask holds no id.
pub proof fn lemma_empty_mask(id: int)
    ensures
        !has_id(0, id),
{
    if 1 <= id <= 64 {
        lemma_zero_bit((id - 1) as u64);
    }
}

/// The one-bit mask of `k` holds `k` and nothing else.
pub proof fn lemma_single_bit(k: int, id: int)
    requires
        1 <= k <= 64,
    ensures
        has_id(bit_of(k), id) <==> id == k,
{
    if 1 <= id <= 64 {
        lemma_bits_distinct((k - 1) as u64, (id - 1) as u64);
    }
}

/// Membership in a bitwise OR is membership in either operand.
pub proof fn lemma_union(a: u64, b: u64, id: int)
    ensures
        has_id(a | b, id) <==> has_id(a, id) || has_id(b, id),
{
    if 1 <= id <= 64 {
        lemma_or_bit(a, b, (id - 1) as u64);
    }
}

/// A role mask holds only ids from 1 to 16.
pub proof fn lemma_role_range(roles: u16, id: int)
    requires
        has_role(roles, id),
    ensures
        1 <= id <= 16,
{
    if 17 <= id <= 64 {
        lemma_narrow_bit(roles, (id - 1) as u64);
    }
}

/// The mask with exactly the bit of `id` set, or `None` when `id` has no bit
/// in a 64-bit mask.
pub fn permission_bit(id: i32) -> (r: Option<u64>)
    ensures
        r is Some <==> 1 <= id <= 64,
        r matches Some(m) ==> m == bit_of(id as int),
{
    if 1 <= id && id <= PERMISSION_WIDTH {
        let shift: u64 = (id - 1) as u64;
        Some(1u64 << shift)
    } else {
        None
    }
}

/// The role mask with exactly the bit of `id` set, or `None` when `id` has no
/// bit in a 16-bit mask.
pub fn role_bit(id: i32) -> (r: Option<u16>)
    ensures
        r is Some <==> 1 <= id <= 16,
        r matches Some(m) ==> m == role_bit_of(id as int),
{
    if 1 <= id && id <= ROLE_WIDTH {
        let shift: u16 = (id - 1) as u16;
        Some(1u16 << shift)
    } else {
        None
    }
}

/// Whether `mask` holds catalog id `id`. Ids outside `1..=64` are never held.
pub fn holds(mask: u64, id: i32) -> (r: bool)
    ensures
        r == has_id(mask, id as int),
{
    match permission_bit(id) {
        Some(bit) => mask & bit != 0,
        None => false,
    }
}

} // verus!
