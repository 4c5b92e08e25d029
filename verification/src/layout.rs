//! Element layouts and the limit on the size of one object.
//!
//! A layout is a size and an alignment, both in bytes. Everything here is
//! plain arithmetic on such pairs; the layout of a concrete type enters
//! through `size_of` and `align_of`.

use vstd::arithmetic::power2::is_pow2;
use vstd::layout::{align_of, size_of, valid_layout};
use vstd::prelude::*;

verus! {

/// The largest number of bytes that a single object may occupy.
pub open spec fn max_bytes() -> nat {
    isize::MAX as nat
}

/// A size and an alignment that an element type can have: the alignment is
/// a power of two and divides the size.
pub open spec fn element_layout(size: nat, align: nat) -> bool {
    is_pow2(align as int) && size % align == 0
}

/// `capacity` elements of `size` bytes stay within the limit of one object.
/// Elements without size always do.
pub open spec fn fits(size: nat, capacity: nat) -> bool {
    capacity * size <= max_bytes()
}

/// Dividing the limit by a positive element size gives the largest capacity
/// that fits.
pub proof fn lemma_fits_by_division(size: nat, capacity: nat)
    requires
        size > 0,
    ensures
        fits(size, capacity) <==> capacity <= max_bytes() / size,
{
    let limit = max_bytes() as int;
    let s = size as int;
    let c = capacity as int;
    vstd::arithmetic::div_mod::lemma_fundamental_div_mod(limit, s);
    vstd::arithmetic::div_mod::lemma_mod_bound(limit, s);
    if c <= limit / s {
        assert(c * s <= (limit / s) * s) by (nonlinear_arith)
            requires
                c <= limit / s,
                s > 0,
        ;
        assert(s * (limit / s) == (limit / s) * s) by (nonlinear_arith);
    } else {
        assert(c * s >= (limit / s + 1) * s) by (nonlinear_arith)
            requires
                c >= limit / s + 1,
                s > 0,
        ;
        assert((limit / s + 1) * s == s * (limit / s) + s) by (nonlinear_arith);
    }
}

/// The bytes of a buffer that fits form a block that the allocator accepts
/// at the element alignment: a whole number of alignments, within the limit
/// even after rounding up.
pub proof fn lemma_block_layout(size: nat, align: nat, capacity: nat)
    requires
        element_layout(size, align),
        fits(size, capacity),
        align <= usize::MAX,
    ensures
        (capacity * size) % align == 0,
        capacity * size <= usize::MAX,
        valid_layout((capacity * size) as usize, align as usize),
{
    let limit = max_bytes() as int;
    let a = align as int;
    let bytes = (capacity * size) as int;
    assert(a > 0) by {
        reveal(is_pow2);
    }
    assert(bytes % a == 0) by {
        vstd::arithmetic::div_mod::lemma_mul_mod_noop_right(capacity as int, size as int, a);
        assert(capacity as int * 0 == 0);
        assert(0int % a == 0);
    }
    vstd::arithmetic::div_mod::lemma_fundamental_div_mod(limit, a);
    vstd::arithmetic::div_mod::lemma_fundamental_div_mod(bytes, a);
    vstd::arithmetic::div_mod::lemma_mod_bound(limit, a);
    let k = bytes / a;
    let q = limit / a;
    assert(k <= q) by (nonlinear_arith)
        requires
            a > 0,
            a * k <= a * q + (limit % a),
            limit % a < a,
    ;
    assert(a * k <= a * q) by (nonlinear_arith)
        requires
            a > 0,
            k <= q,
    ;
}

/// The size and the alignment of `T`, in this order.
pub fn layout_of<T>() -> (layout: (usize, usize))
    ensures
        layout.0 == size_of::<T>(),
        layout.1 == align_of::<T>(),
        element_layout(size_of::<T>(), align_of::<T>()),
{
    vstd::layout::layout_for_type_is_valid::<T>();
    (core::mem::size_of::<T>(), core::mem::align_of::<T>())
}

/// Whether `capacity` elements of type `T` fit in one object.
pub fn can_hold<T>(capacity: usize) -> (ok: bool)
    ensures
        ok == fits(size_of::<T>(), capacity as nat),
{
    let size: usize = core::mem::size_of::<T>();
    if size == 0 {
        assert(capacity * 0 == 0);
        true
    } else {
        proof {
            lemma_fits_by_division(size as nat, capacity as nat);
        }
        capacity <= (isize::MAX as usize) / size
    }
}

} // verus!
