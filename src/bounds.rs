//! The arithmetic of page boundaries, stated over mathematical integers,
//! and the laws that relate page counts, page sizes and the total length.
use vstd::arithmetic::div_mod::{lemma_fundamental_div_mod, lemma_fundamental_div_mod_converse};
use vstd::prelude::*;

verus! {

/// Number of pages that `length` items fill at `capacity` items per page:
/// `ceil(length / capacity)`, and no pages at all when `capacity` is zero.
pub open spec fn page_count_of(length: nat, capacity: nat) -> nat {
    if capacity == 0 {
        0
    } else {
        ((length + capacity - 1) / (capacity as int)) as nat
    }
}

/// The ceiling division written with a quotient and a remainder.
pub proof fn lemma_page_count_div_mod(length: nat, capacity: nat)
    requires
        capacity > 0,
    ensures
        page_count_of(length, capacity) == length / capacity + if length % capacity == 0 {
            0int
        } else {
            1int
        },
        page_count_of(length, capacity) <= length,
{
    let q = (length / capacity) as int;
    let r = (length % capacity) as int;
    lemma_fundamental_div_mod(length as int, capacity as int);
    assert(length == q * capacity + r) by (nonlinear_arith)
        requires
            length == capacity * q + r,
    ;
    assert(q <= q * capacity) by (nonlinear_arith)
        requires
            q >= 0,
            capacity >= 1,
    ;
    if r == 0 {
        lemma_fundamental_div_mod_converse(
            length + capacity - 1,
            capacity as int,
            q,
            capacity - 1,
        );
    } else {
        assert((q + 1) * capacity == q * capacity + capacity) by (nonlinear_arith);
        lemma_fundamental_div_mod_converse(
            length + capacity - 1,
            capacity as int,
            q + 1,
            r - 1,
        );
    }
}

/// Index of the first item of page `index`, clamped to `length`.
pub open spec fn first_of(length: nat, capacity: nat, index: nat) -> nat {
    if index * capacity <= length {
        index * capacity
    } else {
        length
    }
}

/// Number of items on page `index`: up to `capacity`, fewer on a last page
/// that is only partly filled, none past the end.
pub open spec fn count_of(length: nat, capacity: nat, index: nat) -> nat {
    let first = first_of(length, capacity, index);
    if first + capacity <= length {
        capacity
    } else {
        (length - first) as nat
    }
}

/// Inclusive index of the first item of page `index`; zero on an empty page.
pub open spec fn begin_of(length: nat, capacity: nat, index: nat) -> nat {
    if count_of(length, capacity, index) == 0 {
        0
    } else {
        first_of(length, capacity, index)
    }
}

/// Inclusive index of the last item of page `index`; zero on an empty page.
pub open spec fn end_of(length: nat, capacity: nat, index: nat) -> nat {
    if count_of(length, capacity, index) == 0 {
        0
    } else {
        (first_of(length, capacity, index) + count_of(length, capacity, index) - 1) as nat
    }
}

/// A page index below the page count starts strictly inside the items.
pub proof fn lemma_valid_index(length: nat, capacity: nat, index: nat)
    requires
        index < page_count_of(length, capacity),
    ensures
        capacity > 0,
        index * capacity < length,
        index < length,
{
    lemma_page_count_div_mod(length, capacity);
    let q = (length / capacity) as int;
    let r = (length % capacity) as int;
    lemma_fundamental_div_mod(length as int, capacity as int);
    if r == 0 {
        assert(index * capacity < length) by (nonlinear_arith)
            requires
                index + 1 <= q,
                length == capacity * q,
                capacity > 0,
        ;
    } else {
        assert(index * capacity < length) by (nonlinear_arith)
            requires
                index <= q,
                length == capacity * q + r,
                r > 0,
                capacity > 0,
        ;
    }
    assert(index <= index * capacity) by (nonlinear_arith)
        requires
            capacity > 0,
    ;
}

/// Items on pages `0 .. n`, summed in page order.
pub open spec fn counts_total(length: nat, capacity: nat, n: nat) -> nat
    decreases n,
{
    if n == 0 {
        0
    } else {
        counts_total(length, capacity, (n - 1) as nat) + count_of(length, capacity, (n - 1) as nat)
    }
}

/// With a positive capacity the page count is the ceiling of
/// `length / capacity`: the least number of pages whose room holds every item.
pub proof fn lemma_page_count_is_ceiling(length: nat, capacity: nat)
    requires
        capacity >= 1,
    ensures
        page_count_of(length, capacity) * capacity >= length,
        page_count_of(length, capacity) * capacity < length + capacity,
{
    lemma_page_count_div_mod(length, capacity);
    let q = (length / capacity) as int;
    let r = (length % capacity) as int;
    lemma_fundamental_div_mod(length as int, capacity as int);
    let n = page_count_of(length, capacity) as int;
    if r == 0 {
        assert(n * capacity == length) by (nonlinear_arith)
            requires
                n == q,
                length == capacity * q,
        ;
    } else {
        assert(n * capacity == length - r + capacity) by (nonlinear_arith)
            requires
                n == q + 1,
                length == capacity * q + r,
        ;
    }
}

/// No page holds more than `capacity` items.
pub proof fn lemma_count_at_most_capacity(length: nat, capacity: nat, index: nat)
    ensures
        count_of(length, capacity, index) <= capacity,
{
}

/// The first `n` pages together hold `min(n * capacity, length)` items.
proof fn lemma_counts_total_prefix(length: nat, capacity: nat, n: nat)
    ensures
        counts_total(length, capacity, n) == if n * capacity <= length {
            n * capacity
        } else {
            length
        },
    decreases n,
{
    if n > 0 {
        let m = (n - 1) as nat;
        lemma_counts_total_prefix(length, capacity, m);
        assert(n * capacity == m * capacity + capacity) by (nonlinear_arith)
            requires
                m + 1 == n,
        ;
    } else {
        assert(0 * capacity == 0);
    }
}

/// Summing the item counts of all pages in order gives the total length.
/// Only a zero capacity with items left over breaks this: then there are no
/// pages at all.
pub proof fn lemma_counts_sum_to_length(length: nat, capacity: nat)
    requires
        capacity > 0 || length == 0,
    ensures
        counts_total(length, capacity, page_count_of(length, capacity)) == length,
{
    let n = page_count_of(length, capacity);
    lemma_counts_total_prefix(length, capacity, n);
    if capacity > 0 {
        lemma_page_count_is_ceiling(length, capacity);
    }
}

/// The last page holds what the full pages before it leave: `capacity` when
/// `length` is a multiple of it, else the remainder.
pub proof fn lemma_last_page_count(length: nat, capacity: nat)
    requires
        page_count_of(length, capacity) >= 1,
    ensures
        count_of(length, capacity, (page_count_of(length, capacity) - 1) as nat)
            == length - capacity * (page_count_of(length, capacity) - 1),
        count_of(length, capacity, (page_count_of(length, capacity) - 1) as nat)
            == if length % capacity == 0 { capacity } else { length % capacity },
{
    let n = page_count_of(length, capacity) as int;
    lemma_valid_index(length, capacity, (n - 1) as nat);
    lemma_page_count_is_ceiling(length, capacity);
    lemma_page_count_div_mod(length, capacity);
    lemma_fundamental_div_mod(length as int, capacity as int);
    assert((n - 1) * capacity == n * capacity - capacity) by (nonlinear_arith);
    assert(capacity * (n - 1) == (n - 1) * capacity) by (nonlinear_arith);
    let q = (length / capacity) as int;
    assert(capacity * q == q * capacity) by (nonlinear_arith);
}

} // verus!
