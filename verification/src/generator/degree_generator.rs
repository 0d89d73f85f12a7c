//! Degree generator of RFC 5053 Section 5.4.4.2.

use vstd::prelude::*;
use vstd::set_lib::{lemma_int_range, set_int_range};

verus! {

/// Number of values a degree is drawn from: `2^20`.
pub const DEGREE_DOMAIN: u32 = 1048576;

/// RFC 5053 Table 1: entry `j` is `(f[j], d[j])`, where `f` is the
/// cumulative threshold and `d` the degree; entry 0 carries no degree.
pub const DEGREE_TABLE: [(u32, u32); 8] = [
    (0, 0),
    (10241, 1),
    (491582, 2),
    (712794, 3),
    (831695, 4),
    (948446, 10),
    (1032189, 11),
    (1048576, 40),
];

/// `d` is the degree of `v` by RFC 5053 Table 1: `d == d[j]` for a `j` in
/// `1..8` with `f[j-1] <= v < f[j]`.
pub open spec fn is_table_degree_of(v: int, d: int) -> bool {
    exists|j: int|
        #![trigger DEGREE_TABLE@[j]]
        1 <= j < 8 && DEGREE_TABLE@[j - 1].0 <= v < DEGREE_TABLE@[j].0 && d == DEGREE_TABLE@[j].1
}

/// The degree of `v`, interval by interval of `[0, 2^20)`.
pub open spec fn spec_deg(v: int) -> int {
    if v < 10241 {
        1
    } else if v < 491582 {
        2
    } else if v < 712794 {
        3
    } else if v < 831695 {
        4
    } else if v < 948446 {
        10
    } else if v < 1032189 {
        11
    } else {
        40
    }
}

/// Returns the degree `Deg[v]` for `v` in `[0, 2^20)`: the `d[j]` of
/// RFC 5053 Table 1 for the `j` with `f[j-1] <= v < f[j]`.
pub fn deg(v: u32) -> (d: u32)
    requires
        v < DEGREE_DOMAIN,
    ensures
        is_table_degree_of(v as int, d as int),
{
    let table = DEGREE_TABLE;
    let mut j: usize = 1;
    while j < 8
        invariant
            1 <= j <= 8,
            v < DEGREE_DOMAIN,
            table == DEGREE_TABLE,
            forall|k: int| 1 <= k < j ==> table[k].0 <= v,
        decreases 8 - j,
    {
        if v < table[j].0 {
            assert(DEGREE_TABLE@[j - 1].0 <= v);
            assert(DEGREE_TABLE@[j as int] == table[j as int]);
            return table[j].1;
        }
        j = j + 1;
    }
    assert(table[7].0 <= v);
    40
}

/// Same as [`deg`], by ranges of `v`.
pub fn deg_optimized(v: u32) -> (d: u32)
    requires
        v < DEGREE_DOMAIN,
    ensures
        d == spec_deg(v as int),
{
    if v <= 10240 {
        1
    } else if v <= 491581 {
        2
    } else if v <= 712793 {
        3
    } else if v <= 831694 {
        4
    } else if v <= 948445 {
        10
    } else if v <= 1032188 {
        11
    } else {
        40
    }
}

/// The intervals of Table 1 partition `[0, 2^20)`, and on each of them the
/// degree of the table is the one `spec_deg` gives: `d` is the table's degree
/// of `v` exactly when `d == spec_deg(v)`.
pub proof fn lemma_table_degree_is_spec_deg(v: int, d: int)
    requires
        0 <= v < DEGREE_DOMAIN,
    ensures
        is_table_degree_of(v, d) <==> d == spec_deg(v),
{
    let j: int = if v < 10241 {
        1
    } else if v < 491582 {
        2
    } else if v < 712794 {
        3
    } else if v < 831695 {
        4
    } else if v < 948446 {
        5
    } else if v < 1032189 {
        6
    } else {
        7
    };
    assert(DEGREE_TABLE@[j - 1].0 <= v < DEGREE_TABLE@[j].0);
}

/// `deg` and `deg_optimized` agree: a degree that `deg` may return for `v`
/// is the one `deg_optimized` returns.
pub proof fn lemma_deg_optimized_matches_deg(v: int, d_table: int, d_ranges: int)
    requires
        0 <= v < DEGREE_DOMAIN,
        is_table_degree_of(v, d_table),
        d_ranges == spec_deg(v),
    ensures
        d_table == d_ranges,
{
    lemma_table_degree_is_spec_deg(v, d_table);
}

/// Every degree lies in `{1, 2, 3, 4, 10, 11, 40}`.
pub proof fn lemma_deg_values(v: int)
    requires
        0 <= v < DEGREE_DOMAIN,
    ensures
        spec_deg(v) == 1 || spec_deg(v) == 2 || spec_deg(v) == 3 || spec_deg(v) == 4
            || spec_deg(v) == 10 || spec_deg(v) == 11 || spec_deg(v) == 40,
{
}

/// The degree does not decrease as `v` grows.
pub proof fn lemma_deg_monotone(v1: int, v2: int)
    requires
        0 <= v1 <= v2 < DEGREE_DOMAIN,
    ensures
        spec_deg(v1) <= spec_deg(v2),
{
}

/// The values of `[0, 2^20)` that get degree `d[j]` are exactly those of
/// `[f[j-1], f[j])`, so `d[j]` is drawn for `f[j] - f[j-1]` of the `2^20`
/// values.
pub proof fn lemma_degree_range(j: int)
    requires
        1 <= j < 8,
    ensures
        Set::new(|v: int| 0 <= v < DEGREE_DOMAIN && spec_deg(v) == DEGREE_TABLE@[j].1)
            == set_int_range(DEGREE_TABLE@[j - 1].0 as int, DEGREE_TABLE@[j].0 as int),
        Set::new(|v: int| 0 <= v < DEGREE_DOMAIN && spec_deg(v) == DEGREE_TABLE@[j].1).len()
            == DEGREE_TABLE@[j].0 - DEGREE_TABLE@[j - 1].0,
{
    let lo = DEGREE_TABLE@[j - 1].0 as int;
    let hi = DEGREE_TABLE@[j].0 as int;
    let s = Set::new(|v: int| 0 <= v < DEGREE_DOMAIN && spec_deg(v) == DEGREE_TABLE@[j].1);
    assert(s =~= set_int_range(lo, hi));
    lemma_int_range(lo, hi);
}

/// How many of the `2^20` values get degree `d`: `f[j] - f[j-1]` when `d`
/// is the `d[j]` of Table 1, and none for any other `d`.
pub open spec fn degree_count(d: int) -> int {
    if d == 1 {
        10241
    } else if d == 2 {
        481341
    } else if d == 3 {
        221212
    } else if d == 4 {
        118901
    } else if d == 10 {
        116751
    } else if d == 11 {
        83743
    } else if d == 40 {
        16387
    } else {
        0
    }
}

/// Exactly `degree_count(d)` values of `[0, 2^20)` have `d` as their table
/// degree (the degree `deg` returns), and the counts add up to `2^20`.
pub proof fn lemma_degree_counts(d: int)
    ensures
        Set::new(|v: int| 0 <= v < DEGREE_DOMAIN && is_table_degree_of(v, d)).len()
            == degree_count(d),
        degree_count(1) + degree_count(2) + degree_count(3) + degree_count(4) + degree_count(10)
            + degree_count(11) + degree_count(40) == DEGREE_DOMAIN,
{
    let s = Set::new(|v: int| 0 <= v < DEGREE_DOMAIN && is_table_degree_of(v, d));
    let t = Set::new(|v: int| 0 <= v < DEGREE_DOMAIN && spec_deg(v) == d);
    assert forall|v: int| s.contains(v) <==> t.contains(v) by {
        if 0 <= v < DEGREE_DOMAIN {
            lemma_table_degree_is_spec_deg(v, d);
        }
    }
    assert(s =~= t);
    let j: int = if d == 1 {
        1
    } else if d == 2 {
        2
    } else if d == 3 {
        3
    } else if d == 4 {
        4
    } else if d == 10 {
        5
    } else if d == 11 {
        6
    } else if d == 40 {
        7
    } else {
        0
    };
    if j == 0 {
        assert forall|v: int| !t.contains(v) by {
            if 0 <= v < DEGREE_DOMAIN {
                lemma_deg_values(v);
            }
        }
        assert(t =~= Set::<int>::empty());
    } else {
        assert(DEGREE_TABLE@[j].1 == d);
        lemma_degree_range(j);
    }
}

} // verus!
