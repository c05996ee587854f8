//! Sums, extremes and averages of sampled readings.

use vstd::prelude::*;

verus! {

/// The sum of signed readings.
pub open spec fn sum_i32(s: Seq<i32>) -> int
    decreases s.len(),
{
    if s.len() == 0 { 0 } else { sum_i32(s.drop_last()) + s.last() }
}

/// The largest is no smaller than `init` or any reading, and is one of them.
pub proof fn lemma_max_from_bounds(init: int, s: Seq<i32>)
    ensures
        max_i32_from(init, s) >= init,
        forall|i: int| 0 <= i < s.len() ==> max_i32_from(init, s) >= #[trigger] s[i],
        max_i32_from(init, s) == init || exists|i: int| 0 <= i < s.len() && max_i32_from(init, s) == #[trigger] s[i],
    decreases s.len(),
{
    if s.len() > 0 {
        lemma_max_from_bounds(init, s.drop_last());
        assert forall|i: int| 0 <= i < s.len() implies max_i32_from(init, s) >= #[trigger] s[i] by {
            if i < s.len() - 1 {
                assert(s[i] == s.drop_last()[i]);
            }
        }
        if max_i32_from(init, s) != init && s.last() <= max_i32_from(init, s.drop_last()) {
            let j = choose|j: int| 0 <= j < s.drop_last().len() && max_i32_from(init, s.drop_last()) == #[trigger] s.drop_last()[j];
            assert(s[j] == s.drop_last()[j]);
        }
        if s.last() > max_i32_from(init, s.drop_last()) {
            assert(s[s.len() - 1] == s.last());
        }
    }
}

/// The sum of unsigned readings.
pub open spec fn sum_u32(s: Seq<u32>) -> nat
    decreases s.len(),
{
    if s.len() == 0 { 0 } else { sum_u32(s.drop_last()) + s.last() as nat }
}

/// The largest of `init` and the readings.
pub open spec fn max_i32_from(init: int, s: Seq<i32>) -> int
    decreases s.len(),
{
    if s.len() == 0 {
        init
    } else {
        let m = max_i32_from(init, s.drop_last());
        if s.last() > m { s.last() as int } else { m }
    }
}

proof fn lemma_sum_i32_bounds(s: Seq<i32>)
    ensures
        -2147483648 * s.len() <= sum_i32(s) <= 2147483647 * s.len(),
    decreases s.len(),
{
    if s.len() > 0 {
        lemma_sum_i32_bounds(s.drop_last());
    }
}

proof fn lemma_sum_u32_bound(s: Seq<u32>)
    ensures
        sum_u32(s) <= 4294967295 * s.len(),
    decreases s.len(),
{
    if s.len() > 0 {
        lemma_sum_u32_bound(s.drop_last());
    }
}

/// Adds up signed readings.
pub fn total_i32(v: &Vec<i32>) -> (r: i64)
    requires
        v@.len() <= 0x1_0000_0000,
    ensures
        r == sum_i32(v@),
{
    let mut acc: i64 = 0;
    let mut i: usize = 0;
    while i < v.len()
        invariant
            i <= v@.len(),
            v@.len() <= 0x1_0000_0000,
            acc == sum_i32(v@.subrange(0, i as int)),
        decreases v@.len() - i,
    {
        proof {
            assert(v@.subrange(0, i + 1).drop_last() =~= v@.subrange(0, i as int));
            lemma_sum_i32_bounds(v@.subrange(0, i + 1));
        }
        acc = acc + v[i] as i64;
        i = i + 1;
    }
    assert(v@.subrange(0, v@.len() as int) =~= v@);
    acc
}

/// Adds up unsigned readings.
pub fn total_u32(v: &Vec<u32>) -> (r: u64)
    requires
        v@.len() <= 0x1_0000_0000,
    ensures
        r == sum_u32(v@),
{
    let mut acc: u64 = 0;
    let mut i: usize = 0;
    while i < v.len()
        invariant
            i <= v@.len(),
            v@.len() <= 0x1_0000_0000,
            acc == sum_u32(v@.subrange(0, i as int)),
        decreases v@.len() - i,
    {
        proof {
            assert(v@.subrange(0, i + 1).drop_last() =~= v@.subrange(0, i as int));
            lemma_sum_u32_bound(v@.subrange(0, i + 1));
        }
        acc = acc + v[i] as u64;
        i = i + 1;
    }
    assert(v@.subrange(0, v@.len() as int) =~= v@);
    acc
}

/// The largest of `init` and the readings.
pub fn highest_i32(init: i32, v: &Vec<i32>) -> (r: i32)
    ensures
        r == max_i32_from(init as int, v@),
{
    let mut m: i32 = init;
    let mut i: usize = 0;
    while i < v.len()
        invariant
            i <= v@.len(),
            m == max_i32_from(init as int, v@.subrange(0, i as int)),
        decreases v@.len() - i,
    {
        assert(v@.subrange(0, i + 1).drop_last() =~= v@.subrange(0, i as int));
        if v[i] > m {
            m = v[i];
        }
        i = i + 1;
    }
    assert(v@.subrange(0, v@.len() as int) =~= v@);
    m
}

} // verus!
