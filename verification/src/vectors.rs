//! Statistics over a vector of numbers: the middle element after sorting,
//! the most frequent element, and the truncated average.

use std::collections::HashMap;
use vstd::prelude::*;

verus! {

broadcast use
    vstd::seq_lib::group_to_multiset_ensures,
    vstd::std_specs::hash::group_hash_axioms,
;

/// The elements appear in ascending order.
pub open spec fn sorted(s: Seq<i32>) -> bool {
    forall|a: int, b: int| 0 <= a < b < s.len() ==> s[a] <= s[b]
}

/// How often `x` occurs in `s`.
pub open spec fn cnt(s: Seq<i32>, x: i32) -> nat
    decreases s.len(),
{
    if s.len() == 0 {
        0
    } else {
        cnt(s.drop_last(), x) + if s.last() == x {
            1nat
        } else {
            0nat
        }
    }
}

/// No element occurs more often than the sequence is long.
pub proof fn lemma_cnt_le_len(s: Seq<i32>, x: i32)
    ensures
        cnt(s, x) <= s.len(),
    decreases s.len(),
{
    if s.len() > 0 {
        lemma_cnt_le_len(s.drop_last(), x);
    }
}

/// The sum of the elements.
pub open spec fn sum(s: Seq<i32>) -> int
    decreases s.len(),
{
    if s.len() == 0 {
        0
    } else {
        sum(s.drop_last()) + s.last()
    }
}

/// Division that rounds towards zero, as `/` does on machine integers.
pub open spec fn div_trunc(a: int, b: int) -> int {
    if a >= 0 {
        a / b
    } else {
        -((-a) / b)
    }
}

/// The element in the middle of the vector (rounding the index down).
pub fn get_middle(arr: &Vec<i32>) -> (r: i32)
    requires
        arr@.len() > 0,
    ensures
        r == arr@[arr@.len() as int / 2],
{
    let mut len: usize = arr.len();
    len /= 2;
    return arr[len];
}

/// Sorts the vector in place, in ascending order, keeping exactly the
/// elements it had (as a multiset).
pub fn sort(arr: &mut Vec<i32>)
    ensures
        sorted(final(arr)@),
        final(arr)@.to_multiset() == old(arr)@.to_multiset(),
{
    let ghost orig = arr@;
    let n = arr.len();
    if n < 2 {
        return;
    }
    let mut i: usize = 1;
    while i < n
        invariant
            1 <= i <= n,
            n == arr@.len(),
            arr@.to_multiset() == orig.to_multiset(),
            sorted(arr@.take(i as int)),
        decreases n - i,
    {
        let mut j: usize = i;
        proof {
            let ghost t = arr@.take(i as int);
            assert forall|a: int, b: int| 0 <= a < b <= i && b != j implies arr@[a] <= arr@[b] by {
                assert(t[a] == arr@[a]);
                assert(t[b] == arr@[b]);
            }
        }
        while j > 0 && arr[j - 1] > arr[j]
            invariant
                0 <= j <= i < n == arr@.len(),
                arr@.to_multiset() == orig.to_multiset(),
                forall|a: int, b: int| 0 <= a < b <= i && b != j ==> arr@[a] <= arr@[b],
            decreases j,
        {
            let ghost prev = arr@;
            let x = arr[j - 1];
            let y = arr[j];
            arr[j - 1] = y;
            arr[j] = x;
            proof {
                assert(arr@.to_multiset() =~= prev.to_multiset());
            }
            j = j - 1;
        }
        proof {
            let ghost t = arr@.take(i as int + 1);
            assert forall|a: int, b: int| #![trigger t[a], t[b]] 0 <= a < b < t.len() implies t[a]
                <= t[b] by {
                assert(t[a] == arr@[a]);
                assert(t[b] == arr@[b]);
                if b == j {
                    if a < j - 1 {
                        assert(arr@[a] <= arr@[j as int - 1]);
                    }
                    assert(arr@[j as int - 1] <= arr@[j as int]);
                }
            }
            assert(sorted(t));
        }
        i = i + 1;
    }
    proof {
        assert(arr@.take(n as int) =~= arr@);
    }
}

/// At position `k`, `r` becomes the first element ever to occur `m` times:
/// `r` stands there, its count just reached `m`, and before `k` every
/// element still had fewer than `m` occurrences.
pub open spec fn first_to_reach(s: Seq<i32>, r: i32, m: nat, k: int) -> bool {
    &&& 0 <= k < s.len()
    &&& s[k] == r
    &&& cnt(s.take(k + 1), r) == m
    &&& forall|x: i32| cnt(s.take(k), x) < m
}

/// The element that occurs most often; 0 for an empty vector. Ties go to
/// the element that was first to reach the winning count.
pub fn get_most(arr: &Vec<i32>) -> (r: i32)
    ensures
        arr@.len() == 0 ==> r == 0,
        arr@.len() > 0 ==> cnt(arr@, r) > 0,
        forall|x: i32| cnt(arr@, x) <= cnt(arr@, r) || arr@.len() == 0,
        arr@.len() > 0 ==> exists|k: int| first_to_reach(arr@, r, cnt(arr@, r), k),
{
    let mut count: HashMap<i32, u64> = HashMap::new();
    let mut most: u64 = 0;
    let mut winner: i32 = 0;
    let mut i: usize = 0;
    while i < arr.len()
        invariant
            0 <= i <= arr@.len(),
            forall|x: i32| #[trigger] cnt(arr@.take(i as int), x) <= most,
            forall|x: i32|
                count@.contains_key(x) ==> count@[x] == cnt(arr@.take(i as int), x),
            forall|x: i32|
                #[trigger] cnt(arr@.take(i as int), x) > 0 ==> count@.contains_key(x),
            i > 0 ==> most == cnt(arr@.take(i as int), winner) && most > 0,
            i == 0 ==> most == 0 && winner == 0,
            i > 0 ==> exists|k: int| k < i && first_to_reach(arr@, winner, most as nat, k),
        decreases arr@.len() - i,
    {
        let e = arr[i];
        proof {
            assert(arr@.take(i as int + 1).drop_last() =~= arr@.take(i as int));
            assert(arr@.take(i as int + 1).last() == e);
            lemma_cnt_le_len(arr@.take(i as int), e);
        }
        let c: u64 = match count.get(&e) {
            Some(c) => *c + 1,
            None => 1,
        };
        count.insert(e, c);
        let ghost old_most = most;
        let ghost old_winner = winner;
        if c > most {
            most = c;
            winner = e;
        }
        proof {
            let t1 = arr@.take(i as int + 1);
            let t0 = arr@.take(i as int);
            assert forall|x: i32| #[trigger] cnt(t1, x) <= most by {
                assert(cnt(t1, x) == cnt(t0, x) + if x == e {
                    1nat
                } else {
                    0nat
                });
            }
            assert forall|x: i32| #[trigger] cnt(t1, x) > 0 implies count@.contains_key(
                x,
            ) by {
                assert(cnt(t1, x) == cnt(t0, x) + if x == e {
                    1nat
                } else {
                    0nat
                });
            }
            assert forall|x: i32| count@.contains_key(x) implies count@[x] == cnt(
                t1,
                x,
            ) by {
                assert(cnt(t1, x) == cnt(t0, x) + if x == e {
                    1nat
                } else {
                    0nat
                });
            }
            assert(cnt(t1, winner) == cnt(t0, winner) + if winner == e {
                1nat
            } else {
                0nat
            });
            if c > old_most {
                assert(cnt(t1, e) == c);
                assert forall|x: i32| cnt(t0, x) < c by {
                    assert(cnt(t0, x) <= old_most);
                }
                assert(first_to_reach(arr@, winner, most as nat, i as int));
            } else {
                let k0 = choose|k: int|
                    k < i && first_to_reach(arr@, old_winner, old_most as nat, k);
                assert(k0 < i + 1 && first_to_reach(arr@, winner, most as nat, k0));
            }
        }
        i = i + 1;
    }
    proof {
        assert(arr@.take(arr@.len() as int) =~= arr@);
    }
    winner
}

/// The average of the elements, rounded towards zero. Every partial sum
/// must fit in an `i32`, since that is how the sum is accumulated.
pub fn get_average(arr: &Vec<i32>) -> (r: i32)
    requires
        arr@.len() > 0,
        arr@.len() <= i32::MAX,
        forall|k: int| 0 <= k <= arr@.len() ==> i32::MIN <= sum(#[trigger] arr@.take(k)) <= i32::MAX,
    ensures
        r == div_trunc(sum(arr@), arr@.len() as int),
{
    let mut s: i32 = 0;
    let mut i: usize = 0;
    while i < arr.len()
        invariant
            0 <= i <= arr@.len(),
            s == sum(arr@.take(i as int)),
            forall|k: int|
                0 <= k <= arr@.len() ==> i32::MIN <= sum(#[trigger] arr@.take(k)) <= i32::MAX,
        decreases arr@.len() - i,
    {
        proof {
            assert(arr@.take(i as int + 1).drop_last() =~= arr@.take(i as int));
        }
        s = s + arr[i];
        i = i + 1;
    }
    proof {
        assert(arr@.take(arr@.len() as int) =~= arr@);
    }
    let len: i32 = arr.len() as i32;
    let s64: i64 = s as i64;
    let len64: i64 = len as i64;
    if s64 >= 0 {
        (s64 / len64) as i32
    } else {
        (-((-s64) / len64)) as i32
    }
}

} // verus!
