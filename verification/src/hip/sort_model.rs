//! What the odd-even transposition kernels do to the data, as a model over
//! integer sequences, and the proof that enough rounds of them sort.
use vstd::prelude::*;

verus! {

/// Whether phase `p` lets a block order positions `i` and `i + 1` of data of
/// length `n`: the even phases (`p` even) pair `(2k, 2k + 1)`, the odd phases
/// pair `(2k + 1, 2k + 2)`.
pub open spec fn pair_left(n: int, p: int, i: int) -> bool {
    0 <= i && i + 1 < n && (i - p) % 2 == 0
}

/// Whether position `i` is the right member of a pair in phase `p`.
pub open spec fn pair_right(n: int, p: int, i: int) -> bool {
    pair_left(n, p, i - 1)
}

/// The smaller of two values.
pub open spec fn lesser(a: int, b: int) -> int {
    if a <= b {
        a
    } else {
        b
    }
}

/// The larger of two values.
pub open spec fn greater(a: int, b: int) -> int {
    if a <= b {
        b
    } else {
        a
    }
}

/// Value at position `i` after phase `p`: each pair is put in order,
/// ascending or descending; positions outside every pair keep their value.
pub open spec fn phase_value(s: Seq<int>, p: int, ascending: bool, i: int) -> int {
    if pair_left(s.len() as int, p, i) {
        if ascending {
            lesser(s[i], s[i + 1])
        } else {
            greater(s[i], s[i + 1])
        }
    } else if pair_right(s.len() as int, p, i) {
        if ascending {
            greater(s[i - 1], s[i])
        } else {
            lesser(s[i - 1], s[i])
        }
    } else {
        s[i]
    }
}

/// The data after phase `p`.
pub open spec fn phase(s: Seq<int>, p: int, ascending: bool) -> Seq<int> {
    Seq::new(s.len(), |i: int| phase_value(s, p, ascending, i))
}

/// The data after the phases `0, 1, ..., t - 1`, even and odd in turn.
pub open spec fn phases(s: Seq<int>, t: nat, ascending: bool) -> Seq<int>
    decreases t,
{
    if t == 0 {
        s
    } else {
        phase(phases(s, (t - 1) as nat, ascending), t - 1, ascending)
    }
}

/// The data after `rounds` rounds, each an even phase then an odd phase.
pub open spec fn after_rounds(s: Seq<int>, rounds: nat, ascending: bool) -> Seq<int> {
    phases(s, 2 * rounds, ascending)
}

/// `s` is in ascending or descending order.
pub open spec fn sorted_by(s: Seq<int>, ascending: bool) -> bool {
    forall|i: int, j: int|
        0 <= i < j < s.len() ==> if ascending {
            s[i] <= s[j]
        } else {
            s[i] >= s[j]
        }
}

/// Whether `rounds` rounds sort `s`: the result is in order and holds the
/// same values as `s`, each as often.
pub open spec fn rounds_sort(s: Seq<int>, rounds: nat, ascending: bool) -> bool {
    &&& sorted_by(after_rounds(s, rounds, ascending), ascending)
    &&& after_rounds(s, rounds, ascending).to_multiset() == s.to_multiset()
}

/// 1 where `s` is at least `c`, 0 elsewhere.
pub open spec fn threshold(s: Seq<int>, c: int) -> Seq<int> {
    Seq::new(s.len(), |i: int| if s[i] >= c { 1int } else { 0int })
}

/// Sum of the entries of `s` from position `x` on.
pub open spec fn suffix_sum(s: Seq<int>, x: int) -> int
    decreases s.len() - x,
{
    if x < 0 || x >= s.len() {
        0
    } else {
        s[x] + suffix_sum(s, x + 1)
    }
}

/// Every entry of `s` is 0 or 1.
pub open spec fn zero_one(s: Seq<int>) -> bool {
    forall|i: int| 0 <= i < s.len() ==> #[trigger] s[i] == 0 || s[i] == 1
}

/// Thresholding and a phase commute.
proof fn lemma_phase_threshold(s: Seq<int>, p: int, c: int)
    ensures
        phase(threshold(s, c), p, true) == threshold(phase(s, p, true), c),
{
    assert(phase(threshold(s, c), p, true) =~= threshold(phase(s, p, true), c));
}

/// Thresholding and any number of phases commute.
proof fn lemma_phases_threshold(s: Seq<int>, t: nat, c: int)
    ensures
        phases(threshold(s, c), t, true) == threshold(phases(s, t, true), c),
    decreases t,
{
    if t > 0 {
        lemma_phases_threshold(s, (t - 1) as nat, c);
        lemma_phase_threshold(phases(s, (t - 1) as nat, true), t - 1, c);
    }
}

/// From a position that is not the right member of a pair, the entries
/// after a phase add up to the same sum as before; from the right member of
/// a pair, to its new value plus the sum after it.
proof fn lemma_phase_suffix(s: Seq<int>, p: int, y: int)
    requires
        0 <= y <= s.len(),
    ensures
        !pair_right(s.len() as int, p, y) ==> suffix_sum(phase(s, p, true), y) == suffix_sum(s, y),
        pair_right(s.len() as int, p, y) && y < s.len() ==> suffix_sum(phase(s, p, true), y)
            == phase(s, p, true)[y] + suffix_sum(s, y + 1),
    decreases s.len() - y,
{
    let n = s.len() as int;
    let q = phase(s, p, true);
    if y == n {
    } else if pair_left(n, p, y) {
        assert(pair_right(n, p, y + 1));
        assert(!pair_left(n, p, y + 1));
        assert(!pair_right(n, p, y + 2)) by {
            assert(!pair_left(n, p, y + 1));
        }
        assert(!pair_right(n, p, y));
        lemma_phase_suffix(s, p, y + 2);
        assert(q[y] == phase_value(s, p, true, y));
        assert(q[y + 1] == phase_value(s, p, true, y + 1));
        assert(q[y] + q[y + 1] == s[y] + s[y + 1]);
        assert(suffix_sum(q, y + 1) == q[y + 1] + suffix_sum(q, y + 2));
        assert(suffix_sum(s, y + 1) == s[y + 1] + suffix_sum(s, y + 2));
        assert(suffix_sum(q, y) == q[y] + suffix_sum(q, y + 1));
    } else if pair_right(n, p, y) {
        assert(!pair_left(n, p, y));
        assert(!pair_right(n, p, y + 1));
        lemma_phase_suffix(s, p, y + 1);
    } else {
        assert(!pair_right(n, p, y + 1));
        lemma_phase_suffix(s, p, y + 1);
        assert(q[y] == s[y]);
    }
}

/// Lower bound on the number of ones from position `x` on, after `t`
/// phases over `n` entries of which `k` are ones: once the `j`-th one from
/// the right starts to move it moves one place each phase, so the count
/// grows by one every two positions behind a front that advances with `t`.
pub open spec fn ones_bound(n: int, k: int, t: int, x: int) -> int {
    let moving = (k + 1) / 2 + (t - x) / 2;
    let a = if k - x >= moving {
        k - x
    } else {
        moving
    };
    let m = if k <= n - x {
        if k <= a {
            k
        } else {
            a
        }
    } else {
        if n - x <= a {
            n - x
        } else {
            a
        }
    };
    if m >= 0 {
        m
    } else {
        0
    }
}

/// A suffix of 0-1 entries counts at most its length.
proof fn lemma_zero_one_suffix(b: Seq<int>, x: int)
    requires
        zero_one(b),
        0 <= x <= b.len(),
    ensures
        0 <= suffix_sum(b, x) <= b.len() - x,
    decreases b.len() - x,
{
    if x < b.len() {
        lemma_zero_one_suffix(b, x + 1);
    }
}

/// The count from `x` on is at most the whole count, and misses at most
/// one for each earlier entry.
proof fn lemma_zero_one_prefix(b: Seq<int>, x: int)
    requires
        zero_one(b),
        0 <= x <= b.len(),
    ensures
        suffix_sum(b, x) <= suffix_sum(b, 0) <= suffix_sum(b, x) + x,
    decreases x,
{
    if x > 0 {
        lemma_zero_one_prefix(b, x - 1);
        lemma_zero_one_suffix(b, x);
    }
}

/// A phase keeps 0-1 entries 0-1.
proof fn lemma_phase_zero_one(b: Seq<int>, p: int)
    requires
        zero_one(b),
    ensures
        zero_one(phase(b, p, true)),
        phase(b, p, true).len() == b.len(),
{
    let q = phase(b, p, true);
    assert forall|i: int| 0 <= i < q.len() implies #[trigger] q[i] == 0 || q[i] == 1 by {
        assert(q[i] == phase_value(b, p, true, i));
        if pair_left(b.len() as int, p, i) {
            assert(b[i + 1] == 0 || b[i + 1] == 1);
        } else if pair_right(b.len() as int, p, i) {
            assert(b[i - 1] == 0 || b[i - 1] == 1);
        }
    }
}

/// Where `t - x` is even, one more phase does not raise the bound at `x`.
proof fn lemma_bound_even(n: int, k: int, t: int, x: int)
    requires
        (t - x) % 2 == 0,
    ensures
        ones_bound(n, k, t + 1, x) == ones_bound(n, k, t, x),
{
    assert((t + 1 - x) / 2 == (t - x) / 2);
}

/// The bound at the first position is the whole count, and at the end it
/// is zero.
proof fn lemma_bound_ends(n: int, k: int, t: int)
    requires
        0 <= k <= n,
        t >= 0,
    ensures
        ones_bound(n, k, t, 0) == k,
        ones_bound(n, k, t, n) == 0,
{
    assert((t - 0) / 2 >= 0);
    assert((k + 1) / 2 >= 0);
}

/// Where `t - x` is odd, the bound at `x` after one more phase is met both
/// by the bound one place earlier and by one more than the bound one place
/// later.
proof fn lemma_bound_odd(n: int, k: int, t: int, x: int)
    requires
        (t - x) % 2 == 1,
    ensures
        ones_bound(n, k, t, x - 1) >= ones_bound(n, k, t + 1, x),
        ones_bound(n, k, t, x + 1) + 1 >= ones_bound(n, k, t + 1, x),
{
    assert((t - (x - 1)) / 2 == (t + 1 - x) / 2);
    assert((t - (x + 1)) / 2 + 1 == (t + 1 - x) / 2);
}

/// One phase keeps the count of ones and raises the lower bound of every
/// suffix count from `t` phases to `t + 1`.
proof fn lemma_bound_step(b: Seq<int>, t: int, k: int)
    requires
        zero_one(b),
        t >= 0,
        suffix_sum(b, 0) == k,
        forall|x: int|
            0 <= x <= b.len() ==> #[trigger] suffix_sum(b, x) >= ones_bound(b.len() as int, k, t, x),
    ensures
        suffix_sum(phase(b, t, true), 0) == k,
        forall|x: int|
            0 <= x <= b.len() ==> #[trigger] suffix_sum(phase(b, t, true), x) >= ones_bound(
                b.len() as int,
                k,
                t + 1,
                x,
            ),
{
    let n = b.len() as int;
    let q = phase(b, t, true);
    lemma_phase_suffix(b, t, 0);
    lemma_zero_one_suffix(b, 0);
    lemma_bound_ends(n, k, t);
    lemma_bound_ends(n, k, t + 1);
    assert forall|x: int| 0 <= x <= n implies #[trigger] suffix_sum(q, x) >= ones_bound(
        n,
        k,
        t + 1,
        x,
    ) by {
        lemma_phase_suffix(b, t, x);
        if (t - x) % 2 == 0 {
            lemma_bound_even(n, k, t, x);
        } else if x == 0 || x == n {
        } else {
            assert(pair_right(n, t, x));
            lemma_bound_odd(n, k, t, x);
            assert(suffix_sum(b, x - 1) == b[x - 1] + suffix_sum(b, x));
            assert(suffix_sum(b, x) == b[x] + suffix_sum(b, x + 1));
            assert(q[x] == phase_value(b, t, true, x));
            assert(b[x - 1] == 0 || b[x - 1] == 1);
            assert(b[x] == 0 || b[x] == 1);
            assert(suffix_sum(b, x - 1) >= ones_bound(n, k, t, x - 1));
            assert(suffix_sum(b, x + 1) >= ones_bound(n, k, t, x + 1));
        }
    }
}

/// After `t` phases on 0-1 entries, every suffix holds at least the bound.
proof fn lemma_bound_holds(b: Seq<int>, t: nat)
    requires
        zero_one(b),
    ensures
        zero_one(phases(b, t, true)),
        phases(b, t, true).len() == b.len(),
        suffix_sum(phases(b, t, true), 0) == suffix_sum(b, 0),
        forall|x: int|
            0 <= x <= b.len() ==> #[trigger] suffix_sum(phases(b, t, true), x) >= ones_bound(
                b.len() as int,
                suffix_sum(b, 0),
                t as int,
                x,
            ),
    decreases t,
{
    let n = b.len() as int;
    let k = suffix_sum(b, 0);
    if t == 0 {
        assert forall|x: int| 0 <= x <= n implies #[trigger] suffix_sum(b, x) >= ones_bound(
            n,
            k,
            0,
            x,
        ) by {
            lemma_zero_one_prefix(b, x);
            lemma_zero_one_suffix(b, x);
            assert((k + 1) / 2 + (0 - x) / 2 <= 0 || (k + 1) / 2 + (0 - x) / 2 <= k - x);
        }
    } else {
        let prev = phases(b, (t - 1) as nat, true);
        lemma_bound_holds(b, (t - 1) as nat);
        lemma_bound_step(prev, t - 1, k);
        lemma_phase_zero_one(prev, t - 1);
    }
}

/// With at least as many phases as entries, the bound is as large as a
/// suffix count can be.
proof fn lemma_bound_full(n: int, k: int, t: int, x: int)
    requires
        0 <= k <= n,
        0 <= x <= n,
        t >= n,
    ensures
        ones_bound(n, k, t, x) >= if k <= n - x {
            k
        } else {
            n - x
        },
{
    let m = n - x;
    assert((t - x) / 2 >= m / 2);
    assert((k + 1) / 2 + m / 2 >= if k <= m {
        k
    } else {
        m
    }) by {
        if k <= m {
            assert(m / 2 >= k / 2);
        } else {
            assert((k + 1) / 2 >= (m + 1) / 2);
        }
    }
}

/// 0-1 entries whose every suffix holds as many ones as it can are in
/// ascending order.
proof fn lemma_zero_one_sorted(b: Seq<int>)
    requires
        zero_one(b),
        forall|x: int|
            0 <= x <= b.len() ==> #[trigger] suffix_sum(b, x) >= if suffix_sum(b, 0) <= b.len() - x {
                suffix_sum(b, 0)
            } else {
                b.len() - x
            },
    ensures
        sorted_by(b, true),
{
    let n = b.len() as int;
    let k = suffix_sum(b, 0);
    assert forall|x: int| 0 <= x < n implies #[trigger] b[x] == if x >= n - k {
        1int
    } else {
        0int
    } by {
        lemma_zero_one_prefix(b, x);
        lemma_zero_one_suffix(b, x);
        lemma_zero_one_prefix(b, x + 1);
        lemma_zero_one_suffix(b, x + 1);
        assert(suffix_sum(b, x) >= if k <= n - x {
            k
        } else {
            n - x
        });
        assert(suffix_sum(b, x + 1) >= if k <= n - (x + 1) {
            k
        } else {
            n - (x + 1)
        });
        assert(suffix_sum(b, x) == b[x] + suffix_sum(b, x + 1));
    }
    assert forall|i: int, j: int| 0 <= i < j < n implies b[i] <= b[j] by {
        assert(b[i] == if i >= n - k {
            1int
        } else {
            0int
        });
        assert(b[j] == if j >= n - k {
            1int
        } else {
            0int
        });
    }
}

/// Entries whose every threshold image is in ascending order are in
/// ascending order.
proof fn lemma_sorted_by_thresholds(s: Seq<int>)
    requires
        forall|c: int| #[trigger] sorted_by(threshold(s, c), true),
    ensures
        sorted_by(s, true),
{
    assert forall|i: int, j: int| 0 <= i < j < s.len() implies s[i] <= s[j] by {
        let b = threshold(s, s[i]);
        assert(sorted_by(b, true));
        assert(b[i] <= b[j]);
    }
}

/// At least as many phases as entries put any entries in ascending order.
proof fn lemma_phases_sort_ascending(s: Seq<int>, t: nat)
    requires
        t >= s.len(),
    ensures
        sorted_by(phases(s, t, true), true),
{
    assert forall|c: int| #[trigger] sorted_by(threshold(phases(s, t, true), c), true) by {
        let b = threshold(s, c);
        assert(zero_one(b));
        lemma_bound_holds(b, t);
        let n = b.len() as int;
        let k = suffix_sum(b, 0);
        lemma_zero_one_suffix(b, 0);
        let q = phases(b, t, true);
        assert forall|x: int| 0 <= x <= q.len() implies #[trigger] suffix_sum(q, x) >= if suffix_sum(
            q,
            0,
        ) <= q.len() - x {
            suffix_sum(q, 0)
        } else {
            q.len() - x
        } by {
            lemma_bound_full(n, k, t as int, x);
        }
        lemma_zero_one_sorted(q);
        lemma_phases_threshold(s, t, c);
    }
    lemma_sorted_by_thresholds(phases(s, t, true));
}

/// `s` with every entry negated.
pub open spec fn negated(s: Seq<int>) -> Seq<int> {
    Seq::new(s.len(), |i: int| -s[i])
}

/// A descending phase is an ascending phase on the negated entries.
proof fn lemma_phase_negated(s: Seq<int>, p: int)
    ensures
        phase(s, p, false) == negated(phase(negated(s), p, true)),
{
    assert(phase(s, p, false) =~= negated(phase(negated(s), p, true)));
}

/// Descending phases are ascending phases on the negated entries.
proof fn lemma_phases_negated(s: Seq<int>, t: nat)
    ensures
        phases(s, t, false) == negated(phases(negated(s), t, true)),
        phases(s, t, false).len() == s.len(),
    decreases t,
{
    if t > 0 {
        lemma_phases_negated(s, (t - 1) as nat);
        let prev = phases(negated(s), (t - 1) as nat, true);
        assert(negated(negated(prev)) =~= prev);
        lemma_phase_negated(negated(prev), t - 1);
    } else {
        assert(negated(negated(s)) =~= s);
    }
}

/// At least as many phases as entries put any entries in descending order.
proof fn lemma_phases_sort_descending(s: Seq<int>, t: nat)
    requires
        t >= s.len(),
    ensures
        sorted_by(phases(s, t, false), false),
{
    lemma_phases_negated(s, t);
    lemma_phases_sort_ascending(negated(s), t);
    let q = phases(negated(s), t, true);
    assert forall|i: int, j: int| 0 <= i < j < q.len() implies negated(q)[i] >= negated(q)[j] by {
        assert(q[i] <= q[j]);
    }
}

/// Exchanging two entries keeps the multiset of entries.
proof fn lemma_exchange_multiset(s: Seq<int>, i: int, j: int)
    requires
        0 <= i < s.len(),
        0 <= j < s.len(),
    ensures
        s.update(i, s[j]).update(j, s[i]).to_multiset() == s.to_multiset(),
{
    broadcast use vstd::seq_lib::to_multiset_update;
    broadcast use vstd::multiset::group_multiset_axioms;

    let s1 = s.update(i, s[j]);
    assert(s1.to_multiset() == s.to_multiset().insert(s[j]).remove(s[i]));
    assert(s1.update(j, s[i]).to_multiset() == s1.to_multiset().insert(s[i]).remove(s1[j]));
    s.to_multiset_ensures();
    assert(s.to_multiset().count(s[i]) > 0);
    assert(s.to_multiset().count(s[j]) > 0);
    assert(s.update(i, s[j]).update(j, s[i]).to_multiset() =~= s.to_multiset());
}

/// Whether position `i` belongs to one of the first `m` pairs of phase `p`.
pub open spec fn in_first_pairs(n: int, p: int, m: int, i: int) -> bool {
    ||| pair_left(n, p, i) && i < p % 2 + 2 * m
    ||| pair_right(n, p, i) && i - 1 < p % 2 + 2 * m
}

/// The data after only the first `m` pairs of phase `p` are put in order.
pub open spec fn phase_upto(s: Seq<int>, p: int, ascending: bool, m: int) -> Seq<int> {
    Seq::new(
        s.len(),
        |i: int|
            if in_first_pairs(s.len() as int, p, m, i) {
                phase_value(s, p, ascending, i)
            } else {
                s[i]
            },
    )
}

/// Putting the first `m` pairs in order keeps the multiset of entries.
proof fn lemma_phase_upto_multiset(s: Seq<int>, p: int, ascending: bool, m: int)
    requires
        p >= 0,
        m >= 0,
    ensures
        phase_upto(s, p, ascending, m).to_multiset() == s.to_multiset(),
    decreases m,
{
    let n = s.len() as int;
    let f = p % 2;
    if m == 0 {
        assert(phase_upto(s, p, ascending, 0) =~= s);
    } else {
        lemma_phase_upto_multiset(s, p, ascending, m - 1);
        let prev = phase_upto(s, p, ascending, m - 1);
        let cur = phase_upto(s, p, ascending, m);
        let l = f + 2 * (m - 1);
        assert((l - p) % 2 == 0);
        if l + 1 < n {
            assert(pair_left(n, p, l));
            assert(pair_right(n, p, l + 1));
            assert(!in_first_pairs(n, p, m - 1, l));
            assert(!in_first_pairs(n, p, m - 1, l + 1));
            assert(prev[l] == s[l]);
            assert(prev[l + 1] == s[l + 1]);
            if (ascending && s[l] <= s[l + 1]) || (!ascending && s[l] >= s[l + 1]) {
                assert(cur =~= prev);
            } else {
                assert(cur =~= prev.update(l, prev[l + 1]).update(l + 1, prev[l]));
                lemma_exchange_multiset(prev, l, l + 1);
            }
        } else {
            assert(cur =~= prev);
        }
    }
}

/// A phase keeps the multiset of entries.
proof fn lemma_phase_multiset(s: Seq<int>, p: int, ascending: bool)
    requires
        p >= 0,
    ensures
        phase(s, p, ascending).to_multiset() == s.to_multiset(),
{
    let n = s.len() as int;
    lemma_phase_upto_multiset(s, p, ascending, n);
    assert(phase_upto(s, p, ascending, n) =~= phase(s, p, ascending));
}

/// Any number of phases keeps the multiset of entries.
proof fn lemma_phases_multiset(s: Seq<int>, t: nat, ascending: bool)
    ensures
        phases(s, t, ascending).to_multiset() == s.to_multiset(),
    decreases t,
{
    if t > 0 {
        lemma_phases_multiset(s, (t - 1) as nat, ascending);
        lemma_phase_multiset(phases(s, (t - 1) as nat, ascending), t - 1, ascending);
    }
}

/// Phases keep the number of entries.
proof fn lemma_phases_len(s: Seq<int>, t: nat, ascending: bool)
    ensures
        phases(s, t, ascending).len() == s.len(),
    decreases t,
{
    if t > 0 {
        lemma_phases_len(s, (t - 1) as nat, ascending);
    }
}

/// Rounds of an even and then an odd phase sort any data once they run at
/// least as many phases as there are entries (or there is at most one
/// entry): the result is in ascending or descending order, as asked, and
/// holds the same values as the data, each as often.
pub proof fn lemma_rounds_sort(s: Seq<int>, rounds: nat, ascending: bool)
    requires
        2 * rounds >= s.len() || s.len() <= 1,
    ensures
        rounds_sort(s, rounds, ascending),
{
    let t = 2 * rounds;
    lemma_phases_len(s, t, ascending);
    lemma_phases_multiset(s, t, ascending);
    if t >= s.len() {
        if ascending {
            lemma_phases_sort_ascending(s, t);
        } else {
            lemma_phases_sort_descending(s, t);
        }
    }
}

} // verus!
