//! Host-side random utilities: seeded permutations of indices and sampling
//! without replacement.
use std::collections::hash_map::DefaultHasher;
use std::hash::Hasher;
use vstd::prelude::*;
use vstd::bytes::{
    lemma_auto_spec_u64_to_from_le_bytes, spec_u64_from_le_bytes, spec_u64_to_le_bytes,
    u64_to_le_bytes,
};
use vstd::std_specs::hash::DefaultHasherAdditionalSpecFns;
use vstd::multiset::Multiset;
use crate::error::{Error, Result};

verus! {

/// The indices `0, 1, ..., n - 1` in ascending order.
pub open spec fn ascending(n: nat) -> Seq<u32> {
    Seq::new(n, |k: int| k as u32)
}

/// `s` with the entries at positions `i` and `j` exchanged.
pub open spec fn swapped(s: Seq<u32>, i: int, j: int) -> Seq<u32> {
    s.update(i, s[j]).update(j, s[i])
}

/// Position that step `i` of the shuffle exchanges with position `i`.
pub open spec fn shuffle_partner(keys: Seq<u64>, i: int) -> int {
    (keys[i - 1] as usize as int) % (i + 1)
}

/// The shuffle steps `i, i - 1, ..., 1` applied to `s` in that order; step
/// `i` exchanges position `i` with position `keys[i - 1] % (i + 1)`.
pub open spec fn shuffled(s: Seq<u32>, keys: Seq<u64>, i: int) -> Seq<u32>
    decreases i,
{
    if i <= 0 {
        s
    } else {
        shuffled(swapped(s, i, shuffle_partner(keys, i)), keys, i - 1)
    }
}

/// The shuffle of `s` driven by `keys`: every position from the last down
/// to the second is exchanged with a position at or before it.
pub open spec fn shuffle_spec(s: Seq<u32>, keys: Seq<u64>) -> Seq<u32> {
    shuffled(s, keys, s.len() - 1)
}

/// `s` holds each of `0, ..., n - 1` exactly once.
pub open spec fn is_permutation_of_range(s: Seq<u32>, n: nat) -> bool {
    &&& s.len() == n
    &&& s.to_multiset() == ascending(n).to_multiset()
}

/// The first `k` entries of `s`, or all of `s` when it is shorter.
pub open spec fn prefix(s: Seq<u32>, k: int) -> Seq<u32> {
    if k <= s.len() {
        s.take(k)
    } else {
        s
    }
}

/// Exchanging two entries keeps the multiset of entries.
pub proof fn lemma_swapped_multiset(s: Seq<u32>, i: int, j: int)
    requires
        0 <= i < s.len(),
        0 <= j < s.len(),
    ensures
        swapped(s, i, j).to_multiset() == s.to_multiset(),
        swapped(s, i, j).len() == s.len(),
{
    broadcast use vstd::seq_lib::to_multiset_update;
    broadcast use vstd::multiset::group_multiset_axioms;

    let s1 = s.update(i, s[j]);
    assert(s1.to_multiset() == s.to_multiset().insert(s[j]).remove(s[i]));
    assert(s1.update(j, s[i]).to_multiset() == s1.to_multiset().insert(s[i]).remove(s1[j]));
    s.to_multiset_ensures();
    assert(s.to_multiset().count(s[i]) > 0);
    assert(s.to_multiset().count(s[j]) > 0);
    assert(swapped(s, i, j).to_multiset() =~= s.to_multiset());
}

/// Shuffling keeps the multiset of entries: a shuffle is a permutation.
pub proof fn lemma_shuffled_multiset(s: Seq<u32>, keys: Seq<u64>, i: int)
    requires
        i < s.len(),
        i <= keys.len(),
    ensures
        shuffled(s, keys, i).to_multiset() == s.to_multiset(),
        shuffled(s, keys, i).len() == s.len(),
    decreases i,
{
    if i > 0 {
        let j = shuffle_partner(keys, i);
        assert(0 <= j < i + 1) by {
            let k = keys[i - 1] as usize as int;
            assert(0 <= k % (i + 1) < i + 1) by (nonlinear_arith)
                requires i + 1 > 0;
        }
        lemma_swapped_multiset(s, i, j);
        lemma_shuffled_multiset(swapped(s, i, j), keys, i - 1);
    }
}

/// A permutation of `0, ..., n - 1` lists distinct values below `n`, and so
/// does every prefix of it.
pub proof fn lemma_permutation_prefix(s: Seq<u32>, n: nat, k: int)
    requires
        is_permutation_of_range(s, n),
        n <= u32::MAX + 1,
        k >= 0,
    ensures
        prefix(s, k).no_duplicates(),
        forall|x: int| 0 <= x < prefix(s, k).len() ==> (#[trigger] prefix(s, k)[x]) < n,
{
    broadcast use vstd::multiset::group_multiset_axioms;
    broadcast use vstd::seq_lib::to_multiset_contains;

    let a = ascending(n);
    assert(a.no_duplicates());
    a.lemma_multiset_has_no_duplicates();
    s.lemma_multiset_has_no_duplicates_conv();
    assert forall|x: int| 0 <= x < s.len() implies (#[trigger] s[x]) < n by {
        assert(s.contains(s[x]));
        vstd::seq_lib::to_multiset_contains(s, s[x]);
        assert(s.to_multiset().count(s[x]) > 0);
        assert(a.to_multiset().count(s[x]) > 0);
        vstd::seq_lib::to_multiset_contains(a, s[x]);
        assert(a.contains(s[x]));
        let y = choose|y: int| 0 <= y < a.len() && a[y] == s[x];
    }
    let p = prefix(s, k);
    assert forall|x: int, y: int| 0 <= x < p.len() && 0 <= y < p.len() && x != y implies p[x]
        != p[y] by {
        assert(p[x] == s[x] && p[y] == s[y]);
    }
    assert forall|x: int| 0 <= x < p.len() implies (#[trigger] p[x]) < n by {
        assert(p[x] == s[x]);
    }
}

/// Key of shuffle step `i` under `seed`: the standard library's default
/// hasher fed the little-endian bytes of `seed` and then those of `i`.
pub open spec fn seeded_key(seed: u64, i: int) -> u64 {
    DefaultHasher::spec_finish(
        seq![spec_u64_to_le_bytes(seed), spec_u64_to_le_bytes(i as u64)],
    )
}

/// Keys of the shuffle steps `1, ..., n - 1` under `seed`; entry `k` drives
/// step `k + 1`.
pub open spec fn seeded_keys(seed: u64, n: nat) -> Seq<u64> {
    Seq::new(if n == 0 { 0 } else { (n - 1) as nat }, |k: int| seeded_key(seed, k + 1))
}

/// The keys of a seeded shuffle: step `i` (from 1 to `n - 1`) uses the
/// default hasher's result after it was fed the little-endian bytes of the
/// seed and then those of `i`. What is fed differs for every pair of seed
/// and step, so the keys can depend on both.
pub proof fn lemma_seeded_keys_input(seed: u64, n: nat)
    ensures
        seeded_keys(seed, n).len() == if n == 0 {
            0
        } else {
            n - 1
        },
        forall|k: int|
            0 <= k < seeded_keys(seed, n).len() ==> #[trigger] seeded_keys(seed, n)[k]
                == DefaultHasher::spec_finish(
                seq![spec_u64_to_le_bytes(seed), spec_u64_to_le_bytes((k + 1) as u64)],
            ),
        forall|s1: u64, i1: u64, s2: u64, i2: u64|
            #![trigger spec_u64_to_le_bytes(s1), spec_u64_to_le_bytes(i1), spec_u64_to_le_bytes(s2), spec_u64_to_le_bytes(i2)]
            seq![spec_u64_to_le_bytes(s1), spec_u64_to_le_bytes(i1)] == seq![
                spec_u64_to_le_bytes(s2),
                spec_u64_to_le_bytes(i2),
            ] ==> s1 == s2 && i1 == i2,
{
    lemma_auto_spec_u64_to_from_le_bytes();
    assert forall|s1: u64, i1: u64, s2: u64, i2: u64|
        seq![spec_u64_to_le_bytes(s1), spec_u64_to_le_bytes(i1)] == seq![
            spec_u64_to_le_bytes(s2),
            spec_u64_to_le_bytes(i2),
        ] implies s1 == s2 && i1 == i2 by {
        let a = seq![spec_u64_to_le_bytes(s1), spec_u64_to_le_bytes(i1)];
        let b = seq![spec_u64_to_le_bytes(s2), spec_u64_to_le_bytes(i2)];
        assert(a[0] == b[0]);
        assert(a[1] == b[1]);
        assert(spec_u64_from_le_bytes(spec_u64_to_le_bytes(s1)) == s1);
        assert(spec_u64_from_le_bytes(spec_u64_to_le_bytes(s2)) == s2);
        assert(spec_u64_from_le_bytes(spec_u64_to_le_bytes(i1)) == i1);
        assert(spec_u64_from_le_bytes(spec_u64_to_le_bytes(i2)) == i2);
    }
}

/// Step `i` of a seeded shuffle of `n` indices exchanges position `i` with
/// position `key % (i + 1)`, where `key` is the default hasher's result
/// after it was fed the little-endian bytes of the seed and then those of
/// `i`.
pub proof fn lemma_seeded_step_partner(seed: u64, n: nat, i: int)
    requires
        1 <= i < n,
        n <= u64::MAX,
    ensures
        shuffle_partner(seeded_keys(seed, n), i) == (DefaultHasher::spec_finish(
            seq![spec_u64_to_le_bytes(seed), spec_u64_to_le_bytes(i as u64)],
        ) as usize as int) % (i + 1),
{
    lemma_seeded_keys_input(seed, n);
    assert(seeded_keys(seed, n)[i - 1] == DefaultHasher::spec_finish(
        seq![spec_u64_to_le_bytes(seed), spec_u64_to_le_bytes(((i - 1) + 1) as u64)],
    ));
}

/// The permutation of `0..n` that `seed` gives, or the indices in ascending
/// order when there is no seed.
pub open spec fn permutation_of(n: usize, seed: Option<u64>) -> Seq<u32> {
    match seed {
        None => ascending((n as u32) as nat),
        Some(s) => shuffle_spec(ascending(n as nat), seeded_keys(s, n as nat)),
    }
}

/// Key of shuffle step `i` under `seed`.
fn seeded_key_of(seed: u64, i: usize) -> (r: u64)
    ensures
        r == seeded_key(seed, i as int),
{
    let mut hasher = DefaultHasher::new();
    let seed_bytes = u64_to_le_bytes(seed);
    hasher.write(seed_bytes.as_slice());
    let index_bytes = u64_to_le_bytes(i as u64);
    hasher.write(index_bytes.as_slice());
    proof {
        assert(hasher@ =~= seq![spec_u64_to_le_bytes(seed), spec_u64_to_le_bytes(i as u64)]);
    }
    hasher.finish()
}

/// Random number utilities
pub struct RandomUtils;

impl RandomUtils {
    /// Shuffle `values`: for `i` from the last position down to 1, exchange
    /// position `i` with position `keys[i - 1] % (i + 1)`.
    pub fn shuffle(values: Vec<u32>, keys: &[u64]) -> (r: Vec<u32>)
        requires
            values@.len() <= keys@.len() + 1,
        ensures
            r@ == shuffle_spec(values@, keys@),
    {
        let mut v = values;
        let n = v.len();
        if n < 2 {
            return v;
        }
        let ghost target = shuffle_spec(values@, keys@);
        let mut i: usize = n - 1;
        while i > 0
            invariant
                n == v@.len(),
                n <= keys@.len() + 1,
                i < n,
                shuffled(v@, keys@, i as int) == target,
            decreases i,
        {
            let j = (keys[i - 1] as usize) % (i + 1);
            let ghost before = v@;
            let a = v[i];
            let b = v[j];
            v.set(i, b);
            v.set(j, a);
            assert(v@ =~= swapped(before, i as int, j as int));
            i -= 1;
        }
        v
    }

    /// Generate random permutation of indices: the indices `0..n`, shuffled
    /// with keys derived from `seed` when one is given.
    pub fn random_permutation(n: usize, seed: Option<u64>) -> (r: Result<Vec<u32>>)
        requires
            seed is Some ==> n <= u32::MAX,
        ensures
            r matches Ok(v) && v@ == permutation_of(n, seed) && (seed is Some
                ==> is_permutation_of_range(v@, n as nat)),
    {
        let limit = n as u32;
        let mut indices: Vec<u32> = Vec::new();
        let mut k: u32 = 0;
        while k < limit
            invariant
                k <= limit,
                indices@ == ascending(k as nat),
            decreases limit - k,
        {
            indices.push(k);
            k += 1;
            assert(indices@ =~= ascending(k as nat));
        }
        match seed {
            None => Ok(indices),
            Some(seed_val) => {
                let mut keys: Vec<u64> = Vec::new();
                let mut i: usize = 1;
                while i < n
                    invariant
                        1 <= i <= n || (n == 0 && i == 1),
                        keys@.len() == i - 1,
                        forall|k: int| 0 <= k < keys@.len() ==> #[trigger] keys@[k] == seeded_key(
                            seed_val,
                            k + 1,
                        ),
                    decreases n - i,
                {
                    keys.push(seeded_key_of(seed_val, i));
                    i += 1;
                }
                assert(keys@ =~= seeded_keys(seed_val, n as nat));
                assert(indices@ =~= ascending(n as nat));
                let ghost start = indices@;
                let shuffled_indices = Self::shuffle(indices, keys.as_slice());
                proof {
                    lemma_shuffled_multiset(start, keys@, start.len() - 1);
                }
                Ok(shuffled_indices)
            },
        }
    }

    /// Sample without replacement: the first `sample_size` entries of a
    /// random permutation of `0..population_size`.
    pub fn sample_without_replacement(
        population_size: usize,
        sample_size: usize,
        seed: Option<u64>,
    ) -> (r: Result<Vec<u32>>)
        requires
            seed is Some ==> population_size <= u32::MAX,
        ensures
            r is Err <==> sample_size > population_size,
            r matches Err(e) ==> e matches Error::Custom(m) && m@
                == "Sample size cannot be larger than population size"@,
            r matches Ok(v) ==> v@ == prefix(permutation_of(population_size, seed), sample_size as int),
            r matches Ok(v) ==> (seed is Some ==> {
                &&& v.len() == sample_size
                &&& v@.no_duplicates()
                &&& forall|x: int| 0 <= x < v.len() ==> (#[trigger] v@[x]) < population_size
            }),
    {
        if sample_size > population_size {
            return Err(Error::Custom(String::from_str("Sample size cannot be larger than population size")));
        }
        let permutation = Self::random_permutation(population_size, seed);
        match permutation {
            Ok(mut v) => {
                let ghost full = v@;
                v.truncate(sample_size);
                proof {
                    if seed is Some {
                        lemma_permutation_prefix(full, population_size as nat, sample_size as int);
                    }
                }
                Ok(v)
            },
            Err(e) => Err(e),
        }
    }
}

} // verus!
