use vstd::prelude::*;

verus! {

/// The parity of a permutation: whether it is made of an even or an odd number of transpositions.
#[derive(PartialEq, Eq, Structural, Hash, Clone, Copy, Debug)]
pub enum BasicParity {
    Even,
    Odd,
}

/// The parity that a count of transpositions (or inversions) gives.
pub open spec fn parity_of_count(n: nat) -> BasicParity {
    if n % 2 == 0 {
        BasicParity::Even
    } else {
        BasicParity::Odd
    }
}

/// The other parity.
pub open spec fn flipped(p: BasicParity) -> BasicParity {
    match p {
        BasicParity::Even => BasicParity::Odd,
        BasicParity::Odd => BasicParity::Even,
    }
}

/// `0` for even, `1` for odd.
pub open spec fn parity_bit(p: BasicParity) -> u8 {
    match p {
        BasicParity::Even => 0,
        BasicParity::Odd => 1,
    }
}

/// The parity of the composition of two permutations with the given parities.
pub open spec fn parity_sum(a: BasicParity, b: BasicParity) -> BasicParity {
    if a == b {
        BasicParity::Even
    } else {
        BasicParity::Odd
    }
}

/// The number of positions `k < j` of `s` that hold a value greater than `s[i]`.
pub open spec fn count_greater_before(s: Seq<u8>, i: int, j: int) -> nat
    decreases j,
{
    if j <= 0 {
        0
    } else {
        count_greater_before(s, i, j - 1) + if s[j - 1] > s[i] {
            1nat
        } else {
            0nat
        }
    }
}

/// The number of inversions among the first `n` entries of `s`: pairs `k < t < n` with `s[k] > s[t]`.
pub open spec fn inversions_prefix(s: Seq<u8>, n: int) -> nat
    decreases n,
{
    if n <= 0 {
        0
    } else {
        inversions_prefix(s, n - 1) + count_greater_before(s, n - 1, n - 1)
    }
}

/// The number of inversions of `s`: pairs of positions `k < t` with `s[k] > s[t]`.
pub open spec fn inversion_count(s: Seq<u8>) -> nat {
    inversions_prefix(s, s.len() as int)
}

/// The parity of a sequence of distinct values, read as a permutation of those values.
pub open spec fn permutation_parity(s: Seq<u8>) -> BasicParity {
    parity_of_count(inversion_count(s))
}

/// `s` with its first two entries exchanged.
pub open spec fn swap_first_two(s: Seq<u8>) -> Seq<u8>
    recommends
        s.len() >= 2,
{
    s.update(0, s[1]).update(1, s[0])
}

impl BasicParity {
    /// Turns even into odd and odd into even.
    pub fn flip(&mut self)
        ensures
            *final(self) == flipped(*old(self)),
    {
        let new_value = match self {
            BasicParity::Even => BasicParity::Odd,
            BasicParity::Odd => BasicParity::Even,
        };
        *self = new_value
    }

    /// [BasicParity::Even] → 0
    /// [BasicParity::Odd] → 1
    pub fn to_0_or_1(&self) -> (r: u8)
        ensures
            r == parity_bit(*self),
    {
        match self {
            BasicParity::Even => 0,
            BasicParity::Odd => 1,
        }
    }

    /// The parity of the composition of two permutations: even when both agree.
    pub fn add(self, rhs: Self) -> (r: Self)
        ensures
            r == parity_sum(self, rhs),
    {
        if self == rhs {
            BasicParity::Even
        } else {
            BasicParity::Odd
        }
    }
}

/// This supports any input with non-repeating values, not necessarily
/// contiguous. (This allows calculating the parity of a subset of another
/// permutation without renumbering.)
pub fn basic_parity(permutation: &[u8]) -> (r: BasicParity)
    ensures
        r == permutation_parity(permutation@),
{
    let mut parity = BasicParity::Even;
    let n = permutation.len();
    let mut i: usize = 1;
    if n == 0 {
        return parity;
    }
    assert(inversions_prefix(permutation@, 0) == 0);
    assert(count_greater_before(permutation@, 0, 0) == 0);
    assert(inversions_prefix(permutation@, 1) == 0);
    while i < n
        invariant
            1 <= i <= n,
            n == permutation@.len(),
            parity == parity_of_count(inversions_prefix(permutation@, i as int)),
        decreases n - i,
    {
        let p2 = permutation[i];
        let mut j: usize = 0;
        while j < i
            invariant
                0 <= j <= i < n,
                n == permutation@.len(),
                p2 == permutation@[i as int],
                parity == parity_of_count(
                    inversions_prefix(permutation@, i as int) + count_greater_before(
                        permutation@,
                        i as int,
                        j as int,
                    ),
                ),
            decreases i - j,
        {
            let p1 = permutation[j];
            if p1 > p2 {
                parity.flip();
            }
            j += 1;
        }
        i += 1;
    }
    parity
}

/// Swaps the first two entries (if needed) to make the permutation match `target_parity`.
pub fn set_parity(permutation: &mut [u8], target_parity: BasicParity)
    requires
        old(permutation)@.len() >= 2 || target_parity == BasicParity::Even,
    ensures
        final(permutation)@ == if permutation_parity(old(permutation)@) == target_parity {
            old(permutation)@
        } else {
            swap_first_two(old(permutation)@)
        },
        old(permutation)@.len() < 2 || old(permutation)@[0] != old(permutation)@[1]
            ==> permutation_parity(final(permutation)@) == target_parity,
{
    let parity = basic_parity(permutation);
    proof {
        if permutation@.len() < 2 {
            lemma_short_sequence_is_even(permutation@);
        } else if permutation@[0] != permutation@[1] {
            lemma_swap_first_two_flips_parity(permutation@);
        }
    }
    if parity != target_parity {
        // Odd parity is only possible with more than 1 element in the permutation, so the first two elements exist.
        let first = permutation[0];
        let second = permutation[1];
        permutation[0] = second;
        permutation[1] = first;
    }
}

/// Sequences with fewer than two entries have no inversions.
proof fn lemma_short_sequence_is_even(s: Seq<u8>)
    requires
        s.len() < 2,
    ensures
        permutation_parity(s) == BasicParity::Even,
{
    assert(inversions_prefix(s, 0) == 0);
    assert(count_greater_before(s, 0, 0) == 0);
    if s.len() == 1 {
        assert(inversions_prefix(s, 1) == 0);
    }
}

/// Exchanging the first two entries does not change how many of the entries before
/// any later position hold a greater value.
proof fn lemma_count_unchanged_by_swap(s: Seq<u8>, t: int, j: int)
    requires
        s.len() >= 2,
        2 <= t < s.len(),
        2 <= j <= s.len(),
    ensures
        count_greater_before(swap_first_two(s), t, j) == count_greater_before(s, t, j),
    decreases j,
{
    let w = swap_first_two(s);
    assert(w[t] == s[t]);
    if j == 2 {
        assert(count_greater_before(w, t, 0) == 0);
        assert(count_greater_before(s, t, 0) == 0);
        assert(w[0] == s[1] && w[1] == s[0]);
        let a: nat = if s[0] > s[t] { 1 } else { 0 };
        let b: nat = if s[1] > s[t] { 1 } else { 0 };
        assert(count_greater_before(w, t, 1) == b);
        assert(count_greater_before(s, t, 1) == a);
        assert(count_greater_before(w, t, 2) == b + a);
        assert(count_greater_before(s, t, 2) == a + b);
    } else {
        lemma_count_unchanged_by_swap(s, t, j - 1);
        assert(w[j - 1] == s[j - 1]);
    }
}

/// Exchanging the first two entries only changes the inversion between those two entries.
proof fn lemma_inversions_prefix_swap(s: Seq<u8>, n: int)
    requires
        s.len() >= 2,
        2 <= n <= s.len(),
    ensures
        inversions_prefix(swap_first_two(s), n) + (if s[0] > s[1] {
            1nat
        } else {
            0nat
        }) == inversions_prefix(s, n) + (if s[1] > s[0] {
            1nat
        } else {
            0nat
        }),
    decreases n,
{
    let w = swap_first_two(s);
    if n == 2 {
        assert(inversions_prefix(w, 0) == 0);
        assert(inversions_prefix(s, 0) == 0);
        assert(count_greater_before(w, 0, 0) == 0);
        assert(count_greater_before(s, 0, 0) == 0);
        assert(inversions_prefix(w, 1) == 0);
        assert(inversions_prefix(s, 1) == 0);
        assert(count_greater_before(w, 1, 0) == 0);
        assert(count_greater_before(s, 1, 0) == 0);
    } else {
        lemma_inversions_prefix_swap(s, n - 1);
        lemma_count_unchanged_by_swap(s, n - 1, n - 1);
    }
}

/// Exchanging two distinct entries of a sequence flips its permutation parity.
pub proof fn lemma_swap_first_two_flips_parity(s: Seq<u8>)
    requires
        s.len() >= 2,
        s[0] != s[1],
    ensures
        permutation_parity(swap_first_two(s)) == flipped(permutation_parity(s)),
{
    lemma_inversions_prefix_swap(s, s.len() as int);
    assert(swap_first_two(s).len() == s.len());
}

/// Composing permutations adds their inversion counts modulo two: the parity of a sum of
/// counts is the parity sum of the parities of the counts.
pub proof fn lemma_parity_sum_of_counts(a: nat, b: nat)
    ensures
        parity_sum(parity_of_count(a), parity_of_count(b)) == parity_of_count(a + b),
{
}

/// Parity addition is commutative and associative, with `Even` as its identity and each
/// parity its own inverse.
pub proof fn lemma_parity_sum_is_group(a: BasicParity, b: BasicParity, c: BasicParity)
    ensures
        parity_sum(a, b) == parity_sum(b, a),
        parity_sum(parity_sum(a, b), c) == parity_sum(a, parity_sum(b, c)),
        parity_sum(a, BasicParity::Even) == a,
        parity_sum(a, a) == BasicParity::Even,
        parity_sum(a, BasicParity::Odd) == flipped(a),
{
}

/// Flipping twice gives back the same parity.
pub proof fn lemma_flip_involution(p: BasicParity)
    ensures
        flipped(flipped(p)) == p,
        flipped(p) != p,
{
}

} // verus!
