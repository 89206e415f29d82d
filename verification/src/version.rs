//! Comparison of dotted version strings such as `1.10.0`.
//!
//! A version is split on `.`; every piece that reads as a `u32` contributes
//! a number and the other pieces are skipped.  Two versions are compared
//! number by number, a missing number counting as `0`.
use vstd::prelude::*;
use crate::numparse::{parse_unsigned, parse_u32};

verus! {

/// The pieces of `s` between occurrences of `sep`, as `str::split` yields them.
pub open spec fn split_seq(s: Seq<char>, sep: char) -> Seq<Seq<char>>
    decreases s.len(),
{
    if s.len() == 0 {
        seq![Seq::<char>::empty()]
    } else {
        let rest = split_seq(s.drop_last(), sep);
        if s.last() == sep {
            rest.push(Seq::<char>::empty())
        } else {
            rest.update(rest.len() - 1, rest.last().push(s.last()))
        }
    }
}

/// The numbers of those pieces that read as a `u32`, in order.
pub open spec fn parsed_parts(parts: Seq<Seq<char>>) -> Seq<u32>
    decreases parts.len(),
{
    if parts.len() == 0 {
        Seq::<u32>::empty()
    } else {
        let rest = parsed_parts(parts.drop_last());
        match parse_unsigned(parts.last(), u32::MAX as nat) {
            Some(v) => rest.push(v as u32),
            None => rest,
        }
    }
}

/// The numbers that make up a version string.
pub open spec fn version_numbers(s: Seq<char>) -> Seq<u32> {
    parsed_parts(split_seq(s, '.'))
}

/// The `i`-th number of a version, `0` past its end.
pub open spec fn part_or_zero(p: Seq<u32>, i: int) -> u32 {
    if 0 <= i < p.len() {
        p[i]
    } else {
        0
    }
}

/// The larger of two lengths.
pub open spec fn longer(a: Seq<u32>, b: Seq<u32>) -> nat {
    if a.len() >= b.len() {
        a.len()
    } else {
        b.len()
    }
}

/// Comparison of two number sequences from position `i` on, zero-padded:
/// `-1` when `a` is smaller, `1` when it is larger, `0` when they are equal.
pub open spec fn parts_order(a: Seq<u32>, b: Seq<u32>, i: nat) -> int
    decreases longer(a, b) - i,
{
    if i >= longer(a, b) {
        0
    } else if part_or_zero(a, i as int) < part_or_zero(b, i as int) {
        -1
    } else if part_or_zero(a, i as int) > part_or_zero(b, i as int) {
        1
    } else {
        parts_order(a, b, i + 1)
    }
}

/// How version `a` compares with version `b` (`-1`, `0` or `1`).
pub open spec fn version_order(a: Seq<char>, b: Seq<char>) -> int {
    parts_order(version_numbers(a), version_numbers(b), 0)
}

proof fn lemma_split_nonempty(s: Seq<char>, sep: char)
    ensures
        split_seq(s, sep).len() >= 1,
    decreases s.len(),
{
    if s.len() > 0 {
        lemma_split_nonempty(s.drop_last(), sep);
    }
}

/// One step of the comparison, valid at every position.
proof fn lemma_order_unfold(a: Seq<u32>, b: Seq<u32>, i: nat)
    ensures
        parts_order(a, b, i) == (if part_or_zero(a, i as int) < part_or_zero(b, i as int) {
            -1
        } else if part_or_zero(a, i as int) > part_or_zero(b, i as int) {
            1
        } else {
            parts_order(a, b, i + 1)
        }),
{
}

proof fn lemma_order_reflexive(a: Seq<u32>, i: nat)
    ensures
        parts_order(a, a, i) == 0,
    decreases longer(a, a) - i,
{
    if i < longer(a, a) {
        lemma_order_reflexive(a, i + 1);
    }
}

proof fn lemma_order_flip(a: Seq<u32>, b: Seq<u32>, i: nat)
    ensures
        parts_order(b, a, i) == -parts_order(a, b, i),
    decreases longer(a, b) - i,
{
    if i < longer(a, b) {
        lemma_order_flip(a, b, i + 1);
    }
}

spec fn longer3(a: Seq<u32>, b: Seq<u32>, c: Seq<u32>) -> nat {
    if longer(a, b) >= c.len() {
        longer(a, b)
    } else {
        c.len()
    }
}

proof fn lemma_order_transitive(a: Seq<u32>, b: Seq<u32>, c: Seq<u32>, i: nat)
    requires
        parts_order(a, b, i) != 1,
        parts_order(b, c, i) != 1,
    ensures
        parts_order(a, c, i) != 1,
        parts_order(a, b, i) == -1 ==> parts_order(a, c, i) == -1,
        parts_order(b, c, i) == -1 ==> parts_order(a, c, i) == -1,
    decreases longer3(a, b, c) - i,
{
    lemma_order_unfold(a, b, i);
    lemma_order_unfold(b, c, i);
    lemma_order_unfold(a, c, i);
    if i < longer3(a, b, c) {
        let x = part_or_zero(a, i as int);
        let y = part_or_zero(b, i as int);
        let z = part_or_zero(c, i as int);
        if x == y && y == z {
            lemma_order_transitive(a, b, c, i + 1);
        }
    }
}

proof fn lemma_first_difference(a: Seq<u32>, b: Seq<u32>, i: nat, k: nat)
    requires
        k <= i,
        forall|j: int| k <= j < i ==> #[trigger] part_or_zero(a, j) == part_or_zero(b, j),
        part_or_zero(a, i as int) > part_or_zero(b, i as int),
    ensures
        parts_order(a, b, k) == 1,
    decreases i - k,
{
    assert(i < a.len());
    if k < i {
        assert(part_or_zero(a, k as int) == part_or_zero(b, k as int));
        lemma_first_difference(a, b, i, k + 1);
    }
}

proof fn lemma_no_difference(a: Seq<u32>, b: Seq<u32>, k: nat)
    requires
        forall|j: int| 0 <= j ==> #[trigger] part_or_zero(a, j) == part_or_zero(b, j),
    ensures
        parts_order(a, b, k) == 0,
    decreases longer(a, b) - k,
{
    if k < longer(a, b) {
        assert(part_or_zero(a, k as int) == part_or_zero(b, k as int));
        lemma_no_difference(a, b, k + 1);
    }
}

/// Versions compare by their numbers, from the first on, a missing number
/// counting as 0: the version with the larger number at the first place
/// where they differ is the newer one, and versions whose numbers agree
/// everywhere (`1.2` and `1.2.0`) are equal.
pub proof fn law_version_order_numeric(a: Seq<char>, b: Seq<char>, i: nat)
    ensures
        (forall|j: int| 0 <= j < i ==> #[trigger] part_or_zero(version_numbers(a), j) == part_or_zero(version_numbers(b), j))
            && part_or_zero(version_numbers(a), i as int) > part_or_zero(version_numbers(b), i as int)
            ==> version_order(a, b) == 1 && version_order(b, a) == -1,
        (forall|j: int| 0 <= j ==> #[trigger] part_or_zero(version_numbers(a), j) == part_or_zero(version_numbers(b), j))
            ==> version_order(a, b) == 0,
{
    let na = version_numbers(a);
    let nb = version_numbers(b);
    if (forall|j: int| 0 <= j < i ==> #[trigger] part_or_zero(na, j) == part_or_zero(nb, j))
        && part_or_zero(na, i as int) > part_or_zero(nb, i as int) {
        lemma_first_difference(na, nb, i, 0);
        lemma_order_flip(na, nb, 0);
    }
    if forall|j: int| 0 <= j ==> #[trigger] part_or_zero(na, j) == part_or_zero(nb, j) {
        lemma_no_difference(na, nb, 0);
    }
}

/// Comparing a version with itself gives `Equal`.
pub proof fn law_version_order_reflexive(a: Seq<char>)
    ensures
        version_order(a, a) == 0,
{
    lemma_order_reflexive(version_numbers(a), 0);
}

/// Swapping the two versions flips the result of the comparison.
pub proof fn law_version_order_antisymmetric(a: Seq<char>, b: Seq<char>)
    ensures
        version_order(b, a) == -version_order(a, b),
{
    lemma_order_flip(version_numbers(a), version_numbers(b), 0);
}

/// "At most" is transitive, and stays strict when either step is strict.
pub proof fn law_version_order_transitive(a: Seq<char>, b: Seq<char>, c: Seq<char>)
    requires
        version_order(a, b) != 1,
        version_order(b, c) != 1,
    ensures
        version_order(a, c) != 1,
        version_order(a, b) == -1 ==> version_order(a, c) == -1,
        version_order(b, c) == -1 ==> version_order(a, c) == -1,
{
    lemma_order_transitive(version_numbers(a), version_numbers(b), version_numbers(c), 0);
}

/// The numbers of a version string, in order.
pub fn version_parts(s: &str) -> (v: Vec<u32>)
    ensures
        v@ == version_numbers(s@),
{
    let chars = crate::text::chars_of(s);
    let mut nums: Vec<u32> = Vec::new();
    let mut cur: Vec<char> = Vec::new();
    let mut i: usize = 0;
    proof {
        lemma_split_nonempty(Seq::<char>::empty(), '.');
    }
    while i < chars.len()
        invariant
            i <= chars.len(),
            chars@ == s@,
            split_seq(chars@.subrange(0, i as int), '.').len() >= 1,
            parsed_parts(split_seq(chars@.subrange(0, i as int), '.').drop_last()) == nums@,
            split_seq(chars@.subrange(0, i as int), '.').last() == cur@,
        decreases chars.len() - i,
    {
        let c = chars[i];
        let ghost pre = chars@.subrange(0, i as int);
        let ghost next = chars@.subrange(0, i + 1);
        assert(next.drop_last() =~= pre);
        assert(next.last() == c);
        let ghost sp = split_seq(pre, '.');
        if c == '.' {
            let parsed = parse_u32(&cur);
            assert(sp.drop_last().push(sp.last()) =~= sp);
            match parsed {
                Some(v) => {
                    nums.push(v);
                },
                None => {},
            }
            cur = Vec::new();
            assert(split_seq(next, '.') == sp.push(Seq::<char>::empty()));
            assert(split_seq(next, '.').drop_last() =~= sp);
        } else {
            cur.push(c);
            assert(split_seq(next, '.') == sp.update(sp.len() - 1, sp.last().push(c)));
            assert(split_seq(next, '.').drop_last() =~= sp.drop_last());
        }
        i = i + 1;
    }
    let ghost whole = split_seq(chars@.subrange(0, i as int), '.');
    assert(chars@.subrange(0, i as int) =~= s@);
    assert(whole.drop_last().push(whole.last()) =~= whole);
    let parsed = parse_u32(&cur);
    match parsed {
        Some(v) => {
            nums.push(v);
        },
        None => {},
    }
    nums
}

/// The sign of the comparison of two versions: `-1`, `0` or `1`.
pub fn version_sign(a: &str, b: &str) -> (o: i8)
    ensures
        o as int == version_order(a@, b@),
{
    let pa = version_parts(a);
    let pb = version_parts(b);
    let n = if pa.len() >= pb.len() { pa.len() } else { pb.len() };
    let mut i: usize = 0;
    while i < n
        invariant
            pa@ == version_numbers(a@),
            pb@ == version_numbers(b@),
            n == longer(pa@, pb@),
            i <= n,
            parts_order(pa@, pb@, 0) == parts_order(pa@, pb@, i as nat),
        decreases n - i,
    {
        let x: u32 = if i < pa.len() { pa[i] } else { 0 };
        let y: u32 = if i < pb.len() { pb[i] } else { 0 };
        if x < y {
            return -1;
        }
        if x > y {
            return 1;
        }
        i = i + 1;
    }
    0
}

} // verus!
