use vstd::prelude::*;

verus! {

/// The `i`-th body whose pull on body `a` is added in the force phase:
/// the bodies other than `a` in increasing index order.
pub open spec fn partner_at(a: int, i: int) -> int {
    if i < a {
        i
    } else {
        i + 1
    }
}

/// The order in which the force phase adds up the pulls on body `a` of a
/// system of `n` bodies.
pub open spec fn partners_spec(n: int, a: int) -> Seq<int> {
    Seq::new((n - 1) as nat, |i: int| partner_at(a, i))
}

/// The indices of the bodies whose pull on body `a` is added up, in the
/// order in which the force phase adds them: every body but `a` itself,
/// in increasing index order. The order depends on `n` and `a` alone, so
/// a sequential and a parallel force phase that both follow it add the
/// same terms in the same order for every body.
pub fn interaction_partners(n: usize, a: usize) -> (r: Vec<usize>)
    requires
        a < n,
    ensures
        r@.map_values(|b: usize| b as int) == partners_spec(n as int, a as int),
{
    let mut r: Vec<usize> = Vec::new();
    let mut b: usize = 0;
    while b < n
        invariant
            a < n,
            b <= n,
            r@.len() == (if b <= a { b as int } else { b - 1 }),
            forall|i: int| 0 <= i < r@.len() ==> r@[i] as int == partner_at(a as int, i),
        decreases n - b,
    {
        if b != a {
            r.push(b);
        }
        b = b + 1;
    }
    assert(r@.map_values(|b: usize| b as int) =~= partners_spec(n as int, a as int));
    r
}

/// The partner list of a body holds every other body exactly once, in
/// increasing order, and never the body itself.
pub proof fn lemma_partners_cover(n: int, a: int)
    requires
        0 <= a < n,
    ensures
        forall|i: int, j: int|
            0 <= i < j < n - 1 ==> #[trigger] partners_spec(n, a)[i] < #[trigger] partners_spec(n, a)[j],
        forall|i: int| 0 <= i < n - 1 ==> #[trigger] partners_spec(n, a)[i] != a,
        forall|b: int| 0 <= b < n && b != a ==> #[trigger] partners_spec(n, a).contains(b),
{
    assert forall|b: int| 0 <= b < n && b != a implies #[trigger] partners_spec(n, a).contains(b) by {
        let i = if b < a { b } else { b - 1 };
        assert(partners_spec(n, a)[i] == b);
    }
}

} // verus!
