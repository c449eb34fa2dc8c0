//! Putting a list in order, equal items staying as they came.

use vstd::prelude::*;
use vstd::set_lib::{lemma_int_range, lemma_subset_equality, set_int_range};

verus! {

/// Items that have an order, by what they stand for.
pub trait Ranked: DeepView + Sized {
    /// Whether one item goes strictly before another.
    spec fn precedes(a: Self::V, b: Self::V) -> bool;

    /// No two items each go before the other.
    proof fn one_way(a: Self::V, b: Self::V)
        requires
            Self::precedes(a, b),
        ensures
            !Self::precedes(b, a),
    ;

    /// What goes before an item goes before all that do not themselves go
    /// before it.
    proof fn spreads(a: Self::V, b: Self::V, c: Self::V)
        requires
            Self::precedes(a, b),
            !Self::precedes(c, b),
        ensures
            Self::precedes(a, c),
    ;

    /// Whether this item goes strictly before another.
    fn goes_before(&self, other: &Self) -> (before: bool)
        ensures
            before == Self::precedes(self.deep_view(), other.deep_view()),
    ;
}

/// Whether `a`, which stood at `at`, belongs before `b`, which stood at
/// `bt`.
pub open spec fn stands_first<T: Ranked>(a: T::V, at: int, b: T::V, bt: int) -> bool {
    T::precedes(a, b) || (!T::precedes(b, a) && at < bt)
}

/// Whether `output` is `input` in order, `from` telling where each of its
/// items stood: of two items the one that precedes stands first, and of
/// two that do not precede each other the one that stood first.
pub open spec fn ordered_from<T: Ranked>(
    input: Seq<T::V>,
    output: Seq<T::V>,
    from: Seq<int>,
) -> bool {
    &&& output.len() == input.len()
    &&& from.len() == input.len()
    &&& forall|i: int|
        0 <= i < from.len() ==> 0 <= #[trigger] from[i] < input.len() && output[i]
            == input[from[i]]
    &&& forall|i: int, j: int|
        0 <= i < j < from.len() ==> #[trigger] from[i] != #[trigger] from[j]
    &&& forall|i: int, j: int|
        0 <= i < j < from.len() ==> #[trigger] stands_first::<T>(
            output[i],
            from[i],
            output[j],
            from[j],
        )
}

/// Whether `output` is `input` in order, equal items as they came.
pub open spec fn in_order<T: Ranked>(input: Seq<T::V>, output: Seq<T::V>) -> bool {
    exists|from: Seq<int>| ordered_from::<T>(input, output, from)
}

/// Puts an item into a list in order, behind all that it does not precede.
fn place<T: Ranked>(
    output: &mut Vec<T>,
    item: T,
    Ghost(input): Ghost<Seq<T::V>>,
    Ghost(from): Ghost<Seq<int>>,
) -> (placed: Ghost<Seq<int>>)
    requires
        ordered_from::<T>(input, old(output).deep_view(), from),
    ensures
        ordered_from::<T>(input.push(item.deep_view()), final(output).deep_view(), placed@),
{
    let ghost before = output.deep_view();
    let ghost x = item.deep_view();
    let mut p: usize = 0;
    while p < output.len() && !item.goes_before(&output[p])
        invariant
            p <= output@.len(),
            output.deep_view() == before,
            x == item.deep_view(),
            forall|i: int| 0 <= i < p ==> !T::precedes(x, #[trigger] before[i]),
        ensures
            p <= output@.len(),
            output.deep_view() == before,
            forall|i: int| 0 <= i < p ==> !T::precedes(x, #[trigger] before[i]),
            p < output@.len() ==> T::precedes(x, before[p as int]),
        decreases output@.len() - p,
    {
        p = p + 1;
    }
    output.insert(p, item);
    let ghost placed = from.insert(p as int, input.len() as int);
    proof {
        let after = output.deep_view();
        assert(after =~= before.insert(p as int, x));
        let grown = input.push(x);
        assert forall|i: int, j: int| 0 <= i < j < placed.len() implies #[trigger] stands_first::<
            T,
        >(after[i], placed[i], after[j], placed[j]) by {
            let a = if i < p { i } else { i - 1 };
            let b = if j < p { j } else { j - 1 };
            if j == p {
                assert(from[i] < input.len());
            } else if i == p {
                assert(after[j] == before[b]);
                if b > p {
                    assert(stands_first::<T>(before[p as int], from[p as int], before[b], from[b]));
                    if T::precedes(before[p as int], before[b]) {
                        T::one_way(before[p as int], before[b]);
                    }
                    T::spreads(x, before[p as int], before[b]);
                }
            } else {
                assert(stands_first::<T>(before[a], from[a], before[b], from[b]));
                assert(placed[i] == from[a] && placed[j] == from[b]);
                assert(after[i] == before[a] && after[j] == before[b]);
            }
        }
        assert forall|i: int| 0 <= i < placed.len() implies 0 <= #[trigger] placed[i] < grown.len()
            && after[i] == grown[placed[i]] by {
            if i != p {
                let a = if i < p { i } else { i - 1 };
                assert(placed[i] == from[a]);
            }
        }
        assert forall|i: int, j: int| 0 <= i < j < placed.len() implies #[trigger] placed[i]
            != #[trigger] placed[j] by {
            let a = if i < p { i } else { i - 1 };
            let b = if j < p { j } else { j - 1 };
            if i != p {
                assert(placed[i] == from[a]);
            }
            if j != p {
                assert(placed[j] == from[b]);
            }
        }
        assert(ordered_from::<T>(grown, after, placed));
    }
    Ghost(placed)
}

/// A list in order, equal items as they came.
pub fn sort<T: Ranked>(items: Vec<T>) -> (output: Vec<T>)
    ensures
        in_order::<T>(items.deep_view(), output.deep_view()),
{
    let ghost all = items.deep_view();
    let mut rest = items;
    let mut output: Vec<T> = Vec::new();
    let ghost mut from: Seq<int> = seq![];
    assert(ordered_from::<T>(all.take(0), output.deep_view(), from));
    assert(rest.deep_view() =~= all.skip(0));
    while rest.len() > 0
        invariant
            rest@.len() <= all.len(),
            rest.deep_view() == all.skip(all.len() - rest@.len()),
            ordered_from::<T>(all.take(all.len() - rest@.len()), output.deep_view(), from),
        decreases rest@.len(),
    {
        let ghost n = all.len() - rest@.len();
        let ghost was = rest.deep_view();
        let item = rest.remove(0);
        assert(item.deep_view() == was[0]);
        assert(rest.deep_view() =~= was.drop_first());
        assert(was.drop_first() =~= all.skip(n + 1));
        assert(all.take(n).push(item.deep_view()) =~= all.take(n + 1));
        let placed = place(&mut output, item, Ghost(all.take(n)), Ghost(from));
        proof {
            from = placed@;
        }
    }
    assert(all.take(all.len() as int) =~= all);
    output
}

/// In a list of as many different places as there are, every place occurs.
proof fn every_place(from: Seq<int>, k: int) -> (at: int)
    requires
        forall|i: int| 0 <= i < from.len() ==> 0 <= #[trigger] from[i] < from.len(),
        forall|i: int, j: int|
            0 <= i < j < from.len() ==> #[trigger] from[i] != #[trigger] from[j],
        0 <= k < from.len(),
    ensures
        0 <= at < from.len(),
        from[at] == k,
{
    let all = set_int_range(0, from.len() as int);
    lemma_int_range(0, from.len() as int);
    from.unique_seq_to_set();
    assert(from.to_set().subset_of(all));
    lemma_subset_equality(from.to_set(), all);
    assert(all.contains(k));
    assert(from.contains(k));
    choose|i: int| 0 <= i < from.len() && from[i] == k
}

/// Two lists in order from the same list agree on where their first items
/// stood.
proof fn same_places<T: Ranked>(
    input: Seq<T::V>,
    one: Seq<T::V>,
    other: Seq<T::V>,
    f: Seq<int>,
    g: Seq<int>,
    n: int,
)
    requires
        ordered_from::<T>(input, one, f),
        ordered_from::<T>(input, other, g),
        0 <= n <= input.len(),
    ensures
        forall|i: int| 0 <= i < n ==> #[trigger] f[i] == g[i],
    decreases n,
{
    if n > 0 {
        let m = n - 1;
        same_places::<T>(input, one, other, f, g, m);
        let j = every_place(g, f[m]);
        let k = every_place(f, g[m]);
        if j < m {
            assert(f[j] == g[j]);
            assert(f[j] != f[m]);
        }
        if k < m {
            assert(f[k] == g[k]);
            assert(g[k] != g[m]);
        }
        if j > m && k > m {
            assert(stands_first::<T>(other[m], g[m], other[j], g[j]));
            assert(stands_first::<T>(one[m], f[m], one[k], f[k]));
            if T::precedes(one[m], one[k]) {
                T::one_way(one[m], one[k]);
            }
        }
    }
}

/// A list can be put in order in one way only.
pub proof fn order_is_unique<T: Ranked>(input: Seq<T::V>, one: Seq<T::V>, other: Seq<T::V>)
    requires
        in_order::<T>(input, one),
        in_order::<T>(input, other),
    ensures
        one == other,
{
    let f = choose|from: Seq<int>| ordered_from::<T>(input, one, from);
    let g = choose|from: Seq<int>| ordered_from::<T>(input, other, from);
    same_places::<T>(input, one, other, f, g, input.len() as int);
    assert forall|i: int| 0 <= i < one.len() implies one[i] == other[i] by {
        assert(f[i] == g[i]);
    }
    assert(one =~= other);
}

/// What stands in a list stands in it when it is in order, and the other
/// way round.
pub proof fn order_keeps_items<T: Ranked>(input: Seq<T::V>, output: Seq<T::V>)
    requires
        in_order::<T>(input, output),
    ensures
        output.len() == input.len(),
        forall|x: T::V| #[trigger] output.contains(x) <==> input.contains(x),
{
    let f = choose|from: Seq<int>| ordered_from::<T>(input, output, from);
    assert forall|x: T::V| #[trigger] output.contains(x) <==> input.contains(x) by {
        if output.contains(x) {
            let i = choose|i: int| 0 <= i < output.len() && output[i] == x;
            assert(input[f[i]] == x);
        }
        if input.contains(x) {
            let k = choose|k: int| 0 <= k < input.len() && input[k] == x;
            let at = every_place(f, k);
            assert(output[at] == x);
        }
    }
}

/// In a list in order nothing precedes what stands before it.
pub proof fn order_holds<T: Ranked>(input: Seq<T::V>, output: Seq<T::V>, i: int, j: int)
    requires
        in_order::<T>(input, output),
        0 <= i < j < output.len(),
    ensures
        !T::precedes(output[j], output[i]),
{
    let f = choose|from: Seq<int>| ordered_from::<T>(input, output, from);
    assert(stands_first::<T>(output[i], f[i], output[j], f[j]));
    if T::precedes(output[i], output[j]) {
        T::one_way(output[i], output[j]);
    }
}

} // verus!
