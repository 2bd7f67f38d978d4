//! Grid references seen through a viewport: the cross product of the integer steps along
//! both axes, with every reference reported once.

use itertools::Itertools;
use vstd::prelude::*;

verus! {

/// The items of `items` in their order, each kept only at its first occurrence.
pub open spec fn first_occurrences(items: Seq<(i32, i32)>) -> Seq<(i32, i32)>
    decreases items.len(),
{
    if items.len() == 0 {
        Seq::empty()
    } else {
        let kept = first_occurrences(items.drop_last());
        if kept.contains(items.last()) {
            kept
        } else {
            kept.push(items.last())
        }
    }
}

/// One column of grid references: `x` paired with every step of `y_steps`, in order.
pub open spec fn grid_column(x: i32, y_steps: Seq<i32>) -> Seq<(i32, i32)> {
    Seq::new(y_steps.len(), |j: int| (x, y_steps[j]))
}

/// Every step of `x_steps` paired with every step of `y_steps`: column after column in the
/// order of `x_steps`, each column in the order of `y_steps`.
pub open spec fn grid_product(x_steps: Seq<i32>, y_steps: Seq<i32>) -> Seq<(i32, i32)>
    decreases x_steps.len(),
{
    if x_steps.len() == 0 {
        Seq::empty()
    } else {
        grid_product(x_steps.drop_last(), y_steps) + grid_column(x_steps.last(), y_steps)
    }
}

/// What the first occurrences hold is what the sequence holds.
pub proof fn lemma_first_occurrences_contains(items: Seq<(i32, i32)>, item: (i32, i32))
    ensures
        first_occurrences(items).contains(item) <==> items.contains(item),
    decreases items.len(),
{
    if items.len() > 0 {
        let init = items.drop_last();
        let kept = first_occurrences(init);
        lemma_first_occurrences_contains(init, item);
        lemma_first_occurrences_contains(init, items.last());
        if items.contains(item) {
            let i = choose|i: int| 0 <= i < items.len() && items[i] == item;
            if i < init.len() {
                assert(init[i] == item);
            }
        }
        if kept.contains(item) && !kept.contains(items.last()) {
            let i = choose|i: int| 0 <= i < kept.len() && kept[i] == item;
            assert(kept.push(items.last())[i] == item);
        }
        if item == items.last() && !kept.contains(items.last()) {
            assert(kept.push(items.last())[kept.len() as int] == item);
        }
    }
}

/// Among the first occurrences nothing occurs twice.
pub proof fn lemma_first_occurrences_no_duplicates(items: Seq<(i32, i32)>)
    ensures
        first_occurrences(items).no_duplicates(),
    decreases items.len(),
{
    if items.len() > 0 {
        lemma_first_occurrences_no_duplicates(items.drop_last());
    }
}

/// The first occurrences are never more than the items.
pub proof fn lemma_first_occurrences_len(items: Seq<(i32, i32)>)
    ensures
        first_occurrences(items).len() <= items.len(),
    decreases items.len(),
{
    if items.len() > 0 {
        lemma_first_occurrences_len(items.drop_last());
    }
}

/// A sequence in which nothing occurs twice is left as it is.
pub proof fn lemma_first_occurrences_of_distinct(items: Seq<(i32, i32)>)
    requires
        items.no_duplicates(),
    ensures
        first_occurrences(items) == items,
    decreases items.len(),
{
    if items.len() > 0 {
        let init = items.drop_last();
        lemma_first_occurrences_of_distinct(init);
        if init.contains(items.last()) {
            let i = choose|i: int| 0 <= i < init.len() && init[i] == items.last();
            assert(items[i] == items[items.len() - 1]);
        }
        assert(init.push(items.last()) =~= items);
    }
}

/// Taking the first occurrences a second time changes nothing.
pub proof fn lemma_first_occurrences_idempotent(items: Seq<(i32, i32)>)
    ensures
        first_occurrences(first_occurrences(items)) == first_occurrences(items),
{
    lemma_first_occurrences_no_duplicates(items);
    lemma_first_occurrences_of_distinct(first_occurrences(items));
}

/// The product holds exactly the pairs of a step of `x_steps` with a step of `y_steps`.
pub proof fn lemma_grid_product_contains(x_steps: Seq<i32>, y_steps: Seq<i32>, item: (i32, i32))
    ensures
        grid_product(x_steps, y_steps).contains(item) <==> x_steps.contains(item.0)
            && y_steps.contains(item.1),
    decreases x_steps.len(),
{
    if x_steps.len() > 0 {
        let init = x_steps.drop_last();
        let head = grid_product(init, y_steps);
        let column = grid_column(x_steps.last(), y_steps);
        let all = grid_product(x_steps, y_steps);
        lemma_grid_product_contains(init, y_steps, item);
        if all.contains(item) {
            let k = choose|k: int| 0 <= k < all.len() && all[k] == item;
            if k < head.len() {
                assert(head[k] == item);
                let i = choose|i: int| 0 <= i < init.len() && init[i] == item.0;
                assert(x_steps[i] == item.0);
            } else {
                assert(column[k - head.len()] == item);
                assert(x_steps[x_steps.len() - 1] == item.0);
                assert(y_steps[k - head.len()] == item.1);
            }
        }
        if x_steps.contains(item.0) && y_steps.contains(item.1) {
            let i = choose|i: int| 0 <= i < x_steps.len() && x_steps[i] == item.0;
            let j = choose|j: int| 0 <= j < y_steps.len() && y_steps[j] == item.1;
            if i < init.len() {
                assert(init[i] == item.0);
                let k = choose|k: int| 0 <= k < head.len() && head[k] == item;
                assert(all[k] == item);
            } else {
                assert(column[j] == item);
                assert(all[head.len() + j] == item);
            }
        }
    }
}

/// The product has one pair for every choice of a step along each axis.
pub proof fn lemma_grid_product_len(x_steps: Seq<i32>, y_steps: Seq<i32>)
    ensures
        grid_product(x_steps, y_steps).len() == x_steps.len() * y_steps.len(),
    decreases x_steps.len(),
{
    if x_steps.len() > 0 {
        lemma_grid_product_len(x_steps.drop_last(), y_steps);
        assert((x_steps.len() - 1) * y_steps.len() + y_steps.len() == x_steps.len()
            * y_steps.len()) by (nonlinear_arith);
    }
}

/// `Itertools::unique` of the itertools crate, run over the items of a vector and collected
/// again. The adaptor hands each item on the first time it meets it and skips it ever after,
/// so what comes out is the sequence of first occurrences, in the order of the input.
#[verifier::external_body]
fn unique(items: Vec<(i32, i32)>) -> (kept: Vec<(i32, i32)>)
    ensures
        kept@ == first_occurrences(items@),
{
    items.into_iter().unique().collect()
}

/// The grid references spanned by the steps along the two axes: every pair of an x step with
/// a y step, each reported once, in the order in which the pairs first appear when the x
/// steps are walked in turn and the y steps are walked for each of them.
pub fn grid_refs_from_i32_steps(x_steps: Vec<i32>, y_steps: Vec<i32>) -> (refs: Vec<(i32, i32)>)
    ensures
        refs@ == first_occurrences(grid_product(x_steps@, y_steps@)),
        refs@.no_duplicates(),
        refs@.len() <= x_steps@.len() * y_steps@.len(),
        forall|item: (i32, i32)|
            refs@.contains(item) <==> x_steps@.contains(item.0) && y_steps@.contains(item.1),
{
    let mut pairs: Vec<(i32, i32)> = Vec::new();
    let mut i: usize = 0;
    while i < x_steps.len()
        invariant
            i <= x_steps.len(),
            pairs@ == grid_product(x_steps@.take(i as int), y_steps@),
        decreases x_steps.len() - i,
    {
        let x = x_steps[i];
        let ghost before = pairs@;
        let mut j: usize = 0;
        while j < y_steps.len()
            invariant
                j <= y_steps.len(),
                pairs@ == before + grid_column(x, y_steps@.take(j as int)),
            decreases y_steps.len() - j,
        {
            pairs.push((x, y_steps[j]));
            j += 1;
        }
        proof {
            assert(x_steps@.take(i + 1).drop_last() =~= x_steps@.take(i as int));
        }
        i += 1;
    }
    proof {
        assert(x_steps@.take(i as int) =~= x_steps@);
        let product = grid_product(x_steps@, y_steps@);
        lemma_first_occurrences_no_duplicates(product);
        lemma_first_occurrences_len(product);
        lemma_grid_product_len(x_steps@, y_steps@);
        assert forall|item: (i32, i32)|
            first_occurrences(product).contains(item) <==> x_steps@.contains(item.0)
                && y_steps@.contains(item.1) by {
            lemma_first_occurrences_contains(product, item);
            lemma_grid_product_contains(x_steps@, y_steps@, item);
        }
    }
    unique(pairs)
}

} // verus!
