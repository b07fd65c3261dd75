//! Selecting a regular subset of a list of files: every `ratio`-th one.

use vstd::prelude::*;
use crate::event::path_texts;

verus! {

/// How many of `total` items are selected when every `ratio`-th is taken,
/// starting with the first: `total / ratio`, rounded up.
pub open spec fn selected_count(total: nat, ratio: nat) -> nat {
    ((total + ratio - 1) / (ratio as int)) as nat
}

/// The items at positions `0`, `ratio`, `2 * ratio`, ... of `items`.
pub open spec fn every_nth<T>(items: Seq<T>, ratio: nat) -> Seq<T> {
    Seq::new(selected_count(items.len(), ratio), |i: int| items[i * ratio])
}

/// What one more item does to the count: it grows by one exactly when the
/// item's position is a multiple of the ratio, and that position is then the
/// old count times the ratio.
pub proof fn lemma_selected_count_step(total: nat, ratio: nat)
    requires
        ratio >= 1,
    ensures
        total % ratio == 0 ==> selected_count(total + 1, ratio) == selected_count(total, ratio) + 1
            && selected_count(total, ratio) * ratio == total,
        total % ratio != 0 ==> selected_count(total + 1, ratio) == selected_count(total, ratio),
        selected_count(0, ratio) == 0,
{
    let k = ratio as int;
    let t = total as int;
    let q = t / k;
    let r = t % k;
    assert(t == q * k + r && 0 <= r < k) by (nonlinear_arith)
        requires
            k >= 1,
            t >= 0,
            q == t / k,
            r == t % k,
    ;
    if r == 0 {
        assert((q * k + k - 1) / k == q) by (nonlinear_arith)
            requires
                k >= 1,
        ;
        assert((q * k + 1 + k - 1) / k == q + 1) by (nonlinear_arith)
            requires
                k >= 1,
        ;
    } else {
        assert((q * k + r + k - 1) / k == q + 1) by (nonlinear_arith)
            requires
                k >= 1,
                0 < r < k,
        ;
        assert((q * k + r + 1 + k - 1) / k == q + 1) by (nonlinear_arith)
            requires
                k >= 1,
                0 < r < k,
        ;
    }
    assert((0 + k - 1) / k == 0) by (nonlinear_arith)
        requires
            k >= 1,
    ;
}

/// The count is the least number of steps of width `ratio` that cover
/// `total` items: `count * ratio >= total > (count - 1) * ratio`.
pub proof fn lemma_selected_count_bounds(total: nat, ratio: nat)
    requires
        ratio >= 1,
    ensures
        selected_count(total, ratio) * ratio >= total,
        total > 0 ==> (selected_count(total, ratio) - 1) * ratio < total,
        total == 0 ==> selected_count(total, ratio) == 0,
        selected_count(total, ratio) <= total,
{
    let k = ratio as int;
    let t = total as int;
    let c = (t + k - 1) / k;
    assert(c * k >= t && (t > 0 ==> (c - 1) * k < t) && (t == 0 ==> c == 0) && c <= t && c >= 0)
        by (nonlinear_arith)
        requires
            k >= 1,
            t >= 0,
            c == (t + k - 1) / k,
    ;
}

/// Every position that `every_nth` reads lies inside the list.
pub proof fn lemma_every_nth_in_range(total: nat, ratio: nat, i: int)
    requires
        ratio >= 1,
        0 <= i < selected_count(total, ratio),
    ensures
        0 <= i * ratio < total,
{
    lemma_selected_count_bounds(total, ratio);
    let k = ratio as int;
    let c = selected_count(total, ratio) as int;
    assert(0 <= i * k && i * k <= (c - 1) * k) by (nonlinear_arith)
        requires
            k >= 1,
            0 <= i <= c - 1,
    ;
}

/// Every selected item is an item of the list.
pub proof fn lemma_every_nth_within<T>(items: Seq<T>, ratio: nat, item: T)
    requires
        ratio >= 1,
        every_nth(items, ratio).contains(item),
    ensures
        items.contains(item),
{
    let selected = every_nth(items, ratio);
    let i = choose|i: int| 0 <= i < selected.len() && selected[i] == item;
    lemma_every_nth_in_range(items.len(), ratio, i);
    assert(items[i * ratio] == item);
}

/// Where no item comes twice in the list, none comes twice in the
/// selection.
pub proof fn lemma_every_nth_distinct<T>(items: Seq<T>, ratio: nat)
    requires
        ratio >= 1,
        items.no_duplicates(),
    ensures
        every_nth(items, ratio).no_duplicates(),
{
    let selected = every_nth(items, ratio);
    assert forall|i: int, j: int|
        0 <= i < selected.len() && 0 <= j < selected.len() && i != j implies selected[i]
            != selected[j] by {
        lemma_every_nth_in_range(items.len(), ratio, i);
        lemma_every_nth_in_range(items.len(), ratio, j);
        assert(i * ratio != j * ratio) by (nonlinear_arith)
            requires
                ratio >= 1,
                i != j,
        ;
    }
}

/// Taking every item is taking the whole list.
pub proof fn lemma_every_first_is_all<T>(items: Seq<T>)
    ensures
        every_nth(items, 1) == items,
{
    assert(every_nth(items, 1) =~= items);
}

/// Selects every `filter_ratio`-th file of `all_files`, starting with the
/// first: those at positions `0`, `filter_ratio`, `2 * filter_ratio`, ...
pub fn get_filtered_files(all_files: &[String], filter_ratio: usize) -> (selected: Vec<String>)
    requires
        filter_ratio >= 1,
    ensures
        path_texts(selected@) == every_nth(path_texts(all_files@), filter_ratio as nat),
        selected.len() == selected_count(all_files.len() as nat, filter_ratio as nat),
{
    let ghost texts = path_texts(all_files@);
    let ghost ratio = filter_ratio as nat;
    let mut selected: Vec<String> = Vec::new();
    let mut i: usize = 0;
    proof {
        lemma_selected_count_step(0, ratio);
    }
    while i < all_files.len()
        invariant
            0 <= i <= all_files.len(),
            filter_ratio >= 1,
            ratio == filter_ratio as nat,
            texts == path_texts(all_files@),
            selected.len() == selected_count(i as nat, ratio),
            path_texts(selected@) == every_nth(texts.take(i as int), ratio),
        decreases all_files.len() - i,
    {
        let ghost before = path_texts(selected@);
        proof {
            lemma_selected_count_step(i as nat, ratio);
        }
        if i % filter_ratio == 0 {
            selected.push(all_files[i].clone());
        }
        proof {
            let now = path_texts(selected@);
            let wanted = every_nth(texts.take(i + 1), ratio);
            assert(now.len() == wanted.len());
            assert forall|m: int| 0 <= m < wanted.len() implies now[m] == wanted[m] by {
                lemma_every_nth_in_range((i + 1) as nat, ratio, m);
                if m < before.len() {
                    lemma_every_nth_in_range(i as nat, ratio, m);
                    assert(now[m] == before[m]);
                    assert(before[m] == texts.take(i as int)[m * ratio]);
                } else {
                    assert(m * ratio == i);
                }
            }
            assert(now =~= wanted);
        }
        i = i + 1;
    }
    proof {
        assert(texts.take(i as int) =~= texts);
    }
    selected
}

} // verus!
