//! Flattening of grouped data into flat buffers.
use vstd::prelude::*;

verus! {

broadcast use Seq::lemma_flatten_push;

/// The views of a sequence of arrays, one inner sequence per array.
pub open spec fn array_views<T, const N: usize>(items: Seq<[T; N]>) -> Seq<Seq<T>> {
    items.map_values(|a: [T; N]| a@)
}

/// The items of `items`, array after array, in order.
pub open spec fn flat_arrays<T, const N: usize>(items: Seq<[T; N]>) -> Seq<T> {
    array_views(items).flatten()
}

/// Appends every element of `items` to `out`, in order.
pub fn extend_copied<T: Copy>(out: &mut Vec<T>, items: &Vec<T>)
    ensures
        final(out)@ == old(out)@ + items@,
{
    let n = items.len();
    let mut i: usize = 0;
    while i < n
        invariant
            n == items@.len(),
            i <= n,
            out@ == old(out)@ + items@.take(i as int),
        decreases n - i,
    {
        out.push(items[i]);
        assert(items@.take(i as int + 1) == items@.take(i as int).push(items@[i as int]));
        i = i + 1;
    }
    assert(items@.take(n as int) == items@);
}

/// Lays the arrays of `items` out one after another in a single buffer.
pub fn flatten_arrays<T: Copy, const N: usize>(items: &Vec<[T; N]>) -> (flat: Vec<T>)
    ensures
        flat@ == flat_arrays(items@),
{
    let mut flat: Vec<T> = Vec::new();
    let n = items.len();
    let mut i: usize = 0;
    while i < n
        invariant
            n == items@.len(),
            i <= n,
            flat@ == flat_arrays(items@.take(i as int)),
        decreases n - i,
    {
        let item: &[T; N] = &items[i];
        let mut j: usize = 0;
        while j < N
            invariant
                n == items@.len(),
                i < n,
                j <= N,
                *item == items@[i as int],
                flat@ == flat_arrays(items@.take(i as int)) + item@.take(j as int),
            decreases N - j,
        {
            flat.push(item[j]);
            assert(item@.take(j as int + 1) == item@.take(j as int).push(item@[j as int]));
            j = j + 1;
        }
        proof {
            assert(item@.take(N as int) == item@);
            assert(items@.take(i as int + 1) == items@.take(i as int).push(items@[i as int]));
            assert(array_views(items@.take(i as int + 1)) == array_views(items@.take(i as int)).push(item@));
        }
        i = i + 1;
    }
    assert(items@.take(n as int) == items@);
    flat
}


/// Number of items held by the groups before group `i`: the position in the
/// flat buffer at which group `i` starts.
pub open spec fn group_start<T>(groups: Seq<Seq<T>>, i: int) -> nat {
    groups.take(i).flatten().len()
}

/// The first group starts at zero.
pub proof fn lemma_group_start_zero<T>(groups: Seq<Seq<T>>)
    ensures
        group_start(groups, 0) == 0,
{
    assert(groups.take(0) =~= Seq::<Seq<T>>::empty());
}

/// Each group ends where the next one starts.
pub proof fn lemma_group_start_step<T>(groups: Seq<Seq<T>>, i: int)
    requires
        0 <= i < groups.len(),
    ensures
        group_start(groups, i + 1) == group_start(groups, i) + groups[i].len(),
{
    assert(groups.take(i + 1) =~= groups.take(i).push(groups[i]));
}

/// The flat buffer splits into the groups before `i` and those from `i` on.
pub proof fn lemma_flatten_split<T>(groups: Seq<Seq<T>>, i: int)
    requires
        0 <= i <= groups.len(),
    ensures
        groups.flatten() == groups.take(i).flatten() + groups.skip(i).flatten(),
        group_start(groups, i) <= groups.flatten().len(),
        group_start(groups, groups.len() as int) == groups.flatten().len(),
{
    assert(groups =~= groups.take(i) + groups.skip(i));
    vstd::seq_lib::lemma_flatten_concat(groups.take(i), groups.skip(i));
    assert(groups.take(groups.len() as int) =~= groups);
}

/// Item `k` of group `i` sits at `group_start(groups, i) + k` in the flat buffer.
pub proof fn lemma_flatten_index<T>(groups: Seq<Seq<T>>, i: int, k: int)
    requires
        0 <= i < groups.len(),
        0 <= k < groups[i].len(),
    ensures
        group_start(groups, i) + k < groups.flatten().len(),
        groups.flatten()[group_start(groups, i) + k] == groups[i][k],
{
    lemma_flatten_split(groups, i + 1);
    assert(groups.take(i + 1) =~= groups.take(i).push(groups[i]));
}


/// When every group holds `n` items, group `i` starts at `n * i`.
pub proof fn lemma_uniform_group_start<T>(groups: Seq<Seq<T>>, n: int, i: int)
    requires
        0 <= n,
        0 <= i <= groups.len(),
        forall|j: int| 0 <= j < groups.len() ==> (#[trigger] groups[j]).len() == n,
    ensures
        group_start(groups, i) == n * i,
    decreases i,
{
    if i == 0 {
        lemma_group_start_zero(groups);
    } else {
        lemma_uniform_group_start(groups, n, i - 1);
        lemma_group_start_step(groups, i - 1);
        assert(n * (i - 1) + n == n * i) by (nonlinear_arith);
    }
}

/// When each group of `wide` holds `n` items per item of the matching group
/// of `narrow`, the groups of `wide` start `n` times further along.
pub proof fn lemma_scaled_group_start<A, B>(narrow: Seq<Seq<A>>, wide: Seq<Seq<B>>, n: int, i: int)
    requires
        0 <= n,
        narrow.len() == wide.len(),
        0 <= i <= narrow.len(),
        forall|j: int| 0 <= j < narrow.len() ==> (#[trigger] wide[j]).len() == n * narrow[j].len(),
    ensures
        group_start(wide, i) == n * group_start(narrow, i),
    decreases i,
{
    if i == 0 {
        lemma_group_start_zero(narrow);
        lemma_group_start_zero(wide);
        assert(n * 0 == 0) by (nonlinear_arith);
    } else {
        lemma_scaled_group_start(narrow, wide, n, i - 1);
        lemma_group_start_step(narrow, i - 1);
        lemma_group_start_step(wide, i - 1);
        let a = group_start(narrow, i - 1);
        let b = narrow[i - 1].len();
        assert(wide[i - 1].len() == n * b);
        assert(n * a + n * b == n * (a + b)) by (nonlinear_arith);
    }
}

/// Flattening arrays of `N` items gives `N` items per array, component `c`
/// of array `k` sitting at `N * k + c`.
pub proof fn lemma_flat_arrays_index<T, const N: usize>(items: Seq<[T; N]>, k: int, c: int)
    requires
        0 <= k < items.len(),
        0 <= c < N,
    ensures
        flat_arrays(items).len() == N * items.len(),
        N * k + c < flat_arrays(items).len(),
        flat_arrays(items)[N * k + c] == items[k]@[c],
{
    lemma_flat_arrays_len(items);
    let views = array_views(items);
    lemma_uniform_group_start(views, N as int, k);
    lemma_flatten_index(views, k, c);
}

/// Flattening arrays of `N` items gives `N` items per array.
pub proof fn lemma_flat_arrays_len<T, const N: usize>(items: Seq<[T; N]>)
    ensures
        flat_arrays(items).len() == N * items.len(),
{
    let views = array_views(items);
    assert forall|j: int| 0 <= j < views.len() implies (#[trigger] views[j]).len() == N by {
        vstd::array::array_len_matches_n(&items[j]);
    }
    lemma_uniform_group_start(views, N as int, views.len() as int);
    lemma_flatten_split(views, views.len() as int);
}

} // verus!
