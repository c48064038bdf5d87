//! Multiple selection over the places of a list.

use std::collections::HashSet;
use std::marker::PhantomData;
use vstd::prelude::*;
use vstd::std_specs::iter::IteratorSpec;

verus! {

/// Whether `s` ascends strictly: it is sorted and holds nothing twice.
pub open spec fn ascending(s: Seq<usize>) -> bool {
    forall|i: int, j: int| 0 <= i < j < s.len() ==> s[i] < s[j]
}

/// Puts `x` into the ascending `out` at its place, unless it is there.
fn insert_ascending(out: &mut Vec<usize>, x: usize)
    requires
        ascending(old(out)@),
    ensures
        ascending(final(out)@),
        forall|y: usize| final(out)@.contains(y) <==> (old(out)@.contains(y) || y == x),
{
    let mut i: usize = 0;
    while i < out.len() && out[i] < x
        invariant
            i <= out.len(),
            *out == *old(out),
            forall|k: int| 0 <= k < i ==> out@[k] < x,
        decreases out.len() - i,
    {
        i = i + 1;
    }
    if i < out.len() && out[i] == x {
        assert(out@.contains(x));
        return ;
    }
    let ghost before = out@;
    out.insert(i, x);
    proof {
        let after = out@;
        assert(after.len() == before.len() + 1);
        assert forall|a: int, b: int| 0 <= a < b < after.len() implies after[a] < after[b] by {
            if b < i {
                assert(after[a] == before[a] && after[b] == before[b]);
            } else if b == i {
                assert(after[a] == before[a]);
            } else if a < i {
                assert(after[a] == before[a] && after[b] == before[b - 1]);
            } else if a == i {
                assert(after[b] == before[b - 1]);
                assert(before[i as int] <= before[b - 1]) by {
                    if (i as int) < b - 1 {
                        assert(before[i as int] < before[b - 1]);
                    }
                }
            } else {
                assert(after[a] == before[a - 1] && after[b] == before[b - 1]);
            }
        }
        assert forall|y: usize| after.contains(y) <==> (before.contains(y) || y == x) by {
            if after.contains(y) {
                let k = choose|k: int| 0 <= k < after.len() && after[k] == y;
                if k < i {
                    assert(before[k] == y);
                } else if k > i {
                    assert(before[k - 1] == y);
                }
            }
            if before.contains(y) {
                let k = choose|k: int| 0 <= k < before.len() && before[k] == y;
                if k < i {
                    assert(after[k] == y);
                } else {
                    assert(after[k + 1] == y);
                }
            }
            if y == x {
                assert(after[i as int] == x);
            }
        }
    }
}

/// A set of selected places. The type parameter names what the places
/// refer to.
pub struct MultiSelection<T> {
    selected_indices: HashSet<usize>,
    _marker: PhantomData<T>,
}

impl<T> View for MultiSelection<T> {
    type V = Set<usize>;

    closed spec fn view(&self) -> Set<usize> {
        self.selected_indices@
    }
}

impl<T> MultiSelection<T> {
    /// The empty selection.
    pub fn new() -> (r: Self)
        ensures
            r@ == Set::<usize>::empty(),
    {
        MultiSelection { selected_indices: HashSet::new(), _marker: PhantomData }
    }

    /// Selects the place `idx` where it is not selected, and drops it from
    /// the selection where it is.
    pub fn toggle(&mut self, idx: usize)
        ensures
            final(self)@ == if old(self)@.contains(idx) {
                old(self)@.remove(idx)
            } else {
                old(self)@.insert(idx)
            },
    {
        if self.selected_indices.contains(&idx) {
            self.selected_indices.remove(&idx);
        } else {
            self.selected_indices.insert(idx);
        }
    }

    /// Whether the place `idx` is selected.
    pub fn is_selected(&self, idx: usize) -> (r: bool)
        ensures
            r == self@.contains(idx),
    {
        self.selected_indices.contains(&idx)
    }

    /// Empties the selection.
    pub fn clear(&mut self)
        ensures
            final(self)@ == Set::<usize>::empty(),
    {
        self.selected_indices.clear();
    }

    /// How many places are selected.
    pub fn count(&self) -> (r: usize)
        ensures
            r == self@.len(),
    {
        self.selected_indices.len()
    }

    /// The selected places in ascending order.
    pub fn get_selected_indices(&self) -> (r: Vec<usize>)
        ensures
            ascending(r@),
            forall|y: usize| r@.contains(y) <==> self@.contains(y),
            r@.len() == self@.len(),
    {
        let mut out: Vec<usize> = Vec::new();
        let ghost all = self.selected_indices.iter().remaining();
        for x in it: self.selected_indices.iter()
            invariant
                it.seq() == all,
                ascending(out@),
                forall|y: usize|
                    out@.contains(y) <==> exists|k: int|
                        0 <= k < it.index() && *(#[trigger] all[k]) == y,
        {
            let ghost n = it.index();
            assert(*all[n] == *x);
            insert_ascending(&mut out, *x);
        }
        proof {
            let keys = all.unref();
            assert(keys.to_set() == self@);
            assert forall|y: usize| out@.contains(y) <==> self@.contains(y) by {
                if out@.contains(y) {
                    let k = choose|k: int| 0 <= k < all.len() && *(#[trigger] all[k]) == y;
                    assert(keys[k] == y);
                    assert(keys.contains(y));
                }
                if self@.contains(y) {
                    assert(keys.contains(y));
                    let k = choose|k: int| 0 <= k < keys.len() && keys[k] == y;
                    assert(*all[k] == y);
                }
            }
            assert(out@.no_duplicates());
            assert(out@.to_set() =~= self@);
            out@.unique_seq_to_set();
        }
        out
    }
}

} // verus!
