//! The Selection Set: an ordered collection of unique object references.
//!
//! Object references are opaque, stable identifiers issued by the host scene
//! subsystem; the core only stores and compares them. The set is backed by
//! `indexmap::IndexSet`, whose insertion order is preserved for iteration and
//! whose contents this module models as a duplicate-free sequence. An
//! ordinary click replaces the selection; a click with the additive modifier
//! held builds a multi-selection; toggling an already-selected object removes
//! it and shifts nothing else out of order.

use vstd::prelude::*;
use indexmap::IndexSet;
use std::collections::hash_map::RandomState;

verus! {

/// The members of an `IndexSet` of object references, in insertion order.
/// Every contract on the trusted wrappers below speaks over this sequence.
pub uninterp spec fn index_set_elems(s: IndexSet<u64, RandomState>) -> Seq<u64>;

#[verifier::external_type_specification]
#[verifier::external_body]
#[verifier::reject_recursive_types(T)]
#[verifier::reject_recursive_types(S)]
pub struct ExIndexSet<T, S>(IndexSet<T, S>);

/// Relies on `IndexSet::new`: creates an empty set.
#[verifier::external_body]
fn set_new() -> (r: IndexSet<u64, RandomState>)
    ensures
        index_set_elems(r) == Seq::<u64>::empty(),
{
    IndexSet::new()
}

/// Relies on `IndexSet::len`: the number of elements in the set.
#[verifier::external_body]
fn set_len(s: &IndexSet<u64, RandomState>) -> (n: usize)
    ensures
        n == index_set_elems(*s).len(),
{
    s.len()
}

/// Relies on `IndexSet::contains`: whether an equivalent value is in the set.
#[verifier::external_body]
fn set_contains(s: &IndexSet<u64, RandomState>, x: u64) -> (b: bool)
    ensures
        b == index_set_elems(*s).contains(x),
{
    s.contains(&x)
}

/// Relies on `IndexSet::get_index`: the element at a position, in order.
#[verifier::external_body]
fn set_get(s: &IndexSet<u64, RandomState>, i: usize) -> (r: u64)
    requires
        i < index_set_elems(*s).len(),
    ensures
        r == index_set_elems(*s)[i as int],
{
    *s.get_index(i).unwrap()
}

/// Relies on `IndexSet::insert`: appends the value and returns `true` if no
/// equivalent was present; otherwise leaves the set and its order untouched
/// and returns `false`.
#[verifier::external_body]
fn set_insert(s: &mut IndexSet<u64, RandomState>, x: u64) -> (inserted: bool)
    ensures
        inserted == !index_set_elems(*old(s)).contains(x),
        index_set_elems(*final(s)) == if index_set_elems(*old(s)).contains(x) {
            index_set_elems(*old(s))
        } else {
            index_set_elems(*old(s)).push(x)
        },
{
    s.insert(x)
}

/// Relies on `IndexSet::shift_remove`: removes the value if present, shifting
/// the elements that follow it and preserving their relative order; returns
/// whether it was present.
#[verifier::external_body]
fn set_shift_remove(s: &mut IndexSet<u64, RandomState>, x: u64) -> (removed: bool)
    ensures
        removed == index_set_elems(*old(s)).contains(x),
        !removed ==> index_set_elems(*final(s)) == index_set_elems(*old(s)),
        removed ==> exists|i: int|
            0 <= i < index_set_elems(*old(s)).len() && index_set_elems(*old(s))[i] == x
                && index_set_elems(*final(s)) == index_set_elems(*old(s)).remove(i),
{
    s.shift_remove(&x)
}

/// Relies on `IndexSet::clear`: removes all elements.
#[verifier::external_body]
fn set_clear(s: &mut IndexSet<u64, RandomState>)
    ensures
        index_set_elems(*final(s)) == Seq::<u64>::empty(),
{
    s.clear()
}

/// Relies on `IndexSet::pop`: removes and returns the last element,
/// preserving the order of the rest.
#[verifier::external_body]
fn set_pop(s: &mut IndexSet<u64, RandomState>) -> (r: Option<u64>)
    ensures
        index_set_elems(*old(s)).len() == 0 ==> r is None && index_set_elems(*final(s))
            == index_set_elems(*old(s)),
        index_set_elems(*old(s)).len() > 0 ==> r == Some(index_set_elems(*old(s)).last())
            && index_set_elems(*final(s)) == index_set_elems(*old(s)).drop_last(),
{
    s.pop()
}

/// What a toggle does to the selection: an already-selected object is removed
/// in place; a new object is appended if the additive modifier is held, and
/// otherwise replaces the whole selection.
pub open spec fn toggle_spec(s: Seq<u64>, x: u64, additive: bool) -> Seq<u64> {
    if s.contains(x) {
        s.remove(s.index_of(x))
    } else if additive {
        s.push(x)
    } else {
        seq![x]
    }
}

/// The ordered set of currently selected object references.
pub struct SelectionSet {
    set: IndexSet<u64, RandomState>,
}

impl View for SelectionSet {
    type V = Seq<u64>;

    closed spec fn view(&self) -> Seq<u64> {
        index_set_elems(self.set)
    }
}

impl SelectionSet {
    /// Well-formedness: the members are unique.
    pub open spec fn inv(&self) -> bool {
        self@.no_duplicates()
    }

    /// The empty selection, created at process start.
    pub fn new() -> (r: SelectionSet)
        ensures
            r@ == Seq::<u64>::empty(),
            r.inv(),
    {
        SelectionSet { set: set_new() }
    }

    /// How many objects are selected.
    pub fn len(&self) -> (n: usize)
        ensures
            n == self@.len(),
    {
        set_len(&self.set)
    }

    /// Whether `x` is selected.
    pub fn contains(&self, x: u64) -> (b: bool)
        ensures
            b == self@.contains(x),
    {
        set_contains(&self.set, x)
    }

    /// The selected references in insertion order; the first is the primary.
    pub fn elements(&self) -> (r: Vec<u64>)
        ensures
            r@ == self@,
    {
        let n: usize = set_len(&self.set);
        let mut r: Vec<u64> = Vec::new();
        let mut i: usize = 0;
        while i < n
            invariant
                n == self@.len(),
                i <= n,
                r@ == self@.subrange(0, i as int),
            decreases n - i,
        {
            r.push(set_get(&self.set, i));
            i += 1;
        }
        proof {
            assert(r@ =~= self@);
        }
        r
    }

    /// Toggle membership of `x`: remove it if selected, otherwise insert it,
    /// clearing the rest first unless the additive modifier is held.
    pub fn toggle(&mut self, x: u64, additive: bool)
        requires
            old(self).inv(),
        ensures
            final(self)@ == toggle_spec(old(self)@, x, additive),
            final(self).inv(),
            !additive && !old(self)@.contains(x) ==> final(self)@ == seq![x],
    {
        let ghost s0: Seq<u64> = self@;
        if set_shift_remove(&mut self.set, x) {
            proof {
                let i: int = choose|i: int|
                    0 <= i < s0.len() && s0[i] == x && self@ == s0.remove(i);
                assert(s0[s0.index_of(x)] == x);
                assert(i == s0.index_of(x));
                lemma_remove_preserves_no_duplicates(s0, i);
            }
        } else {
            if !additive {
                set_clear(&mut self.set);
            }
            let _inserted: bool = set_insert(&mut self.set, x);
            proof {
                if !additive {
                    assert(self@ =~= seq![x]);
                } else {
                    assert(self@ == s0.push(x));
                    lemma_push_fresh_preserves_no_duplicates(s0, x);
                }
            }
        }
    }

    /// Remove every member.
    pub fn clear(&mut self)
        ensures
            final(self)@ == Seq::<u64>::empty(),
            final(self).inv(),
    {
        set_clear(&mut self.set);
    }

    /// Drain the selection, yielding each member exactly once, most recently
    /// inserted first, for an external deletion pass over the drained
    /// references.
    pub fn pop_all(&mut self) -> (drained: Vec<u64>)
        ensures
            final(self)@ == Seq::<u64>::empty(),
            final(self).inv(),
            drained@ == old(self)@.reverse(),
    {
        let ghost s0: Seq<u64> = self@;
        let mut drained: Vec<u64> = Vec::new();
        loop
            invariant_except_break
                self@.len() <= s0.len(),
                self@ == s0.subrange(0, self@.len() as int),
                drained@.len() == s0.len() - self@.len(),
                forall|j: int|
                    0 <= j < drained@.len() ==> drained@[j] == s0[s0.len() - 1 - j],
            ensures
                self@ == Seq::<u64>::empty(),
                drained@ == s0.reverse(),
            decreases self@.len(),
        {
            let ghost before: Seq<u64> = self@;
            let popped: Option<u64> = set_pop(&mut self.set);
            match popped {
                Some(x) => {
                    proof {
                        assert(x == before[before.len() - 1]);
                        assert(x == s0[before.len() - 1]);
                        assert(self@ =~= s0.subrange(0, self@.len() as int));
                    }
                    drained.push(x);
                },
                None => {
                    proof {
                        assert(self@ =~= Seq::<u64>::empty());
                        assert(drained@ =~= s0.reverse());
                    }
                    break ;
                },
            }
        }
        drained
    }
}

/// Removing one element of a duplicate-free sequence leaves it duplicate-free.
proof fn lemma_remove_preserves_no_duplicates(s: Seq<u64>, i: int)
    requires
        s.no_duplicates(),
        0 <= i < s.len(),
    ensures
        s.remove(i).no_duplicates(),
{
    let r = s.remove(i);
    assert forall|p: int, q: int| 0 <= p < r.len() && 0 <= q < r.len() && p != q implies r[p]
        != r[q] by {
        let sp: int = if p < i {
            p
        } else {
            p + 1
        };
        let sq: int = if q < i {
            q
        } else {
            q + 1
        };
        assert(r[p] == s[sp]);
        assert(r[q] == s[sq]);
    }
}

/// Appending a value that is not yet a member keeps the sequence
/// duplicate-free.
proof fn lemma_push_fresh_preserves_no_duplicates(s: Seq<u64>, x: u64)
    requires
        s.no_duplicates(),
        !s.contains(x),
    ensures
        s.push(x).no_duplicates(),
{
    let r = s.push(x);
    assert forall|p: int, q: int| 0 <= p < r.len() && 0 <= q < r.len() && p != q implies r[p]
        != r[q] by {
        if p < s.len() && q < s.len() {
        } else if p < s.len() {
            assert(s[p] == r[p]);
        } else if q < s.len() {
            assert(s[q] == r[q]);
        }
    }
}

/// After a toggle with the additive modifier off on an object that is not
/// already selected, the selection is exactly that object — whatever sequence
/// of earlier toggles produced the current selection.
pub proof fn lemma_toggle_replaces(s: Seq<u64>, x: u64)
    requires
        !s.contains(x),
    ensures
        toggle_spec(s, x, false) == seq![x],
{
}

/// Toggling an already-selected object with the additive modifier on removes
/// exactly that object and leaves the remaining members, in order.
pub proof fn lemma_toggle_removes(s: Seq<u64>, x: u64, i: int)
    requires
        s.no_duplicates(),
        0 <= i < s.len(),
        s[i] == x,
    ensures
        toggle_spec(s, x, true) == s.subrange(0, i) + s.subrange(i + 1, s.len() as int),
        !toggle_spec(s, x, true).contains(x),
{
    assert(s.contains(x));
    assert(s[s.index_of(x)] == x);
    assert(i == s.index_of(x));
    assert(toggle_spec(s, x, true) == s.remove(i));
    let r = s.remove(i);
    assert forall|p: int| 0 <= p < r.len() implies r[p] != x by {
        let sp: int = if p < i {
            p
        } else {
            p + 1
        };
        assert(r[p] == s[sp]);
    }
    if r.contains(x) {
        let w: int = choose|w: int| 0 <= w < r.len() && r[w] == x;
    }
}

} // verus!
