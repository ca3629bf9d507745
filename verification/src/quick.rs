//! The quick-command search overlay's logic: ranking the registered commands
//! by edit distance from the search text, and moving the highlighted row.
//!
//! The overlay itself — the window, the text field, the buttons — is the
//! host's; it owns a [`QuickCommand`] while the overlay is open (the
//! `QuickSearch` focus consumer), feeds every search-text change and arrow
//! key here, and draws the commands in the returned order.

use vstd::prelude::*;

verus! {

/// The Levenshtein edit distance between two character sequences: the least
/// number of character insertions, deletions and substitutions turning one
/// into the other.
pub open spec fn edit_distance(a: Seq<char>, b: Seq<char>) -> nat
    decreases a.len() + b.len(),
{
    if a.len() == 0 {
        b.len()
    } else if b.len() == 0 {
        a.len()
    } else {
        let delete = edit_distance(a.drop_first(), b) + 1;
        let insert = edit_distance(a, b.drop_first()) + 1;
        let substitute = if a[0] == b[0] {
            edit_distance(a.drop_first(), b.drop_first())
        } else {
            edit_distance(a.drop_first(), b.drop_first()) + 1
        };
        min3(delete, insert, substitute)
    }
}

/// Least of three.
pub open spec fn min3(x: nat, y: nat, z: nat) -> nat {
    if x <= y && x <= z {
        x
    } else if y <= z {
        y
    } else {
        z
    }
}

/// Relies on `strsim::levenshtein`: the Levenshtein edit distance over the
/// two strings' characters.
pub assume_specification [ strsim::levenshtein ](a: &str, b: &str) -> (d: usize)
    ensures
        d == edit_distance(a@, b@),
;

/// A command's sort key when the overlay ranks the command list: its name's
/// edit distance from the search text.
pub open spec fn rank_key(names: Seq<String>, search: Seq<char>, k: int) -> nat {
    edit_distance(names[k]@, search)
}

/// Whether `order` lists command indices from best match to worst, commands
/// at equal distance keeping their registration order.
pub open spec fn ranked(order: Seq<usize>, names: Seq<String>, search: Seq<char>) -> bool {
    forall|i: int, j: int|
        0 <= i < j < order.len() ==> rank_key(names, search, #[trigger] order[i] as int)
            < rank_key(names, search, #[trigger] order[j] as int) || (rank_key(
            names,
            search,
            order[i] as int,
        ) == rank_key(names, search, order[j] as int) && order[i] < order[j])
}

/// Inserting a value that is not yet a member keeps a sequence
/// duplicate-free.
proof fn lemma_insert_fresh_preserves_no_duplicates(s: Seq<usize>, p: int, x: usize)
    requires
        s.no_duplicates(),
        !s.contains(x),
        0 <= p <= s.len(),
    ensures
        s.insert(p, x).no_duplicates(),
{
    let r = s.insert(p, x);
    assert forall|i: int, j: int| 0 <= i < r.len() && 0 <= j < r.len() && i != j implies r[i]
        != r[j] by {
        let si: int = if i < p {
            i
        } else {
            i - 1
        };
        let sj: int = if j < p {
            j
        } else {
            j - 1
        };
        if i != p && j != p {
            assert(r[i] == s[si]);
            assert(r[j] == s[sj]);
        } else if i == p {
            assert(r[j] == s[sj]);
            assert(s.contains(s[sj]));
        } else {
            assert(r[i] == s[si]);
            assert(s.contains(s[si]));
        }
    }
}

/// Rank the command names against the search text: the result lists every
/// command index exactly once, from smallest edit distance to largest,
/// commands at equal distance keeping their registration order.
pub fn rank_commands(names: &Vec<String>, search: &String) -> (order: Vec<usize>)
    ensures
        order@.len() == names@.len(),
        forall|i: int| 0 <= i < order@.len() ==> (#[trigger] order@[i]) < names@.len(),
        order@.no_duplicates(),
        ranked(order@, names@, search@),
{
    let n: usize = names.len();
    let mut dists: Vec<usize> = Vec::new();
    let mut i: usize = 0;
    while i < n
        invariant
            n == names@.len(),
            i <= n,
            dists@.len() == i,
            forall|q: int| 0 <= q < i ==> dists@[q] == rank_key(names@, search@, q),
        decreases n - i,
    {
        let d: usize = strsim::levenshtein(names[i].as_str(), search.as_str());
        dists.push(d);
        i += 1;
    }

    let mut order: Vec<usize> = Vec::new();
    let mut k: usize = 0;
    while k < n
        invariant
            n == names@.len(),
            k <= n,
            dists@.len() == n,
            forall|q: int| 0 <= q < n ==> dists@[q] == rank_key(names@, search@, q),
            order@.len() == k,
            forall|q: int| 0 <= q < k ==> (#[trigger] order@[q]) < k,
            order@.no_duplicates(),
            ranked(order@, names@, search@),
        decreases n - k,
    {
        let mut p: usize = order.len();
        while p > 0 && dists[order[p - 1]] > dists[k]
            invariant
                n == names@.len(),
                k < n,
                dists@.len() == n,
                forall|q: int| 0 <= q < n ==> dists@[q] == rank_key(names@, search@, q),
                order@.len() == k,
                forall|q: int| 0 <= q < k ==> (#[trigger] order@[q]) < k,
                order@.no_duplicates(),
                ranked(order@, names@, search@),
                p <= k,
                forall|q: int|
                    p <= q < k ==> rank_key(names@, search@, #[trigger] order@[q] as int)
                        > rank_key(names@, search@, k as int),
            decreases p,
        {
            p -= 1;
        }
        proof {
            let ghost o0 = order@;
            if order@.contains(k as usize) {
                let w: int = choose|w: int| 0 <= w < o0.len() && o0[w] == k as usize;
            }
            lemma_insert_fresh_preserves_no_duplicates(order@, p as int, k as usize);
        }
        let ghost before = order@;
        order.insert(p, k);
        proof {
            let o = order@;
            assert forall|a: int, b: int| 0 <= a < b < o.len() implies rank_key(
                names@,
                search@,
                #[trigger] o[a] as int,
            ) < rank_key(names@, search@, #[trigger] o[b] as int) || (rank_key(
                names@,
                search@,
                o[a] as int,
            ) == rank_key(names@, search@, o[b] as int) && o[a] < o[b]) by {
                let sa: int = if a < p {
                    a
                } else {
                    a - 1
                };
                let sb: int = if b < p {
                    b
                } else {
                    b - 1
                };
                if a != p && b != p {
                    assert(o[a] == before[sa]);
                    assert(o[b] == before[sb]);
                } else if a == p {
                    // The new entry against a later one: strictly farther.
                    assert(o[b] == before[sb]);
                } else {
                    // An earlier entry against the new one: the exit test of
                    // the scan bounds the entry at `p - 1`, and ranking
                    // bounds everything before it.
                    assert(o[a] == before[sa]);
                    assert(rank_key(names@, search@, before[p - 1] as int) <= rank_key(
                        names@,
                        search@,
                        k as int,
                    ));
                    if sa < p - 1 {
                        assert(rank_key(names@, search@, before[sa] as int) <= rank_key(
                            names@,
                            search@,
                            before[p - 1] as int,
                        ));
                    }
                }
            }
        }
        k += 1;
    }
    order
}

/// The overlay's transient state: the search text and the highlighted row.
pub struct QuickCommand {
    /// The search text as typed so far.
    pub search: String,
    /// The highlighted row in the ranked list.
    pub selected: usize,
}

impl Default for QuickCommand {
    /// A fresh overlay: empty search, first row highlighted.
    fn default() -> (r: QuickCommand)
        ensures
            r.search@ == Seq::<char>::empty(),
            r.selected == 0,
    {
        QuickCommand { search: String::new(), selected: 0 }
    }
}

impl QuickCommand {
    /// A search-text change resets the highlight to the best match.
    pub fn reset_selection(&mut self)
        ensures
            final(self).selected == 0,
            final(self).search == old(self).search,
    {
        self.selected = 0;
    }

    /// Move the highlight one row down, stopping at the last of `count`
    /// rows. The overlay always lists at least one command.
    pub fn move_down(&mut self, count: usize)
        requires
            count > 0,
        ensures
            final(self).selected == vstd::math::min(old(self).selected + 1, count - 1),
            final(self).search == old(self).search,
    {
        if self.selected < count - 1 {
            self.selected = self.selected + 1;
        } else {
            self.selected = count - 1;
        }
    }

    /// Move the highlight one row up, stopping at the first row.
    pub fn move_up(&mut self)
        ensures
            old(self).selected > 0 ==> final(self).selected == old(self).selected - 1,
            old(self).selected == 0 ==> final(self).selected == 0,
            final(self).search == old(self).search,
    {
        if self.selected > 0 {
            self.selected = self.selected - 1;
        }
    }
}

} // verus!
