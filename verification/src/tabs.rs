//! Cyclic tab selector: a fixed, non-empty, ordered set of tab identifiers
//! plus a current index that advances and retreats with wraparound.

use vstd::prelude::*;

verus! {

/// A closed enumeration that can list all of its variants, in their declared
/// order. The list is fixed and non-empty.
pub trait AsVec<T>: Sized {
    /// The full variant set, in declared order.
    spec fn spec_variants() -> Seq<T>;

    /// Returns every variant, in declared order.
    fn as_vec() -> (r: Vec<T>)
        ensures
            r@ == Self::spec_variants(),
            r@.len() > 0,
    ;
}

/// The index one step forward of `i`, wrapping at `len`.
pub open spec fn next_index(i: int, len: int) -> int {
    (i + 1) % len
}

/// The index one step backward of `i`, wrapping at `len`.
pub open spec fn prev_index(i: int, len: int) -> int {
    if i > 0 {
        i - 1
    } else {
        len - 1
    }
}

/// A selector over a fixed, ordered, non-empty set of tab identifiers.
pub struct TabsState<E: AsVec<E> + Clone + Copy> {
    /// The tab identifiers, in display order; fixed at construction, non-empty.
    pub titles: Vec<E>,
    /// The active position, always within `titles`.
    pub index: usize,
    /// The active tab identifier. After any `next` or `previous` it equals
    /// `titles[index]`; at construction it is the caller's default, which may
    /// differ from `titles[0]`.
    pub current: E,
}

impl<E: AsVec<E> + Clone + Copy> TabsState<E> {
    /// Structural invariant: the tab set is non-empty and the index is in range.
    pub open spec fn wf(self) -> bool {
        &&& self.titles@.len() > 0
        &&& self.index < self.titles@.len()
    }

    /// The active identifier agrees with the active position.
    pub open spec fn synced(self) -> bool {
        &&& self.index < self.titles@.len()
        &&& self.current == self.titles@[self.index as int]
    }

    /// Builds a selector over the enumeration's full variant set, starting at
    /// position 0 with `default` as the active identifier. Nothing ties
    /// `default` to `titles[0]`: the state may be out of sync until the first
    /// `next` or `previous`.
    pub fn new(default: E) -> (r: TabsState<E>)
        ensures
            r.wf(),
            r.titles@ == E::spec_variants(),
            r.index == 0,
            r.current == default,
    {
        TabsState { titles: E::as_vec(), index: 0, current: default }
    }

    /// Builds a selector over an explicit ordered, non-empty set of titles,
    /// starting at position 0 with `default` as the active identifier.
    pub fn from(titles: Vec<E>, default: E) -> (r: TabsState<E>)
        requires
            titles@.len() > 0,
        ensures
            r.wf(),
            r.titles == titles,
            r.index == 0,
            r.current == default,
    {
        TabsState { titles, index: 0, current: default }
    }

    /// Advances the active position by one, wrapping past the last title, and
    /// keeps the active identifier in sync.
    pub fn next(&mut self)
        requires
            old(self).wf(),
        ensures
            final(self).wf(),
            final(self).synced(),
            final(self).titles == old(self).titles,
            final(self).index as int == next_index(old(self).index as int, old(self).titles@.len() as int),
    {
        let len: usize = self.titles.len();
        self.index = (self.index + 1) % len;
        self.current = self.titles[self.index];
    }

    /// Retreats the active position by one, wrapping below the first title,
    /// and keeps the active identifier in sync.
    pub fn previous(&mut self)
        requires
            old(self).wf(),
        ensures
            final(self).wf(),
            final(self).synced(),
            final(self).titles == old(self).titles,
            final(self).index as int == prev_index(old(self).index as int, old(self).titles@.len() as int),
    {
        if self.index > 0 {
            self.index -= 1;
        } else {
            self.index = self.titles.len() - 1;
        }
        self.current = self.titles[self.index];
    }
}

/// The position after `k` forward steps from `i`, each wrapping at `len`.
pub open spec fn next_index_steps(i: int, len: int, k: nat) -> int
    decreases k,
{
    if k == 0 {
        i
    } else {
        next_index(next_index_steps(i, len, (k - 1) as nat), len)
    }
}

/// Stepping forward `k` times from a position inside the tab set lands on
/// `(i + k) mod len`.
pub proof fn lemma_next_index_steps(i: int, len: int, k: nat)
    requires
        0 <= i < len,
    ensures
        next_index_steps(i, len, k) == (i + k) % len,
    decreases k,
{
    if k == 0 {
        vstd::arithmetic::div_mod::lemma_small_mod(i as nat, len as nat);
    } else {
        lemma_next_index_steps(i, len, (k - 1) as nat);
        vstd::arithmetic::div_mod::lemma_add_mod_noop(i + k - 1, 1, len);
        if len == 1 {
            vstd::arithmetic::div_mod::lemma_mod_self_0(len);
        } else {
            vstd::arithmetic::div_mod::lemma_small_mod(1, len as nat);
        }
    }
}

/// Advancing a selector once per title returns the position to where it began:
/// for every position `i` inside a tab set of length `len`, `len` forward
/// steps land back on `i`.
pub proof fn lemma_full_cycle(i: int, len: int)
    requires
        0 <= i < len,
    ensures
        next_index_steps(i, len, len as nat) == i,
{
    lemma_next_index_steps(i, len, len as nat);
    vstd::arithmetic::div_mod::lemma_mod_add_multiples_vanish(i, len);
    vstd::arithmetic::div_mod::lemma_small_mod(i as nat, len as nat);
}

/// Wraparound at both ends: one step forward from the last position lands on
/// the first, and one step backward from the first lands on the last.
pub proof fn lemma_wraparound(len: int)
    requires
        len > 0,
    ensures
        next_index(len - 1, len) == 0,
        prev_index(0, len) == len - 1,
{
    vstd::arithmetic::div_mod::lemma_mod_self_0(len);
}

} // verus!
