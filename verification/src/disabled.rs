//! The set of hooks that are switched off. It is filled while handlers
//! register and then only read: a build works on a copy taken before it starts.

use crate::hook::Hook;
use vstd::prelude::*;

verus! {

/// A set of hooks. A hook in the set is passed over: its handler is not
/// called, and the build goes on with the hook's default answer.
#[derive(Debug, Clone, Copy, PartialEq, Eq, Hash, Structural)]
pub struct DisabledHooks {
    bits: u64,
}

/// Whether bit `i` of `bits` is set.
pub open spec fn bit_set(bits: u64, i: nat) -> bool {
    i < 64 && (bits & (1u64 << (i as u64))) != 0
}

proof fn lemma_bit_of_or(bits: u64, i: u64, j: u64)
    requires
        i < 64,
        j < 64,
    ensures
        ((bits | (1u64 << i)) & (1u64 << j) != 0) == ((bits & (1u64 << j)) != 0 || i == j),
{
    assert(((bits | (1u64 << i)) & (1u64 << j) != 0) == ((bits & (1u64 << j)) != 0 || i == j))
        by (bit_vector)
        requires
            i < 64,
            j < 64,
    ;
}

proof fn lemma_bit_of_join(a: u64, b: u64, j: u64)
    requires
        j < 64,
    ensures
        ((a | b) & (1u64 << j) != 0) == ((a & (1u64 << j)) != 0 || (b & (1u64 << j)) != 0),
{
    assert(((a | b) & (1u64 << j) != 0) == ((a & (1u64 << j)) != 0 || (b & (1u64 << j)) != 0))
        by (bit_vector)
        requires
            j < 64,
    ;
}

proof fn lemma_bit_of_zero(j: u64)
    requires
        j < 64,
    ensures
        (0u64 & (1u64 << j)) == 0,
{
    assert((0u64 & (1u64 << j)) == 0) by (bit_vector)
        requires
            j < 64,
    ;
}

impl View for DisabledHooks {
    type V = Set<Hook>;

    closed spec fn view(&self) -> Set<Hook> {
        Set::new(|h: Hook| bit_set(self.bits, h.ordinal()))
    }
}

impl Default for DisabledHooks {
    fn default() -> (d: DisabledHooks)
        ensures
            d@ == Set::<Hook>::empty(),
    {
        DisabledHooks::new()
    }
}

impl DisabledHooks {
    /// The set in which no hook is switched off.
    pub fn new() -> (d: DisabledHooks)
        ensures
            d@ == Set::<Hook>::empty(),
    {
        let d = DisabledHooks { bits: 0 };
        proof {
            assert forall|h: Hook| !d@.contains(h) by {
                lemma_bit_of_zero(h.ordinal() as u64);
            }
            assert(d@ =~= Set::<Hook>::empty());
        }
        d
    }

    /// Whether `hook` is switched off. A lookup: it waits for nothing and
    /// cannot fail.
    pub fn is_disabled(&self, hook: Hook) -> (b: bool)
        ensures
            b == self@.contains(hook),
    {
        let i: u8 = hook.index();
        (self.bits & (1u64 << (i as u64))) != 0
    }

    /// Switches `hook` off.
    pub fn insert(&mut self, hook: Hook)
        ensures
            final(self)@ == old(self)@.insert(hook),
    {
        let i: u8 = hook.index();
        let before: u64 = self.bits;
        self.bits = before | (1u64 << (i as u64));
        proof {
            assert forall|h: Hook| self@.contains(h) == old(self)@.insert(hook).contains(h) by {
                lemma_bit_of_or(before, i as u64, h.ordinal() as u64);
                if h.ordinal() == hook.ordinal() {
                    crate::hook::lemma_ordinal_injective(h, hook);
                }
            }
            assert(self@ =~= old(self)@.insert(hook));
        }
    }

    /// Switches off every hook of `hooks`, besides those that are off already.
    pub fn disable(&mut self, hooks: &[Hook])
        ensures
            final(self)@ == old(self)@.union(hooks@.to_set()),
    {
        let n: usize = hooks.len();
        let mut k: usize = 0;
        while k < n
            invariant
                k <= n,
                n == hooks@.len(),
                self@ == old(self)@.union(hooks@.take(k as int).to_set()),
            decreases n - k,
        {
            let ghost before = self@;
            self.insert(hooks[k]);
            proof {
                let head = hooks@.take(k as int);
                let next = hooks@.take(k + 1);
                assert(next =~= head.push(hooks@[k as int]));
                assert forall|h: Hook| next.to_set().contains(h) == head.to_set().insert(
                    hooks@[k as int],
                ).contains(h) by {
                    if next.contains(h) {
                        let j = choose|j: int| 0 <= j < next.len() && next[j] == h;
                        if j < k {
                            assert(head[j] == h);
                        }
                    }
                    if head.contains(h) {
                        let j = choose|j: int| 0 <= j < head.len() && head[j] == h;
                        assert(next[j] == h);
                    }
                    if h == hooks@[k as int] {
                        assert(next[k as int] == h);
                    }
                }
                assert(next.to_set() =~= head.to_set().insert(hooks@[k as int]));
                assert(self@ =~= old(self)@.union(next.to_set()));
            }
            k = k + 1;
        }
        proof {
            assert(hooks@.take(n as int) =~= hooks@);
        }
    }

    /// The set that switches off exactly the hooks of `hooks`.
    pub fn from_hooks(hooks: &[Hook]) -> (d: DisabledHooks)
        ensures
            d@ == hooks@.to_set(),
    {
        let mut d = DisabledHooks::new();
        d.disable(hooks);
        proof {
            assert(d@ =~= hooks@.to_set());
        }
        d
    }

    /// The set that switches off the hooks of both sets.
    pub fn union(&self, other: &DisabledHooks) -> (d: DisabledHooks)
        ensures
            d@ == self@.union(other@),
    {
        let d = DisabledHooks { bits: self.bits | other.bits };
        proof {
            assert forall|h: Hook| d@.contains(h) == self@.union(other@).contains(h) by {
                lemma_bit_of_join(self.bits, other.bits, h.ordinal() as u64);
            }
            assert(d@ =~= self@.union(other@));
        }
        d
    }
}

} // verus!
