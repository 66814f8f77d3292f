use vstd::prelude::*;

verus! {

/// Hands out identifiers from one monotonically increasing counter.
///
/// Components, actions and extended sequences of one match all draw from the
/// same allocator, so their identifiers never collide.
pub struct IdFountain {
    next: u32,
}

impl View for IdFountain {
    type V = nat;

    /// The identifier the next draw will return.
    closed spec fn view(&self) -> nat {
        self.next as nat
    }
}

impl IdFountain {
    /// Whether another identifier can still be drawn: ids are non-negative
    /// `i32` values, the last one being `i32::MAX`.
    pub open spec fn can_draw(&self) -> bool {
        self@ <= i32::MAX
    }

    /// The identifiers handed out so far: every one below the counter.
    pub open spec fn issued(&self) -> Set<int> {
        Set::new(|i: int| 0 <= i < self@)
    }

    pub fn new() -> (r: IdFountain)
        ensures
            r@ == 0,
            r.issued() == Set::<int>::empty(),
    {
        let r = IdFountain { next: 0 };
        assert(r.issued() =~= Set::<int>::empty());
        r
    }

    /// Returns a fresh identifier and advances the counter.
    pub fn next_id(&mut self) -> (r: i32)
        requires
            old(self).can_draw(),
        ensures
            r as int == old(self)@,
            r >= 0,
            final(self)@ == old(self)@ + 1,
            !old(self).issued().contains(r as int),
            final(self).issued() == old(self).issued().insert(r as int),
    {
        let r = self.next as i32;
        self.next = self.next + 1;
        assert(self.issued() =~= old(self).issued().insert(r as int));
        r
    }
}

proof fn lemma_draws_increase(states: Seq<IdFountain>, i: int, j: int)
    requires
        0 <= i < j < states.len(),
        forall|n: int| 0 <= n < states.len() - 1 ==> #[trigger] states[n]@ < states[n + 1]@,
    ensures
        states[i]@ < states[j]@,
    decreases j - i,
{
    if j > i + 1 {
        lemma_draws_increase(states, i, j - 1);
        assert(states[j - 1]@ < states[j]@);
    }
}

/// Identifiers drawn from one allocator are pairwise distinct. `states[n]` is
/// the allocator as it stood when `ids[n]` was drawn; every draw moves the
/// counter forward, so each state is ahead of the one before it, however many
/// other draws came between.
pub proof fn lemma_drawn_ids_distinct(states: Seq<IdFountain>, ids: Seq<i32>)
    requires
        ids.len() == states.len(),
        forall|n: int| 0 <= n < ids.len() ==> #[trigger] ids[n] as int == states[n]@,
        forall|n: int| 0 <= n < states.len() - 1 ==> #[trigger] states[n]@ < states[n + 1]@,
    ensures
        forall|i: int, j: int| 0 <= i < j < ids.len() ==> ids[i] != ids[j],
{
    assert forall|i: int, j: int| 0 <= i < j < ids.len() implies ids[i] != ids[j] by {
        lemma_draws_increase(states, i, j);
        assert(ids[i] as int == states[i]@);
        assert(ids[j] as int == states[j]@);
    }
}

} // verus!
