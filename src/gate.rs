use vstd::prelude::*;

verus! {

/// Number of occupied slots in a gate's slot table.
pub open spec fn busy(slots: Seq<Option<u64>>) -> nat
    decreases slots.len(),
{
    if slots.len() == 0 {
        0
    } else {
        busy(slots.drop_last()) + if slots.last() is Some { 1nat } else { 0nat }
    }
}

/// Number of slots occupied by an operation bound to `tag`.
pub open spec fn busy_with(slots: Seq<Option<u64>>, tag: u64) -> nat
    decreases slots.len(),
{
    if slots.len() == 0 {
        0
    } else {
        busy_with(slots.drop_last(), tag) + if slots.last() == Some(tag) { 1nat } else { 0nat }
    }
}

/// Index of the first free slot, or the length when every slot is taken.
pub open spec fn first_free(slots: Seq<Option<u64>>) -> int
    decreases slots.len(),
{
    if slots.len() == 0 {
        0
    } else if slots[0] is None {
        0
    } else {
        1 + first_free(slots.skip(1))
    }
}

pub proof fn lemma_busy_bounds(slots: Seq<Option<u64>>, tag: u64)
    ensures
        busy_with(slots, tag) <= busy(slots),
        busy(slots) <= slots.len(),
    decreases slots.len(),
{
    if slots.len() > 0 {
        lemma_busy_bounds(slots.drop_last(), tag);
    }
}

pub proof fn lemma_busy_update(slots: Seq<Option<u64>>, i: int, v: Option<u64>)
    requires
        0 <= i < slots.len(),
    ensures
        busy(slots.update(i, v)) + (if slots[i] is Some { 1int } else { 0int })
            == busy(slots) + (if v is Some { 1int } else { 0int }),
    decreases slots.len(),
{
    let u = slots.update(i, v);
    if i == slots.len() - 1 {
        assert(u.drop_last() =~= slots.drop_last());
    } else {
        lemma_busy_update(slots.drop_last(), i, v);
        assert(u.drop_last() =~= slots.drop_last().update(i, v));
    }
}

pub proof fn lemma_busy_full(slots: Seq<Option<u64>>)
    requires
        forall|j: int| 0 <= j < slots.len() ==> slots[j] is Some,
    ensures
        busy(slots) == slots.len(),
    decreases slots.len(),
{
    if slots.len() > 0 {
        lemma_busy_full(slots.drop_last());
    }
}

pub proof fn lemma_first_free(slots: Seq<Option<u64>>)
    ensures
        0 <= first_free(slots) <= slots.len(),
        forall|j: int| 0 <= j < first_free(slots) ==> slots[j] is Some,
        first_free(slots) < slots.len() ==> slots[first_free(slots)] is None,
    decreases slots.len(),
{
    if slots.len() > 0 && slots[0] is Some {
        lemma_first_free(slots.skip(1));
        assert forall|j: int| 0 <= j < first_free(slots) implies slots[j] is Some by {
            if j > 0 {
                assert(slots[j] == slots.skip(1)[j - 1]);
            }
        }
    }
}

/// A permit held by one admitted operation; it names the slot it occupies
/// and the tag it was admitted under.
pub struct Token {
    slot: usize,
    tag: u64,
}

impl Token {
    pub closed spec fn slot_of(&self) -> usize {
        self.slot
    }

    pub closed spec fn tag_of(&self) -> u64 {
        self.tag
    }

    pub fn slot(&self) -> (r: usize)
        ensures
            r == self.slot_of(),
    {
        self.slot
    }

    pub fn tag(&self) -> (r: u64)
        ensures
            r == self.tag_of(),
    {
        self.tag
    }
}

/// Counting admission control with a fixed number of slots.
pub struct ConcurrencyGate {
    slots: Vec<Option<u64>>,
}

impl ConcurrencyGate {
    pub closed spec fn view(&self) -> Seq<Option<u64>> {
        self.slots@
    }

    /// A gate with `capacity` free slots.
    pub fn new(capacity: usize) -> (g: ConcurrencyGate)
        ensures
            g.view() == Seq::new(capacity as nat, |i: int| None::<u64>),
    {
        let mut slots: Vec<Option<u64>> = Vec::new();
        let mut i: usize = 0;
        while i < capacity
            invariant
                i <= capacity,
                slots@ == Seq::new(i as nat, |k: int| None::<u64>),
            decreases capacity - i,
        {
            slots.push(None);
            i = i + 1;
            assert(slots@ =~= Seq::new(i as nat, |k: int| None::<u64>));
        }
        assert(slots@ =~= Seq::new(capacity as nat, |k: int| None::<u64>));
        ConcurrencyGate { slots }
    }

    pub fn capacity(&self) -> (r: usize)
        ensures
            r == self.view().len(),
    {
        self.slots.len()
    }

    /// Number of permits currently held.
    pub fn outstanding(&self) -> (r: usize)
        ensures
            r == busy(self.view()),
    {
        let mut n: usize = 0;
        let mut i: usize = 0;
        while i < self.slots.len()
            invariant
                i <= self.slots@.len(),
                n == busy(self.slots@.take(i as int)),
                n <= i,
            decreases self.slots@.len() - i,
        {
            proof {
                assert(self.slots@.take(i + 1).drop_last() =~= self.slots@.take(i as int));
            }
            if self.slots[i].is_some() {
                n = n + 1;
            }
            i = i + 1;
        }
        assert(self.slots@.take(i as int) =~= self.slots@);
        n
    }

    /// Takes the first free slot for an operation bound to `tag`, or returns
    /// `None` when every slot is held.
    pub fn try_acquire(&mut self, tag: u64) -> (r: Option<Token>)
        ensures
            busy(old(self).view()) < old(self).view().len() <==> r is Some,
            final(self).view().len() == old(self).view().len(),
            r is None ==> final(self).view() == old(self).view(),
            r matches Some(t) ==> t.slot_of() == first_free(old(self).view()) && t.tag_of() == tag
                && final(self).view() == old(self).view().update(t.slot_of() as int, Some(tag))
                && busy(final(self).view()) == busy(old(self).view()) + 1,
    {
        proof {
            lemma_first_free(self.slots@);
            lemma_busy_bounds(self.slots@, tag);
        }
        let mut i: usize = 0;
        while i < self.slots.len()
            invariant
                i <= self.slots@.len(),
                self.slots@ == old(self).slots@,
                forall|j: int| 0 <= j < i ==> self.slots@[j] is Some,
            decreases self.slots@.len() - i,
        {
            if self.slots[i].is_none() {
                proof {
                    lemma_first_free(self.slots@);
                    if first_free(self.slots@) < i {
                        assert(self.slots@[first_free(self.slots@)] is Some);
                    }
                    if first_free(self.slots@) > i {
                        assert(self.slots@[i as int] is Some);
                    }
                    lemma_busy_update(self.slots@, i as int, Some(tag));
                    lemma_busy_bounds(self.slots@.update(i as int, Some(tag)), tag);
                }
                self.slots.set(i, Some(tag));
                return Some(Token { slot: i, tag });
            }
            i = i + 1;
        }
        proof {
            lemma_busy_full(self.slots@);
        }
        None
    }

    /// Frees the permit's slot and returns `true`. When that slot is not
    /// occupied with the permit's tag, nothing changes and the result is `false`.
    pub fn release(&mut self, t: Token) -> (r: bool)
        ensures
            r == (t.slot_of() < old(self).view().len() && old(self).view()[t.slot_of() as int] == Some(t.tag_of())),
            final(self).view().len() == old(self).view().len(),
            r ==> final(self).view() == old(self).view().update(t.slot_of() as int, None)
                && busy(final(self).view()) + 1 == busy(old(self).view()),
            !r ==> final(self).view() == old(self).view(),
    {
        if t.slot < self.slots.len() && self.slots[t.slot] == Some(t.tag) {
            proof {
                lemma_busy_update(self.slots@, t.slot as int, None);
            }
            self.slots.set(t.slot, None);
            true
        } else {
            false
        }
    }
}

} // verus!
