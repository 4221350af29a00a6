//! The ticket registry: at most one live ticket per six-digit combination.
//!
//! The chosen numbers are the registry key.  The all-zero combination is
//! reserved as the "empty slot" sentinel and never stored, and no two live
//! tickets may share a combination, so holding a combination is exclusive
//! until the ticket is redeemed.

use vstd::prelude::*;

verus! {

/// One live lottery entry: who bought it and which combination it holds.
#[derive(Clone, Copy, Debug)]
pub struct Ticket {
    /// Account identifier of the holder.
    pub owner: u64,
    /// The six-digit combination chosen at purchase time.
    pub numbers: [u8; 6],
}

/// True when every digit of the combination is zero.
pub open spec fn all_zero(numbers: [u8; 6]) -> bool {
    forall|i: int| 0 <= i < 6 ==> numbers[i] == 0
}

/// True when some live ticket in `s` holds `numbers`.
pub open spec fn holds_numbers(s: Seq<Ticket>, numbers: [u8; 6]) -> bool {
    exists|i: int| 0 <= i < s.len() && (#[trigger] s[i]).numbers == numbers
}

/// True when a live ticket in `s` holds `numbers` and belongs to `owner`.
pub open spec fn holds_numbers_for(s: Seq<Ticket>, numbers: [u8; 6], owner: u64) -> bool {
    exists|i: int|
        0 <= i < s.len() && (#[trigger] s[i]).numbers == numbers && s[i].owner == owner
}

/// True when no two live tickets in `s` share a combination.
pub open spec fn unique_numbers(s: Seq<Ticket>) -> bool {
    forall|i: int, j: int|
        0 <= i < j < s.len() ==> (#[trigger] s[i]).numbers != (#[trigger] s[j]).numbers
}

/// With unique combinations, any contained ticket holding `numbers` is
/// the one ticket at that key, so its owner is the combination's holder.
pub proof fn lemma_unique_owner(s: Seq<Ticket>, t: Ticket, numbers: [u8; 6], owner: u64)
    requires
        unique_numbers(s),
        s.contains(t),
        t.numbers == numbers,
        holds_numbers_for(s, numbers, owner),
    ensures
        t.owner == owner,
{
    let j = choose|j: int|
        0 <= j < s.len() && (#[trigger] s[j]).numbers == numbers && s[j].owner == owner;
    let w = choose|w: int| 0 <= w < s.len() && s[w] == t;
    if j < w {
        assert(s[j].numbers != s[w].numbers);
    } else if w < j {
        assert(s[w].numbers != s[j].numbers);
    }
}

/// Checks two combinations for equality.
pub fn numbers_equal(a: &[u8; 6], b: &[u8; 6]) -> (r: bool)
    ensures
        r <==> *a == *b,
{
    let r = a[0] == b[0] && a[1] == b[1] && a[2] == b[2] && a[3] == b[3] && a[4] == b[4]
        && a[5] == b[5];
    proof {
        if r {
            assert(*a =~= *b);
        }
    }
    r
}

/// Checks whether a combination is the reserved all-zero sentinel.
pub fn numbers_all_zero(numbers: &[u8; 6]) -> (r: bool)
    ensures
        r <==> all_zero(*numbers),
{
    numbers[0] == 0 && numbers[1] == 0 && numbers[2] == 0 && numbers[3] == 0 && numbers[4] == 0
        && numbers[5] == 0
}

/// The registry of live tickets for one pool.
#[derive(Debug)]
pub struct TicketRegistry {
    pub entries: Vec<Ticket>,
}

impl View for TicketRegistry {
    type V = Seq<Ticket>;

    open spec fn view(&self) -> Seq<Ticket> {
        self.entries@
    }
}

impl TicketRegistry {
    /// Every stored combination is non-zero and held by at most one ticket.
    pub open spec fn wf(&self) -> bool {
        &&& unique_numbers(self@)
        &&& forall|i: int| 0 <= i < self@.len() ==> !all_zero((#[trigger] self@[i]).numbers)
    }

    /// An empty registry.
    pub fn new() -> (r: TicketRegistry)
        ensures
            r.wf(),
            r@.len() == 0,
    {
        TicketRegistry { entries: Vec::new() }
    }

    /// The number of live tickets.
    pub fn len(&self) -> (r: usize)
        ensures
            r == self@.len(),
    {
        self.entries.len()
    }

    /// Looks up the live ticket at `numbers`, if any.
    pub fn find(&self, numbers: &[u8; 6]) -> (r: Option<Ticket>)
        ensures
            match r {
                Some(t) => t.numbers == *numbers && self@.contains(t),
                None => !holds_numbers(self@, *numbers),
            },
    {
        let mut i: usize = 0;
        while i < self.entries.len()
            invariant
                i <= self@.len(),
                forall|k: int| 0 <= k < i ==> (#[trigger] self@[k]).numbers != *numbers,
            decreases self@.len() - i,
        {
            if numbers_equal(&self.entries[i].numbers, numbers) {
                return Some(self.entries[i]);
            }
            i = i + 1;
        }
        None
    }

    /// Records a new live ticket; its combination must be fresh and
    /// non-zero.
    pub fn insert(&mut self, ticket: Ticket)
        requires
            old(self).wf(),
            !holds_numbers(old(self)@, ticket.numbers),
            !all_zero(ticket.numbers),
        ensures
            final(self).wf(),
            final(self)@ == old(self)@.push(ticket),
    {
        self.entries.push(ticket);
        proof {
            let s = self@;
            let prev = old(self)@;
            assert forall|i: int, j: int| 0 <= i < j < s.len() implies (#[trigger] s[i]).numbers
                != (#[trigger] s[j]).numbers by {
                if j < prev.len() {
                    assert(prev[i].numbers != prev[j].numbers);
                } else {
                    assert(s[j] == ticket);
                    assert(!holds_numbers(prev, ticket.numbers));
                    assert(prev[i].numbers != ticket.numbers);
                }
            }
        }
    }

    /// Removes the live ticket at `numbers`; afterwards the combination is
    /// free again and every other ticket is untouched.
    pub fn remove(&mut self, numbers: &[u8; 6])
        requires
            old(self).wf(),
            holds_numbers(old(self)@, *numbers),
        ensures
            final(self).wf(),
            final(self)@.len() == old(self)@.len() - 1,
            !holds_numbers(final(self)@, *numbers),
            forall|m: [u8; 6]|
                m != *numbers ==> (holds_numbers(final(self)@, m) <==> holds_numbers(
                    old(self)@,
                    m,
                )),
            forall|m: [u8; 6], o: u64|
                m != *numbers ==> (holds_numbers_for(final(self)@, m, o)
                    <==> holds_numbers_for(old(self)@, m, o)),
            forall|t: Ticket| final(self)@.contains(t) ==> old(self)@.contains(t),
    {
        let ghost prev = self@;
        let mut i: usize = 0;
        while i < self.entries.len()
            invariant
                self@ == prev,
                prev == old(self)@,
                i <= prev.len(),
                holds_numbers(prev, *numbers),
                unique_numbers(prev),
                forall|k: int| 0 <= k < prev.len() ==> !all_zero((#[trigger] prev[k]).numbers),
                forall|k: int| 0 <= k < i ==> (#[trigger] prev[k]).numbers != *numbers,
            decreases prev.len() - i,
        {
            if numbers_equal(&self.entries[i].numbers, numbers) {
                self.entries.remove(i);
                proof {
                    let s = self@;
                    let gi = i as int;
                    assert(prev[gi].numbers == *numbers);
                    assert forall|k: int| 0 <= k < s.len() implies #[trigger] s[k] == (if k < gi {
                        prev[k]
                    } else {
                        prev[k + 1]
                    }) by {}
                    assert forall|a: int, b: int| 0 <= a < b < s.len() implies (
                    #[trigger] s[a]).numbers != (#[trigger] s[b]).numbers by {
                        let a2 = if a < gi { a } else { a + 1 };
                        let b2 = if b < gi { b } else { b + 1 };
                        assert(0 <= a2 < b2 < prev.len());
                        assert(prev[a2].numbers != prev[b2].numbers);
                    }
                    assert forall|k: int| 0 <= k < s.len() implies !all_zero(
                        (#[trigger] s[k]).numbers,
                    ) by {
                        let k2 = if k < gi { k } else { k + 1 };
                        assert(!all_zero(prev[k2].numbers));
                    }
                    assert forall|m: [u8; 6]| m != *numbers implies (holds_numbers(s, m)
                        <==> holds_numbers(prev, m)) by {
                        if holds_numbers(prev, m) {
                            let w = choose|w: int|
                                0 <= w < prev.len() && (#[trigger] prev[w]).numbers == m;
                            if w < gi {
                                assert(s[w].numbers == m);
                            } else {
                                assert(w != gi);
                                assert(s[w - 1].numbers == m);
                            }
                        }
                        if holds_numbers(s, m) {
                            let w = choose|w: int|
                                0 <= w < s.len() && (#[trigger] s[w]).numbers == m;
                            if w < gi {
                                assert(prev[w].numbers == m);
                            } else {
                                assert(prev[w + 1].numbers == m);
                            }
                        }
                    }
                    assert forall|m: [u8; 6], o: u64| m != *numbers implies (holds_numbers_for(
                        s,
                        m,
                        o,
                    ) <==> holds_numbers_for(prev, m, o)) by {
                        if holds_numbers_for(prev, m, o) {
                            let w = choose|w: int|
                                0 <= w < prev.len() && (#[trigger] prev[w]).numbers == m
                                    && prev[w].owner == o;
                            if w < gi {
                                assert(s[w].numbers == m && s[w].owner == o);
                            } else {
                                assert(w != gi);
                                assert(s[w - 1].numbers == m && s[w - 1].owner == o);
                            }
                        }
                        if holds_numbers_for(s, m, o) {
                            let w = choose|w: int|
                                0 <= w < s.len() && (#[trigger] s[w]).numbers == m && s[w].owner
                                    == o;
                            if w < gi {
                                assert(prev[w].numbers == m && prev[w].owner == o);
                            } else {
                                assert(prev[w + 1].numbers == m && prev[w + 1].owner == o);
                            }
                        }
                    }
                    assert forall|k: int| 0 <= k < s.len() implies (#[trigger] s[k]).numbers
                        != *numbers by {
                        if k >= gi {
                            assert(0 <= gi < k + 1 < prev.len());
                            assert(prev[gi].numbers != prev[k + 1].numbers);
                        }
                    }
                    assert forall|t: Ticket| s.contains(t) implies prev.contains(t) by {
                        let w = choose|w: int| 0 <= w < s.len() && s[w] == t;
                        if w < gi {
                            assert(prev[w] == t);
                        } else {
                            assert(prev[w + 1] == t);
                        }
                    }
                }
                return ;
            }
            i = i + 1;
        }
        proof {
            let w = choose|w: int| 0 <= w < prev.len() && (#[trigger] prev[w]).numbers == *numbers;
            assert(false);
        }
    }
}

} // verus!
