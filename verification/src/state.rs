//! The obligation store and the configuration.
//!
//! The store is the durable collection of obligation records, kept in
//! ascending id order, together with the monotonic id allocator. Ids are
//! handed out by a single counter that never resets and never reuses a
//! value, so every record's id is unique for the store's whole life.

use vstd::prelude::*;

use crate::msg::Payment;

verus! {

/// The singleton configuration: the administrative owner. Written at
/// initialization, replaced only by the owner-transfer operation.
#[derive(Debug, PartialEq, Eq)]
pub struct Config {
    pub owner: String,
}

impl Clone for Config {
    fn clone(&self) -> (res: Self)
        ensures
            res == *self,
    {
        Config { owner: self.owner.clone() }
    }
}

/// One durable obligation record: the scheduled payment, the two one-way
/// lifecycle latches, and the id the allocator stamped on it at creation.
#[derive(Debug, PartialEq, Eq)]
pub struct PaymentState {
    pub payment: Payment,
    pub paid: bool,
    pub stopped: bool,
    pub id: u64,
}

impl Clone for PaymentState {
    fn clone(&self) -> (res: Self)
        ensures
            res == *self,
    {
        PaymentState {
            payment: self.payment.clone(),
            paid: self.paid,
            stopped: self.stopped,
            id: self.id,
        }
    }
}

/// Records sorted strictly by ascending id; strictness makes ids unique.
pub open spec fn sorted_by_id(s: Seq<PaymentState>) -> bool {
    forall|i: int, j: int| #![trigger s[i], s[j]] 0 <= i < j < s.len() ==> s[i].id < s[j].id
}

/// The first index of `s` whose id is not below `id`; `s.len()` when every
/// id is below it. On a sorted store this is where `id` lives, or the slot
/// where a record with `id` belongs.
pub open spec fn find_slot(s: Seq<PaymentState>, id: u64) -> int
    decreases s.len(),
{
    if s.len() == 0 {
        0int
    } else if s[0].id >= id {
        0int
    } else {
        1 + find_slot(s.drop_first(), id)
    }
}

pub proof fn lemma_find_slot_properties(s: Seq<PaymentState>, id: u64)
    ensures
        0 <= find_slot(s, id) <= s.len(),
        forall|j: int| 0 <= j < find_slot(s, id) ==> s[j].id < id,
        find_slot(s, id) < s.len() ==> s[find_slot(s, id)].id >= id,
    decreases s.len(),
{
    if s.len() == 0 || s[0].id >= id {
    } else {
        let rest = s.drop_first();
        lemma_find_slot_properties(rest, id);
        assert forall|j: int| 0 <= j < find_slot(s, id) implies s[j].id < id by {
            if j > 0 {
                assert(rest[j - 1] == s[j]);
            }
        }
        if find_slot(s, id) < s.len() {
            assert(rest[find_slot(rest, id)] == s[find_slot(s, id)]);
        }
    }
}

/// Putting a record whose id is above every id in the store appends it.
pub proof fn lemma_put_fresh(s: Seq<PaymentState>, p: PaymentState)
    requires
        forall|j: int| 0 <= j < s.len() ==> (#[trigger] s[j]).id < p.id,
    ensures
        spec_put(s, p) == s.push(p),
{
    lemma_find_slot_properties(s, p.id);
    assert(find_slot(s, p.id) == s.len());
    assert(s.insert(s.len() as int, p) =~= s.push(p));
}

/// On a sorted store that holds `id`, the slot search lands exactly on the
/// record carrying `id`, and that record is `record_of`.
pub proof fn lemma_find_slot_of_member(s: Seq<PaymentState>, id: u64)
    requires
        sorted_by_id(s),
        contains_id(s, id),
    ensures
        0 <= find_slot(s, id) < s.len(),
        s[find_slot(s, id)].id == id,
        record_of(s, id) == s[find_slot(s, id)],
{
    lemma_find_slot_properties(s, id);
    let k = choose|k: int| 0 <= k < s.len() && s[k].id == id;
    let i = find_slot(s, id);
    assert(0 <= k < s.len() && s[k].id == id);
    if k < i {
        assert(s[k].id < id);
        assert(false);
    }
    if i < k {
        assert(s[i].id < s[k].id);
        assert(false);
    }
    let m = choose|m: int| 0 <= m < s.len() && s[m].id == id;
    if m < i {
        assert(s[m].id < s[i].id);
    } else if m > i {
        assert(s[i].id < s[m].id);
    }
}

/// Whether some record of `s` carries `id`.
pub open spec fn contains_id(s: Seq<PaymentState>, id: u64) -> bool {
    exists|i: int| 0 <= i < s.len() && s[i].id == id
}

/// The record of `s` carrying `id`; meaningful only when `contains_id`
/// holds, and then unambiguous on a sorted store.
pub open spec fn record_of(s: Seq<PaymentState>, id: u64) -> PaymentState {
    s[choose|i: int| 0 <= i < s.len() && s[i].id == id]
}

/// What `put` leaves in the store: the record carrying the same id
/// replaced whole, or the new record inserted at its slot in id order.
pub open spec fn spec_put(s: Seq<PaymentState>, p: PaymentState) -> Seq<PaymentState> {
    let i = find_slot(s, p.id);
    if i < s.len() && s[i].id == p.id {
        s.update(i, p)
    } else {
        s.insert(i, p)
    }
}

/// The obligation store: every record in ascending id order, and the last
/// allocated id. Records are never deleted — paid and stopped obligations
/// stay for audit.
#[derive(Debug, PartialEq, Eq)]
pub struct Store {
    pub payments: Vec<PaymentState>,
    pub payment_count: u64,
}

impl Store {
    /// Well-formed: records sorted strictly by ascending id, and every id
    /// was allocated — at least 1 and not above the counter. Fresh ids are
    /// therefore strictly greater than every id already in the store.
    pub open spec fn wf(self) -> bool {
        &&& sorted_by_id(self.payments@)
        &&& forall|i: int|
            0 <= i < self.payments@.len() ==> 1 <= (#[trigger] self.payments@[i]).id
                <= self.payment_count
    }

    /// An empty store whose allocator has given out nothing yet.
    pub fn new() -> (r: Store)
        ensures
            r.wf(),
            r.payments@ == Seq::<PaymentState>::empty(),
            r.payment_count == 0,
    {
        let r = Store { payments: Vec::new(), payment_count: 0 };
        proof {
            assert(r.payments@ =~= Seq::<PaymentState>::empty());
        }
        r
    }

    /// Allocates a fresh id: strictly greater than every id given out
    /// before, persisted in the counter before it is returned. The records
    /// themselves are untouched.
    pub fn next_id(&mut self) -> (id: u64)
        requires
            old(self).payment_count < u64::MAX,
        ensures
            final(self).payment_count == old(self).payment_count + 1,
            id == final(self).payment_count,
            final(self).payments@ == old(self).payments@,
            old(self).wf() ==> final(self).wf(),
    {
        self.payment_count = self.payment_count + 1;
        self.payment_count
    }

    /// Inserts or overwrites the record at `p.id` — a total replacement,
    /// not a merge. Keeps the store sorted. The id must come from the
    /// allocator: positive and not above the counter.
    pub fn put(&mut self, p: PaymentState)
        requires
            old(self).wf(),
            1 <= p.id <= old(self).payment_count,
        ensures
            final(self).wf(),
            final(self).payment_count == old(self).payment_count,
            final(self).payments@ == spec_put(old(self).payments@, p),
    {
        let ghost s = self.payments@;
        let n = self.payments.len();
        let mut i: usize = 0;
        while i < n && self.payments[i].id < p.id
            invariant
                0 <= i <= n,
                n == self.payments@.len(),
                self.payments@ == s,
                self.payment_count == old(self).payment_count,
                forall|j: int| 0 <= j < i ==> s[j].id < p.id,
            decreases n - i,
        {
            i = i + 1;
        }
        proof {
            lemma_find_slot_properties(s, p.id);
            assert(i == find_slot(s, p.id));
        }
        if i < n && self.payments[i].id == p.id {
            self.payments[i] = p;
            proof {
                let t = self.payments@;
                assert forall|a: int, b: int| 0 <= a < b < t.len() implies t[a].id < t[b].id by {
                    assert(s[a].id < s[b].id);
                }
                assert(sorted_by_id(t));
            }
        } else {
            self.payments.insert(i, p);
            proof {
                s.insert_ensures(i as int, p);
                let t = self.payments@;
                assert forall|a: int, b: int| 0 <= a < b < t.len() implies t[a].id < t[b].id by {
                    if b < i {
                        assert(t[a] == s[a] && t[b] == s[b]);
                        assert(s[a].id < s[b].id);
                    } else if b == i {
                        assert(t[a] == s[a]);
                        assert(s[a].id < p.id);
                    } else {
                        assert(t[b] == s[b - 1]);
                        if a < i {
                            assert(t[a] == s[a]);
                            if b - 1 > a {
                                assert(s[a].id < s[b - 1].id);
                            } else {
                                assert(s[b - 1].id >= p.id && p.id > s[a].id);
                            }
                        } else if a == i {
                            assert(t[a] == p);
                            assert(s[i as int].id >= p.id);
                            assert(s[i as int].id != p.id);
                            if b - 1 > i {
                                assert(s[i as int].id < s[b - 1].id);
                            }
                        } else {
                            assert(t[a] == s[a - 1]);
                            assert(s[a - 1].id < s[b - 1].id);
                        }
                    }
                }
                assert(sorted_by_id(t));
            }
        }
    }

    /// Point lookup: the record carrying `id`, or nothing when no record
    /// does.
    pub fn get(&self, id: u64) -> (r: Option<PaymentState>)
        requires
            self.wf(),
        ensures
            match r {
                Some(p) => contains_id(self.payments@, id) && p == record_of(self.payments@, id),
                None => !contains_id(self.payments@, id),
            },
    {
        let n = self.payments.len();
        let mut i: usize = 0;
        while i < n
            invariant
                0 <= i <= n,
                n == self.payments@.len(),
                sorted_by_id(self.payments@),
                forall|j: int| 0 <= j < i ==> (#[trigger] self.payments@[j]).id != id,
            decreases n - i,
        {
            if self.payments[i].id == id {
                proof {
                    let s = self.payments@;
                    assert(s[i as int].id == id);
                    assert(contains_id(s, id));
                    let k = choose|k: int| 0 <= k < s.len() && s[k].id == id;
                    assert(0 <= k < s.len() && s[k].id == id);
                    if k < i as int {
                        assert(s[k].id < s[i as int].id);
                    } else if k > i as int {
                        assert(s[i as int].id < s[k].id);
                    }
                    assert(record_of(s, id) == s[i as int]);
                }
                return Some(self.payments[i].clone());
            }
            i = i + 1;
        }
        None
    }

    /// Every record, in ascending id order — the full audit view.
    pub fn scan(&self) -> (r: Vec<PaymentState>)
        ensures
            r@ == self.payments@,
    {
        let n = self.payments.len();
        let mut r: Vec<PaymentState> = Vec::new();
        let mut i: usize = 0;
        while i < n
            invariant
                0 <= i <= n,
                n == self.payments@.len(),
                r@ == self.payments@.take(i as int),
            decreases n - i,
        {
            r.push(self.payments[i].clone());
            proof {
                assert(r@ =~= self.payments@.take(i + 1));
            }
            i = i + 1;
        }
        proof {
            assert(self.payments@.take(n as int) =~= self.payments@);
        }
        r
    }
}

} // verus!
