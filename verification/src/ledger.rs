use vstd::prelude::*;

use crate::account::AccountId;

verus! {

/// One balance entry of the custody ledger.
#[derive(Clone, Copy, Debug, PartialEq, Eq, Structural)]
pub struct LedgerEntry {
    pub owner: AccountId,
    pub amount: u64,
}

/// The sum of the amounts of a run of ledger entries.
spec fn seq_total(s: Seq<LedgerEntry>) -> int
    decreases s.len(),
{
    if s.len() == 0 {
        0
    } else {
        s[0].amount + seq_total(s.drop_first())
    }
}

proof fn lemma_seq_total_nonneg(s: Seq<LedgerEntry>)
    ensures
        seq_total(s) >= 0,
    decreases s.len(),
{
    if s.len() > 0 {
        lemma_seq_total_nonneg(s.drop_first());
    }
}

proof fn lemma_seq_total_ge_entry(s: Seq<LedgerEntry>, i: int)
    requires
        0 <= i < s.len(),
    ensures
        s[i].amount <= seq_total(s),
    decreases s.len(),
{
    lemma_seq_total_nonneg(s.drop_first());
    if i > 0 {
        lemma_seq_total_ge_entry(s.drop_first(), i - 1);
    }
}

proof fn lemma_seq_total_update(s: Seq<LedgerEntry>, i: int, e: LedgerEntry)
    requires
        0 <= i < s.len(),
    ensures
        seq_total(s.update(i, e)) == seq_total(s) - s[i].amount + e.amount,
    decreases s.len(),
{
    if i == 0 {
        assert(s.update(0, e).drop_first() =~= s.drop_first());
    } else {
        assert(s.update(i, e).drop_first() =~= s.drop_first().update(i - 1, e));
        lemma_seq_total_update(s.drop_first(), i - 1, e);
    }
}

proof fn lemma_seq_total_push(s: Seq<LedgerEntry>, e: LedgerEntry)
    ensures
        seq_total(s.push(e)) == seq_total(s) + e.amount,
    decreases s.len(),
{
    if s.len() == 0 {
        assert(s.push(e).drop_first() =~= s);
    } else {
        assert(s.push(e).drop_first() =~= s.drop_first().push(e));
        lemma_seq_total_push(s.drop_first(), e);
    }
}

/// The token-custody ledger: one balance per account, with a cached total.
/// It stands for the external token program that holds user balances; every
/// movement of tokens in or out of user custody goes through `credit` and
/// `debit`, and each leaves all other balances untouched.
pub struct Ledger {
    entries: Vec<LedgerEntry>,
    total: u64,
}

impl Ledger {
    /// Whether some entry belongs to `a`.
    pub closed spec fn has_owner(self, a: AccountId) -> bool {
        exists|i: int| 0 <= i < self.entries@.len() && self.entries@[i].owner == a
    }

    /// The balance of `a`: the amount of its entry, or zero if it has none.
    pub closed spec fn spec_balance(self, a: AccountId) -> u64 {
        if self.has_owner(a) {
            self.entries@[choose|i: int|
                0 <= i < self.entries@.len() && self.entries@[i].owner == a].amount
        } else {
            0u64
        }
    }

    /// The sum of all balances.
    pub closed spec fn spec_total(self) -> int {
        seq_total(self.entries@)
    }

    /// Well-formedness: owners are unique, and the cached total is the sum of
    /// the entries. The cached total being a machine word also bounds the sum
    /// by `u64::MAX`.
    pub closed spec fn wf(self) -> bool {
        &&& forall|i: int, j: int|
            0 <= i < j < self.entries@.len() ==> self.entries@[i].owner != self.entries@[j].owner
        &&& self.total == seq_total(self.entries@)
    }

    /// In a well-formed ledger, the entry of an owner is its balance.
    proof fn lemma_balance_at(self, i: int)
        requires
            self.wf(),
            0 <= i < self.entries@.len(),
        ensures
            self.spec_balance(self.entries@[i].owner) == self.entries@[i].amount,
    {
        let a = self.entries@[i].owner;
        assert(self.has_owner(a));
        let j = choose|j: int| 0 <= j < self.entries@.len() && self.entries@[j].owner == a;
        assert(j == i);
    }

    /// No single balance exceeds the total.
    pub proof fn lemma_balance_le_total(self, a: AccountId)
        requires
            self.wf(),
        ensures
            self.spec_balance(a) <= self.spec_total(),
    {
        if self.has_owner(a) {
            let i = choose|i: int| 0 <= i < self.entries@.len() && self.entries@[i].owner == a;
            lemma_seq_total_ge_entry(self.entries@, i);
        } else {
            lemma_seq_total_nonneg(self.entries@);
        }
    }

    /// An empty ledger: every balance is zero.
    pub fn new() -> (l: Ledger)
        ensures
            l.wf(),
            l.spec_total() == 0,
            forall|a: AccountId| l.spec_balance(a) == 0,
    {
        Ledger { entries: Vec::new(), total: 0 }
    }

    /// The index of the entry of `owner`, if it has one.
    fn find_owner(entries: &Vec<LedgerEntry>, owner: AccountId) -> (r: Option<usize>)
        ensures
            match r {
                Some(i) => i < entries@.len() && entries@[i as int].owner == owner,
                None => forall|j: int| 0 <= j < entries@.len() ==> entries@[j].owner != owner,
            },
    {
        let n: usize = entries.len();
        let mut i: usize = 0;
        while i < n
            invariant
                n == entries@.len(),
                i <= n,
                forall|j: int| 0 <= j < i ==> entries@[j].owner != owner,
            decreases n - i,
        {
            if entries[i].owner == owner {
                return Some(i);
            }
            i = i + 1;
        }
        None
    }

    /// The balance of `owner`.
    pub fn balance_of(&self, owner: AccountId) -> (r: u64)
        requires
            self.wf(),
        ensures
            r == self.spec_balance(owner),
    {
        match Self::find_owner(&self.entries, owner) {
            Some(i) => {
                proof {
                    self.lemma_balance_at(i as int);
                }
                self.entries[i].amount
            },
            None => {
                proof {
                    assert(!self.has_owner(owner));
                }
                0
            },
        }
    }

    /// The sum of all balances.
    pub fn total(&self) -> (r: u64)
        requires
            self.wf(),
        ensures
            r == self.spec_total(),
    {
        self.total
    }

    /// Adds `amount` to the balance of `owner` and to nothing else.
    pub fn credit(&mut self, owner: AccountId, amount: u64)
        requires
            old(self).wf(),
            old(self).spec_total() + amount <= u64::MAX,
        ensures
            final(self).wf(),
            final(self).spec_balance(owner) == old(self).spec_balance(owner) + amount,
            forall|a: AccountId|
                a != owner ==> #[trigger] final(self).spec_balance(a) == old(self).spec_balance(a),
            final(self).spec_total() == old(self).spec_total() + amount,
    {
        match Self::find_owner(&self.entries, owner) {
            Some(i) => {
                proof {
                    self.lemma_balance_at(i as int);
                    lemma_seq_total_ge_entry(self.entries@, i as int);
                    lemma_seq_total_update(
                        self.entries@,
                        i as int,
                        LedgerEntry { owner, amount: (self.entries@[i as int].amount + amount) as u64 },
                    );
                }
                let cur: u64 = self.entries[i].amount;
                self.entries[i] = LedgerEntry { owner, amount: cur + amount };
                self.total = self.total + amount;
                proof {
                    self.lemma_after_entry_change(*old(self), i as int, owner);
                }
            },
            None => {
                proof {
                    assert(!self.has_owner(owner));
                    lemma_seq_total_push(self.entries@, LedgerEntry { owner, amount });
                }
                self.entries.push(LedgerEntry { owner, amount });
                self.total = self.total + amount;
                proof {
                    self.lemma_after_push(*old(self), owner);
                }
            },
        }
    }

    /// Removes `amount` from the balance of `owner` and from nothing else.
    pub fn debit(&mut self, owner: AccountId, amount: u64)
        requires
            old(self).wf(),
            amount <= old(self).spec_balance(owner),
        ensures
            final(self).wf(),
            final(self).spec_balance(owner) == old(self).spec_balance(owner) - amount,
            forall|a: AccountId|
                a != owner ==> #[trigger] final(self).spec_balance(a) == old(self).spec_balance(a),
            final(self).spec_total() == old(self).spec_total() - amount,
    {
        match Self::find_owner(&self.entries, owner) {
            Some(i) => {
                proof {
                    self.lemma_balance_at(i as int);
                    lemma_seq_total_ge_entry(self.entries@, i as int);
                    lemma_seq_total_update(
                        self.entries@,
                        i as int,
                        LedgerEntry { owner, amount: (self.entries@[i as int].amount - amount) as u64 },
                    );
                }
                let cur: u64 = self.entries[i].amount;
                self.entries[i] = LedgerEntry { owner, amount: cur - amount };
                self.total = self.total - amount;
                proof {
                    self.lemma_after_entry_change(*old(self), i as int, owner);
                }
            },
            None => {
                proof {
                    assert(!self.has_owner(owner));
                }
            },
        }
    }

    /// After replacing the one entry of `owner` at `i`, the new ledger is
    /// well formed, `owner`'s balance is the new amount, and every other
    /// balance is as it was.
    proof fn lemma_after_entry_change(self, pre: Ledger, i: int, owner: AccountId)
        requires
            pre.wf(),
            0 <= i < pre.entries@.len(),
            pre.entries@[i].owner == owner,
            self.entries@ =~= pre.entries@.update(i, self.entries@[i]),
            self.entries@[i].owner == owner,
            self.total == seq_total(self.entries@),
        ensures
            self.wf(),
            self.spec_balance(owner) == self.entries@[i].amount,
            forall|a: AccountId|
                a != owner ==> #[trigger] self.spec_balance(a) == pre.spec_balance(a),
    {
        assert forall|p: int, q: int|
            0 <= p < q < self.entries@.len() implies self.entries@[p].owner
            != self.entries@[q].owner by {
            assert(self.entries@[p].owner == pre.entries@[p].owner);
            assert(self.entries@[q].owner == pre.entries@[q].owner);
        }
        self.lemma_balance_at(i);
        assert forall|a: AccountId|
            a != owner implies #[trigger] self.spec_balance(a) == pre.spec_balance(a) by {
            if pre.has_owner(a) {
                let j = choose|j: int|
                    0 <= j < pre.entries@.len() && pre.entries@[j].owner == a;
                assert(j != i);
                assert(self.entries@[j].owner == a);
                pre.lemma_balance_at(j);
                self.lemma_balance_at(j);
            } else {
                assert forall|j: int|
                    0 <= j < self.entries@.len() implies self.entries@[j].owner != a by {
                    assert(pre.entries@[j].owner != a);
                }
                assert(!self.has_owner(a));
            }
        }
    }

    /// After appending a fresh entry for `owner`, the new ledger is well
    /// formed, `owner`'s balance is the appended amount, and every other
    /// balance is as it was.
    proof fn lemma_after_push(self, pre: Ledger, owner: AccountId)
        requires
            pre.wf(),
            !pre.has_owner(owner),
            self.entries@ =~= pre.entries@.push(self.entries@[self.entries@.len() - 1]),
            self.entries@[self.entries@.len() - 1].owner == owner,
            self.total == seq_total(self.entries@),
        ensures
            self.wf(),
            self.spec_balance(owner) == self.entries@[self.entries@.len() - 1].amount,
            forall|a: AccountId|
                a != owner ==> #[trigger] self.spec_balance(a) == pre.spec_balance(a),
    {
        let last = self.entries@.len() - 1;
        assert forall|p: int, q: int|
            0 <= p < q < self.entries@.len() implies self.entries@[p].owner
            != self.entries@[q].owner by {
            if q == last {
                assert(self.entries@[p].owner == pre.entries@[p].owner);
                assert(pre.entries@[p].owner != owner);
            } else {
                assert(self.entries@[p].owner == pre.entries@[p].owner);
                assert(self.entries@[q].owner == pre.entries@[q].owner);
            }
        }
        self.lemma_balance_at(last);
        assert forall|a: AccountId|
            a != owner implies #[trigger] self.spec_balance(a) == pre.spec_balance(a) by {
            if pre.has_owner(a) {
                let j = choose|j: int|
                    0 <= j < pre.entries@.len() && pre.entries@[j].owner == a;
                assert(self.entries@[j].owner == a);
                pre.lemma_balance_at(j);
                self.lemma_balance_at(j);
            } else {
                assert forall|j: int|
                    0 <= j < self.entries@.len() implies self.entries@[j].owner != a by {
                    if j != last {
                        assert(pre.entries@[j].owner != a);
                    }
                }
                assert(!self.has_owner(a));
            }
        }
    }
}

} // verus!
