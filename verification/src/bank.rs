//! The currency ledger and transfer engine.
//!
//! A [`Bank`] maps addresses to native-currency balances. An account that
//! was never credited behaves as a zero-balance account, so custody
//! sub-accounts exist lazily, the first time they are referenced. Balances
//! change only through [`Bank::credit`] (the host crediting an account)
//! and [`Bank::transfer`] (the atomic currency move of one operation):
//! a move either applies in full or reports [`SurveyErrors::TransferFailed`]
//! and leaves every balance unchanged.

use vstd::prelude::*;

use crate::address::Address;
use crate::errors::SurveyErrors;

verus! {

struct BankEntry {
    addr: Address,
    balance: u64,
}

/// Account balances, keyed by address bytes.
pub struct Bank {
    entries: Vec<BankEntry>,
}

spec fn bal_at(entries: Seq<BankEntry>, a: Seq<u8>) -> u64
    decreases entries.len(),
{
    if entries.len() == 0 {
        0u64
    } else if entries[0].addr@ == a {
        entries[0].balance
    } else {
        bal_at(entries.drop_first(), a)
    }
}

proof fn lemma_bal_at_absent(entries: Seq<BankEntry>, a: Seq<u8>)
    requires
        forall|j: int| 0 <= j < entries.len() ==> entries[j].addr@ != a,
    ensures
        bal_at(entries, a) == 0,
    decreases entries.len(),
{
    if entries.len() > 0 {
        assert(forall|j: int| 0 <= j < entries.drop_first().len()
            ==> entries.drop_first()[j] == entries[j + 1]);
        lemma_bal_at_absent(entries.drop_first(), a);
    }
}

proof fn lemma_bal_at_first(entries: Seq<BankEntry>, a: Seq<u8>, i: int)
    requires
        0 <= i < entries.len(),
        entries[i].addr@ == a,
        forall|j: int| 0 <= j < i ==> entries[j].addr@ != a,
    ensures
        bal_at(entries, a) == entries[i].balance,
    decreases i,
{
    if i > 0 {
        assert(forall|j: int| 0 <= j < entries.drop_first().len()
            ==> entries.drop_first()[j] == entries[j + 1]);
        lemma_bal_at_first(entries.drop_first(), a, i - 1);
    }
}

proof fn lemma_bal_at_update(entries: Seq<BankEntry>, i: int, e: BankEntry)
    requires
        0 <= i < entries.len(),
        e.addr@ == entries[i].addr@,
    ensures
        forall|x: Seq<u8>| x != e.addr@ ==> bal_at(entries.update(i, e), x) == bal_at(entries, x),
        (forall|j: int| 0 <= j < i ==> entries[j].addr@ != e.addr@)
            ==> bal_at(entries.update(i, e), e.addr@) == e.balance,
    decreases i,
{
    let updated = entries.update(i, e);
    if i == 0 {
        assert(updated.drop_first() =~= entries.drop_first());
    } else {
        assert(updated[0] == entries[0]);
        assert(updated.drop_first() =~= entries.drop_first().update(i - 1, e));
        lemma_bal_at_update(entries.drop_first(), i - 1, e);
        assert forall|x: Seq<u8>| x != e.addr@ implies bal_at(updated, x) == bal_at(entries, x) by {
            if entries[0].addr@ != x {
                assert(bal_at(updated, x) == bal_at(updated.drop_first(), x));
                assert(bal_at(entries.drop_first().update(i - 1, e), x)
                    == bal_at(entries.drop_first(), x));
                assert(bal_at(entries, x) == bal_at(entries.drop_first(), x));
            }
        }
        if forall|j: int| 0 <= j < i ==> entries[j].addr@ != e.addr@ {
            assert(entries[0].addr@ != e.addr@);
            assert(forall|j: int| 0 <= j < i - 1 ==> entries.drop_first()[j].addr@ != e.addr@);
            assert(bal_at(updated, e.addr@) == bal_at(updated.drop_first(), e.addr@));
            assert(bal_at(entries.drop_first().update(i - 1, e), e.addr@) == e.balance);
        }
    }
}

proof fn lemma_bal_at_push(entries: Seq<BankEntry>, e: BankEntry)
    requires
        forall|j: int| 0 <= j < entries.len() ==> entries[j].addr@ != e.addr@,
    ensures
        bal_at(entries.push(e), e.addr@) == e.balance,
        forall|x: Seq<u8>| x != e.addr@ ==> bal_at(entries.push(e), x) == bal_at(entries, x),
    decreases entries.len(),
{
    let pushed = entries.push(e);
    if entries.len() == 0 {
        assert(pushed.drop_first() =~= Seq::<BankEntry>::empty());
        assert forall|x: Seq<u8>| x != e.addr@ implies bal_at(pushed, x) == bal_at(entries, x) by {
            assert(bal_at(pushed, x) == bal_at(pushed.drop_first(), x));
            assert(bal_at(pushed.drop_first(), x) == 0);
            assert(bal_at(entries, x) == 0);
        }
    } else {
        assert(pushed[0] == entries[0]);
        assert(pushed.drop_first() =~= entries.drop_first().push(e));
        assert(forall|j: int| 0 <= j < entries.drop_first().len()
            ==> entries.drop_first()[j] == entries[j + 1]);
        lemma_bal_at_push(entries.drop_first(), e);
        assert(entries[0].addr@ != e.addr@);
        assert(bal_at(pushed, e.addr@) == bal_at(pushed.drop_first(), e.addr@));
        assert forall|x: Seq<u8>| x != e.addr@ implies bal_at(pushed, x) == bal_at(entries, x) by {
            if entries[0].addr@ != x {
                assert(bal_at(pushed, x) == bal_at(pushed.drop_first(), x));
                assert(bal_at(entries.drop_first().push(e), x) == bal_at(entries.drop_first(), x));
                assert(bal_at(entries, x) == bal_at(entries.drop_first(), x));
            }
        }
    }
}

/// Whether two ledgers give every address the same balance.
pub open spec fn same_balances(a: &Bank, b: &Bank) -> bool {
    forall|x: Seq<u8>| #[trigger] a.bal(x) == b.bal(x)
}

impl Bank {
    /// The balance of the account at address `a`: zero unless the account
    /// has been credited.
    pub closed spec fn bal(&self, a: Seq<u8>) -> u64 {
        bal_at(self.entries@, a)
    }

    /// An empty ledger: every account balance is zero.
    pub fn new() -> (r: Bank)
        ensures
            forall|x: Seq<u8>| #[trigger] r.bal(x) == 0,
    {
        let r = Bank { entries: Vec::new() };
        proof {
            assert forall|x: Seq<u8>| #[trigger] r.bal(x) == 0 by {
                lemma_bal_at_absent(r.entries@, x);
            }
        }
        r
    }

    fn find(&self, addr: &Address) -> (r: Option<usize>)
        ensures
            match r {
                Some(i) => i < self.entries@.len() && self.entries@[i as int].addr@ == addr@
                    && (forall|j: int| 0 <= j < i ==> self.entries@[j].addr@ != addr@),
                None => forall|j: int| 0 <= j < self.entries@.len()
                    ==> self.entries@[j].addr@ != addr@,
            },
    {
        let mut i: usize = 0;
        while i < self.entries.len()
            invariant
                i <= self.entries@.len(),
                forall|j: int| 0 <= j < i ==> self.entries@[j].addr@ != addr@,
            decreases self.entries@.len() - i,
        {
            if self.entries[i].addr.matches(addr) {
                return Some(i);
            }
            i = i + 1;
        }
        None
    }

    /// The balance of the account at `addr`.
    pub fn balance_of(&self, addr: &Address) -> (r: u64)
        ensures
            r == self.bal(addr@),
    {
        match self.find(addr) {
            Some(i) => {
                proof {
                    lemma_bal_at_first(self.entries@, addr@, i as int);
                }
                self.entries[i].balance
            },
            None => {
                proof {
                    lemma_bal_at_absent(self.entries@, addr@);
                }
                0
            },
        }
    }

    fn set_balance(&mut self, addr: &Address, v: u64)
        ensures
            final(self).bal(addr@) == v,
            forall|x: Seq<u8>| x != addr@ ==> #[trigger] final(self).bal(x) == old(self).bal(x),
    {
        match self.find(addr) {
            Some(i) => {
                let ghost entries0 = self.entries@;
                self.entries[i].balance = v;
                proof {
                    assert(self.entries@ =~= entries0.update(i as int, self.entries@[i as int]));
                    lemma_bal_at_update(entries0, i as int, self.entries@[i as int]);
                }
            },
            None => {
                let ghost entries0 = self.entries@;
                self.entries.push(BankEntry { addr: addr.dup(), balance: v });
                proof {
                    lemma_bal_at_push(entries0, self.entries@.last());
                    assert(self.entries@ =~= entries0.push(self.entries@.last()));
                }
            },
        }
    }

    /// Credits `amount` to the account at `addr`, creating it if absent.
    /// Succeeds exactly when the new balance fits; on failure no balance
    /// changes.
    pub fn credit(&mut self, addr: &Address, amount: u64) -> (r: Result<(), SurveyErrors>)
        ensures
            r is Ok <==> old(self).bal(addr@) + amount <= u64::MAX,
            r is Ok ==> final(self).bal(addr@) == old(self).bal(addr@) + amount
                && (forall|x: Seq<u8>| x != addr@ ==> #[trigger] final(self).bal(x) == old(self).bal(x)),
            r is Err ==> r == Err::<(), SurveyErrors>(SurveyErrors::TransferFailed)
                && same_balances(final(self), old(self)),
    {
        let b = self.balance_of(addr);
        if amount > u64::MAX - b {
            return Err(SurveyErrors::TransferFailed);
        }
        self.set_balance(addr, b + amount);
        Ok(())
    }

    /// Moves `amount` from the account at `from` to the account at `to`.
    /// Succeeds exactly when `from` holds at least `amount` and the
    /// receiving balance does not overflow; a move onto the same address
    /// leaves every balance as it was. On failure no balance changes.
    pub fn transfer(&mut self, from: &Address, to: &Address, amount: u64) -> (r: Result<(), SurveyErrors>)
        ensures
            r is Ok <==> old(self).bal(from@) >= amount
                && (from@ == to@ || old(self).bal(to@) + amount <= u64::MAX),
            r is Err ==> r == Err::<(), SurveyErrors>(SurveyErrors::TransferFailed)
                && same_balances(final(self), old(self)),
            r is Ok && from@ == to@ ==> same_balances(final(self), old(self)),
            r is Ok && from@ != to@ ==> final(self).bal(from@) == old(self).bal(from@) - amount
                && final(self).bal(to@) == old(self).bal(to@) + amount
                && (forall|x: Seq<u8>| x != from@ && x != to@
                    ==> #[trigger] final(self).bal(x) == old(self).bal(x)),
    {
        let bf = self.balance_of(from);
        if bf < amount {
            return Err(SurveyErrors::TransferFailed);
        }
        if from.matches(to) {
            return Ok(());
        }
        let bt = self.balance_of(to);
        if amount > u64::MAX - bt {
            return Err(SurveyErrors::TransferFailed);
        }
        self.set_balance(from, bf - amount);
        self.set_balance(to, bt + amount);
        Ok(())
    }
}

} // verus!
