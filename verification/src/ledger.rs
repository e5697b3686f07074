use vstd::prelude::*;

use crate::account::AccountId;
use crate::errors::TokenError;

verus! {

/// Sum of a sequence of balances, as an unbounded integer.
pub open spec fn sum_balances(s: Seq<u128>) -> int
    decreases s.len(),
{
    if s.len() == 0 {
        0
    } else {
        sum_balances(s.drop_last()) + s.last()
    }
}

pub proof fn lemma_sum_nonneg(s: Seq<u128>)
    ensures
        sum_balances(s) >= 0,
    decreases s.len(),
{
    if s.len() > 0 {
        lemma_sum_nonneg(s.drop_last());
    }
}

pub proof fn lemma_sum_element(s: Seq<u128>, i: int)
    requires
        0 <= i < s.len(),
    ensures
        s[i] <= sum_balances(s),
    decreases s.len(),
{
    lemma_sum_nonneg(s.drop_last());
    if i < s.len() - 1 {
        lemma_sum_element(s.drop_last(), i);
    }
}

pub proof fn lemma_sum_push(s: Seq<u128>, v: u128)
    ensures
        sum_balances(s.push(v)) == sum_balances(s) + v,
{
    assert(s.push(v).drop_last() =~= s);
}

pub proof fn lemma_sum_update(s: Seq<u128>, i: int, v: u128)
    requires
        0 <= i < s.len(),
    ensures
        sum_balances(s.update(i, v)) == sum_balances(s) - s[i] + v,
    decreases s.len(),
{
    if i == s.len() - 1 {
        assert(s.update(i, v).drop_last() =~= s.drop_last());
    } else {
        assert(s.update(i, v).drop_last() =~= s.drop_last().update(i, v));
        lemma_sum_update(s.drop_last(), i, v);
    }
}

/// The balance ledger: one balance for each explicitly registered account,
/// and the running total supply. Every mutation either completes in full or
/// leaves the ledger untouched.
pub struct Ledger {
    accounts: Vec<AccountId>,
    amounts: Vec<u128>,
    total_supply: u128,
}

impl Ledger {
    /// The registered account identifiers, in registration order.
    pub closed spec fn account_ids(self) -> Seq<Seq<u8>> {
        self.accounts@.map(|i: int, a: AccountId| a@)
    }

    /// The registered balances, in registration order.
    pub closed spec fn balances(self) -> Seq<u128> {
        self.amounts@
    }

    /// The recorded total supply.
    pub closed spec fn supply(self) -> u128 {
        self.total_supply
    }

    /// Whether `a` has been registered.
    pub closed spec fn registered(self, a: Seq<u8>) -> bool {
        self.account_ids().contains(a)
    }

    spec fn idx_of(self, a: Seq<u8>) -> int {
        self.account_ids().index_of(a)
    }

    /// The balance of `a`: the stored value for a registered account, zero
    /// for an unregistered one.
    pub closed spec fn balance(self, a: Seq<u8>) -> u128 {
        if self.registered(a) {
            self.balances()[self.idx_of(a)]
        } else {
            0
        }
    }

    /// Well-formedness: balances and accounts line up, no account appears
    /// twice, and the recorded total supply is the sum of the balances.
    pub closed spec fn wf(self) -> bool {
        &&& self.accounts@.len() == self.amounts@.len()
        &&& forall|i: int, j: int|
            0 <= i < j < self.account_ids().len() ==> self.account_ids()[i] != self.account_ids()[j]
        &&& self.total_supply as int == sum_balances(self.balances())
    }

    proof fn lemma_idx(self, a: Seq<u8>)
        requires
            self.wf(),
            self.registered(a),
        ensures
            0 <= self.idx_of(a) < self.account_ids().len(),
            self.account_ids()[self.idx_of(a)] == a,
            forall|i: int|
                0 <= i < self.account_ids().len() && self.account_ids()[i] == a
                    ==> i == self.idx_of(a),
    {
        let ids = self.account_ids();
        assert(exists|i: int| 0 <= i < ids.len() && ids[i] == a);
    }

    /// An empty ledger: no accounts, no supply.
    pub fn new() -> (l: Ledger)
        ensures
            l.wf(),
            l.supply() == 0,
            l.account_ids().len() == 0,
            forall|a: Seq<u8>| !l.registered(a),
            forall|a: Seq<u8>| l.balance(a) == 0,
    {
        let l = Ledger { accounts: Vec::new(), amounts: Vec::new(), total_supply: 0 };
        proof {
            assert(l.account_ids() =~= Seq::<Seq<u8>>::empty());
        }
        l
    }

    /// The index of `account` among the registered accounts, if any.
    fn find(&self, account: &AccountId) -> (r: Option<usize>)
        requires
            self.wf(),
        ensures
            match r {
                Some(i) => {
                    &&& self.registered(account@)
                    &&& i as int == self.idx_of(account@)
                    &&& i < self.account_ids().len()
                },
                None => !self.registered(account@),
            },
    {
        let mut i: usize = 0;
        while i < self.accounts.len()
            invariant
                self.wf(),
                i <= self.account_ids().len(),
                forall|j: int| 0 <= j < i ==> self.account_ids()[j] != account@,
            decreases self.account_ids().len() - i,
        {
            if self.accounts[i].eq_id(account) {
                proof {
                    assert(self.account_ids()[i as int] == account@);
                    self.lemma_idx(account@);
                }
                return Some(i);
            }
            i = i + 1;
        }
        proof {
            if self.registered(account@) {
                let w = choose|j: int|
                    0 <= j < self.account_ids().len() && self.account_ids()[j] == account@;
                assert(self.account_ids()[w] != account@);
            }
        }
        None
    }

    /// Registers `account` with a zero balance if it is absent. Registering
    /// an account that is already present is a no-op: no balance is changed
    /// and no error is raised.
    pub fn register(&mut self, account: &AccountId)
        requires
            old(self).wf(),
        ensures
            final(self).wf(),
            final(self).registered(account@),
            final(self).supply() == old(self).supply(),
            forall|b: Seq<u8>| final(self).balance(b) == old(self).balance(b),
            forall|b: Seq<u8>|
                b != account@ ==> final(self).registered(b) == old(self).registered(b),
            old(self).registered(account@) ==> *final(self) == *old(self),
            !old(self).registered(account@) ==> {
                &&& final(self).account_ids() == old(self).account_ids().push(account@)
                &&& final(self).balances() == old(self).balances().push(0u128)
            },
    {
        match self.find(account) {
            Some(_) => {},
            None => {
                let ghost pre = *self;
                let id = account.duplicate();
                self.accounts.push(id);
                self.amounts.push(0);
                proof {
                    assert(self.account_ids() =~= pre.account_ids().push(account@));
                    lemma_sum_push(pre.balances(), 0);
                    let n = pre.account_ids().len() as int;
                    assert(self.wf());
                    assert(self.account_ids()[n] == account@);
                    assert(self.registered(account@));
                    self.lemma_idx(account@);
                    assert(self.balance(account@) == 0);
                    assert forall|b: Seq<u8>| b != account@ implies final(self).registered(b)
                        == pre.registered(b) by {
                        if pre.registered(b) {
                            let w = pre.idx_of(b);
                            pre.lemma_idx(b);
                            assert(self.account_ids()[w] == b);
                        }
                        if self.registered(b) {
                            let w = choose|i: int|
                                0 <= i < self.account_ids().len() && self.account_ids()[i] == b;
                            assert(w < n);
                            assert(pre.account_ids()[w] == b);
                        }
                    }
                    assert forall|b: Seq<u8>| final(self).balance(b) == pre.balance(b) by {
                        if b != account@ {
                            if pre.registered(b) {
                                pre.lemma_idx(b);
                                let w = pre.idx_of(b);
                                assert(self.account_ids()[w] == b);
                                self.lemma_idx(b);
                                assert(self.idx_of(b) == w);
                            }
                        }
                    }
                }
            },
        }
    }

    /// Adds `amount` to a registered account's balance and to the total
    /// supply, atomically; rejects unregistered accounts and any addition
    /// that would overflow the balance width.
    pub fn deposit(&mut self, account: &AccountId, amount: u128) -> (r: Result<(), TokenError>)
        requires
            old(self).wf(),
        ensures
            final(self).wf(),
            r == Ok::<(), TokenError>(()) <==> old(self).registered(account@)
                && old(self).supply() + amount <= u128::MAX,
            r.is_err() ==> *final(self) == *old(self),
            !old(self).registered(account@) ==> r == Err::<(), TokenError>(
                TokenError::AccountNotRegistered,
            ),
            old(self).registered(account@) && old(self).supply() + amount > u128::MAX
                ==> r == Err::<(), TokenError>(TokenError::Overflow),
            r.is_ok() ==> {
                &&& final(self).balance(account@) == old(self).balance(account@) + amount
                &&& final(self).supply() == old(self).supply() + amount
                &&& forall|b: Seq<u8>|
                    b != account@ ==> final(self).balance(b) == old(self).balance(b)
                &&& forall|b: Seq<u8>| final(self).registered(b) == old(self).registered(b)
                &&& final(self).account_ids() == old(self).account_ids()
            },
    {
        let idx = match self.find(account) {
            None => {
                return Err(TokenError::AccountNotRegistered);
            },
            Some(i) => i,
        };
        if amount > u128::MAX - self.total_supply {
            return Err(TokenError::Overflow);
        }
        let ghost pre = *self;
        let bal = self.amounts[idx];
        proof {
            lemma_sum_element(pre.balances(), idx as int);
        }
        let nb = bal + amount;
        self.amounts.set(idx, nb);
        self.total_supply = self.total_supply + amount;
        proof {
            lemma_sum_update(pre.balances(), idx as int, nb);
            assert(self.account_ids() =~= pre.account_ids());
            pre.lemma_idx(account@);
            self.lemma_idx(account@);
            assert(self.balance(account@) == nb);
            assert forall|b: Seq<u8>| b != account@ implies final(self).balance(b)
                == pre.balance(b) by {
                if pre.registered(b) {
                    pre.lemma_idx(b);
                    self.lemma_idx(b);
                    assert(self.idx_of(b) == pre.idx_of(b));
                    assert(pre.idx_of(b) != idx as int);
                }
            }
        }
        Ok(())
    }

    /// Subtracts `amount` from a registered account's balance and from the
    /// total supply, atomically; rejects any request the balance cannot
    /// cover. This is the double-spend guard: no balance ever goes below
    /// zero.
    pub fn withdraw(&mut self, account: &AccountId, amount: u128) -> (r: Result<(), TokenError>)
        requires
            old(self).wf(),
        ensures
            final(self).wf(),
            r == Ok::<(), TokenError>(()) <==> old(self).registered(account@)
                && amount <= old(self).balance(account@),
            r.is_err() ==> r == Err::<(), TokenError>(TokenError::InsufficientBalance)
                && *final(self) == *old(self),
            r.is_ok() ==> {
                &&& final(self).balance(account@) == old(self).balance(account@) - amount
                &&& final(self).supply() == old(self).supply() - amount
                &&& forall|b: Seq<u8>|
                    b != account@ ==> final(self).balance(b) == old(self).balance(b)
                &&& forall|b: Seq<u8>| final(self).registered(b) == old(self).registered(b)
                &&& final(self).account_ids() == old(self).account_ids()
            },
    {
        let idx = match self.find(account) {
            None => {
                return Err(TokenError::InsufficientBalance);
            },
            Some(i) => i,
        };
        let bal = self.amounts[idx];
        if amount > bal {
            return Err(TokenError::InsufficientBalance);
        }
        let ghost pre = *self;
        proof {
            lemma_sum_element(pre.balances(), idx as int);
        }
        let nb = bal - amount;
        self.amounts.set(idx, nb);
        self.total_supply = self.total_supply - amount;
        proof {
            lemma_sum_update(pre.balances(), idx as int, nb);
            assert(self.account_ids() =~= pre.account_ids());
            pre.lemma_idx(account@);
            self.lemma_idx(account@);
            assert(self.balance(account@) == nb);
            assert forall|b: Seq<u8>| b != account@ implies final(self).balance(b)
                == pre.balance(b) by {
                if pre.registered(b) {
                    pre.lemma_idx(b);
                    self.lemma_idx(b);
                    assert(self.idx_of(b) == pre.idx_of(b));
                    assert(pre.idx_of(b) != idx as int);
                }
            }
        }
        Ok(())
    }

    /// The stored balance of a registered account, zero for an unregistered
    /// one. Read-only: never creates an entry.
    pub fn balance_of(&self, account: &AccountId) -> (r: u128)
        requires
            self.wf(),
        ensures
            r == self.balance(account@),
    {
        match self.find(account) {
            Some(i) => self.amounts[i],
            None => 0,
        }
    }

    /// The recorded total supply.
    pub fn total_supply(&self) -> (r: u128)
        ensures
            r == self.supply(),
    {
        self.total_supply
    }
}

/// An account that was never registered holds nothing.
pub proof fn lemma_unregistered_balance_is_zero(l: Ledger, a: Seq<u8>)
    requires
        !l.registered(a),
    ensures
        l.balance(a) == 0,
{
}

/// Law: in every well-formed ledger state the recorded total supply equals
/// the sum of all registered balances, and each registered account's balance
/// is the entry the sum ranges over.
pub proof fn lemma_supply_is_sum_of_balances(l: Ledger)
    requires
        l.wf(),
    ensures
        l.supply() as int == sum_balances(l.balances()),
        l.balances().len() == l.account_ids().len(),
        forall|i: int|
            0 <= i < l.account_ids().len() ==> l.registered(#[trigger] l.account_ids()[i])
                && l.balance(l.account_ids()[i]) == l.balances()[i],
        forall|a: Seq<u8>| l.registered(a) ==> l.balance(a) <= l.supply(),
{
    assert forall|i: int| 0 <= i < l.account_ids().len() implies l.registered(
        #[trigger] l.account_ids()[i],
    ) && l.balance(l.account_ids()[i]) == l.balances()[i] by {
        let a = l.account_ids()[i];
        assert(l.registered(a));
        l.lemma_idx(a);
        assert(l.idx_of(a) == i);
    }
    assert forall|a: Seq<u8>| l.registered(a) implies l.balance(a) <= l.supply() by {
        l.lemma_idx(a);
        lemma_sum_element(l.balances(), l.idx_of(a));
    }
}

} // verus!
