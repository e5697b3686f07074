use vstd::prelude::*;

use crate::account::AccountId;
use crate::errors::TokenError;
use crate::ledger::{lemma_supply_is_sum_of_balances, sum_balances, Ledger};
use crate::metadata::{Metadata, MetadataView};

verus! {

/// A single-owner capability: one account is privileged for the
/// administrative mutations, and only the current holder may pass the
/// privilege on.
pub trait Ownable: Sized {
    /// The identifier of the current owner.
    spec fn spec_owner(&self) -> Seq<u8>;

    fn get_owner(&self) -> (r: AccountId)
        ensures
            r@ == self.spec_owner(),
    ;

    /// Replaces the owner, provided the caller is the current owner. The new
    /// owner is accepted unconditionally: it need not be registered nor
    /// distinct from the current one.
    fn set_owner(&mut self, caller: &AccountId, owner_id: AccountId) -> (r: Result<
        (),
        TokenError,
    >)
        ensures
            caller@ != old(self).spec_owner() ==> r == Err::<(), TokenError>(
                TokenError::Unauthorized,
            ) && *final(self) == *old(self),
            caller@ == old(self).spec_owner() ==> r == Ok::<(), TokenError>(())
                && final(self).spec_owner() == owner_id@,
    ;

    /// The shared authorization guard: succeeds exactly when `caller` is the
    /// current owner.
    fn assert_owner(&self, caller: &AccountId) -> (r: Result<(), TokenError>)
        ensures
            r == Ok::<(), TokenError>(()) <==> caller@ == self.spec_owner(),
            r.is_err() ==> r == Err::<(), TokenError>(TokenError::Unauthorized),
    {
        let owner = self.get_owner();
        if caller.eq_id(&owner) {
            Ok(())
        } else {
            Err(TokenError::Unauthorized)
        }
    }
}

/// The ownership and mutation gateway around the balance ledger. Every
/// state-changing call validates the caller's identity before it touches the
/// ledger; the ledger itself never checks authorization.
pub struct ElectronTestToken {
    token: Ledger,
    metadata: Metadata,
    owner_id: AccountId,
    contract_id: AccountId,
}

impl ElectronTestToken {
    /// Well-formedness of the underlying ledger.
    pub closed spec fn wf(self) -> bool {
        self.token.wf()
    }

    /// The identifier of the current owner.
    pub closed spec fn owner(self) -> Seq<u8> {
        self.owner_id@
    }

    /// The contract's own operating account: the only caller `set_icon`
    /// accepts.
    pub closed spec fn contract_account(self) -> Seq<u8> {
        self.contract_id@
    }

    /// The metadata record, as its mathematical image.
    pub closed spec fn metadata_view(self) -> MetadataView {
        self.metadata@
    }

    /// The underlying ledger state.
    pub closed spec fn ledger_state(self) -> Ledger {
        self.token
    }

    pub closed spec fn registered(self, a: Seq<u8>) -> bool {
        self.token.registered(a)
    }

    pub closed spec fn balance(self, a: Seq<u8>) -> u128 {
        self.token.balance(a)
    }

    pub closed spec fn supply(self) -> u128 {
        self.token.supply()
    }

    /// One-time constructor. Validates the metadata, registers the
    /// contract's own operating account and the owner account, then deposits
    /// the premined amount into the owner's balance. The two registrations
    /// must precede the deposit: the ledger rejects a deposit to an
    /// unregistered account.
    pub fn new(
        contract_id: AccountId,
        owner_id: AccountId,
        metadata: Metadata,
        premined_owner_balance: u128,
    ) -> (r: Result<ElectronTestToken, TokenError>)
        ensures
            r.is_ok() <==> metadata@.valid(),
            !metadata@.valid() ==> r == Err::<ElectronTestToken, TokenError>(
                TokenError::InvalidMetadata,
            ),
            r matches Ok(t) ==> {
                &&& t.wf()
                &&& t.owner() == owner_id@
                &&& t.contract_account() == contract_id@
                &&& t.metadata_view() == metadata@
                &&& t.registered(owner_id@)
                &&& t.registered(contract_id@)
                &&& t.balance(owner_id@) == premined_owner_balance
                &&& t.balance(contract_id@) == (if contract_id@ == owner_id@ {
                    premined_owner_balance as int
                } else {
                    0
                })
                &&& t.supply() == premined_owner_balance
                &&& forall|b: Seq<u8>|
                    b != owner_id@ && b != contract_id@ ==> !t.registered(b)
            },
    {
        if !metadata.is_valid() {
            return Err(TokenError::InvalidMetadata);
        }
        let mut token = Ledger::new();
        token.register(&contract_id);
        token.register(&owner_id);
        let deposited = token.deposit(&owner_id, premined_owner_balance);
        match deposited {
            Ok(()) => {},
            Err(e) => {
                proof {
                    assert(false);
                }
                return Err(e);
            },
        }
        Ok(ElectronTestToken { token, metadata, owner_id, contract_id })
    }

    /// Owner-gated registration: creates a zero-balance entry for
    /// `account_id` if it is absent; registering an account a second time is
    /// a harmless no-op.
    pub fn register_account(&mut self, caller: &AccountId, account_id: AccountId) -> (r: Result<
        (),
        TokenError,
    >)
        requires
            old(self).wf(),
        ensures
            final(self).wf(),
            final(self).owner() == old(self).owner(),
            final(self).contract_account() == old(self).contract_account(),
            final(self).metadata_view() == old(self).metadata_view(),
            caller@ != old(self).owner() ==> r == Err::<(), TokenError>(TokenError::Unauthorized)
                && *final(self) == *old(self),
            caller@ == old(self).owner() ==> {
                &&& r == Ok::<(), TokenError>(())
                &&& final(self).registered(account_id@)
                &&& final(self).supply() == old(self).supply()
                &&& forall|b: Seq<u8>| final(self).balance(b) == old(self).balance(b)
                &&& forall|b: Seq<u8>|
                    b != account_id@ ==> final(self).registered(b) == old(self).registered(b)
                &&& (old(self).registered(account_id@) ==> *final(self) == *old(self))
            },
    {
        if !caller.eq_id(&self.owner_id) {
            return Err(TokenError::Unauthorized);
        }
        self.token.register(&account_id);
        Ok(())
    }

    /// Owner-gated mint: deposits `amount` into a registered account,
    /// growing the total supply by the same amount.
    pub fn mint(&mut self, caller: &AccountId, account_id: &AccountId, amount: u128) -> (r: Result<
        (),
        TokenError,
    >)
        requires
            old(self).wf(),
        ensures
            final(self).wf(),
            final(self).owner() == old(self).owner(),
            final(self).contract_account() == old(self).contract_account(),
            final(self).metadata_view() == old(self).metadata_view(),
            r.is_err() ==> *final(self) == *old(self),
            caller@ != old(self).owner() ==> r == Err::<(), TokenError>(TokenError::Unauthorized),
            caller@ == old(self).owner() ==> {
                &&& (r == Ok::<(), TokenError>(()) <==> old(self).registered(account_id@)
                    && old(self).supply() + amount <= u128::MAX)
                &&& (!old(self).registered(account_id@) ==> r == Err::<(), TokenError>(
                    TokenError::AccountNotRegistered,
                ))
                &&& (old(self).registered(account_id@) && old(self).supply() + amount > u128::MAX
                    ==> r == Err::<(), TokenError>(TokenError::Overflow))
            },
            r.is_ok() ==> {
                &&& final(self).balance(account_id@) == old(self).balance(account_id@) + amount
                &&& final(self).supply() == old(self).supply() + amount
                &&& forall|b: Seq<u8>|
                    b != account_id@ ==> final(self).balance(b) == old(self).balance(b)
                &&& forall|b: Seq<u8>| final(self).registered(b) == old(self).registered(b)
            },
    {
        if !caller.eq_id(&self.owner_id) {
            return Err(TokenError::Unauthorized);
        }
        self.internal_mint(account_id, amount)
    }

    /// The ungated deposit step shared by `new` and `mint`.
    fn internal_mint(&mut self, account_id: &AccountId, amount: u128) -> (r: Result<
        (),
        TokenError,
    >)
        requires
            old(self).wf(),
        ensures
            final(self).wf(),
            final(self).owner() == old(self).owner(),
            final(self).contract_account() == old(self).contract_account(),
            final(self).metadata_view() == old(self).metadata_view(),
            r.is_err() ==> *final(self) == *old(self),
            r == Ok::<(), TokenError>(()) <==> old(self).registered(account_id@)
                && old(self).supply() + amount <= u128::MAX,
            !old(self).registered(account_id@) ==> r == Err::<(), TokenError>(
                TokenError::AccountNotRegistered,
            ),
            old(self).registered(account_id@) && old(self).supply() + amount > u128::MAX ==> r
                == Err::<(), TokenError>(TokenError::Overflow),
            r.is_ok() ==> {
                &&& final(self).balance(account_id@) == old(self).balance(account_id@) + amount
                &&& final(self).supply() == old(self).supply() + amount
                &&& forall|b: Seq<u8>|
                    b != account_id@ ==> final(self).balance(b) == old(self).balance(b)
                &&& forall|b: Seq<u8>| final(self).registered(b) == old(self).registered(b)
            },
    {
        self.token.deposit(account_id, amount)
    }

    /// Owner-gated burn: withdraws `amount` from a registered account,
    /// shrinking the total supply by the same amount. As a guard against
    /// accidental calls, the host must attach exactly one indivisible unit
    /// of its native payment; that check comes before the authorization
    /// check.
    pub fn burn(
        &mut self,
        caller: &AccountId,
        attached_deposit: u128,
        account_id: &AccountId,
        amount: u128,
    ) -> (r: Result<(), TokenError>)
        requires
            old(self).wf(),
        ensures
            final(self).wf(),
            final(self).owner() == old(self).owner(),
            final(self).contract_account() == old(self).contract_account(),
            final(self).metadata_view() == old(self).metadata_view(),
            r.is_err() ==> *final(self) == *old(self),
            attached_deposit != 1 ==> r == Err::<(), TokenError>(
                TokenError::PaymentPrecisionRequired,
            ),
            attached_deposit == 1 && caller@ != old(self).owner() ==> r == Err::<(), TokenError>(
                TokenError::Unauthorized,
            ),
            attached_deposit == 1 && caller@ == old(self).owner() ==> {
                &&& (r == Ok::<(), TokenError>(()) <==> old(self).registered(account_id@)
                    && amount <= old(self).balance(account_id@))
                &&& (r.is_err() ==> r == Err::<(), TokenError>(TokenError::InsufficientBalance))
            },
            r.is_ok() ==> {
                &&& final(self).balance(account_id@) == old(self).balance(account_id@) - amount
                &&& final(self).supply() == old(self).supply() - amount
                &&& forall|b: Seq<u8>|
                    b != account_id@ ==> final(self).balance(b) == old(self).balance(b)
                &&& forall|b: Seq<u8>| final(self).registered(b) == old(self).registered(b)
            },
    {
        if attached_deposit != 1 {
            return Err(TokenError::PaymentPrecisionRequired);
        }
        if !caller.eq_id(&self.owner_id) {
            return Err(TokenError::Unauthorized);
        }
        self.token.withdraw(account_id, amount)
    }

    /// Self-only icon update: accepted only when the call originates from
    /// the contract's own operating account — a stricter gate than owner.
    /// Rewrites the metadata record with the new icon, leaving every other
    /// field as it was, and never touches the ledger.
    pub fn set_icon(&mut self, caller: &AccountId, icon: Vec<u8>) -> (r: Result<(), TokenError>)
        ensures
            caller@ != old(self).contract_account() ==> r == Err::<(), TokenError>(
                TokenError::Unauthorized,
            ) && *final(self) == *old(self),
            caller@ == old(self).contract_account() ==> {
                &&& r == Ok::<(), TokenError>(())
                &&& (final(self).metadata_view() == MetadataView {
                    icon: Some(icon@),
                    ..old(self).metadata_view()
                })
            },
            final(self).ledger_state() == old(self).ledger_state(),
            final(self).wf() == old(self).wf(),
            final(self).owner() == old(self).owner(),
            final(self).contract_account() == old(self).contract_account(),
    {
        if !caller.eq_id(&self.contract_id) {
            return Err(TokenError::Unauthorized);
        }
        self.metadata.put_icon(icon);
        Ok(())
    }

    /// The metadata record.
    pub fn ft_metadata(&self) -> (r: &Metadata)
        ensures
            r@ == self.metadata_view(),
    {
        &self.metadata
    }

    /// The stored balance of a registered account, zero for an unregistered
    /// one.
    pub fn balance_of(&self, account_id: &AccountId) -> (r: u128)
        requires
            self.wf(),
        ensures
            r == self.balance(account_id@),
    {
        self.token.balance_of(account_id)
    }

    /// The recorded total supply.
    pub fn total_supply(&self) -> (r: u128)
        ensures
            r == self.supply(),
    {
        self.token.total_supply()
    }
}

/// Law: the gateway's balance view is exactly its ledger's, and in every
/// well-formed gateway state the recorded total supply is the sum of all
/// registered balances; in particular no single balance exceeds the supply.
pub proof fn lemma_gateway_supply_is_sum(t: ElectronTestToken)
    requires
        t.wf(),
    ensures
        t.supply() == t.ledger_state().supply(),
        t.supply() as int == sum_balances(t.ledger_state().balances()),
        forall|a: Seq<u8>| t.registered(a) == t.ledger_state().registered(a),
        forall|a: Seq<u8>| t.balance(a) == t.ledger_state().balance(a),
        forall|a: Seq<u8>| t.registered(a) ==> t.balance(a) <= t.supply(),
{
    lemma_supply_is_sum_of_balances(t.ledger_state());
}

impl Ownable for ElectronTestToken {
    closed spec fn spec_owner(&self) -> Seq<u8> {
        self.owner_id@
    }

    fn get_owner(&self) -> (r: AccountId)
        ensures
            r@ == self.owner(),
    {
        self.owner_id.duplicate()
    }

    fn set_owner(&mut self, caller: &AccountId, owner_id: AccountId) -> (r: Result<
        (),
        TokenError,
    >)
        ensures
            final(self).ledger_state() == old(self).ledger_state(),
            final(self).wf() == old(self).wf(),
            final(self).metadata_view() == old(self).metadata_view(),
            final(self).contract_account() == old(self).contract_account(),
            caller@ != old(self).owner() ==> r == Err::<(), TokenError>(TokenError::Unauthorized)
                && *final(self) == *old(self),
            caller@ == old(self).owner() ==> r == Ok::<(), TokenError>(()) && final(self).owner()
                == owner_id@,
    {
        if !caller.eq_id(&self.owner_id) {
            return Err(TokenError::Unauthorized);
        }
        self.owner_id = owner_id;
        Ok(())
    }
}

} // verus!
