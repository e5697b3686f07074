use vstd::prelude::*;

use crate::account::AccountId;
use crate::errors::TokenError;
use crate::metadata::{Metadata, MetadataView};
use crate::token::{ElectronTestToken, Ownable};

verus! {

/// The contract cell: the gateway together with its two-state lifecycle.
/// A cell starts uninitialized; `initialize` fills it exactly once, and
/// every other operation requires the initialized state and fails with
/// `NotInitialized` before that. There is no way back to the uninitialized
/// state.
pub struct ContractCell {
    inner: Option<ElectronTestToken>,
}

impl ContractCell {
    pub closed spec fn state(self) -> Option<ElectronTestToken> {
        self.inner
    }

    pub open spec fn is_initialized(self) -> bool {
        self.state() is Some
    }

    /// The gateway held by an initialized cell.
    pub open spec fn token(self) -> ElectronTestToken
        recommends
            self.is_initialized(),
    {
        self.state()->Some_0
    }

    pub open spec fn wf(self) -> bool {
        self.is_initialized() ==> self.token().wf()
    }

    /// A fresh, uninitialized cell.
    pub fn uninitialized() -> (c: ContractCell)
        ensures
            !c.is_initialized(),
            c.wf(),
    {
        ContractCell { inner: None }
    }

    /// The one-time transition into the initialized state; see
    /// `ElectronTestToken::new` for what it sets up. Fails with
    /// `AlreadyInitialized` on a cell that already holds state, and with
    /// `InvalidMetadata` on a malformed record; in both cases the cell is
    /// left as it was.
    pub fn initialize(
        &mut self,
        contract_id: AccountId,
        owner_id: AccountId,
        metadata: Metadata,
        premined_owner_balance: u128,
    ) -> (r: Result<(), TokenError>)
        requires
            old(self).wf(),
        ensures
            final(self).wf(),
            old(self).is_initialized() ==> r == Err::<(), TokenError>(
                TokenError::AlreadyInitialized,
            ) && *final(self) == *old(self),
            !old(self).is_initialized() ==> {
                &&& (r == Ok::<(), TokenError>(()) <==> metadata@.valid())
                &&& (!metadata@.valid() ==> r == Err::<(), TokenError>(TokenError::InvalidMetadata)
                    && *final(self) == *old(self))
            },
            r.is_ok() ==> {
                let t = final(self).token();
                &&& final(self).is_initialized()
                &&& t.wf()
                &&& t.owner() == owner_id@
                &&& t.contract_account() == contract_id@
                &&& t.metadata_view() == metadata@
                &&& t.registered(owner_id@)
                &&& t.registered(contract_id@)
                &&& t.balance(owner_id@) == premined_owner_balance
                &&& t.supply() == premined_owner_balance
                &&& forall|b: Seq<u8>| b != owner_id@ && b != contract_id@ ==> !t.registered(b)
            },
    {
        if self.inner.is_some() {
            return Err(TokenError::AlreadyInitialized);
        }
        match ElectronTestToken::new(contract_id, owner_id, metadata, premined_owner_balance) {
            Ok(t) => {
                self.inner = Some(t);
                Ok(())
            },
            Err(e) => Err(e),
        }
    }

    /// Forwards to `ElectronTestToken::register_account` once initialized.
    pub fn register_account(&mut self, caller: &AccountId, account_id: AccountId) -> (r: Result<
        (),
        TokenError,
    >)
        requires
            old(self).wf(),
        ensures
            final(self).wf(),
            !old(self).is_initialized() ==> r == Err::<(), TokenError>(TokenError::NotInitialized)
                && *final(self) == *old(self),
            old(self).is_initialized() ==> {
                let pre = old(self).token();
                let post = final(self).token();
                &&& final(self).is_initialized()
                &&& post.owner() == pre.owner()
                &&& post.contract_account() == pre.contract_account()
                &&& post.metadata_view() == pre.metadata_view()
                &&& (caller@ != pre.owner() ==> r == Err::<(), TokenError>(
                    TokenError::Unauthorized,
                ) && post == pre)
                &&& (caller@ == pre.owner() ==> {
                    &&& r == Ok::<(), TokenError>(())
                    &&& post.registered(account_id@)
                    &&& post.supply() == pre.supply()
                    &&& forall|b: Seq<u8>| post.balance(b) == pre.balance(b)
                    &&& forall|b: Seq<u8>|
                        b != account_id@ ==> post.registered(b) == pre.registered(b)
                    &&& (pre.registered(account_id@) ==> post == pre)
                })
            },
    {
        match &mut self.inner {
            None => Err(TokenError::NotInitialized),
            Some(t) => t.register_account(caller, account_id),
        }
    }

    /// Forwards to `ElectronTestToken::mint` once initialized.
    pub fn mint(&mut self, caller: &AccountId, account_id: &AccountId, amount: u128) -> (r: Result<
        (),
        TokenError,
    >)
        requires
            old(self).wf(),
        ensures
            final(self).wf(),
            !old(self).is_initialized() ==> r == Err::<(), TokenError>(TokenError::NotInitialized)
                && *final(self) == *old(self),
            old(self).is_initialized() ==> {
                let pre = old(self).token();
                let post = final(self).token();
                &&& final(self).is_initialized()
                &&& post.owner() == pre.owner()
                &&& post.contract_account() == pre.contract_account()
                &&& post.metadata_view() == pre.metadata_view()
                &&& (r.is_err() ==> post == pre)
                &&& (caller@ != pre.owner() ==> r == Err::<(), TokenError>(
                    TokenError::Unauthorized,
                ))
                &&& (caller@ == pre.owner() ==> {
                    &&& (r == Ok::<(), TokenError>(()) <==> pre.registered(account_id@)
                        && pre.supply() + amount <= u128::MAX)
                    &&& (!pre.registered(account_id@) ==> r == Err::<(), TokenError>(
                        TokenError::AccountNotRegistered,
                    ))
                    &&& (pre.registered(account_id@) && pre.supply() + amount > u128::MAX ==> r
                        == Err::<(), TokenError>(TokenError::Overflow))
                })
                &&& (r.is_ok() ==> {
                    &&& post.balance(account_id@) == pre.balance(account_id@) + amount
                    &&& post.supply() == pre.supply() + amount
                    &&& forall|b: Seq<u8>|
                        b != account_id@ ==> post.balance(b) == pre.balance(b)
                    &&& forall|b: Seq<u8>| post.registered(b) == pre.registered(b)
                })
            },
    {
        match &mut self.inner {
            None => Err(TokenError::NotInitialized),
            Some(t) => t.mint(caller, account_id, amount),
        }
    }

    /// Forwards to `ElectronTestToken::burn` once initialized.
    pub fn burn(
        &mut self,
        caller: &AccountId,
        attached_deposit: u128,
        account_id: &AccountId,
        amount: u128,
    ) -> (r: Result<(), TokenError>)
        requires
            old(self).wf(),
        ensures
            final(self).wf(),
            !old(self).is_initialized() ==> r == Err::<(), TokenError>(TokenError::NotInitialized)
                && *final(self) == *old(self),
            old(self).is_initialized() ==> {
                let pre = old(self).token();
                let post = final(self).token();
                &&& final(self).is_initialized()
                &&& post.owner() == pre.owner()
                &&& post.contract_account() == pre.contract_account()
                &&& post.metadata_view() == pre.metadata_view()
                &&& (r.is_err() ==> post == pre)
                &&& (attached_deposit != 1 ==> r == Err::<(), TokenError>(
                    TokenError::PaymentPrecisionRequired,
                ))
                &&& (attached_deposit == 1 && caller@ != pre.owner() ==> r == Err::<(), TokenError>(
                    TokenError::Unauthorized,
                ))
                &&& (attached_deposit == 1 && caller@ == pre.owner() ==> {
                    &&& (r == Ok::<(), TokenError>(()) <==> pre.registered(account_id@) && amount
                        <= pre.balance(account_id@))
                    &&& (r.is_err() ==> r == Err::<(), TokenError>(
                        TokenError::InsufficientBalance,
                    ))
                })
                &&& (r.is_ok() ==> {
                    &&& post.balance(account_id@) == pre.balance(account_id@) - amount
                    &&& post.supply() == pre.supply() - amount
                    &&& forall|b: Seq<u8>|
                        b != account_id@ ==> post.balance(b) == pre.balance(b)
                    &&& forall|b: Seq<u8>| post.registered(b) == pre.registered(b)
                })
            },
    {
        match &mut self.inner {
            None => Err(TokenError::NotInitialized),
            Some(t) => t.burn(caller, attached_deposit, account_id, amount),
        }
    }

    /// Forwards to `ElectronTestToken::set_icon` once initialized.
    pub fn set_icon(&mut self, caller: &AccountId, icon: Vec<u8>) -> (r: Result<(), TokenError>)
        requires
            old(self).wf(),
        ensures
            final(self).wf(),
            !old(self).is_initialized() ==> r == Err::<(), TokenError>(TokenError::NotInitialized)
                && *final(self) == *old(self),
            old(self).is_initialized() ==> {
                let pre = old(self).token();
                let post = final(self).token();
                &&& final(self).is_initialized()
                &&& post.ledger_state() == pre.ledger_state()
                &&& post.owner() == pre.owner()
                &&& post.contract_account() == pre.contract_account()
                &&& (caller@ != pre.contract_account() ==> r == Err::<(), TokenError>(
                    TokenError::Unauthorized,
                ) && post == pre)
                &&& (caller@ == pre.contract_account() ==> {
                    &&& r == Ok::<(), TokenError>(())
                    &&& (post.metadata_view() == MetadataView {
                        icon: Some(icon@),
                        ..pre.metadata_view()
                    })
                })
            },
    {
        match &mut self.inner {
            None => Err(TokenError::NotInitialized),
            Some(t) => t.set_icon(caller, icon),
        }
    }

    /// Forwards to `Ownable::set_owner` once initialized.
    pub fn set_owner(&mut self, caller: &AccountId, owner_id: AccountId) -> (r: Result<
        (),
        TokenError,
    >)
        requires
            old(self).wf(),
        ensures
            final(self).wf(),
            !old(self).is_initialized() ==> r == Err::<(), TokenError>(TokenError::NotInitialized)
                && *final(self) == *old(self),
            old(self).is_initialized() ==> {
                let pre = old(self).token();
                let post = final(self).token();
                &&& final(self).is_initialized()
                &&& post.ledger_state() == pre.ledger_state()
                &&& post.metadata_view() == pre.metadata_view()
                &&& post.contract_account() == pre.contract_account()
                &&& (caller@ != pre.owner() ==> r == Err::<(), TokenError>(
                    TokenError::Unauthorized,
                ) && post == pre)
                &&& (caller@ == pre.owner() ==> r == Ok::<(), TokenError>(()) && post.owner()
                    == owner_id@)
            },
    {
        match &mut self.inner {
            None => Err(TokenError::NotInitialized),
            Some(t) => t.set_owner(caller, owner_id),
        }
    }

    /// Forwards to `Ownable::get_owner` once initialized.
    pub fn get_owner(&self) -> (r: Result<AccountId, TokenError>)
        ensures
            !self.is_initialized() ==> r == Err::<AccountId, TokenError>(
                TokenError::NotInitialized,
            ),
            self.is_initialized() ==> (r matches Ok(a) && a@ == self.token().owner()),
    {
        match &self.inner {
            None => Err(TokenError::NotInitialized),
            Some(t) => Ok(t.get_owner()),
        }
    }

    /// Forwards to `ElectronTestToken::balance_of` once initialized.
    pub fn balance_of(&self, account_id: &AccountId) -> (r: Result<u128, TokenError>)
        requires
            self.wf(),
        ensures
            !self.is_initialized() ==> r == Err::<u128, TokenError>(TokenError::NotInitialized),
            self.is_initialized() ==> r == Ok::<u128, TokenError>(
                self.token().balance(account_id@),
            ),
    {
        match &self.inner {
            None => Err(TokenError::NotInitialized),
            Some(t) => Ok(t.balance_of(account_id)),
        }
    }

    /// Forwards to `ElectronTestToken::total_supply` once initialized.
    pub fn total_supply(&self) -> (r: Result<u128, TokenError>)
        ensures
            !self.is_initialized() ==> r == Err::<u128, TokenError>(TokenError::NotInitialized),
            self.is_initialized() ==> r == Ok::<u128, TokenError>(self.token().supply()),
    {
        match &self.inner {
            None => Err(TokenError::NotInitialized),
            Some(t) => Ok(t.total_supply()),
        }
    }

    /// Forwards to `ElectronTestToken::ft_metadata` once initialized.
    pub fn ft_metadata(&self) -> (r: Result<&Metadata, TokenError>)
        ensures
            !self.is_initialized() ==> r == Err::<&Metadata, TokenError>(
                TokenError::NotInitialized,
            ),
            self.is_initialized() ==> (r matches Ok(m) && m@ == self.token().metadata_view()),
    {
        match &self.inner {
            None => Err(TokenError::NotInitialized),
            Some(t) => Ok(t.ft_metadata()),
        }
    }
}

} // verus!
