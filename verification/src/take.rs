use crate::address::Address;
use crate::authority::{address_bytes, derive_escrow_authority, escrow_authority};
use crate::state::{EscrowAccount, Signer, TakeError, TokenHolding, Vault};
use vstd::prelude::*;

verus! {

/// One settlement: the parties, the two asset types, the escrow record with its
/// vault, and the three holdings that the assets move between. The four holdings
/// are four separate accounts.
#[derive(Clone, Copy, Debug, PartialEq, Eq)]
pub struct Take {
    /// The program that owns the escrow, under which its authority is derived.
    pub program_id: Address,
    pub taker: Signer,
    pub maker: Address,
    pub mint_a: Address,
    pub mint_b: Address,
    pub escrow: EscrowAccount,
    /// Where the taker receives asset A.
    pub taker_ata_a: TokenHolding,
    /// Where the taker pays asset B from.
    pub taker_ata_b: TokenHolding,
    /// Where the maker receives asset B.
    pub maker_ata_b: TokenHolding,
    pub vault: Vault,
}

impl Take {
    /// The authority that the record's own maker, seed and bump derive.
    pub open spec fn derived_authority(self) -> Option<Seq<u8>> {
        escrow_authority(
            self.program_id@,
            self.escrow.record.maker@,
            self.escrow.record.seed,
            self.escrow.record.bump,
        )
    }

    /// Why the payment of `amount` of asset B to the maker is refused, or `None`
    /// if it goes through. The first reason that applies is the one reported.
    pub open spec fn deposit_error(self, amount: u64) -> Option<TakeError> {
        if !self.escrow.open {
            Some(TakeError::RecordAlreadyClosed)
        } else if !self.taker.is_signer || self.maker != self.escrow.record.maker
            || self.taker_ata_b.owner != self.taker.key || self.maker_ata_b.owner
            != self.escrow.record.maker {
            Some(TakeError::IdentityMismatch)
        } else if self.mint_b != self.escrow.record.mint_b || self.taker_ata_b.mint
            != self.escrow.record.mint_b || self.maker_ata_b.mint != self.escrow.record.mint_b {
            Some(TakeError::AssetMismatch)
        } else if self.taker_ata_b.amount < amount {
            Some(TakeError::InsufficientFunds)
        } else if self.maker_ata_b.amount + amount > u64::MAX {
            Some(TakeError::Overflow)
        } else {
            None
        }
    }

    /// The settlement after `amount` of asset B has moved from the taker to the
    /// maker.
    pub open spec fn after_deposit(self, amount: u64) -> Take {
        Take {
            taker_ata_b: self.taker_ata_b.debited(amount),
            maker_ata_b: self.maker_ata_b.credited(amount),
            ..self
        }
    }

    /// Why the withdrawal of `amount` from the vault is refused when the
    /// derivation gave `authority`, or `None` if it goes through. The first
    /// reason that applies is the one reported.
    pub open spec fn withdraw_error(self, authority: Option<Seq<u8>>, amount: u64) -> Option<
        TakeError,
    > {
        if authority != Some(self.escrow.key@) || self.vault.holding.owner != self.escrow.key {
            Some(TakeError::DerivationMismatch)
        } else if !self.escrow.open || !self.vault.open {
            Some(TakeError::RecordAlreadyClosed)
        } else if self.taker_ata_a.owner != self.taker.key {
            Some(TakeError::IdentityMismatch)
        } else if self.mint_a != self.escrow.record.mint_a || self.vault.holding.mint
            != self.escrow.record.mint_a || self.taker_ata_a.mint != self.escrow.record.mint_a {
            Some(TakeError::AssetMismatch)
        } else if self.vault.holding.amount < amount {
            Some(TakeError::InsufficientFunds)
        } else if self.vault.holding.amount > amount {
            Some(TakeError::VaultNotEmptied)
        } else if self.taker_ata_a.amount + amount > u64::MAX || self.taker.lamports
            + self.vault.lamports > u64::MAX {
            Some(TakeError::Overflow)
        } else {
            None
        }
    }

    /// The settlement after `amount` has left the vault for the taker and the
    /// vault has been closed, its storage deposit paid out to the taker.
    pub open spec fn after_withdraw(self, amount: u64) -> Take {
        Take {
            taker: Signer {
                lamports: (self.taker.lamports + self.vault.lamports) as u64,
                ..self.taker
            },
            taker_ata_a: self.taker_ata_a.credited(amount),
            vault: Vault { holding: self.vault.holding.debited(amount), open: false, lamports: 0 },
            ..self
        }
    }

    /// Why the settlement is turned away before any asset moves, when the
    /// derivation gave `authority`, or `None` if it is admitted. A closed record
    /// is reported before anything else, then a wrong party, then a wrong asset,
    /// then a record or vault that the derivation does not reproduce.
    pub open spec fn admission_error(self, authority: Option<Seq<u8>>) -> Option<TakeError> {
        if !self.escrow.open || !self.vault.open {
            Some(TakeError::RecordAlreadyClosed)
        } else if !self.taker.is_signer || self.maker != self.escrow.record.maker
            || self.taker_ata_a.owner != self.taker.key || self.taker_ata_b.owner
            != self.taker.key || self.maker_ata_b.owner != self.escrow.record.maker {
            Some(TakeError::IdentityMismatch)
        } else if self.mint_a != self.escrow.record.mint_a || self.vault.holding.mint
            != self.escrow.record.mint_a || self.taker_ata_a.mint != self.escrow.record.mint_a
            || self.mint_b != self.escrow.record.mint_b || self.taker_ata_b.mint
            != self.escrow.record.mint_b || self.maker_ata_b.mint != self.escrow.record.mint_b {
            Some(TakeError::AssetMismatch)
        } else if authority != Some(self.escrow.key@) || self.vault.holding.owner
            != self.escrow.key {
            Some(TakeError::DerivationMismatch)
        } else {
            None
        }
    }

    /// Why the record cannot be torn down, or `None` if it can.
    pub open spec fn close_error(self) -> Option<TakeError> {
        if !self.escrow.open {
            Some(TakeError::RecordAlreadyClosed)
        } else if self.taker.lamports + self.escrow.lamports > u64::MAX {
            Some(TakeError::Overflow)
        } else {
            None
        }
    }

    /// The settlement after the record has been torn down, its storage deposit
    /// paid out to the taker.
    pub open spec fn after_close(self) -> Take {
        Take {
            taker: Signer {
                lamports: (self.taker.lamports + self.escrow.lamports) as u64,
                ..self.taker
            },
            escrow: EscrowAccount { open: false, lamports: 0, ..self.escrow },
            ..self
        }
    }

    /// What a settlement attempt comes to when the derivation gave `authority`:
    /// the settlement as it stands afterwards, or the reason why nothing
    /// happened. The attempt is admitted, pays the maker, empties and closes the
    /// vault and tears the record down, and the first step that is refused
    /// decides the answer.
    pub open spec fn settled(
        self,
        authority: Option<Seq<u8>>,
        deposit_amount: u64,
        withdraw_amount: u64,
    ) -> Result<Take, TakeError> {
        if let Some(e) = self.admission_error(authority) {
            Err(e)
        } else if let Some(e) = self.deposit_error(deposit_amount) {
            Err(e)
        } else if let Some(e) = self.after_deposit(deposit_amount).withdraw_error(
            authority,
            withdraw_amount,
        ) {
            Err(e)
        } else if let Some(e) = self.after_deposit(deposit_amount).after_withdraw(
            withdraw_amount,
        ).close_error() {
            Err(e)
        } else {
            Ok(self.after_deposit(deposit_amount).after_withdraw(withdraw_amount).after_close())
        }
    }

    /// What `take` comes to: `settled` under the authority that the record's own
    /// maker, seed and bump derive.
    pub open spec fn outcome(self, deposit_amount: u64, withdraw_amount: u64) -> Result<
        Take,
        TakeError,
    > {
        self.settled(self.derived_authority(), deposit_amount, withdraw_amount)
    }

    /// The settlement as an attempt leaves it: settled, or exactly as it was.
    pub open spec fn state_after(self, deposit_amount: u64, withdraw_amount: u64) -> Take {
        match self.outcome(deposit_amount, withdraw_amount) {
            Ok(after) => after,
            Err(_) => self,
        }
    }

    /// The record and its vault stand or fall together, and a closed vault
    /// holds nothing.
    pub open spec fn record_and_vault_agree(self) -> bool {
        &&& self.escrow.open == self.vault.open
        &&& !self.vault.open ==> self.vault.holding.amount == 0 && self.vault.lamports == 0
        &&& !self.escrow.open ==> self.escrow.lamports == 0
    }

    /// Value is conserved from `self` to `after`: asset B went from the taker to
    /// the maker, asset A from the vault, now empty, to the taker, both storage
    /// deposits to the taker, and nothing else is different but that the record
    /// and the vault are closed.
    pub open spec fn conserved_into(
        self,
        after: Take,
        deposit_amount: u64,
        withdraw_amount: u64,
    ) -> bool {
        &&& after.taker_ata_b.amount == self.taker_ata_b.amount - deposit_amount
        &&& after.maker_ata_b.amount == self.maker_ata_b.amount + deposit_amount
        &&& after.vault.holding.amount == self.vault.holding.amount - withdraw_amount
        &&& after.vault.holding.amount == 0
        &&& after.taker_ata_a.amount == self.taker_ata_a.amount + withdraw_amount
        &&& after.taker.lamports == self.taker.lamports + self.vault.lamports
            + self.escrow.lamports
        &&& after.vault.lamports == 0
        &&& after.escrow.lamports == 0
        &&& !after.vault.open
        &&& !after.escrow.open
        &&& after == Take {
            taker: Signer { lamports: after.taker.lamports, ..self.taker },
            escrow: EscrowAccount { open: false, lamports: 0, ..self.escrow },
            taker_ata_a: TokenHolding { amount: after.taker_ata_a.amount, ..self.taker_ata_a },
            taker_ata_b: TokenHolding { amount: after.taker_ata_b.amount, ..self.taker_ata_b },
            maker_ata_b: TokenHolding { amount: after.maker_ata_b.amount, ..self.maker_ata_b },
            vault: Vault {
                holding: TokenHolding { amount: 0, ..self.vault.holding },
                open: false,
                lamports: 0,
            },
            ..self
        }
    }

    /// Re-derives the authority over the vault from the record's maker, seed
    /// and bump.
    pub fn escrow_authority(&self) -> (r: Option<Address>)
        ensures
            address_bytes(r) == self.derived_authority(),
    {
        derive_escrow_authority(
            &self.program_id,
            &self.escrow.record.maker,
            self.escrow.record.seed,
            self.escrow.record.bump,
        )
    }

    /// Pays the maker: moves `deposit_amount` of asset B from the taker's holding
    /// to the maker's. The taker's own authorisation is all that it takes.
    pub fn deposit(&mut self, deposit_amount: u64) -> (r: Result<(), TakeError>)
        ensures
            match old(self).deposit_error(deposit_amount) {
                Some(e) => r == Err::<(), TakeError>(e) && *final(self) == *old(self),
                None => r == Ok::<(), TakeError>(()) && *final(self) == old(self).after_deposit(
                    deposit_amount,
                ),
            },
    {
        if !self.escrow.open {
            return Err(TakeError::RecordAlreadyClosed);
        }
        if !self.taker.is_signer || self.maker != self.escrow.record.maker
            || self.taker_ata_b.owner != self.taker.key || self.maker_ata_b.owner
            != self.escrow.record.maker {
            return Err(TakeError::IdentityMismatch);
        }
        if self.mint_b != self.escrow.record.mint_b || self.taker_ata_b.mint
            != self.escrow.record.mint_b || self.maker_ata_b.mint != self.escrow.record.mint_b {
            return Err(TakeError::AssetMismatch);
        }
        if self.taker_ata_b.amount < deposit_amount {
            return Err(TakeError::InsufficientFunds);
        }
        let credited: u64 = match self.maker_ata_b.amount.checked_add(deposit_amount) {
            Some(sum) => sum,
            None => {
                return Err(TakeError::Overflow);
            },
        };
        self.taker_ata_b.amount = self.taker_ata_b.amount - deposit_amount;
        self.maker_ata_b.amount = credited;
        Ok(())
    }

    /// Moves `withdraw_amount` of asset A from the vault to the taker and closes
    /// the vault, on the strength of `authority`, the outcome of the derivation.
    /// The whole balance has to leave, since only an empty vault can be closed.
    pub fn withdraw_and_close_vault_signed_by(
        &mut self,
        authority: Option<Address>,
        withdraw_amount: u64,
    ) -> (r: Result<(), TakeError>)
        ensures
            match old(self).withdraw_error(address_bytes(authority), withdraw_amount) {
                Some(e) => r == Err::<(), TakeError>(e) && *final(self) == *old(self),
                None => r == Ok::<(), TakeError>(()) && *final(self) == old(self).after_withdraw(
                    withdraw_amount,
                ),
            },
    {
        proof {
            Address::lemma_equal_by_bytes(self.vault.holding.owner, self.escrow.key);
        }
        match authority {
            Some(a) => {
                proof {
                    Address::lemma_equal_by_bytes(a, self.escrow.key);
                }
                if a != self.escrow.key || self.vault.holding.owner != self.escrow.key {
                    return Err(TakeError::DerivationMismatch);
                }
            },
            None => {
                return Err(TakeError::DerivationMismatch);
            },
        }
        if !self.escrow.open || !self.vault.open {
            return Err(TakeError::RecordAlreadyClosed);
        }
        if self.taker_ata_a.owner != self.taker.key {
            return Err(TakeError::IdentityMismatch);
        }
        if self.mint_a != self.escrow.record.mint_a || self.vault.holding.mint
            != self.escrow.record.mint_a || self.taker_ata_a.mint != self.escrow.record.mint_a {
            return Err(TakeError::AssetMismatch);
        }
        if self.vault.holding.amount < withdraw_amount {
            return Err(TakeError::InsufficientFunds);
        }
        if self.vault.holding.amount > withdraw_amount {
            return Err(TakeError::VaultNotEmptied);
        }
        let credited: u64 = match self.taker_ata_a.amount.checked_add(withdraw_amount) {
            Some(sum) => sum,
            None => {
                return Err(TakeError::Overflow);
            },
        };
        let refunded: u64 = match self.taker.lamports.checked_add(self.vault.lamports) {
            Some(sum) => sum,
            None => {
                return Err(TakeError::Overflow);
            },
        };
        self.vault.holding.amount = self.vault.holding.amount - withdraw_amount;
        self.taker_ata_a.amount = credited;
        self.taker.lamports = refunded;
        self.vault.lamports = 0;
        self.vault.open = false;
        Ok(())
    }

    /// Moves `withdraw_amount` of asset A from the vault to the taker and closes
    /// the vault. Nobody holds a key to the vault: the transfer is authorised by
    /// deriving the vault's authority again from the record.
    pub fn withdraw_and_close_vault(&mut self, withdraw_amount: u64) -> (r: Result<(), TakeError>)
        ensures
            match old(self).withdraw_error(old(self).derived_authority(), withdraw_amount) {
                Some(e) => r == Err::<(), TakeError>(e) && *final(self) == *old(self),
                None => r == Ok::<(), TakeError>(()) && *final(self) == old(self).after_withdraw(
                    withdraw_amount,
                ),
            },
    {
        let authority = self.escrow_authority();
        self.withdraw_and_close_vault_signed_by(authority, withdraw_amount)
    }

    /// Checks, before any asset moves, that the record is open, that each party
    /// and each asset is the one the record names, and that the record and its
    /// vault answer to `authority`, the outcome of the derivation.
    pub fn validate(&self, authority: Option<Address>) -> (r: Result<(), TakeError>)
        ensures
            match self.admission_error(address_bytes(authority)) {
                Some(e) => r == Err::<(), TakeError>(e),
                None => r == Ok::<(), TakeError>(()),
            },
    {
        if !self.escrow.open || !self.vault.open {
            return Err(TakeError::RecordAlreadyClosed);
        }
        if !self.taker.is_signer || self.maker != self.escrow.record.maker
            || self.taker_ata_a.owner != self.taker.key || self.taker_ata_b.owner
            != self.taker.key || self.maker_ata_b.owner != self.escrow.record.maker {
            return Err(TakeError::IdentityMismatch);
        }
        if self.mint_a != self.escrow.record.mint_a || self.vault.holding.mint
            != self.escrow.record.mint_a || self.taker_ata_a.mint != self.escrow.record.mint_a
            || self.mint_b != self.escrow.record.mint_b || self.taker_ata_b.mint
            != self.escrow.record.mint_b || self.maker_ata_b.mint != self.escrow.record.mint_b {
            return Err(TakeError::AssetMismatch);
        }
        proof {
            Address::lemma_equal_by_bytes(self.vault.holding.owner, self.escrow.key);
        }
        match authority {
            Some(a) => {
                proof {
                    Address::lemma_equal_by_bytes(a, self.escrow.key);
                }
                if a != self.escrow.key || self.vault.holding.owner != self.escrow.key {
                    return Err(TakeError::DerivationMismatch);
                }
            },
            None => {
                return Err(TakeError::DerivationMismatch);
            },
        }
        Ok(())
    }

    /// Tears the record down and pays its storage deposit out to the taker.
    pub fn close_escrow(&mut self) -> (r: Result<(), TakeError>)
        ensures
            match old(self).close_error() {
                Some(e) => r == Err::<(), TakeError>(e) && *final(self) == *old(self),
                None => r == Ok::<(), TakeError>(()) && *final(self) == old(self).after_close(),
            },
    {
        if !self.escrow.open {
            return Err(TakeError::RecordAlreadyClosed);
        }
        let refunded: u64 = match self.taker.lamports.checked_add(self.escrow.lamports) {
            Some(sum) => sum,
            None => {
                return Err(TakeError::Overflow);
            },
        };
        self.taker.lamports = refunded;
        self.escrow.lamports = 0;
        self.escrow.open = false;
        Ok(())
    }

    /// Settles the escrow on the strength of `authority`, the outcome of the
    /// derivation: pays the maker `deposit_amount` of asset B, hands the taker
    /// `withdraw_amount` of asset A out of the vault, closes the vault and tears
    /// the record down. All of it happens or none of it.
    pub fn take_signed_by(
        &mut self,
        authority: Option<Address>,
        deposit_amount: u64,
        withdraw_amount: u64,
    ) -> (r: Result<(), TakeError>)
        ensures
            match old(self).settled(address_bytes(authority), deposit_amount, withdraw_amount) {
                Ok(after) => r == Ok::<(), TakeError>(()) && *final(self) == after,
                Err(e) => r == Err::<(), TakeError>(e) && *final(self) == *old(self),
            },
            r is Ok ==> old(self).conserved_into(*final(self), deposit_amount, withdraw_amount),
    {
        let before = *self;
        if let Err(e) = self.validate(authority) {
            return Err(e);
        }
        if let Err(e) = self.deposit(deposit_amount) {
            return Err(e);
        }
        if let Err(e) = self.withdraw_and_close_vault_signed_by(authority, withdraw_amount) {
            *self = before;
            return Err(e);
        }
        if let Err(e) = self.close_escrow() {
            *self = before;
            return Err(e);
        }
        Ok(())
    }

    /// Settles the escrow: pays the maker `deposit_amount` of asset B, hands the
    /// taker `withdraw_amount` of asset A out of the vault, closes the vault and
    /// tears the record down. All of it happens or none of it.
    pub fn take(&mut self, deposit_amount: u64, withdraw_amount: u64) -> (r: Result<(), TakeError>)
        ensures
            match old(self).outcome(deposit_amount, withdraw_amount) {
                Ok(after) => r == Ok::<(), TakeError>(()) && *final(self) == after,
                Err(e) => r == Err::<(), TakeError>(e) && *final(self) == *old(self),
            },
            r is Ok ==> old(self).conserved_into(*final(self), deposit_amount, withdraw_amount),
    {
        let authority = self.escrow_authority();
        self.take_signed_by(authority, deposit_amount, withdraw_amount)
    }
}

} // verus!
