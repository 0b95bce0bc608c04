use crate::address::Address;
use vstd::prelude::*;

verus! {

/// Why a settlement step was refused. A refused step changes nothing.
#[derive(Clone, Copy, Debug, PartialEq, Eq, Structural)]
pub enum TakeError {
    /// A party is not who the record expects: the taker has not authorised the
    /// call, the maker named is not the record's maker, or a holding belongs to
    /// someone other than the party it was passed for.
    IdentityMismatch,
    /// An asset type named, or held by a holding, is not the record's.
    AssetMismatch,
    /// The record's address, or the vault's authority, does not reproduce from
    /// the record's maker, seed and bump.
    DerivationMismatch,
    /// The amount asked for exceeds what the source holding has.
    InsufficientFunds,
    /// The record, or its vault, has already been settled.
    RecordAlreadyClosed,
    /// The withdrawal would leave assets in the vault, which therefore cannot
    /// be closed.
    VaultNotEmptied,
    /// A receiving balance would exceed the largest amount a holding can have.
    Overflow,
}

/// The terms of one pending swap, fixed when the escrow was opened.
#[derive(Clone, Copy, Debug, PartialEq, Eq)]
pub struct Escrow {
    /// The nonce the maker chose, so that one maker can have many escrows.
    pub seed: u64,
    /// The party who funded the vault.
    pub maker: Address,
    /// The asset that waits in the vault.
    pub mint_a: Address,
    /// The asset that the maker asks for in return.
    pub mint_b: Address,
    /// The adjustment that made the derived address a valid authority.
    pub bump: u8,
}

/// An escrow record as it is stored: its address, whether it is still open,
/// the storage deposit that it holds, and its terms.
#[derive(Clone, Copy, Debug, PartialEq, Eq)]
pub struct EscrowAccount {
    /// The address under which the record is stored. It is also the authority
    /// over the vault, and has to derive from the record's maker, seed and bump.
    pub key: Address,
    /// Whether the record still stands. A settled record is closed for good.
    pub open: bool,
    /// The storage deposit behind the record, paid out when it is torn down.
    pub lamports: u64,
    pub record: Escrow,
}

/// A holding of one asset type by one authority.
#[derive(Clone, Copy, Debug, PartialEq, Eq)]
pub struct TokenHolding {
    /// The asset type held.
    pub mint: Address,
    /// The authority that may spend from the holding.
    pub owner: Address,
    /// The balance.
    pub amount: u64,
}

/// The custody holding of an escrow, with the storage deposit behind it.
#[derive(Clone, Copy, Debug, PartialEq, Eq)]
pub struct Vault {
    pub holding: TokenHolding,
    /// Whether the vault still exists.
    pub open: bool,
    /// The storage deposit behind the vault, paid out when it is closed.
    pub lamports: u64,
}

/// The party that submits the settlement.
#[derive(Clone, Copy, Debug, PartialEq, Eq)]
pub struct Signer {
    pub key: Address,
    /// Whether the party has authorised this call.
    pub is_signer: bool,
    /// The party's own balance, into which storage deposits are paid out.
    pub lamports: u64,
}

impl TokenHolding {
    /// This holding with `amount` more in it.
    pub open spec fn credited(self, amount: u64) -> TokenHolding
        recommends
            self.amount + amount <= u64::MAX,
    {
        TokenHolding { amount: (self.amount + amount) as u64, ..self }
    }

    /// This holding with `amount` less in it.
    pub open spec fn debited(self, amount: u64) -> TokenHolding
        recommends
            amount <= self.amount,
    {
        TokenHolding { amount: (self.amount - amount) as u64, ..self }
    }
}

} // verus!
