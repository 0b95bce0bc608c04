use crate::state::TakeError;
use crate::take::Take;
use vstd::prelude::*;

verus! {

/// Conservation. Every settlement that succeeds takes exactly the deposit from
/// the taker's asset B and gives it to the maker, takes exactly the withdrawal
/// from the vault, which is thereby empty, and gives it to the taker's asset A,
/// and pays both storage deposits to the taker.
pub proof fn lemma_settlement_conserves(
    before: Take,
    authority: Option<Seq<u8>>,
    deposit_amount: u64,
    withdraw_amount: u64,
)
    requires
        before.settled(authority, deposit_amount, withdraw_amount) is Ok,
    ensures
        before.conserved_into(
            before.settled(authority, deposit_amount, withdraw_amount)->Ok_0,
            deposit_amount,
            withdraw_amount,
        ),
        withdraw_amount == before.vault.holding.amount,
        deposit_amount <= before.taker_ata_b.amount,
{
}

/// No asset is made or lost. Across a settlement that succeeds, what the taker
/// and the maker hold of asset B together, what the vault and the taker hold of
/// asset A together, and the storage deposits of taker, vault and record
/// together are each the same afterwards as before.
pub proof fn lemma_settlement_keeps_totals(
    before: Take,
    authority: Option<Seq<u8>>,
    deposit_amount: u64,
    withdraw_amount: u64,
)
    requires
        before.settled(authority, deposit_amount, withdraw_amount) is Ok,
    ensures
        ({
            let after = before.settled(authority, deposit_amount, withdraw_amount)->Ok_0;
            &&& after.taker_ata_b.amount + after.maker_ata_b.amount == before.taker_ata_b.amount
                + before.maker_ata_b.amount
            &&& after.vault.holding.amount + after.taker_ata_a.amount
                == before.vault.holding.amount + before.taker_ata_a.amount
            &&& after.taker.lamports + after.vault.lamports + after.escrow.lamports
                == before.taker.lamports + before.vault.lamports + before.escrow.lamports
        }),
{
}

/// A settlement succeeds exactly when it is admitted, the taker can pay the
/// deposit, the withdrawal is the vault's whole balance, and no receiving
/// balance would overflow.
pub proof fn lemma_settlement_succeeds_iff(
    before: Take,
    authority: Option<Seq<u8>>,
    deposit_amount: u64,
    withdraw_amount: u64,
)
    ensures
        before.settled(authority, deposit_amount, withdraw_amount) is Ok <==> {
            &&& before.admission_error(authority) is None
            &&& deposit_amount <= before.taker_ata_b.amount
            &&& before.maker_ata_b.amount + deposit_amount <= u64::MAX
            &&& withdraw_amount == before.vault.holding.amount
            &&& before.taker_ata_a.amount + withdraw_amount <= u64::MAX
            &&& before.taker.lamports + before.vault.lamports + before.escrow.lamports
                <= u64::MAX
        },
{
}

/// No refusal without its reason. A settlement is refused as already closed
/// only where the record or its vault is closed, as a derivation mismatch only
/// where the record or the vault does not answer to the derived authority, for
/// want of funds only where more is asked of a holding than it has, and as not
/// emptying the vault only where the withdrawal is less than the vault holds.
pub proof fn lemma_refusals_are_justified(
    before: Take,
    authority: Option<Seq<u8>>,
    deposit_amount: u64,
    withdraw_amount: u64,
)
    ensures
        before.settled(authority, deposit_amount, withdraw_amount) == Err::<Take, TakeError>(
            TakeError::RecordAlreadyClosed,
        ) <==> !before.escrow.open || !before.vault.open,
        before.settled(authority, deposit_amount, withdraw_amount) == Err::<Take, TakeError>(
            TakeError::DerivationMismatch,
        ) ==> authority != Some(before.escrow.key@) || before.vault.holding.owner
            != before.escrow.key,
        before.settled(authority, deposit_amount, withdraw_amount) == Err::<Take, TakeError>(
            TakeError::IdentityMismatch,
        ) ==> !before.taker.is_signer || before.maker != before.escrow.record.maker
            || before.taker_ata_a.owner != before.taker.key || before.taker_ata_b.owner
            != before.taker.key || before.maker_ata_b.owner != before.escrow.record.maker,
        before.settled(authority, deposit_amount, withdraw_amount) == Err::<Take, TakeError>(
            TakeError::InsufficientFunds,
        ) ==> deposit_amount > before.taker_ata_b.amount || withdraw_amount
            > before.vault.holding.amount,
        before.settled(authority, deposit_amount, withdraw_amount) == Err::<Take, TakeError>(
            TakeError::VaultNotEmptied,
        ) ==> withdraw_amount < before.vault.holding.amount,
        before.settled(authority, deposit_amount, withdraw_amount) == Err::<Take, TakeError>(
            TakeError::Overflow,
        ) ==> before.maker_ata_b.amount + deposit_amount > u64::MAX || before.taker_ata_a.amount
            + withdraw_amount > u64::MAX || before.taker.lamports + before.vault.lamports
            + before.escrow.lamports > u64::MAX,
{
}

/// Atomicity. Where the maker could be paid but the withdrawal from the vault
/// is refused, the settlement as a whole is refused for the same reason, and
/// it leaves everything as it was: the payment is not to be seen.
pub proof fn lemma_refused_withdrawal_undoes_deposit(
    before: Take,
    deposit_amount: u64,
    withdraw_amount: u64,
    e: TakeError,
)
    requires
        before.admission_error(before.derived_authority()) is None,
        before.deposit_error(deposit_amount) is None,
        before.after_deposit(deposit_amount).withdraw_error(
            before.derived_authority(),
            withdraw_amount,
        ) == Some(e),
    ensures
        before.outcome(deposit_amount, withdraw_amount) == Err::<Take, TakeError>(e),
        before.state_after(deposit_amount, withdraw_amount) == before,
        before.state_after(deposit_amount, withdraw_amount).taker_ata_b.amount
            == before.taker_ata_b.amount,
        before.state_after(deposit_amount, withdraw_amount).maker_ata_b.amount
            == before.maker_ata_b.amount,
{
}

/// A refused settlement, whatever the reason, leaves everything as it was.
pub proof fn lemma_refusal_changes_nothing(
    before: Take,
    deposit_amount: u64,
    withdraw_amount: u64,
)
    requires
        before.outcome(deposit_amount, withdraw_amount) is Err,
    ensures
        before.state_after(deposit_amount, withdraw_amount) == before,
{
}

/// Single settlement. Once a settlement has succeeded, the record is closed,
/// and every further attempt on it, whatever it asks for, is refused as already
/// closed and changes nothing.
pub proof fn lemma_settles_at_most_once(
    before: Take,
    deposit_amount: u64,
    withdraw_amount: u64,
    next_deposit: u64,
    next_withdraw: u64,
)
    requires
        before.outcome(deposit_amount, withdraw_amount) is Ok,
    ensures
        ({
            let after = before.state_after(deposit_amount, withdraw_amount);
            &&& !after.escrow.open
            &&& after.outcome(next_deposit, next_withdraw) == Err::<Take, TakeError>(
                TakeError::RecordAlreadyClosed,
            )
            &&& after.state_after(next_deposit, next_withdraw) == after
        }),
{
}

/// An attempt on a closed record is refused as already closed, whoever makes
/// it and whatever the derivation gives.
pub proof fn lemma_closed_record_refuses(
    s: Take,
    authority: Option<Seq<u8>>,
    deposit_amount: u64,
    withdraw_amount: u64,
)
    requires
        !s.escrow.open,
    ensures
        s.settled(authority, deposit_amount, withdraw_amount) == Err::<Take, TakeError>(
            TakeError::RecordAlreadyClosed,
        ),
        s.deposit_error(deposit_amount) == Some(TakeError::RecordAlreadyClosed),
        s.close_error() == Some(TakeError::RecordAlreadyClosed),
{
}

/// Authority exclusivity. A vault whose authority is not the one that the
/// record derives cannot be withdrawn from: the attempt is refused as a
/// derivation mismatch, and a settlement over such a vault is refused too.
pub proof fn lemma_foreign_vault_authority_refused(
    s: Take,
    authority: Option<Seq<u8>>,
    deposit_amount: u64,
    withdraw_amount: u64,
)
    requires
        authority != Some(s.vault.holding.owner@),
    ensures
        s.withdraw_error(authority, withdraw_amount) == Some(TakeError::DerivationMismatch),
        s.settled(authority, deposit_amount, withdraw_amount) is Err,
        s.admission_error(authority) is Some,
{
    crate::address::Address::lemma_equal_by_bytes(s.vault.holding.owner, s.escrow.key);
}

/// Idempotent failure. A refused settlement, asked for again with the same
/// amounts, is refused again for the same reason, and still nothing has changed.
pub proof fn lemma_refusal_repeats(
    before: Take,
    deposit_amount: u64,
    withdraw_amount: u64,
    e: TakeError,
)
    requires
        before.outcome(deposit_amount, withdraw_amount) == Err::<Take, TakeError>(e),
    ensures
        ({
            let after = before.state_after(deposit_amount, withdraw_amount);
            &&& after == before
            &&& after.outcome(deposit_amount, withdraw_amount) == Err::<Take, TakeError>(e)
            &&& after.state_after(deposit_amount, withdraw_amount) == before
        }),
{
}

/// The record and its vault stand or fall together: an attempt on a settlement
/// in which they agree leaves one in which they agree, so the record is never
/// gone while the vault holds assets, nor the vault gone while the record stands.
pub proof fn lemma_record_and_vault_close_together(
    before: Take,
    deposit_amount: u64,
    withdraw_amount: u64,
)
    requires
        before.record_and_vault_agree(),
    ensures
        before.state_after(deposit_amount, withdraw_amount).record_and_vault_agree(),
{
}

/// A holding of the wrong asset is turned away: where the vault, or the
/// taker's receiving holding, does not hold the record's asset A, or a paying
/// or receiving holding does not hold its asset B, nothing is settled.
pub proof fn lemma_wrong_asset_refused(
    s: Take,
    authority: Option<Seq<u8>>,
    deposit_amount: u64,
    withdraw_amount: u64,
)
    requires
        s.vault.holding.mint != s.escrow.record.mint_a || s.taker_ata_a.mint
            != s.escrow.record.mint_a || s.taker_ata_b.mint != s.escrow.record.mint_b
            || s.maker_ata_b.mint != s.escrow.record.mint_b,
    ensures
        s.settled(authority, deposit_amount, withdraw_amount) is Err,
{
}

} // verus!
