use vstd::prelude::*;

use crate::deposit_by_both_parties::party_account_ok;
use crate::error::ErrorCode;
use crate::state::EscrowRejected;
use crate::state::TokenAccount;
use crate::state::TransactionState;
use crate::utils::Stage;
use crate::utils::close_account;
use crate::utils::secure_transfer;

verus! {

/// Why pulling the deposits back would be rejected, or `None` when it goes
/// through. Checks in order: stage, the two refund accounts, then receiver
/// overflow.
pub open spec fn pull_back_err(
    state: TransactionState,
    escrow: TokenAccount,
    player_ata: TokenAccount,
    beneficiary_ata: TokenAccount,
) -> Option<ErrorCode> {
    if state.stage != Stage::FundsDeposited.spec_code() {
        Some(ErrorCode::StageInvalid)
    } else if !party_account_ok(state, player_ata, state.player) {
        Some(ErrorCode::AccountMismatch)
    } else if !party_account_ok(state, beneficiary_ata, state.beneficiary) {
        Some(ErrorCode::AccountMismatch)
    } else if player_ata.amount + state.amount_of_tokens > u64::MAX
        || beneficiary_ata.amount + state.amount_of_tokens > u64::MAX {
        Some(ErrorCode::ArithmeticOverflow)
    } else {
        None
    }
}

/// Cancel a funded deal: refund `amount_of_tokens` to the player and to the
/// beneficiary, each by its own checked transfer out of the escrow under the
/// record's derived authority, then close the emptied escrow account and
/// destroy the record. Only valid at stage `FundsDeposited`; the escrow
/// balance is exactly twice the per-party amount there (the record's
/// invariant), and both refunds together disburse it in full. The record and
/// escrow are consumed, so a completed pull-back can never be replayed; a
/// rejected call hands both back untouched in [`EscrowRejected`].
pub fn pull_back(
    state: TransactionState,
    escrow: TokenAccount,
    player_ata: &mut TokenAccount,
    beneficiary_ata: &mut TokenAccount,
) -> (r: Result<(), EscrowRejected>)
    requires
        state.wf_with_escrow(escrow),
    ensures
        match pull_back_err(state, escrow, *old(player_ata), *old(beneficiary_ata)) {
            Some(code) => {
                &&& r == Err::<(), EscrowRejected>((EscrowRejected { state, escrow, code }))
                &&& *final(player_ata) == *old(player_ata)
                &&& *final(beneficiary_ata) == *old(beneficiary_ata)
            },
            None => {
                &&& r == Ok::<(), EscrowRejected>(())
                &&& final(player_ata).amount == old(player_ata).amount
                    + state.amount_of_tokens
                &&& final(beneficiary_ata).amount == old(beneficiary_ata).amount
                    + state.amount_of_tokens
                &&& final(player_ata).amount + final(beneficiary_ata).amount
                    == old(player_ata).amount + old(beneficiary_ata).amount + escrow.amount
                &&& final(player_ata).key == old(player_ata).key
                &&& final(player_ata).mint == old(player_ata).mint
                &&& final(player_ata).owner == old(player_ata).owner
                &&& final(beneficiary_ata).key == old(beneficiary_ata).key
                &&& final(beneficiary_ata).mint == old(beneficiary_ata).mint
                &&& final(beneficiary_ata).owner == old(beneficiary_ata).owner
            },
        },
{
    match Stage::from(state.stage) {
        Ok(Stage::FundsDeposited) => {},
        _ => {
            return Err(EscrowRejected { state, escrow, code: ErrorCode::StageInvalid });
        },
    }
    if !(player_ata.owner == state.player && player_ata.mint == state.mint_of_token) {
        return Err(EscrowRejected { state, escrow, code: ErrorCode::AccountMismatch });
    }
    if !(beneficiary_ata.owner == state.beneficiary && beneficiary_ata.mint == state.mint_of_token)
    {
        return Err(EscrowRejected { state, escrow, code: ErrorCode::AccountMismatch });
    }
    match player_ata.amount.checked_add(state.amount_of_tokens) {
        None => {
            return Err(EscrowRejected { state, escrow, code: ErrorCode::ArithmeticOverflow });
        },
        Some(_) => {},
    }
    match beneficiary_ata.amount.checked_add(state.amount_of_tokens) {
        None => {
            return Err(EscrowRejected { state, escrow, code: ErrorCode::ArithmeticOverflow });
        },
        Some(_) => {},
    }
    // Defensive invariant of a funded deal: the custodied balance is exactly
    // twice the per-party deposit, so both refunds below must go through.
    assert(escrow.amount == 2 * state.amount_of_tokens);
    let mut escrow = escrow;
    match secure_transfer(state.amount_of_tokens, &mut escrow, player_ata, state.key) {
        Ok(()) => {},
        Err(_) => unreached(),
    }
    match secure_transfer(state.amount_of_tokens, &mut escrow, beneficiary_ata, state.key) {
        Ok(()) => {},
        Err(_) => unreached(),
    }
    match close_account(escrow, state.key) {
        Ok(()) => {},
        Err(_) => unreached(),
    }
    Ok(())
}

} // verus!
