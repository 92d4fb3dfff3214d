use vstd::prelude::*;

use crate::error::ErrorCode;
use crate::state::EscrowRejected;
use crate::state::Key;
use crate::state::TokenAccount;
use crate::state::TransactionState;
use crate::utils::Stage;
use crate::utils::close_account;
use crate::utils::secure_transfer;

verus! {

/// Why settling the escrow to `winner` would be rejected, or `None` when it
/// goes through. Checks in order: stage, the winner's receiving account, then
/// receiver overflow.
pub open spec fn settle_err(
    state: TransactionState,
    escrow: TokenAccount,
    winner: Key,
    winner_ata: TokenAccount,
) -> Option<ErrorCode> {
    if state.stage != Stage::FundsDeposited.spec_code() {
        Some(ErrorCode::StageInvalid)
    } else if !(winner_ata.owner == winner && winner_ata.mint == state.mint_of_token) {
        Some(ErrorCode::AccountMismatch)
    } else if winner_ata.amount + escrow.amount > u64::MAX {
        Some(ErrorCode::ArithmeticOverflow)
    } else {
        None
    }
}

/// Disburse the whole escrow — exactly `2 * amount_of_tokens` — to the
/// winner's token account, authorized by the record's derived authority, then
/// close the emptied escrow account and destroy the record. Only valid at
/// stage `FundsDeposited`. The record and escrow account are consumed, so a
/// completed settlement can never be replayed; a rejected call hands both
/// back untouched in [`EscrowRejected`]. On success the returned value is the
/// amount paid out.
pub fn transfer_to_winner(
    state: TransactionState,
    escrow: TokenAccount,
    winner: Key,
    winner_ata: &mut TokenAccount,
) -> (r: Result<u64, EscrowRejected>)
    requires
        state.wf_with_escrow(escrow),
    ensures
        match settle_err(state, escrow, winner, *old(winner_ata)) {
            Some(code) => {
                &&& r == Err::<u64, EscrowRejected>((EscrowRejected { state, escrow, code }))
                &&& *final(winner_ata) == *old(winner_ata)
            },
            None => {
                &&& r == Ok::<u64, EscrowRejected>(escrow.amount)
                &&& escrow.amount == 2 * state.amount_of_tokens
                &&& final(winner_ata).amount == old(winner_ata).amount
                    + 2 * state.amount_of_tokens
                &&& final(winner_ata).key == old(winner_ata).key
                &&& final(winner_ata).mint == old(winner_ata).mint
                &&& final(winner_ata).owner == old(winner_ata).owner
            },
        },
{
    match Stage::from(state.stage) {
        Ok(Stage::FundsDeposited) => {},
        _ => {
            return Err(EscrowRejected { state, escrow, code: ErrorCode::StageInvalid });
        },
    }
    if !(winner_ata.owner == winner && winner_ata.mint == state.mint_of_token) {
        return Err(EscrowRejected { state, escrow, code: ErrorCode::AccountMismatch });
    }
    match winner_ata.amount.checked_add(escrow.amount) {
        None => {
            return Err(EscrowRejected { state, escrow, code: ErrorCode::ArithmeticOverflow });
        },
        Some(_) => {},
    }
    let mut state = state;
    let mut escrow = escrow;
    let payout = 2 * state.amount_of_tokens;
    match secure_transfer(payout, &mut escrow, winner_ata, state.key) {
        Ok(()) => {},
        Err(_) => unreached(),
    }
    state.stage = Stage::EscrowComplete.to_code();
    match close_account(escrow, state.key) {
        Ok(()) => {},
        Err(_) => unreached(),
    }
    Ok(payout)
}

} // verus!
