use vstd::prelude::*;

use crate::error::ErrorCode;
use crate::state::Key;
use crate::state::TokenAccount;
use crate::state::TransactionState;
use crate::utils::Stage;
use crate::utils::secure_transfer;

verus! {

/// `ata` is a depositor's token account usable for this deal: owned by
/// `party` and holding the escrowed mint.
pub open spec fn party_account_ok(state: TransactionState, ata: TokenAccount, party: Key) -> bool {
    ata.owner == party && ata.mint == state.mint_of_token
}

/// Why a deposit of `amount` per party would be rejected, or `None` when it
/// goes through. Checks in order: stage, the two depositor accounts, both
/// balances, then escrow overflow.
pub open spec fn deposit_err(
    state: TransactionState,
    escrow: TokenAccount,
    player_ata: TokenAccount,
    beneficiary_ata: TokenAccount,
    amount: u64,
) -> Option<ErrorCode> {
    if state.stage != Stage::Initialized.spec_code() {
        Some(ErrorCode::StageInvalid)
    } else if !party_account_ok(state, player_ata, state.player) {
        Some(ErrorCode::AccountMismatch)
    } else if !party_account_ok(state, beneficiary_ata, state.beneficiary) {
        Some(ErrorCode::AccountMismatch)
    } else if player_ata.amount < amount || beneficiary_ata.amount < amount {
        Some(ErrorCode::InsufficientBalance)
    } else if escrow.amount + amount + amount > u64::MAX {
        Some(ErrorCode::ArithmeticOverflow)
    } else {
        None
    }
}

/// Both parties fund the escrow with the same `amount`, each transfer
/// authorized by its own depositor. Only valid at stage `Initialized`; on
/// success the deposit amount is recorded, the stage moves to
/// `FundsDeposited`, and the escrow balance is exactly `2 * amount` (it was
/// empty before). The call is atomic: a rejected deposit leaves the record
/// and all three balances untouched.
pub fn deposit_by_both_parties(
    state: &mut TransactionState,
    escrow: &mut TokenAccount,
    player_ata: &mut TokenAccount,
    beneficiary_ata: &mut TokenAccount,
    amount: u64,
) -> (r: Result<(), ErrorCode>)
    requires
        old(state).wf_with_escrow(*old(escrow)),
    ensures
        final(state).wf_with_escrow(*final(escrow)),
        match deposit_err(*old(state), *old(escrow), *old(player_ata), *old(beneficiary_ata), amount) {
            Some(code) => {
                &&& r == Err::<(), ErrorCode>(code)
                &&& *final(state) == *old(state)
                &&& *final(escrow) == *old(escrow)
                &&& *final(player_ata) == *old(player_ata)
                &&& *final(beneficiary_ata) == *old(beneficiary_ata)
            },
            None => {
                &&& r == Ok::<(), ErrorCode>(())
                &&& final(state).stage == Stage::FundsDeposited.spec_code()
                &&& final(state).amount_of_tokens == amount
                &&& final(state).key == old(state).key
                &&& final(state).player == old(state).player
                &&& final(state).beneficiary == old(state).beneficiary
                &&& final(state).mint_of_token == old(state).mint_of_token
                &&& final(state).escrow_account == old(state).escrow_account
                &&& final(state).state_bump == old(state).state_bump
                &&& final(state).escrow_bump == old(state).escrow_bump
                &&& final(escrow).amount == 2 * amount
                &&& final(player_ata).amount == old(player_ata).amount - amount
                &&& final(beneficiary_ata).amount == old(beneficiary_ata).amount - amount
                &&& final(escrow).amount + final(player_ata).amount + final(beneficiary_ata).amount
                    == old(escrow).amount + old(player_ata).amount + old(beneficiary_ata).amount
                &&& final(escrow).key == old(escrow).key
                &&& final(escrow).mint == old(escrow).mint
                &&& final(escrow).owner == old(escrow).owner
                &&& final(player_ata).key == old(player_ata).key
                &&& final(player_ata).mint == old(player_ata).mint
                &&& final(player_ata).owner == old(player_ata).owner
                &&& final(beneficiary_ata).key == old(beneficiary_ata).key
                &&& final(beneficiary_ata).mint == old(beneficiary_ata).mint
                &&& final(beneficiary_ata).owner == old(beneficiary_ata).owner
            },
        },
{
    match Stage::from(state.stage) {
        Ok(Stage::Initialized) => {},
        _ => {
            return Err(ErrorCode::StageInvalid);
        },
    }
    if !(player_ata.owner == state.player && player_ata.mint == state.mint_of_token) {
        return Err(ErrorCode::AccountMismatch);
    }
    if !(beneficiary_ata.owner == state.beneficiary && beneficiary_ata.mint == state.mint_of_token) {
        return Err(ErrorCode::AccountMismatch);
    }
    if player_ata.amount < amount || beneficiary_ata.amount < amount {
        return Err(ErrorCode::InsufficientBalance);
    }
    match escrow.amount.checked_add(amount) {
        None => {
            return Err(ErrorCode::ArithmeticOverflow);
        },
        Some(after_first) => {
            match after_first.checked_add(amount) {
                None => {
                    return Err(ErrorCode::ArithmeticOverflow);
                },
                Some(_) => {},
            }
        },
    }
    // Both transfers are now known to go through, so the call commits as one
    // atomic unit.
    secure_transfer(amount, player_ata, escrow, state.player)?;
    secure_transfer(amount, beneficiary_ata, escrow, state.beneficiary)?;
    state.amount_of_tokens = amount;
    state.stage = Stage::FundsDeposited.to_code();
    Ok(())
}

/// A deposit is accepted only at stage `Initialized`: on a record in any
/// other stage — in particular one already funded by an earlier deposit —
/// the call is rejected as `StageInvalid` whatever the accounts and amount.
pub proof fn lemma_deposit_requires_initialized(
    state: TransactionState,
    escrow: TokenAccount,
    player_ata: TokenAccount,
    beneficiary_ata: TokenAccount,
    amount: u64,
)
    requires
        state.stage != Stage::Initialized.spec_code(),
    ensures
        deposit_err(state, escrow, player_ata, beneficiary_ata, amount)
            == Some(ErrorCode::StageInvalid),
{
}

} // verus!
