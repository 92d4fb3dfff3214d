use vstd::prelude::*;

use crate::state::Key;
use crate::state::TokenAccount;
use crate::state::TransactionState;
use crate::utils::Stage;

verus! {

/// Create a new escrow deal between `player` and `beneficiary` over
/// `mint_of_token`: a record at stage `Initialized` with the deposit amount
/// unset, and an empty escrow account owned by the record's derived
/// authority. The ledger assigns the two addresses and the derivation bytes;
/// it is also what rejects a duplicate record for the same key triple (the
/// failure [`crate::error::ErrorCode::AlreadyExists`] stands for), so
/// uniqueness is not re-checked here.
pub fn transaction_setup(
    player: Key,
    beneficiary: Key,
    mint_of_token: Key,
    state_key: Key,
    escrow_key: Key,
    state_bump: u8,
    escrow_bump: u8,
) -> (r: (TransactionState, TokenAccount))
    ensures
        r.0 == (TransactionState {
            key: state_key,
            player,
            beneficiary,
            mint_of_token,
            escrow_account: escrow_key,
            amount_of_tokens: 0u64,
            stage: Stage::Initialized.spec_code(),
            state_bump,
            escrow_bump,
        }),
        r.1 == (TokenAccount { key: escrow_key, mint: mint_of_token, owner: state_key, amount: 0u64 }),
        r.0.wf_with_escrow(r.1),
{
    let escrow_account = TokenAccount { key: escrow_key, mint: mint_of_token, owner: state_key, amount: 0 };
    let state = TransactionState {
        key: state_key,
        player,
        beneficiary,
        mint_of_token,
        escrow_account: escrow_key,
        amount_of_tokens: 0,
        stage: Stage::Initialized.to_code(),
        state_bump,
        escrow_bump,
    };
    (state, escrow_account)
}

} // verus!
