use vstd::prelude::*;

use crate::error::ErrorCode;
use crate::state::Key;
use crate::state::MarketState;
use crate::state::TokenAccount;

verus! {

/// Create a new market with swap fee `fee_numerator / fee_denominator`
/// between `token_mint` and `sol_mint`, together with its two empty vaults,
/// both owned by the market's derived authority. A zero fee denominator is
/// rejected up front as `DivisionByZero` — it is the divisor of every later
/// fee computation. The ledger assigns the addresses and derivation bytes.
pub fn amm_setup(
    fee_numerator: u64,
    fee_denominator: u64,
    market_key: Key,
    token_mint: Key,
    sol_mint: Key,
    token_vault_key: Key,
    sol_vault_key: Key,
    state_bump: u8,
    token_vault_bump: u8,
    sol_vault_bump: u8,
) -> (r: Result<(MarketState, TokenAccount, TokenAccount), ErrorCode>)
    ensures
        fee_denominator == 0 ==> r == Err::<(MarketState, TokenAccount, TokenAccount), ErrorCode>(
            ErrorCode::DivisionByZero,
        ),
        fee_denominator != 0 ==> r == Ok::<(MarketState, TokenAccount, TokenAccount), ErrorCode>(
            (
                (MarketState {
                    key: market_key,
                    token_mint,
                    sol_mint,
                    fee_numerator,
                    fee_denominator,
                    state_bump,
                    token_vault_bump,
                    sol_vault_bump,
                }),
                (TokenAccount {
                    key: token_vault_key,
                    mint: token_mint,
                    owner: market_key,
                    amount: 0u64,
                }),
                (TokenAccount {
                    key: sol_vault_key,
                    mint: sol_mint,
                    owner: market_key,
                    amount: 0u64,
                }),
            ),
        ),
{
    if fee_denominator == 0 {
        return Err(ErrorCode::DivisionByZero);
    }
    let market_state = MarketState {
        key: market_key,
        token_mint,
        sol_mint,
        fee_numerator,
        fee_denominator,
        state_bump,
        token_vault_bump,
        sol_vault_bump,
    };
    let token_vault = TokenAccount {
        key: token_vault_key,
        mint: token_mint,
        owner: market_key,
        amount: 0,
    };
    let sol_vault = TokenAccount { key: sol_vault_key, mint: sol_mint, owner: market_key, amount: 0 };
    Ok((market_state, token_vault, sol_vault))
}

} // verus!
