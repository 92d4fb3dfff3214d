use vstd::prelude::*;

use crate::error::ErrorCode;
use crate::state::Key;
use crate::state::MarketState;
use crate::state::TokenAccount;
use crate::utils::secure_transfer;

verus! {

/// The very first liquidity event of a market: both vaults still empty.
pub open spec fn initial_liquidity_addition(
    token_vault: TokenAccount,
    sol_vault: TokenAccount,
) -> bool {
    token_vault.amount == 0 && sol_vault.amount == 0
}

/// Quote amount a liquidity addition deposits alongside `token_amount`.
/// On the first addition it is the supplied `sol_amount` — that pair fixes
/// the market's initial price ratio. Afterwards the token amount drives it:
/// `token_amount * (sol_vault / token_vault)`, with the exchange rate taken
/// by integer division first, truncating toward zero.
pub open spec fn spec_sol_deposit_amount(
    token_vault: TokenAccount,
    sol_vault: TokenAccount,
    token_amount: u64,
    sol_amount: u64,
) -> int {
    if initial_liquidity_addition(token_vault, sol_vault) {
        sol_amount as int
    } else {
        token_amount * ((sol_vault.amount as int) / (token_vault.amount as int))
    }
}

/// Why a liquidity addition would be rejected, or `None` when it goes
/// through. Checks in order: the four accounts, the exchange-rate divisor,
/// the quote-amount width, the depositor's two balances, then vault overflow.
pub open spec fn liquidity_err(
    market: MarketState,
    token_vault: TokenAccount,
    sol_vault: TokenAccount,
    beneficiary_token_ata: TokenAccount,
    beneficiary_sol_ata: TokenAccount,
    beneficiary: Key,
    token_amount: u64,
    sol_amount: u64,
) -> Option<ErrorCode> {
    let sol_deposit = spec_sol_deposit_amount(token_vault, sol_vault, token_amount, sol_amount);
    if !(market.owns_token_vault(token_vault) && market.owns_sol_vault(sol_vault)
        && beneficiary_token_ata.owner == beneficiary
        && beneficiary_token_ata.mint == market.token_mint
        && beneficiary_sol_ata.owner == beneficiary
        && beneficiary_sol_ata.mint == market.sol_mint) {
        Some(ErrorCode::AccountMismatch)
    } else if token_vault.amount == 0 && sol_vault.amount != 0 {
        Some(ErrorCode::DivisionByZero)
    } else if sol_deposit > u64::MAX {
        Some(ErrorCode::ArithmeticOverflow)
    } else if sol_deposit > beneficiary_sol_ata.amount {
        Some(ErrorCode::InsufficientBalance)
    } else if token_amount > beneficiary_token_ata.amount {
        Some(ErrorCode::InsufficientBalance)
    } else if token_vault.amount + token_amount > u64::MAX
        || sol_vault.amount + sol_deposit > u64::MAX {
        Some(ErrorCode::ArithmeticOverflow)
    } else {
        None
    }
}

/// Add liquidity to a market under the depositor's own authority. The first
/// addition deposits `token_amount` and `sol_amount` exactly as supplied,
/// fixing the initial price ratio; every later addition is driven by
/// `token_amount` alone and deposits the quote amount given by
/// [`spec_sol_deposit_amount`]. Both transfers commit atomically: a rejected
/// call leaves all four balances untouched.
pub fn add_liquidity(
    market: &MarketState,
    token_vault: &mut TokenAccount,
    sol_vault: &mut TokenAccount,
    beneficiary_token_ata: &mut TokenAccount,
    beneficiary_sol_ata: &mut TokenAccount,
    beneficiary: Key,
    token_amount: u64,
    sol_amount: u64,
) -> (r: Result<(), ErrorCode>)
    ensures
        match liquidity_err(
            *market,
            *old(token_vault),
            *old(sol_vault),
            *old(beneficiary_token_ata),
            *old(beneficiary_sol_ata),
            beneficiary,
            token_amount,
            sol_amount,
        ) {
            Some(code) => {
                &&& r == Err::<(), ErrorCode>(code)
                &&& *final(token_vault) == *old(token_vault)
                &&& *final(sol_vault) == *old(sol_vault)
                &&& *final(beneficiary_token_ata) == *old(beneficiary_token_ata)
                &&& *final(beneficiary_sol_ata) == *old(beneficiary_sol_ata)
            },
            None => {
                let sol_deposit = spec_sol_deposit_amount(
                    *old(token_vault),
                    *old(sol_vault),
                    token_amount,
                    sol_amount,
                );
                &&& r == Ok::<(), ErrorCode>(())
                &&& final(token_vault).amount == old(token_vault).amount + token_amount
                &&& final(sol_vault).amount == old(sol_vault).amount + sol_deposit
                &&& final(beneficiary_token_ata).amount == old(beneficiary_token_ata).amount
                    - token_amount
                &&& final(beneficiary_sol_ata).amount == old(beneficiary_sol_ata).amount
                    - sol_deposit
                &&& final(token_vault).key == old(token_vault).key
                &&& final(token_vault).mint == old(token_vault).mint
                &&& final(token_vault).owner == old(token_vault).owner
                &&& final(sol_vault).key == old(sol_vault).key
                &&& final(sol_vault).mint == old(sol_vault).mint
                &&& final(sol_vault).owner == old(sol_vault).owner
                &&& final(beneficiary_token_ata).key == old(beneficiary_token_ata).key
                &&& final(beneficiary_token_ata).mint == old(beneficiary_token_ata).mint
                &&& final(beneficiary_token_ata).owner == old(beneficiary_token_ata).owner
                &&& final(beneficiary_sol_ata).key == old(beneficiary_sol_ata).key
                &&& final(beneficiary_sol_ata).mint == old(beneficiary_sol_ata).mint
                &&& final(beneficiary_sol_ata).owner == old(beneficiary_sol_ata).owner
            },
        },
{
    if !(token_vault.owner == market.key && token_vault.mint == market.token_mint) {
        return Err(ErrorCode::AccountMismatch);
    }
    if !(sol_vault.owner == market.key && sol_vault.mint == market.sol_mint) {
        return Err(ErrorCode::AccountMismatch);
    }
    if !(beneficiary_token_ata.owner == beneficiary && beneficiary_token_ata.mint
        == market.token_mint) {
        return Err(ErrorCode::AccountMismatch);
    }
    if !(beneficiary_sol_ata.owner == beneficiary && beneficiary_sol_ata.mint == market.sol_mint) {
        return Err(ErrorCode::AccountMismatch);
    }
    let curr_token_in_vault = token_vault.amount;
    let curr_sol_in_vault = sol_vault.amount;
    let initial_liquidity = curr_token_in_vault == 0 && curr_sol_in_vault == 0;
    let sol_deposit_amount: u64 = if initial_liquidity {
        sol_amount
    } else {
        if curr_token_in_vault == 0 {
            return Err(ErrorCode::DivisionByZero);
        }
        let exchange_rate = curr_sol_in_vault / curr_token_in_vault;
        match token_amount.checked_mul(exchange_rate) {
            None => {
                return Err(ErrorCode::ArithmeticOverflow);
            },
            Some(amount) => amount,
        }
    };
    if sol_deposit_amount > beneficiary_sol_ata.amount {
        return Err(ErrorCode::InsufficientBalance);
    }
    if token_amount > beneficiary_token_ata.amount {
        return Err(ErrorCode::InsufficientBalance);
    }
    match token_vault.amount.checked_add(token_amount) {
        None => {
            return Err(ErrorCode::ArithmeticOverflow);
        },
        Some(_) => {},
    }
    match sol_vault.amount.checked_add(sol_deposit_amount) {
        None => {
            return Err(ErrorCode::ArithmeticOverflow);
        },
        Some(_) => {},
    }
    // Both transfers are now known to go through; the pair commits atomically.
    secure_transfer(token_amount, beneficiary_token_ata, token_vault, beneficiary)?;
    secure_transfer(sol_deposit_amount, beneficiary_sol_ata, sol_vault, beneficiary)?;
    Ok(())
}

} // verus!
