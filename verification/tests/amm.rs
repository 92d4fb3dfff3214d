use dungeon_nft::amm_setup::amm_setup;
use dungeon_nft::error::ErrorCode;
use dungeon_nft::liquidity::add_liquidity;
use dungeon_nft::state::MarketState;
use dungeon_nft::state::TokenAccount;
use dungeon_nft::swap_tokens::swap_tokens;

const MARKET_KEY: u64 = 50;
const TOKEN_MINT: u64 = 60;
const SOL_MINT: u64 = 61;
const TOKEN_VAULT_KEY: u64 = 51;
const SOL_VAULT_KEY: u64 = 52;
const PROVIDER: u64 = 8;
const TRADER: u64 = 9;

fn account(key: u64, mint: u64, owner: u64, amount: u64) -> TokenAccount {
    TokenAccount { key, mint, owner, amount }
}

fn new_market(fee_numerator: u64, fee_denominator: u64) -> (MarketState, TokenAccount, TokenAccount) {
    amm_setup(
        fee_numerator,
        fee_denominator,
        MARKET_KEY,
        TOKEN_MINT,
        SOL_MINT,
        TOKEN_VAULT_KEY,
        SOL_VAULT_KEY,
        1,
        2,
        3,
    )
    .unwrap()
}

/// A market whose vaults already hold the given balances.
fn market_with_vaults(
    fee_numerator: u64,
    fee_denominator: u64,
    token_in_vault: u64,
    sol_in_vault: u64,
) -> (MarketState, TokenAccount, TokenAccount) {
    let (market, mut token_vault, mut sol_vault) = new_market(fee_numerator, fee_denominator);
    let mut token_ata = account(70, TOKEN_MINT, PROVIDER, token_in_vault);
    let mut sol_ata = account(71, SOL_MINT, PROVIDER, sol_in_vault);
    let r = add_liquidity(
        &market,
        &mut token_vault,
        &mut sol_vault,
        &mut token_ata,
        &mut sol_ata,
        PROVIDER,
        token_in_vault,
        sol_in_vault,
    );
    assert_eq!(r, Ok(()));
    (market, token_vault, sol_vault)
}

#[test]
fn amm_setup_records_fee_and_creates_empty_vaults() {
    let (market, token_vault, sol_vault) = new_market(3, 1000);
    assert_eq!(market.fee_numerator, 3);
    assert_eq!(market.fee_denominator, 1000);
    assert_eq!(token_vault.owner, MARKET_KEY);
    assert_eq!(token_vault.mint, TOKEN_MINT);
    assert_eq!(token_vault.amount, 0);
    assert_eq!(sol_vault.owner, MARKET_KEY);
    assert_eq!(sol_vault.mint, SOL_MINT);
    assert_eq!(sol_vault.amount, 0);
}

#[test]
fn amm_setup_rejects_zero_denominator() {
    let r = amm_setup(0, 0, MARKET_KEY, TOKEN_MINT, SOL_MINT, TOKEN_VAULT_KEY, SOL_VAULT_KEY, 1, 2, 3);
    assert_eq!(r.unwrap_err(), ErrorCode::DivisionByZero);
}

#[test]
fn first_liquidity_fixes_initial_ratio() {
    let (market, mut token_vault, mut sol_vault) = new_market(3, 1000);
    let mut token_ata = account(70, TOKEN_MINT, PROVIDER, 600);
    let mut sol_ata = account(71, SOL_MINT, PROVIDER, 1500);
    let r = add_liquidity(
        &market,
        &mut token_vault,
        &mut sol_vault,
        &mut token_ata,
        &mut sol_ata,
        PROVIDER,
        500,
        1000,
    );
    assert_eq!(r, Ok(()));
    // Ratio 1:2 taken exactly as supplied, no fee applied.
    assert_eq!(token_vault.amount, 500);
    assert_eq!(sol_vault.amount, 1000);
    assert_eq!(token_ata.amount, 100);
    assert_eq!(sol_ata.amount, 500);
}

#[test]
fn later_liquidity_follows_pool_ratio() {
    let (market, mut token_vault, mut sol_vault) = market_with_vaults(3, 1000, 500, 1000);
    let mut token_ata = account(72, TOKEN_MINT, PROVIDER, 100);
    let mut sol_ata = account(73, SOL_MINT, PROVIDER, 200);
    let r = add_liquidity(
        &market,
        &mut token_vault,
        &mut sol_vault,
        &mut token_ata,
        &mut sol_ata,
        PROVIDER,
        100,
        0,
    );
    assert_eq!(r, Ok(()));
    assert_eq!(token_vault.amount, 600);
    assert_eq!(sol_vault.amount, 1200);
    assert_eq!(token_ata.amount, 0);
    assert_eq!(sol_ata.amount, 0);
}

#[test]
fn later_liquidity_rate_truncates_toward_zero() {
    let (market, mut token_vault, mut sol_vault) = market_with_vaults(3, 1000, 1000, 500);
    let mut token_ata = account(72, TOKEN_MINT, PROVIDER, 100);
    let mut sol_ata = account(73, SOL_MINT, PROVIDER, 100);
    let r = add_liquidity(
        &market,
        &mut token_vault,
        &mut sol_vault,
        &mut token_ata,
        &mut sol_ata,
        PROVIDER,
        100,
        0,
    );
    assert_eq!(r, Ok(()));
    // 500 / 1000 truncates to 0, so no quote is moved at all.
    assert_eq!(token_vault.amount, 1100);
    assert_eq!(sol_vault.amount, 500);
    assert_eq!(sol_ata.amount, 100);
}

#[test]
fn liquidity_rejected_when_quote_balance_is_short() {
    let (market, mut token_vault, mut sol_vault) = market_with_vaults(3, 1000, 500, 1000);
    let mut token_ata = account(72, TOKEN_MINT, PROVIDER, 100);
    let mut sol_ata = account(73, SOL_MINT, PROVIDER, 199);
    let r = add_liquidity(
        &market,
        &mut token_vault,
        &mut sol_vault,
        &mut token_ata,
        &mut sol_ata,
        PROVIDER,
        100,
        0,
    );
    assert_eq!(r, Err(ErrorCode::InsufficientBalance));
    assert_eq!(token_vault.amount, 500);
    assert_eq!(sol_vault.amount, 1000);
    assert_eq!(token_ata.amount, 100);
    assert_eq!(sol_ata.amount, 199);
}

#[test]
fn liquidity_rejected_when_token_side_empty_but_quote_side_not() {
    let (market, token_vault, sol_vault) = new_market(3, 1000);
    let mut token_vault = token_vault;
    let mut sol_vault = sol_vault;
    // Fund only the quote side by hand: the exchange rate has no divisor.
    sol_vault.amount = 1000;
    let mut token_ata = account(72, TOKEN_MINT, PROVIDER, 100);
    let mut sol_ata = account(73, SOL_MINT, PROVIDER, 100);
    let r = add_liquidity(
        &market,
        &mut token_vault,
        &mut sol_vault,
        &mut token_ata,
        &mut sol_ata,
        PROVIDER,
        100,
        0,
    );
    assert_eq!(r, Err(ErrorCode::DivisionByZero));
}

#[test]
fn liquidity_rejected_for_foreign_vault() {
    let (market, _, mut sol_vault) = new_market(3, 1000);
    let intruder: u64 = 666;
    let mut foreign_vault = account(80, TOKEN_MINT, intruder, 0);
    let mut token_ata = account(72, TOKEN_MINT, PROVIDER, 100);
    let mut sol_ata = account(73, SOL_MINT, PROVIDER, 100);
    let r = add_liquidity(
        &market,
        &mut foreign_vault,
        &mut sol_vault,
        &mut token_ata,
        &mut sol_ata,
        PROVIDER,
        100,
        100,
    );
    assert_eq!(r, Err(ErrorCode::AccountMismatch));
}

#[test]
fn swap_with_truncated_fee_matches_constant_product() {
    // Market of scenario: fee 3/1000, both vaults at 1000, swap 100 of the
    // token in for quote. The fee 100 * 3 / 1000 truncates to 0.
    let (market, mut token_vault, mut sol_vault) = market_with_vaults(3, 1000, 1000, 1000);
    let mut token_ata = account(90, TOKEN_MINT, TRADER, 100);
    let mut sol_ata = account(91, SOL_MINT, TRADER, 0);
    let r = swap_tokens(
        &market,
        &mut token_vault,
        &mut sol_vault,
        &mut token_ata,
        &mut sol_ata,
        TRADER,
        100,
        false,
    );
    // k = 1000 * 1000; new quote side = floor(k / 1100) = 909.
    assert_eq!(r, Ok(91));
    assert_eq!(token_vault.amount, 1100);
    assert_eq!(sol_vault.amount, 909);
    assert_eq!(token_ata.amount, 0);
    assert_eq!(sol_ata.amount, 91);
}

#[test]
fn swap_with_positive_fee_matches_constant_product() {
    let (market, mut token_vault, mut sol_vault) = market_with_vaults(3, 1000, 100000, 100000);
    let mut token_ata = account(90, TOKEN_MINT, TRADER, 100000);
    let mut sol_ata = account(91, SOL_MINT, TRADER, 0);
    let amount_in: u64 = 100000;
    let fee = (amount_in as u128) * 3 / 1000;
    assert_eq!(fee, 300);
    let k: u128 = 100000u128 * 100000u128;
    let new_sol = k / (100000u128 + (amount_in as u128 - fee));
    let expected_out = (100000u128 - new_sol) as u64;
    let r = swap_tokens(
        &market,
        &mut token_vault,
        &mut sol_vault,
        &mut token_ata,
        &mut sol_ata,
        TRADER,
        amount_in,
        false,
    );
    assert_eq!(r, Ok(expected_out));
    assert_eq!(expected_out, 49925);
    assert_eq!(sol_vault.amount, 50075);
    assert_eq!(token_vault.amount, 200000);
}

#[test]
fn swap_with_positive_fee_grows_product() {
    let (market, mut token_vault, mut sol_vault) = market_with_vaults(3, 1000, 100000, 100000);
    let product_before = (token_vault.amount as u128) * (sol_vault.amount as u128);
    let mut token_ata = account(90, TOKEN_MINT, TRADER, 100000);
    let mut sol_ata = account(91, SOL_MINT, TRADER, 0);
    let r = swap_tokens(
        &market,
        &mut token_vault,
        &mut sol_vault,
        &mut token_ata,
        &mut sol_ata,
        TRADER,
        100000,
        false,
    );
    assert!(r.is_ok());
    let product_after = (token_vault.amount as u128) * (sol_vault.amount as u128);
    assert!(product_after > product_before);
}

#[test]
fn swap_with_zero_fee_preserves_product_up_to_rounding() {
    let (market, mut token_vault, mut sol_vault) = market_with_vaults(0, 1000, 1000, 1000);
    let product_before = (token_vault.amount as u128) * (sol_vault.amount as u128);
    let mut token_ata = account(90, TOKEN_MINT, TRADER, 100);
    let mut sol_ata = account(91, SOL_MINT, TRADER, 0);
    let r = swap_tokens(
        &market,
        &mut token_vault,
        &mut sol_vault,
        &mut token_ata,
        &mut sol_ata,
        TRADER,
        100,
        false,
    );
    assert_eq!(r, Ok(91));
    let product_after = (token_vault.amount as u128) * (sol_vault.amount as u128);
    // Never above the old product, and short of it by less than one unit of
    // the grown side.
    assert!(product_after <= product_before);
    assert!(product_before < product_after + token_vault.amount as u128);
}

#[test]
fn swap_output_stays_below_paying_vault() {
    let (market, mut token_vault, mut sol_vault) = market_with_vaults(3, 1000, 1000, 50);
    let mut token_ata = account(90, TOKEN_MINT, TRADER, 1000);
    let mut sol_ata = account(91, SOL_MINT, TRADER, 0);
    let r = swap_tokens(
        &market,
        &mut token_vault,
        &mut sol_vault,
        &mut token_ata,
        &mut sol_ata,
        TRADER,
        1000,
        false,
    );
    let out = r.unwrap();
    assert!(out >= 1);
    assert!(out < 50);
    assert!(sol_vault.amount >= 1);
}

#[test]
fn swap_of_nothing_rejected() {
    let (market, mut token_vault, mut sol_vault) = market_with_vaults(3, 1000, 1000, 1000);
    let mut token_ata = account(90, TOKEN_MINT, TRADER, 100);
    let mut sol_ata = account(91, SOL_MINT, TRADER, 0);
    let r = swap_tokens(
        &market,
        &mut token_vault,
        &mut sol_vault,
        &mut token_ata,
        &mut sol_ata,
        TRADER,
        0,
        false,
    );
    assert_eq!(r, Err(ErrorCode::InsufficientBalance));
    assert_eq!(token_vault.amount, 1000);
    assert_eq!(sol_vault.amount, 1000);
}

#[test]
fn swap_that_would_drain_the_pool_rejected() {
    let (market, mut token_vault, mut sol_vault) = market_with_vaults(0, 1000, 1000, 1);
    let mut token_ata = account(90, TOKEN_MINT, TRADER, 1000);
    let mut sol_ata = account(91, SOL_MINT, TRADER, 0);
    let r = swap_tokens(
        &market,
        &mut token_vault,
        &mut sol_vault,
        &mut token_ata,
        &mut sol_ata,
        TRADER,
        1000,
        false,
    );
    assert_eq!(r, Err(ErrorCode::InsufficientBalance));
    assert_eq!(sol_vault.amount, 1);
    assert_eq!(token_ata.amount, 1000);
}

#[test]
fn swap_rejected_when_trader_cannot_cover_input() {
    let (market, mut token_vault, mut sol_vault) = market_with_vaults(3, 1000, 1000, 1000);
    let mut token_ata = account(90, TOKEN_MINT, TRADER, 99);
    let mut sol_ata = account(91, SOL_MINT, TRADER, 0);
    let r = swap_tokens(
        &market,
        &mut token_vault,
        &mut sol_vault,
        &mut token_ata,
        &mut sol_ata,
        TRADER,
        100,
        false,
    );
    assert_eq!(r, Err(ErrorCode::InsufficientBalance));
    assert_eq!(token_ata.amount, 99);
}

#[test]
fn swap_against_zero_fee_denominator_rejected() {
    // A record bypassing amm_setup's guard is still rejected at swap time.
    let market = MarketState {
        key: MARKET_KEY,
        token_mint: TOKEN_MINT,
        sol_mint: SOL_MINT,
        fee_numerator: 0,
        fee_denominator: 0,
        state_bump: 1,
        token_vault_bump: 2,
        sol_vault_bump: 3,
    };
    let mut token_vault = account(TOKEN_VAULT_KEY, TOKEN_MINT, MARKET_KEY, 1000);
    let mut sol_vault = account(SOL_VAULT_KEY, SOL_MINT, MARKET_KEY, 1000);
    let mut token_ata = account(90, TOKEN_MINT, TRADER, 100);
    let mut sol_ata = account(91, SOL_MINT, TRADER, 0);
    let r = swap_tokens(
        &market,
        &mut token_vault,
        &mut sol_vault,
        &mut token_ata,
        &mut sol_ata,
        TRADER,
        100,
        false,
    );
    assert_eq!(r, Err(ErrorCode::DivisionByZero));
}

#[test]
fn swap_whose_fee_eats_the_input_rejected() {
    // A fee rate above one: the fee exceeds the input and the checked
    // subtraction refuses.
    let (market, mut token_vault, mut sol_vault) = market_with_vaults(2, 1, 1000, 1000);
    let mut token_ata = account(90, TOKEN_MINT, TRADER, 100);
    let mut sol_ata = account(91, SOL_MINT, TRADER, 0);
    let r = swap_tokens(
        &market,
        &mut token_vault,
        &mut sol_vault,
        &mut token_ata,
        &mut sol_ata,
        TRADER,
        100,
        false,
    );
    assert_eq!(r, Err(ErrorCode::ArithmeticOverflow));
    assert_eq!(token_vault.amount, 1000);
}

#[test]
fn swap_with_fee_rate_of_one_rejected() {
    // The whole input goes to the fee, so no output can be paid.
    let (market, mut token_vault, mut sol_vault) = market_with_vaults(5, 5, 1000, 1000);
    let mut token_ata = account(90, TOKEN_MINT, TRADER, 100);
    let mut sol_ata = account(91, SOL_MINT, TRADER, 0);
    let r = swap_tokens(
        &market,
        &mut token_vault,
        &mut sol_vault,
        &mut token_ata,
        &mut sol_ata,
        TRADER,
        100,
        false,
    );
    assert_eq!(r, Err(ErrorCode::InsufficientBalance));
    assert_eq!(token_vault.amount, 1000);
    assert_eq!(token_ata.amount, 100);
}

#[test]
fn swap_overflowing_receiving_vault_rejected() {
    let market = MarketState {
        key: MARKET_KEY,
        token_mint: TOKEN_MINT,
        sol_mint: SOL_MINT,
        fee_numerator: 0,
        fee_denominator: 1000,
        state_bump: 1,
        token_vault_bump: 2,
        sol_vault_bump: 3,
    };
    let mut token_vault = account(TOKEN_VAULT_KEY, TOKEN_MINT, MARKET_KEY, u64::MAX);
    let mut sol_vault = account(SOL_VAULT_KEY, SOL_MINT, MARKET_KEY, 1000);
    let mut token_ata = account(90, TOKEN_MINT, TRADER, 10);
    let mut sol_ata = account(91, SOL_MINT, TRADER, 0);
    let r = swap_tokens(
        &market,
        &mut token_vault,
        &mut sol_vault,
        &mut token_ata,
        &mut sol_ata,
        TRADER,
        10,
        false,
    );
    assert_eq!(r, Err(ErrorCode::ArithmeticOverflow));
    assert_eq!(token_vault.amount, u64::MAX);
    assert_eq!(sol_vault.amount, 1000);
}

#[test]
fn swap_in_quote_to_token_direction() {
    let (market, mut token_vault, mut sol_vault) = market_with_vaults(3, 1000, 1000, 1000);
    let mut token_ata = account(90, TOKEN_MINT, TRADER, 0);
    let mut sol_ata = account(91, SOL_MINT, TRADER, 100);
    let r = swap_tokens(
        &market,
        &mut token_vault,
        &mut sol_vault,
        &mut token_ata,
        &mut sol_ata,
        TRADER,
        100,
        true,
    );
    assert_eq!(r, Ok(91));
    assert_eq!(sol_vault.amount, 1100);
    assert_eq!(token_vault.amount, 909);
    assert_eq!(sol_ata.amount, 0);
    assert_eq!(token_ata.amount, 91);
}
