use vstd::prelude::*;

use vstd::arithmetic::div_mod::lemma_basic_div;
use vstd::arithmetic::div_mod::lemma_div_by_multiple;
use vstd::arithmetic::div_mod::lemma_div_is_ordered;
use vstd::arithmetic::div_mod::lemma_div_is_ordered_by_denominator;
use vstd::arithmetic::div_mod::lemma_fundamental_div_mod;
use vstd::arithmetic::div_mod::lemma_mod_division_less_than_divisor;
use vstd::arithmetic::mul::lemma_mul_by_zero_is_zero;
use vstd::arithmetic::mul::lemma_mul_is_commutative;
use vstd::arithmetic::mul::lemma_mul_inequality;
use vstd::arithmetic::mul::lemma_mul_is_distributive_add;
use vstd::arithmetic::mul::lemma_mul_is_distributive_add_other_way;
use vstd::arithmetic::mul::lemma_mul_upper_bound;

use crate::error::ErrorCode;
use crate::state::Key;
use crate::state::MarketState;
use crate::state::TokenAccount;
use crate::utils::secure_transfer;

verus! {

/// Fee charged on a swap input: `floor(amount_in * fee_numerator /
/// fee_denominator)`, computed in extended precision.
pub open spec fn swap_fee_amount(amount_in: u64, fee_numerator: u64, fee_denominator: u64) -> int {
    (amount_in * fee_numerator) / (fee_denominator as int)
}

/// The part of the swap input that prices the trade: the input minus the
/// fee. The fee itself still enters the receiving vault, so it stays in the
/// pool rather than being burned.
pub open spec fn swap_effective_in(amount_in: u64, fee_numerator: u64, fee_denominator: u64) -> int {
    amount_in - swap_fee_amount(amount_in, fee_numerator, fee_denominator)
}

/// Post-trade balance of the vault that pays the swap out, by the
/// constant-product rule: `floor(k / (destination + effective_in))` with
/// `k` the pre-trade product of the two vault balances.
pub open spec fn swap_new_source_balance(
    source_balance: u64,
    destination_balance: u64,
    amount_in: u64,
    fee_numerator: u64,
    fee_denominator: u64,
) -> int {
    (source_balance * destination_balance) / (destination_balance + swap_effective_in(
        amount_in,
        fee_numerator,
        fee_denominator,
    ))
}

/// Amount a swap pays out of the source vault.
pub open spec fn swap_amount_out(
    source_balance: u64,
    destination_balance: u64,
    amount_in: u64,
    fee_numerator: u64,
    fee_denominator: u64,
) -> int {
    source_balance - swap_new_source_balance(
        source_balance,
        destination_balance,
        amount_in,
        fee_numerator,
        fee_denominator,
    )
}

/// Why a swap would be rejected, or `None` when it goes through. The vault
/// that receives the input is the destination; the vault that pays the
/// output is the source. Checks in order: the four accounts, the caller's
/// funds, the fee divisor, a fee exceeding the input, an empty pricing
/// divisor, a drained or unfunded source side, a zero output, then the two
/// receiver overflows.
pub open spec fn swap_err(
    market: MarketState,
    source_vault: TokenAccount,
    destination_vault: TokenAccount,
    player_source_ata: TokenAccount,
    player_dest_ata: TokenAccount,
    player: Key,
    amount_in: u64,
) -> Option<ErrorCode> {
    let fee = swap_fee_amount(amount_in, market.fee_numerator, market.fee_denominator);
    let eff = swap_effective_in(amount_in, market.fee_numerator, market.fee_denominator);
    let new_src = swap_new_source_balance(
        source_vault.amount,
        destination_vault.amount,
        amount_in,
        market.fee_numerator,
        market.fee_denominator,
    );
    if !(source_vault.owner == market.key && destination_vault.owner == market.key
        && player_source_ata.owner == player && player_dest_ata.owner == player
        && player_source_ata.mint == destination_vault.mint
        && player_dest_ata.mint == source_vault.mint) {
        Some(ErrorCode::AccountMismatch)
    } else if player_source_ata.amount < amount_in {
        Some(ErrorCode::InsufficientBalance)
    } else if market.fee_denominator == 0 {
        Some(ErrorCode::DivisionByZero)
    } else if fee > amount_in {
        Some(ErrorCode::ArithmeticOverflow)
    } else if destination_vault.amount + eff == 0 {
        Some(ErrorCode::DivisionByZero)
    } else if new_src == 0 {
        Some(ErrorCode::InsufficientBalance)
    } else if source_vault.amount - new_src == 0 {
        Some(ErrorCode::InsufficientBalance)
    } else if destination_vault.amount + amount_in > u64::MAX {
        Some(ErrorCode::ArithmeticOverflow)
    } else if player_dest_ata.amount + (source_vault.amount - new_src) > u64::MAX {
        Some(ErrorCode::ArithmeticOverflow)
    } else {
        None
    }
}

/// Settle one swap against an explicit source/destination vault pair. The
/// caller pays the full `amount_in` into the destination vault; the source
/// vault pays `swap_amount_out` — always at least one unit and always
/// strictly less than the source vault's pre-trade balance, so the pool is
/// never fully drained of the output side. A swap that would pay out
/// nothing, or would empty the output side completely, is rejected rather
/// than executed. All four balance movements commit atomically.
pub fn execute_swap(
    market: &MarketState,
    source_vault: &mut TokenAccount,
    destination_vault: &mut TokenAccount,
    player_source_ata: &mut TokenAccount,
    player_dest_ata: &mut TokenAccount,
    player: Key,
    amount_in: u64,
) -> (r: Result<u64, ErrorCode>)
    ensures
        match swap_err(
            *market,
            *old(source_vault),
            *old(destination_vault),
            *old(player_source_ata),
            *old(player_dest_ata),
            player,
            amount_in,
        ) {
            Some(code) => {
                &&& r == Err::<u64, ErrorCode>(code)
                &&& *final(source_vault) == *old(source_vault)
                &&& *final(destination_vault) == *old(destination_vault)
                &&& *final(player_source_ata) == *old(player_source_ata)
                &&& *final(player_dest_ata) == *old(player_dest_ata)
            },
            None => {
                let out = swap_amount_out(
                    old(source_vault).amount,
                    old(destination_vault).amount,
                    amount_in,
                    market.fee_numerator,
                    market.fee_denominator,
                );
                &&& 1 <= out < old(source_vault).amount
                &&& r == Ok::<u64, ErrorCode>(out as u64)
                &&& final(source_vault).amount == old(source_vault).amount - out
                &&& final(destination_vault).amount == old(destination_vault).amount + amount_in
                &&& final(player_source_ata).amount == old(player_source_ata).amount - amount_in
                &&& final(player_dest_ata).amount == old(player_dest_ata).amount + out
                &&& final(source_vault).amount + final(player_dest_ata).amount
                    == old(source_vault).amount + old(player_dest_ata).amount
                &&& final(destination_vault).amount + final(player_source_ata).amount
                    == old(destination_vault).amount + old(player_source_ata).amount
                &&& final(source_vault).key == old(source_vault).key
                &&& final(source_vault).mint == old(source_vault).mint
                &&& final(source_vault).owner == old(source_vault).owner
                &&& final(destination_vault).key == old(destination_vault).key
                &&& final(destination_vault).mint == old(destination_vault).mint
                &&& final(destination_vault).owner == old(destination_vault).owner
                &&& final(player_source_ata).key == old(player_source_ata).key
                &&& final(player_source_ata).mint == old(player_source_ata).mint
                &&& final(player_source_ata).owner == old(player_source_ata).owner
                &&& final(player_dest_ata).key == old(player_dest_ata).key
                &&& final(player_dest_ata).mint == old(player_dest_ata).mint
                &&& final(player_dest_ata).owner == old(player_dest_ata).owner
            },
        },
{
    if !(source_vault.owner == market.key && destination_vault.owner == market.key
        && player_source_ata.owner == player && player_dest_ata.owner == player
        && player_source_ata.mint == destination_vault.mint
        && player_dest_ata.mint == source_vault.mint) {
        return Err(ErrorCode::AccountMismatch);
    }
    if player_source_ata.amount < amount_in {
        return Err(ErrorCode::InsufficientBalance);
    }
    if market.fee_denominator == 0 {
        return Err(ErrorCode::DivisionByZero);
    }
    let amount_in_wide = amount_in as u128;
    let fee_numerator_wide = market.fee_numerator as u128;
    let fee_denominator_wide = market.fee_denominator as u128;
    proof {
        lemma_mul_upper_bound(
            amount_in as int,
            u64::MAX as int,
            market.fee_numerator as int,
            u64::MAX as int,
        );
    }
    let fee_amount = (amount_in_wide * fee_numerator_wide) / fee_denominator_wide;
    if fee_amount > amount_in_wide {
        return Err(ErrorCode::ArithmeticOverflow);
    }
    let effective_in = amount_in_wide - fee_amount;
    let source_balance = source_vault.amount as u128;
    let destination_balance = destination_vault.amount as u128;
    proof {
        lemma_mul_upper_bound(
            source_vault.amount as int,
            u64::MAX as int,
            destination_vault.amount as int,
            u64::MAX as int,
        );
    }
    let constant_product = source_balance * destination_balance;
    let new_destination_balance = destination_balance + effective_in;
    if new_destination_balance == 0 {
        return Err(ErrorCode::DivisionByZero);
    }
    let new_source_balance = constant_product / new_destination_balance;
    if new_source_balance == 0 {
        return Err(ErrorCode::InsufficientBalance);
    }
    proof {
        let k = (source_vault.amount as int) * (destination_vault.amount as int);
        if destination_vault.amount == 0 {
            lemma_mul_by_zero_is_zero(source_vault.amount as int);
            lemma_basic_div(k, new_destination_balance as int);
            assert(false);
        }
        lemma_div_is_ordered_by_denominator(
            k,
            destination_vault.amount as int,
            new_destination_balance as int,
        );
        lemma_div_by_multiple(source_vault.amount as int, destination_vault.amount as int);
    }
    let amount_out_wide = source_balance - new_source_balance;
    if amount_out_wide == 0 {
        return Err(ErrorCode::InsufficientBalance);
    }
    let amount_out = amount_out_wide as u64;
    match destination_vault.amount.checked_add(amount_in) {
        None => {
            return Err(ErrorCode::ArithmeticOverflow);
        },
        Some(_) => {},
    }
    match player_dest_ata.amount.checked_add(amount_out) {
        None => {
            return Err(ErrorCode::ArithmeticOverflow);
        },
        Some(_) => {},
    }
    // Both legs are now known to go through; the swap commits atomically.
    // The caller funds the destination vault with the full input, fee
    // included; the source vault pays the caller.
    match secure_transfer(amount_in, player_source_ata, destination_vault, player) {
        Ok(()) => {},
        Err(_) => unreached(),
    }
    match secure_transfer(amount_out, source_vault, player_dest_ata, market.key) {
        Ok(()) => {},
        Err(_) => unreached(),
    }
    Ok(amount_out)
}

/// Why a directed swap would be rejected, or `None` when it goes through.
/// The direction picks the pair: `sol_to_token` means the caller pays quote
/// in (quote vault is the destination) and takes tokens out (token vault is
/// the source); otherwise the roles are swapped.
pub open spec fn swap_tokens_err(
    market: MarketState,
    token_vault: TokenAccount,
    sol_vault: TokenAccount,
    player_token_ata: TokenAccount,
    player_sol_ata: TokenAccount,
    player: Key,
    amount_in: u64,
    sol_to_token: bool,
) -> Option<ErrorCode> {
    if !(market.owns_token_vault(token_vault) && market.owns_sol_vault(sol_vault)) {
        Some(ErrorCode::AccountMismatch)
    } else if sol_to_token {
        swap_err(market, token_vault, sol_vault, player_sol_ata, player_token_ata, player, amount_in)
    } else {
        swap_err(market, sol_vault, token_vault, player_token_ata, player_sol_ata, player, amount_in)
    }
}

/// Swap `amount_in` against the market in the chosen direction, under the
/// caller's own authority for the paying leg and the market's derived
/// authority for the vault leg. On success the returned value is the amount
/// paid out to the caller, priced by the constant-product rule with the fee
/// retained in the pool; a rejected swap leaves all four balances untouched.
pub fn swap_tokens(
    market: &MarketState,
    token_vault: &mut TokenAccount,
    sol_vault: &mut TokenAccount,
    player_token_ata: &mut TokenAccount,
    player_sol_ata: &mut TokenAccount,
    player: Key,
    amount_in: u64,
    sol_to_token: bool,
) -> (r: Result<u64, ErrorCode>)
    ensures
        match swap_tokens_err(
            *market,
            *old(token_vault),
            *old(sol_vault),
            *old(player_token_ata),
            *old(player_sol_ata),
            player,
            amount_in,
            sol_to_token,
        ) {
            Some(code) => {
                &&& r == Err::<u64, ErrorCode>(code)
                &&& *final(token_vault) == *old(token_vault)
                &&& *final(sol_vault) == *old(sol_vault)
                &&& *final(player_token_ata) == *old(player_token_ata)
                &&& *final(player_sol_ata) == *old(player_sol_ata)
            },
            None => ({
                let old_source = if sol_to_token { *old(token_vault) } else { *old(sol_vault) };
                let old_destination = if sol_to_token { *old(sol_vault) } else { *old(token_vault) };
                let final_source_amount = if sol_to_token {
                    final(token_vault).amount
                } else {
                    final(sol_vault).amount
                };
                let final_destination_amount = if sol_to_token {
                    final(sol_vault).amount
                } else {
                    final(token_vault).amount
                };
                let old_pay_amount = if sol_to_token {
                    old(player_sol_ata).amount
                } else {
                    old(player_token_ata).amount
                };
                let final_pay_amount = if sol_to_token {
                    final(player_sol_ata).amount
                } else {
                    final(player_token_ata).amount
                };
                let old_receive_amount = if sol_to_token {
                    old(player_token_ata).amount
                } else {
                    old(player_sol_ata).amount
                };
                let final_receive_amount = if sol_to_token {
                    final(player_token_ata).amount
                } else {
                    final(player_sol_ata).amount
                };
                let out = swap_amount_out(
                    old_source.amount,
                    old_destination.amount,
                    amount_in,
                    market.fee_numerator,
                    market.fee_denominator,
                );
                &&& 1 <= out < old_source.amount
                &&& r == Ok::<u64, ErrorCode>(out as u64)
                &&& final_source_amount == old_source.amount - out
                &&& final_destination_amount == old_destination.amount + amount_in
                &&& final_pay_amount == old_pay_amount - amount_in
                &&& final_receive_amount == old_receive_amount + out
                &&& final(token_vault).key == old(token_vault).key
                &&& final(token_vault).mint == old(token_vault).mint
                &&& final(token_vault).owner == old(token_vault).owner
                &&& final(sol_vault).key == old(sol_vault).key
                &&& final(sol_vault).mint == old(sol_vault).mint
                &&& final(sol_vault).owner == old(sol_vault).owner
                &&& final(player_token_ata).key == old(player_token_ata).key
                &&& final(player_token_ata).mint == old(player_token_ata).mint
                &&& final(player_token_ata).owner == old(player_token_ata).owner
                &&& final(player_sol_ata).key == old(player_sol_ata).key
                &&& final(player_sol_ata).mint == old(player_sol_ata).mint
                &&& final(player_sol_ata).owner == old(player_sol_ata).owner
            }),
        },
{
    if !(token_vault.owner == market.key && token_vault.mint == market.token_mint) {
        return Err(ErrorCode::AccountMismatch);
    }
    if !(sol_vault.owner == market.key && sol_vault.mint == market.sol_mint) {
        return Err(ErrorCode::AccountMismatch);
    }
    if sol_to_token {
        execute_swap(market, token_vault, sol_vault, player_sol_ata, player_token_ata, player, amount_in)
    } else {
        execute_swap(market, sol_vault, token_vault, player_token_ata, player_sol_ata, player, amount_in)
    }
}

/// A swap of nothing is never executed: whatever the accounts, balances and
/// fee rate, a zero input is rejected rather than settled as a no-op.
/// Together with the output bound of [`execute_swap`], a completed swap
/// always has a positive input and pays out at least one unit.
pub proof fn lemma_swap_zero_input_rejected(
    market: MarketState,
    source_vault: TokenAccount,
    destination_vault: TokenAccount,
    player_source_ata: TokenAccount,
    player_dest_ata: TokenAccount,
    player: Key,
)
    ensures
        swap_err(
            market,
            source_vault,
            destination_vault,
            player_source_ata,
            player_dest_ata,
            player,
            0,
        ) is Some,
{
    if market.fee_denominator != 0 {
        lemma_basic_div(0, market.fee_denominator as int);
        assert(swap_fee_amount(0, market.fee_numerator, market.fee_denominator) == 0);
        if destination_vault.amount != 0 {
            lemma_div_by_multiple(source_vault.amount as int, destination_vault.amount as int);
        }
    }
}

/// A fee rate of one or more can never move funds. A market record is meant
/// to keep `fee_numerator < fee_denominator`; should one ever carry a rate at
/// or above one, the fee consumes the whole input and every swap against it
/// is rejected, whatever the accounts and balances.
pub proof fn lemma_swap_excessive_fee_rejected(
    market: MarketState,
    source_vault: TokenAccount,
    destination_vault: TokenAccount,
    player_source_ata: TokenAccount,
    player_dest_ata: TokenAccount,
    player: Key,
    amount_in: u64,
)
    requires
        market.fee_numerator >= market.fee_denominator,
    ensures
        swap_err(
            market,
            source_vault,
            destination_vault,
            player_source_ata,
            player_dest_ata,
            player,
            amount_in,
        ) is Some,
{
    let num = market.fee_numerator as int;
    let den = market.fee_denominator as int;
    if den != 0 {
        lemma_mul_inequality(den, num, amount_in as int);
        lemma_mul_is_commutative(den, amount_in as int);
        lemma_mul_is_commutative(num, amount_in as int);
        lemma_div_is_ordered(amount_in * den, amount_in * num, den);
        lemma_div_by_multiple(amount_in as int, den);
        assert(swap_fee_amount(amount_in, market.fee_numerator, market.fee_denominator)
            >= amount_in);
        if swap_fee_amount(amount_in, market.fee_numerator, market.fee_denominator)
            == amount_in && destination_vault.amount != 0 {
            lemma_div_by_multiple(source_vault.amount as int, destination_vault.amount as int);
        }
    }
}

/// Exact accounting of the vault-balance product across one swap. Writing
/// `k` for the pre-trade product, `new_dest` for the pricing divisor and
/// `rem` for the remainder `k % new_dest`, the post-trade product is
/// `k - rem + new_source * fee`: the pricing step loses at most the
/// remainder of one integer division, and the retained fee adds
/// `new_source * fee` back.
pub proof fn lemma_swap_product_identity(
    source_balance: u64,
    destination_balance: u64,
    amount_in: u64,
    fee_numerator: u64,
    fee_denominator: u64,
)
    requires
        fee_denominator > 0,
        swap_fee_amount(amount_in, fee_numerator, fee_denominator) <= amount_in,
        destination_balance + swap_effective_in(amount_in, fee_numerator, fee_denominator) > 0,
    ensures
        ({
            let fee = swap_fee_amount(amount_in, fee_numerator, fee_denominator);
            let new_dest = destination_balance + swap_effective_in(
                amount_in,
                fee_numerator,
                fee_denominator,
            );
            let new_src = swap_new_source_balance(
                source_balance,
                destination_balance,
                amount_in,
                fee_numerator,
                fee_denominator,
            );
            let rem = (source_balance * destination_balance) % new_dest;
            &&& 0 <= rem < new_dest
            &&& new_src * (destination_balance + amount_in)
                == source_balance * destination_balance - rem + new_src * fee
        }),
{
    let fee = swap_fee_amount(amount_in, fee_numerator, fee_denominator);
    let eff = swap_effective_in(amount_in, fee_numerator, fee_denominator);
    let new_dest = destination_balance + eff;
    let k = (source_balance as int) * (destination_balance as int);
    let new_src = k / new_dest;
    let rem = k % new_dest;
    lemma_fundamental_div_mod(k, new_dest);
    lemma_mod_division_less_than_divisor(k, new_dest);
    assert(destination_balance + amount_in == new_dest + fee);
    lemma_mul_is_distributive_add(new_src, new_dest, fee);
    lemma_mul_is_commutative(new_src, new_dest);
}

/// Constant-product monotonicity under a positive fee rate: whenever the
/// retained fee term `new_source * fee` outweighs the remainder lost to the
/// one integer division of the pricing step, the product of the vault
/// balances does not decrease across a swap, and it strictly increases when
/// the fee term strictly outweighs it. The condition is genuine: the
/// truncated fee of a small input can be zero even with a positive fee
/// numerator, and the rounding of the pricing division is in the trader's
/// favor, so without it the product can end up just below its old value.
pub proof fn lemma_swap_product_monotone(
    source_balance: u64,
    destination_balance: u64,
    amount_in: u64,
    fee_numerator: u64,
    fee_denominator: u64,
)
    requires
        fee_numerator > 0,
        fee_denominator > 0,
        swap_fee_amount(amount_in, fee_numerator, fee_denominator) <= amount_in,
        destination_balance + swap_effective_in(amount_in, fee_numerator, fee_denominator) > 0,
        swap_new_source_balance(
            source_balance,
            destination_balance,
            amount_in,
            fee_numerator,
            fee_denominator,
        ) * swap_fee_amount(amount_in, fee_numerator, fee_denominator)
            >= (source_balance * destination_balance) % (destination_balance + swap_effective_in(
            amount_in,
            fee_numerator,
            fee_denominator,
        )),
    ensures
        ({
            let new_src = swap_new_source_balance(
                source_balance,
                destination_balance,
                amount_in,
                fee_numerator,
                fee_denominator,
            );
            new_src * (destination_balance + amount_in)
                >= source_balance * destination_balance
        }),
        swap_new_source_balance(
            source_balance,
            destination_balance,
            amount_in,
            fee_numerator,
            fee_denominator,
        ) * swap_fee_amount(amount_in, fee_numerator, fee_denominator)
            > (source_balance * destination_balance) % (destination_balance + swap_effective_in(
            amount_in,
            fee_numerator,
            fee_denominator,
        )) ==> swap_new_source_balance(
            source_balance,
            destination_balance,
            amount_in,
            fee_numerator,
            fee_denominator,
        ) * (destination_balance + amount_in) > source_balance * destination_balance,
{
    lemma_swap_product_identity(
        source_balance,
        destination_balance,
        amount_in,
        fee_numerator,
        fee_denominator,
    );
}

/// With a zero fee numerator the constant product is preserved exactly up
/// to one integer-rounding unit: the post-trade product never exceeds the
/// pre-trade product, and falls short of it by less than one unit of the
/// post-trade destination balance.
pub proof fn lemma_swap_fee_zero_product(
    source_balance: u64,
    destination_balance: u64,
    amount_in: u64,
    fee_denominator: u64,
)
    requires
        fee_denominator > 0,
        destination_balance + amount_in > 0,
    ensures
        ({
            let new_src = swap_new_source_balance(
                source_balance,
                destination_balance,
                amount_in,
                0u64,
                fee_denominator,
            );
            &&& swap_fee_amount(amount_in, 0u64, fee_denominator) == 0
            &&& new_src * (destination_balance + amount_in)
                <= source_balance * destination_balance
            &&& source_balance * destination_balance
                < (new_src + 1) * (destination_balance + amount_in)
        }),
{
    lemma_mul_by_zero_is_zero(amount_in as int);
    lemma_basic_div(0, fee_denominator as int);
    assert(swap_fee_amount(amount_in, 0u64, fee_denominator) == 0);
    lemma_swap_product_identity(source_balance, destination_balance, amount_in, 0u64, fee_denominator);
    let new_dest = destination_balance + swap_effective_in(amount_in, 0u64, fee_denominator);
    let new_src = swap_new_source_balance(
        source_balance,
        destination_balance,
        amount_in,
        0u64,
        fee_denominator,
    );
    lemma_mul_by_zero_is_zero(new_src);
    lemma_mul_is_distributive_add_other_way(new_dest as int, new_src, 1);
}

} // verus!
