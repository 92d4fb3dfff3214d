use vstd::prelude::*;

use crate::error::ErrorCode;
use crate::utils::Stage;

verus! {

/// Identifier of a ledger entity: an account address, a party, a mint or a
/// derived authority. The ledger guarantees identifiers are unique; the
/// operations here only ever compare them.
pub type Key = u64;

/// Model of a ledger token account: a typed storage cell holding a balance of
/// one fungible asset, together with the sole authority allowed to move funds
/// out of it.
///
/// The type deliberately implements neither `Clone` nor `Copy`: an account is
/// a unique ledger cell, and the operations that close one take it by value so
/// that a closed account cannot be presented again.
#[derive(Debug, PartialEq, Eq, Structural)]
pub struct TokenAccount {
    /// Address of this account.
    pub key: Key,
    /// The fungible asset this account holds.
    pub mint: Key,
    /// The only authority that may move funds out of this account.
    pub owner: Key,
    /// Current balance.
    pub amount: u64,
}

/// One escrow deal between a player and a beneficiary over one token mint.
///
/// The record is destroyed (taken by value and dropped) by exactly one of
/// `transfer_to_winner` or `pull_back`; it is never left behind once the
/// escrowed funds are disbursed.
#[derive(Debug, PartialEq, Eq, Structural)]
pub struct TransactionState {
    /// Address of this record; the escrow account's recorded owner, and the
    /// identity under which the record's derived authority signs.
    pub key: Key,
    /// The depositing party that also receives the escrow account's storage
    /// reserve on close.
    pub player: Key,
    /// The second depositing party.
    pub beneficiary: Key,
    /// The fungible asset being escrowed.
    pub mint_of_token: Key,
    /// Address of the escrow token account custodying the deposits.
    pub escrow_account: Key,
    /// Per-party deposit amount; zero until `deposit_by_both_parties` runs.
    pub amount_of_tokens: u64,
    /// Stage code of the settlement state machine (see [`Stage`]).
    pub stage: u8,
    /// Derivation byte for this record's own address.
    pub state_bump: u8,
    /// Derivation byte for the escrow account's address.
    pub escrow_bump: u8,
}

impl TransactionState {
    /// `escrow` is the escrow account this record custodies: the addresses
    /// match, it holds the escrowed mint, and its only owner is the record's
    /// derived authority.
    pub open spec fn owns_escrow(self, escrow: TokenAccount) -> bool {
        &&& escrow.key == self.escrow_account
        &&& escrow.mint == self.mint_of_token
        &&& escrow.owner == self.key
    }

    /// Well-formedness of a record paired with its escrow account:
    /// the stage byte is a valid stage code, the escrow is empty and the
    /// deposit amount unset before the deposit, and while funds are deposited
    /// the escrow balance is exactly twice the per-party amount.
    pub open spec fn wf_with_escrow(self, escrow: TokenAccount) -> bool {
        &&& self.owns_escrow(escrow)
        &&& self.stage == Stage::Initialized.spec_code()
            || self.stage == Stage::FundsDeposited.spec_code()
            || self.stage == Stage::EscrowComplete.spec_code()
        &&& self.stage == Stage::Initialized.spec_code()
            ==> self.amount_of_tokens == 0 && escrow.amount == 0
        &&& self.stage == Stage::FundsDeposited.spec_code()
            ==> escrow.amount == 2 * self.amount_of_tokens
    }
}

/// The untouched inputs of a rejected disbursing operation. `transfer_to_winner`
/// and `pull_back` consume the record and its escrow account; when the call is
/// rejected, both come back here unchanged together with the failure code.
#[derive(Debug, PartialEq, Eq, Structural)]
pub struct EscrowRejected {
    /// The record, exactly as it was passed in.
    pub state: TransactionState,
    /// The escrow account, exactly as it was passed in.
    pub escrow: TokenAccount,
    /// Why the call was rejected.
    pub code: ErrorCode,
}

/// One constant-product market over a pair of mints, with a swap fee of
/// `fee_numerator / fee_denominator` retained inside the pool.
#[derive(Clone, Copy, Debug, PartialEq, Eq, Structural)]
pub struct MarketState {
    /// Address of this record; the vaults' recorded owner, and the identity
    /// under which the market's derived authority signs.
    pub key: Key,
    /// Mint of the token side of the pair.
    pub token_mint: Key,
    /// Mint of the quote ("sol") side of the pair.
    pub sol_mint: Key,
    /// Numerator of the swap fee rate.
    pub fee_numerator: u64,
    /// Denominator of the swap fee rate; never zero for a market built by
    /// `amm_setup`.
    pub fee_denominator: u64,
    /// Derivation byte for this record's own address.
    pub state_bump: u8,
    /// Derivation byte for the token vault's address.
    pub token_vault_bump: u8,
    /// Derivation byte for the quote vault's address.
    pub sol_vault_bump: u8,
}

impl MarketState {
    /// `vault` is this market's token-side vault: owned by the market's
    /// derived authority and holding the token mint.
    pub open spec fn owns_token_vault(self, vault: TokenAccount) -> bool {
        vault.owner == self.key && vault.mint == self.token_mint
    }

    /// `vault` is this market's quote-side vault.
    pub open spec fn owns_sol_vault(self, vault: TokenAccount) -> bool {
        vault.owner == self.key && vault.mint == self.sol_mint
    }
}

} // verus!
