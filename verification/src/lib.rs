//! Two coupled primitives over a ledger of token balances: a two-party escrow
//! with a deterministic settlement state machine, and a constant-product
//! automated market maker with liquidity provisioning and fee-bearing swaps.
//!
//! The ledger itself (account storage, signature checks, rent bookkeeping) is
//! an external collaborator: here an account is modelled as a plain record of
//! address, mint, owning authority and balance, and every operation states
//! exactly which balances move, when it fails, and with which error code.
//! Operations are atomic: a call either commits all of its balance and state
//! mutations or none of them.

pub mod error;
pub mod state;
pub mod utils;

pub mod amm_setup;
pub mod deposit_by_both_parties;
pub mod liquidity;
pub mod pullback;
pub mod swap_tokens;
pub mod transaction_setup;
pub mod transfer_to_winner;
