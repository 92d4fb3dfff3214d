use vstd::prelude::*;

verus! {

/// Typed failure codes surfaced by every operation. A call that fails returns
/// one of these and leaves all records and balances untouched.
#[derive(Clone, Copy, Debug, PartialEq, Eq, Structural)]
pub enum ErrorCode {
    /// The operation was called in the wrong stage of the escrow state machine.
    StageInvalid,
    /// A transfer source (or the pool side paying out) lacks the funds.
    InsufficientBalance,
    /// A supplied account's mint or owner does not match what the record expects.
    AccountMismatch,
    /// An account close was attempted while its balance was not zero.
    AccountNotEmpty,
    /// The supplied authority is not the recorded owner of the account.
    Unauthorized,
    /// A checked arithmetic step would overflow or underflow.
    ArithmeticOverflow,
    /// A checked division has a zero divisor.
    DivisionByZero,
    /// A record already exists under the same identifiers.
    AlreadyExists,
}

} // verus!
