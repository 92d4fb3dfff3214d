use vstd::prelude::*;

use crate::error::ErrorCode;
use crate::state::Key;
use crate::state::TokenAccount;

verus! {

/// Stage of the escrow settlement state machine. Stages only ever move
/// forward: `Initialized` to `FundsDeposited` to `EscrowComplete`; the record
/// carrying the stage is destroyed as soon as the escrow is disbursed.
#[derive(Clone, Copy, Debug, PartialEq, Eq, Structural)]
pub enum Stage {
    /// Record created, escrow empty, deposit amount unset.
    Initialized,
    /// Both parties have funded the escrow with the same amount.
    FundsDeposited,
    /// Funds disbursed to the winner; observable only while the disbursing
    /// operation is completing, since the record is destroyed with it.
    EscrowComplete,
}

impl Stage {
    /// The numeric code under which this stage is persisted in a record.
    pub open spec fn spec_code(self) -> u8 {
        match self {
            Stage::Initialized => 1,
            Stage::FundsDeposited => 2,
            Stage::EscrowComplete => 3,
        }
    }

    /// Numeric code under which this stage is persisted in a record.
    pub fn to_code(&self) -> (code: u8)
        ensures
            code == self.spec_code(),
    {
        match self {
            Stage::Initialized => 1,
            Stage::FundsDeposited => 2,
            Stage::EscrowComplete => 3,
        }
    }

    /// Decode a persisted stage byte. Every byte that is not a valid stage
    /// code is rejected as `StageInvalid`.
    pub fn from(val: u8) -> (r: Result<Stage, ErrorCode>)
        ensures
            r == (match val {
                1u8 => Ok::<Stage, ErrorCode>(Stage::Initialized),
                2u8 => Ok::<Stage, ErrorCode>(Stage::FundsDeposited),
                3u8 => Ok::<Stage, ErrorCode>(Stage::EscrowComplete),
                _ => Err::<Stage, ErrorCode>(ErrorCode::StageInvalid),
            }),
    {
        match val {
            1 => Ok(Stage::Initialized),
            2 => Ok(Stage::FundsDeposited),
            3 => Ok(Stage::EscrowComplete),
            _ => Err(ErrorCode::StageInvalid),
        }
    }
}

/// Why a transfer of `amount` out of `from` into `to` under `authority` would
/// be rejected, or `None` when it is allowed. The checks run in this order:
/// authorization, account compatibility, funds, then receiver overflow.
pub open spec fn transfer_err(
    from: TokenAccount,
    to: TokenAccount,
    amount: u64,
    authority: Key,
) -> Option<ErrorCode> {
    if authority != from.owner {
        Some(ErrorCode::Unauthorized)
    } else if from.mint != to.mint {
        Some(ErrorCode::AccountMismatch)
    } else if from.amount < amount {
        Some(ErrorCode::InsufficientBalance)
    } else if to.amount + amount > u64::MAX {
        Some(ErrorCode::ArithmeticOverflow)
    } else {
        None
    }
}

/// Checked transfer: moves `amount` from `from` to `to`, but only when
/// `authority` is the recorded owner of `from`, both accounts hold the same
/// mint, the funds are there, and the receiving balance cannot overflow.
/// On rejection neither account changes. Both engines route every fund
/// movement through this one primitive.
pub fn secure_transfer(
    amount: u64,
    from: &mut TokenAccount,
    to: &mut TokenAccount,
    authority: Key,
) -> (r: Result<(), ErrorCode>)
    ensures
        match transfer_err(*old(from), *old(to), amount, authority) {
            Some(code) => {
                &&& r == Err::<(), ErrorCode>(code)
                &&& *final(from) == *old(from)
                &&& *final(to) == *old(to)
            },
            None => {
                &&& r == Ok::<(), ErrorCode>(())
                &&& final(from).amount == old(from).amount - amount
                &&& final(to).amount == old(to).amount + amount
                &&& final(from).key == old(from).key
                &&& final(from).mint == old(from).mint
                &&& final(from).owner == old(from).owner
                &&& final(to).key == old(to).key
                &&& final(to).mint == old(to).mint
                &&& final(to).owner == old(to).owner
            },
        },
{
    if authority != from.owner {
        return Err(ErrorCode::Unauthorized);
    }
    if from.mint != to.mint {
        return Err(ErrorCode::AccountMismatch);
    }
    if from.amount < amount {
        return Err(ErrorCode::InsufficientBalance);
    }
    match to.amount.checked_add(amount) {
        None => Err(ErrorCode::ArithmeticOverflow),
        Some(new_to_amount) => {
            from.amount = from.amount - amount;
            to.amount = new_to_amount;
            Ok(())
        },
    }
}

/// Checked close: removes `account` from the ledger. Valid only when
/// `authority` is its recorded owner and the balance is exactly zero; a
/// rejected close hands the account back untouched. The ledger's reassignment
/// of the account's storage reserve to the record's player is bookkeeping
/// outside this model.
pub fn close_account(account: TokenAccount, authority: Key) -> (r: Result<
    (),
    (TokenAccount, ErrorCode),
>)
    ensures
        account.owner != authority ==> r == Err::<(), (TokenAccount, ErrorCode)>(
            (account, ErrorCode::Unauthorized),
        ),
        account.owner == authority && account.amount != 0 ==> r == Err::<
            (),
            (TokenAccount, ErrorCode),
        >((account, ErrorCode::AccountNotEmpty)),
        account.owner == authority && account.amount == 0 ==> r == Ok::<
            (),
            (TokenAccount, ErrorCode),
        >(()),
{
    if account.owner != authority {
        return Err((account, ErrorCode::Unauthorized));
    }
    if account.amount != 0 {
        return Err((account, ErrorCode::AccountNotEmpty));
    }
    Ok(())
}

} // verus!
