use vstd::prelude::*;

verus! {

/// Reasons an operation is refused; a refused operation changes nothing.
#[derive(Debug, Clone, Copy, PartialEq, Eq, Structural)]
pub enum ErrorCode {
    /// The submitted text does not satisfy the challenge's word constraint.
    InvalidText,
    /// The proof hash has fewer leading zero bits than the difficulty.
    InsufficientDifficulty,
    /// The supply cap has been reached.
    MaxSupplyReached,
    /// The current epoch has ended; it must be advanced first.
    EpochEnded,
    /// The epoch has not ended yet.
    EpochNotEnded,
    /// The claimer is not the solution's submitter.
    InvalidRecipient,
    /// The solution's claim window has passed.
    ClaimExpired,
    /// The solution's claim window is still open.
    NotExpired,
    /// The signer lacks the required identity or role.
    Unauthorized,
    /// No vested units are available.
    NothingToWithdraw,
}

impl ErrorCode {
    /// The description of each error.
    pub open spec fn message_spec(&self) -> Seq<char> {
        match self {
            ErrorCode::InvalidText => "Text verification failed"@,
            ErrorCode::InsufficientDifficulty => "Hash does not meet difficulty requirement"@,
            ErrorCode::MaxSupplyReached => "Maximum token supply reached"@,
            ErrorCode::EpochEnded => "Current epoch has ended, call advance_epoch first"@,
            ErrorCode::EpochNotEnded => "Epoch has not ended yet"@,
            ErrorCode::InvalidRecipient => "Recipient does not match"@,
            ErrorCode::ClaimExpired => "Solution claim period has expired (500 epochs)"@,
            ErrorCode::NotExpired => "Solution has not expired yet"@,
            ErrorCode::Unauthorized => "Unauthorized"@,
            ErrorCode::NothingToWithdraw => "Nothing to withdraw"@,
        }
    }

    /// Human-readable description of the error.
    pub fn message(&self) -> (r: &'static str)
        ensures
            r@ == self.message_spec(),
    {
        match self {
            ErrorCode::InvalidText => "Text verification failed",
            ErrorCode::InsufficientDifficulty => "Hash does not meet difficulty requirement",
            ErrorCode::MaxSupplyReached => "Maximum token supply reached",
            ErrorCode::EpochEnded => "Current epoch has ended, call advance_epoch first",
            ErrorCode::EpochNotEnded => "Epoch has not ended yet",
            ErrorCode::InvalidRecipient => "Recipient does not match",
            ErrorCode::ClaimExpired => "Solution claim period has expired (500 epochs)",
            ErrorCode::NotExpired => "Solution has not expired yet",
            ErrorCode::Unauthorized => "Unauthorized",
            ErrorCode::NothingToWithdraw => "Nothing to withdraw",
        }
    }
}

} // verus!
