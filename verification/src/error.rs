//! The reasons for which the engine rejects a call.

use vstd::prelude::*;

verus! {

/// Why a call was rejected. A rejected call changes nothing.
#[derive(Clone, Copy, Debug, PartialEq, Eq, Structural)]
pub enum EngineError {
    /// The credential's eligibility flag is off.
    InvalidCredential,
    /// The claim interval since the last claim has not passed yet.
    TooSoon,
    /// The current window has no claim left.
    GroupQuotaExceeded,
    /// The asset presented is of the wrong kind of token.
    WrongAsset,
    /// The asset presented holds less than the operation takes.
    InsufficientPayment,
    /// The identity was never registered.
    UnknownAccount,
    /// No recipient of a batch accepted delivery.
    NoRecipient,
}

impl EngineError {
    /// A short reason to show to the caller.
    pub fn reason(&self) -> (text: &'static str)
        ensures
            text@ == (match *self {
                EngineError::InvalidCredential => "You have no dick"@,
                EngineError::TooSoon => "Too soon to claim again"@,
                EngineError::GroupQuotaExceeded => "No more free claims today"@,
                EngineError::WrongAsset => "Wrong coin"@,
                EngineError::InsufficientPayment => "Insufficient payment"@,
                EngineError::UnknownAccount => "Unknown account"@,
                EngineError::NoRecipient => "No recipient accepted delivery"@,
            }),
    {
        match self {
            EngineError::InvalidCredential => "You have no dick",
            EngineError::TooSoon => "Too soon to claim again",
            EngineError::GroupQuotaExceeded => "No more free claims today",
            EngineError::WrongAsset => "Wrong coin",
            EngineError::InsufficientPayment => "Insufficient payment",
            EngineError::UnknownAccount => "Unknown account",
            EngineError::NoRecipient => "No recipient accepted delivery",
        }
    }
}

} // verus!
