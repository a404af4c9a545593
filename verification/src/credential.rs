//! What the engine reads of a credential.

use vstd::prelude::*;

verus! {

/// The state of one credential as the credential store holds it. The engine
/// reads it, and asks for a new time of last claim by handing back a changed
/// copy.
#[derive(Clone, Copy, Debug, PartialEq, Eq, Structural)]
pub struct CredentialState {
    /// Whether the holder is allowed to claim. The store can switch it off
    /// for any account.
    pub eligible: bool,
    /// When the current rate-limit window opened, in seconds.
    pub last_claim_timestamp: i64,
}

} // verus!
