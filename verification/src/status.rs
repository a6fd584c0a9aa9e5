//! The status codes that every boundary call returns synchronously.

use vstd::prelude::*;

verus! {

/// The status of a boundary call.
///
/// Any status but `Success` means that the call started no background work and wrote
/// no output handle.
#[derive(Copy, Clone, Debug, PartialEq, Eq, Structural)]
pub enum ExitCode {
    Success,
    FailedToCreateRuntime,
    RuntimeIsNotInitialized,
    TransportIsNotInitialized,
    SubscriptionIsNotInitialized,
    FailedToSubscribeToTonWallet,
    InvalidUrl,
    InvalidPublicKey,
}

impl ExitCode {
    /// The number under which the host knows this status: the variants count
    /// up from zero in the order of their declaration.
    pub open spec fn number(self) -> int {
        match self {
            ExitCode::Success => 0,
            ExitCode::FailedToCreateRuntime => 1,
            ExitCode::RuntimeIsNotInitialized => 2,
            ExitCode::TransportIsNotInitialized => 3,
            ExitCode::SubscriptionIsNotInitialized => 4,
            ExitCode::FailedToSubscribeToTonWallet => 5,
            ExitCode::InvalidUrl => 6,
            ExitCode::InvalidPublicKey => 7,
        }
    }

    /// Whether this status reports success.
    pub open spec fn accepted(self) -> bool {
        self == ExitCode::Success
    }

    /// The status as the integer that crosses the boundary.
    pub fn code(self) -> (c: i32)
        ensures
            c == self.number(),
    {
        match self {
            ExitCode::Success => 0,
            ExitCode::FailedToCreateRuntime => 1,
            ExitCode::RuntimeIsNotInitialized => 2,
            ExitCode::TransportIsNotInitialized => 3,
            ExitCode::SubscriptionIsNotInitialized => 4,
            ExitCode::FailedToSubscribeToTonWallet => 5,
            ExitCode::InvalidUrl => 6,
            ExitCode::InvalidPublicKey => 7,
        }
    }

    /// Whether this status reports success.
    pub fn is_ok(self) -> (ok: bool)
        ensures
            ok == self.accepted(),
            ok == (self.number() == 0),
    {
        matches!(self, ExitCode::Success)
    }
}

/// Two statuses that cross the boundary as the same integer are the same
/// status, and every status crosses as one of the integers 0 to 7.
pub proof fn status_numbers_distinct(a: ExitCode, b: ExitCode)
    ensures
        0 <= a.number() <= 7,
        a.number() == b.number() <==> a == b,
{
}

} // verus!
