//! Why a provisioning attempt ends without success.

use crate::accounts::AccountRole;
use vstd::prelude::*;

verus! {

/// The number by which the host runtime tells one failure from another.
pub type Status = u64;

/// Status the host runtime shows for an incorrect program id.
pub const INCORRECT_PROGRAM_ID: Status = 0x0000_0007_0000_0000;

/// Status the host runtime shows for a list with too few accounts.
pub const NOT_ENOUGH_ACCOUNT_KEYS: Status = 0x0000_000b_0000_0000;

/// Status the host runtime shows for input bytes that do not decode.
pub const BORSH_IO_ERROR: Status = 0x0000_000f_0000_0000;

/// The failure of one provisioning attempt.
///
/// A failure names the stage that refused. The three delegated stages also
/// carry the status reported for them, unchanged.
#[derive(Clone, Copy, Debug, PartialEq, Eq, Structural)]
pub enum ProvisionError {
    /// The input bytes are not the encoding of a creation request.
    Decoding,
    /// The account list ends before the account of this role.
    MissingAccount(AccountRole),
    /// The mint's storage could not be budgeted or allocated.
    Allocation(Status),
    /// The mint could not be initialised.
    Initialization(Status),
    /// The metadata record could not be attached.
    Metadata(Status),
}

impl ProvisionError {
    /// The status the host runtime is shown for this failure.
    pub open spec fn spec_status(self) -> Status {
        match self {
            ProvisionError::Decoding => BORSH_IO_ERROR,
            ProvisionError::MissingAccount(_) => NOT_ENOUGH_ACCOUNT_KEYS,
            ProvisionError::Allocation(status) => status,
            ProvisionError::Initialization(status) => status,
            ProvisionError::Metadata(status) => status,
        }
    }

    /// The status to report to the host runtime: the library's own for a
    /// refused input, and for a delegated stage the one it reported.
    #[verifier::when_used_as_spec(spec_status)]
    pub fn status(self) -> (status: Status)
        ensures
            status == self.spec_status(),
    {
        match self {
            ProvisionError::Decoding => BORSH_IO_ERROR,
            ProvisionError::MissingAccount(_) => NOT_ENOUGH_ACCOUNT_KEYS,
            ProvisionError::Allocation(status) => status,
            ProvisionError::Initialization(status) => status,
            ProvisionError::Metadata(status) => status,
        }
    }
}

} // verus!
