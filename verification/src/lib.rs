//! Provisioning of a fungible-token mint with attached metadata.
//!
//! One operation decodes a creation request, binds eight positional accounts
//! to named roles and then drives three delegated calls in a fixed order:
//! allocate the mint's storage, initialise the mint, attach its metadata.
//! The library decides what is requested and in which order; performing the
//! calls is left to the embedding program, which reports each outcome back.

pub mod accounts;
pub mod args;
pub mod boundary;
pub mod codec;
pub mod error;
pub mod instruction;
pub mod laws;
pub mod provision;
pub mod requests;

pub use accounts::{Account, AccountRole, AccountSet, Address};
pub use args::CreateTokenArgs;
pub use error::{ProvisionError, Status};
pub use instruction::{AccountMeta, Instruction};
pub use provision::{Action, CrossCall, Event, Provisioner, Stage, Step};
