//! The accounts an attempt works on, bound to roles by position.

use crate::error::ProvisionError;
use vstd::prelude::*;

verus! {

/// The identity of an account or program: thirty-two bytes.
pub type Address = [u8; 32];

/// Number of accounts an attempt reads from the head of its list.
pub const ACCOUNT_COUNT: usize = 8;

/// What the provisioning logic reads of one supplied account.
#[derive(Clone, Copy, Debug, PartialEq, Eq)]
pub struct Account {
    /// The account's identity.
    pub key: Address,
    /// Whether the enclosing transaction was signed for this account.
    pub is_signer: bool,
}

/// The role an account plays, fixed by its position in the list.
#[derive(Clone, Copy, Debug, PartialEq, Eq, Structural)]
pub enum AccountRole {
    /// Storage that becomes the mint record.
    Mint,
    /// Identity that controls minting and freezing, and later updates of the
    /// metadata record.
    MintAuthority,
    /// Storage that becomes the metadata record.
    Metadata,
    /// Identity that funds the new storage.
    Payer,
    /// The rent sysvar.
    Rent,
    /// The system program, which allocates storage.
    SystemProgram,
    /// The token program, which owns and initialises the mint.
    TokenProgram,
    /// The token-metadata program.
    TokenMetadataProgram,
}

impl AccountRole {
    /// Position of the role's account in the list.
    pub open spec fn spec_position(self) -> nat {
        match self {
            AccountRole::Mint => 0,
            AccountRole::MintAuthority => 1,
            AccountRole::Metadata => 2,
            AccountRole::Payer => 3,
            AccountRole::Rent => 4,
            AccountRole::SystemProgram => 5,
            AccountRole::TokenProgram => 6,
            AccountRole::TokenMetadataProgram => 7,
        }
    }

    /// The role bound to a position; positions past the last role have none.
    pub open spec fn spec_at(position: nat) -> Option<AccountRole> {
        if position == 0 {
            Some(AccountRole::Mint)
        } else if position == 1 {
            Some(AccountRole::MintAuthority)
        } else if position == 2 {
            Some(AccountRole::Metadata)
        } else if position == 3 {
            Some(AccountRole::Payer)
        } else if position == 4 {
            Some(AccountRole::Rent)
        } else if position == 5 {
            Some(AccountRole::SystemProgram)
        } else if position == 6 {
            Some(AccountRole::TokenProgram)
        } else if position == 7 {
            Some(AccountRole::TokenMetadataProgram)
        } else {
            None
        }
    }

    /// Position of the role's account in the list.
    pub fn position(self) -> (position: usize)
        ensures
            position == self.spec_position(),
            position < ACCOUNT_COUNT,
    {
        match self {
            AccountRole::Mint => 0,
            AccountRole::MintAuthority => 1,
            AccountRole::Metadata => 2,
            AccountRole::Payer => 3,
            AccountRole::Rent => 4,
            AccountRole::SystemProgram => 5,
            AccountRole::TokenProgram => 6,
            AccountRole::TokenMetadataProgram => 7,
        }
    }

    /// The role bound to a position, if there is one.
    pub fn at(position: usize) -> (role: Option<AccountRole>)
        ensures
            role == AccountRole::spec_at(position as nat),
            role is Some <==> position < ACCOUNT_COUNT,
            role matches Some(r) ==> r.spec_position() == position,
    {
        if position == 0 {
            Some(AccountRole::Mint)
        } else if position == 1 {
            Some(AccountRole::MintAuthority)
        } else if position == 2 {
            Some(AccountRole::Metadata)
        } else if position == 3 {
            Some(AccountRole::Payer)
        } else if position == 4 {
            Some(AccountRole::Rent)
        } else if position == 5 {
            Some(AccountRole::SystemProgram)
        } else if position == 6 {
            Some(AccountRole::TokenProgram)
        } else if position == 7 {
            Some(AccountRole::TokenMetadataProgram)
        } else {
            None
        }
    }
}

/// The eight accounts of an attempt, each under the name of its role.
#[derive(Clone, Copy, Debug, PartialEq, Eq)]
pub struct AccountSet {
    pub mint: Account,
    pub mint_authority: Account,
    pub metadata: Account,
    pub payer: Account,
    pub rent: Account,
    pub system_program: Account,
    pub token_program: Account,
    pub token_metadata_program: Account,
}

impl AccountSet {
    /// The account that plays the given role.
    pub open spec fn spec_get(&self, role: AccountRole) -> Account {
        match role {
            AccountRole::Mint => self.mint,
            AccountRole::MintAuthority => self.mint_authority,
            AccountRole::Metadata => self.metadata,
            AccountRole::Payer => self.payer,
            AccountRole::Rent => self.rent,
            AccountRole::SystemProgram => self.system_program,
            AccountRole::TokenProgram => self.token_program,
            AccountRole::TokenMetadataProgram => self.token_metadata_program,
        }
    }

    /// The set that a list of at least eight accounts is bound to: each role
    /// takes the account at its position, whatever that account is.
    pub open spec fn bind(list: Seq<Account>) -> AccountSet
        recommends
            list.len() >= ACCOUNT_COUNT,
    {
        AccountSet {
            mint: list[0],
            mint_authority: list[1],
            metadata: list[2],
            payer: list[3],
            rent: list[4],
            system_program: list[5],
            token_program: list[6],
            token_metadata_program: list[7],
        }
    }

    /// The account that plays the given role.
    #[verifier::when_used_as_spec(spec_get)]
    pub fn get(&self, role: AccountRole) -> (account: Account)
        ensures
            account == self.spec_get(role),
    {
        match role {
            AccountRole::Mint => self.mint,
            AccountRole::MintAuthority => self.mint_authority,
            AccountRole::Metadata => self.metadata,
            AccountRole::Payer => self.payer,
            AccountRole::Rent => self.rent,
            AccountRole::SystemProgram => self.system_program,
            AccountRole::TokenProgram => self.token_program,
            AccountRole::TokenMetadataProgram => self.token_metadata_program,
        }
    }

    /// Binds the head of a positional list to the eight roles.
    ///
    /// A list of eight or more accounts always binds; what follows the eighth
    /// is not read. A shorter list is refused, and the error names the role
    /// of the first account that is missing.
    pub fn from_list(list: &[Account]) -> (bound: Result<AccountSet, ProvisionError>)
        ensures
            list@.len() >= ACCOUNT_COUNT ==> bound == Ok::<AccountSet, ProvisionError>(
                AccountSet::bind(list@),
            ),
            list@.len() < ACCOUNT_COUNT ==> (AccountRole::spec_at(list@.len()) matches Some(role)
                && bound == Err::<AccountSet, ProvisionError>(ProvisionError::MissingAccount(role))),
    {
        match AccountRole::at(list.len()) {
            Some(role) => Err(ProvisionError::MissingAccount(role)),
            None => Ok(
                AccountSet {
                    mint: list[0],
                    mint_authority: list[1],
                    metadata: list[2],
                    payer: list[3],
                    rent: list[4],
                    system_program: list[5],
                    token_program: list[6],
                    token_metadata_program: list[7],
                },
            ),
        }
    }
}

/// Every role's account is the one at the role's position in the list.
pub proof fn lemma_bind_is_positional(list: Seq<Account>, role: AccountRole)
    requires
        list.len() >= ACCOUNT_COUNT,
    ensures
        AccountSet::bind(list).spec_get(role) == list[role.spec_position() as int],
        AccountRole::spec_at(role.spec_position()) == Some(role),
{
}

} // verus!
