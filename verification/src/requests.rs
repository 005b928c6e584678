//! The three delegated calls: what each asks for and the instruction it is
//! sent as.

use crate::accounts::Address;
use crate::codec::{text_fits, text_frame, u16_le, u64_le};
use crate::error::{ProvisionError, INCORRECT_PROGRAM_ID};
use crate::instruction::{
    AccountMeta, Instruction, InstructionView, RENT_SYSVAR_ID, SYSTEM_PROGRAM_ID,
    TOKEN_METADATA_PROGRAM_ID, TOKEN_PROGRAM_ID,
};
use mpl_token_metadata::instructions::{
    CreateMetadataAccountV3, CreateMetadataAccountV3InstructionArgs,
};
use mpl_token_metadata::types::DataV2;
use solana_program::program_error::ProgramError;
use solana_program::program_pack::Pack;
use solana_program::pubkey::Pubkey;
use vstd::prelude::*;

verus! {

/// The error type of the token crate's instruction builders. Nothing is
/// known of a value of it; the library only tells failure from success.
#[verifier::external_type_specification]
#[verifier::external_body]
pub struct ExProgramError(ProgramError);

/// Size in bytes of a mint record in the token program's format.
pub const MINT_RECORD_LEN: usize = 82;

/// A request to the storage allocator: create `new_account` with `space`
/// bytes, fund it with `lamports` from `payer`, and hand it to `owner`.
#[derive(Clone, Copy, Debug, PartialEq, Eq)]
pub struct CreateAccountRequest {
    pub payer: Address,
    pub new_account: Address,
    pub lamports: u64,
    pub space: u64,
    pub owner: Address,
}

/// A request to the token program: stamp `mint` with its precision and the
/// identities that may mint and freeze.
#[derive(Clone, Copy, Debug, PartialEq, Eq)]
pub struct InitializeMintRequest {
    pub token_program: Address,
    pub mint: Address,
    pub mint_authority: Address,
    pub freeze_authority: Option<Address>,
    pub decimals: u8,
}

/// A request to the token-metadata program: create the record at `metadata`
/// that describes `mint`.
///
/// The request has no place for a creator list, a collection link, a uses
/// descriptor or collection details: it is always sent without them.
#[derive(Clone, Debug, PartialEq, Eq)]
pub struct CreateMetadataRequest {
    pub metadata: Address,
    pub mint: Address,
    pub mint_authority: Address,
    pub payer: Address,
    pub update_authority: Address,
    /// Whether the update authority signs the call.
    pub update_authority_is_signer: bool,
    pub system_program: Address,
    pub rent: Option<Address>,
    pub name: String,
    pub symbol: String,
    pub uri: String,
    pub seller_fee_basis_points: u16,
    pub is_mutable: bool,
}

/// A metadata request as plain mathematics.
pub struct CreateMetadataRequestView {
    pub metadata: Address,
    pub mint: Address,
    pub mint_authority: Address,
    pub payer: Address,
    pub update_authority: Address,
    pub update_authority_is_signer: bool,
    pub system_program: Address,
    pub rent: Option<Address>,
    pub name: Seq<char>,
    pub symbol: Seq<char>,
    pub uri: Seq<char>,
    pub seller_fee_basis_points: u16,
    pub is_mutable: bool,
}

impl View for CreateMetadataRequest {
    type V = CreateMetadataRequestView;

    open spec fn view(&self) -> CreateMetadataRequestView {
        CreateMetadataRequestView {
            metadata: self.metadata,
            mint: self.mint,
            mint_authority: self.mint_authority,
            payer: self.payer,
            update_authority: self.update_authority,
            update_authority_is_signer: self.update_authority_is_signer,
            system_program: self.system_program,
            rent: self.rent,
            name: self.name@,
            symbol: self.symbol@,
            uri: self.uri@,
            seller_fee_basis_points: self.seller_fee_basis_points,
            is_mutable: self.is_mutable,
        }
    }
}

impl CreateAccountRequest {
    /// The instruction the request is sent as. It goes to the system
    /// program, names payer and new account as writable signers, and
    /// carries the allocator's first command with the three parameters.
    pub open spec fn wire(self) -> InstructionView {
        InstructionView {
            program_id: SYSTEM_PROGRAM_ID,
            accounts: seq![
                AccountMeta::writable(self.payer, true),
                AccountMeta::writable(self.new_account, true),
            ],
            data: seq![0u8, 0, 0, 0] + u64_le(self.lamports) + u64_le(self.space) + self.owner@,
        }
    }

    /// Builds the instruction that carries this request.
    pub fn to_instruction(&self) -> (instruction: Instruction)
        ensures
            instruction@ == self.wire(),
    {
        system_create_account(self)
    }
}

impl InitializeMintRequest {
    /// The bytes that say who may freeze: a presence flag, then the address
    /// if there is one.
    pub open spec fn freeze_authority_bytes(self) -> Seq<u8> {
        match self.freeze_authority {
            Some(address) => seq![1u8] + address@,
            None => seq![0u8],
        }
    }

    /// The instruction the request is sent as. It goes to the token
    /// program, names the mint as writable and the rent sysvar as read, and
    /// carries the token program's first command: the precision, the mint
    /// authority, the freeze authority.
    pub open spec fn wire(self) -> InstructionView {
        InstructionView {
            program_id: self.token_program,
            accounts: seq![
                AccountMeta::writable(self.mint, false),
                AccountMeta::readonly(RENT_SYSVAR_ID, false),
            ],
            data: seq![0u8, self.decimals] + self.mint_authority@ + self.freeze_authority_bytes(),
        }
    }

    /// Builds the instruction that carries this request.
    ///
    /// Only the token program itself is accepted as the receiver; for any
    /// other address no instruction is built and the attempt fails at this
    /// stage with the status for an incorrect program id.
    pub fn to_instruction(&self) -> (built: Result<Instruction, ProvisionError>)
        ensures
            self.token_program == TOKEN_PROGRAM_ID ==> built is Ok,
            built matches Ok(instruction) ==> self.token_program == TOKEN_PROGRAM_ID
                && instruction@ == self.wire(),
            built matches Err(error) ==> error == ProvisionError::Initialization(
                INCORRECT_PROGRAM_ID,
            ),
    {
        match token_initialize_mint(self) {
            Ok(instruction) => Ok(instruction),
            Err(_) => Err(ProvisionError::Initialization(INCORRECT_PROGRAM_ID)),
        }
    }
}

impl CreateMetadataRequestView {
    /// Whether the request can be sent: each of its texts can be framed.
    pub open spec fn fits(self) -> bool {
        &&& text_fits(self.name)
        &&& text_fits(self.symbol)
        &&& text_fits(self.uri)
    }

    /// The accounts the instruction names, in order: the record (writable),
    /// the mint, the mint authority (signer), the payer (writable signer),
    /// the update authority, the system program, and the rent sysvar where
    /// one is given.
    pub open spec fn wire_accounts(self) -> Seq<AccountMeta> {
        let fixed = seq![
            AccountMeta::writable(self.metadata, false),
            AccountMeta::readonly(self.mint, false),
            AccountMeta::readonly(self.mint_authority, true),
            AccountMeta::writable(self.payer, true),
            AccountMeta::readonly(self.update_authority, self.update_authority_is_signer),
            AccountMeta::readonly(self.system_program, false),
        ];
        match self.rent {
            Some(rent) => fixed.push(AccountMeta::readonly(rent, false)),
            None => fixed,
        }
    }

    /// The bytes the instruction carries: the command number; name, symbol
    /// and uri, each framed; the fee; one zero byte each for the absent
    /// creator list, collection link and uses descriptor; the mutability
    /// flag; one zero byte for the absent collection details.
    pub open spec fn wire_data(self) -> Seq<u8> {
        seq![33u8] + text_frame(self.name) + text_frame(self.symbol) + text_frame(self.uri)
            + u16_le(self.seller_fee_basis_points) + seq![0u8, 0, 0] + seq![
            if self.is_mutable {
                1u8
            } else {
                0u8
            },
        ] + seq![0u8]
    }

    /// The instruction the request is sent as; it goes to the
    /// token-metadata program.
    pub open spec fn wire(self) -> InstructionView {
        InstructionView {
            program_id: TOKEN_METADATA_PROGRAM_ID,
            accounts: self.wire_accounts(),
            data: self.wire_data(),
        }
    }
}

impl CreateMetadataRequest {
    /// Builds the instruction that carries this request.
    pub fn to_instruction(self) -> (instruction: Instruction)
        requires
            self@.fits(),
        ensures
            instruction@ == self@.wire(),
    {
        metadata_create_account_v3(self)
    }
}

/// Size of a mint record, as the token crate states it.
pub fn mint_record_len() -> (len: usize)
    ensures
        len == MINT_RECORD_LEN,
{
    token_mint_len()
}

/// Reads `spl_token`'s `Mint::LEN`.
///
/// Trusted: the constant is 82.
#[verifier::external_body]
fn token_mint_len() -> (len: usize)
    ensures
        len == MINT_RECORD_LEN,
{
    spl_token::state::Mint::LEN
}

/// Calls `solana_program`'s `system_instruction::create_account`.
///
/// Trusted: the result is addressed to the system program, names the two
/// accounts as writable signers in the order payer, new account, and its
/// data are the variant number zero in four bytes, the two amounts in eight
/// little-endian bytes each, and the owner's address.
#[verifier::external_body]
fn system_create_account(request: &CreateAccountRequest) -> (instruction: Instruction)
    ensures
        instruction@ == request.wire(),
{
    let built = solana_program::system_instruction::create_account(
        &Pubkey::from(request.payer),
        &Pubkey::from(request.new_account),
        request.lamports,
        request.space,
        &Pubkey::from(request.owner),
    );
    let metas = built.accounts.iter().map(|m| AccountMeta::new(m.pubkey.to_bytes(), m.is_signer, m.is_writable));
    Instruction::new(built.program_id.to_bytes(), metas.collect(), built.data)
}

/// Calls `spl_token`'s `instruction::initialize_mint`.
///
/// Trusted: the call fails exactly when the receiver is not the token
/// program. Otherwise the result is addressed to the receiver, names the
/// mint as writable and the rent sysvar as read, neither as signer, and its
/// data are a zero byte, the decimals, the mint authority's address, and
/// the freeze authority as a presence flag and address.
#[verifier::external_body]
fn token_initialize_mint(request: &InitializeMintRequest) -> (built: Result<
    Instruction,
    ProgramError,
>)
    ensures
        built is Ok <==> request.token_program == TOKEN_PROGRAM_ID,
        built matches Ok(instruction) ==> instruction@ == request.wire(),
{
    let freeze = request.freeze_authority.map(Pubkey::from);
    let built = spl_token::instruction::initialize_mint(
        &Pubkey::from(request.token_program),
        &Pubkey::from(request.mint),
        &Pubkey::from(request.mint_authority),
        freeze.as_ref(),
        request.decimals,
    )?;
    let metas = built.accounts.iter().map(|m| AccountMeta::new(m.pubkey.to_bytes(), m.is_signer, m.is_writable));
    Ok(Instruction::new(built.program_id.to_bytes(), metas.collect(), built.data))
}

/// Calls `mpl_token_metadata`'s `CreateMetadataAccountV3::instruction`,
/// with no creators, collection, uses or collection details.
///
/// Trusted: the result is addressed to the token-metadata program, names
/// the accounts as `wire_accounts` lists them, and its data are the command
/// number 33 followed by the argument record in the encoding that
/// `wire_data` spells out. The call panics on a text whose UTF-8 form is
/// longer than four bytes can count; `requires` leaves those out.
#[verifier::external_body]
fn metadata_create_account_v3(r: CreateMetadataRequest) -> (instruction: Instruction)
    requires
        r@.fits(),
    ensures
        instruction@ == r@.wire(),
{
    let built = CreateMetadataAccountV3 {
        metadata: r.metadata.into(), mint: r.mint.into(), mint_authority: r.mint_authority.into(),
        payer: r.payer.into(), system_program: r.system_program.into(),
        update_authority: (r.update_authority.into(), r.update_authority_is_signer),
        rent: r.rent.map(Pubkey::from)
    }.instruction(CreateMetadataAccountV3InstructionArgs {
        data: DataV2 { name: r.name, symbol: r.symbol, uri: r.uri, creators: None, collection: None,
            seller_fee_basis_points: r.seller_fee_basis_points, uses: None },
        is_mutable: r.is_mutable, collection_details: None
    });
    Instruction::new(built.program_id.to_bytes(), built.accounts.iter().map(
        |m| AccountMeta::new(m.pubkey.to_bytes(), m.is_signer, m.is_writable)).collect(), built.data)
}

} // verus!
