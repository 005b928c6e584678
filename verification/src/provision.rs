//! The provisioning protocol: which delegated call comes next, and how the
//! attempt ends.
//!
//! The library performs no call itself. It hands out one [`Action`] at a
//! time; the embedding program carries it out and reports what happened as
//! an [`Event`]. Calls are issued strictly in the order allocate,
//! initialise, attach metadata, and the first failure ends the attempt.

use crate::accounts::{Account, AccountRole, AccountSet, ACCOUNT_COUNT};
use crate::args::{CreateTokenArgs, CreationRequest};
use crate::error::{ProvisionError, Status, INCORRECT_PROGRAM_ID};
use crate::instruction::{Instruction, InstructionView, TOKEN_PROGRAM_ID};
use crate::requests::{
    mint_record_len, CreateAccountRequest, CreateMetadataRequest, CreateMetadataRequestView,
    InitializeMintRequest, MINT_RECORD_LEN,
};
use vstd::prelude::*;

verus! {

/// One delegated call: the instruction to send, and the accounts of the
/// attempt that are handed along with it, in order.
#[derive(Clone, Debug, PartialEq, Eq)]
pub struct CrossCall {
    pub instruction: Instruction,
    pub accounts: Vec<AccountRole>,
}

/// A delegated call as plain mathematics.
pub struct CrossCallView {
    pub instruction: InstructionView,
    pub accounts: Seq<AccountRole>,
}

impl View for CrossCall {
    type V = CrossCallView;

    open spec fn view(&self) -> CrossCallView {
        CrossCallView { instruction: self.instruction@, accounts: self.accounts@ }
    }
}

/// What the embedding program is asked to do next.
#[derive(Clone, Debug, PartialEq, Eq)]
pub enum Action {
    /// Report the rent-exempt minimum for an account of `space` bytes.
    QueryRent { space: usize },
    /// Perform the delegated call and report how it returned.
    Invoke(CrossCall),
}

/// An action as plain mathematics.
pub enum ActionView {
    QueryRent { space: usize },
    Invoke(CrossCallView),
}

impl View for Action {
    type V = ActionView;

    open spec fn view(&self) -> ActionView {
        match self {
            Action::QueryRent { space } => ActionView::QueryRent { space: *space },
            Action::Invoke(call) => ActionView::Invoke(call@),
        }
    }
}

/// What the embedding program reports back. A failure carries the status
/// that the host runtime gave for it.
#[derive(Clone, Copy, Debug, PartialEq, Eq)]
pub enum Event {
    /// The answer to [`Action::QueryRent`]: the minimum, in lamports.
    RentMinimum(Result<u64, Status>),
    /// The answer to [`Action::Invoke`].
    Returned(Result<(), Status>),
}

impl Event {
    /// The status of the failure that the event reports, if it reports one.
    pub open spec fn failure(self) -> Option<Status> {
        match self {
            Event::RentMinimum(Err(status)) => Some(status),
            Event::Returned(Err(status)) => Some(status),
            _ => None,
        }
    }
}

/// The answer an attempt is waiting for.
#[derive(Clone, Copy, Debug, PartialEq, Eq, Structural)]
pub enum Stage {
    /// Waiting for the rent-exempt minimum of the mint's storage.
    Budgeting,
    /// Waiting for the storage allocator.
    Allocating,
    /// Waiting for the token program.
    Initializing,
    /// Waiting for the token-metadata program.
    Attaching,
}

impl Stage {
    /// The failure to report when the answer awaited at this stage is a
    /// failure with the given status.
    pub open spec fn blame(self, status: Status) -> ProvisionError {
        match self {
            Stage::Budgeting => ProvisionError::Allocation(status),
            Stage::Allocating => ProvisionError::Allocation(status),
            Stage::Initializing => ProvisionError::Initialization(status),
            Stage::Attaching => ProvisionError::Metadata(status),
        }
    }

    /// Whether the event is an answer to what was asked at this stage.
    pub open spec fn awaits(self, event: Event) -> bool {
        match self {
            Stage::Budgeting => event is RentMinimum,
            _ => event is Returned,
        }
    }
}

/// The request that allocates the mint's storage: a mint record's worth of
/// bytes for the mint account, funded by the payer, handed to the account
/// in the token program's place.
pub open spec fn allocation(accounts: AccountSet, lamports: u64) -> CreateAccountRequest {
    CreateAccountRequest {
        payer: accounts.payer.key,
        new_account: accounts.mint.key,
        lamports,
        space: MINT_RECORD_LEN as u64,
        owner: accounts.token_program.key,
    }
}

/// The request that initialises the mint: the requested precision, and the
/// mint authority as both the minting and the freezing identity.
pub open spec fn initialization(accounts: AccountSet, decimals: u8) -> InitializeMintRequest {
    InitializeMintRequest {
        token_program: accounts.token_program.key,
        mint: accounts.mint.key,
        mint_authority: accounts.mint_authority.key,
        freeze_authority: Some(accounts.mint_authority.key),
        decimals,
    }
}

/// The request that attaches the metadata: title, symbol and uri as
/// requested, no fee, open to later updates, with the mint authority as
/// update authority.
pub open spec fn attachment(
    accounts: AccountSet,
    request: CreationRequest,
) -> CreateMetadataRequestView {
    CreateMetadataRequestView {
        metadata: accounts.metadata.key,
        mint: accounts.mint.key,
        mint_authority: accounts.mint_authority.key,
        payer: accounts.payer.key,
        update_authority: accounts.mint_authority.key,
        update_authority_is_signer: accounts.mint_authority.is_signer,
        system_program: accounts.system_program.key,
        rent: Some(accounts.rent.key),
        name: request.title,
        symbol: request.symbol,
        uri: request.uri,
        seller_fee_basis_points: 0,
        is_mutable: true,
    }
}

/// The first delegated call.
pub open spec fn allocation_call(accounts: AccountSet, lamports: u64) -> CrossCallView {
    CrossCallView {
        instruction: allocation(accounts, lamports).wire(),
        accounts: seq![
            AccountRole::Mint,
            AccountRole::Payer,
            AccountRole::SystemProgram,
            AccountRole::TokenProgram,
        ],
    }
}

/// The second delegated call.
pub open spec fn initialization_call(accounts: AccountSet, decimals: u8) -> CrossCallView {
    CrossCallView {
        instruction: initialization(accounts, decimals).wire(),
        accounts: seq![
            AccountRole::Mint,
            AccountRole::MintAuthority,
            AccountRole::TokenProgram,
            AccountRole::Rent,
        ],
    }
}

/// The third delegated call.
pub open spec fn attachment_call(accounts: AccountSet, request: CreationRequest) -> CrossCallView {
    CrossCallView {
        instruction: attachment(accounts, request).wire(),
        accounts: seq![
            AccountRole::Metadata,
            AccountRole::Mint,
            AccountRole::MintAuthority,
            AccountRole::Payer,
            AccountRole::MintAuthority,
            AccountRole::SystemProgram,
            AccountRole::Rent,
        ],
    }
}

/// An attempt in progress: the decoded request, the bound accounts, and
/// the answer it is waiting for.
#[derive(Debug)]
pub struct Provisioner {
    args: CreateTokenArgs,
    accounts: AccountSet,
    stage: Stage,
}

/// An attempt in progress as plain mathematics.
pub struct ProvisionerView {
    pub request: CreationRequest,
    pub accounts: AccountSet,
    pub stage: Stage,
}

/// How an attempt goes on after an answer.
#[derive(Debug)]
pub enum Step {
    /// The attempt continues with this action.
    Next(Provisioner, Action),
    /// The attempt is over, with this outcome.
    Finished(Result<(), ProvisionError>),
}

/// A step as plain mathematics.
pub enum StepView {
    Next(ProvisionerView, ActionView),
    Finished(Result<(), ProvisionError>),
}

impl ProvisionerView {
    /// The same attempt at another stage.
    pub open spec fn at(self, stage: Stage) -> ProvisionerView {
        ProvisionerView { request: self.request, accounts: self.accounts, stage }
    }

    /// The protocol. A failure ends the attempt and is blamed on the stage
    /// that waited for the answer. A success moves to the next stage and
    /// issues its call; after the third call it ends the attempt. The
    /// second call is issued only to the token program itself.
    pub open spec fn next(self, event: Event) -> StepView
        recommends
            self.stage.awaits(event),
    {
        match event.failure() {
            Some(status) => StepView::Finished(Err(self.stage.blame(status))),
            None => match self.stage {
                Stage::Budgeting => StepView::Next(
                    self.at(Stage::Allocating),
                    ActionView::Invoke(allocation_call(self.accounts, event->RentMinimum_0->Ok_0)),
                ),
                Stage::Allocating => if self.accounts.token_program.key == TOKEN_PROGRAM_ID {
                    StepView::Next(
                        self.at(Stage::Initializing),
                        ActionView::Invoke(
                            initialization_call(self.accounts, self.request.decimals),
                        ),
                    )
                } else {
                    StepView::Finished(Err(ProvisionError::Initialization(INCORRECT_PROGRAM_ID)))
                },
                Stage::Initializing => StepView::Next(
                    self.at(Stage::Attaching),
                    ActionView::Invoke(attachment_call(self.accounts, self.request)),
                ),
                Stage::Attaching => StepView::Finished(Ok(())),
            },
        }
    }
}

impl View for Provisioner {
    type V = ProvisionerView;

    closed spec fn view(&self) -> ProvisionerView {
        ProvisionerView { request: self.args@, accounts: self.accounts, stage: self.stage }
    }
}

impl View for Step {
    type V = StepView;

    open spec fn view(&self) -> StepView {
        match self {
            Step::Next(provisioner, action) => StepView::Next(provisioner@, action@),
            Step::Finished(outcome) => StepView::Finished(*outcome),
        }
    }
}

impl AccountSet {
    /// Builds the request that allocates the mint's storage.
    pub fn allocation(&self, lamports: u64) -> (request: CreateAccountRequest)
        ensures
            request == allocation(*self, lamports),
    {
        CreateAccountRequest {
            payer: self.payer.key,
            new_account: self.mint.key,
            lamports,
            space: mint_record_len() as u64,
            owner: self.token_program.key,
        }
    }

    /// Builds the request that initialises the mint.
    pub fn initialization(&self, decimals: u8) -> (request: InitializeMintRequest)
        ensures
            request == initialization(*self, decimals),
    {
        InitializeMintRequest {
            token_program: self.token_program.key,
            mint: self.mint.key,
            mint_authority: self.mint_authority.key,
            freeze_authority: Some(self.mint_authority.key),
            decimals,
        }
    }

    /// Builds the request that attaches the metadata.
    pub fn attachment(&self, args: &CreateTokenArgs) -> (request: CreateMetadataRequest)
        ensures
            request@ == attachment(*self, args@),
    {
        CreateMetadataRequest {
            metadata: self.metadata.key,
            mint: self.mint.key,
            mint_authority: self.mint_authority.key,
            payer: self.payer.key,
            update_authority: self.mint_authority.key,
            update_authority_is_signer: self.mint_authority.is_signer,
            system_program: self.system_program.key,
            rent: Some(self.rent.key),
            name: args.token_title.clone(),
            symbol: args.token_symbol.clone(),
            uri: args.token_uri.clone(),
            seller_fee_basis_points: 0,
            is_mutable: true,
        }
    }
}

impl Provisioner {
    #[verifier::type_invariant]
    spec fn framed(self) -> bool {
        self.args@.fits()
    }

    /// The answer the attempt is waiting for.
    pub fn stage(&self) -> (stage: Stage)
        ensures
            stage == self@.stage,
    {
        self.stage
    }

    /// The accounts the attempt works on.
    pub fn accounts(&self) -> (accounts: &AccountSet)
        ensures
            *accounts == self@.accounts,
    {
        &self.accounts
    }

    /// The request the attempt serves.
    pub fn args(&self) -> (args: &CreateTokenArgs)
        ensures
            args@ == self@.request,
            args@.fits(),
    {
        proof {
            use_type_invariant(self);
        }
        &self.args
    }

    /// Whether the event is an answer to what the attempt last asked.
    pub fn awaits(&self, event: &Event) -> (awaited: bool)
        ensures
            awaited == self@.stage.awaits(*event),
    {
        match (self.stage, event) {
            (Stage::Budgeting, Event::RentMinimum(_)) => true,
            (Stage::Budgeting, Event::Returned(_)) => false,
            (_, Event::RentMinimum(_)) => false,
            (_, Event::Returned(_)) => true,
        }
    }

    /// Opens an attempt: decodes the request, binds the accounts, and asks
    /// for the rent-exempt minimum of a mint record.
    ///
    /// The input is refused before anything is asked of the embedding
    /// program: bytes that are not a request's record with `Decoding`, and
    /// otherwise a list of fewer than eight accounts with `MissingAccount`
    /// for the first role left without an account.
    pub fn start(data: &[u8], accounts: &[Account]) -> (started: Result<
        (Provisioner, Action),
        ProvisionError,
    >)
        ensures
            match started {
                Ok((provisioner, action)) => {
                    &&& CreationRequest::decode(data@) == Some(provisioner@.request)
                    &&& accounts@.len() >= ACCOUNT_COUNT
                    &&& provisioner@.accounts == AccountSet::bind(accounts@)
                    &&& provisioner@.stage == Stage::Budgeting
                    &&& action@ == (ActionView::QueryRent { space: MINT_RECORD_LEN })
                },
                Err(error) => if CreationRequest::decode(data@) is None {
                    error == ProvisionError::Decoding
                } else {
                    &&& accounts@.len() < ACCOUNT_COUNT
                    &&& AccountRole::spec_at(accounts@.len()) matches Some(role)
                    &&& error == ProvisionError::MissingAccount(role)
                },
            },
    {
        let args = match CreateTokenArgs::try_from_slice(data) {
            Ok(args) => args,
            Err(error) => {
                return Err(error);
            },
        };
        let accounts = match AccountSet::from_list(accounts) {
            Ok(accounts) => accounts,
            Err(error) => {
                return Err(error);
            },
        };
        let provisioner = Provisioner { args, accounts, stage: Stage::Budgeting };
        Ok((provisioner, Action::QueryRent { space: mint_record_len() }))
    }

    /// Takes the answer to the last action and says how the attempt goes
    /// on: exactly as the protocol [`ProvisionerView::next`] prescribes.
    pub fn advance(self, event: Event) -> (step: Step)
        requires
            self@.stage.awaits(event),
        ensures
            step@ == self@.next(event),
    {
        proof {
            use_type_invariant(&self);
        }
        let Provisioner { args, accounts, stage } = self;
        match (stage, event) {
            (Stage::Budgeting, Event::RentMinimum(Ok(lamports))) => {
                let instruction = accounts.allocation(lamports).to_instruction();
                let roles = vec![
                    AccountRole::Mint,
                    AccountRole::Payer,
                    AccountRole::SystemProgram,
                    AccountRole::TokenProgram,
                ];
                let call = CrossCall { instruction, accounts: roles };
                Step::Next(
                    Provisioner { args, accounts, stage: Stage::Allocating },
                    Action::Invoke(call),
                )
            },
            (Stage::Budgeting, Event::RentMinimum(Err(status))) => Step::Finished(
                Err(ProvisionError::Allocation(status)),
            ),
            (Stage::Allocating, Event::Returned(Ok(()))) => {
                match accounts.initialization(args.token_decimals).to_instruction() {
                    Ok(instruction) => {
                        let roles = vec![
                            AccountRole::Mint,
                            AccountRole::MintAuthority,
                            AccountRole::TokenProgram,
                            AccountRole::Rent,
                        ];
                        let call = CrossCall { instruction, accounts: roles };
                        Step::Next(
                            Provisioner { args, accounts, stage: Stage::Initializing },
                            Action::Invoke(call),
                        )
                    },
                    Err(error) => Step::Finished(Err(error)),
                }
            },
            (Stage::Allocating, Event::Returned(Err(status))) => Step::Finished(
                Err(ProvisionError::Allocation(status)),
            ),
            (Stage::Initializing, Event::Returned(Ok(()))) => {
                let instruction = accounts.attachment(&args).to_instruction();
                let roles = vec![
                    AccountRole::Metadata,
                    AccountRole::Mint,
                    AccountRole::MintAuthority,
                    AccountRole::Payer,
                    AccountRole::MintAuthority,
                    AccountRole::SystemProgram,
                    AccountRole::Rent,
                ];
                let call = CrossCall { instruction, accounts: roles };
                Step::Next(
                    Provisioner { args, accounts, stage: Stage::Attaching },
                    Action::Invoke(call),
                )
            },
            (Stage::Initializing, Event::Returned(Err(status))) => Step::Finished(
                Err(ProvisionError::Initialization(status)),
            ),
            (Stage::Attaching, Event::Returned(Ok(()))) => Step::Finished(Ok(())),
            (Stage::Attaching, Event::Returned(Err(status))) => Step::Finished(
                Err(ProvisionError::Metadata(status)),
            ),
            _ => {
                assert(false);
                Step::Finished(Ok(()))
            },
        }
    }
}

} // verus!
