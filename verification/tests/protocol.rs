use create_token::boundary::settle;
use create_token::error::INCORRECT_PROGRAM_ID;
use create_token::instruction::{
    RENT_SYSVAR_ID, SYSTEM_PROGRAM_ID, TOKEN_METADATA_PROGRAM_ID, TOKEN_PROGRAM_ID,
};
use create_token::{
    Account, AccountMeta, AccountRole, Action, CrossCall, Event, ProvisionError, Provisioner,
    Stage, Step,
};

const MINT: [u8; 32] = [1; 32];
const AUTHORITY: [u8; 32] = [2; 32];
const METADATA: [u8; 32] = [3; 32];
const PAYER: [u8; 32] = [4; 32];

fn demo_record() -> Vec<u8> {
    let mut data = Vec::new();
    for text in ["Demo Token", "DEMO", "https://x/demo.json"] {
        data.extend_from_slice(&(text.len() as u32).to_le_bytes());
        data.extend_from_slice(text.as_bytes());
    }
    data.push(6);
    data
}

fn demo_accounts() -> Vec<Account> {
    vec![
        Account { key: MINT, is_signer: true },
        Account { key: AUTHORITY, is_signer: true },
        Account { key: METADATA, is_signer: false },
        Account { key: PAYER, is_signer: true },
        Account { key: RENT_SYSVAR_ID, is_signer: false },
        Account { key: SYSTEM_PROGRAM_ID, is_signer: false },
        Account { key: TOKEN_PROGRAM_ID, is_signer: false },
        Account { key: TOKEN_METADATA_PROGRAM_ID, is_signer: false },
    ]
}

fn started() -> Provisioner {
    let (provisioner, action) = Provisioner::start(&demo_record(), &demo_accounts()).unwrap();
    assert_eq!(action, Action::QueryRent { space: 82 });
    provisioner
}

fn next(step: Step) -> (Provisioner, CrossCall) {
    match step {
        Step::Next(provisioner, Action::Invoke(call)) => (provisioner, call),
        other => panic!("the attempt should go on with a call, not {:?}", other),
    }
}

fn finished(step: Step) -> Result<(), ProvisionError> {
    match step {
        Step::Finished(outcome) => outcome,
        other => panic!("the attempt should be over, not {:?}", other),
    }
}

#[test]
fn start_asks_for_the_rent_of_a_mint_record() {
    let provisioner = started();
    assert_eq!(provisioner.stage(), Stage::Budgeting);
    assert_eq!(provisioner.args().token_title, "Demo Token");
    assert_eq!(provisioner.args().token_decimals, 6);
    assert_eq!(provisioner.accounts().payer.key, PAYER);
    assert_eq!(provisioner.accounts().token_metadata_program.key, TOKEN_METADATA_PROGRAM_ID);
}

#[test]
fn start_refuses_a_malformed_record() {
    let mut data = demo_record();
    data.push(0);
    let refused = Provisioner::start(&data, &demo_accounts()).unwrap_err();
    assert_eq!(refused, ProvisionError::Decoding);
}

#[test]
fn start_refuses_a_short_account_list() {
    let accounts = demo_accounts();
    let refused = Provisioner::start(&demo_record(), &accounts[..7]).unwrap_err();
    assert_eq!(refused, ProvisionError::MissingAccount(AccountRole::TokenMetadataProgram));
    let refused = Provisioner::start(&demo_record(), &[]).unwrap_err();
    assert_eq!(refused, ProvisionError::MissingAccount(AccountRole::Mint));
}

#[test]
fn start_reports_the_record_before_the_accounts() {
    let refused = Provisioner::start(&[1, 2, 3], &[]).unwrap_err();
    assert_eq!(refused, ProvisionError::Decoding);
}

#[test]
fn start_accepts_more_than_eight_accounts() {
    let mut accounts = demo_accounts();
    accounts.push(Account { key: [99; 32], is_signer: true });
    let (provisioner, _) = Provisioner::start(&demo_record(), &accounts).unwrap();
    assert_eq!(provisioner.accounts().token_metadata_program.key, TOKEN_METADATA_PROGRAM_ID);
}

#[test]
fn the_three_calls_go_out_in_order() {
    let provisioner = started();
    assert!(provisioner.awaits(&Event::RentMinimum(Ok(0))));
    assert!(!provisioner.awaits(&Event::Returned(Ok(()))));

    let (provisioner, allocate) = next(provisioner.advance(Event::RentMinimum(Ok(1_461_600))));
    assert_eq!(provisioner.stage(), Stage::Allocating);
    assert!(provisioner.awaits(&Event::Returned(Err(1))));
    assert!(!provisioner.awaits(&Event::RentMinimum(Ok(0))));
    assert_eq!(allocate.instruction.program_id, SYSTEM_PROGRAM_ID);
    assert_eq!(
        allocate.accounts,
        vec![
            AccountRole::Mint,
            AccountRole::Payer,
            AccountRole::SystemProgram,
            AccountRole::TokenProgram,
        ]
    );
    assert_eq!(
        allocate.instruction.accounts,
        vec![
            AccountMeta { pubkey: PAYER, is_signer: true, is_writable: true },
            AccountMeta { pubkey: MINT, is_signer: true, is_writable: true },
        ]
    );
    assert_eq!(&allocate.instruction.data[..4], &[0, 0, 0, 0]);
    assert_eq!(&allocate.instruction.data[4..12], &1_461_600u64.to_le_bytes());
    assert_eq!(&allocate.instruction.data[12..20], &82u64.to_le_bytes());
    assert_eq!(&allocate.instruction.data[20..], &TOKEN_PROGRAM_ID);

    let (provisioner, initialize) = next(provisioner.advance(Event::Returned(Ok(()))));
    assert_eq!(provisioner.stage(), Stage::Initializing);
    assert_eq!(initialize.instruction.program_id, TOKEN_PROGRAM_ID);
    assert_eq!(
        initialize.accounts,
        vec![
            AccountRole::Mint,
            AccountRole::MintAuthority,
            AccountRole::TokenProgram,
            AccountRole::Rent,
        ]
    );
    assert_eq!(initialize.instruction.accounts[0].pubkey, MINT);
    assert_eq!(initialize.instruction.data[1], 6);
    assert_eq!(&initialize.instruction.data[2..34], &AUTHORITY);
    assert_eq!(initialize.instruction.data[34], 1);
    assert_eq!(&initialize.instruction.data[35..], &AUTHORITY);

    let (provisioner, attach) = next(provisioner.advance(Event::Returned(Ok(()))));
    assert_eq!(provisioner.stage(), Stage::Attaching);
    assert_eq!(attach.instruction.program_id, TOKEN_METADATA_PROGRAM_ID);
    assert_eq!(
        attach.accounts,
        vec![
            AccountRole::Metadata,
            AccountRole::Mint,
            AccountRole::MintAuthority,
            AccountRole::Payer,
            AccountRole::MintAuthority,
            AccountRole::SystemProgram,
            AccountRole::Rent,
        ]
    );
    let keys: Vec<[u8; 32]> = attach.instruction.accounts.iter().map(|meta| meta.pubkey).collect();
    assert_eq!(
        keys,
        vec![METADATA, MINT, AUTHORITY, PAYER, AUTHORITY, SYSTEM_PROGRAM_ID, RENT_SYSVAR_ID]
    );
    assert_eq!(attach.instruction.data[0], 33);
    assert_eq!(&attach.instruction.data[5..15], b"Demo Token");

    assert_eq!(finished(provisioner.advance(Event::Returned(Ok(())))), Ok(()));
}

#[test]
fn an_unknown_budget_ends_the_attempt() {
    let unsupported = solana_program::program_error::UNSUPPORTED_SYSVAR;
    let outcome = finished(started().advance(Event::RentMinimum(Err(unsupported))));
    assert_eq!(outcome, Err(ProvisionError::Allocation(unsupported)));
    assert_eq!(outcome.unwrap_err().status(), unsupported);
}

#[test]
fn a_failed_allocation_ends_the_attempt() {
    let (provisioner, _) = next(started().advance(Event::RentMinimum(Ok(10))));
    let outcome = finished(provisioner.advance(Event::Returned(Err(1))));
    assert_eq!(outcome, Err(ProvisionError::Allocation(1)));
}

#[test]
fn a_failed_initialization_ends_the_attempt() {
    let (provisioner, _) = next(started().advance(Event::RentMinimum(Ok(10))));
    let (provisioner, _) = next(provisioner.advance(Event::Returned(Ok(()))));
    let outcome = finished(provisioner.advance(Event::Returned(Err(6))));
    assert_eq!(outcome, Err(ProvisionError::Initialization(6)));
    assert_eq!(outcome.unwrap_err().status(), 6);
}

#[test]
fn a_failed_attachment_ends_the_attempt() {
    let (provisioner, _) = next(started().advance(Event::RentMinimum(Ok(10))));
    let (provisioner, _) = next(provisioner.advance(Event::Returned(Ok(()))));
    let (provisioner, _) = next(provisioner.advance(Event::Returned(Ok(()))));
    let outcome = finished(provisioner.advance(Event::Returned(Err(0x5f))));
    assert_eq!(outcome, Err(ProvisionError::Metadata(0x5f)));
    assert_eq!(outcome.unwrap_err().status(), 0x5f);
}

#[test]
fn a_stranger_in_the_token_programs_place_is_refused() {
    let mut accounts = demo_accounts();
    accounts[6].key = TOKEN_METADATA_PROGRAM_ID;
    let (provisioner, _) = Provisioner::start(&demo_record(), &accounts).unwrap();
    let (provisioner, allocate) = next(provisioner.advance(Event::RentMinimum(Ok(10))));
    assert_eq!(&allocate.instruction.data[20..], &TOKEN_METADATA_PROGRAM_ID);
    let outcome = finished(provisioner.advance(Event::Returned(Ok(()))));
    assert_eq!(outcome, Err(ProvisionError::Initialization(INCORRECT_PROGRAM_ID)));
}

#[test]
fn the_update_authority_signs_as_the_mint_authority_does() {
    for signs in [true, false] {
        let mut accounts = demo_accounts();
        accounts[1].is_signer = signs;
        let (provisioner, _) = Provisioner::start(&demo_record(), &accounts).unwrap();
        let (provisioner, _) = next(provisioner.advance(Event::RentMinimum(Ok(10))));
        let (provisioner, _) = next(provisioner.advance(Event::Returned(Ok(()))));
        let (_, attach) = next(provisioner.advance(Event::Returned(Ok(()))));
        assert_eq!(
            attach.instruction.accounts[2],
            AccountMeta { pubkey: AUTHORITY, is_signer: true, is_writable: false }
        );
        assert_eq!(
            attach.instruction.accounts[4],
            AccountMeta { pubkey: AUTHORITY, is_signer: signs, is_writable: false }
        );
    }
}

#[test]
fn settle_keeps_the_changes_of_a_success_only() {
    assert_eq!(settle("before", "attempted", &Ok(())), "attempted");
    assert_eq!(settle("before", "attempted", &Err(ProvisionError::Decoding)), "before");
    assert_eq!(settle(1, 2, &Err(ProvisionError::Metadata(7))), 1);
}

#[test]
fn every_failure_shows_the_status_it_was_given() {
    assert_eq!(ProvisionError::Allocation(17).status(), 17);
    assert_eq!(ProvisionError::Initialization(u64::MAX).status(), u64::MAX);
    assert_eq!(ProvisionError::Metadata(0).status(), 0);
}
