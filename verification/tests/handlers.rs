use rwa_registry::account::Account;
use rwa_registry::account::Pubkey;
use rwa_registry::action::Action;
use rwa_registry::action::CreateAccount;
use rwa_registry::errors::RWAError;
use rwa_registry::instructions::init_token_config::TokenConfigDerivations;
use rwa_registry::instructions::CreateRWAAccount;
use rwa_registry::instructions::CreateRWAInstruction;
use rwa_registry::instructions::CreatorKYCAccount;
use rwa_registry::instructions::CreatorKYCInstruction;
use rwa_registry::instructions::GlobalConfigAccounts;
use rwa_registry::instructions::InitGlobalConfigInstruction;
use rwa_registry::instructions::InitTokenConfig;
use rwa_registry::instructions::InitTokenConfigInstruction;
use rwa_registry::instructions::MintRWAAccount;
use rwa_registry::instructions::TokenConfigAccounts;
use rwa_registry::pda::find_program_address;
use rwa_registry::states::CreatorKYC;
use rwa_registry::states::GlobalConfig;
use rwa_registry::states::Record;
use rwa_registry::states::TokenConfig;
use rwa_registry::utils::load_acc;
use rwa_registry::utils::SYSTEM_PROGRAM_ID;
use rwa_registry::utils::TOKEN_2022_PROGRAM_ID;

const PROGRAM: Pubkey = [0xd7; 32];
const GLOBAL: u8 = 0x60;
const KYC: u8 = 0x61;
const TOKEN: u8 = 0x62;

fn wallet(key: u8, is_signer: bool) -> Account {
    Account {
        key: [key; 32],
        owner: SYSTEM_PROGRAM_ID,
        is_signer,
        is_writable: true,
        lamports: 5_000_000,
        data: Vec::new(),
    }
}

fn vacant(key: u8) -> Account {
    Account {
        key: [key; 32],
        owner: SYSTEM_PROGRAM_ID,
        is_signer: false,
        is_writable: true,
        lamports: 0,
        data: Vec::new(),
    }
}

fn record_account(key: u8, data: Vec<u8>) -> Account {
    Account {
        key: [key; 32],
        owner: PROGRAM,
        is_signer: false,
        is_writable: true,
        lamports: 1_000_000,
        data,
    }
}

fn global_config_payload() -> Vec<u8> {
    vec![0, 0x10, 0x20, 0x30, 0x40, 0, 0, 0, 0, 9, 50, 1]
}

fn stored_global_config(max_decimal: u8) -> Vec<u8> {
    GlobalConfig {
        config_authority: [1; 32],
        kyc_authority: [2; 32],
        active: true,
        open_time: 0,
        max_decimal,
        fees_bps: 50,
        bump: 255,
    }
    .to_bytes()
}

fn stored_kyc(verified: bool) -> Vec<u8> {
    CreatorKYC { name: [b'n'; 32], email_id: [b'e'; 32], wallet: [3; 32], verified, bump: 254 }
        .to_bytes()
}

fn token_config_payload(decimals: u8) -> Vec<u8> {
    let mut description = [0u8; 128];
    description[..9].copy_from_slice(b"gold bars");
    InitTokenConfig {
        bump: 0,
        creator: [3; 32],
        mint: [0x44; 32],
        decimals,
        description,
        asset_type: *b"metal\0\0\0",
        audit_cid: [0x55; 32],
        active: true,
    }
    .to_bytes()
}

fn token_config_accounts(max_decimal: u8, verified: bool) -> Vec<Account> {
    vec![
        wallet(3, true),
        record_account(GLOBAL, stored_global_config(max_decimal)),
        record_account(KYC, stored_kyc(verified)),
        vacant(TOKEN),
    ]
}

fn agreeing_derivations() -> TokenConfigDerivations {
    TokenConfigDerivations {
        token_config: Some(([TOKEN; 32], 251)),
        global_config: Some(([GLOBAL; 32], 255)),
        creator_kyc: Some(([KYC; 32], 254)),
    }
}

fn written_data(actions: &[Action]) -> (Pubkey, Vec<u8>) {
    match actions.last() {
        Some(Action::WriteData(write)) => (write.account, write.data.clone()),
        _ => panic!("the last request is not a write"),
    }
}

// ---------------------------------------------------------------- global configuration

#[test]
fn global_config_takes_exactly_three_accounts() {
    let two = vec![wallet(1, true), wallet(2, true)];
    assert!(matches!(GlobalConfigAccounts::try_from(&two), Err(RWAError::NotEnoughAccountKeys)));
    let four = vec![wallet(1, true), wallet(2, true), vacant(GLOBAL), vacant(9)];
    assert!(matches!(GlobalConfigAccounts::try_from(&four), Err(RWAError::NotEnoughAccountKeys)));
    let none: Vec<Account> = Vec::new();
    assert!(matches!(GlobalConfigAccounts::try_from(&none), Err(RWAError::NotEnoughAccountKeys)));
}

#[test]
fn a_short_account_list_fails_before_any_other_check() {
    let unsigned = vec![wallet(1, false), wallet(2, false)];
    assert!(matches!(
        InitGlobalConfigInstruction::try_from(&[0u8; 10], &unsigned),
        Err(RWAError::NotEnoughAccountKeys)
    ));
    assert!(matches!(
        InitGlobalConfigInstruction::try_from(&global_config_payload(), &unsigned),
        Err(RWAError::NotEnoughAccountKeys)
    ));
}

#[test]
fn both_authorities_of_the_global_config_must_sign() {
    let first = vec![wallet(1, false), wallet(2, true), vacant(GLOBAL)];
    assert!(matches!(GlobalConfigAccounts::try_from(&first), Err(RWAError::NotSigner)));
    let second = vec![wallet(1, true), wallet(2, false), vacant(GLOBAL)];
    assert!(matches!(GlobalConfigAccounts::try_from(&second), Err(RWAError::NotSigner)));
    let both = vec![wallet(1, true), wallet(2, true), vacant(GLOBAL)];
    let accounts = GlobalConfigAccounts::try_from(&both).ok().unwrap();
    assert_eq!(accounts.config_authority.key, [1; 32]);
    assert_eq!(accounts.kyc_authority.key, [2; 32]);
    assert_eq!(accounts.global_config.key, [GLOBAL; 32]);
}

#[test]
fn a_ten_byte_global_config_payload_is_invalid_instruction_data() {
    let accounts = vec![wallet(1, true), wallet(2, true), vacant(GLOBAL)];
    assert!(matches!(
        InitGlobalConfigInstruction::try_from(&[0u8; 10], &accounts),
        Err(RWAError::InvalidInstructionData)
    ));
    assert!(matches!(
        InitGlobalConfigInstruction::try_from(&[0u8; 24], &accounts),
        Err(RWAError::InvalidInstructionData)
    ));
    assert!(InitGlobalConfigInstruction::try_from(&[0u8; 12], &accounts).is_ok());
}

#[test]
fn the_accounts_are_validated_before_the_payload() {
    let accounts = vec![wallet(1, false), wallet(2, true), vacant(GLOBAL)];
    assert!(matches!(
        InitGlobalConfigInstruction::try_from(&[0u8; 10], &accounts),
        Err(RWAError::NotSigner)
    ));
}

#[test]
fn a_new_global_config_is_created_and_written() {
    let accounts = vec![wallet(1, true), wallet(2, true), vacant(GLOBAL)];
    let ix = InitGlobalConfigInstruction::try_from(&global_config_payload(), &accounts)
        .ok()
        .unwrap();
    let actions = ix.process_with(&Some(([GLOBAL; 32], 253)), &PROGRAM).unwrap();
    assert_eq!(actions.len(), 2);
    assert_eq!(
        actions[0],
        Action::CreateAccount(CreateAccount {
            from: [1; 32],
            to: [GLOBAL; 32],
            space: 76,
            owner: PROGRAM,
            signer_seeds: vec![b"global-config".to_vec(), vec![253]],
        })
    );
    let (account, data) = written_data(&actions);
    assert_eq!(account, [GLOBAL; 32]);
    assert_eq!(
        load_acc::<GlobalConfig>(&data),
        Ok(GlobalConfig {
            config_authority: [1; 32],
            kyc_authority: [2; 32],
            active: true,
            open_time: 0x4030_2010,
            max_decimal: 9,
            fees_bps: 50,
            bump: 253,
        })
    );
}

#[test]
fn an_existing_global_config_is_rewritten_by_its_authority_only() {
    let accounts = vec![
        wallet(1, true),
        wallet(2, true),
        record_account(GLOBAL, stored_global_config(3)),
    ];
    let ix = InitGlobalConfigInstruction::try_from(&global_config_payload(), &accounts)
        .ok()
        .unwrap();
    let actions = ix.process_with(&Some(([GLOBAL; 32], 253)), &PROGRAM).unwrap();
    assert_eq!(actions.len(), 1);
    let (account, data) = written_data(&actions);
    assert_eq!(account, [GLOBAL; 32]);
    assert_eq!(data.len(), 76);
    let written = GlobalConfig::from_bytes(&data);
    assert_eq!(written.config_authority, [1; 32]);
    assert_eq!(written.max_decimal, 9);
    assert_eq!(written.bump, 253);
}

#[test]
fn a_stranger_cannot_replace_the_global_config() {
    let stored = stored_global_config(3);
    let accounts =
        vec![wallet(8, true), wallet(9, true), record_account(GLOBAL, stored.clone())];
    let ix = InitGlobalConfigInstruction::try_from(&global_config_payload(), &accounts)
        .ok()
        .unwrap();
    assert_eq!(ix.process_with(&Some(([GLOBAL; 32], 253)), &PROGRAM), Ok(Vec::new()));
    assert_eq!(accounts[2].data, stored);
    let foreign =
        vec![wallet(1, true), wallet(2, true), record_account(GLOBAL, vec![0xff; 76])];
    let ix = InitGlobalConfigInstruction::try_from(&global_config_payload(), &foreign)
        .ok()
        .unwrap();
    assert_eq!(ix.process_with(&Some(([GLOBAL; 32], 253)), &PROGRAM), Ok(Vec::new()));
}

#[test]
fn an_unsigned_authority_cannot_rewrite_the_global_config() {
    let config_authority = wallet(1, false);
    let kyc_authority = wallet(2, true);
    let global_config = record_account(GLOBAL, stored_global_config(3));
    let ix = InitGlobalConfigInstruction {
        accounts: GlobalConfigAccounts {
            config_authority: &config_authority,
            kyc_authority: &kyc_authority,
            global_config: &global_config,
        },
        instruction_datas: rwa_registry::instructions::InitGlobalConfig {
            bump: 0,
            open_time: 1,
            max_decimal: 9,
            fees_bps: 50,
            active: true,
        },
    };
    assert_eq!(ix.process_with(&Some(([GLOBAL; 32], 253)), &PROGRAM), Ok(Vec::new()));
}

#[test]
fn a_global_config_elsewhere_is_invalid_account_data() {
    let accounts = vec![wallet(1, true), wallet(2, true), vacant(GLOBAL)];
    let ix = InitGlobalConfigInstruction::try_from(&global_config_payload(), &accounts)
        .ok()
        .unwrap();
    assert_eq!(
        ix.process_with(&Some(([0x70; 32], 253)), &PROGRAM),
        Err(RWAError::InvalidAccountData)
    );
    assert_eq!(ix.process_with(&None, &PROGRAM), Err(RWAError::InvalidAccountData));
}

#[test]
fn an_existing_global_config_of_another_size_is_invalid_account_data() {
    let accounts = vec![wallet(1, true), wallet(2, true), record_account(GLOBAL, vec![0; 75])];
    let ix = InitGlobalConfigInstruction::try_from(&global_config_payload(), &accounts)
        .ok()
        .unwrap();
    assert_eq!(
        ix.process_with(&Some(([GLOBAL; 32], 253)), &PROGRAM),
        Err(RWAError::InvalidAccountData)
    );
}

#[test]
fn global_config_process_decides_on_a_fresh_derivation() {
    let accounts = vec![wallet(1, true), wallet(2, true), vacant(GLOBAL)];
    let ix = InitGlobalConfigInstruction::try_from(&global_config_payload(), &accounts)
        .ok()
        .unwrap();
    let seeds: [&[u8]; 1] = [b"global-config"];
    let derived = find_program_address(&seeds, &PROGRAM);
    assert_eq!(ix.process(&PROGRAM), ix.process_with(&derived, &PROGRAM));
}

#[test]
fn a_second_global_config_init_creates_nothing_more() {
    let accounts = vec![wallet(1, true), wallet(2, true), vacant(GLOBAL)];
    let ix = InitGlobalConfigInstruction::try_from(&global_config_payload(), &accounts)
        .ok()
        .unwrap();
    let derived = Some(([GLOBAL; 32], 253u8));
    let first = ix.process_with(&derived, &PROGRAM).unwrap();
    let (_, data) = written_data(&first);
    let after = vec![wallet(1, true), wallet(2, true), record_account(GLOBAL, data.clone())];
    let again = InitGlobalConfigInstruction::try_from(&global_config_payload(), &after)
        .ok()
        .unwrap();
    let second = again.process_with(&derived, &PROGRAM).unwrap();
    assert_eq!(second.len(), 1);
    assert_eq!(written_data(&second), ([GLOBAL; 32], data));
}

// ---------------------------------------------------------------- creator registration

fn kyc_payload() -> Vec<u8> {
    let mut payload = vec![b'a'; 32];
    payload.extend_from_slice(&[b'm'; 32]);
    payload.extend_from_slice(&[0x99; 32]);
    payload
}

#[test]
fn creator_kyc_takes_exactly_two_accounts() {
    let one = vec![wallet(3, true)];
    assert!(matches!(CreatorKYCAccount::try_from(&one), Err(RWAError::NotEnoughAccountKeys)));
    let three = vec![wallet(3, true), vacant(KYC), vacant(9)];
    assert!(matches!(CreatorKYCAccount::try_from(&three), Err(RWAError::NotEnoughAccountKeys)));
    assert!(matches!(
        CreatorKYCInstruction::try_from(&[0u8; 3], &one),
        Err(RWAError::NotEnoughAccountKeys)
    ));
}

#[test]
fn a_registration_by_a_non_signer_is_not_signer() {
    let accounts = vec![wallet(3, false), vacant(KYC)];
    assert!(matches!(CreatorKYCAccount::try_from(&accounts), Err(RWAError::NotSigner)));
    assert!(matches!(
        CreatorKYCInstruction::try_from(&kyc_payload(), &accounts),
        Err(RWAError::NotSigner)
    ));
}

#[test]
fn a_registration_payload_has_ninety_six_bytes() {
    let accounts = vec![wallet(3, true), vacant(KYC)];
    assert!(matches!(
        CreatorKYCInstruction::try_from(&[0u8; 95], &accounts),
        Err(RWAError::InvalidInstructionData)
    ));
    assert!(matches!(
        CreatorKYCInstruction::try_from(&[0u8; 97], &accounts),
        Err(RWAError::InvalidInstructionData)
    ));
    assert!(CreatorKYCInstruction::try_from(&kyc_payload(), &accounts).is_ok());
}

#[test]
fn a_registration_by_a_signer_stores_an_unverified_record() {
    let accounts = vec![wallet(3, true), vacant(KYC)];
    let ix = CreatorKYCInstruction::try_from(&kyc_payload(), &accounts).ok().unwrap();
    let actions = ix.process_with(&Some(([KYC; 32], 250)), &PROGRAM).unwrap();
    assert_eq!(actions.len(), 2);
    assert_eq!(
        actions[0],
        Action::CreateAccount(CreateAccount {
            from: [3; 32],
            to: [KYC; 32],
            space: 98,
            owner: PROGRAM,
            signer_seeds: vec![b"creator-kyc".to_vec(), vec![3; 32], vec![250]],
        })
    );
    let (account, data) = written_data(&actions);
    assert_eq!(account, [KYC; 32]);
    assert_eq!(
        load_acc::<CreatorKYC>(&data),
        Ok(CreatorKYC {
            name: [b'a'; 32],
            email_id: [b'm'; 32],
            wallet: [3; 32],
            verified: false,
            bump: 250,
        })
    );
}

#[test]
fn a_registration_stores_the_signer_s_wallet() {
    let accounts = vec![wallet(3, true), vacant(KYC)];
    let ix = CreatorKYCInstruction::try_from(&kyc_payload(), &accounts).ok().unwrap();
    assert_eq!(ix.instruction_datas.wallet, [0x99; 32]);
    let actions = ix.process_with(&Some(([KYC; 32], 250)), &PROGRAM).unwrap();
    let (_, data) = written_data(&actions);
    assert_eq!(CreatorKYC::from_bytes(&data).wallet, [3; 32]);
}

#[test]
fn a_registration_elsewhere_is_invalid_account_data() {
    let accounts = vec![wallet(3, true), vacant(KYC)];
    let ix = CreatorKYCInstruction::try_from(&kyc_payload(), &accounts).ok().unwrap();
    assert_eq!(
        ix.process_with(&Some(([0x70; 32], 250)), &PROGRAM),
        Err(RWAError::InvalidAccountData)
    );
    assert_eq!(ix.process_with(&None, &PROGRAM), Err(RWAError::InvalidAccountData));
}

#[test]
fn a_registration_over_an_existing_record_writes_nothing() {
    for verified in [true, false] {
        let stored = stored_kyc(verified);
        let accounts = vec![wallet(3, true), record_account(KYC, stored.clone())];
        let ix = CreatorKYCInstruction::try_from(&kyc_payload(), &accounts).ok().unwrap();
        assert_eq!(ix.process_with(&Some(([KYC; 32], 250)), &PROGRAM), Ok(Vec::new()));
        assert_eq!(CreatorKYC::from_bytes(&accounts[1].data).verified, verified);
        assert_eq!(accounts[1].data, stored);
    }
}

#[test]
fn a_registration_over_a_record_of_another_size_is_invalid_account_data() {
    let wrong = vec![wallet(3, true), record_account(KYC, vec![0; 97])];
    let ix = CreatorKYCInstruction::try_from(&kyc_payload(), &wrong).ok().unwrap();
    assert_eq!(
        ix.process_with(&Some(([KYC; 32], 250)), &PROGRAM),
        Err(RWAError::InvalidAccountData)
    );
}

#[test]
fn creator_kyc_process_decides_on_a_fresh_derivation() {
    let accounts = vec![wallet(3, true), vacant(KYC)];
    let ix = CreatorKYCInstruction::try_from(&kyc_payload(), &accounts).ok().unwrap();
    let seeds: [&[u8]; 2] = [b"creator-kyc", &[3; 32]];
    let derived = find_program_address(&seeds, &PROGRAM);
    assert_eq!(ix.process(&PROGRAM), ix.process_with(&derived, &PROGRAM));
}

// ---------------------------------------------------------------- token configuration

#[test]
fn token_config_takes_exactly_four_accounts() {
    let mut accounts = token_config_accounts(9, true);
    accounts.pop();
    assert!(matches!(
        TokenConfigAccounts::try_from(&accounts, &PROGRAM),
        Err(RWAError::NotEnoughAccountKeys)
    ));
    assert!(matches!(
        InitTokenConfigInstruction::try_from(&[0u8; 1], &accounts, &PROGRAM),
        Err(RWAError::NotEnoughAccountKeys)
    ));
    let mut five = token_config_accounts(9, true);
    five.push(vacant(9));
    assert!(matches!(
        TokenConfigAccounts::try_from(&five, &PROGRAM),
        Err(RWAError::NotEnoughAccountKeys)
    ));
}

#[test]
fn token_config_checks_the_role_of_each_account() {
    let mut accounts = token_config_accounts(9, true);
    accounts[0].is_signer = false;
    assert!(matches!(
        TokenConfigAccounts::try_from(&accounts, &PROGRAM),
        Err(RWAError::NotSigner)
    ));
    let mut accounts = token_config_accounts(9, true);
    accounts[1].owner = SYSTEM_PROGRAM_ID;
    assert!(matches!(
        TokenConfigAccounts::try_from(&accounts, &PROGRAM),
        Err(RWAError::InvalidOwner)
    ));
    let mut accounts = token_config_accounts(9, true);
    accounts[2].owner = TOKEN_2022_PROGRAM_ID;
    assert!(matches!(
        TokenConfigAccounts::try_from(&accounts, &PROGRAM),
        Err(RWAError::InvalidOwner)
    ));
    let accounts = token_config_accounts(9, true);
    let validated = TokenConfigAccounts::try_from(&accounts, &PROGRAM).ok().unwrap();
    assert_eq!(validated.signer.key, [3; 32]);
    assert_eq!(validated.global_config.key, [GLOBAL; 32]);
    assert_eq!(validated.creator_kyc.key, [KYC; 32]);
    assert_eq!(validated.token_config.key, [TOKEN; 32]);
}

#[test]
fn a_token_config_payload_has_235_bytes() {
    let accounts = token_config_accounts(9, true);
    assert!(matches!(
        InitTokenConfigInstruction::try_from(&[0u8; 234], &accounts, &PROGRAM),
        Err(RWAError::InvalidInstructionData)
    ));
    assert!(matches!(
        InitTokenConfigInstruction::try_from(&[0u8; 236], &accounts, &PROGRAM),
        Err(RWAError::InvalidInstructionData)
    ));
}

#[test]
fn more_decimals_than_the_global_maximum_fail() {
    let accounts = token_config_accounts(9, true);
    let ix = InitTokenConfigInstruction::try_from(&token_config_payload(10), &accounts, &PROGRAM)
        .ok()
        .unwrap();
    assert_eq!(
        ix.process_with(&agreeing_derivations(), &PROGRAM),
        Err(RWAError::InvalidInstructionData)
    );
    assert_eq!(ix.check_rules(), Err(RWAError::InvalidInstructionData));
    let ix = InitTokenConfigInstruction::try_from(&token_config_payload(255), &accounts, &PROGRAM)
        .ok()
        .unwrap();
    assert_eq!(
        ix.process_with(&agreeing_derivations(), &PROGRAM),
        Err(RWAError::InvalidInstructionData)
    );
}

#[test]
fn allowed_decimals_of_a_verified_creator_are_stored_inactive() {
    let accounts = token_config_accounts(9, true);
    for decimals in [0u8, 6, 9] {
        let ix = InitTokenConfigInstruction::try_from(
            &token_config_payload(decimals),
            &accounts,
            &PROGRAM,
        )
        .ok()
        .unwrap();
        assert!(ix.instruction_datas.active);
        let actions = ix.process_with(&agreeing_derivations(), &PROGRAM).unwrap();
        assert_eq!(actions.len(), 2);
        assert_eq!(
            actions[0],
            Action::CreateAccount(CreateAccount {
                from: [3; 32],
                to: [TOKEN; 32],
                space: 235,
                owner: PROGRAM,
                signer_seeds: vec![b"token-program".to_vec(), vec![3; 32], vec![251]],
            })
        );
        let (account, data) = written_data(&actions);
        assert_eq!(account, [TOKEN; 32]);
        let stored = load_acc::<TokenConfig>(&data).unwrap();
        assert!(!stored.active);
        assert_eq!(stored.decimal, decimals);
        assert_eq!(stored.bump, 251);
        assert_eq!(stored.creator, [3; 32]);
        assert_eq!(stored.mint, [0x44; 32]);
        assert_eq!(&stored.description[..9], b"gold bars");
        assert_eq!(stored.asset_type, *b"metal\0\0\0");
        assert_eq!(stored.audit_cid, [0x55; 32]);
    }
}

#[test]
fn an_unverified_creator_is_creator_not_verified() {
    let accounts = token_config_accounts(9, false);
    let ix = InitTokenConfigInstruction::try_from(&token_config_payload(6), &accounts, &PROGRAM)
        .ok()
        .unwrap();
    assert_eq!(
        ix.process_with(&agreeing_derivations(), &PROGRAM),
        Err(RWAError::CreatorNotVerified)
    );
    assert_eq!(ix.check_rules(), Err(RWAError::CreatorNotVerified));
}

#[test]
fn the_decimals_are_checked_before_the_creator() {
    let accounts = token_config_accounts(9, false);
    let ix = InitTokenConfigInstruction::try_from(&token_config_payload(10), &accounts, &PROGRAM)
        .ok()
        .unwrap();
    assert_eq!(ix.check_rules(), Err(RWAError::InvalidInstructionData));
}

#[test]
fn a_global_config_at_a_diverging_address_is_a_pda_mismatch() {
    let accounts = token_config_accounts(9, true);
    let ix = InitTokenConfigInstruction::try_from(&token_config_payload(6), &accounts, &PROGRAM)
        .ok()
        .unwrap();
    let mut derived = agreeing_derivations();
    derived.global_config = Some(([0x70; 32], 255));
    assert_eq!(ix.process_with(&derived, &PROGRAM), Err(RWAError::PdaMismatch));
    derived.global_config = None;
    assert_eq!(ix.process_with(&derived, &PROGRAM), Err(RWAError::PdaMismatch));
}

#[test]
fn an_identity_record_at_a_diverging_address_is_a_pda_mismatch() {
    let accounts = token_config_accounts(9, true);
    let ix = InitTokenConfigInstruction::try_from(&token_config_payload(6), &accounts, &PROGRAM)
        .ok()
        .unwrap();
    let mut derived = agreeing_derivations();
    derived.creator_kyc = Some(([0x70; 32], 254));
    assert_eq!(ix.process_with(&derived, &PROGRAM), Err(RWAError::PdaMismatch));
}

#[test]
fn a_token_config_elsewhere_is_invalid_account_data() {
    let accounts = token_config_accounts(9, true);
    let ix = InitTokenConfigInstruction::try_from(&token_config_payload(6), &accounts, &PROGRAM)
        .ok()
        .unwrap();
    let mut derived = agreeing_derivations();
    derived.token_config = Some(([0x70; 32], 251));
    assert_eq!(ix.process_with(&derived, &PROGRAM), Err(RWAError::InvalidAccountData));
    let nothing = TokenConfigDerivations { token_config: None, global_config: None, creator_kyc: None };
    assert_eq!(ix.process_with(&nothing, &PROGRAM), Err(RWAError::InvalidAccountData));
}

#[test]
fn records_of_another_size_are_invalid_account_data() {
    let mut accounts = token_config_accounts(9, true);
    accounts[1].data = vec![0; 75];
    let ix = InitTokenConfigInstruction::try_from(&token_config_payload(6), &accounts, &PROGRAM)
        .ok()
        .unwrap();
    assert_eq!(
        ix.process_with(&agreeing_derivations(), &PROGRAM),
        Err(RWAError::InvalidAccountData)
    );
    let mut accounts = token_config_accounts(9, true);
    accounts[2].data = vec![0; 99];
    let ix = InitTokenConfigInstruction::try_from(&token_config_payload(6), &accounts, &PROGRAM)
        .ok()
        .unwrap();
    assert_eq!(
        ix.process_with(&agreeing_derivations(), &PROGRAM),
        Err(RWAError::InvalidAccountData)
    );
    let mut accounts = token_config_accounts(9, true);
    accounts[3] = record_account(TOKEN, vec![0; 200]);
    let ix = InitTokenConfigInstruction::try_from(&token_config_payload(6), &accounts, &PROGRAM)
        .ok()
        .unwrap();
    assert_eq!(
        ix.process_with(&agreeing_derivations(), &PROGRAM),
        Err(RWAError::InvalidAccountData)
    );
}

#[test]
fn a_record_of_another_size_comes_before_the_business_rules() {
    let mut accounts = token_config_accounts(9, true);
    accounts[2].data = vec![0; 97];
    let ix = InitTokenConfigInstruction::try_from(&token_config_payload(10), &accounts, &PROGRAM)
        .ok()
        .unwrap();
    assert_eq!(ix.check_rules(), Err(RWAError::InvalidAccountData));
    assert_eq!(
        ix.process_with(&agreeing_derivations(), &PROGRAM),
        Err(RWAError::InvalidAccountData)
    );
    let mut accounts = token_config_accounts(9, false);
    accounts[1].data = vec![0; 77];
    let ix = InitTokenConfigInstruction::try_from(&token_config_payload(10), &accounts, &PROGRAM)
        .ok()
        .unwrap();
    assert_eq!(ix.check_rules(), Err(RWAError::InvalidAccountData));
    let mut accounts = token_config_accounts(9, false);
    accounts[3] = record_account(TOKEN, vec![0; 234]);
    let ix = InitTokenConfigInstruction::try_from(&token_config_payload(10), &accounts, &PROGRAM)
        .ok()
        .unwrap();
    assert_eq!(
        ix.process_with(&agreeing_derivations(), &PROGRAM),
        Err(RWAError::InvalidAccountData)
    );
}

#[test]
fn an_existing_token_config_is_only_written() {
    let mut accounts = token_config_accounts(9, true);
    accounts[3] = record_account(TOKEN, vec![0xff; 235]);
    let ix = InitTokenConfigInstruction::try_from(&token_config_payload(6), &accounts, &PROGRAM)
        .ok()
        .unwrap();
    let actions = ix.process_with(&agreeing_derivations(), &PROGRAM).unwrap();
    assert_eq!(actions.len(), 1);
    let (_, data) = written_data(&actions);
    assert!(!TokenConfig::from_bytes(&data).active);
}

#[test]
fn token_config_process_decides_on_fresh_derivations() {
    let accounts = token_config_accounts(9, true);
    let ix = InitTokenConfigInstruction::try_from(&token_config_payload(6), &accounts, &PROGRAM)
        .ok()
        .unwrap();
    let token_seeds: [&[u8]; 2] = [b"token-program", &[3; 32]];
    let global_seeds: [&[u8]; 1] = [b"global-config"];
    let kyc_seeds: [&[u8]; 2] = [b"creator-kyc", &[3; 32]];
    let derived = TokenConfigDerivations {
        token_config: find_program_address(&token_seeds, &PROGRAM),
        global_config: find_program_address(&global_seeds, &PROGRAM),
        creator_kyc: find_program_address(&kyc_seeds, &PROGRAM),
    };
    assert_eq!(ix.process(&PROGRAM), ix.process_with(&derived, &PROGRAM));
}

// ---------------------------------------------------------------- asset creation and minting

fn create_rwa_accounts() -> Vec<Account> {
    vec![
        wallet(3, true),
        Account {
            key: [0x44; 32],
            owner: TOKEN_2022_PROGRAM_ID,
            is_signer: false,
            is_writable: true,
            lamports: 1,
            data: vec![0; 82],
        },
        record_account(0x63, vec![0; 308]),
        wallet(5, false),
        wallet(6, false),
        wallet(7, false),
    ]
}

#[test]
fn create_rwa_takes_exactly_six_accounts() {
    let mut accounts = create_rwa_accounts();
    accounts.pop();
    assert!(matches!(
        CreateRWAAccount::try_from(&accounts, &PROGRAM),
        Err(RWAError::NotEnoughAccountKeys)
    ));
    assert!(matches!(
        CreateRWAInstruction::try_from(&[0u8; 2], &accounts, &PROGRAM),
        Err(RWAError::NotEnoughAccountKeys)
    ));
}

#[test]
fn create_rwa_checks_the_role_of_each_account() {
    let mut accounts = create_rwa_accounts();
    accounts[0].is_signer = false;
    assert!(matches!(CreateRWAAccount::try_from(&accounts, &PROGRAM), Err(RWAError::NotSigner)));
    let mut accounts = create_rwa_accounts();
    accounts[1].owner = PROGRAM;
    assert!(matches!(
        CreateRWAAccount::try_from(&accounts, &PROGRAM),
        Err(RWAError::InvalidOwner)
    ));
    let mut accounts = create_rwa_accounts();
    accounts[1].data = vec![0; 81];
    assert!(matches!(
        CreateRWAAccount::try_from(&accounts, &PROGRAM),
        Err(RWAError::InvalidAccountData)
    ));
    let mut accounts = create_rwa_accounts();
    accounts[2].owner = SYSTEM_PROGRAM_ID;
    assert!(matches!(
        CreateRWAAccount::try_from(&accounts, &PROGRAM),
        Err(RWAError::InvalidOwner)
    ));
    let mut accounts = create_rwa_accounts();
    accounts[5].owner = PROGRAM;
    assert!(matches!(
        CreateRWAAccount::try_from(&accounts, &PROGRAM),
        Err(RWAError::InvalidOwner)
    ));
    let mut accounts = create_rwa_accounts();
    accounts[3].owner = PROGRAM;
    accounts[4].owner = PROGRAM;
    let validated = CreateRWAAccount::try_from(&accounts, &PROGRAM).ok().unwrap();
    assert_eq!(validated.signer.key, [3; 32]);
    assert_eq!(validated.mint_account.key, [0x44; 32]);
    assert_eq!(validated.metadata_account.key, [0x63; 32]);
    assert_eq!(validated.mint_authority.key, [5; 32]);
    assert_eq!(validated.freeze_authority.key, [6; 32]);
    assert_eq!(validated.token_program_2022.key, [7; 32]);
}

#[test]
fn a_validated_create_rwa_asks_nothing_of_the_host() {
    let accounts = create_rwa_accounts();
    let payload = [0xe8u8, 0x03, 0, 0, 0, 0, 0, 0, 6];
    assert!(matches!(
        CreateRWAInstruction::try_from(&payload[..8], &accounts, &PROGRAM),
        Err(RWAError::InvalidInstructionData)
    ));
    let ix = CreateRWAInstruction::try_from(&payload, &accounts, &PROGRAM).ok().unwrap();
    assert_eq!(ix.instruction_datas.supply, 1000);
    assert_eq!(ix.instruction_datas.decimals, 6);
    assert_eq!(ix.process(), Ok(Vec::new()));
}

#[test]
fn mint_rwa_accounts_hold_the_signer() {
    let signer = wallet(3, true);
    let accounts = MintRWAAccount { signer: &signer };
    let copy = accounts;
    assert_eq!(copy.signer.key, [3; 32]);
    assert_eq!(accounts.signer.key, [3; 32]);
}

#[test]
fn handler_discriminators_follow_the_routing() {
    assert_eq!(InitGlobalConfigInstruction::DISCRIMINATOR, 0);
    assert_eq!(InitTokenConfigInstruction::DISCRIMINATOR, 1);
    assert_eq!(CreatorKYCInstruction::DISCRIMINATOR, 2);
    assert_eq!(CreateRWAInstruction::DISCRIMINATOR, 6);
}
