use rwa_registry::account::Account;
use rwa_registry::account::Pubkey;
use rwa_registry::action::Action;
use rwa_registry::action::CreateAccount;
use rwa_registry::action::WriteData;
use rwa_registry::errors::RWAError;
use rwa_registry::pda::find_program_address;
use rwa_registry::utils::helper::write_record;
use rwa_registry::utils::AccountClose;
use rwa_registry::utils::ProgramAccount;
use rwa_registry::utils::ProgramAccountInit;
use rwa_registry::utils::RecordState;
use rwa_registry::utils::SYSTEM_PROGRAM_ID;

const PROGRAM: Pubkey = [0xd7; 32];

fn lifecycle_account(key: u8, owner: Pubkey, lamports: u64, data: Vec<u8>) -> Account {
    Account { key: [key; 32], owner, is_signer: false, is_writable: true, lamports, data }
}

fn carry_out(request: &CreateAccount, before: &Account) -> Account {
    assert_eq!(request.to, before.key);
    Account {
        key: before.key,
        owner: request.owner,
        is_signer: before.is_signer,
        is_writable: before.is_writable,
        lamports: 890_880,
        data: vec![0u8; request.space as usize],
    }
}

#[test]
fn init_asks_for_an_account_of_the_program() {
    let payer = lifecycle_account(1, SYSTEM_PROGRAM_ID, 10, Vec::new());
    let target = lifecycle_account(2, SYSTEM_PROGRAM_ID, 0, Vec::new());
    let seeds: [&[u8]; 2] = [b"global-config", &[254]];
    let request = ProgramAccount::init(&payer, &target, &seeds, 76, &PROGRAM);
    assert_eq!(
        request,
        CreateAccount {
            from: [1; 32],
            to: [2; 32],
            space: 76,
            owner: PROGRAM,
            signer_seeds: vec![b"global-config".to_vec(), vec![254]],
        }
    );
}

#[test]
fn an_owned_account_needs_nothing() {
    let payer = lifecycle_account(1, SYSTEM_PROGRAM_ID, 10, Vec::new());
    let target = lifecycle_account(2, PROGRAM, 5, vec![0; 76]);
    let seeds: [&[u8]; 1] = [b"global-config"];
    for derived in [None, Some(([2u8; 32], 254u8)), Some(([3u8; 32], 254u8))] {
        assert_eq!(
            ProgramAccount::init_if_needed_with(&payer, &target, &seeds, &derived, 76, &PROGRAM),
            Ok(None)
        );
    }
}

#[test]
fn an_unowned_account_at_the_derived_address_is_requested() {
    let payer = lifecycle_account(1, SYSTEM_PROGRAM_ID, 10, Vec::new());
    let target = lifecycle_account(2, SYSTEM_PROGRAM_ID, 0, Vec::new());
    let seeds: [&[u8]; 1] = [b"global-config"];
    let decision = ProgramAccount::init_if_needed_with(
        &payer,
        &target,
        &seeds,
        &Some(([2; 32], 253)),
        76,
        &PROGRAM,
    );
    assert_eq!(
        decision,
        Ok(Some(CreateAccount {
            from: [1; 32],
            to: [2; 32],
            space: 76,
            owner: PROGRAM,
            signer_seeds: vec![b"global-config".to_vec(), vec![253]],
        }))
    );
}

#[test]
fn an_unowned_account_elsewhere_is_never_requested() {
    let payer = lifecycle_account(1, SYSTEM_PROGRAM_ID, 10, Vec::new());
    let target = lifecycle_account(2, SYSTEM_PROGRAM_ID, 0, Vec::new());
    let seeds: [&[u8]; 1] = [b"global-config"];
    assert_eq!(
        ProgramAccount::init_if_needed_with(
            &payer,
            &target,
            &seeds,
            &Some(([3; 32], 253)),
            76,
            &PROGRAM
        ),
        Err(RWAError::InvalidAccountData)
    );
    assert_eq!(
        ProgramAccount::init_if_needed_with(&payer, &target, &seeds, &None, 76, &PROGRAM),
        Err(RWAError::InvalidAccountData)
    );
}

#[test]
fn a_second_init_if_needed_is_a_no_op() {
    let payer = lifecycle_account(1, SYSTEM_PROGRAM_ID, 10, Vec::new());
    let target = lifecycle_account(2, SYSTEM_PROGRAM_ID, 0, Vec::new());
    let seeds: [&[u8]; 1] = [b"global-config"];
    let derived = Some(([2u8; 32], 253u8));
    let first =
        ProgramAccount::init_if_needed_with(&payer, &target, &seeds, &derived, 76, &PROGRAM)
            .unwrap()
            .unwrap();
    let created = carry_out(&first, &target);
    let second =
        ProgramAccount::init_if_needed_with(&payer, &created, &seeds, &derived, 76, &PROGRAM);
    assert_eq!(second, Ok(None));
    let third =
        ProgramAccount::init_if_needed_with(&payer, &created, &seeds, &derived, 76, &PROGRAM);
    assert_eq!(third, Ok(None));
    assert_eq!(created.data, vec![0u8; 76]);
}

#[test]
fn init_if_needed_decides_on_a_fresh_derivation() {
    let payer = lifecycle_account(1, SYSTEM_PROGRAM_ID, 10, Vec::new());
    let seeds: [&[u8]; 1] = [b"global-config"];
    let derived = find_program_address(&seeds, &PROGRAM);
    for target in [
        lifecycle_account(2, SYSTEM_PROGRAM_ID, 0, Vec::new()),
        lifecycle_account(2, PROGRAM, 0, vec![0; 76]),
    ] {
        assert_eq!(
            ProgramAccount::init_if_needed(&payer, &target, &seeds, 76, &PROGRAM),
            ProgramAccount::init_if_needed_with(&payer, &target, &seeds, &derived, 76, &PROGRAM)
        );
    }
}

#[test]
fn an_owned_account_must_have_the_record_s_length() {
    let payer = lifecycle_account(1, SYSTEM_PROGRAM_ID, 10, Vec::new());
    let seeds: [&[u8]; 1] = [b"global-config"];
    let derived = Some(([2u8; 32], 253u8));
    let right = lifecycle_account(2, PROGRAM, 5, vec![0; 76]);
    assert_eq!(
        ProgramAccount::ensure_record(&payer, &right, &seeds, &derived, 76, &PROGRAM),
        Ok(None)
    );
    for len in [0usize, 75, 77] {
        let wrong = lifecycle_account(2, PROGRAM, 5, vec![0; len]);
        assert_eq!(
            ProgramAccount::ensure_record(&payer, &wrong, &seeds, &derived, 76, &PROGRAM),
            Err(RWAError::InvalidAccountData)
        );
    }
}

#[test]
fn an_unowned_account_of_any_length_can_be_requested() {
    let payer = lifecycle_account(1, SYSTEM_PROGRAM_ID, 10, Vec::new());
    let seeds: [&[u8]; 1] = [b"global-config"];
    let derived = Some(([2u8; 32], 253u8));
    let target = lifecycle_account(2, SYSTEM_PROGRAM_ID, 0, vec![0; 3]);
    let decision = ProgramAccount::ensure_record(&payer, &target, &seeds, &derived, 76, &PROGRAM);
    assert!(matches!(decision, Ok(Some(_))));
    assert_eq!(decision.unwrap().unwrap().space, 76);
}

#[test]
fn write_record_puts_the_creation_first() {
    let create = CreateAccount {
        from: [1; 32],
        to: [2; 32],
        space: 3,
        owner: PROGRAM,
        signer_seeds: vec![vec![9]],
    };
    let expected_create = CreateAccount {
        from: [1; 32],
        to: [2; 32],
        space: 3,
        owner: PROGRAM,
        signer_seeds: vec![vec![9]],
    };
    assert_eq!(
        write_record(Some(create), &[2; 32], vec![7, 8, 9]),
        vec![
            Action::CreateAccount(expected_create),
            Action::WriteData(WriteData { account: [2; 32], data: vec![7, 8, 9] }),
        ]
    );
    assert_eq!(
        write_record(None, &[2; 32], vec![7, 8, 9]),
        vec![Action::WriteData(WriteData { account: [2; 32], data: vec![7, 8, 9] })]
    );
}

#[test]
fn close_moves_the_balance_and_zeroes_the_data() {
    let mut record = lifecycle_account(2, PROGRAM, 890_880, vec![1, 2, 3, 4, 5]);
    let mut destination = lifecycle_account(1, SYSTEM_PROGRAM_ID, 1_000, vec![9]);
    assert_eq!(ProgramAccount::close(&mut record, &mut destination), Ok(()));
    assert_eq!(record.lamports, 0);
    assert_eq!(destination.lamports, 891_880);
    assert_eq!(record.data, vec![0u8; 5]);
    assert_eq!(record.key, [2; 32]);
    assert_eq!(record.owner, PROGRAM);
    assert_eq!(destination.data, vec![9]);
    assert_eq!(destination.key, [1; 32]);
    assert_eq!(destination.owner, SYSTEM_PROGRAM_ID);
}

#[test]
fn close_of_an_empty_account_moves_nothing() {
    let mut record = lifecycle_account(2, PROGRAM, 0, Vec::new());
    let mut destination = lifecycle_account(1, SYSTEM_PROGRAM_ID, u64::MAX, Vec::new());
    assert_eq!(ProgramAccount::close(&mut record, &mut destination), Ok(()));
    assert_eq!(record.lamports, 0);
    assert_eq!(destination.lamports, u64::MAX);
    assert!(record.data.is_empty());
}

#[test]
fn close_keeps_the_sum_of_the_balances() {
    let mut record = lifecycle_account(2, PROGRAM, u64::MAX - 7, vec![1; 76]);
    let mut destination = lifecycle_account(1, SYSTEM_PROGRAM_ID, 7, Vec::new());
    assert_eq!(ProgramAccount::close(&mut record, &mut destination), Ok(()));
    assert_eq!(destination.lamports, u64::MAX);
    assert_eq!(record.lamports, 0);
    assert_eq!(record.data, vec![0u8; 76]);
}

#[test]
fn a_record_exists_where_the_program_owns_the_account() {
    let owned = lifecycle_account(2, PROGRAM, 5, vec![0; 76]);
    assert_eq!(ProgramAccount::state(&owned, &PROGRAM), RecordState::Initialized);
    let plain = lifecycle_account(2, SYSTEM_PROGRAM_ID, 5, Vec::new());
    assert_eq!(ProgramAccount::state(&plain, &PROGRAM), RecordState::Uninitialized);
    assert_eq!(ProgramAccount::state(&owned, &[0xd8; 32]), RecordState::Uninitialized);
}

#[test]
fn a_closed_record_still_belongs_to_the_program() {
    let mut record = lifecycle_account(2, PROGRAM, 9, vec![1; 76]);
    let mut destination = lifecycle_account(1, SYSTEM_PROGRAM_ID, 1, Vec::new());
    assert_eq!(ProgramAccount::close(&mut record, &mut destination), Ok(()));
    assert_eq!(ProgramAccount::state(&record, &PROGRAM), RecordState::Initialized);
    assert_eq!(record.data.len(), 76);
}

#[test]
fn close_refuses_balances_that_do_not_fit() {
    let mut record = lifecycle_account(2, PROGRAM, 1, vec![1, 2, 3]);
    let mut destination = lifecycle_account(1, SYSTEM_PROGRAM_ID, u64::MAX, vec![9]);
    assert_eq!(
        ProgramAccount::close(&mut record, &mut destination),
        Err(RWAError::InvalidAccountData)
    );
    assert_eq!(record.lamports, 1);
    assert_eq!(record.data, vec![1, 2, 3]);
    assert_eq!(destination.lamports, u64::MAX);
    assert_eq!(destination.data, vec![9]);
    let mut record = lifecycle_account(2, PROGRAM, u64::MAX, vec![7; 76]);
    let mut destination = lifecycle_account(1, SYSTEM_PROGRAM_ID, u64::MAX, Vec::new());
    assert_eq!(
        ProgramAccount::close(&mut record, &mut destination),
        Err(RWAError::InvalidAccountData)
    );
    assert_eq!(record.lamports, u64::MAX);
    assert_eq!(record.data, vec![7; 76]);
    assert_eq!(destination.lamports, u64::MAX);
}
