use pinocchio::program_error::ProgramError;
use rwa_registry::errors::RWAError;
use rwa_registry::errors::CUSTOM_ZERO;
use rwa_registry::errors::ERROR_COUNT;

fn all_errors() -> Vec<RWAError> {
    vec![
        RWAError::InvalidInstructionData,
        RWAError::PdaMismatch,
        RWAError::InvalidOwner,
        RWAError::NotSigner,
        RWAError::InvalidAddress,
        RWAError::InvalidAccountData,
        RWAError::UninitialisedAccount,
        RWAError::NotEnoughAccountKeys,
        RWAError::CreatorNotVerified,
    ]
}

#[test]
fn codes_follow_the_declaration_order() {
    assert_eq!(RWAError::InvalidInstructionData.code(), 0);
    assert_eq!(RWAError::PdaMismatch.code(), 1);
    assert_eq!(RWAError::InvalidOwner.code(), 2);
    assert_eq!(RWAError::NotSigner.code(), 3);
    assert_eq!(RWAError::InvalidAddress.code(), 4);
    assert_eq!(RWAError::InvalidAccountData.code(), 5);
    assert_eq!(RWAError::UninitialisedAccount.code(), 6);
    assert_eq!(RWAError::NotEnoughAccountKeys.code(), 7);
    assert_eq!(RWAError::CreatorNotVerified.code(), 8);
    assert_eq!(ERROR_COUNT, 9);
}

#[test]
fn every_error_is_found_again_from_its_code() {
    for e in all_errors() {
        assert_eq!(RWAError::try_from(e.code()), Some(e));
    }
}

#[test]
fn every_code_below_the_count_is_an_error() {
    for value in 0..ERROR_COUNT {
        let e = RWAError::try_from(value);
        assert!(e.is_some());
        assert_eq!(e.unwrap().code(), value);
    }
}

#[test]
fn numbers_that_are_no_code_give_nothing() {
    assert_eq!(RWAError::try_from(9), None);
    assert_eq!(RWAError::try_from(10), None);
    assert_eq!(RWAError::try_from(255), None);
    assert_eq!(RWAError::try_from(u32::MAX), None);
}

#[test]
fn messages_are_the_static_texts() {
    assert_eq!(RWAError::InvalidInstructionData.to_str(), "Invalid instruction data");
    assert_eq!(RWAError::PdaMismatch.to_str(), "PDA mismatch");
    assert_eq!(RWAError::InvalidOwner.to_str(), "Invalid account owner");
    assert_eq!(RWAError::NotSigner.to_str(), "Expected a signer");
    assert_eq!(RWAError::InvalidAddress.to_str(), "Invalid address");
    assert_eq!(RWAError::InvalidAccountData.to_str(), "Invalid account data");
    assert_eq!(
        RWAError::UninitialisedAccount.to_str(),
        "The pda doesn't exist onchain because it's balance is 0"
    );
    assert_eq!(
        RWAError::NotEnoughAccountKeys.to_str(),
        "Not Enough Accounts passed that were required by the ix..."
    );
    assert_eq!(RWAError::CreatorNotVerified.to_str(), "Creator KYC is not verified");
}

#[test]
fn messages_are_pairwise_different() {
    let all = all_errors();
    for (i, a) in all.iter().enumerate() {
        for (j, b) in all.iter().enumerate() {
            if i != j {
                assert_ne!(a.to_str(), b.to_str());
            }
        }
    }
}

#[test]
fn host_code_of_code_zero_is_moved_off_success() {
    assert_eq!(CUSTOM_ZERO, 4_294_967_296);
    assert_eq!(RWAError::InvalidInstructionData.host_code(), 4_294_967_296);
}

#[test]
fn host_code_of_other_errors_is_the_code() {
    assert_eq!(RWAError::PdaMismatch.host_code(), 1);
    assert_eq!(RWAError::InvalidOwner.host_code(), 2);
    assert_eq!(RWAError::NotSigner.host_code(), 3);
    assert_eq!(RWAError::InvalidAddress.host_code(), 4);
    assert_eq!(RWAError::InvalidAccountData.host_code(), 5);
    assert_eq!(RWAError::UninitialisedAccount.host_code(), 6);
    assert_eq!(RWAError::NotEnoughAccountKeys.host_code(), 7);
    assert_eq!(RWAError::CreatorNotVerified.host_code(), 8);
}

#[test]
fn host_code_is_what_the_runtime_library_reports() {
    for e in all_errors() {
        assert_eq!(e.host_code(), u64::from(ProgramError::Custom(e.code())));
        assert_ne!(e.host_code(), 0);
    }
}

#[test]
fn host_code_is_read_back_as_the_custom_error() {
    for e in all_errors() {
        assert_eq!(ProgramError::from(e.host_code()), ProgramError::Custom(e.code()));
    }
}

#[test]
fn host_codes_are_pairwise_different() {
    let all = all_errors();
    for (i, a) in all.iter().enumerate() {
        for (j, b) in all.iter().enumerate() {
            if i != j {
                assert_ne!(a.code(), b.code());
                assert_ne!(a.host_code(), b.host_code());
            }
        }
    }
}
