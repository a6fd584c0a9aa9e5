use wallet_bridge::contract::{ContractType, MultisigType, WalletContract};
use wallet_bridge::status::ExitCode;

#[test]
fn status_codes_count_up_from_zero() {
    assert_eq!(ExitCode::Success.code(), 0);
    assert_eq!(ExitCode::FailedToCreateRuntime.code(), 1);
    assert_eq!(ExitCode::RuntimeIsNotInitialized.code(), 2);
    assert_eq!(ExitCode::TransportIsNotInitialized.code(), 3);
    assert_eq!(ExitCode::SubscriptionIsNotInitialized.code(), 4);
    assert_eq!(ExitCode::FailedToSubscribeToTonWallet.code(), 5);
    assert_eq!(ExitCode::InvalidUrl.code(), 6);
    assert_eq!(ExitCode::InvalidPublicKey.code(), 7);
}

#[test]
fn only_success_is_ok() {
    assert!(ExitCode::Success.is_ok());
    assert!(!ExitCode::FailedToCreateRuntime.is_ok());
    assert!(!ExitCode::RuntimeIsNotInitialized.is_ok());
    assert!(!ExitCode::TransportIsNotInitialized.is_ok());
    assert!(!ExitCode::SubscriptionIsNotInitialized.is_ok());
    assert!(!ExitCode::FailedToSubscribeToTonWallet.is_ok());
    assert!(!ExitCode::InvalidUrl.is_ok());
    assert!(!ExitCode::InvalidPublicKey.is_ok());
}

#[test]
fn every_selection_has_its_engine_variant() {
    assert_eq!(
        WalletContract::from(ContractType::SafeMultisig),
        WalletContract::Multisig(MultisigType::SafeMultisigWallet)
    );
    assert_eq!(
        WalletContract::from(ContractType::SafeMultisig24h),
        WalletContract::Multisig(MultisigType::SafeMultisigWallet24h)
    );
    assert_eq!(
        WalletContract::from(ContractType::SetcodeMultisig),
        WalletContract::Multisig(MultisigType::SetcodeMultisigWallet)
    );
    assert_eq!(
        WalletContract::from(ContractType::Surf),
        WalletContract::Multisig(MultisigType::SurfWallet)
    );
    assert_eq!(WalletContract::from(ContractType::WalletV3), WalletContract::WalletV3);
}

#[test]
fn selections_map_to_distinct_variants() {
    let all = [
        ContractType::SafeMultisig,
        ContractType::SafeMultisig24h,
        ContractType::SetcodeMultisig,
        ContractType::Surf,
        ContractType::WalletV3,
    ];
    for (i, a) in all.iter().enumerate() {
        for (j, b) in all.iter().enumerate() {
            let same = WalletContract::from(*a) == WalletContract::from(*b);
            assert_eq!(same, i == j);
        }
    }
}

#[test]
fn into_converts_like_from() {
    let contract: WalletContract = ContractType::Surf.into();
    assert_eq!(contract, WalletContract::Multisig(MultisigType::SurfWallet));
}
