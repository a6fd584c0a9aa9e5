//! The wallet contract types that the host can select, and the variants of the
//! wallet engine that they stand for.

use vstd::prelude::*;

verus! {

/// The contract type as the host selects it.
#[derive(Copy, Clone, Debug, PartialEq, Eq, Structural)]
pub enum ContractType {
    SafeMultisig,
    SafeMultisig24h,
    SetcodeMultisig,
    Surf,
    WalletV3,
}

/// The kinds of multi-signature wallet that the engine tells apart.
#[derive(Copy, Clone, Debug, PartialEq, Eq, Structural)]
pub enum MultisigType {
    SafeMultisigWallet,
    SafeMultisigWallet24h,
    SetcodeMultisigWallet,
    SurfWallet,
}

/// The contract type as the wallet engine takes it: one of the
/// multi-signature wallets, or the simple single-signature wallet.
#[derive(Copy, Clone, Debug, PartialEq, Eq, Structural)]
pub enum WalletContract {
    Multisig(MultisigType),
    WalletV3,
}

impl ContractType {
    /// The engine's variant that a host selection stands for.
    pub open spec fn engine_variant(self) -> WalletContract {
        match self {
            ContractType::SafeMultisig => WalletContract::Multisig(
                MultisigType::SafeMultisigWallet,
            ),
            ContractType::SafeMultisig24h => WalletContract::Multisig(
                MultisigType::SafeMultisigWallet24h,
            ),
            ContractType::SetcodeMultisig => WalletContract::Multisig(
                MultisigType::SetcodeMultisigWallet,
            ),
            ContractType::Surf => WalletContract::Multisig(MultisigType::SurfWallet),
            ContractType::WalletV3 => WalletContract::WalletV3,
        }
    }
}

impl From<ContractType> for WalletContract {
    fn from(t: ContractType) -> (contract: WalletContract)
        ensures
            contract == t.engine_variant(),
    {
        match t {
            ContractType::SafeMultisig => WalletContract::Multisig(
                MultisigType::SafeMultisigWallet,
            ),
            ContractType::SafeMultisig24h => WalletContract::Multisig(
                MultisigType::SafeMultisigWallet24h,
            ),
            ContractType::SetcodeMultisig => WalletContract::Multisig(
                MultisigType::SetcodeMultisigWallet,
            ),
            ContractType::Surf => WalletContract::Multisig(MultisigType::SurfWallet),
            ContractType::WalletV3 => WalletContract::WalletV3,
        }
    }
}

impl vstd::std_specs::convert::FromSpecImpl<ContractType> for WalletContract {
    open spec fn obeys_from_spec() -> bool {
        true
    }

    open spec fn from_spec(t: ContractType) -> WalletContract {
        t.engine_variant()
    }
}

/// Every host selection stands for exactly one engine variant: two selections
/// with the same variant are the same selection, and every engine variant is
/// the variant of some selection.
pub proof fn selection_is_one_to_one(a: ContractType, b: ContractType, w: WalletContract)
    ensures
        a.engine_variant() == b.engine_variant() <==> a == b,
        exists|t: ContractType| t.engine_variant() == w,
        a.engine_variant() is WalletV3 <==> a == ContractType::WalletV3,
{
    let t = match w {
        WalletContract::Multisig(MultisigType::SafeMultisigWallet) => ContractType::SafeMultisig,
        WalletContract::Multisig(MultisigType::SafeMultisigWallet24h) => {
            ContractType::SafeMultisig24h
        },
        WalletContract::Multisig(MultisigType::SetcodeMultisigWallet) => {
            ContractType::SetcodeMultisig
        },
        WalletContract::Multisig(MultisigType::SurfWallet) => ContractType::Surf,
        WalletContract::WalletV3 => ContractType::WalletV3,
    };
    assert(t.engine_variant() == w);
}

} // verus!
