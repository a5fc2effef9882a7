//! The built-in contract registry: the fixed table of (contract, function)
//! pairs that name a natively implemented handler.

use vstd::prelude::*;
use crate::bytes::{is_name, name_bytes};

verus! {

/// The handlers of the built-in contracts.
#[derive(Clone, Copy, Debug, PartialEq, Eq)]
pub enum Builtin {
    CoinTransfer,
    CoinCreateAndMint,
    CoinMint,
    CoinPause,
    EpochSetEmissionAddress,
    EpochSubmitSol,
    EpochSlashTrainer,
    ContractDeploy,
}

/// The handler that a (contract, function) pair names, if it names one.
pub open spec fn builtin_of(contract: Seq<u8>, function: Seq<u8>) -> Option<Builtin> {
    if contract == name_bytes("Coin") {
        if function == name_bytes("transfer") {
            Some(Builtin::CoinTransfer)
        } else if function == name_bytes("create_and_mint") {
            Some(Builtin::CoinCreateAndMint)
        } else if function == name_bytes("mint") {
            Some(Builtin::CoinMint)
        } else if function == name_bytes("pause") {
            Some(Builtin::CoinPause)
        } else {
            None
        }
    } else if contract == name_bytes("Epoch") {
        if function == name_bytes("set_emission_address") {
            Some(Builtin::EpochSetEmissionAddress)
        } else if function == name_bytes("submit_sol") {
            Some(Builtin::EpochSubmitSol)
        } else if function == name_bytes("slash_trainer") {
            Some(Builtin::EpochSlashTrainer)
        } else {
            None
        }
    } else if contract == name_bytes("Contract") {
        if function == name_bytes("deploy") {
            Some(Builtin::ContractDeploy)
        } else {
            None
        }
    } else {
        None
    }
}

/// The tag of a dispatch to a pair that names no handler.
pub open spec fn invalid_bic_action() -> Seq<char> {
    "invalid_bic_action"@
}

/// Looks up the handler of a built-in action. A pair outside the table is
/// refused with `"invalid_bic_action"`; nothing is run in its place.
pub fn call_bic(contract: &[u8], function: &[u8]) -> (r: Result<Builtin, &'static str>)
    ensures
        match builtin_of(contract@, function@) {
            Some(handler) => r == Ok::<Builtin, &'static str>(handler),
            None => r matches Err(tag) && tag@ == invalid_bic_action(),
        },
{
    if is_name(contract, "Coin") {
        if is_name(function, "transfer") {
            Ok(Builtin::CoinTransfer)
        } else if is_name(function, "create_and_mint") {
            Ok(Builtin::CoinCreateAndMint)
        } else if is_name(function, "mint") {
            Ok(Builtin::CoinMint)
        } else if is_name(function, "pause") {
            Ok(Builtin::CoinPause)
        } else {
            Err("invalid_bic_action")
        }
    } else if is_name(contract, "Epoch") {
        if is_name(function, "set_emission_address") {
            Ok(Builtin::EpochSetEmissionAddress)
        } else if is_name(function, "submit_sol") {
            Ok(Builtin::EpochSubmitSol)
        } else if is_name(function, "slash_trainer") {
            Ok(Builtin::EpochSlashTrainer)
        } else {
            Err("invalid_bic_action")
        }
    } else if is_name(contract, "Contract") {
        if is_name(function, "deploy") {
            Ok(Builtin::ContractDeploy)
        } else {
            Err("invalid_bic_action")
        }
    } else {
        Err("invalid_bic_action")
    }
}

/// Admission whitelist: whether a (contract, function) pair names a built-in
/// handler. It accepts exactly the pairs that `call_bic` dispatches, and it
/// depends on no state.
pub fn valid_bic_action(contract: Vec<u8>, function: Vec<u8>) -> (valid: bool)
    ensures
        valid == builtin_of(contract@, function@).is_some(),
{
    call_bic(contract.as_slice(), function.as_slice()).is_ok()
}

} // verus!
