//! The asset escrow step: what the pipeline does before it hands an action
//! to the virtual machine.

use vstd::prelude::*;
use crate::context::{ApplyEnv, ApplyEnvView, CallerEnvView};
use crate::decimal::{lemma_parse_decimal_of_decimal, parse_i128, parse_i128_spec};
use crate::keys::{balance_key, balance_key_spec};
use crate::kv::{can_increment, increment_effect, kv_increment};
use crate::bytes::copy_bytes;
use crate::mutation::{cell_number, read_number};
use crate::store::State;

verus! {

/// The execution state with nothing attached to the call.
pub open spec fn detached(e: ApplyEnvView) -> ApplyEnvView {
    ApplyEnvView {
        caller: CallerEnvView {
            attached_symbol: Seq::empty(),
            attached_amount: Seq::empty(),
            ..e.caller
        },
        ..e
    }
}

/// The execution state with `symbol` and the amount text attached.
pub open spec fn attached(e: ApplyEnvView, symbol: Seq<u8>, amount: Seq<u8>) -> ApplyEnvView {
    ApplyEnvView {
        caller: CallerEnvView { attached_symbol: symbol, attached_amount: amount, ..e.caller },
        ..e
    }
}

/// The amount that an attached amount text stands for: a positive 128-bit
/// integer in base 10, or nothing.
pub open spec fn attached_amount_of(text: Seq<u8>) -> Option<int> {
    match parse_i128_spec(text) {
        Some(a) => if a > 0 {
            Some(a as int)
        } else {
            None
        },
        None => None,
    }
}

/// Whether the cell at `key` holds a number of at least `amount`.
pub open spec fn covers(s: State, key: Seq<u8>, amount: int) -> bool {
    cell_number(s, key) matches Some(b) && amount <= b
}

/// The outcome of the escrow step: the execution state it leaves, and the
/// tag of the failure, if it fails.
///
/// Nothing stays attached from an earlier call. A contract without
/// bytecode fails. Without both an attached symbol and an attached amount
/// nothing is moved. Otherwise the amount must be a positive integer
/// (`"invalid_attached_amount"`) that the caller's balance of the symbol
/// covers (`"attached_amount_insufficient_funds"`); it is then added to the
/// contract's balance and taken from the caller's, and the call environment
/// shows what was attached. Where the contract's balance cell cannot take
/// the amount, because it holds no number or would leave the 128-bit range,
/// the step fails as `"unknown"` and nothing is moved.
pub open spec fn escrow_outcome(
    e: ApplyEnvView,
    has_bytecode: bool,
    contract: Seq<u8>,
    symbol: Option<Seq<u8>>,
    amount: Option<Seq<u8>>,
) -> (ApplyEnvView, Option<Seq<char>>) {
    let base = detached(e);
    if !has_bytecode {
        (base, Some("account_has_no_bytecode"@))
    } else if symbol is Some && amount is Some {
        let from = balance_key_spec(base.caller.account_caller, symbol->0);
        let to = balance_key_spec(contract, symbol->0);
        match attached_amount_of(amount->0) {
            None => (base, Some("invalid_attached_amount"@)),
            Some(a) => if !covers(base.store, from, a) {
                (base, Some("attached_amount_insufficient_funds"@))
            } else if !can_increment(base.store, to, a) {
                (base, Some("unknown"@))
            } else {
                (
                    attached(
                        increment_effect(increment_effect(base, to, a), from, -a),
                        symbol->0,
                        amount->0,
                    ),
                    None,
                )
            },
        }
    } else {
        (base, None)
    }
}

/// An account's balance of a symbol: the number in its balance cell, zero
/// where there is no cell, nothing where the cell holds no number.
pub fn balance(env: &ApplyEnv, account: &[u8], symbol: &[u8]) -> (b: Option<i128>)
    ensures
        match b {
            Some(v) => cell_number(env@.store, balance_key_spec(account@, symbol@)) == Some(
                v as int,
            ),
            None => cell_number(env@.store, balance_key_spec(account@, symbol@)) is None,
        },
{
    let key = balance_key(account, symbol);
    read_number(&env.store, key.as_slice())
}

/// Prepares a call into the virtual machine: checks that the contract has
/// bytecode, and moves the attached amount, if any, from the caller to the
/// contract through the business journal.
pub fn call_wasmvm(
    env: &mut ApplyEnv,
    has_bytecode: bool,
    contract: &[u8],
    attached_symbol: &Option<Vec<u8>>,
    attached_amount: &Option<Vec<u8>>,
) -> (r: Result<(), &'static str>)
    ensures
        final(env)@ == escrow_outcome(
            old(env)@,
            has_bytecode,
            contract@,
            option_bytes(*attached_symbol),
            option_bytes(*attached_amount),
        ).0,
        match r {
            Ok(_) => escrow_outcome(
                old(env)@,
                has_bytecode,
                contract@,
                option_bytes(*attached_symbol),
                option_bytes(*attached_amount),
            ).1 is None,
            Err(tag) => escrow_outcome(
                old(env)@,
                has_bytecode,
                contract@,
                option_bytes(*attached_symbol),
                option_bytes(*attached_amount),
            ).1 == Some(tag@),
        },
{
    env.caller_env.attached_symbol = Vec::new();
    env.caller_env.attached_amount = Vec::new();
    if !has_bytecode {
        return Err("account_has_no_bytecode");
    }
    match (attached_symbol, attached_amount) {
        (Some(symbol), Some(text)) => {
            let amount = match parse_i128(text.as_slice()) {
                Some(a) => a,
                None => {
                    return Err("invalid_attached_amount");
                },
            };
            if amount <= 0 {
                return Err("invalid_attached_amount");
            }
            let from = balance_key(env.caller_env.account_caller.as_slice(), symbol.as_slice());
            let to = balance_key(contract, symbol.as_slice());
            let held = match read_number(&env.store, from.as_slice()) {
                Some(b) => b,
                None => {
                    return Err("attached_amount_insufficient_funds");
                },
            };
            if amount > held {
                return Err("attached_amount_insufficient_funds");
            }
            let ghost base = env@;
            if kv_increment(env, to.as_slice(), amount).is_err() {
                return Err("unknown");
            }
            proof {
                lemma_parse_decimal_of_decimal(cell_number(base.store, to@).unwrap() + amount);
                assert(cell_number(env@.store, from@) == Some(
                    if from@ == to@ {
                        held + amount
                    } else {
                        held as int
                    },
                ));
            }
            let taken = kv_increment(env, from.as_slice(), -amount);
            assert(taken.is_ok());
            env.caller_env.attached_symbol = copy_bytes(symbol.as_slice());
            env.caller_env.attached_amount = copy_bytes(text.as_slice());
            Ok(())
        },
        _ => Ok(()),
    }
}

/// The bytes of an optional byte string.
pub open spec fn option_bytes(o: Option<Vec<u8>>) -> Option<Seq<u8>> {
    match o {
        Some(v) => Some(v@),
        None => None,
    }
}

/// Escrow moves exactly the attached amount. Where the contract has
/// bytecode, the amount is positive and covered by the caller's balance,
/// the two balance cells are different cells and the contract's balance can
/// take the amount, the contract's balance grows by the amount and the
/// caller's shrinks by it.
pub proof fn lemma_escrow_moves_amount(
    e: ApplyEnvView,
    contract: Seq<u8>,
    symbol: Seq<u8>,
    text: Seq<u8>,
    amount: int,
)
    requires
        attached_amount_of(text) == Some(amount),
        covers(e.store, balance_key_spec(e.caller.account_caller, symbol), amount),
        can_increment(e.store, balance_key_spec(contract, symbol), amount),
        balance_key_spec(contract, symbol) != balance_key_spec(e.caller.account_caller, symbol),
    ensures
        escrow_outcome(e, true, contract, Some(symbol), Some(text)).1 is None,
        cell_number(
            escrow_outcome(e, true, contract, Some(symbol), Some(text)).0.store,
            balance_key_spec(contract, symbol),
        ) == Some(cell_number(e.store, balance_key_spec(contract, symbol)).unwrap() + amount),
        cell_number(
            escrow_outcome(e, true, contract, Some(symbol), Some(text)).0.store,
            balance_key_spec(e.caller.account_caller, symbol),
        ) == Some(
            cell_number(e.store, balance_key_spec(e.caller.account_caller, symbol)).unwrap()
                - amount,
        ),
{
    let to = balance_key_spec(contract, symbol);
    let from = balance_key_spec(e.caller.account_caller, symbol);
    lemma_parse_decimal_of_decimal(cell_number(e.store, to).unwrap() + amount);
    lemma_parse_decimal_of_decimal(cell_number(e.store, from).unwrap() - amount);
}

/// Escrow that cannot be covered moves nothing. Where the attached amount
/// is no positive integer, or exceeds the caller's balance, the step fails
/// and the contract state is as it was.
pub proof fn lemma_escrow_refused(
    e: ApplyEnvView,
    has_bytecode: bool,
    contract: Seq<u8>,
    symbol: Seq<u8>,
    text: Seq<u8>,
)
    requires
        attached_amount_of(text) is None || !covers(
            e.store,
            balance_key_spec(e.caller.account_caller, symbol),
            attached_amount_of(text).unwrap(),
        ),
    ensures
        escrow_outcome(e, has_bytecode, contract, Some(symbol), Some(text)).1 is Some,
        escrow_outcome(e, has_bytecode, contract, Some(symbol), Some(text)).0 == detached(e),
        escrow_outcome(e, has_bytecode, contract, Some(symbol), Some(text)).0.store == e.store,
{
}

} // verus!
