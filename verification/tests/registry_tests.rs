use consensus_apply::registry::{call_bic, valid_bic_action, Builtin};

#[test]
fn whitelist_accepts_coin_transfer() {
    assert!(valid_bic_action(b"Coin".to_vec(), b"transfer".to_vec()));
}

#[test]
fn whitelist_rejects_unknown_function() {
    assert!(!valid_bic_action(b"Coin".to_vec(), b"explode".to_vec()));
}

#[test]
fn whitelist_rejects_unknown_contract() {
    assert!(!valid_bic_action(b"Unknown".to_vec(), b"transfer".to_vec()));
}

#[test]
fn whitelist_accepts_every_registered_pair() {
    let pairs: [(&[u8], &[u8]); 8] = [
        (b"Coin", b"transfer"),
        (b"Coin", b"create_and_mint"),
        (b"Coin", b"mint"),
        (b"Coin", b"pause"),
        (b"Epoch", b"set_emission_address"),
        (b"Epoch", b"submit_sol"),
        (b"Epoch", b"slash_trainer"),
        (b"Contract", b"deploy"),
    ];
    for (contract, function) in pairs {
        assert!(valid_bic_action(contract.to_vec(), function.to_vec()));
        assert!(call_bic(contract, function).is_ok());
    }
}

#[test]
fn whitelist_rejects_pairs_outside_the_table() {
    assert!(!valid_bic_action(b"Epoch".to_vec(), b"transfer".to_vec()));
    assert!(!valid_bic_action(b"Contract".to_vec(), b"mint".to_vec()));
    assert!(!valid_bic_action(b"Coin".to_vec(), b"deploy".to_vec()));
    assert!(!valid_bic_action(b"coin".to_vec(), b"transfer".to_vec()));
    assert!(!valid_bic_action(b"Coin".to_vec(), b"transfer ".to_vec()));
    assert!(!valid_bic_action(Vec::new(), Vec::new()));
}

#[test]
fn registry_names_each_handler() {
    assert_eq!(call_bic(b"Coin", b"transfer"), Ok(Builtin::CoinTransfer));
    assert_eq!(call_bic(b"Coin", b"create_and_mint"), Ok(Builtin::CoinCreateAndMint));
    assert_eq!(call_bic(b"Coin", b"mint"), Ok(Builtin::CoinMint));
    assert_eq!(call_bic(b"Coin", b"pause"), Ok(Builtin::CoinPause));
    assert_eq!(
        call_bic(b"Epoch", b"set_emission_address"),
        Ok(Builtin::EpochSetEmissionAddress)
    );
    assert_eq!(call_bic(b"Epoch", b"submit_sol"), Ok(Builtin::EpochSubmitSol));
    assert_eq!(call_bic(b"Epoch", b"slash_trainer"), Ok(Builtin::EpochSlashTrainer));
    assert_eq!(call_bic(b"Contract", b"deploy"), Ok(Builtin::ContractDeploy));
}

#[test]
fn registry_refuses_unknown_pair_with_its_tag() {
    assert_eq!(call_bic(b"Coin", b"explode"), Err("invalid_bic_action"));
    assert_eq!(call_bic(b"Unknown", b"transfer"), Err("invalid_bic_action"));
    assert_eq!(call_bic(b"", b""), Err("invalid_bic_action"));
}
