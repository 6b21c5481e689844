use sov_nft::address::Address;
use sov_nft::genesis_config::{validate_config, GenesisError, GenesisPaths};

#[test]
fn genesis_paths_from_dir() {
    let paths = GenesisPaths::from_dir("../test-data/genesis/mock");
    assert_eq!(paths.path_separator, std::path::MAIN_SEPARATOR);
    assert_eq!(paths.path_separator, '/');
    assert_eq!(paths.accounts_genesis_path, "../test-data/genesis/mock/accounts.json");
    assert_eq!(paths.bank_genesis_path, "../test-data/genesis/mock/bank.json");
    assert_eq!(
        paths.sequencer_genesis_path,
        "../test-data/genesis/mock/sequencer_registry.json"
    );
    assert_eq!(paths.nft_genesis_path, "../test-data/genesis/mock/nft.json");
}

#[test]
fn genesis_paths_from_dir_with_trailing_separator() {
    let paths = GenesisPaths::from_dir("genesis/");
    assert_eq!(paths.bank_genesis_path, "genesis/bank.json");
}

#[test]
fn validate_config_accepts_matching_token() {
    let token = Address::new([7u8; 32]);
    let res = validate_config("config", &token, &Address::new([7u8; 32]));
    assert_eq!(res.unwrap(), "config");
}

#[test]
fn validate_config_refuses_other_token() {
    let token = Address::new([7u8; 32]);
    let coins = Address::new([8u8; 32]);
    match validate_config(42u32, &token, &coins) {
        Err(GenesisError::WrongTokenAddress { expected, found }) => {
            assert_eq!(expected, token);
            assert_eq!(found, coins);
        }
        Ok(_) => panic!("accepted a wrong token address"),
    }
}

#[test]
fn genesis_paths_from_empty_dir() {
    let paths = GenesisPaths::from_dir("");
    assert_eq!(paths.nft_genesis_path, "nft.json");
    assert_eq!(paths.sequencer_genesis_path, "sequencer_registry.json");
}

#[test]
fn wrong_token_message() {
    let token = Address::new([7u8; 32]);
    let coins = Address::new([8u8; 32]);
    let e = validate_config((), &token, &coins).unwrap_err();
    assert_eq!(
        e.message(),
        format!(
            "Wrong token address in `sequencer_registry_config` expected {} but found {}",
            sov_modules_api::Address::from([7u8; 32]),
            sov_modules_api::Address::from([8u8; 32])
        )
    );
}
