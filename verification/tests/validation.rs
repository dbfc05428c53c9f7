use cw721_piggy_bank::contract::{execute_deposit, instantiate};
use cw721_piggy_bank::error::ContractError;
use cw721_piggy_bank::msg::{Coin, InstantiateMsg};
use cw721_piggy_bank::state::Ledger;

fn msg_with(deposit_denom: &str, base_url: &str) -> InstantiateMsg {
    InstantiateMsg {
        name: "piggy".to_string(),
        symbol: "PIG".to_string(),
        minter: "larry".to_string(),
        deposit_denom: deposit_denom.to_string(),
        base_url: base_url.to_string(),
        mint_price: Coin { denom: "ujuno".to_string(), amount: 1_000_000 },
        max_nft_supply: None,
        sale_funds_recipient: "larry".to_string(),
    }
}

fn denom_accepted(denom: &str) -> bool {
    instantiate(&msg_with(denom, "https://example.org"), &Some("larry".to_string())).is_ok()
}

fn url_accepted(url: &str) -> bool {
    match instantiate(&msg_with("ujuno", url), &Some("larry".to_string())) {
        Ok(_) => true,
        Err(e) => {
            assert_eq!(e, ContractError::InvalidUrl);
            false
        }
    }
}

#[test]
fn denoms_follow_the_native_rules() {
    assert!(denom_accepted("ujuno"));
    assert!(denom_accepted("uatom"));
    assert!(denom_accepted("abc"));
    assert!(denom_accepted("ibc/27394FB092D2ECCD56123C74F36E4C1F"));
    assert!(denom_accepted(&format!("a{}", "b".repeat(127))));

    // Too short, too long, bad first character, bad character.
    assert!(!denom_accepted(""));
    assert!(!denom_accepted("ab"));
    assert!(!denom_accepted(&format!("a{}", "b".repeat(128))));
    assert!(!denom_accepted("1abc"));
    assert!(!denom_accepted("_abc"));
    assert!(!denom_accepted("ab cd"));
    assert!(!denom_accepted("ab$cd"));
    assert!(!denom_accepted("abcé"));
}

#[test]
fn urls_must_parse() {
    assert!(url_accepted("https://example.org"));
    assert!(url_accepted(
        "https://bafybeie2grcflzjvds7i33bxjjgktjdfcp2h2v27gdkbyuiaelvbgtdewy.ipfs.nftstorage.link"
    ));
    assert!(url_accepted("ipfs://QmNadir/metadata"));
    assert!(!url_accepted(""));
    assert!(!url_accepted("not a url"));
    assert!(!url_accepted("example.org/no-scheme"));
}

/// Payment validation through the deposit flow, against the real host
/// rules: exactly one positive coin of the configured denomination.
#[test]
fn payment_validation_matches_the_host_rules() {
    let config =
        instantiate(&msg_with("ujuno", "https://example.org"), &Some("larry".to_string()))
            .unwrap();
    let mut ledger = Ledger::new();
    let token = "1".to_string();
    let ujuno = |amount: u128| Coin { denom: "ujuno".to_string(), amount };
    let uatom = |amount: u128| Coin { denom: "uatom".to_string(), amount };

    let ok = execute_deposit(&config, &mut ledger, &token, &vec![ujuno(25)], true);
    assert!(ok.is_ok());

    let err = execute_deposit(&config, &mut ledger, &token, &vec![], true).unwrap_err();
    assert_eq!(err, ContractError::MissingPayment);

    let err = execute_deposit(&config, &mut ledger, &token, &vec![ujuno(0)], true).unwrap_err();
    assert_eq!(err, ContractError::MissingPayment);

    let err = execute_deposit(&config, &mut ledger, &token, &vec![uatom(25)], true).unwrap_err();
    assert_eq!(err, ContractError::WrongDenom);

    let err = execute_deposit(&config, &mut ledger, &token, &vec![ujuno(25), uatom(25)], true)
        .unwrap_err();
    assert_eq!(err, ContractError::ExtraDenom);

    let err = execute_deposit(&config, &mut ledger, &token, &vec![ujuno(10), ujuno(15)], true)
        .unwrap_err();
    assert_eq!(err, ContractError::ExtraDenom);
}
