use fanfury::bonding;
use fanfury::ledger::BondingLedger;
use fanfury::swap;
use fanfury::util::{BlockInfo, Coin, Env, MessageInfo};

fn env(contract: &str, time_seconds: u64) -> Env {
    Env {
        block: BlockInfo { height: 12345, time_seconds },
        contract_address: contract.to_string(),
    }
}

fn info(sender: &str, funds: Vec<Coin>) -> MessageInfo {
    MessageInfo { sender: sender.to_string(), funds }
}

fn usdc(amount: u128) -> Coin {
    Coin { denom: "usdc".to_string(), amount }
}

#[test]
fn pool_execute_routes_requests() {
    let host = env("contract1", 1000000);
    let (mut cfg, mut token1, mut token2, _lp) = swap::instantiate(
        &host,
        swap::InstantiateMsg {
            lp_token_code_id: 1,
            bonding_code_id: 2,
            owner: "owner".to_string(),
            treasury_address: "owner".to_string(),
            fury_token_address: "fury".to_string(),
            usdc_denom: "usdc".to_string(),
            lock_seconds: 7,
            discount: 5,
            tx_fee: 3,
            platform_fee: 10,
            daily_vesting_amount: 10000000000,
        },
    );
    let lp_token = "contract2".to_string();

    let owner = info("owner", vec![usdc(20520)]);
    swap::execute(
        &mut cfg,
        &mut token1,
        &mut token2,
        &lp_token,
        0,
        0,
        &owner,
        &host,
        swap::ExecuteMsg::AddLiquidity {
            token1_amount: 20000,
            min_liquidity: 20000,
            max_token2: 20000,
            fee_amount: 520,
            expiration: None,
        },
    )
    .unwrap();
    assert_eq!(token1.reserve, 20000);
    assert_eq!(token2.reserve, 20000);

    let buyer = info("buyer", vec![usdc(1013)]);
    swap::execute(
        &mut cfg,
        &mut token1,
        &mut token2,
        &lp_token,
        20000,
        0,
        &buyer,
        &host,
        swap::ExecuteMsg::Swap {
            input_token: swap::TokenSelect::Token1,
            input_amount: 1000,
            min_output: 949,
            fee_amount: 13,
            expiration: None,
        },
    )
    .unwrap();
    assert_eq!(token1.reserve, 21000);
    assert_eq!(token2.reserve, 19051);

    let owner = info("owner", vec![]);
    swap::execute(
        &mut cfg,
        &mut token1,
        &mut token2,
        &lp_token,
        20000,
        20000,
        &owner,
        &host,
        swap::ExecuteMsg::UpdateConfig {
            owner: "owner".to_string(),
            bonding_contract_address: "contract3".to_string(),
            treasury_address: "owner".to_string(),
        },
    )
    .unwrap();
    assert_eq!(cfg.bonding_contract_address, "contract3");
}

#[test]
fn ledger_execute_routes_requests() {
    let host = env("contract3", 2000000);
    let mut cfg = bonding::instantiate(
        &host,
        bonding::InstantiateMsg {
            owner: "owner".to_string(),
            pool_address: "contract1".to_string(),
            treasury_address: "owner".to_string(),
            fury_token_address: "fury".to_string(),
            usdc_denom: "usdc".to_string(),
            lock_seconds: 5,
            discount: 7,
            tx_fee: 3,
            platform_fee: 10,
            daily_vesting_amount: 10000000000,
            is_native_bonding: true,
        },
    );
    let mut ledger = BondingLedger::new();

    // a direct deposit, with the pool's quote handed in as a reading
    let readings = bonding::LedgerReadings {
        quoted_token2_amount: 9066,
        usdc_price: 0,
        fury_balance: 0,
    };
    let bonder = info("bonder", vec![usdc(10130)]);
    bonding::execute(
        &mut cfg,
        &mut ledger,
        &host,
        &bonder,
        &readings,
        bonding::ExecuteMsg::Bond { amount: 10000 },
    )
    .unwrap();
    let state =
        bonding::query_bond_state(&cfg, &ledger, 1000000, 2000000, "bonder".to_string()).unwrap();
    assert_eq!(state.list[0].amount, 9129);

    // unbond once the grant matures, with the price and balance readings
    let later = env("contract3", 2000006);
    let readings = bonding::LedgerReadings {
        quoted_token2_amount: 0,
        usdc_price: 1000000,
        fury_balance: 10000,
    };
    let bonder = info("bonder", vec![usdc(200)]);
    bonding::execute(
        &mut cfg,
        &mut ledger,
        &later,
        &bonder,
        &readings,
        bonding::ExecuteMsg::Unbond {},
    )
    .unwrap();
    let remaining = ledger.load(&"bonder".to_string()).unwrap();
    assert_eq!(remaining.len(), 0);
}
