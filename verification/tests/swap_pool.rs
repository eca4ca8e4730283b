use fanfury::error::ContractError;
use fanfury::swap::{
    execute_add_liquidity, execute_add_token, execute_remove_liquidity, execute_swap,
    execute_update_config, get_input_price, get_token2_amount_required, instantiate, migrate,
    query_config, query_info, query_token1_for_token2_price, reply, Config, Expiration,
    InstantiateMsg, Token, TokenSelect, INSTANTIATE_BONDING_ID, INSTANTIATE_LP_TOKEN_REPLY_ID,
};
use fanfury::util::{BlockInfo, Coin, Denom, Env, MessageInfo, SettleMsg};

fn pool_env(contract: &str, time_seconds: u64) -> Env {
    Env {
        block: BlockInfo { height: 12345, time_seconds },
        contract_address: contract.to_string(),
    }
}

fn info(sender: &str, funds: Vec<Coin>) -> MessageInfo {
    MessageInfo { sender: sender.to_string(), funds }
}

fn usdc(amount: u128) -> Coin {
    Coin { denom: "usdc".to_string(), amount }
}

fn pool_msg() -> InstantiateMsg {
    InstantiateMsg {
        lp_token_code_id: 1,
        bonding_code_id: 2,
        owner: "owner".to_string(),
        treasury_address: "owner".to_string(),
        fury_token_address: "fury".to_string(),
        usdc_denom: "usdc".to_string(),
        lock_seconds: 7,
        discount: 5,
        tx_fee: 3,
        platform_fee: 10,
        daily_vesting_amount: 10000000000,
    }
}

fn fresh_pool() -> (Config, Token, Token) {
    let env = pool_env("contract1", 1000000);
    let (cfg, token1, token2, lp_msg) = instantiate(&env, pool_msg());
    assert!(matches!(lp_msg, SettleMsg::InstantiateLpToken { code_id: 1, .. }));
    (cfg, token1, token2)
}

#[test]
fn integration_test_test_instantiate() {
    let env = pool_env("contract1", 1000000);
    let (mut cfg, token1, token2, _lp_msg) = instantiate(&env, pool_msg());
    assert_eq!(token1.reserve, 0);
    assert_eq!(token2.reserve, 0);
    assert!(matches!(token1.denom, Denom::Native(ref d) if d == "usdc"));
    assert!(matches!(token2.denom, Denom::Cw20(ref a) if a == "fury"));

    // the host instantiates the liquidity token and reports its address back
    let resp = reply(
        &mut cfg,
        &env,
        INSTANTIATE_LP_TOKEN_REPLY_ID,
        Some("contract2".to_string()),
    )
    .unwrap();
    assert_eq!(resp.lp_token_address, Some("contract2".to_string()));
    assert!(
        matches!(resp.messages[0], SettleMsg::InstantiateBonding { code_id: 2, ref admin, .. } if admin == "owner")
    );

    // the bonding ledger's address arrives through the second callback
    let resp = reply(&mut cfg, &env, INSTANTIATE_BONDING_ID, Some("contract3".to_string()))
        .unwrap();
    assert_eq!(resp.lp_token_address, None);
    assert_eq!(cfg.bonding_contract_address, "contract3".to_string());

    let config = query_config(&cfg);
    assert_eq!(config.usdc_denom, "usdc");
    assert_eq!(config.daily_vesting_amount, 10000000000);
}

#[test]
fn amm_add_and_remove_liquidity() {
    let (cfg, mut token1, mut token2) = fresh_pool();
    let lp_token = "contract2".to_string();
    let env = pool_env("contract1", 1000000);
    let mut lp_supply: u128 = 0;

    // first deposit: 100 of each, fee 13, attached funds 113
    let owner = info("owner", vec![usdc(113)]);
    let resp = execute_add_liquidity(
        &cfg, &mut token1, &mut token2, &lp_token, lp_supply, &owner, &env, 100, 100, 100, 13,
        &None,
    )
    .unwrap();
    assert_eq!(token1.reserve, 100);
    assert_eq!(token2.reserve, 100);
    // the pool pulls 100 of the second token from the depositor (5000 - 100 = 4900 left)
    assert!(
        matches!(resp.messages[0], SettleMsg::Cw20TransferFrom { ref contract_addr, amount: 100, .. } if contract_addr == "fury")
    );
    // 100 liquidity tokens are minted
    let mut minted: u128 = 0;
    for m in &resp.messages {
        if let SettleMsg::Cw20Mint { amount, .. } = m {
            minted = *amount;
        }
    }
    assert_eq!(minted, 100);
    lp_supply += minted;

    // second deposit: 50, allowance 51, fee 6, attached funds 56; the share
    // 50 * 100 / 100 is exact, so exactly 50 of the second token is required
    let owner = info("owner", vec![usdc(56)]);
    let resp = execute_add_liquidity(
        &cfg, &mut token1, &mut token2, &lp_token, lp_supply, &owner, &env, 50, 50, 51, 6, &None,
    )
    .unwrap();
    assert!(
        matches!(resp.messages[0], SettleMsg::Cw20TransferFrom { amount: 50, .. })
    );
    assert_eq!(token1.reserve, 150);
    assert_eq!(token2.reserve, 150);
    lp_supply += 50;

    // redeem 50 of 150: both legs pay 50
    let owner = info("owner", vec![usdc(50)]);
    let resp = execute_remove_liquidity(
        &mut token1, &mut token2, &lp_token, lp_supply, lp_supply, &owner, &env, 50, 50, 50,
        &None,
    )
    .unwrap();
    assert!(matches!(resp.messages[0], SettleMsg::BankSend { amount: 50, .. }));
    assert!(matches!(resp.messages[1], SettleMsg::Cw20Transfer { amount: 50, .. }));
    assert!(matches!(resp.messages[2], SettleMsg::Cw20BurnFrom { amount: 50, .. }));
    assert_eq!(token1.reserve, 100);
    assert_eq!(token2.reserve, 100);
    lp_supply -= 50;

    // redeem the rest: the pool drains completely and the round trip is exact
    let owner = info("owner", vec![usdc(50)]);
    let resp = execute_remove_liquidity(
        &mut token1, &mut token2, &lp_token, lp_supply, lp_supply, &owner, &env, 100, 100, 100,
        &None,
    )
    .unwrap();
    assert!(matches!(resp.messages[0], SettleMsg::BankSend { amount: 100, .. }));
    assert!(matches!(resp.messages[1], SettleMsg::Cw20Transfer { amount: 100, .. }));
    assert_eq!(token1.reserve, 0);
    assert_eq!(token2.reserve, 0);
}

#[test]
fn second_token_rounds_up_only_on_remainder() {
    // an exact share is demanded as is
    assert_eq!(get_token2_amount_required(100, 50, 100, 100, 100).unwrap(), 50);
    // a fractional share rounds up in the pool's favour
    assert_eq!(get_token2_amount_required(100, 50, 100, 101, 100).unwrap(), 51);
    // the first deposit takes the whole allowance
    assert_eq!(get_token2_amount_required(77, 50, 0, 0, 0).unwrap(), 77);
}

#[test]
fn swap_tokens_happy_path() {
    let (cfg, mut token1, mut token2) = fresh_pool();
    let lp_token = "contract2".to_string();
    let env = pool_env("contract1", 1000000);

    let owner = info("owner", vec![usdc(20520)]);
    execute_add_liquidity(
        &cfg, &mut token1, &mut token2, &lp_token, 0, &owner, &env, 20000, 20000, 20000, 520,
        &None,
    )
    .unwrap();
    assert_eq!(token1.reserve, 20000);
    assert_eq!(token2.reserve, 20000);

    // buy the second token with 1000 of the first: 949 comes out
    let buyer = info("buyer", vec![usdc(1013)]);
    let resp = execute_swap(
        &cfg,
        &mut token1,
        &mut token2,
        &buyer,
        &env,
        TokenSelect::Token1,
        &"buyer".to_string(),
        1000,
        949,
        13,
        &None,
    )
    .unwrap();
    assert_eq!(token1.reserve, 21000);
    assert_eq!(token2.reserve, 19051);
    assert!(
        matches!(resp.messages[0], SettleMsg::Cw20Transfer { ref recipient, amount: 949, .. } if recipient == "buyer")
    );
    assert!(
        matches!(resp.messages[1], SettleMsg::BankSend { ref to_address, amount: 13, .. } if to_address == "owner")
    );

    // a second, larger sale
    let buyer = info("buyer", vec![usdc(5065)]);
    execute_swap(
        &cfg,
        &mut token1,
        &mut token2,
        &buyer,
        &env,
        TokenSelect::Token1,
        &"buyer".to_string(),
        5000,
        3654,
        65,
        &None,
    )
    .unwrap();
    assert_eq!(token1.reserve, 26000);
    assert_eq!(token2.reserve, 15397);
}

#[test]
fn swap_price_formula() {
    // output = input*997*reserve_out / (reserve_in*1000 + input*997)
    assert_eq!(get_input_price(1000, 20000, 20000).unwrap(), 949);
    assert_eq!(get_input_price(10000, 100000, 100000).unwrap(), 9066);
    assert!(matches!(
        get_input_price(1000, 0, 20000),
        Err(ContractError::NoLiquidity {})
    ));
    assert!(matches!(
        get_input_price(1000, 20000, 0),
        Err(ContractError::NoLiquidity {})
    ));
}

#[test]
fn swap_rejects_below_minimum_and_bad_fee() {
    let (cfg, mut token1, mut token2) = fresh_pool();
    let lp_token = "contract2".to_string();
    let env = pool_env("contract1", 1000000);
    let owner = info("owner", vec![usdc(20520)]);
    execute_add_liquidity(
        &cfg, &mut token1, &mut token2, &lp_token, 0, &owner, &env, 20000, 20000, 20000, 520,
        &None,
    )
    .unwrap();

    // asking for more than the price allows
    let buyer = info("buyer", vec![usdc(1013)]);
    let err = execute_swap(
        &cfg,
        &mut token1,
        &mut token2,
        &buyer,
        &env,
        TokenSelect::Token1,
        &"buyer".to_string(),
        1000,
        950,
        13,
        &None,
    )
    .unwrap_err();
    assert!(matches!(err, ContractError::SwapMinError { min: 950, available: 949 }));
    assert_eq!(token1.reserve, 20000);
    assert_eq!(token2.reserve, 20000);

    // an insufficient fee for a first-token sale (needs 1000 * 13 / 1000 = 13)
    let buyer = info("buyer", vec![usdc(1012)]);
    let err = execute_swap(
        &cfg,
        &mut token1,
        &mut token2,
        &buyer,
        &env,
        TokenSelect::Token1,
        &"buyer".to_string(),
        1000,
        949,
        12,
        &None,
    )
    .unwrap_err();
    assert!(matches!(err, ContractError::InsufficientFee {}));

    // an expired request is rejected outright
    let buyer = info("buyer", vec![usdc(1013)]);
    let err = execute_swap(
        &cfg,
        &mut token1,
        &mut token2,
        &buyer,
        &env,
        TokenSelect::Token1,
        &"buyer".to_string(),
        1000,
        949,
        13,
        &Some(Expiration::AtTime(999999)),
    )
    .unwrap_err();
    assert!(matches!(err, ContractError::MsgExpirationError {}));
}

#[test]
fn add_liquidity_rejections() {
    let (cfg, mut token1, mut token2) = fresh_pool();
    let lp_token = "contract2".to_string();
    let env = pool_env("contract1", 1000000);

    // the attached native funds must cover the deposit plus the fee
    let owner = info("owner", vec![usdc(100)]);
    let err = execute_add_liquidity(
        &cfg, &mut token1, &mut token2, &lp_token, 0, &owner, &env, 100, 100, 100, 13, &None,
    )
    .unwrap_err();
    assert!(matches!(err, ContractError::InsufficientFunds {}));

    // insufficient fee: 100 * 13 * 2 / 1000 = 2, so a fee of 1 is refused
    let owner = info("owner", vec![usdc(101)]);
    let err = execute_add_liquidity(
        &cfg, &mut token1, &mut token2, &lp_token, 0, &owner, &env, 100, 100, 100, 1, &None,
    )
    .unwrap_err();
    assert!(matches!(err, ContractError::InsufficientFee {}));

    // set up a 100/101 pool (attaching more than required is accepted), then
    // exercise the two minimum checks
    let owner = info("owner", vec![usdc(114)]);
    execute_add_liquidity(
        &cfg, &mut token1, &mut token2, &lp_token, 0, &owner, &env, 100, 100, 101, 13, &None,
    )
    .unwrap();
    assert_eq!(token1.reserve, 100);
    assert_eq!(token2.reserve, 101);

    let owner = info("owner", vec![usdc(56)]);
    let err = execute_add_liquidity(
        &cfg, &mut token1, &mut token2, &lp_token, 100, &owner, &env, 51, 50, 51, 6, &None,
    )
    .unwrap_err();
    assert!(matches!(
        err,
        ContractError::MinLiquidityError { min_liquidity: 51, liquidity_available: 50 }
    ));

    // the rounded-up share 51 (from 50 * 101 / 100) exceeds the allowance 50
    let owner = info("owner", vec![usdc(56)]);
    let err = execute_add_liquidity(
        &cfg, &mut token1, &mut token2, &lp_token, 100, &owner, &env, 50, 50, 50, 6, &None,
    )
    .unwrap_err();
    assert!(matches!(
        err,
        ContractError::MaxTokenError { max_token: 50, tokens_required: 51 }
    ));
    assert_eq!(token1.reserve, 100);
    assert_eq!(token2.reserve, 101);
}

#[test]
fn remove_liquidity_rejections() {
    let (cfg, mut token1, mut token2) = fresh_pool();
    let lp_token = "contract2".to_string();
    let env = pool_env("contract1", 1000000);
    let owner = info("owner", vec![usdc(113)]);
    execute_add_liquidity(
        &cfg, &mut token1, &mut token2, &lp_token, 0, &owner, &env, 100, 100, 100, 13, &None,
    )
    .unwrap();

    // redeeming more than the sender holds
    let owner = info("owner", vec![]);
    let err = execute_remove_liquidity(
        &mut token1, &mut token2, &lp_token, 100, 40, &owner, &env, 50, 0, 0, &None,
    )
    .unwrap_err();
    assert!(matches!(
        err,
        ContractError::InsufficientLiquidityError { requested: 50, available: 40 }
    ));

    // a minimum on the first leg that the redemption cannot meet
    let err = execute_remove_liquidity(
        &mut token1, &mut token2, &lp_token, 100, 100, &owner, &env, 50, 51, 0, &None,
    )
    .unwrap_err();
    assert!(matches!(err, ContractError::MinToken1Error { requested: 51, available: 50 }));

    let err = execute_remove_liquidity(
        &mut token1, &mut token2, &lp_token, 100, 100, &owner, &env, 50, 50, 51, &None,
    )
    .unwrap_err();
    assert!(matches!(err, ContractError::MinToken2Error { requested: 51, available: 50 }));
    assert_eq!(token1.reserve, 100);
    assert_eq!(token2.reserve, 100);
}

#[test]
fn add_token_is_operator_only() {
    let (cfg, mut token1, mut token2) = fresh_pool();
    let env = pool_env("contract1", 1000000);

    let outsider = info("mallory", vec![usdc(5)]);
    let err =
        execute_add_token(&cfg, &mut token1, &mut token2, &outsider, &env, TokenSelect::Token1, 5)
            .unwrap_err();
    assert!(matches!(err, ContractError::Unauthorized {}));

    let owner = info("owner", vec![usdc(5)]);
    execute_add_token(&cfg, &mut token1, &mut token2, &owner, &env, TokenSelect::Token1, 5)
        .unwrap();
    assert_eq!(token1.reserve, 5);
    assert_eq!(token2.reserve, 0);

    let owner = info("owner", vec![]);
    let resp =
        execute_add_token(&cfg, &mut token1, &mut token2, &owner, &env, TokenSelect::Token2, 9)
            .unwrap();
    assert_eq!(token2.reserve, 9);
    // the second token is external: it arrives by allowance
    assert!(matches!(resp.messages[0], SettleMsg::Cw20TransferFrom { amount: 9, .. }));
}

#[test]
fn pool_update_config_and_migrate() {
    let (mut cfg, _token1, _token2) = fresh_pool();

    let outsider = info("mallory", vec![]);
    let err = execute_update_config(
        &outsider,
        &mut cfg,
        "mallory".to_string(),
        "x".to_string(),
        "y".to_string(),
    )
    .unwrap_err();
    assert!(matches!(err, ContractError::Unauthorized {}));
    assert_eq!(cfg.owner, "owner");

    let owner = info("owner", vec![]);
    execute_update_config(
        &owner,
        &mut cfg,
        "owner2".to_string(),
        "bonding2".to_string(),
        "treasury2".to_string(),
    )
    .unwrap();
    assert_eq!(cfg.owner, "owner2");
    assert_eq!(cfg.bonding_contract_address, "bonding2");
    assert_eq!(cfg.treasury_address, "treasury2");

    assert!(migrate(&"fanfuryswap".to_string()).is_ok());
    let err = migrate(&"something_else".to_string()).unwrap_err();
    assert!(
        matches!(err, ContractError::CannotMigrate { ref previous_contract } if previous_contract == "something_else")
    );
}

#[test]
fn reply_rejects_unknown_ids_and_bad_payloads() {
    let (mut cfg, _t1, _t2) = fresh_pool();
    let env = pool_env("contract1", 1000000);

    let err = reply(&mut cfg, &env, 7, Some("contract9".to_string())).unwrap_err();
    assert!(matches!(err, ContractError::UnknownReplyId { id: 7 }));

    let err = reply(&mut cfg, &env, INSTANTIATE_LP_TOKEN_REPLY_ID, None).unwrap_err();
    assert!(matches!(err, ContractError::InstantiateLpTokenError {}));
}

#[test]
fn pool_queries_report_state() {
    let (cfg, mut token1, mut token2) = fresh_pool();
    let lp_token = "contract2".to_string();
    let env = pool_env("contract1", 1000000);
    let owner = info("owner", vec![usdc(20520)]);
    execute_add_liquidity(
        &cfg, &mut token1, &mut token2, &lp_token, 0, &owner, &env, 20000, 20000, 20000, 520,
        &None,
    )
    .unwrap();

    let pool_info = query_info(&token1, &token2, &lp_token, 20000);
    assert_eq!(pool_info.token1_reserve, 20000);
    assert_eq!(pool_info.token2_reserve, 20000);
    assert_eq!(pool_info.lp_token_supply, 20000);
    assert_eq!(pool_info.lp_token_address, "contract2");

    let quote = query_token1_for_token2_price(&token1, &token2, 1000).unwrap();
    assert_eq!(quote.token2_amount, 949);
}
