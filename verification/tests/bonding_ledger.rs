use fanfury::bonding::{
    check_daily_vesting_amount, execute_bond, execute_lp_bond, execute_unbond,
    execute_update_config, execute_update_enabled, execute_update_owner, execute_withdraw,
    get_bond_state, instantiate, migrate, query_all_bond_state, query_bond_state, query_config,
    BondingRecord, Config, InstantiateMsg,
};
use fanfury::error::ContractError;
use fanfury::ledger::BondingLedger;
use fanfury::swap;
use fanfury::util::{BlockInfo, Coin, Env, MessageInfo, SettleMsg};

fn ledger_env(time_seconds: u64) -> Env {
    Env {
        block: BlockInfo { height: 12345, time_seconds },
        contract_address: "contract3".to_string(),
    }
}

fn info(sender: &str, funds: Vec<Coin>) -> MessageInfo {
    MessageInfo { sender: sender.to_string(), funds }
}

fn usdc(amount: u128) -> Coin {
    Coin { denom: "usdc".to_string(), amount }
}

fn bonding_msg(is_native_bonding: bool, discount: u64, lock_seconds: u64) -> InstantiateMsg {
    InstantiateMsg {
        owner: "owner".to_string(),
        pool_address: "contract1".to_string(),
        treasury_address: "owner".to_string(),
        fury_token_address: "fury".to_string(),
        usdc_denom: "usdc".to_string(),
        lock_seconds,
        discount,
        tx_fee: 3,
        platform_fee: 10,
        daily_vesting_amount: 10000000000,
        is_native_bonding,
    }
}

#[test]
fn test_instantiate() {
    let env = ledger_env(2000000);
    let cfg = instantiate(&env, bonding_msg(true, 7, 5));
    let config = query_config(&cfg);
    assert_eq!(config.pool_address, "contract1".to_string());
    assert!(config.enabled);
    assert_eq!(config.cumulated_amount, 0);
    assert_eq!(config.daily_current_bond_amount, 0);
    assert_eq!(config.last_timestamp, 2000000);
}

#[test]
fn lp_bonding() {
    // the pool side: an outside depositor adds the initial liquidity
    let pool_env = Env {
        block: BlockInfo { height: 12345, time_seconds: 2000000 },
        contract_address: "contract1".to_string(),
    };
    let (mut pool_cfg, mut token1, mut token2, _lp_msg) = swap::instantiate(
        &pool_env,
        swap::InstantiateMsg {
            lp_token_code_id: 1,
            bonding_code_id: 2,
            owner: "owner".to_string(),
            treasury_address: "owner".to_string(),
            fury_token_address: "fury".to_string(),
            usdc_denom: "usdc".to_string(),
            lock_seconds: 7,
            discount: 5,
            tx_fee: 3,
            platform_fee: 10,
            daily_vesting_amount: 10000000000,
        },
    );
    // wire up the two deferred instantiations
    let first = swap::reply(
        &mut pool_cfg,
        &pool_env,
        swap::INSTANTIATE_LP_TOKEN_REPLY_ID,
        Some("contract2".to_string()),
    )
    .unwrap();
    let bonding_init = match first.messages.into_iter().next().unwrap() {
        SettleMsg::InstantiateBonding { msg, .. } => msg,
        _ => panic!("expected the bonding instantiation"),
    };
    swap::reply(
        &mut pool_cfg,
        &pool_env,
        swap::INSTANTIATE_BONDING_ID,
        Some("contract3".to_string()),
    )
    .unwrap();

    // deposit 100000 + 100000 with fee 2600 (attached funds 102600)
    let bonder = info("bonder", vec![usdc(102600)]);
    let resp = swap::execute_add_liquidity(
        &pool_cfg,
        &mut token1,
        &mut token2,
        &"contract2".to_string(),
        0,
        &bonder,
        &pool_env,
        100000,
        100000,
        100000,
        2600,
        &None,
    )
    .unwrap();
    // the pool pulls 100000 of the payout token (500000 - 100000 = 400000 left)
    assert!(matches!(resp.messages[0], SettleMsg::Cw20TransferFrom { amount: 100000, .. }));
    // a depositor who is neither operator nor treasury triggers a doubled bond
    let mut lp_bond_amount: u128 = 0;
    for m in &resp.messages {
        if let SettleMsg::LpBond { contract_addr, address, amount } = m {
            assert_eq!(contract_addr, "contract3");
            assert_eq!(address, "bonder");
            lp_bond_amount = *amount;
        }
    }
    assert_eq!(lp_bond_amount, 200000);

    // the ledger side: the pool's follow-up request lands as a grant
    let env = ledger_env(2000000);
    let mut cfg = instantiate(&env, bonding_init);
    assert!(!cfg.is_native_bonding);
    let mut ledger = BondingLedger::new();
    let pool = info("contract1", vec![]);
    execute_lp_bond(&mut cfg, &mut ledger, &env, &pool, "bonder".to_string(), lp_bond_amount)
        .unwrap();

    // 200000 * 1000 / 995 = 201005, rounded down
    let state = query_bond_state(&cfg, &ledger, 1000000, 2000000, "bonder".to_string()).unwrap();
    assert_eq!(state.list[0].amount, 201005);
    assert_eq!(state.list[0].timestamp, 2000007);
}

#[test]
fn native_bonding() {
    // a 100000/100000 pool quotes the deposit
    let quoted = swap::get_input_price(10000, 100000, 100000).unwrap();
    assert_eq!(quoted, 9066);

    let env = ledger_env(2000000);
    let mut cfg = instantiate(&env, bonding_msg(true, 7, 5));
    let mut ledger = BondingLedger::new();

    // bond 10000, attaching 10130 = 10000 + fee 130 of the settlement currency
    let bonder = info("bonder", vec![usdc(10130)]);
    let resp = execute_bond(&mut cfg, &mut ledger, &env, &bonder, 10000, quoted).unwrap();
    // all attached settlement funds go to the treasury
    assert!(
        matches!(resp.messages[0], SettleMsg::BankSend { ref to_address, amount: 10130, .. } if to_address == "owner")
    );

    // 9066 * 1000 / 993 = 9129, rounded down
    let state = query_bond_state(&cfg, &ledger, 1000000, 2000000, "bonder".to_string()).unwrap();
    assert_eq!(state.list[0].amount, 9129);
    assert_eq!(state.list[0].timestamp, 2000005);
    assert_eq!(cfg.daily_current_bond_amount, 9129);
}

#[test]
fn bonding() {
    // the swap-side view of the lp bonding flow: same numbers end to end
    let env = ledger_env(2000000);
    let mut msg = bonding_msg(false, 5, 7);
    msg.daily_vesting_amount = 10000000000;
    let mut cfg = instantiate(&env, msg);
    let mut ledger = BondingLedger::new();
    let pool = info("contract1", vec![]);
    execute_lp_bond(&mut cfg, &mut ledger, &env, &pool, "bonder".to_string(), 200000).unwrap();
    let state = query_bond_state(&cfg, &ledger, 1000000, 2000000, "bonder".to_string()).unwrap();
    assert_eq!(state.list[0].amount, 201005);
}

#[test]
fn daily_cap_admission() {
    // daily_vesting_amount = D, cumulated 0, already issued D - 1 today
    let d: u128 = 5000;
    let env = ledger_env(2000000);
    let mut msg = bonding_msg(true, 7, 5);
    msg.daily_vesting_amount = d;
    let mut cfg = instantiate(&env, msg);
    cfg.daily_current_bond_amount = d - 1;

    // requesting 2 in the same day bucket exceeds the cap
    let err = check_daily_vesting_amount(&mut cfg, 2000001, 2).unwrap_err();
    assert!(matches!(err, ContractError::MaxBondingExceed {}));
    assert_eq!(cfg.daily_current_bond_amount, d - 1);
    assert_eq!(cfg.last_timestamp, 2000000);

    // requesting 1 fills the day exactly
    check_daily_vesting_amount(&mut cfg, 2000001, 1).unwrap();
    assert_eq!(cfg.daily_current_bond_amount, d);
    assert_eq!(cfg.cumulated_amount, 0);
    assert_eq!(cfg.last_timestamp, 2000001);

    // the next day rolls the (zero) unused capacity forward and admits again
    let next_day = 2000000 + 86400;
    check_daily_vesting_amount(&mut cfg, next_day, 3).unwrap();
    assert_eq!(cfg.daily_current_bond_amount, 3);
    assert_eq!(cfg.cumulated_amount, 0);

    // a skipped day carries its whole unused capacity forward as credit
    let later_day = next_day + 2 * 86400;
    check_daily_vesting_amount(&mut cfg, later_day, d + 1).unwrap();
    assert_eq!(cfg.cumulated_amount, d - 3);
    assert_eq!(cfg.daily_current_bond_amount, d + 1);
}

#[test]
fn unbond_settles_matured_grants_only() {
    let env = ledger_env(2000000);
    let cfg = instantiate(&env, bonding_msg(true, 7, 5));
    let mut ledger = BondingLedger::new();
    ledger.save(
        "bonder".to_string(),
        vec![
            BondingRecord { amount: 500, timestamp: 1999999 },
            BondingRecord { amount: 800, timestamp: 2500000 },
            BondingRecord { amount: 200, timestamp: 2000000 },
        ],
    );

    // two grants matured (500 + 200); fee at rate 13 of the priced total:
    // 2000000 * 700 * 13 / 1000 / 1000000 = 18
    let state = query_bond_state(&cfg, &ledger, 2000000, 2000000, "bonder".to_string()).unwrap();
    assert_eq!(state.unbond_amount, 700);
    assert_eq!(state.fee_amount, 18);

    let bonder = info("bonder", vec![usdc(18)]);
    let resp = execute_unbond(&cfg, &mut ledger, &env, &bonder, 2000000, 1000).unwrap();
    assert!(
        matches!(resp.messages[0], SettleMsg::Cw20Transfer { ref recipient, amount: 700, .. } if recipient == "bonder")
    );
    assert!(
        matches!(resp.messages[1], SettleMsg::BankSend { ref to_address, amount: 18, .. } if to_address == "owner")
    );

    // exactly the unmatured grant remains
    let remaining = ledger.load(&"bonder".to_string()).unwrap();
    assert_eq!(remaining.len(), 1);
    assert_eq!(remaining[0], BondingRecord { amount: 800, timestamp: 2500000 });

    // unbonding again with nothing matured is refused
    let bonder = info("bonder", vec![usdc(1)]);
    let err = execute_unbond(&cfg, &mut ledger, &env, &bonder, 2000000, 1000).unwrap_err();
    assert!(matches!(err, ContractError::NothingToUnbond {}));
}

#[test]
fn unbond_rejections() {
    let env = ledger_env(2000000);
    let cfg = instantiate(&env, bonding_msg(true, 7, 5));
    let mut ledger = BondingLedger::new();

    // no row for the caller at all
    let bonder = info("bonder", vec![usdc(10)]);
    let err = execute_unbond(&cfg, &mut ledger, &env, &bonder, 2000000, 1000).unwrap_err();
    assert!(matches!(err, ContractError::NotFound {}));

    ledger.save(
        "bonder".to_string(),
        vec![BondingRecord { amount: 700, timestamp: 1999999 }],
    );

    // the attached settlement funds do not cover the fee (needs 18)
    let bonder = info("bonder", vec![usdc(17)]);
    let err = execute_unbond(&cfg, &mut ledger, &env, &bonder, 2000000, 1000).unwrap_err();
    assert!(matches!(err, ContractError::InsufficientFee {}));

    // the ledger's own payout balance is short
    let bonder = info("bonder", vec![usdc(18)]);
    let err = execute_unbond(&cfg, &mut ledger, &env, &bonder, 2000000, 699).unwrap_err();
    assert!(matches!(err, ContractError::InsufficientFury {}));

    // nothing was removed by the failed attempts
    assert_eq!(ledger.load(&"bonder".to_string()).unwrap().len(), 1);
}

#[test]
fn bond_rejections() {
    let env = ledger_env(2000000);
    let mut cfg = instantiate(&env, bonding_msg(false, 7, 5));
    let mut ledger = BondingLedger::new();

    // direct deposits are refused in pool-triggered mode
    let bonder = info("bonder", vec![usdc(10130)]);
    let err = execute_bond(&mut cfg, &mut ledger, &env, &bonder, 10000, 9066).unwrap_err();
    assert!(matches!(err, ContractError::NotAllowedBondingType {}));

    let mut cfg = instantiate(&env, bonding_msg(true, 7, 5));

    // no settlement funds attached
    let bonder = info("bonder", vec![]);
    let err = execute_bond(&mut cfg, &mut ledger, &env, &bonder, 10000, 9066).unwrap_err();
    assert!(matches!(err, ContractError::NativeInputZero {}));

    // attached funds below amount + fee
    let bonder = info("bonder", vec![usdc(10129)]);
    let err = execute_bond(&mut cfg, &mut ledger, &env, &bonder, 10000, 9066).unwrap_err();
    assert!(matches!(err, ContractError::InsufficientFee {}));

    // a disabled ledger refuses everything
    cfg.enabled = false;
    let bonder = info("bonder", vec![usdc(10130)]);
    let err = execute_bond(&mut cfg, &mut ledger, &env, &bonder, 10000, 9066).unwrap_err();
    assert!(matches!(err, ContractError::Disabled {}));
    assert_eq!(ledger.entries.len(), 0);
}

#[test]
fn lp_bond_rejections() {
    let env = ledger_env(2000000);
    let mut cfg = instantiate(&env, bonding_msg(false, 5, 7));
    let mut ledger = BondingLedger::new();

    // only the paired pool may call
    let outsider = info("mallory", vec![]);
    let err =
        execute_lp_bond(&mut cfg, &mut ledger, &env, &outsider, "bonder".to_string(), 200000)
            .unwrap_err();
    assert!(matches!(err, ContractError::Unauthorized {}));

    // a zero amount is refused
    let pool = info("contract1", vec![]);
    let err = execute_lp_bond(&mut cfg, &mut ledger, &env, &pool, "bonder".to_string(), 0)
        .unwrap_err();
    assert!(matches!(err, ContractError::Cw20InputZero {}));

    // pool-triggered bonds are refused in direct-deposit mode
    let mut cfg = instantiate(&env, bonding_msg(true, 5, 7));
    let err = execute_lp_bond(&mut cfg, &mut ledger, &env, &pool, "bonder".to_string(), 200000)
        .unwrap_err();
    assert!(matches!(err, ContractError::NotAllowedBondingType {}));
}

#[test]
fn bond_exceeding_daily_cap_is_refused() {
    let env = ledger_env(2000000);
    let mut msg = bonding_msg(false, 5, 7);
    msg.daily_vesting_amount = 201004;
    let mut cfg = instantiate(&env, msg);
    let mut ledger = BondingLedger::new();
    let pool = info("contract1", vec![]);
    let err = execute_lp_bond(&mut cfg, &mut ledger, &env, &pool, "bonder".to_string(), 200000)
        .unwrap_err();
    assert!(matches!(err, ContractError::MaxBondingExceed {}));
    assert_eq!(cfg.daily_current_bond_amount, 0);
    assert_eq!(ledger.entries.len(), 0);
}

#[test]
fn operator_updates_and_withdraw() {
    let env = ledger_env(2000000);
    let mut cfg = instantiate(&env, bonding_msg(true, 7, 5));

    // the owner check refuses outsiders (reported as a disabled request)
    let outsider = info("mallory", vec![]);
    let err = execute_update_enabled(&mut cfg, &outsider, false).unwrap_err();
    assert!(matches!(err, ContractError::Disabled {}));

    let owner = info("owner", vec![]);
    execute_update_enabled(&mut cfg, &owner, false).unwrap();
    assert!(!cfg.enabled);
    execute_update_enabled(&mut cfg, &owner, true).unwrap();

    execute_update_config(&mut cfg, &owner, "treasury2".to_string(), 99, 8, 4, 11, 777).unwrap();
    assert_eq!(cfg.treasury_address, "treasury2");
    assert_eq!(cfg.lock_seconds, 99);
    assert_eq!(cfg.discount, 8);
    assert_eq!(cfg.tx_fee, 4);
    assert_eq!(cfg.platform_fee, 11);
    assert_eq!(cfg.daily_vesting_amount, 777);

    let resp = execute_withdraw(&cfg, &owner, 500, 600).unwrap();
    assert!(matches!(resp.messages[0], SettleMsg::Cw20Transfer { amount: 500, .. }));
    let err = execute_withdraw(&cfg, &owner, 700, 600).unwrap_err();
    assert!(matches!(err, ContractError::InsufficientFury {}));

    // handing the ledger over installs the new operator; the old one is
    // refused afterwards
    execute_update_owner(&mut cfg, &owner, "owner2".to_string()).unwrap();
    assert_eq!(cfg.owner, "owner2");
    let err = execute_update_enabled(&mut cfg, &owner, false).unwrap_err();
    assert!(matches!(err, ContractError::Disabled {}));
    let successor = info("owner2", vec![]);
    execute_update_enabled(&mut cfg, &successor, false).unwrap();
    assert!(!cfg.enabled);
}

#[test]
fn bond_state_fee_formula() {
    let env = ledger_env(2000000);
    let cfg = instantiate(&env, bonding_msg(true, 7, 5));
    // fee = price * unbond * (platform_fee + tx_fee) / 1000 / 1000000
    let list = vec![BondingRecord { amount: 1000, timestamp: 1000 }];
    let state = get_bond_state(&cfg, list, 2000000, 2000000, "bonder".to_string()).unwrap();
    assert_eq!(state.unbond_amount, 1000);
    assert_eq!(state.fee_amount, 26);

    // nothing matured: both amounts are zero
    let list = vec![BondingRecord { amount: 1000, timestamp: 3000000 }];
    let state = get_bond_state(&cfg, list, 2000000, 2000000, "bonder".to_string()).unwrap();
    assert_eq!(state.unbond_amount, 0);
    assert_eq!(state.fee_amount, 0);
}

#[test]
fn all_bond_state_pages_in_address_order() {
    let env = ledger_env(2000000);
    let cfg = instantiate(&env, bonding_msg(true, 7, 5));
    let mut ledger = BondingLedger::new();
    // inserted out of order; the store keeps them ascending
    for name in ["carol", "alice", "eve", "dave", "bob"] {
        ledger.save(
            name.to_string(),
            vec![BondingRecord { amount: 10, timestamp: 1 }],
        );
    }

    let page = query_all_bond_state(&cfg, &ledger, 1000000, 2000000, &None, None).unwrap();
    let names: Vec<&str> = page.list.iter().map(|s| s.address.as_str()).collect();
    assert_eq!(names, vec!["alice", "bob", "carol", "dave", "eve"]);

    // a limit cuts the page short
    let page = query_all_bond_state(&cfg, &ledger, 1000000, 2000000, &None, Some(2)).unwrap();
    let names: Vec<&str> = page.list.iter().map(|s| s.address.as_str()).collect();
    assert_eq!(names, vec!["alice", "bob"]);

    // the continuation token is exclusive
    let page = query_all_bond_state(
        &cfg,
        &ledger,
        1000000,
        2000000,
        &Some("bob".to_string()),
        Some(2),
    )
    .unwrap();
    let names: Vec<&str> = page.list.iter().map(|s| s.address.as_str()).collect();
    assert_eq!(names, vec!["carol", "dave"]);

    // saving under an existing address replaces its list, not the order
    ledger.save(
        "carol".to_string(),
        vec![BondingRecord { amount: 77, timestamp: 9 }],
    );
    let page = query_all_bond_state(&cfg, &ledger, 1000000, 2000000, &None, None).unwrap();
    assert_eq!(page.list.len(), 5);
    assert_eq!(page.list[2].address, "carol");
    assert_eq!(page.list[2].list[0].amount, 77);
}

#[test]
fn ledger_migrate_checks_component_name() {
    assert!(migrate(&"fanfurybonding".to_string()).is_ok());
    let err = migrate(&"fanfuryswap".to_string()).unwrap_err();
    assert!(
        matches!(err, ContractError::CannotMigrate { ref previous_contract } if previous_contract == "fanfuryswap")
    );
}

#[test]
fn reserve_product_grows_under_swaps() {
    // the law on concrete numbers: 21000 * 19051 >= 20000 * 20000
    let bought = swap::get_input_price(1000, 20000, 20000).unwrap();
    let before: u128 = 20000u128 * 20000u128;
    let after: u128 = (20000u128 + 1000u128) * (20000u128 - bought);
    assert!(after >= before);
    assert_eq!(after, 400071000);
}
