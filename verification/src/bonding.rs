//! The bonding/vesting ledger: converts swap or direct deposits into
//! time-locked token grants, subject to a rolling daily issuance cap with
//! carry-over credit.

use vstd::prelude::*;

use crate::error::ContractError;
use crate::ledger::addr_lt;
use crate::ledger::BondingLedger;
use crate::util::Balance;
use crate::util::Denom;
use crate::util::Env;
use crate::util::MessageInfo;
use crate::util::Response;
use crate::util::SettleMsg;
use crate::SECONDS_PER_DAY;
use crate::THOUSAND;
use crate::NORMAL_DECIMAL;

verus! {

/// The ledger's singleton configuration and daily-cap counters.
pub struct Config {
    pub owner: String,
    pub pool_address: String,
    pub treasury_address: String,
    pub fury_token_address: String,
    pub lock_seconds: u64,
    pub discount: u64,
    pub usdc_denom: String,
    pub is_native_bonding: bool,
    pub tx_fee: u64,
    pub platform_fee: u64,
    pub enabled: bool,
    pub daily_vesting_amount: u128,
    pub cumulated_amount: u128,
    pub daily_current_bond_amount: u128,
    pub last_timestamp: u64,
}

/// The values the ledger is created with.
#[derive(Debug)]
pub struct InstantiateMsg {
    pub owner: String,
    pub pool_address: String,
    pub treasury_address: String,
    pub fury_token_address: String,
    pub usdc_denom: String,
    pub lock_seconds: u64,
    pub discount: u64,
    pub tx_fee: u64,
    pub platform_fee: u64,
    pub daily_vesting_amount: u128,
    pub is_native_bonding: bool,
}

/// A state-changing request to the ledger.
pub enum ExecuteMsg {
    UpdateOwner { owner: String },
    UpdateEnabled { enabled: bool },
    UpdateConfig {
        treasury_address: String,
        lock_seconds: u64,
        discount: u64,
        tx_fee: u64,
        platform_fee: u64,
        daily_vesting_amount: u128,
    },
    Bond { amount: u128 },
    LpBond { address: String, amount: u128 },
    Unbond {},
    Withdraw { amount: u128 },
}

/// A read-only request to the ledger.
pub enum QueryMsg {
    Config {},
    BondState { address: String },
    AllBondState { start_after: Option<String>, limit: Option<u32> },
}

/// The configuration as reported to a `Config` query.
pub struct ConfigResponse {
    pub owner: String,
    pub pool_address: String,
    pub treasury_address: String,
    pub fury_token_address: String,
    pub lock_seconds: u64,
    pub discount: u64,
    pub usdc_denom: String,
    pub is_native_bonding: bool,
    pub tx_fee: u64,
    pub platform_fee: u64,
    pub enabled: bool,
    pub daily_vesting_amount: u128,
    pub cumulated_amount: u128,
    pub daily_current_bond_amount: u128,
    pub last_timestamp: u64,
}

/// The (empty) migration request.
pub struct MigrateMsg {}

/// One vesting grant: an amount unlocked at `timestamp` seconds.
#[derive(Clone, Copy, PartialEq, Eq, Structural, Debug)]
pub struct BondingRecord {
    pub amount: u128,
    pub timestamp: u64,
}

/// One beneficiary's grants with the settlement amounts due as of the query
/// time.
pub struct BondStateResponse {
    pub address: String,
    pub list: Vec<BondingRecord>,
    pub unbond_amount: u128,
    pub fee_amount: u128,
}

/// A page of bond states, ascending by address.
pub struct AllBondStateResponse {
    pub list: Vec<BondStateResponse>,
}

/// The daily-cap counters after observing the clock `timestamp`: on the
/// first request of a new day bucket, unused capacity rolls into the
/// carry-over credit and the day's counter resets.
pub open spec fn rolled_over(cfg: Config, timestamp: u64) -> Config {
    if timestamp / SECONDS_PER_DAY != cfg.last_timestamp / SECONDS_PER_DAY {
        Config {
            cumulated_amount: if cfg.daily_current_bond_amount <= cfg.daily_vesting_amount {
                (cfg.cumulated_amount + (cfg.daily_vesting_amount
                    - cfg.daily_current_bond_amount)) as u128
            } else {
                cfg.cumulated_amount
            },
            daily_current_bond_amount: 0,
            ..cfg
        }
    } else {
        cfg
    }
}

/// What the daily-cap admission check decides: the updated configuration on
/// admission, the error that aborts the request otherwise.
pub open spec fn cap_outcome(cfg: Config, timestamp: u64, receiving_amount: u128) -> Result<
    Config,
    ContractError,
> {
    let new_day = timestamp / SECONDS_PER_DAY != cfg.last_timestamp / SECONDS_PER_DAY;
    let credit_grows = new_day && cfg.daily_current_bond_amount <= cfg.daily_vesting_amount;
    if credit_grows && cfg.cumulated_amount + (cfg.daily_vesting_amount
        - cfg.daily_current_bond_amount) > u128::MAX {
        Err(ContractError::Overflow {})
    } else {
        let c = rolled_over(cfg, timestamp);
        if c.daily_current_bond_amount + receiving_amount > u128::MAX {
            Err(ContractError::Overflow {})
        } else if c.daily_vesting_amount + c.cumulated_amount > u128::MAX {
            Err(ContractError::Overflow {})
        } else if c.daily_current_bond_amount + receiving_amount > c.daily_vesting_amount
            + c.cumulated_amount {
            Err(ContractError::MaxBondingExceed {})
        } else {
            Ok(
                Config {
                    last_timestamp: timestamp,
                    daily_current_bond_amount: (c.daily_current_bond_amount
                        + receiving_amount) as u128,
                    ..c
                },
            )
        }
    }
}

/// The daily-cap admission check: rolls unused capacity of finished day
/// buckets into the carry-over credit, then admits the request if and only
/// if the day's issued amount plus `receiving_amount` stays within the daily
/// amount plus the credit, committing the new counters on admission.
///
/// On rejection (cap exceeded, or an amount overflowing the counters) the
/// configuration is unchanged.
pub fn check_daily_vesting_amount(cfg: &mut Config, timestamp: u64, receiving_amount: u128) -> (r:
    Result<(), ContractError>)
    ensures
        match cap_outcome(*old(cfg), timestamp, receiving_amount) {
            Ok(c) => r == Ok::<(), ContractError>(()) && *final(cfg) == c,
            Err(e) => r == Err::<(), ContractError>(e) && *final(cfg) == *old(cfg),
        },
{
    let mut cumulated: u128 = cfg.cumulated_amount;
    let mut daily_current: u128 = cfg.daily_current_bond_amount;
    if timestamp / SECONDS_PER_DAY != cfg.last_timestamp / SECONDS_PER_DAY {
        if daily_current <= cfg.daily_vesting_amount {
            let unused = cfg.daily_vesting_amount - daily_current;
            cumulated = match cumulated.checked_add(unused) {
                Some(v) => v,
                None => {
                    return Err(ContractError::Overflow {});
                },
            };
        }
        daily_current = 0;
    }
    let lhs = match daily_current.checked_add(receiving_amount) {
        Some(v) => v,
        None => {
            return Err(ContractError::Overflow {});
        },
    };
    let rhs = match cfg.daily_vesting_amount.checked_add(cumulated) {
        Some(v) => v,
        None => {
            return Err(ContractError::Overflow {});
        },
    };
    if lhs > rhs {
        return Err(ContractError::MaxBondingExceed {});
    }
    cfg.cumulated_amount = cumulated;
    cfg.daily_current_bond_amount = lhs;
    cfg.last_timestamp = timestamp;
    Ok(())
}

/// Rejects a request to a ledger that the operator has disabled.
pub fn check_enabled(cfg: &Config) -> (r: Result<(), ContractError>)
    ensures
        cfg.enabled ==> r == Ok::<(), ContractError>(()),
        !cfg.enabled ==> r == Err::<(), ContractError>(ContractError::Disabled {}),
{
    if !cfg.enabled {
        return Err(ContractError::Disabled {});
    }
    Ok(())
}

/// Rejects a request whose sender is not the configured operator.
pub fn check_owner(cfg: &Config, address: &String) -> (r: Result<(), ContractError>)
    ensures
        cfg.owner@ == address@ ==> r == Ok::<(), ContractError>(()),
        cfg.owner@ != address@ ==> r == Err::<(), ContractError>(ContractError::Disabled {}),
{
    if !cfg.owner.eq(address) {
        return Err(ContractError::Disabled {});
    }
    Ok(())
}

/// Operator-only handover: installs `owner` as the new operator.
pub fn execute_update_owner(cfg: &mut Config, info: &MessageInfo, owner: String) -> (r: Result<
    Response,
    ContractError,
>)
    ensures
        old(cfg).owner@ == info.sender@ ==> (r matches Ok(resp) && resp.messages@
            == Seq::<SettleMsg>::empty()) && *final(cfg) == (Config { owner, ..*old(cfg) }),
        old(cfg).owner@ != info.sender@ ==> r == Err::<Response, ContractError>(
            ContractError::Disabled {},
        ) && *final(cfg) == *old(cfg),
{
    check_owner(cfg, &info.sender)?;
    cfg.owner = owner;
    let messages: Vec<SettleMsg> = Vec::new();
    proof {
        assert(messages@ =~= Seq::<SettleMsg>::empty());
    }
    Ok(Response { messages })
}

/// Operator-only switch that enables or disables all state-changing
/// requests.
pub fn execute_update_enabled(cfg: &mut Config, info: &MessageInfo, enabled: bool) -> (r: Result<
    Response,
    ContractError,
>)
    ensures
        old(cfg).owner@ == info.sender@ ==> (r matches Ok(resp) && resp.messages@
            == Seq::<SettleMsg>::empty()) && *final(cfg) == (Config { enabled, ..*old(cfg) }),
        old(cfg).owner@ != info.sender@ ==> r == Err::<Response, ContractError>(
            ContractError::Disabled {},
        ) && *final(cfg) == *old(cfg),
{
    check_owner(cfg, &info.sender)?;
    cfg.enabled = enabled;
    let messages: Vec<SettleMsg> = Vec::new();
    proof {
        assert(messages@ =~= Seq::<SettleMsg>::empty());
    }
    Ok(Response { messages })
}

/// Operator-only update of the treasury, lock duration, rates and daily
/// amount; the daily-cap counters are kept.
pub fn execute_update_config(
    cfg: &mut Config,
    info: &MessageInfo,
    treasury_address: String,
    lock_seconds: u64,
    discount: u64,
    tx_fee: u64,
    platform_fee: u64,
    daily_vesting_amount: u128,
) -> (r: Result<Response, ContractError>)
    ensures
        old(cfg).owner@ == info.sender@ ==> (r matches Ok(resp) && resp.messages@
            == Seq::<SettleMsg>::empty()) && *final(cfg) == (Config {
            treasury_address,
            lock_seconds,
            discount,
            tx_fee,
            platform_fee,
            daily_vesting_amount,
            ..*old(cfg)
        }),
        old(cfg).owner@ != info.sender@ ==> r == Err::<Response, ContractError>(
            ContractError::Disabled {},
        ) && *final(cfg) == *old(cfg),
{
    check_owner(cfg, &info.sender)?;
    cfg.treasury_address = treasury_address;
    cfg.lock_seconds = lock_seconds;
    cfg.discount = discount;
    cfg.tx_fee = tx_fee;
    cfg.platform_fee = platform_fee;
    if cfg.daily_vesting_amount != daily_vesting_amount {
        cfg.daily_vesting_amount = daily_vesting_amount;
    }
    let messages: Vec<SettleMsg> = Vec::new();
    proof {
        assert(messages@ =~= Seq::<SettleMsg>::empty());
    }
    Ok(Response { messages })
}

/// The grant amount bought by `quoted_amount` of the payout token at a
/// discount of `discount` parts per thousand, rounded down.
pub open spec fn spec_receiving_amount(quoted_amount: u128, discount: u64) -> int {
    quoted_amount * (THOUSAND as int) / (THOUSAND - discount) as int
}

/// What the checks of a direct-deposit bond decide, up to (but not
/// including) the ledger append: on success, the configuration with the
/// committed cap counters, the discounted grant amount, and the attached
/// settlement-currency amount that is forwarded to the treasury.
pub open spec fn bond_checks(
    cfg: Config,
    env: Env,
    info: MessageInfo,
    amount: u128,
    quoted_token2_amount: u128,
) -> Result<(Config, u128, u128), ContractError> {
    if !cfg.enabled {
        Err(ContractError::Disabled {})
    } else if !cfg.is_native_bonding {
        Err(ContractError::NotAllowedBondingType {})
    } else {
        match crate::util::amount_of_denom_outcome(
            Balance::Native(info.funds),
            Denom::Native(cfg.usdc_denom),
        ) {
            Err(e) => Err(e),
            Ok(usdc_amount) => {
                if amount * (cfg.platform_fee + cfg.tx_fee) > u128::MAX {
                    Err(ContractError::Overflow {})
                } else {
                    let fee = amount * (cfg.platform_fee + cfg.tx_fee) / (THOUSAND as int);
                    if fee + amount > u128::MAX {
                        Err(ContractError::Overflow {})
                    } else if usdc_amount < fee + amount {
                        Err(ContractError::InsufficientFee {})
                    } else if quoted_token2_amount * (THOUSAND as int) > u128::MAX {
                        Err(ContractError::Overflow {})
                    } else if cfg.discount > THOUSAND {
                        Err(ContractError::Overflow {})
                    } else if cfg.discount == THOUSAND {
                        Err(ContractError::DivideByZero {})
                    } else {
                        let receiving = spec_receiving_amount(quoted_token2_amount, cfg.discount);
                        match cap_outcome(cfg, env.block.time_seconds, receiving as u128) {
                            Err(e) => Err(e),
                            Ok(cfg2) => {
                                if env.block.time_seconds + cfg.lock_seconds > u64::MAX {
                                    Err(ContractError::Overflow {})
                                } else {
                                    Ok((cfg2, receiving as u128, usdc_amount))
                                }
                            },
                        }
                    }
                }
            },
        }
    }
}

/// Direct-deposit bonding: the attached settlement currency must cover the
/// deposit plus its fee; the deposit's quoted payout-token value (obtained
/// from the paired pool by the host and passed in as
/// `quoted_token2_amount`) is grossed up by the discount, admitted against
/// the daily cap, and recorded as a grant unlocking after the lock period,
/// while the attached funds are forwarded to the treasury.
///
/// On any failed check neither the configuration nor the ledger changes.
pub fn execute_bond(
    cfg: &mut Config,
    ledger: &mut BondingLedger,
    env: &Env,
    info: &MessageInfo,
    amount: u128,
    quoted_token2_amount: u128,
) -> (r: Result<Response, ContractError>)
    requires
        old(ledger).wf(),
    ensures
        final(ledger).wf(),
        ({
            let o = bond_checks(*old(cfg), *env, *info, amount, quoted_token2_amount);
            match o {
                Err(e) => r == Err::<Response, ContractError>(e) && *final(cfg) == *old(cfg)
                    && final(ledger).entries@ == old(ledger).entries@,
                Ok(next) => {
                    let grant = BondingRecord {
                        amount: next.1,
                        timestamp: (env.block.time_seconds + old(cfg).lock_seconds) as u64,
                    };
                    let prev = match crate::ledger::spec_get(
                        old(ledger).entries@,
                        crate::ledger::addr_key(info.sender),
                    ) {
                        Some(l) => l@,
                        None => Seq::<BondingRecord>::empty(),
                    };
                    &&& r matches Ok(resp)
                    &&& (r matches Ok(resp) ==> resp.messages@ == seq![
                        crate::util::transfer_msg(
                            Denom::Native(old(cfg).usdc_denom),
                            next.2,
                            old(cfg).treasury_address,
                        ),
                    ])
                    &&& *final(cfg) == next.0
                    &&& exists|v: Vec<BondingRecord>|
                        #[trigger] crate::ledger::spec_save(old(ledger).entries@, info.sender, v)
                            == final(ledger).entries@ && v@ == prev.push(grant)
                },
            }
        }),
{
    check_enabled(cfg)?;
    if !cfg.is_native_bonding {
        return Err(ContractError::NotAllowedBondingType {});
    }

    let usdc_amount = crate::util::first_coin_amount(&info.funds, &cfg.usdc_denom)?;

    let rate: u128 = (cfg.platform_fee as u128) + (cfg.tx_fee as u128);
    let fee_amount = match amount.checked_mul(rate) {
        Some(v) => v / 1000,
        None => {
            return Err(ContractError::Overflow {});
        },
    };
    let required = match fee_amount.checked_add(amount) {
        Some(v) => v,
        None => {
            return Err(ContractError::Overflow {});
        },
    };
    if usdc_amount < required {
        return Err(ContractError::InsufficientFee {});
    }

    let quoted_scaled = match quoted_token2_amount.checked_mul(1000) {
        Some(v) => v,
        None => {
            return Err(ContractError::Overflow {});
        },
    };
    let discount_base = match THOUSAND.checked_sub(cfg.discount) {
        Some(v) => v,
        None => {
            return Err(ContractError::Overflow {});
        },
    };
    let receiving_amount = match quoted_scaled.checked_div(discount_base as u128) {
        Some(v) => v,
        None => {
            return Err(ContractError::DivideByZero {});
        },
    };

    let prior_cumulated = cfg.cumulated_amount;
    let prior_daily_current = cfg.daily_current_bond_amount;
    let prior_last_timestamp = cfg.last_timestamp;
    check_daily_vesting_amount(cfg, env.block.time_seconds, receiving_amount)?;

    let unlock = match env.block.time_seconds.checked_add(cfg.lock_seconds) {
        Some(v) => v,
        None => {
            // the whole request aborts: revert the committed cap counters
            cfg.cumulated_amount = prior_cumulated;
            cfg.daily_current_bond_amount = prior_daily_current;
            cfg.last_timestamp = prior_last_timestamp;
            return Err(ContractError::Overflow {});
        },
    };

    let mut messages: Vec<SettleMsg> = Vec::new();
    let fee_msg = crate::util::transfer_token_message(
        Denom::Native(cfg.usdc_denom.clone()),
        usdc_amount,
        cfg.treasury_address.clone(),
    )?;
    messages.push(fee_msg);

    let mut list: Vec<BondingRecord> = match ledger.load(&info.sender) {
        Some(v) => crate::ledger::copy_records(v),
        None => Vec::new(),
    };
    list.push(BondingRecord { amount: receiving_amount, timestamp: unlock });
    let ghost saved_list = list;
    ledger.save(info.sender.clone(), list);
    proof {
        assert(crate::ledger::spec_save(old(ledger).entries@, info.sender, saved_list)
            == ledger.entries@);
    }

    Ok(Response { messages })
}

/// What a pool-triggered bond decides, up to the ledger append: on success
/// the configuration with the committed cap counters and the grossed-up
/// grant amount (the fee was already retained by the pool).
pub open spec fn lp_bond_checks(
    cfg: Config,
    env: Env,
    info: MessageInfo,
    amount: u128,
) -> Result<(Config, u128), ContractError> {
    if !cfg.enabled {
        Err(ContractError::Disabled {})
    } else if info.sender@ != cfg.pool_address@ {
        Err(ContractError::Unauthorized {})
    } else if amount == 0 {
        Err(ContractError::Cw20InputZero {})
    } else if cfg.is_native_bonding {
        Err(ContractError::NotAllowedBondingType {})
    } else if amount * (THOUSAND as int) > u128::MAX {
        Err(ContractError::Overflow {})
    } else if cfg.discount > THOUSAND {
        Err(ContractError::Overflow {})
    } else if cfg.discount == THOUSAND {
        Err(ContractError::DivideByZero {})
    } else {
        let receiving = spec_receiving_amount(amount, cfg.discount);
        match cap_outcome(cfg, env.block.time_seconds, receiving as u128) {
            Err(e) => Err(e),
            Ok(cfg2) => {
                if env.block.time_seconds + cfg.lock_seconds > u64::MAX {
                    Err(ContractError::Overflow {})
                } else {
                    Ok((cfg2, receiving as u128))
                }
            },
        }
    }
}

/// Pool-triggered bonding, callable only by the paired pool: the amount the
/// pool already settled is grossed up by the discount, admitted against the
/// daily cap, and recorded as a grant for `address`; no funds move here.
///
/// On any failed check neither the configuration nor the ledger changes.
pub fn execute_lp_bond(
    cfg: &mut Config,
    ledger: &mut BondingLedger,
    env: &Env,
    info: &MessageInfo,
    address: String,
    amount: u128,
) -> (r: Result<Response, ContractError>)
    requires
        old(ledger).wf(),
    ensures
        final(ledger).wf(),
        ({
            let o = lp_bond_checks(*old(cfg), *env, *info, amount);
            match o {
                Err(e) => r == Err::<Response, ContractError>(e) && *final(cfg) == *old(cfg)
                    && final(ledger).entries@ == old(ledger).entries@,
                Ok(next) => {
                    let grant = BondingRecord {
                        amount: next.1,
                        timestamp: (env.block.time_seconds + old(cfg).lock_seconds) as u64,
                    };
                    let prev = match crate::ledger::spec_get(
                        old(ledger).entries@,
                        crate::ledger::addr_key(address),
                    ) {
                        Some(l) => l@,
                        None => Seq::<BondingRecord>::empty(),
                    };
                    &&& r matches Ok(resp)
                    &&& (r matches Ok(resp) ==> resp.messages@ == Seq::<SettleMsg>::empty())
                    &&& *final(cfg) == next.0
                    &&& exists|v: Vec<BondingRecord>|
                        #[trigger] crate::ledger::spec_save(old(ledger).entries@, address, v)
                            == final(ledger).entries@ && v@ == prev.push(grant)
                },
            }
        }),
{
    check_enabled(cfg)?;
    if !info.sender.eq(&cfg.pool_address) {
        return Err(ContractError::Unauthorized {});
    }
    if amount == 0 {
        return Err(ContractError::Cw20InputZero {});
    }
    if cfg.is_native_bonding {
        return Err(ContractError::NotAllowedBondingType {});
    }

    let scaled = match amount.checked_mul(1000) {
        Some(v) => v,
        None => {
            return Err(ContractError::Overflow {});
        },
    };
    let discount_base = match THOUSAND.checked_sub(cfg.discount) {
        Some(v) => v,
        None => {
            return Err(ContractError::Overflow {});
        },
    };
    let receiving_amount = match scaled.checked_div(discount_base as u128) {
        Some(v) => v,
        None => {
            return Err(ContractError::DivideByZero {});
        },
    };

    let prior_cumulated = cfg.cumulated_amount;
    let prior_daily_current = cfg.daily_current_bond_amount;
    let prior_last_timestamp = cfg.last_timestamp;
    check_daily_vesting_amount(cfg, env.block.time_seconds, receiving_amount)?;

    let unlock = match env.block.time_seconds.checked_add(cfg.lock_seconds) {
        Some(v) => v,
        None => {
            // the whole request aborts: revert the committed cap counters
            cfg.cumulated_amount = prior_cumulated;
            cfg.daily_current_bond_amount = prior_daily_current;
            cfg.last_timestamp = prior_last_timestamp;
            return Err(ContractError::Overflow {});
        },
    };

    let mut list: Vec<BondingRecord> = match ledger.load(&address) {
        Some(v) => crate::ledger::copy_records(v),
        None => Vec::new(),
    };
    list.push(BondingRecord { amount: receiving_amount, timestamp: unlock });
    let ghost saved_list = list;
    ledger.save(address.clone(), list);
    proof {
        assert(crate::ledger::spec_save(old(ledger).entries@, address, saved_list)
            == ledger.entries@);
    }

    let messages: Vec<SettleMsg> = Vec::new();
    proof {
        assert(messages@ =~= Seq::<SettleMsg>::empty());
    }
    Ok(Response { messages })
}

/// Filtering a sequence extended by one element keeps the filtered prefix
/// and appends the element exactly when it satisfies the predicate.
pub proof fn lemma_filter_push(
    s: Seq<BondingRecord>,
    x: BondingRecord,
    pred: spec_fn(BondingRecord) -> bool,
)
    ensures
        pred(x) ==> s.push(x).filter(pred) == s.filter(pred).push(x),
        !pred(x) ==> s.push(x).filter(pred) == s.filter(pred),
{
    assert(s.push(x).drop_last() =~= s);
    assert(s.push(x).last() == x);
    reveal_with_fuel(Seq::filter, 2);
}

/// Total amount of the grants in `list` whose unlock time has passed at
/// `now`.
pub open spec fn spec_unbond_amount(list: Seq<BondingRecord>, now: u64) -> int
    decreases list.len(),
{
    if list.len() == 0 {
        0
    } else {
        (if list[0].timestamp <= now {
            list[0].amount as int
        } else {
            0
        }) + spec_unbond_amount(list.drop_first(), now)
    }
}

/// The matured total is never negative.
pub proof fn lemma_spec_unbond_amount_nonneg(list: Seq<BondingRecord>, now: u64)
    ensures
        spec_unbond_amount(list, now) >= 0,
    decreases list.len(),
{
    if list.len() > 0 {
        lemma_spec_unbond_amount_nonneg(list.drop_first(), now);
    }
}

/// The settlement fee on unbonding `unbond_amount`, priced in the settlement
/// currency by the exchange rate `usdc_price` (fixed point, scaled by one
/// million).
pub open spec fn spec_unbond_fee(cfg: Config, usdc_price: u128, unbond_amount: int) -> int {
    usdc_price * unbond_amount * (cfg.platform_fee + cfg.tx_fee) / (THOUSAND as int) / (
    NORMAL_DECIMAL as int)
}

/// What a bond-state projection computes for one grant list: the matured
/// total and its settlement fee, or the arithmetic failure that aborts the
/// request.
pub open spec fn bond_state_amounts(
    cfg: Config,
    list: Seq<BondingRecord>,
    usdc_price: u128,
    now: u64,
) -> Result<(int, int), ContractError> {
    let unbond = spec_unbond_amount(list, now);
    if unbond > u128::MAX {
        Err(ContractError::Overflow {})
    } else if unbond > 0 && usdc_price * unbond > u128::MAX {
        Err(ContractError::Overflow {})
    } else if unbond > 0 && usdc_price * unbond * (cfg.platform_fee + cfg.tx_fee) > u128::MAX {
        Err(ContractError::Overflow {})
    } else {
        Ok(
            (
                unbond,
                if unbond > 0 {
                    spec_unbond_fee(cfg, usdc_price, unbond)
                } else {
                    0
                },
            ),
        )
    }
}

/// Projects one beneficiary's bond state as of `current_timestamp`: the
/// grant list, the matured total, and the settlement fee due on it.
pub fn get_bond_state(
    cfg: &Config,
    list: Vec<BondingRecord>,
    usdc_price: u128,
    current_timestamp: u64,
    address: String,
) -> (r: Result<BondStateResponse, ContractError>)
    ensures
        match bond_state_amounts(*cfg, list@, usdc_price, current_timestamp) {
            Ok(t) => (r matches Ok(resp) && resp.address == address && resp.list@ == list@
                && resp.unbond_amount == t.0 && resp.fee_amount == t.1),
            Err(e) => r == Err::<BondStateResponse, ContractError>(e),
        },
{
    let n = list.len();
    let mut unbond_amount: u128 = 0;
    let mut i: usize = 0;
    proof {
        assert(list@.subrange(0, n as int) =~= list@);
    }
    while i < n
        invariant
            i <= n,
            n == list@.len(),
            spec_unbond_amount(list@, current_timestamp) == unbond_amount + spec_unbond_amount(
                list@.subrange(i as int, n as int),
                current_timestamp,
            ),
        decreases n - i,
    {
        proof {
            assert(list@.subrange(i as int, n as int).drop_first() =~= list@.subrange(
                i + 1,
                n as int,
            ));
            lemma_spec_unbond_amount_nonneg(
                list@.subrange(i + 1, n as int),
                current_timestamp,
            );
        }
        if list[i].timestamp <= current_timestamp {
            unbond_amount = match unbond_amount.checked_add(list[i].amount) {
                Some(v) => v,
                None => {
                    return Err(ContractError::Overflow {});
                },
            };
        }
        i = i + 1;
    }
    proof {
        assert(list@.subrange(i as int, n as int).len() == 0);
    }

    let mut fee_amount: u128 = 0;
    if unbond_amount > 0 {
        let priced = match usdc_price.checked_mul(unbond_amount) {
            Some(v) => v,
            None => {
                return Err(ContractError::Overflow {});
            },
        };
        let rate: u128 = (cfg.platform_fee as u128) + (cfg.tx_fee as u128);
        let with_rate = match priced.checked_mul(rate) {
            Some(v) => v,
            None => {
                return Err(ContractError::Overflow {});
            },
        };
        fee_amount = with_rate / 1000 / NORMAL_DECIMAL;
    }

    Ok(BondStateResponse { address, list, unbond_amount, fee_amount })
}

/// Projects one stored row into its bond state, as the paginated query does
/// for each row of a page.
pub fn map_bonding(
    cfg: &Config,
    current_timestamp: u64,
    usdc_price: u128,
    address: String,
    list: Vec<BondingRecord>,
) -> (r: Result<BondStateResponse, ContractError>)
    ensures
        match bond_state_amounts(*cfg, list@, usdc_price, current_timestamp) {
            Ok(t) => (r matches Ok(resp) && resp.address == address && resp.list@ == list@
                && resp.unbond_amount == t.0 && resp.fee_amount == t.1),
            Err(e) => r == Err::<BondStateResponse, ContractError>(e),
        },
{
    get_bond_state(cfg, list, usdc_price, current_timestamp, address)
}

/// What the checks of an unbonding decide: on success the grants kept (the
/// unmatured ones, in order), the matured total paid out, and the attached
/// settlement-currency amount forwarded to the treasury.
pub open spec fn unbond_checks(
    cfg: Config,
    entries: Seq<crate::ledger::BondingEntry>,
    env: Env,
    info: MessageInfo,
    usdc_price: u128,
    fury_balance: u128,
) -> Result<(Seq<BondingRecord>, u128, u128), ContractError> {
    if !cfg.enabled {
        Err(ContractError::Disabled {})
    } else {
        match crate::ledger::spec_get(entries, crate::ledger::addr_key(info.sender)) {
            None => Err(ContractError::NotFound {}),
            Some(stored) => {
                match bond_state_amounts(cfg, stored@, usdc_price, env.block.time_seconds) {
                    Err(e) => Err(e),
                    Ok(t) => {
                        if t.0 == 0 {
                            Err(ContractError::NothingToUnbond {})
                        } else {
                            match crate::util::amount_of_denom_outcome(
                                Balance::Native(info.funds),
                                Denom::Native(cfg.usdc_denom),
                            ) {
                                Err(e) => Err(e),
                                Ok(usdc_amount) => {
                                    if usdc_amount < t.1 {
                                        Err(ContractError::InsufficientFee {})
                                    } else if fury_balance < t.0 {
                                        Err(ContractError::InsufficientFury {})
                                    } else {
                                        Ok(
                                            (
                                                stored@.filter(
                                                    |rec: BondingRecord|
                                                        rec.timestamp > env.block.time_seconds,
                                                ),
                                                t.0 as u128,
                                                usdc_amount,
                                            ),
                                        )
                                    }
                                },
                            }
                        }
                    },
                }
            },
        }
    }
}

/// Settles the caller's matured grants: removes exactly the grants whose
/// unlock time has passed, pays their total in the payout token to the
/// caller, and forwards the attached settlement-currency fee to the
/// treasury. `fury_balance` is the ledger's own payout-token balance as
/// read by the host; it must cover the payout.
///
/// On any failed check neither the configuration nor the ledger changes.
pub fn execute_unbond(
    cfg: &Config,
    ledger: &mut BondingLedger,
    env: &Env,
    info: &MessageInfo,
    usdc_price: u128,
    fury_balance: u128,
) -> (r: Result<Response, ContractError>)
    requires
        old(ledger).wf(),
    ensures
        final(ledger).wf(),
        ({
            let o = unbond_checks(*cfg, old(ledger).entries@, *env, *info, usdc_price, fury_balance);
            match o {
                Err(e) => r == Err::<Response, ContractError>(e) && final(ledger).entries@ == old(
                    ledger,
                ).entries@,
                Ok(t) => {
                    &&& r matches Ok(resp)
                    &&& (r matches Ok(resp) ==> resp.messages@ == seq![
                        crate::util::transfer_msg(
                            Denom::Cw20(cfg.fury_token_address),
                            t.1,
                            info.sender,
                        ),
                        crate::util::transfer_msg(
                            Denom::Native(cfg.usdc_denom),
                            t.2,
                            cfg.treasury_address,
                        ),
                    ])
                    &&& exists|v: Vec<BondingRecord>|
                        #[trigger] crate::ledger::spec_save(old(ledger).entries@, info.sender, v)
                            == final(ledger).entries@ && v@ == t.0
                },
            }
        }),
{
    check_enabled(cfg)?;

    let list: Vec<BondingRecord> = match ledger.load(&info.sender) {
        Some(v) => crate::ledger::copy_records(v),
        None => {
            return Err(ContractError::NotFound {});
        },
    };

    let state = get_bond_state(
        cfg,
        crate::ledger::copy_records(&list),
        usdc_price,
        env.block.time_seconds,
        info.sender.clone(),
    )?;

    if state.unbond_amount == 0 {
        return Err(ContractError::NothingToUnbond {});
    }

    let n = list.len();
    let mut new_list: Vec<BondingRecord> = Vec::new();
    let mut i: usize = 0;
    let ghost pred = |rec: BondingRecord| rec.timestamp > env.block.time_seconds;
    proof {
        assert(list@.subrange(0, 0).filter(pred) =~= new_list@);
    }
    while i < n
        invariant
            i <= n,
            n == list@.len(),
            new_list@ == list@.subrange(0, i as int).filter(pred),
        decreases n - i,
    {
        proof {
            assert(list@.subrange(0, i + 1) =~= list@.subrange(0, i as int).push(
                list@[i as int],
            ));
            lemma_filter_push(list@.subrange(0, i as int), list@[i as int], pred);
        }
        if list[i].timestamp > env.block.time_seconds {
            new_list.push(list[i]);
        }
        i = i + 1;
    }
    proof {
        assert(list@.subrange(0, n as int) =~= list@);
    }

    let usdc_amount = crate::util::first_coin_amount(&info.funds, &cfg.usdc_denom)?;
    if usdc_amount < state.fee_amount {
        return Err(ContractError::InsufficientFee {});
    }
    if fury_balance < state.unbond_amount {
        return Err(ContractError::InsufficientFury {});
    }

    let mut messages: Vec<SettleMsg> = Vec::new();
    let payout = crate::util::transfer_token_message(
        Denom::Cw20(cfg.fury_token_address.clone()),
        state.unbond_amount,
        info.sender.clone(),
    )?;
    messages.push(payout);
    let fee_msg = crate::util::transfer_token_message(
        Denom::Native(cfg.usdc_denom.clone()),
        usdc_amount,
        cfg.treasury_address.clone(),
    )?;
    messages.push(fee_msg);

    let ghost saved_list = new_list;
    ledger.save(info.sender.clone(), new_list);
    proof {
        assert(crate::ledger::spec_save(old(ledger).entries@, info.sender, saved_list)
            == ledger.entries@);
    }

    Ok(Response { messages })
}

/// What an operator-only emergency withdrawal decides.
pub open spec fn withdraw_checks(
    cfg: Config,
    info: MessageInfo,
    amount: u128,
    fury_balance: u128,
) -> Result<(), ContractError> {
    if info.sender@ != cfg.owner@ {
        Err(ContractError::Disabled {})
    } else if fury_balance < amount {
        Err(ContractError::InsufficientFury {})
    } else {
        Ok(())
    }
}

/// Operator-only extraction of `amount` of the payout token, limited by the
/// ledger's own balance `fury_balance` as read by the host.
pub fn execute_withdraw(
    cfg: &Config,
    info: &MessageInfo,
    amount: u128,
    fury_balance: u128,
) -> (r: Result<Response, ContractError>)
    ensures
        match withdraw_checks(*cfg, *info, amount, fury_balance) {
            Err(e) => r == Err::<Response, ContractError>(e),
            Ok(_) => (r matches Ok(resp) && resp.messages@ == seq![
                crate::util::transfer_msg(
                    Denom::Cw20(cfg.fury_token_address),
                    amount,
                    info.sender,
                ),
            ]),
        },
{
    check_owner(cfg, &info.sender)?;
    if fury_balance < amount {
        return Err(ContractError::InsufficientFury {});
    }
    let mut messages: Vec<SettleMsg> = Vec::new();
    let payout = crate::util::transfer_token_message(
        Denom::Cw20(cfg.fury_token_address.clone()),
        amount,
        info.sender.clone(),
    )?;
    messages.push(payout);
    Ok(Response { messages })
}

/// Creates the ledger: enabled, with empty daily-cap counters, observing the
/// current block time as the last request time.
pub fn instantiate(env: &Env, msg: InstantiateMsg) -> (r: Config)
    ensures
        r == (Config {
            owner: msg.owner,
            pool_address: msg.pool_address,
            treasury_address: msg.treasury_address,
            fury_token_address: msg.fury_token_address,
            lock_seconds: msg.lock_seconds,
            discount: msg.discount,
            usdc_denom: msg.usdc_denom,
            is_native_bonding: msg.is_native_bonding,
            tx_fee: msg.tx_fee,
            platform_fee: msg.platform_fee,
            enabled: true,
            daily_vesting_amount: msg.daily_vesting_amount,
            cumulated_amount: 0,
            daily_current_bond_amount: 0,
            last_timestamp: env.block.time_seconds,
        }),
{
    Config {
        owner: msg.owner,
        pool_address: msg.pool_address,
        treasury_address: msg.treasury_address,
        fury_token_address: msg.fury_token_address,
        lock_seconds: msg.lock_seconds,
        discount: msg.discount,
        usdc_denom: msg.usdc_denom,
        is_native_bonding: msg.is_native_bonding,
        tx_fee: msg.tx_fee,
        platform_fee: msg.platform_fee,
        enabled: true,
        daily_vesting_amount: msg.daily_vesting_amount,
        cumulated_amount: 0,
        daily_current_bond_amount: 0,
        last_timestamp: env.block.time_seconds,
    }
}

/// The configuration reported to a `Config` query.
pub fn query_config(cfg: &Config) -> (r: ConfigResponse)
    ensures
        r.owner == cfg.owner,
        r.pool_address == cfg.pool_address,
        r.treasury_address == cfg.treasury_address,
        r.fury_token_address == cfg.fury_token_address,
        r.lock_seconds == cfg.lock_seconds,
        r.discount == cfg.discount,
        r.usdc_denom == cfg.usdc_denom,
        r.is_native_bonding == cfg.is_native_bonding,
        r.tx_fee == cfg.tx_fee,
        r.platform_fee == cfg.platform_fee,
        r.enabled == cfg.enabled,
        r.daily_vesting_amount == cfg.daily_vesting_amount,
        r.cumulated_amount == cfg.cumulated_amount,
        r.daily_current_bond_amount == cfg.daily_current_bond_amount,
        r.last_timestamp == cfg.last_timestamp,
{
    ConfigResponse {
        owner: cfg.owner.clone(),
        pool_address: cfg.pool_address.clone(),
        treasury_address: cfg.treasury_address.clone(),
        fury_token_address: cfg.fury_token_address.clone(),
        lock_seconds: cfg.lock_seconds,
        discount: cfg.discount,
        usdc_denom: cfg.usdc_denom.clone(),
        is_native_bonding: cfg.is_native_bonding,
        tx_fee: cfg.tx_fee,
        platform_fee: cfg.platform_fee,
        enabled: cfg.enabled,
        daily_vesting_amount: cfg.daily_vesting_amount,
        cumulated_amount: cfg.cumulated_amount,
        daily_current_bond_amount: cfg.daily_current_bond_amount,
        last_timestamp: cfg.last_timestamp,
    }
}

/// Projects the bond state of `address` as of now; an address with no row is
/// reported with an empty grant list.
pub fn query_bond_state(
    cfg: &Config,
    ledger: &BondingLedger,
    usdc_price: u128,
    current_timestamp: u64,
    address: String,
) -> (r: Result<BondStateResponse, ContractError>)
    ensures
        ({
            let stored = match crate::ledger::spec_get(
                ledger.entries@,
                crate::ledger::addr_key(address),
            ) {
                Some(v) => v@,
                None => Seq::<BondingRecord>::empty(),
            };
            match bond_state_amounts(*cfg, stored, usdc_price, current_timestamp) {
                Ok(t) => (r matches Ok(resp) && resp.address == address && resp.list@ == stored
                    && resp.unbond_amount == t.0 && resp.fee_amount == t.1),
                Err(e) => r == Err::<BondStateResponse, ContractError>(e),
            }
        }),
{
    let list: Vec<BondingRecord> = match ledger.load(&address) {
        Some(v) => crate::ledger::copy_records(v),
        None => Vec::new(),
    };
    get_bond_state(cfg, list, usdc_price, current_timestamp, address)
}

/// Where a page begins: the number of leading rows whose address does not
/// order strictly after `start_after` (the continuation token, exclusive).
pub open spec fn page_start(
    entries: Seq<crate::ledger::BondingEntry>,
    start_after: Option<String>,
) -> int
    decreases entries.len(),
{
    match start_after {
        None => 0,
        Some(s) => {
            if entries.len() == 0 {
                0
            } else if !crate::ledger::lex_lt(
                crate::ledger::addr_key(s),
                crate::ledger::addr_key(entries[0].address),
            ) {
                1 + page_start(entries.drop_first(), start_after)
            } else {
                0
            }
        },
    }
}

/// The page size: the requested limit capped at thirty, ten by default.
pub open spec fn spec_limit(limit: Option<u32>) -> int {
    match limit {
        Some(l) => if l > 30 {
            30
        } else {
            l as int
        },
        None => 10,
    }
}

/// The first arithmetic failure among a page's bond-state projections, if
/// any.
pub open spec fn page_error(
    cfg: Config,
    page: Seq<crate::ledger::BondingEntry>,
    usdc_price: u128,
    now: u64,
) -> Option<ContractError>
    decreases page.len(),
{
    if page.len() == 0 {
        None
    } else {
        match bond_state_amounts(cfg, page[0].records@, usdc_price, now) {
            Err(e) => Some(e),
            Ok(_) => page_error(cfg, page.drop_first(), usdc_price, now),
        }
    }
}

/// Projects one page of bond states, ascending by address: rows strictly
/// after the continuation token `start_after`, at most the requested limit
/// (default ten, capped at thirty).
#[verifier::rlimit(100)]
pub fn query_all_bond_state(
    cfg: &Config,
    ledger: &BondingLedger,
    usdc_price: u128,
    current_timestamp: u64,
    start_after: &Option<String>,
    limit: Option<u32>,
) -> (r: Result<AllBondStateResponse, ContractError>)
    ensures
        ({
            let entries = ledger.entries@;
            let start = page_start(entries, *start_after);
            let lim = spec_limit(limit);
            let page_end = if start + lim <= entries.len() {
                start + lim
            } else {
                entries.len() as int
            };
            let page = entries.subrange(start, page_end);
            match page_error(*cfg, page, usdc_price, current_timestamp) {
                Some(e) => r == Err::<AllBondStateResponse, ContractError>(e),
                None => (r matches Ok(resp) && resp.list@.len() == page.len() && (forall|k: int| #![trigger page[k]]
                    0 <= k < page.len() ==> (bond_state_amounts(
                        *cfg,
                        page[k].records@,
                        usdc_price,
                        current_timestamp,
                    ) matches Ok(t) && resp.list@[k].address == page[k].address
                        && resp.list@[k].list@ == page[k].records@ && resp.list@[k].unbond_amount
                        == t.0 && resp.list@[k].fee_amount == t.1))),
            }
        }),
{
    let n = ledger.entries.len();
    let ghost entries = ledger.entries@;

    let mut start: usize = 0;
    match start_after {
        None => {},
        Some(s) => {
            proof {
                assert(entries.subrange(0, n as int) =~= entries);
            }
            let mut done = false;
            while !done && start < n
                invariant
                    start <= n,
                    n == entries.len(),
                    entries == ledger.entries@,
                    Some(*s) == *start_after,
                    page_start(entries, *start_after) == start + page_start(
                        entries.subrange(start as int, n as int),
                        *start_after,
                    ),
                    done ==> start < n && crate::ledger::lex_lt(
                        crate::ledger::addr_key(*s),
                        crate::ledger::addr_key(entries[start as int].address),
                    ),
                decreases n - start + (if done {
                    0int
                } else {
                    1int
                }),
            {
                if addr_lt(s, &ledger.entries[start].address) {
                    done = true;
                } else {
                    proof {
                        assert(entries.subrange(start as int, n as int).drop_first() =~= entries
                            .subrange(start + 1, n as int));
                    }
                    start = start + 1;
                }
            }
            proof {
                if start >= n {
                    assert(entries.subrange(start as int, n as int).len() == 0);
                }
            }
        },
    }

    let lim_u32: u32 = match limit {
        Some(l) => if l > 30 {
            30
        } else {
            l
        },
        None => 10,
    };
    let lim = lim_u32 as usize;

    let ghost page_end: int = if start + spec_limit(limit) <= entries.len() {
        start + spec_limit(limit)
    } else {
        entries.len() as int
    };
    let ghost page = entries.subrange(start as int, page_end);

    let mut out: Vec<BondStateResponse> = Vec::new();
    let mut idx: usize = start;
    let mut k: usize = 0;
    proof {
        assert(page.subrange(0, page.len() as int) =~= page);
    }
    while idx < n && k < lim
        invariant
            start <= idx <= n,
            idx == start + k,
            k <= lim,
            n == entries.len(),
            entries == ledger.entries@,
            out@.len() == k,
            k <= page.len(),
            page_error(*cfg, page, usdc_price, current_timestamp) == page_error(
                *cfg,
                page.subrange(k as int, page.len() as int),
                usdc_price,
                current_timestamp,
            ),
            forall|j: int| #![trigger page[j]]
                0 <= j < k ==> ({
                    let a = bond_state_amounts(*cfg, page[j].records@, usdc_price, current_timestamp);
                    a is Ok && out@[j].address == page[j].address && out@[j].list@
                        == page[j].records@ && out@[j].unbond_amount == a->Ok_0.0
                        && out@[j].fee_amount == a->Ok_0.1
                }),
        decreases n - idx,
    {
        proof {
            assert(page[k as int] == entries[idx as int]);
            assert(page.subrange(k as int, page.len() as int).drop_first() =~= page.subrange(
                k + 1,
                page.len() as int,
            ));
            assert(page.subrange(k as int, page.len() as int)[0] == page[k as int]);
        }
        let row_address = ledger.entries[idx].address.clone();
        let row_records = crate::ledger::copy_records(&ledger.entries[idx].records);
        let state = map_bonding(cfg, current_timestamp, usdc_price, row_address, row_records)?;
        let ghost out_before = out@;
        out.push(state);
        idx = idx + 1;
        k = k + 1;
        proof {
            assert forall|j: int| #![trigger page[j]]
                0 <= j < k implies ({
                let a = bond_state_amounts(*cfg, page[j].records@, usdc_price, current_timestamp);
                a is Ok && out@[j].address == page[j].address && out@[j].list@
                    == page[j].records@ && out@[j].unbond_amount == a->Ok_0.0
                    && out@[j].fee_amount == a->Ok_0.1
            }) by {
                if j == k - 1 {
                    assert(out@[j] == state);
                } else {
                    assert(out@[j] == out_before[j]);
                }
            }
        }
    }
    proof {
        assert(page.subrange(k as int, page.len() as int).len() == 0);
    }

    Ok(AllBondStateResponse { list: out })
}

/// The counters after one admission attempt: the committed counters when
/// the request is admitted, the unchanged counters when it is rejected.
pub open spec fn cap_step(cfg: Config, request: (u64, u128)) -> Config {
    match cap_outcome(cfg, request.0, request.1) {
        Ok(c) => c,
        Err(_) => cfg,
    }
}

/// The counters after a whole sequence of admission attempts, in order.
pub open spec fn run_cap_requests(cfg: Config, requests: Seq<(u64, u128)>) -> Config
    decreases requests.len(),
{
    if requests.len() == 0 {
        cfg
    } else {
        run_cap_requests(cap_step(cfg, requests[0]), requests.drop_first())
    }
}

/// The total amount the cap admits out of a sequence of attempts.
pub open spec fn accepted_sum(cfg: Config, requests: Seq<(u64, u128)>) -> int
    decreases requests.len(),
{
    if requests.len() == 0 {
        0
    } else {
        (if cap_outcome(cfg, requests[0].0, requests[0].1) is Ok {
            requests[0].1 as int
        } else {
            0
        }) + accepted_sum(cap_step(cfg, requests[0]), requests.drop_first())
    }
}

/// Law: the daily cap holds across any sequence of bonding requests within
/// one day bucket. As long as every request's timestamp falls in the same
/// day bucket as the counters' last request time, the daily amount and the
/// carry-over credit never change, the day's issued counter grows by exactly
/// the admitted total, and that counter never exceeds the daily amount plus
/// the credit. In particular, from a fresh bucket (day counter zero) the
/// admitted total never exceeds the daily amount plus the credit held at the
/// start of the bucket.
pub proof fn lemma_daily_cap_within_bucket(cfg: Config, requests: Seq<(u64, u128)>)
    requires
        forall|i: int|
            0 <= i < requests.len() ==> (#[trigger] requests[i]).0 / SECONDS_PER_DAY
                == cfg.last_timestamp / SECONDS_PER_DAY,
        cfg.daily_current_bond_amount <= cfg.daily_vesting_amount + cfg.cumulated_amount,
    ensures
        ({
            let fin = run_cap_requests(cfg, requests);
            &&& fin.daily_vesting_amount == cfg.daily_vesting_amount
            &&& fin.cumulated_amount == cfg.cumulated_amount
            &&& fin.last_timestamp / SECONDS_PER_DAY == cfg.last_timestamp / SECONDS_PER_DAY
            &&& fin.daily_current_bond_amount == cfg.daily_current_bond_amount + accepted_sum(
                cfg,
                requests,
            )
            &&& cfg.daily_current_bond_amount + accepted_sum(cfg, requests)
                <= cfg.daily_vesting_amount + cfg.cumulated_amount
        }),
    decreases requests.len(),
{
    if requests.len() > 0 {
        let next = cap_step(cfg, requests[0]);
        assert(requests[0].0 / SECONDS_PER_DAY == cfg.last_timestamp / SECONDS_PER_DAY);
        assert(rolled_over(cfg, requests[0].0) == cfg);
        assert forall|i: int|
            0 <= i < requests.drop_first().len() implies (#[trigger] requests.drop_first()[i]).0
            / SECONDS_PER_DAY == next.last_timestamp / SECONDS_PER_DAY by {
            assert(requests.drop_first()[i] == requests[i + 1]);
        }
        lemma_daily_cap_within_bucket(next, requests.drop_first());
    }
}

/// Law: the cap boundary is exact. With no carry-over credit and all but one
/// unit of the daily amount already issued, a same-day request for two units
/// is rejected with the capacity error — and the rejected request commits
/// nothing, by the admission check's contract — while a request for the one
/// remaining unit is admitted and fills the day exactly, changing no other
/// counter. The one machine bound: the daily amount must lie below the
/// 128-bit ceiling, at which the comparison's arithmetic itself aborts the
/// request.
pub proof fn lemma_cap_boundary(cfg: Config, timestamp: u64)
    requires
        timestamp / SECONDS_PER_DAY == cfg.last_timestamp / SECONDS_PER_DAY,
        cfg.cumulated_amount == 0,
        1 <= cfg.daily_vesting_amount < u128::MAX,
        cfg.daily_current_bond_amount == cfg.daily_vesting_amount - 1,
    ensures
        cap_outcome(cfg, timestamp, 2) == Err::<Config, ContractError>(
            ContractError::MaxBondingExceed {},
        ),
        cap_outcome(cfg, timestamp, 1) == Ok::<Config, ContractError>(
            Config {
                last_timestamp: timestamp,
                daily_current_bond_amount: cfg.daily_vesting_amount,
                ..cfg
            },
        ),
{
    assert(rolled_over(cfg, timestamp) == cfg);
}

/// Law: unbonding partitions the grant list by maturity. The kept list is
/// exactly the grants whose unlock time lies strictly after the settlement
/// time: every kept grant is unmatured, every unmatured grant of the
/// original list is kept, and nothing enters the list that was not already
/// in it.
pub proof fn lemma_unbond_partition(list: Seq<BondingRecord>, now: u64)
    ensures
        ({
            let kept = list.filter(|rec: BondingRecord| rec.timestamp > now);
            &&& forall|i: int| 0 <= i < kept.len() ==> (#[trigger] kept[i]).timestamp > now
            &&& forall|i: int|
                0 <= i < list.len() && (#[trigger] list[i]).timestamp > now ==> kept.contains(
                    list[i],
                )
            &&& forall|i: int| 0 <= i < kept.len() ==> list.contains(#[trigger] kept[i])
        }),
    decreases list.len(),
{
    broadcast use vstd::seq_lib::group_filter_ensures;

    let pred = |rec: BondingRecord| rec.timestamp > now;
    let kept = list.filter(pred);
    assert forall|i: int| 0 <= i < kept.len() implies (#[trigger] kept[i]).timestamp > now by {
        assert(pred(kept[i]));
    }
    assert forall|i: int|
        0 <= i < list.len() && (#[trigger] list[i]).timestamp > now implies kept.contains(
        list[i],
    ) by {
        assert(pred(list[i]));
        assert(list.filter(pred).contains(list[i]));
    }
    if list.len() > 0 {
        lemma_unbond_partition(list.drop_last(), now);
        reveal_with_fuel(Seq::filter, 2);
        let sub = list.drop_last().filter(pred);
        assert forall|i: int| 0 <= i < kept.len() implies list.contains(#[trigger] kept[i]) by {
            if pred(list.last()) && i == kept.len() - 1 {
                assert(kept[i] == list.last());
                assert(list[list.len() - 1] == list.last());
                assert(list.contains(kept[i]));
            } else {
                assert(kept[i] == sub[i]);
                assert(list.drop_last().contains(sub[i]));
                let j = choose|j: int|
                    0 <= j < list.drop_last().len() && list.drop_last()[j] == sub[i];
                assert(list[j] == sub[i]);
                assert(list.contains(kept[i]));
            }
        }
    }
}

/// The outside values a request may need, read by the host before the
/// dispatch: the paired pool's quote for the amount being bonded, the
/// exchange rate used to price the unbonding fee, and the ledger's own
/// payout-token balance. Only the fields the dispatched request uses are
/// consulted.
pub struct LedgerReadings {
    /// The pool's payout-token quote for the bonded settlement amount.
    pub quoted_token2_amount: u128,
    /// The pool's settlement-currency price of one payout-token unit,
    /// scaled by one million.
    pub usdc_price: u128,
    /// The ledger's own payout-token balance.
    pub fury_balance: u128,
}

/// Routes one state-changing request to its handler.
pub fn execute(
    cfg: &mut Config,
    ledger: &mut BondingLedger,
    env: &Env,
    info: &MessageInfo,
    readings: &LedgerReadings,
    msg: ExecuteMsg,
) -> (r: Result<Response, ContractError>)
    requires
        old(ledger).wf(),
    ensures
        final(ledger).wf(),
        match msg {
            ExecuteMsg::UpdateOwner { owner } => {
                &&& final(ledger).entries@ == old(ledger).entries@
                &&& (old(cfg).owner@ == info.sender@ ==> (r matches Ok(resp) && resp.messages@
                    == Seq::<SettleMsg>::empty()) && *final(cfg) == (Config { owner, ..*old(cfg) }))
                &&& (old(cfg).owner@ != info.sender@ ==> r == Err::<Response, ContractError>(
                    ContractError::Disabled {},
                ) && *final(cfg) == *old(cfg))
            },
            ExecuteMsg::UpdateEnabled { enabled } => {
                &&& final(ledger).entries@ == old(ledger).entries@
                &&& (old(cfg).owner@ == info.sender@ ==> (r matches Ok(resp) && resp.messages@
                    == Seq::<SettleMsg>::empty()) && *final(cfg) == (Config {
                    enabled,
                    ..*old(cfg)
                }))
                &&& (old(cfg).owner@ != info.sender@ ==> r == Err::<Response, ContractError>(
                    ContractError::Disabled {},
                ) && *final(cfg) == *old(cfg))
            },
            ExecuteMsg::UpdateConfig {
                treasury_address,
                lock_seconds,
                discount,
                tx_fee,
                platform_fee,
                daily_vesting_amount,
            } => {
                &&& final(ledger).entries@ == old(ledger).entries@
                &&& (old(cfg).owner@ == info.sender@ ==> (r matches Ok(resp) && resp.messages@
                    == Seq::<SettleMsg>::empty()) && *final(cfg) == (Config {
                    treasury_address,
                    lock_seconds,
                    discount,
                    tx_fee,
                    platform_fee,
                    daily_vesting_amount,
                    ..*old(cfg)
                }))
                &&& (old(cfg).owner@ != info.sender@ ==> r == Err::<Response, ContractError>(
                    ContractError::Disabled {},
                ) && *final(cfg) == *old(cfg))
            },
            ExecuteMsg::Bond { amount } => {
                match bond_checks(*old(cfg), *env, *info, amount, readings.quoted_token2_amount) {
                    Err(e) => r == Err::<Response, ContractError>(e) && *final(cfg) == *old(cfg)
                        && final(ledger).entries@ == old(ledger).entries@,
                    Ok(next) => {
                        let grant = BondingRecord {
                            amount: next.1,
                            timestamp: (env.block.time_seconds + old(cfg).lock_seconds) as u64,
                        };
                        let prev = match crate::ledger::spec_get(
                            old(ledger).entries@,
                            crate::ledger::addr_key(info.sender),
                        ) {
                            Some(l) => l@,
                            None => Seq::<BondingRecord>::empty(),
                        };
                        &&& r matches Ok(resp)
                        &&& (r matches Ok(resp) ==> resp.messages@ == seq![
                            crate::util::transfer_msg(
                                Denom::Native(old(cfg).usdc_denom),
                                next.2,
                                old(cfg).treasury_address,
                            ),
                        ])
                        &&& *final(cfg) == next.0
                        &&& exists|v: Vec<BondingRecord>|
                            #[trigger] crate::ledger::spec_save(
                                old(ledger).entries@,
                                info.sender,
                                v,
                            ) == final(ledger).entries@ && v@ == prev.push(grant)
                    },
                }
            },
            ExecuteMsg::LpBond { address, amount } => {
                match lp_bond_checks(*old(cfg), *env, *info, amount) {
                    Err(e) => r == Err::<Response, ContractError>(e) && *final(cfg) == *old(cfg)
                        && final(ledger).entries@ == old(ledger).entries@,
                    Ok(next) => {
                        let grant = BondingRecord {
                            amount: next.1,
                            timestamp: (env.block.time_seconds + old(cfg).lock_seconds) as u64,
                        };
                        let prev = match crate::ledger::spec_get(
                            old(ledger).entries@,
                            crate::ledger::addr_key(address),
                        ) {
                            Some(l) => l@,
                            None => Seq::<BondingRecord>::empty(),
                        };
                        &&& r matches Ok(resp)
                        &&& (r matches Ok(resp) ==> resp.messages@ == Seq::<SettleMsg>::empty())
                        &&& *final(cfg) == next.0
                        &&& exists|v: Vec<BondingRecord>|
                            #[trigger] crate::ledger::spec_save(old(ledger).entries@, address, v)
                                == final(ledger).entries@ && v@ == prev.push(grant)
                    },
                }
            },
            ExecuteMsg::Unbond {  } => {
                &&& *final(cfg) == *old(cfg)
                &&& match unbond_checks(
                    *old(cfg),
                    old(ledger).entries@,
                    *env,
                    *info,
                    readings.usdc_price,
                    readings.fury_balance,
                ) {
                    Err(e) => r == Err::<Response, ContractError>(e) && final(ledger).entries@
                        == old(ledger).entries@,
                    Ok(t) => {
                        &&& r matches Ok(resp)
                        &&& (r matches Ok(resp) ==> resp.messages@ == seq![
                            crate::util::transfer_msg(
                                Denom::Cw20(old(cfg).fury_token_address),
                                t.1,
                                info.sender,
                            ),
                            crate::util::transfer_msg(
                                Denom::Native(old(cfg).usdc_denom),
                                t.2,
                                old(cfg).treasury_address,
                            ),
                        ])
                        &&& exists|v: Vec<BondingRecord>|
                            #[trigger] crate::ledger::spec_save(
                                old(ledger).entries@,
                                info.sender,
                                v,
                            ) == final(ledger).entries@ && v@ == t.0
                    },
                }
            },
            ExecuteMsg::Withdraw { amount } => {
                &&& *final(cfg) == *old(cfg)
                &&& final(ledger).entries@ == old(ledger).entries@
                &&& match withdraw_checks(*old(cfg), *info, amount, readings.fury_balance) {
                    Err(e) => r == Err::<Response, ContractError>(e),
                    Ok(_) => (r matches Ok(resp) && resp.messages@ == seq![
                        crate::util::transfer_msg(
                            Denom::Cw20(old(cfg).fury_token_address),
                            amount,
                            info.sender,
                        ),
                    ]),
                }
            },
        },
{
    match msg {
        ExecuteMsg::UpdateOwner { owner } => execute_update_owner(cfg, info, owner),
        ExecuteMsg::UpdateEnabled { enabled } => execute_update_enabled(cfg, info, enabled),
        ExecuteMsg::UpdateConfig {
            treasury_address,
            lock_seconds,
            discount,
            tx_fee,
            platform_fee,
            daily_vesting_amount,
        } => execute_update_config(
            cfg,
            info,
            treasury_address,
            lock_seconds,
            discount,
            tx_fee,
            platform_fee,
            daily_vesting_amount,
        ),
        ExecuteMsg::Bond { amount } => execute_bond(
            cfg,
            ledger,
            env,
            info,
            amount,
            readings.quoted_token2_amount,
        ),
        ExecuteMsg::LpBond { address, amount } => execute_lp_bond(
            cfg,
            ledger,
            env,
            info,
            address,
            amount,
        ),
        ExecuteMsg::Unbond {  } => execute_unbond(
            cfg,
            ledger,
            env,
            info,
            readings.usdc_price,
            readings.fury_balance,
        ),
        ExecuteMsg::Withdraw { amount } => execute_withdraw(
            cfg,
            info,
            amount,
            readings.fury_balance,
        ),
    }
}

/// Refuses to migrate state persisted by a different component.
pub fn migrate(stored_contract_name: &String) -> (r: Result<Response, ContractError>)
    ensures
        stored_contract_name@ == "fanfurybonding"@ ==> (r matches Ok(resp) && resp.messages@
            == Seq::<SettleMsg>::empty()),
        stored_contract_name@ != "fanfurybonding"@ ==> r == Err::<Response, ContractError>(
            ContractError::CannotMigrate { previous_contract: *stored_contract_name },
        ),
{
    let expected: String = "fanfurybonding".to_owned();
    if !stored_contract_name.eq(&expected) {
        return Err(
            ContractError::CannotMigrate { previous_contract: stored_contract_name.clone() },
        );
    }
    let messages: Vec<SettleMsg> = Vec::new();
    proof {
        assert(messages@ =~= Seq::<SettleMsg>::empty());
    }
    Ok(Response { messages })
}

} // verus!
