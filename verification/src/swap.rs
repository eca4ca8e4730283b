//! The constant-product reserve pool: prices swaps, mints and redeems
//! liquidity, and triggers bonding grants for depositors.

use vstd::prelude::*;

use crate::error::ContractError;
use crate::util::clone_denom;
use crate::util::BlockInfo;
use crate::util::Coin;
use crate::util::Denom;
use crate::util::Env;
use crate::util::MessageInfo;
use crate::util::Response;
use crate::util::SettleMsg;
use crate::THOUSAND;

verus! {

/// One reserve: the currency and how much of it the pool holds.
pub struct Token {
    pub reserve: u128,
    pub denom: Denom,
}

/// The pool's singleton configuration.
pub struct Config {
    pub owner: String,
    pub bonding_code_id: u64,
    pub bonding_contract_address: String,
    pub fury_token_address: String,
    pub treasury_address: String,
    pub usdc_denom: String,
    pub tx_fee: u64,
    pub platform_fee: u64,
    pub lock_seconds: u64,
    pub discount: u64,
    pub daily_vesting_amount: u128,
}

/// Which of the pool's two reserves a request refers to.
pub enum TokenSelect {
    Token1,
    Token2,
}

/// The values the pool is created with.
pub struct InstantiateMsg {
    pub lp_token_code_id: u64,
    pub bonding_code_id: u64,
    pub owner: String,
    pub treasury_address: String,
    pub fury_token_address: String,
    pub usdc_denom: String,
    pub lock_seconds: u64,
    pub discount: u64,
    pub tx_fee: u64,
    pub platform_fee: u64,
    pub daily_vesting_amount: u128,
}

/// A deadline attached to a request.
pub enum Expiration {
    AtHeight(u64),
    /// In seconds, as `BlockInfo::time_seconds`.
    AtTime(u64),
    Never,
}

/// A state-changing request to the pool.
pub enum ExecuteMsg {
    UpdateConfig { owner: String, bonding_contract_address: String, treasury_address: String },
    AddLiquidity {
        token1_amount: u128,
        min_liquidity: u128,
        max_token2: u128,
        fee_amount: u128,
        expiration: Option<Expiration>,
    },
    RemoveLiquidity {
        amount: u128,
        min_token1: u128,
        min_token2: u128,
        expiration: Option<Expiration>,
    },
    Swap {
        input_token: TokenSelect,
        input_amount: u128,
        min_output: u128,
        fee_amount: u128,
        expiration: Option<Expiration>,
    },
    AddToken { input_token: TokenSelect, amount: u128 },
}

/// A read-only request to the pool.
pub enum QueryMsg {
    Config {},
    Balance { address: String },
    Info {},
    Token1ForToken2Price { token1_amount: u128 },
    Token2ForToken1Price { token2_amount: u128 },
}

/// The reserves and liquidity-token data reported to an `Info` query.
pub struct InfoResponse {
    pub token1_reserve: u128,
    pub token1_denom: Denom,
    pub token2_reserve: u128,
    pub token2_denom: Denom,
    pub lp_token_supply: u128,
    pub lp_token_address: String,
}

/// Quote: how much of the second token the given first-token amount buys.
pub struct Token1ForToken2PriceResponse {
    pub token2_amount: u128,
}

/// Quote: how much of the first token the given second-token amount buys.
pub struct Token2ForToken1PriceResponse {
    pub token1_amount: u128,
}

/// The configuration as reported to a `Config` query.
pub struct ConfigResponse {
    pub owner: String,
    pub bonding_code_id: u64,
    pub bonding_contract_address: String,
    pub fury_token_address: String,
    pub treasury_address: String,
    pub usdc_denom: String,
    pub tx_fee: u64,
    pub platform_fee: u64,
    pub lock_seconds: u64,
    pub discount: u64,
    pub daily_vesting_amount: u128,
}

/// The (empty) migration request.
pub struct MigrateMsg {}

/// The constant-product swap price: how much of the output reserve an input
/// amount buys, with the 0.3% protocol skim built into the formula and the
/// division truncating in the pool's favour.
pub open spec fn spec_input_price(input_amount: int, input_reserve: int, output_reserve: int) -> int {
    input_amount * 997 * output_reserve / (input_reserve * 1000 + input_amount * 997)
}

/// What `get_input_price` returns, including the failure on an empty reserve
/// and on amounts whose pricing arithmetic exceeds the 128-bit range.
pub open spec fn input_price_outcome(
    input_amount: u128,
    input_reserve: u128,
    output_reserve: u128,
) -> Result<u128, ContractError> {
    if input_reserve == 0 || output_reserve == 0 {
        Err(ContractError::NoLiquidity {})
    } else if input_amount * 997 > u128::MAX {
        Err(ContractError::Overflow {})
    } else if input_amount * 997 * output_reserve > u128::MAX {
        Err(ContractError::Overflow {})
    } else if input_reserve * 1000 > u128::MAX || input_reserve * 1000 + input_amount * 997
        > u128::MAX {
        Err(ContractError::Overflow {})
    } else {
        Ok(spec_input_price(input_amount as int, input_reserve as int, output_reserve as int) as u128)
    }
}

/// Prices a swap of `input_amount` against the given reserves.
pub fn get_input_price(input_amount: u128, input_reserve: u128, output_reserve: u128) -> (r: Result<
    u128,
    ContractError,
>)
    ensures
        r == input_price_outcome(input_amount, input_reserve, output_reserve),
{
    if input_reserve == 0 || output_reserve == 0 {
        return Err(ContractError::NoLiquidity {});
    }
    let input_amount_with_fee = match input_amount.checked_mul(997) {
        Some(v) => v,
        None => {
            return Err(ContractError::Overflow {});
        },
    };
    let numerator = match input_amount_with_fee.checked_mul(output_reserve) {
        Some(v) => v,
        None => {
            return Err(ContractError::Overflow {});
        },
    };
    let denominator = match input_reserve.checked_mul(1000) {
        Some(v) => v,
        None => {
            return Err(ContractError::Overflow {});
        },
    };
    let denominator = match denominator.checked_add(input_amount_with_fee) {
        Some(v) => v,
        None => {
            return Err(ContractError::Overflow {});
        },
    };
    proof {
        assert(denominator >= 1000);
        assert(numerator as int / denominator as int <= numerator as int) by (nonlinear_arith)
            requires
                denominator >= 1,
                numerator >= 0,
        ;
    }
    Ok(numerator / denominator)
}

/// What `get_lp_token_amount_to_mint` returns: on the first deposit the
/// deposit itself, afterwards the deposit's share of the liquidity supply,
/// rounded down.
pub open spec fn mint_outcome(
    token1_amount: u128,
    liquidity_supply: u128,
    token1_reserve: u128,
) -> Result<u128, ContractError> {
    if liquidity_supply == 0 {
        Ok(token1_amount)
    } else if token1_amount * liquidity_supply > u128::MAX {
        Err(ContractError::Overflow {})
    } else if token1_reserve == 0 {
        Err(ContractError::DivideByZero {})
    } else {
        Ok((token1_amount * liquidity_supply / token1_reserve as int) as u128)
    }
}

/// How many liquidity tokens a deposit of `token1_amount` mints.
pub fn get_lp_token_amount_to_mint(
    token1_amount: u128,
    liquidity_supply: u128,
    token1_reserve: u128,
) -> (r: Result<u128, ContractError>)
    ensures
        r == mint_outcome(token1_amount, liquidity_supply, token1_reserve),
{
    if liquidity_supply == 0 {
        Ok(token1_amount)
    } else {
        let product = match token1_amount.checked_mul(liquidity_supply) {
            Some(v) => v,
            None => {
                return Err(ContractError::Overflow {});
            },
        };
        match product.checked_div(token1_reserve) {
            Some(v) => Ok(v),
            None => Err(ContractError::DivideByZero {}),
        }
    }
}

/// The deposit's proportional share of the second reserve, rounded up: one
/// is added only when the division leaves a fractional remainder, protecting
/// the pool from under-collateralization without inflating exact shares.
pub open spec fn spec_token2_required(
    token1_amount: int,
    token2_reserve: int,
    token1_reserve: int,
) -> int {
    token1_amount * token2_reserve / token1_reserve + (
    if token1_amount * token2_reserve % token1_reserve == 0 {
        0int
    } else {
        1int
    })
}

/// What `get_token2_amount_required` returns: on the first deposit the whole
/// allowance `max_token`, afterwards the deposit's proportional share of the
/// second reserve, rounded up in the pool's favour.
pub open spec fn token2_required_outcome(
    max_token: u128,
    token1_amount: u128,
    liquidity_supply: u128,
    token2_reserve: u128,
    token1_reserve: u128,
) -> Result<u128, ContractError> {
    if liquidity_supply == 0 {
        Ok(max_token)
    } else if token1_amount * token2_reserve > u128::MAX {
        Err(ContractError::Overflow {})
    } else if token1_reserve == 0 {
        Err(ContractError::DivideByZero {})
    } else if spec_token2_required(
        token1_amount as int,
        token2_reserve as int,
        token1_reserve as int,
    ) > u128::MAX {
        Err(ContractError::Overflow {})
    } else {
        Ok(
            spec_token2_required(
                token1_amount as int,
                token2_reserve as int,
                token1_reserve as int,
            ) as u128,
        )
    }
}

/// How much of the second token a deposit of `token1_amount` must bring.
pub fn get_token2_amount_required(
    max_token: u128,
    token1_amount: u128,
    liquidity_supply: u128,
    token2_reserve: u128,
    token1_reserve: u128,
) -> (r: Result<u128, ContractError>)
    ensures
        r == token2_required_outcome(
            max_token,
            token1_amount,
            liquidity_supply,
            token2_reserve,
            token1_reserve,
        ),
{
    if liquidity_supply == 0 {
        Ok(max_token)
    } else {
        let product = match token1_amount.checked_mul(token2_reserve) {
            Some(v) => v,
            None => {
                return Err(ContractError::Overflow {});
            },
        };
        let quotient = match product.checked_div(token1_reserve) {
            Some(v) => v,
            None => {
                return Err(ContractError::DivideByZero {});
            },
        };
        if product % token1_reserve == 0 {
            Ok(quotient)
        } else {
            match quotient.checked_add(1) {
                Some(v) => Ok(v),
                None => Err(ContractError::Overflow {}),
            }
        }
    }
}

/// Whether the deadline has passed in the given block.
pub open spec fn is_expired(e: Expiration, block: BlockInfo) -> bool {
    match e {
        Expiration::AtHeight(height) => block.height >= height,
        Expiration::AtTime(time) => block.time_seconds >= time,
        Expiration::Never => false,
    }
}

/// Rejects a request whose attached deadline has passed.
pub fn check_expiration(expiration: &Option<Expiration>, block: &BlockInfo) -> (r: Result<
    (),
    ContractError,
>)
    ensures
        match *expiration {
            Some(e) => r == if is_expired(e, *block) {
                Err::<(), ContractError>(ContractError::MsgExpirationError {})
            } else {
                Ok::<(), ContractError>(())
            },
            None => r == Ok::<(), ContractError>(()),
        },
{
    match expiration {
        Some(e) => {
            let expired = match e {
                Expiration::AtHeight(height) => block.height >= *height,
                Expiration::AtTime(time) => block.time_seconds >= *time,
                Expiration::Never => false,
            };
            if expired {
                return Err(ContractError::MsgExpirationError {});
            }
            Ok(())
        },
        None => Ok(()),
    }
}

/// Total amount of the coins of denomination `denom` in `coins`.
pub open spec fn sum_for_denom(coins: Seq<Coin>, denom: Seq<char>) -> int
    decreases coins.len(),
{
    if coins.len() == 0 {
        0
    } else if coins[0].denom@ == denom {
        coins[0].amount + sum_for_denom(coins.drop_first(), denom)
    } else {
        sum_for_denom(coins.drop_first(), denom)
    }
}

/// A denomination's total is never negative.
pub proof fn lemma_sum_for_denom_nonneg(coins: Seq<Coin>, denom: Seq<char>)
    ensures
        sum_for_denom(coins, denom) >= 0,
    decreases coins.len(),
{
    if coins.len() > 0 {
        lemma_sum_for_denom_nonneg(coins.drop_first(), denom);
    }
}

/// Sums the attached coins of denomination `denom`; the total must fit the
/// 128-bit amount range.
pub fn get_amount_for_denom(coins: &Vec<Coin>, denom: &String) -> (r: Result<Coin, ContractError>)
    ensures
        sum_for_denom(coins@, denom@) <= u128::MAX ==> (r matches Ok(c) && c.denom == *denom
            && c.amount == sum_for_denom(coins@, denom@)),
        sum_for_denom(coins@, denom@) > u128::MAX ==> r == Err::<Coin, ContractError>(
            ContractError::Overflow {},
        ),
{
    let n = coins.len();
    let mut amount: u128 = 0;
    let mut i: usize = 0;
    proof {
        assert(coins@.subrange(0, n as int) =~= coins@);
    }
    while i < n
        invariant
            i <= n,
            n == coins@.len(),
            sum_for_denom(coins@, denom@) == amount + sum_for_denom(
                coins@.subrange(i as int, n as int),
                denom@,
            ),
        decreases n - i,
    {
        proof {
            assert(coins@.subrange(i as int, n as int).drop_first() =~= coins@.subrange(
                i + 1,
                n as int,
            ));
            lemma_sum_for_denom_nonneg(coins@.subrange(i + 1, n as int), denom@);
        }
        if coins[i].denom.eq(denom) {
            amount = match amount.checked_add(coins[i].amount) {
                Some(v) => v,
                None => {
                    return Err(ContractError::Overflow {});
                },
            };
        }
        i = i + 1;
    }
    proof {
        assert(coins@.subrange(i as int, n as int).len() == 0);
    }
    Ok(Coin { amount, denom: denom.clone() })
}

/// What `validate_input_amount` decides: an external token needs no attached
/// funds (it is pulled by allowance), a native currency's attached total must
/// be at least the required amount.
pub open spec fn validate_input_outcome(
    funds: Seq<Coin>,
    given_amount: u128,
    given_denom: Denom,
) -> Result<(), ContractError> {
    match given_denom {
        Denom::Cw20(_) => Ok(()),
        Denom::Native(denom) => {
            if sum_for_denom(funds, denom@) > u128::MAX {
                Err(ContractError::Overflow {})
            } else if sum_for_denom(funds, denom@) < given_amount {
                Err(ContractError::InsufficientFunds {})
            } else {
                Ok(())
            }
        },
    }
}

/// Checks that the attached funds cover `given_amount` of `given_denom`.
pub fn validate_input_amount(
    actual_funds: &Vec<Coin>,
    given_amount: u128,
    given_denom: &Denom,
) -> (r: Result<(), ContractError>)
    ensures
        r == validate_input_outcome(actual_funds@, given_amount, *given_denom),
{
    match given_denom {
        Denom::Cw20(_) => Ok(()),
        Denom::Native(denom) => {
            let actual = get_amount_for_denom(actual_funds, denom)?;
            if actual.amount < given_amount {
                return Err(ContractError::InsufficientFunds {});
            }
            if !actual.denom.eq(denom) {
                return Err(
                    ContractError::IncorrectNativeDenom {
                        provided: actual.denom,
                        required: denom.clone(),
                    },
                );
            }
            Ok(())
        },
    }
}

/// The instruction that pulls `token_amount` of the token at `token_addr`
/// from `owner` into `recipient`, out of a prior allowance.
pub fn get_cw20_transfer_from_msg(
    owner: &String,
    recipient: &String,
    token_addr: &String,
    token_amount: u128,
) -> (r: Result<SettleMsg, ContractError>)
    ensures
        r == Ok::<SettleMsg, ContractError>(
            SettleMsg::Cw20TransferFrom {
                contract_addr: *token_addr,
                owner: *owner,
                recipient: *recipient,
                amount: token_amount,
            },
        ),
{
    Ok(
        SettleMsg::Cw20TransferFrom {
            contract_addr: token_addr.clone(),
            owner: owner.clone(),
            recipient: recipient.clone(),
            amount: token_amount,
        },
    )
}

/// The instruction that sends `token_amount` of the token at `token_addr`
/// from the pool to `recipient`.
pub fn get_cw20_transfer_to_msg(
    recipient: &String,
    token_addr: &String,
    token_amount: u128,
) -> (r: Result<SettleMsg, ContractError>)
    ensures
        r == Ok::<SettleMsg, ContractError>(
            SettleMsg::Cw20Transfer {
                contract_addr: *token_addr,
                recipient: *recipient,
                amount: token_amount,
            },
        ),
{
    Ok(
        SettleMsg::Cw20Transfer {
            contract_addr: token_addr.clone(),
            recipient: recipient.clone(),
            amount: token_amount,
        },
    )
}

/// The instruction that sends `native_amount` of the native currency `denom`
/// to `recipient`.
pub fn get_bank_transfer_to_msg(recipient: &String, denom: &String, native_amount: u128) -> (r:
    SettleMsg)
    ensures
        r == (SettleMsg::BankSend {
            to_address: *recipient,
            denom: *denom,
            amount: native_amount,
        }),
{
    SettleMsg::BankSend { to_address: recipient.clone(), denom: denom.clone(), amount: native_amount }
}

/// The instruction that burns `amount` liquidity tokens held by `owner`.
pub fn get_burn_msg(contract: &String, owner: &String, amount: u128) -> (r: Result<
    SettleMsg,
    ContractError,
>)
    ensures
        r == Ok::<SettleMsg, ContractError>(
            SettleMsg::Cw20BurnFrom { contract_addr: *contract, owner: *owner, amount },
        ),
{
    Ok(SettleMsg::Cw20BurnFrom { contract_addr: contract.clone(), owner: owner.clone(), amount })
}

/// The instruction that mints `liquidity_amount` new liquidity tokens to
/// `recipient`.
pub fn mint_lp_tokens(
    recipient: &String,
    liquidity_amount: u128,
    lp_token_address: &String,
) -> (r: Result<SettleMsg, ContractError>)
    ensures
        r == Ok::<SettleMsg, ContractError>(
            SettleMsg::Cw20Mint {
                contract_addr: *lp_token_address,
                recipient: *recipient,
                amount: liquidity_amount,
            },
        ),
{
    Ok(
        SettleMsg::Cw20Mint {
            contract_addr: lp_token_address.clone(),
            recipient: recipient.clone(),
            amount: liquidity_amount,
        },
    )
}

/// The settlement instructions of a successful liquidity deposit, in the
/// order the host executes them: pull externally held deposit legs in by
/// allowance, refund unspent native second-token funds, forward the fee to
/// the treasury, mint the liquidity tokens to the operator, and, for a
/// depositor who is neither operator nor treasury, register the doubled
/// grant with the bonding ledger.
pub open spec fn add_liquidity_msg_list(
    cfg: Config,
    token1: Token,
    token2: Token,
    lp_token_addr: String,
    info: MessageInfo,
    env: Env,
    token1_amount: u128,
    max_token2: u128,
    fee_amount: u128,
    liquidity_amount: u128,
    token2_amount: u128,
) -> Seq<SettleMsg> {
    let transfers_t1: Seq<SettleMsg> = match token1.denom {
        Denom::Cw20(addr) => seq![
            SettleMsg::Cw20TransferFrom {
                contract_addr: addr,
                owner: info.sender,
                recipient: env.contract_address,
                amount: token1_amount,
            },
        ],
        Denom::Native(_) => seq![],
    };
    let transfers_t2: Seq<SettleMsg> = match token2.denom {
        Denom::Cw20(addr) => seq![
            SettleMsg::Cw20TransferFrom {
                contract_addr: addr,
                owner: info.sender,
                recipient: env.contract_address,
                amount: token2_amount,
            },
        ],
        Denom::Native(_) => seq![],
    };
    let refund: Seq<SettleMsg> = match token2.denom {
        Denom::Native(denom) => if token2_amount < max_token2 {
            seq![
                SettleMsg::BankSend {
                    to_address: info.sender,
                    denom,
                    amount: (max_token2 - token2_amount) as u128,
                },
            ]
        } else {
            seq![]
        },
        Denom::Cw20(_) => seq![],
    };
    let fee: Seq<SettleMsg> = seq![
        crate::util::transfer_msg(token1.denom, fee_amount, cfg.treasury_address),
    ];
    let mint: Seq<SettleMsg> = seq![
        SettleMsg::Cw20Mint {
            contract_addr: lp_token_addr,
            recipient: cfg.owner,
            amount: liquidity_amount,
        },
    ];
    let bond: Seq<SettleMsg> = if info.sender@ != cfg.owner@ && info.sender@
        != cfg.treasury_address@ {
        seq![
            SettleMsg::LpBond {
                contract_addr: cfg.bonding_contract_address,
                address: info.sender,
                amount: (token2_amount * 2) as u128,
            },
        ]
    } else {
        seq![]
    };
    transfers_t1 + transfers_t2 + refund + fee + mint + bond
}

/// What a liquidity deposit does: the checks in the order the pool makes
/// them, and on success the two grown reserves and the settlement
/// instructions.
pub open spec fn add_liquidity_outcome(
    cfg: Config,
    token1: Token,
    token2: Token,
    lp_token_addr: String,
    lp_token_supply: u128,
    info: MessageInfo,
    env: Env,
    min_liquidity: u128,
    token1_amount: u128,
    max_token2: u128,
    fee_amount: u128,
    expiration: Option<Expiration>,
) -> Result<(Token, Token, Seq<SettleMsg>), ContractError> {
    if expiration matches Some(e) && is_expired(e, env.block) {
        Err(ContractError::MsgExpirationError {})
    } else if token1_amount + fee_amount > u128::MAX {
        Err(ContractError::Overflow {})
    } else {
        match validate_input_outcome(
            info.funds@,
            (token1_amount + fee_amount) as u128,
            token1.denom,
        ) {
            Err(e) => Err(e),
            Ok(_) => match validate_input_outcome(info.funds@, max_token2, token2.denom) {
                Err(e) => Err(e),
                Ok(_) => match mint_outcome(token1_amount, lp_token_supply, token1.reserve) {
                    Err(e) => Err(e),
                    Ok(liquidity_amount) => match token2_required_outcome(
                        max_token2,
                        token1_amount,
                        lp_token_supply,
                        token2.reserve,
                        token1.reserve,
                    ) {
                        Err(e) => Err(e),
                        Ok(token2_amount) => {
                            if liquidity_amount < min_liquidity {
                                Err(
                                    ContractError::MinLiquidityError {
                                        min_liquidity,
                                        liquidity_available: liquidity_amount,
                                    },
                                )
                            } else if token2_amount > max_token2 {
                                Err(
                                    ContractError::MaxTokenError {
                                        max_token: max_token2,
                                        tokens_required: token2_amount,
                                    },
                                )
                            } else if token1.reserve + token1_amount > u128::MAX {
                                Err(ContractError::Overflow {})
                            } else if token2.reserve + token2_amount > u128::MAX {
                                Err(ContractError::Overflow {})
                            } else if token1_amount * (cfg.platform_fee + cfg.tx_fee) * 2
                                > u128::MAX {
                                Err(ContractError::Overflow {})
                            } else if fee_amount < token1_amount * (cfg.platform_fee + cfg.tx_fee)
                                * 2 / (THOUSAND as int) {
                                Err(ContractError::InsufficientFee {})
                            } else if info.sender@ != cfg.owner@ && info.sender@
                                != cfg.treasury_address@ && token2_amount * 2 > u128::MAX {
                                Err(ContractError::Overflow {})
                            } else {
                                Ok(
                                    (
                                        Token {
                                            reserve: (token1.reserve + token1_amount) as u128,
                                            denom: token1.denom,
                                        },
                                        Token {
                                            reserve: (token2.reserve + token2_amount) as u128,
                                            denom: token2.denom,
                                        },
                                        add_liquidity_msg_list(
                                            cfg,
                                            token1,
                                            token2,
                                            lp_token_addr,
                                            info,
                                            env,
                                            token1_amount,
                                            max_token2,
                                            fee_amount,
                                            liquidity_amount,
                                            token2_amount,
                                        ),
                                    ),
                                )
                            }
                        },
                    },
                },
            },
        }
    }
}

/// Adds liquidity: takes `token1_amount` of the first token plus the fee and
/// up to `max_token2` of the second, grows both reserves, mints liquidity
/// tokens to the operator, and for an outside depositor schedules the
/// doubled pool-mode bonding grant.
///
/// On any failed check the reserves are unchanged and the whole request is
/// rejected with the matching error.
pub fn execute_add_liquidity(
    cfg: &Config,
    token1: &mut Token,
    token2: &mut Token,
    lp_token_addr: &String,
    lp_token_supply: u128,
    info: &MessageInfo,
    env: &Env,
    min_liquidity: u128,
    token1_amount: u128,
    max_token2: u128,
    fee_amount: u128,
    expiration: &Option<Expiration>,
) -> (r: Result<Response, ContractError>)
    ensures
        ({
            let o = add_liquidity_outcome(
                *cfg,
                *old(token1),
                *old(token2),
                *lp_token_addr,
                lp_token_supply,
                *info,
                *env,
                min_liquidity,
                token1_amount,
                max_token2,
                fee_amount,
                *expiration,
            );
            match o {
                Ok(next) => (r matches Ok(resp) && *final(token1) == next.0 && *final(token2)
                    == next.1 && resp.messages@ == next.2),
                Err(e) => r == Err::<Response, ContractError>(e) && *final(token1) == *old(token1)
                    && *final(token2) == *old(token2),
            }
        }),
{
    check_expiration(expiration, &env.block)?;

    let t1_plus_fee = match token1_amount.checked_add(fee_amount) {
        Some(v) => v,
        None => {
            return Err(ContractError::Overflow {});
        },
    };
    validate_input_amount(&info.funds, t1_plus_fee, &token1.denom)?;
    validate_input_amount(&info.funds, max_token2, &token2.denom)?;

    let liquidity_amount = get_lp_token_amount_to_mint(
        token1_amount,
        lp_token_supply,
        token1.reserve,
    )?;
    let token2_amount = get_token2_amount_required(
        max_token2,
        token1_amount,
        lp_token_supply,
        token2.reserve,
        token1.reserve,
    )?;

    if liquidity_amount < min_liquidity {
        return Err(
            ContractError::MinLiquidityError { min_liquidity, liquidity_available: liquidity_amount },
        );
    }
    if token2_amount > max_token2 {
        return Err(
            ContractError::MaxTokenError { max_token: max_token2, tokens_required: token2_amount },
        );
    }

    let new_reserve1 = match token1.reserve.checked_add(token1_amount) {
        Some(v) => v,
        None => {
            return Err(ContractError::Overflow {});
        },
    };
    let new_reserve2 = match token2.reserve.checked_add(token2_amount) {
        Some(v) => v,
        None => {
            return Err(ContractError::Overflow {});
        },
    };

    // the fee must cover twice the combined platform and transaction rate
    let rate: u128 = (cfg.platform_fee as u128) + (cfg.tx_fee as u128);
    let fee_basis = match token1_amount.checked_mul(rate) {
        Some(v) => v,
        None => {
            return Err(ContractError::Overflow {});
        },
    };
    let fee_basis = match fee_basis.checked_mul(2) {
        Some(v) => v,
        None => {
            return Err(ContractError::Overflow {});
        },
    };
    if fee_amount < fee_basis / 1000 {
        return Err(ContractError::InsufficientFee {});
    }

    let is_outside_depositor = !info.sender.eq(&cfg.owner) && !info.sender.eq(
        &cfg.treasury_address,
    );
    let bond_amount: u128 = if is_outside_depositor {
        match token2_amount.checked_mul(2) {
            Some(v) => v,
            None => {
                return Err(ContractError::Overflow {});
            },
        }
    } else {
        0
    };

    let mut messages: Vec<SettleMsg> = Vec::new();
    match &token1.denom {
        Denom::Cw20(addr) => {
            let m = get_cw20_transfer_from_msg(
                &info.sender,
                &env.contract_address,
                addr,
                token1_amount,
            )?;
            messages.push(m);
        },
        Denom::Native(_) => {},
    }
    match &token2.denom {
        Denom::Cw20(addr) => {
            let m = get_cw20_transfer_from_msg(
                &info.sender,
                &env.contract_address,
                addr,
                token2_amount,
            )?;
            messages.push(m);
        },
        Denom::Native(denom) => {
            // refund whatever of the native allowance was not required
            if token2_amount < max_token2 {
                let m = get_bank_transfer_to_msg(&info.sender, denom, max_token2 - token2_amount);
                messages.push(m);
            }
        },
    }
    let fee_msg = crate::util::transfer_token_message(
        clone_denom(&token1.denom),
        fee_amount,
        cfg.treasury_address.clone(),
    )?;
    messages.push(fee_msg);
    let mint_msg = mint_lp_tokens(&cfg.owner, liquidity_amount, lp_token_addr)?;
    messages.push(mint_msg);
    if is_outside_depositor {
        messages.push(
            SettleMsg::LpBond {
                contract_addr: cfg.bonding_contract_address.clone(),
                address: info.sender.clone(),
                amount: bond_amount,
            },
        );
    }

    token1.reserve = new_reserve1;
    token2.reserve = new_reserve2;

    proof {
        assert(messages@ =~= add_liquidity_msg_list(
            *cfg,
            *old(token1),
            *old(token2),
            *lp_token_addr,
            *info,
            *env,
            token1_amount,
            max_token2,
            fee_amount,
            liquidity_amount,
            token2_amount,
        ));
    }
    Ok(Response { messages })
}

/// What a proportional liquidity redemption does: each reserve pays out the
/// redeemed share of the liquidity supply, rounded down, and the redeemed
/// liquidity tokens are burned.
pub open spec fn remove_liquidity_outcome(
    token1: Token,
    token2: Token,
    lp_token_addr: String,
    lp_token_supply: u128,
    sender_lp_balance: u128,
    info: MessageInfo,
    env: Env,
    amount: u128,
    min_token1: u128,
    min_token2: u128,
    expiration: Option<Expiration>,
) -> Result<(Token, Token, Seq<SettleMsg>), ContractError> {
    if expiration matches Some(e) && is_expired(e, env.block) {
        Err(ContractError::MsgExpirationError {})
    } else if amount > sender_lp_balance {
        Err(
            ContractError::InsufficientLiquidityError {
                requested: amount,
                available: sender_lp_balance,
            },
        )
    } else if amount * token1.reserve > u128::MAX {
        Err(ContractError::Overflow {})
    } else if lp_token_supply == 0 {
        Err(ContractError::DivideByZero {})
    } else {
        let token1_amount = amount * token1.reserve / lp_token_supply as int;
        if token1_amount < min_token1 {
            Err(
                ContractError::MinToken1Error {
                    requested: min_token1,
                    available: token1_amount as u128,
                },
            )
        } else if amount * token2.reserve > u128::MAX {
            Err(ContractError::Overflow {})
        } else {
            let token2_amount = amount * token2.reserve / lp_token_supply as int;
            if token2_amount < min_token2 {
                Err(
                    ContractError::MinToken2Error {
                        requested: min_token2,
                        available: token2_amount as u128,
                    },
                )
            } else if token1.reserve < token1_amount {
                Err(ContractError::Overflow {})
            } else if token2.reserve < token2_amount {
                Err(ContractError::Overflow {})
            } else {
                let m1 = match token1.denom {
                    Denom::Cw20(addr) => SettleMsg::Cw20Transfer {
                        contract_addr: addr,
                        recipient: info.sender,
                        amount: token1_amount as u128,
                    },
                    Denom::Native(denom) => SettleMsg::BankSend {
                        to_address: info.sender,
                        denom,
                        amount: token1_amount as u128,
                    },
                };
                let m2 = match token2.denom {
                    Denom::Cw20(addr) => SettleMsg::Cw20Transfer {
                        contract_addr: addr,
                        recipient: info.sender,
                        amount: token2_amount as u128,
                    },
                    Denom::Native(denom) => SettleMsg::BankSend {
                        to_address: info.sender,
                        denom,
                        amount: token2_amount as u128,
                    },
                };
                let burn = SettleMsg::Cw20BurnFrom {
                    contract_addr: lp_token_addr,
                    owner: info.sender,
                    amount,
                };
                Ok(
                    (
                        Token {
                            reserve: (token1.reserve - token1_amount) as u128,
                            denom: token1.denom,
                        },
                        Token {
                            reserve: (token2.reserve - token2_amount) as u128,
                            denom: token2.denom,
                        },
                        seq![m1, m2, burn],
                    ),
                )
            }
        }
    }
}

/// Redeems `amount` liquidity tokens for the proportional share of both
/// reserves, burning the redeemed tokens.
///
/// On any failed check the reserves are unchanged and the whole request is
/// rejected with the matching error.
pub fn execute_remove_liquidity(
    token1: &mut Token,
    token2: &mut Token,
    lp_token_addr: &String,
    lp_token_supply: u128,
    sender_lp_balance: u128,
    info: &MessageInfo,
    env: &Env,
    amount: u128,
    min_token1: u128,
    min_token2: u128,
    expiration: &Option<Expiration>,
) -> (r: Result<Response, ContractError>)
    ensures
        ({
            let o = remove_liquidity_outcome(
                *old(token1),
                *old(token2),
                *lp_token_addr,
                lp_token_supply,
                sender_lp_balance,
                *info,
                *env,
                amount,
                min_token1,
                min_token2,
                *expiration,
            );
            match o {
                Ok(next) => (r matches Ok(resp) && *final(token1) == next.0 && *final(token2)
                    == next.1 && resp.messages@ == next.2),
                Err(e) => r == Err::<Response, ContractError>(e) && *final(token1) == *old(token1)
                    && *final(token2) == *old(token2),
            }
        }),
{
    check_expiration(expiration, &env.block)?;

    if amount > sender_lp_balance {
        return Err(
            ContractError::InsufficientLiquidityError {
                requested: amount,
                available: sender_lp_balance,
            },
        );
    }

    let product1 = match amount.checked_mul(token1.reserve) {
        Some(v) => v,
        None => {
            return Err(ContractError::Overflow {});
        },
    };
    let token1_amount = match product1.checked_div(lp_token_supply) {
        Some(v) => v,
        None => {
            return Err(ContractError::DivideByZero {});
        },
    };
    if token1_amount < min_token1 {
        return Err(
            ContractError::MinToken1Error { requested: min_token1, available: token1_amount },
        );
    }

    let product2 = match amount.checked_mul(token2.reserve) {
        Some(v) => v,
        None => {
            return Err(ContractError::Overflow {});
        },
    };
    let token2_amount = match product2.checked_div(lp_token_supply) {
        Some(v) => v,
        None => {
            return Err(ContractError::DivideByZero {});
        },
    };
    if token2_amount < min_token2 {
        return Err(
            ContractError::MinToken2Error { requested: min_token2, available: token2_amount },
        );
    }

    let new_reserve1 = match token1.reserve.checked_sub(token1_amount) {
        Some(v) => v,
        None => {
            return Err(ContractError::Overflow {});
        },
    };
    let new_reserve2 = match token2.reserve.checked_sub(token2_amount) {
        Some(v) => v,
        None => {
            return Err(ContractError::Overflow {});
        },
    };

    let mut messages: Vec<SettleMsg> = Vec::new();
    let m1 = match &token1.denom {
        Denom::Cw20(addr) => get_cw20_transfer_to_msg(&info.sender, addr, token1_amount)?,
        Denom::Native(denom) => get_bank_transfer_to_msg(&info.sender, denom, token1_amount),
    };
    messages.push(m1);
    let m2 = match &token2.denom {
        Denom::Cw20(addr) => get_cw20_transfer_to_msg(&info.sender, addr, token2_amount)?,
        Denom::Native(denom) => get_bank_transfer_to_msg(&info.sender, denom, token2_amount),
    };
    messages.push(m2);
    let burn = get_burn_msg(lp_token_addr, &info.sender, amount)?;
    messages.push(burn);

    token1.reserve = new_reserve1;
    token2.reserve = new_reserve2;

    Ok(Response { messages })
}

/// What a swap does: the attached funds are checked (input plus fee for a
/// first-token sale, the fee alone for a second-token sale), the output is
/// priced by the constant-product formula, the fee floor is checked on the
/// input amount when selling the first token and on the bought amount when
/// selling the second, and on success the input reserve grows while the
/// output reserve pays out.
pub open spec fn swap_outcome(
    cfg: Config,
    token1: Token,
    token2: Token,
    info: MessageInfo,
    env: Env,
    input_token: TokenSelect,
    recipient: String,
    input_amount: u128,
    min_token: u128,
    fee_amount: u128,
    expiration: Option<Expiration>,
) -> Result<(Token, Token, Seq<SettleMsg>), ContractError> {
    let input = match input_token {
        TokenSelect::Token1 => token1,
        TokenSelect::Token2 => token2,
    };
    let output = match input_token {
        TokenSelect::Token1 => token2,
        TokenSelect::Token2 => token1,
    };
    if expiration matches Some(e) && is_expired(e, env.block) {
        Err(ContractError::MsgExpirationError {})
    } else if input_token matches TokenSelect::Token1 && input_amount + fee_amount > u128::MAX {
        Err(ContractError::Overflow {})
    } else {
        let checked_amount = match input_token {
            TokenSelect::Token1 => (input_amount + fee_amount) as u128,
            TokenSelect::Token2 => fee_amount,
        };
        match validate_input_outcome(info.funds@, checked_amount, input.denom) {
            Err(e) => Err(e),
            Ok(_) => match input_price_outcome(input_amount, input.reserve, output.reserve) {
                Err(e) => Err(e),
                Ok(token_bought) => {
                    if min_token > token_bought {
                        Err(ContractError::SwapMinError { min: min_token, available: token_bought })
                    } else {
                        let fee_basis = match input_token {
                            TokenSelect::Token1 => input_amount,
                            TokenSelect::Token2 => token_bought,
                        };
                        if fee_basis * (cfg.platform_fee + cfg.tx_fee) > u128::MAX {
                            Err(ContractError::Overflow {})
                        } else if fee_amount < fee_basis * (cfg.platform_fee + cfg.tx_fee) / (
                        THOUSAND as int) {
                            Err(ContractError::InsufficientFee {})
                        } else if input.reserve + input_amount > u128::MAX {
                            Err(ContractError::Overflow {})
                        } else if output.reserve < token_bought {
                            Err(ContractError::Overflow {})
                        } else {
                            let pull: Seq<SettleMsg> = match input.denom {
                                Denom::Cw20(addr) => seq![
                                    SettleMsg::Cw20TransferFrom {
                                        contract_addr: addr,
                                        owner: info.sender,
                                        recipient: env.contract_address,
                                        amount: input_amount,
                                    },
                                ],
                                Denom::Native(_) => seq![],
                            };
                            let out_msg = match output.denom {
                                Denom::Cw20(addr) => SettleMsg::Cw20Transfer {
                                    contract_addr: addr,
                                    recipient,
                                    amount: token_bought,
                                },
                                Denom::Native(denom) => SettleMsg::BankSend {
                                    to_address: recipient,
                                    denom,
                                    amount: token_bought,
                                },
                            };
                            let fee_msg = crate::util::transfer_msg(
                                Denom::Native(cfg.usdc_denom),
                                fee_amount,
                                cfg.treasury_address,
                            );
                            let new_input = Token {
                                reserve: (input.reserve + input_amount) as u128,
                                denom: input.denom,
                            };
                            let new_output = Token {
                                reserve: (output.reserve - token_bought) as u128,
                                denom: output.denom,
                            };
                            let next = match input_token {
                                TokenSelect::Token1 => (new_input, new_output),
                                TokenSelect::Token2 => (new_output, new_input),
                            };
                            Ok((next.0, next.1, pull + seq![out_msg, fee_msg]))
                        }
                    }
                },
            },
        }
    }
}

/// Swaps `input_amount` of the selected token for the other at the
/// constant-product price, paying the bought amount to `recipient` and the
/// fee, in the settlement currency, to the treasury.
///
/// On any failed check the reserves are unchanged and the whole request is
/// rejected with the matching error.
pub fn execute_swap(
    cfg: &Config,
    token1: &mut Token,
    token2: &mut Token,
    info: &MessageInfo,
    env: &Env,
    input_token: TokenSelect,
    recipient: &String,
    input_amount: u128,
    min_token: u128,
    fee_amount: u128,
    expiration: &Option<Expiration>,
) -> (r: Result<Response, ContractError>)
    ensures
        ({
            let o = swap_outcome(
                *cfg,
                *old(token1),
                *old(token2),
                *info,
                *env,
                input_token,
                *recipient,
                input_amount,
                min_token,
                fee_amount,
                *expiration,
            );
            match o {
                Ok(next) => (r matches Ok(resp) && *final(token1) == next.0 && *final(token2)
                    == next.1 && resp.messages@ == next.2),
                Err(e) => r == Err::<Response, ContractError>(e) && *final(token1) == *old(token1)
                    && *final(token2) == *old(token2),
            }
        }),
{
    check_expiration(expiration, &env.block)?;

    let in_reserve = match input_token {
        TokenSelect::Token1 => token1.reserve,
        TokenSelect::Token2 => token2.reserve,
    };
    let out_reserve = match input_token {
        TokenSelect::Token1 => token2.reserve,
        TokenSelect::Token2 => token1.reserve,
    };
    let input_denom = match input_token {
        TokenSelect::Token1 => clone_denom(&token1.denom),
        TokenSelect::Token2 => clone_denom(&token2.denom),
    };
    let output_denom = match input_token {
        TokenSelect::Token1 => clone_denom(&token2.denom),
        TokenSelect::Token2 => clone_denom(&token1.denom),
    };

    match input_token {
        TokenSelect::Token1 => {
            let with_fee = match input_amount.checked_add(fee_amount) {
                Some(v) => v,
                None => {
                    return Err(ContractError::Overflow {});
                },
            };
            validate_input_amount(&info.funds, with_fee, &input_denom)?;
        },
        TokenSelect::Token2 => {
            validate_input_amount(&info.funds, fee_amount, &input_denom)?;
        },
    }

    let token_bought = get_input_price(input_amount, in_reserve, out_reserve)?;

    if min_token > token_bought {
        return Err(ContractError::SwapMinError { min: min_token, available: token_bought });
    }

    let rate: u128 = (cfg.platform_fee as u128) + (cfg.tx_fee as u128);
    let fee_basis = match input_token {
        TokenSelect::Token1 => input_amount,
        TokenSelect::Token2 => token_bought,
    };
    let fee_floor = match fee_basis.checked_mul(rate) {
        Some(v) => v,
        None => {
            return Err(ContractError::Overflow {});
        },
    };
    if fee_amount < fee_floor / 1000 {
        return Err(ContractError::InsufficientFee {});
    }

    let new_in_reserve = match in_reserve.checked_add(input_amount) {
        Some(v) => v,
        None => {
            return Err(ContractError::Overflow {});
        },
    };
    let new_out_reserve = match out_reserve.checked_sub(token_bought) {
        Some(v) => v,
        None => {
            return Err(ContractError::Overflow {});
        },
    };

    let mut messages: Vec<SettleMsg> = Vec::new();
    match &input_denom {
        Denom::Cw20(addr) => {
            let m = get_cw20_transfer_from_msg(
                &info.sender,
                &env.contract_address,
                addr,
                input_amount,
            )?;
            messages.push(m);
        },
        Denom::Native(_) => {},
    }
    let out_msg = match &output_denom {
        Denom::Cw20(addr) => get_cw20_transfer_to_msg(recipient, addr, token_bought)?,
        Denom::Native(denom) => get_bank_transfer_to_msg(recipient, denom, token_bought),
    };
    messages.push(out_msg);
    let fee_msg = crate::util::transfer_token_message(
        Denom::Native(cfg.usdc_denom.clone()),
        fee_amount,
        cfg.treasury_address.clone(),
    )?;
    messages.push(fee_msg);

    match input_token {
        TokenSelect::Token1 => {
            token1.reserve = new_in_reserve;
            token2.reserve = new_out_reserve;
        },
        TokenSelect::Token2 => {
            token2.reserve = new_in_reserve;
            token1.reserve = new_out_reserve;
        },
    }

    Ok(Response { messages })
}

/// What an operator-only reserve top-up does: funds are validated for the
/// first token (the second is pulled by allowance), and the selected reserve
/// grows by `amount` with no ratio check.
pub open spec fn add_token_outcome(
    cfg: Config,
    token1: Token,
    token2: Token,
    info: MessageInfo,
    env: Env,
    input_token: TokenSelect,
    amount: u128,
) -> Result<(Token, Token, Seq<SettleMsg>), ContractError> {
    let input = match input_token {
        TokenSelect::Token1 => token1,
        TokenSelect::Token2 => token2,
    };
    if cfg.owner@ != info.sender@ {
        Err(ContractError::Unauthorized {})
    } else {
        let vres = match input_token {
            TokenSelect::Token1 => validate_input_outcome(info.funds@, amount, input.denom),
            TokenSelect::Token2 => Ok(()),
        };
        match vres {
            Err(e) => Err(e),
            Ok(_) => {
                if input.reserve + amount > u128::MAX {
                    Err(ContractError::Overflow {})
                } else {
                    let pull: Seq<SettleMsg> = match input.denom {
                        Denom::Cw20(addr) => seq![
                            SettleMsg::Cw20TransferFrom {
                                contract_addr: addr,
                                owner: info.sender,
                                recipient: env.contract_address,
                                amount,
                            },
                        ],
                        Denom::Native(_) => seq![],
                    };
                    let new_input = Token {
                        reserve: (input.reserve + amount) as u128,
                        denom: input.denom,
                    };
                    let next = match input_token {
                        TokenSelect::Token1 => (new_input, token2),
                        TokenSelect::Token2 => (token1, new_input),
                    };
                    Ok((next.0, next.1, pull))
                }
            },
        }
    }
}

/// Operator-only top-up of one reserve, used for manual rebalancing.
pub fn execute_add_token(
    cfg: &Config,
    token1: &mut Token,
    token2: &mut Token,
    info: &MessageInfo,
    env: &Env,
    input_token: TokenSelect,
    amount: u128,
) -> (r: Result<Response, ContractError>)
    ensures
        ({
            let o = add_token_outcome(
                *cfg,
                *old(token1),
                *old(token2),
                *info,
                *env,
                input_token,
                amount,
            );
            match o {
                Ok(next) => (r matches Ok(resp) && *final(token1) == next.0 && *final(token2)
                    == next.1 && resp.messages@ == next.2),
                Err(e) => r == Err::<Response, ContractError>(e) && *final(token1) == *old(token1)
                    && *final(token2) == *old(token2),
            }
        }),
{
    if !cfg.owner.eq(&info.sender) {
        return Err(ContractError::Unauthorized {});
    }

    let input_denom = match input_token {
        TokenSelect::Token1 => clone_denom(&token1.denom),
        TokenSelect::Token2 => clone_denom(&token2.denom),
    };
    match input_token {
        TokenSelect::Token1 => {
            validate_input_amount(&info.funds, amount, &input_denom)?;
        },
        TokenSelect::Token2 => {},
    }

    let in_reserve = match input_token {
        TokenSelect::Token1 => token1.reserve,
        TokenSelect::Token2 => token2.reserve,
    };
    let new_reserve = match in_reserve.checked_add(amount) {
        Some(v) => v,
        None => {
            return Err(ContractError::Overflow {});
        },
    };

    let mut messages: Vec<SettleMsg> = Vec::new();
    match &input_denom {
        Denom::Cw20(addr) => {
            let m = get_cw20_transfer_from_msg(&info.sender, &env.contract_address, addr, amount)?;
            messages.push(m);
        },
        Denom::Native(_) => {},
    }

    match input_token {
        TokenSelect::Token1 => {
            token1.reserve = new_reserve;
        },
        TokenSelect::Token2 => {
            token2.reserve = new_reserve;
        },
    }

    Ok(Response { messages })
}

/// What an operator-only configuration update does.
pub open spec fn update_config_outcome(
    cfg: Config,
    info: MessageInfo,
    owner: String,
    bonding_contract_address: String,
    treasury_address: String,
) -> Result<Config, ContractError> {
    if info.sender@ != cfg.owner@ {
        Err(ContractError::Unauthorized {})
    } else {
        Ok(Config { owner, bonding_contract_address, treasury_address, ..cfg })
    }
}

/// Operator-only update of the operator, bonding-ledger and treasury
/// addresses.
pub fn execute_update_config(
    info: &MessageInfo,
    cfg: &mut Config,
    owner: String,
    bonding_contract_address: String,
    treasury_address: String,
) -> (r: Result<Response, ContractError>)
    ensures
        match update_config_outcome(
            *old(cfg),
            *info,
            owner,
            bonding_contract_address,
            treasury_address,
        ) {
            Ok(c) => (r matches Ok(resp) && resp.messages@ == Seq::<SettleMsg>::empty()
                && *final(cfg) == c),
            Err(e) => r == Err::<Response, ContractError>(e) && *final(cfg) == *old(cfg),
        },
{
    if !info.sender.eq(&cfg.owner) {
        return Err(ContractError::Unauthorized {});
    }
    cfg.owner = owner;
    cfg.bonding_contract_address = bonding_contract_address;
    cfg.treasury_address = treasury_address;
    let messages: Vec<SettleMsg> = Vec::new();
    proof {
        assert(messages@ =~= Seq::<SettleMsg>::empty());
    }
    Ok(Response { messages })
}

/// Creates the pool: both reserves start empty (the first token native in
/// the settlement currency, the second the payout token contract), the
/// operator is provisionally recorded as the bonding address, and the host
/// is asked to instantiate the liquidity-token contract with the pool as its
/// minter.
pub fn instantiate(env: &Env, msg: InstantiateMsg) -> (r: (Config, Token, Token, SettleMsg))
    ensures
        r.0 == (Config {
            owner: msg.owner,
            bonding_code_id: msg.bonding_code_id,
            bonding_contract_address: msg.owner,
            fury_token_address: msg.fury_token_address,
            treasury_address: msg.treasury_address,
            usdc_denom: msg.usdc_denom,
            tx_fee: msg.tx_fee,
            platform_fee: msg.platform_fee,
            lock_seconds: msg.lock_seconds,
            discount: msg.discount,
            daily_vesting_amount: msg.daily_vesting_amount,
        }),
        r.1 == (Token { reserve: 0, denom: Denom::Native(msg.usdc_denom) }),
        r.2 == (Token { reserve: 0, denom: Denom::Cw20(msg.fury_token_address) }),
        r.3 == (SettleMsg::InstantiateLpToken {
            code_id: msg.lp_token_code_id,
            minter: env.contract_address,
        }),
{
    let config = Config {
        owner: msg.owner.clone(),
        bonding_code_id: msg.bonding_code_id,
        bonding_contract_address: msg.owner,
        fury_token_address: msg.fury_token_address.clone(),
        treasury_address: msg.treasury_address,
        usdc_denom: msg.usdc_denom.clone(),
        tx_fee: msg.tx_fee,
        platform_fee: msg.platform_fee,
        lock_seconds: msg.lock_seconds,
        discount: msg.discount,
        daily_vesting_amount: msg.daily_vesting_amount,
    };
    let token1 = Token { reserve: 0, denom: Denom::Native(msg.usdc_denom) };
    let token2 = Token { reserve: 0, denom: Denom::Cw20(msg.fury_token_address) };
    let lp_msg = SettleMsg::InstantiateLpToken {
        code_id: msg.lp_token_code_id,
        minter: env.contract_address.clone(),
    };
    (config, token1, token2, lp_msg)
}

/// Routes one state-changing request to its handler. `lp_token_supply` and
/// `sender_lp_balance` are the liquidity-token contract's total supply and
/// the sender's holding, read from that contract by the host.
pub fn execute(
    cfg: &mut Config,
    token1: &mut Token,
    token2: &mut Token,
    lp_token_addr: &String,
    lp_token_supply: u128,
    sender_lp_balance: u128,
    info: &MessageInfo,
    env: &Env,
    msg: ExecuteMsg,
) -> (r: Result<Response, ContractError>)
    ensures
        match msg {
            ExecuteMsg::UpdateConfig { owner, bonding_contract_address, treasury_address } => {
                &&& *final(token1) == *old(token1)
                &&& *final(token2) == *old(token2)
                &&& match update_config_outcome(
                    *old(cfg),
                    *info,
                    owner,
                    bonding_contract_address,
                    treasury_address,
                ) {
                    Ok(c) => (r matches Ok(resp) && resp.messages@ == Seq::<SettleMsg>::empty()
                        && *final(cfg) == c),
                    Err(e) => r == Err::<Response, ContractError>(e) && *final(cfg) == *old(cfg),
                }
            },
            ExecuteMsg::AddLiquidity {
                token1_amount,
                min_liquidity,
                max_token2,
                fee_amount,
                expiration,
            } => {
                &&& *final(cfg) == *old(cfg)
                &&& match add_liquidity_outcome(
                    *old(cfg),
                    *old(token1),
                    *old(token2),
                    *lp_token_addr,
                    lp_token_supply,
                    *info,
                    *env,
                    min_liquidity,
                    token1_amount,
                    max_token2,
                    fee_amount,
                    expiration,
                ) {
                    Ok(next) => (r matches Ok(resp) && *final(token1) == next.0 && *final(token2)
                        == next.1 && resp.messages@ == next.2),
                    Err(e) => r == Err::<Response, ContractError>(e) && *final(token1) == *old(
                        token1,
                    ) && *final(token2) == *old(token2),
                }
            },
            ExecuteMsg::RemoveLiquidity { amount, min_token1, min_token2, expiration } => {
                &&& *final(cfg) == *old(cfg)
                &&& match remove_liquidity_outcome(
                    *old(token1),
                    *old(token2),
                    *lp_token_addr,
                    lp_token_supply,
                    sender_lp_balance,
                    *info,
                    *env,
                    amount,
                    min_token1,
                    min_token2,
                    expiration,
                ) {
                    Ok(next) => (r matches Ok(resp) && *final(token1) == next.0 && *final(token2)
                        == next.1 && resp.messages@ == next.2),
                    Err(e) => r == Err::<Response, ContractError>(e) && *final(token1) == *old(
                        token1,
                    ) && *final(token2) == *old(token2),
                }
            },
            ExecuteMsg::Swap { input_token, input_amount, min_output, fee_amount, expiration } => {
                &&& *final(cfg) == *old(cfg)
                &&& match swap_outcome(
                    *old(cfg),
                    *old(token1),
                    *old(token2),
                    *info,
                    *env,
                    input_token,
                    info.sender,
                    input_amount,
                    min_output,
                    fee_amount,
                    expiration,
                ) {
                    Ok(next) => (r matches Ok(resp) && *final(token1) == next.0 && *final(token2)
                        == next.1 && resp.messages@ == next.2),
                    Err(e) => r == Err::<Response, ContractError>(e) && *final(token1) == *old(
                        token1,
                    ) && *final(token2) == *old(token2),
                }
            },
            ExecuteMsg::AddToken { input_token, amount } => {
                &&& *final(cfg) == *old(cfg)
                &&& match add_token_outcome(
                    *old(cfg),
                    *old(token1),
                    *old(token2),
                    *info,
                    *env,
                    input_token,
                    amount,
                ) {
                    Ok(next) => (r matches Ok(resp) && *final(token1) == next.0 && *final(token2)
                        == next.1 && resp.messages@ == next.2),
                    Err(e) => r == Err::<Response, ContractError>(e) && *final(token1) == *old(
                        token1,
                    ) && *final(token2) == *old(token2),
                }
            },
        },
{
    match msg {
        ExecuteMsg::UpdateConfig { owner, bonding_contract_address, treasury_address } => {
            execute_update_config(info, cfg, owner, bonding_contract_address, treasury_address)
        },
        ExecuteMsg::AddLiquidity {
            token1_amount,
            min_liquidity,
            max_token2,
            fee_amount,
            expiration,
        } => execute_add_liquidity(
            cfg,
            token1,
            token2,
            lp_token_addr,
            lp_token_supply,
            info,
            env,
            min_liquidity,
            token1_amount,
            max_token2,
            fee_amount,
            &expiration,
        ),
        ExecuteMsg::RemoveLiquidity { amount, min_token1, min_token2, expiration } => {
            execute_remove_liquidity(
                token1,
                token2,
                lp_token_addr,
                lp_token_supply,
                sender_lp_balance,
                info,
                env,
                amount,
                min_token1,
                min_token2,
                &expiration,
            )
        },
        ExecuteMsg::Swap { input_token, input_amount, min_output, fee_amount, expiration } => {
            let recipient = info.sender.clone();
            execute_swap(
                cfg,
                token1,
                token2,
                info,
                env,
                input_token,
                &recipient,
                input_amount,
                min_output,
                fee_amount,
                &expiration,
            )
        },
        ExecuteMsg::AddToken { input_token, amount } => {
            execute_add_token(cfg, token1, token2, info, env, input_token, amount)
        },
    }
}

/// The correlation id of the deferred liquidity-token instantiation.
pub const INSTANTIATE_LP_TOKEN_REPLY_ID: u64 = 0;

/// The correlation id of the deferred bonding-ledger instantiation.
pub const INSTANTIATE_BONDING_ID: u64 = 1;

/// What the deferred-callback handler hands back: the liquidity-token
/// address to persist, if this callback carried it, and the follow-up
/// instructions.
#[derive(Debug)]
pub struct ReplyResponse {
    pub lp_token_address: Option<String>,
    pub messages: Vec<SettleMsg>,
}

/// What the deferred-callback handler decides for a callback with
/// correlation id `id` whose sub-call reported `contract_address` (`None`
/// when the host's reply could not be parsed).
pub open spec fn reply_outcome(
    cfg: Config,
    env: Env,
    id: u64,
    contract_address: Option<String>,
) -> Result<(Config, Option<String>, Seq<SettleMsg>), ContractError> {
    if id != INSTANTIATE_LP_TOKEN_REPLY_ID && id != INSTANTIATE_BONDING_ID {
        Err(ContractError::UnknownReplyId { id })
    } else {
        match contract_address {
            None => Err(ContractError::InstantiateLpTokenError {}),
            Some(addr) => {
                if id == INSTANTIATE_LP_TOKEN_REPLY_ID {
                    Ok(
                        (
                            cfg,
                            Some(addr),
                            seq![
                                SettleMsg::InstantiateBonding {
                                    code_id: cfg.bonding_code_id,
                                    admin: cfg.owner,
                                    msg: crate::bonding::InstantiateMsg {
                                        owner: cfg.owner,
                                        pool_address: env.contract_address,
                                        treasury_address: cfg.treasury_address,
                                        fury_token_address: cfg.fury_token_address,
                                        usdc_denom: cfg.usdc_denom,
                                        lock_seconds: cfg.lock_seconds,
                                        discount: cfg.discount,
                                        tx_fee: cfg.tx_fee,
                                        platform_fee: cfg.platform_fee,
                                        daily_vesting_amount: cfg.daily_vesting_amount,
                                        is_native_bonding: false,
                                    },
                                },
                            ],
                        ),
                    )
                } else {
                    Ok((Config { bonding_contract_address: addr, ..cfg }, None, seq![]))
                }
            },
        }
    }
}

/// Handles the deferred callbacks of the pool's two follow-up
/// instantiations: on the liquidity token's callback it reports the token's
/// address for persistence and schedules the bonding ledger's
/// instantiation; on the bonding ledger's callback it records that ledger's
/// address in the configuration.
///
/// `contract_address` is the instantiated contract's validated address as
/// parsed by the host from the sub-call's reply, or `None` when that reply
/// could not be parsed.
pub fn reply(cfg: &mut Config, env: &Env, id: u64, contract_address: Option<String>) -> (r: Result<
    ReplyResponse,
    ContractError,
>)
    ensures
        match reply_outcome(*old(cfg), *env, id, contract_address) {
            Ok(next) => (r matches Ok(resp) && *final(cfg) == next.0 && resp.lp_token_address
                == next.1 && resp.messages@ == next.2),
            Err(e) => r == Err::<ReplyResponse, ContractError>(e) && *final(cfg) == *old(cfg),
        },
{
    if id != INSTANTIATE_LP_TOKEN_REPLY_ID && id != INSTANTIATE_BONDING_ID {
        return Err(ContractError::UnknownReplyId { id });
    }
    match contract_address {
        None => Err(ContractError::InstantiateLpTokenError {}),
        Some(addr) => {
            if id == INSTANTIATE_LP_TOKEN_REPLY_ID {
                let bonding_msg = crate::bonding::InstantiateMsg {
                    owner: cfg.owner.clone(),
                    pool_address: env.contract_address.clone(),
                    treasury_address: cfg.treasury_address.clone(),
                    fury_token_address: cfg.fury_token_address.clone(),
                    usdc_denom: cfg.usdc_denom.clone(),
                    lock_seconds: cfg.lock_seconds,
                    discount: cfg.discount,
                    tx_fee: cfg.tx_fee,
                    platform_fee: cfg.platform_fee,
                    daily_vesting_amount: cfg.daily_vesting_amount,
                    is_native_bonding: false,
                };
                let mut messages: Vec<SettleMsg> = Vec::new();
                messages.push(
                    SettleMsg::InstantiateBonding {
                        code_id: cfg.bonding_code_id,
                        admin: cfg.owner.clone(),
                        msg: bonding_msg,
                    },
                );
                Ok(ReplyResponse { lp_token_address: Some(addr), messages })
            } else {
                cfg.bonding_contract_address = addr;
                let messages: Vec<SettleMsg> = Vec::new();
                proof {
                    assert(messages@ =~= Seq::<SettleMsg>::empty());
                }
                Ok(ReplyResponse { lp_token_address: None, messages })
            }
        },
    }
}

/// Refuses to migrate state persisted by a different component.
pub fn migrate(stored_contract_name: &String) -> (r: Result<Response, ContractError>)
    ensures
        stored_contract_name@ == "fanfuryswap"@ ==> (r matches Ok(resp) && resp.messages@
            == Seq::<SettleMsg>::empty()),
        stored_contract_name@ != "fanfuryswap"@ ==> r == Err::<Response, ContractError>(
            ContractError::CannotMigrate { previous_contract: *stored_contract_name },
        ),
{
    let expected: String = "fanfuryswap".to_owned();
    if !stored_contract_name.eq(&expected) {
        return Err(
            ContractError::CannotMigrate { previous_contract: stored_contract_name.clone() },
        );
    }
    let messages: Vec<SettleMsg> = Vec::new();
    proof {
        assert(messages@ =~= Seq::<SettleMsg>::empty());
    }
    Ok(Response { messages })
}

/// The configuration reported to a `Config` query.
pub fn query_config(cfg: &Config) -> (r: ConfigResponse)
    ensures
        r.owner == cfg.owner,
        r.bonding_code_id == cfg.bonding_code_id,
        r.bonding_contract_address == cfg.bonding_contract_address,
        r.fury_token_address == cfg.fury_token_address,
        r.treasury_address == cfg.treasury_address,
        r.usdc_denom == cfg.usdc_denom,
        r.tx_fee == cfg.tx_fee,
        r.platform_fee == cfg.platform_fee,
        r.lock_seconds == cfg.lock_seconds,
        r.discount == cfg.discount,
        r.daily_vesting_amount == cfg.daily_vesting_amount,
{
    ConfigResponse {
        owner: cfg.owner.clone(),
        bonding_code_id: cfg.bonding_code_id,
        bonding_contract_address: cfg.bonding_contract_address.clone(),
        fury_token_address: cfg.fury_token_address.clone(),
        treasury_address: cfg.treasury_address.clone(),
        usdc_denom: cfg.usdc_denom.clone(),
        tx_fee: cfg.tx_fee,
        platform_fee: cfg.platform_fee,
        lock_seconds: cfg.lock_seconds,
        discount: cfg.discount,
        daily_vesting_amount: cfg.daily_vesting_amount,
    }
}

/// The reserves and liquidity-token state reported to an `Info` query; the
/// liquidity-token supply is read from the token contract by the host.
pub fn query_info(
    token1: &Token,
    token2: &Token,
    lp_token_address: &String,
    lp_token_supply: u128,
) -> (r: InfoResponse)
    ensures
        r.token1_reserve == token1.reserve,
        r.token1_denom == token1.denom,
        r.token2_reserve == token2.reserve,
        r.token2_denom == token2.denom,
        r.lp_token_supply == lp_token_supply,
        r.lp_token_address == *lp_token_address,
{
    InfoResponse {
        token1_reserve: token1.reserve,
        token1_denom: clone_denom(&token1.denom),
        token2_reserve: token2.reserve,
        token2_denom: clone_denom(&token2.denom),
        lp_token_supply,
        lp_token_address: lp_token_address.clone(),
    }
}

/// Quotes how much of the second token `token1_amount` of the first buys.
pub fn query_token1_for_token2_price(
    token1: &Token,
    token2: &Token,
    token1_amount: u128,
) -> (r: Result<Token1ForToken2PriceResponse, ContractError>)
    ensures
        match input_price_outcome(token1_amount, token1.reserve, token2.reserve) {
            Ok(v) => r matches Ok(resp) && resp.token2_amount == v,
            Err(e) => r == Err::<Token1ForToken2PriceResponse, ContractError>(e),
        },
{
    let token2_amount = get_input_price(token1_amount, token1.reserve, token2.reserve)?;
    Ok(Token1ForToken2PriceResponse { token2_amount })
}

/// Law: constant-product monotonicity. For any swap against non-empty
/// reserves, the reserve product after the trade — the input reserve grown
/// by the full input, the output reserve shrunk by the priced output — is at
/// least the product before it: the protocol's skim only ever increases the
/// product.
pub proof fn lemma_constant_product_monotonic(
    input_amount: u128,
    input_reserve: u128,
    output_reserve: u128,
)
    requires
        input_reserve > 0,
        output_reserve > 0,
    ensures
        ({
            let bought = spec_input_price(
                input_amount as int,
                input_reserve as int,
                output_reserve as int,
            );
            (input_reserve + input_amount) * (output_reserve - bought) >= input_reserve
                * output_reserve
        }),
{
    let a = input_amount as int;
    let ri = input_reserve as int;
    let ro = output_reserve as int;
    let d = ri * 1000 + a * 997;
    let x = a * 997 * ro;
    let o = x / d;
    assert(d >= 1000 && x >= 0) by (nonlinear_arith)
        requires
            ri >= 1,
            ro >= 1,
            a >= 0,
            d == ri * 1000 + a * 997,
            x == a * 997 * ro,
    ;
    vstd::arithmetic::div_mod::lemma_fundamental_div_mod(x, d);
    vstd::arithmetic::div_mod::lemma_mod_division_less_than_divisor(x, d);
    vstd::arithmetic::div_mod::lemma_div_pos_is_pos(x, d);
    assert(o * d <= x);
    assert((ri + a) * (ro - o) >= ri * ro) by (nonlinear_arith)
        requires
            o * d <= x,
            o >= 0,
            d == ri * 1000 + a * 997,
            x == a * 997 * ro,
            ri >= 1,
            ro >= 1,
            a >= 0,
    ;
}

/// Law: a liquidity round trip on a fresh pool is exact. Adding the first
/// liquidity `(token1_amount, max_token2)` to an empty pool mints
/// `token1_amount` liquidity tokens and takes exactly `max_token2` of the
/// second token; immediately redeeming all minted liquidity returns both
/// deposits whole, leaving the reserves at zero again.
pub proof fn lemma_liquidity_round_trip_fresh(token1_amount: u128, max_token2: u128)
    requires
        token1_amount > 0,
    ensures
        mint_outcome(token1_amount, 0, 0) == Ok::<u128, ContractError>(token1_amount),
        token2_required_outcome(max_token2, token1_amount, 0, 0, 0) == Ok::<u128, ContractError>(
            max_token2,
        ),
        // redeeming the whole minted supply drains both reserves exactly
        token1_amount * token1_amount / (token1_amount as int) == token1_amount,
        token1_amount * max_token2 / (token1_amount as int) == max_token2,
{
    let t1 = token1_amount as int;
    let m2 = max_token2 as int;
    vstd::arithmetic::div_mod::lemma_div_multiples_vanish(t1, t1);
    vstd::arithmetic::div_mod::lemma_div_multiples_vanish(m2, t1);
    assert(t1 * t1 == t1 * t1 && t1 * m2 == m2 * t1) by (nonlinear_arith);
}

/// Law: a liquidity round trip never drains the pool below its prior
/// reserves. Adding liquidity to a non-empty pool and immediately redeeming
/// the exact liquidity minted pays back at most what the deposit brought in:
/// each redemption leg is bounded by the corresponding deposit leg, so both
/// reserves end at or above their pre-deposit values. (With truncating
/// division the round trip is not exact in general; the pool keeps the
/// remainder.)
pub proof fn lemma_liquidity_round_trip_bounds(
    token1_amount: u128,
    reserve1: u128,
    reserve2: u128,
    lp_supply: u128,
)
    requires
        reserve1 > 0,
        lp_supply > 0,
    ensures
        ({
            let minted = token1_amount * lp_supply / reserve1 as int;
            let token2_required = spec_token2_required(
                token1_amount as int,
                reserve2 as int,
                reserve1 as int,
            );
            let redeemed1 = minted * (reserve1 + token1_amount) / (lp_supply + minted);
            let redeemed2 = minted * (reserve2 + token2_required) / (lp_supply + minted);
            redeemed1 <= token1_amount && redeemed2 <= token2_required
        }),
{
    let t1 = token1_amount as int;
    let r1 = reserve1 as int;
    let r2 = reserve2 as int;
    let lp = lp_supply as int;
    let minted = t1 * lp / r1;
    let t2req = spec_token2_required(t1, r2, r1);

    assert(t1 * lp >= 0 && t1 * r2 >= 0) by (nonlinear_arith)
        requires
            t1 >= 0,
            lp >= 1,
            r2 >= 0,
    ;
    vstd::arithmetic::div_mod::lemma_fundamental_div_mod(t1 * lp, r1);
    vstd::arithmetic::div_mod::lemma_mod_division_less_than_divisor(t1 * lp, r1);
    vstd::arithmetic::div_mod::lemma_div_pos_is_pos(t1 * lp, r1);
    assert(minted * r1 <= t1 * lp);
    assert(minted >= 0);

    vstd::arithmetic::div_mod::lemma_fundamental_div_mod(t1 * r2, r1);
    vstd::arithmetic::div_mod::lemma_mod_division_less_than_divisor(t1 * r2, r1);
    vstd::arithmetic::div_mod::lemma_div_pos_is_pos(t1 * r2, r1);
    // rounding the required second-token amount up covers the exact share
    assert(t2req * r1 >= t1 * r2 && t2req >= 0) by (nonlinear_arith)
        requires
            t1 * r2 == r1 * (t1 * r2 / r1) + (t1 * r2) % r1,
            0 <= (t1 * r2) % r1 < r1,
            t1 * r2 / r1 >= 0,
            t2req == t1 * r2 / r1 + (if (t1 * r2) % r1 == 0 {
                0int
            } else {
                1int
            }),
    ;

    // the first redemption leg is bounded by the first deposit leg
    assert(minted * (r1 + t1) <= (lp + minted) * t1) by (nonlinear_arith)
        requires
            minted * r1 <= t1 * lp,
            minted >= 0,
            t1 >= 0,
    ;
    vstd::arithmetic::div_mod::lemma_multiply_divide_le(
        minted * (r1 + t1),
        lp + minted,
        t1,
    );

    // the second redemption leg is bounded by the second deposit leg
    assert(minted * r2 <= t2req * lp) by (nonlinear_arith)
        requires
            minted * r1 <= t1 * lp,
            t2req * r1 >= t1 * r2,
            minted >= 0,
            r1 >= 1,
            r2 >= 0,
            lp >= 1,
            t1 >= 0,
            t2req >= 0,
    ;
    assert(minted * (r2 + t2req) <= (lp + minted) * t2req) by (nonlinear_arith)
        requires
            minted * r2 <= t2req * lp,
            minted >= 0,
            t2req >= 0,
    ;
    vstd::arithmetic::div_mod::lemma_multiply_divide_le(
        minted * (r2 + t2req),
        lp + minted,
        t2req,
    );
}

/// Quotes how much of the first token `token2_amount` of the second buys.
pub fn query_token2_for_token1_price(
    token1: &Token,
    token2: &Token,
    token2_amount: u128,
) -> (r: Result<Token2ForToken1PriceResponse, ContractError>)
    ensures
        match input_price_outcome(token2_amount, token2.reserve, token1.reserve) {
            Ok(v) => r matches Ok(resp) && resp.token1_amount == v,
            Err(e) => r == Err::<Token2ForToken1PriceResponse, ContractError>(e),
        },
{
    let token1_amount = get_input_price(token2_amount, token2.reserve, token1.reserve)?;
    Ok(Token2ForToken1PriceResponse { token1_amount })
}

} // verus!
