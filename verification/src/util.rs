//! Currency identifiers, attached funds, and the settlement dispatcher.
//!
//! The dispatcher is a stateless helper shared by both engines: given a
//! currency, an amount and a recipient it produces the outbound instruction
//! (a native-currency transfer or a token-contract call) that the host will
//! execute after the handler commits.

use vstd::prelude::*;

use crate::error::ContractError;

verus! {

/// A currency: either a native coin identified by its denomination string,
/// or an external token contract identified by its address.
pub enum Denom {
    Native(String),
    Cw20(String),
}

/// An amount of one native currency.
pub struct Coin {
    pub denom: String,
    pub amount: u128,
}

/// An amount of one external token.
pub struct Cw20CoinVerified {
    pub address: String,
    pub amount: u128,
}

/// The funds attached to a request: native coins or one external token.
pub enum Balance {
    Native(Vec<Coin>),
    Cw20(Cw20CoinVerified),
}

/// The block the request executes in.
pub struct BlockInfo {
    pub height: u64,
    /// The block time, in seconds.
    pub time_seconds: u64,
}

/// The host context of the executing contract instance.
pub struct Env {
    pub block: BlockInfo,
    pub contract_address: String,
}

/// Who sent the request and what funds came attached.
pub struct MessageInfo {
    pub sender: String,
    pub funds: Vec<Coin>,
}

/// What a successful handler hands back to the host: the settlement
/// instructions to execute after the commit.
#[derive(Debug)]
pub struct Response {
    pub messages: Vec<SettleMsg>,
}

/// One outbound settlement instruction, scheduled by a handler and executed
/// by the host after the handler commits.
#[derive(Debug)]
pub enum SettleMsg {
    /// Send `amount` of the native currency `denom` to `to_address`.
    BankSend { to_address: String, denom: String, amount: u128 },
    /// Ask the token contract at `contract_addr` to move `amount` from the
    /// dispatching contract's balance to `recipient`.
    Cw20Transfer { contract_addr: String, recipient: String, amount: u128 },
    /// Ask the token contract to move `amount` from `owner` to `recipient`
    /// out of a previously granted allowance.
    Cw20TransferFrom { contract_addr: String, owner: String, recipient: String, amount: u128 },
    /// Ask the token contract to mint `amount` new tokens to `recipient`.
    Cw20Mint { contract_addr: String, recipient: String, amount: u128 },
    /// Ask the token contract to burn `amount` tokens held by `owner`.
    Cw20BurnFrom { contract_addr: String, owner: String, amount: u128 },
    /// Register a pool-triggered grant of `amount` for `address` with the
    /// bonding ledger at `contract_addr`.
    LpBond { contract_addr: String, address: String, amount: u128 },
    /// Instantiate the pool's liquidity-token contract from code `code_id`,
    /// with the pool itself (`minter`) allowed to mint.
    InstantiateLpToken { code_id: u64, minter: String },
    /// Instantiate the pool's paired bonding ledger from code `code_id`.
    InstantiateBonding { code_id: u64, admin: String, msg: crate::bonding::InstantiateMsg },
}

/// Copy of a currency identifier.
pub fn clone_denom(d: &Denom) -> (r: Denom)
    ensures
        r == *d,
{
    match d {
        Denom::Native(s) => Denom::Native(s.clone()),
        Denom::Cw20(s) => Denom::Cw20(s.clone()),
    }
}

/// Amount of the first coin of denomination `denom` in `coins`; zero when no
/// coin matches.
pub open spec fn first_amount_of(coins: Seq<Coin>, denom: Seq<char>) -> int
    decreases coins.len(),
{
    if coins.len() == 0 {
        0
    } else if coins[0].denom@ == denom {
        coins[0].amount as int
    } else {
        first_amount_of(coins.drop_first(), denom)
    }
}

/// What `get_amount_of_denom` returns for a given balance and currency.
pub open spec fn amount_of_denom_outcome(balance: Balance, denom: Denom) -> Result<u128, ContractError> {
    match denom {
        Denom::Native(native_str) => match balance {
            Balance::Native(coins) => {
                let found = first_amount_of(coins@, native_str@);
                if found == 0 {
                    Err(ContractError::NativeInputZero {})
                } else {
                    Ok(found as u128)
                }
            },
            Balance::Cw20(_) => Err(ContractError::TokenTypeMismatch {}),
        },
        Denom::Cw20(cw20_address) => match balance {
            Balance::Native(_) => Err(ContractError::TokenTypeMismatch {}),
            Balance::Cw20(token) => {
                if token.address@ != cw20_address@ {
                    Err(ContractError::TokenTypeMismatch {})
                } else if token.amount == 0 {
                    Err(ContractError::Cw20InputZero {})
                } else {
                    Ok(token.amount)
                }
            },
        },
    }
}

/// How much of the currency `denom` the attached `balance` carries.
///
/// For a native currency this is the first matching coin (a zero amount, or
/// no matching coin at all, is rejected); for an external token the attached
/// token must be the requested one.
pub fn get_amount_of_denom(balance: &Balance, denom: &Denom) -> (r: Result<u128, ContractError>)
    ensures
        r == amount_of_denom_outcome(*balance, *denom),
{
    match denom {
        Denom::Native(native_str) => match balance {
            Balance::Native(coins) => first_coin_amount(coins, native_str),
            Balance::Cw20(_) => Err(ContractError::TokenTypeMismatch {}),
        },
        Denom::Cw20(cw20_address) => match balance {
            Balance::Native(_) => Err(ContractError::TokenTypeMismatch {}),
            Balance::Cw20(token) => {
                if !token.address.eq(cw20_address) {
                    return Err(ContractError::TokenTypeMismatch {});
                }
                if token.amount == 0 {
                    return Err(ContractError::Cw20InputZero {});
                }
                Ok(token.amount)
            },
        },
    }
}

/// The amount of the first attached coin of the native denomination `denom`;
/// a missing coin or a zero amount is rejected.
pub fn first_coin_amount(coins: &Vec<Coin>, denom: &String) -> (r: Result<u128, ContractError>)
    ensures
        r == amount_of_denom_outcome(Balance::Native(*coins), Denom::Native(*denom)),
{
    let n = coins.len();
    let mut i: usize = 0;
    proof {
        assert(coins@.subrange(0, n as int) =~= coins@);
    }
    while i < n
        invariant
            i <= n,
            n == coins@.len(),
            first_amount_of(coins@, denom@) == first_amount_of(
                coins@.subrange(i as int, n as int),
                denom@,
            ),
        decreases n - i,
    {
        proof {
            assert(coins@.subrange(i as int, n as int).drop_first() =~= coins@.subrange(
                i + 1,
                n as int,
            ));
        }
        if coins[i].denom.eq(denom) {
            let found = coins[i].amount;
            if found == 0 {
                return Err(ContractError::NativeInputZero {});
            }
            return Ok(found);
        }
        i = i + 1;
    }
    proof {
        assert(coins@.subrange(i as int, n as int).len() == 0);
    }
    Err(ContractError::NativeInputZero {})
}

/// The settlement instruction moving `amount` of `denom` to `receiver`.
pub open spec fn transfer_msg(denom: Denom, amount: u128, receiver: String) -> SettleMsg {
    match denom {
        Denom::Native(native_str) => SettleMsg::BankSend {
            to_address: receiver,
            denom: native_str,
            amount,
        },
        Denom::Cw20(cw20_address) => SettleMsg::Cw20Transfer {
            contract_addr: cw20_address,
            recipient: receiver,
            amount,
        },
    }
}

/// Builds the settlement instruction moving `amount` of `denom` to
/// `receiver`: a native transfer for a native currency, a token-contract
/// transfer call for an external token.
pub fn transfer_token_message(denom: Denom, amount: u128, receiver: String) -> (r: Result<
    SettleMsg,
    ContractError,
>)
    ensures
        r == Ok::<SettleMsg, ContractError>(transfer_msg(denom, amount, receiver)),
{
    match denom {
        Denom::Native(native_str) => Ok(
            SettleMsg::BankSend { to_address: receiver, denom: native_str, amount },
        ),
        Denom::Cw20(cw20_address) => Ok(
            SettleMsg::Cw20Transfer { contract_addr: cw20_address, recipient: receiver, amount },
        ),
    }
}

} // verus!
