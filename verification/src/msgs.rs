//! The outbound messages the router plans.
//!
//! Every external effect of an execution is one of these values, emitted in
//! a fixed order and serialized by the host.  Self-addressed steps carry an
//! [`ExecuteMsg`]; pool invocations carry the wire payload of the venue
//! they speak to; transfers are a bank send or a token transfer.

use vstd::prelude::*;

use crate::asset::{Asset, AssetInfo};
use crate::config::InstantiateMsg;
use crate::routes::{RouteInfo, RouteInfoV2, SwapOperation};

verus! {

/// Price ceiling forced on constant-product invocations, in fixed-point
/// units of one part per 10^18: the most permissive value, so the router,
/// not the venue, enforces the caller's minimum-receive bound.
pub const BELIEF_PRICE_RAW: u128 = u128::MAX;

/// Slippage tolerance forced on constant-product invocations, in
/// fixed-point units of one part per 10^18: one half, the venues' most
/// permissive setting.
pub const MAX_SLIPPAGE_RAW: u128 = 500_000_000_000_000_000;

/// One native coin amount.
#[derive(Debug, Clone, PartialEq, Eq)]
pub struct Coin {
    pub denom: String,
    pub amount: u128,
}

/// A wrapped instruction handed over by a token transfer.
#[derive(Debug, Clone, PartialEq, Eq)]
pub struct Cw20ReceiveMsg {
    pub sender: String,
    pub amount: u128,
    pub msg: Vec<u8>,
}

/// The router's own instruction set: the external entry points and the
/// internal self-addressed steps of one execution.
#[derive(Debug, PartialEq, Eq)]
pub enum ExecuteMsg {
    Receive(Cw20ReceiveMsg),
    ExecuteRoutes {
        offer_asset_info: AssetInfo,
        routes: Vec<RouteInfo>,
        minimum_receive: u128,
        to: Option<String>,
    },
    ExecuteSwapOp {
        operation: SwapOperation,
        amount: Option<u128>,
    },
    ExecuteRoutesV2 {
        routes: Vec<RouteInfoV2>,
        minimum_receive: u128,
        to: Option<String>,
    },
    ExecutePostSwap {
        offer_asset_info: AssetInfo,
        offer_amount: u128,
        return_asset_info: AssetInfo,
        to: String,
    },
    AssertMinimumReceive {
        receiver: String,
        asset_info: AssetInfo,
        prev_balance: u128,
        minimum_receive: u128,
    },
    UpdateConfig(InstantiateMsg),
}

/// The router's read-only entry point.
#[derive(Debug, PartialEq, Eq)]
pub enum QueryMsg {
    Simulation { routes: Vec<RouteInfoV2> },
}

/// Invocation payload for a constant-product pool taking native funds.
#[derive(Debug, PartialEq, Eq)]
pub enum PairExecuteMsg {
    Swap {
        offer_asset: Asset,
        belief_price: Option<u128>,
        max_spread: Option<u128>,
        to: Option<String>,
    },
}

/// Invocation payload for a constant-product pool reached through a token
/// transfer.
#[derive(Debug, PartialEq, Eq)]
pub enum PairCw20HookMsg {
    Swap { belief_price: Option<u128>, max_spread: Option<u128>, to: Option<String> },
}

/// Invocation payload for an order-book market.
#[derive(Debug, PartialEq, Eq)]
pub enum HelixExecuteMsg {
    Swap { market_id: String, minimum_receive: Option<u128>, to: Option<String> },
}

/// Invocation payload for a constant-product basket pool taking native
/// funds.
#[derive(Debug, PartialEq, Eq)]
pub enum AstrovaultXykExecuteMsg {
    Swap { offer_asset: Asset },
}

/// Invocation payload for a constant-product basket pool reached through a
/// token transfer.
#[derive(Debug, PartialEq, Eq)]
pub enum Cw20AstrovaultXykExecuteMsg {
    Swap {},
}

/// Invocation payload for a stable basket pool; the expected return is
/// always zero (no pool-level pre-commitment).
#[derive(Debug, PartialEq, Eq)]
pub enum AstrovaultStableExecuteMsg {
    Swap { swap_to_asset_index: u32, expected_return: u128 },
}

/// Invocation payload for a hybrid basket pool.
#[derive(Debug, PartialEq, Eq)]
pub enum AstrovaultHybridExecuteMsg {
    Swap {},
}

/// The payload a token transfer hands to the receiving pool.
#[derive(Debug, PartialEq, Eq)]
pub enum HookMsg {
    Pair(PairCw20HookMsg),
    AstrovaultXyk(Cw20AstrovaultXykExecuteMsg),
    AstrovaultStable(AstrovaultStableExecuteMsg),
    AstrovaultHybrid(AstrovaultHybridExecuteMsg),
}

/// A message to a token contract: a plain transfer, or a send that hands
/// the tokens and a hook payload to a pool.
#[derive(Debug, PartialEq, Eq)]
pub enum Cw20Msg {
    Transfer { recipient: String, amount: u128 },
    Send { contract: String, amount: u128, msg: HookMsg },
}

/// The payload of an outbound contract call.
#[derive(Debug, PartialEq, Eq)]
pub enum WireMsg {
    Router(ExecuteMsg),
    Pair(PairExecuteMsg),
    Cw20(Cw20Msg),
    Helix(HelixExecuteMsg),
    AstrovaultXyk(AstrovaultXykExecuteMsg),
    AstrovaultStable(AstrovaultStableExecuteMsg),
    AstrovaultHybrid(AstrovaultHybridExecuteMsg),
}

/// One outbound message: a contract call carrying at most one native coin,
/// or a bank send of one native coin.
#[derive(Debug, PartialEq, Eq)]
pub enum OutMsg {
    Wasm { contract_addr: String, funds: Option<Coin>, msg: WireMsg },
    Bank { to_address: String, amount: Coin },
}

/// The transfer message moving `amount` of the asset to `recipient`: a
/// token transfer for a contract token, a bank send for a native coin.
pub open spec fn spec_send_msg(info: AssetInfo, recipient: String, amount: u128) -> OutMsg {
    match info {
        AssetInfo::Token { contract_addr } => OutMsg::Wasm {
            contract_addr,
            funds: None,
            msg: WireMsg::Cw20(Cw20Msg::Transfer { recipient, amount }),
        },
        AssetInfo::NativeToken { denom } => OutMsg::Bank {
            to_address: recipient,
            amount: Coin { denom, amount },
        },
    }
}

/// A self-addressed step: the router calling its own address with one of
/// its internal instructions.
pub open spec fn spec_self_call(contract: String, payload: ExecuteMsg) -> OutMsg {
    OutMsg::Wasm { contract_addr: contract, funds: None, msg: WireMsg::Router(payload) }
}

/// Builds a self-addressed step.
pub fn self_call(contract: &String, payload: ExecuteMsg) -> (r: OutMsg)
    ensures
        r == spec_self_call(*contract, payload),
{
    OutMsg::Wasm { contract_addr: contract.clone(), funds: None, msg: WireMsg::Router(payload) }
}

impl AssetInfo {
    /// Returns a CW20 transfer or bank send message.
    pub fn to_send_msg(&self, recipient: String, amount: u128) -> (r: OutMsg)
        ensures
            r == spec_send_msg(*self, recipient, amount),
    {
        match self {
            AssetInfo::Token { contract_addr } => OutMsg::Wasm {
                contract_addr: contract_addr.clone(),
                funds: None,
                msg: WireMsg::Cw20(Cw20Msg::Transfer { recipient, amount }),
            },
            AssetInfo::NativeToken { denom } => OutMsg::Bank {
                to_address: recipient,
                amount: Coin { denom: denom.clone(), amount },
            },
        }
    }
}

impl Asset {
    /// Returns a CW20 transfer or bank send message.
    pub fn to_send_msg(&self, recipient: String) -> (r: OutMsg)
        ensures
            r == spec_send_msg(self.info, recipient, self.amount),
    {
        self.info.to_send_msg(recipient, self.amount)
    }
}

} // verus!
