//! The read-only collaborator interface: typed queries the router asks the
//! host to run against pools and accounts, and the answers it accepts back.
//!
//! The router never performs a query itself.  It builds a query value, the
//! host serializes and runs it, and the host hands the raw answer back to a
//! verified function here that extracts what the logic needs.  An absent
//! answer stands for a failed or erroring query; for probe answers that is
//! mapped to a zero output (an unreachable market is a dead route).

use vstd::prelude::*;

use crate::asset::{spec_find_index, Asset, AssetInfo};
use crate::error::ContractError;
use crate::routes::{ContractInfo, PairType, SwapInterface, SwapOperation};

verus! {

// ********** Constant-product pools ************* //

/// Queries a constant-product pool answers.
#[derive(Debug, PartialEq, Eq)]
pub enum PairQueryMsg {
    Pair {},
    Simulation { offer_asset: Asset },
}

/// A pool's resolved asset pair (or ordered asset list).
#[derive(Debug, Clone, PartialEq, Eq)]
pub struct PairInfo {
    pub asset_infos: Vec<AssetInfo>,
}

/// A constant-product pool's probe result.
#[derive(Debug, Clone, PartialEq, Eq)]
pub struct PairSimulationResponse {
    pub return_amount: u128,
}

// ********** Token balances ************* //

/// Queries a token contract answers.
#[derive(Debug, PartialEq, Eq)]
pub enum Cw20QueryMsg {
    Balance { address: String },
}

/// A token contract's balance answer.
#[derive(Debug, Clone, PartialEq, Eq)]
pub struct Cw20BalanceResponse {
    pub balance: u128,
}

// ********** Order-book markets ************* //

/// Queries an order-book venue answers.
#[derive(Debug, PartialEq, Eq)]
pub enum QueryHelix {
    Market { market_id: String },
    Simulation { offer_asset: Asset, market_id: String },
}

// ********** Basket pools ************* //

/// Metadata queries a basket pool answers.
#[derive(Debug, PartialEq, Eq)]
pub enum QueryAstrovault {
    PoolInfo {},
    Pair {},
}

/// Probe query for a stable basket pool, by asset positions.
#[derive(Debug, PartialEq, Eq)]
pub enum QueryAstrovaultStable {
    SwapSimulation { amount: u128, swap_from_asset_index: u32, swap_to_asset_index: u32 },
}

/// Probe query for a hybrid basket pool, by the offer asset's position.
#[derive(Debug, PartialEq, Eq)]
pub enum QueryAstrovaultHybrid {
    SwapSimulation { amount: u128, swap_from_asset_index: u32 },
}

/// A basket pool's ordered asset list.
#[derive(Debug, Clone, PartialEq, Eq)]
pub struct QueryAstrovaultResponse {
    pub asset_infos: Vec<AssetInfo>,
}

/// A stable basket pool's probe result: output per asset position.
#[derive(Debug, Clone, PartialEq, Eq)]
pub struct QueryAstrovaultStableSimulationResponse {
    pub swap_to_assets_amount: Vec<u128>,
}

/// A hybrid basket pool's probe result.
#[derive(Debug, Clone, PartialEq, Eq)]
pub struct QueryAstrovaultHybridSimulationResponse {
    pub to_amount_minus_fee: u128,
}

// ********** Generic AMM with wrapped pair metadata ************* //

/// Queries the secondary constant-product venue answers.
#[derive(Debug, PartialEq, Eq)]
pub enum QueryOraiDexV2 {
    Pair {},
}

/// The secondary constant-product venue's pair metadata answer.
#[derive(Debug, Clone, PartialEq, Eq)]
pub struct QueryOraiDexV2PairResponse {
    pub info: PairInfo,
}

// ********** Query plans and answers ************* //

/// The metadata query to send to a pool, per interface family.
#[derive(Debug, PartialEq, Eq)]
pub enum PoolQueryMsg {
    Pair(PairQueryMsg),
    Helix(QueryHelix),
    Astrovault(QueryAstrovault),
    OraiDexV2(QueryOraiDexV2),
}

/// A pool-metadata query: the pool to ask and the message to send it.
#[derive(Debug, PartialEq, Eq)]
pub struct PairInfoQuery {
    pub contract_addr: String,
    pub msg: PoolQueryMsg,
}

/// The host's answer to a pool-metadata query, in the shape the queried
/// interface family answers with.
#[derive(Debug, PartialEq, Eq)]
pub enum PairInfoAnswer {
    Pair(PairInfo),
    Astrovault(QueryAstrovaultResponse),
    OraiDexV2(QueryOraiDexV2PairResponse),
}

/// The metadata message a pool with the given interface answers.
pub open spec fn spec_pool_query_msg(interface: SwapInterface) -> PoolQueryMsg {
    match interface {
        SwapInterface::Astroport {} => PoolQueryMsg::Pair(PairQueryMsg::Pair {}),
        SwapInterface::Helix { market_id } => PoolQueryMsg::Helix(QueryHelix::Market { market_id }),
        SwapInterface::Astrovault { pair_type: PairType::Xyk {} } => PoolQueryMsg::Astrovault(
            QueryAstrovault::Pair {},
        ),
        SwapInterface::Astrovault { pair_type: _ } => PoolQueryMsg::Astrovault(
            QueryAstrovault::PoolInfo {},
        ),
        SwapInterface::OraiDexV2 {} => PoolQueryMsg::OraiDexV2(QueryOraiDexV2::Pair {}),
    }
}

/// The metadata query a pool with the given interface answers.
pub open spec fn spec_pair_info_query(contract_addr: String, interface: SwapInterface) -> PairInfoQuery {
    PairInfoQuery { contract_addr, msg: spec_pool_query_msg(interface) }
}

/// The asset list carried by an answer, when the answer has the shape the
/// interface calls for.
pub open spec fn spec_resolved_assets(interface: SwapInterface, answer: PairInfoAnswer) -> Option<
    Seq<AssetInfo>,
> {
    match interface {
        SwapInterface::Astroport {} | SwapInterface::Helix { .. } => match answer {
            PairInfoAnswer::Pair(p) => Some(p.asset_infos@),
            _ => None,
        },
        SwapInterface::Astrovault { .. } => match answer {
            PairInfoAnswer::Astrovault(a) => Some(a.asset_infos@),
            _ => None,
        },
        SwapInterface::OraiDexV2 {} => match answer {
            PairInfoAnswer::OraiDexV2(o) => Some(o.info.asset_infos@),
            _ => None,
        },
    }
}

/// Wraps an answer into the uniform pair-metadata shape, rejecting an
/// answer whose shape does not match the queried interface.
pub fn pair_info_for(interface: &SwapInterface, answer: PairInfoAnswer) -> (r: Result<
    PairInfo,
    ContractError,
>)
    ensures
        match spec_resolved_assets(*interface, answer) {
            Some(s) => r matches Ok(p) && p.asset_infos@ == s,
            None => r == Err::<PairInfo, ContractError>(ContractError::InvalidRoute {}),
        },
{
    match interface {
        SwapInterface::Astroport {} | SwapInterface::Helix { .. } => match answer {
            PairInfoAnswer::Pair(p) => Ok(p),
            _ => Err(ContractError::InvalidRoute {}),
        },
        SwapInterface::Astrovault { .. } => match answer {
            PairInfoAnswer::Astrovault(a) => Ok(PairInfo { asset_infos: a.asset_infos }),
            _ => Err(ContractError::InvalidRoute {}),
        },
        SwapInterface::OraiDexV2 {} => match answer {
            PairInfoAnswer::OraiDexV2(o) => Ok(o.info),
            _ => Err(ContractError::InvalidRoute {}),
        },
    }
}

impl ContractInfo {
    /// The metadata query this pool answers.
    pub fn pair_info_query(&self) -> (r: PairInfoQuery)
        ensures
            r == spec_pair_info_query(self.contract_addr, self.spec_interface()),
    {
        PairInfoQuery {
            contract_addr: self.contract_addr.clone(),
            msg: pool_query_msg(self.interface()),
        }
    }

    /// The resolved asset pair of this pool, from the host's answer to
    /// `pair_info_query`.
    pub fn pair_info(&self, answer: PairInfoAnswer) -> (r: Result<PairInfo, ContractError>)
        ensures
            match spec_resolved_assets(self.spec_interface(), answer) {
                Some(s) => r matches Ok(p) && p.asset_infos@ == s,
                None => r == Err::<PairInfo, ContractError>(ContractError::InvalidRoute {}),
            },
    {
        pair_info_for(&self.interface(), answer)
    }
}

impl SwapOperation {
    /// The metadata query this hop's pool answers.
    pub fn pair_info_query(&self) -> (r: PairInfoQuery)
        ensures
            r == spec_pair_info_query(self.contract_addr, self.spec_interface()),
    {
        PairInfoQuery {
            contract_addr: self.contract_addr.clone(),
            msg: pool_query_msg(self.interface()),
        }
    }

    /// The resolved asset pair of this hop's pool, from the host's answer
    /// to `pair_info_query`.
    pub fn pair_info(&self, answer: PairInfoAnswer) -> (r: Result<PairInfo, ContractError>)
        ensures
            match spec_resolved_assets(self.spec_interface(), answer) {
                Some(s) => r matches Ok(p) && p.asset_infos@ == s,
                None => r == Err::<PairInfo, ContractError>(ContractError::InvalidRoute {}),
            },
    {
        pair_info_for(&self.interface(), answer)
    }
}

/// The metadata message a pool with the given interface answers.
fn pool_query_msg(interface: SwapInterface) -> (r: PoolQueryMsg)
    ensures
        r == spec_pool_query_msg(interface),
{
    match interface {
        SwapInterface::Astroport {} => PoolQueryMsg::Pair(PairQueryMsg::Pair {}),
        SwapInterface::Helix { market_id } => PoolQueryMsg::Helix(
            QueryHelix::Market { market_id },
        ),
        SwapInterface::Astrovault { pair_type: PairType::Xyk {} } => PoolQueryMsg::Astrovault(
            QueryAstrovault::Pair {},
        ),
        SwapInterface::Astrovault { pair_type: _ } => PoolQueryMsg::Astrovault(
            QueryAstrovault::PoolInfo {},
        ),
        SwapInterface::OraiDexV2 {} => PoolQueryMsg::OraiDexV2(QueryOraiDexV2::Pair {}),
    }
}

// ********** Probes ************* //

/// A probe: the pool to ask and the simulation message to send it.
#[derive(Debug, PartialEq, Eq)]
pub struct ProbeQuery {
    pub contract_addr: String,
    pub msg: ProbeMsg,
}

/// The probe message, per interface family.
#[derive(Debug, PartialEq, Eq)]
pub enum ProbeMsg {
    Pair(PairQueryMsg),
    Helix(QueryHelix),
    AstrovaultStable(QueryAstrovaultStable),
    AstrovaultHybrid(QueryAstrovaultHybrid),
}

/// The host's answer to a probe; `None` stands for a failed or erroring
/// query.
#[derive(Debug, PartialEq, Eq)]
pub enum ProbeAnswer {
    Pair(Option<PairSimulationResponse>),
    Helix(Option<PairSimulationResponse>),
    AstrovaultStable {
        response: Option<QueryAstrovaultStableSimulationResponse>,
        swap_to_asset_index: u32,
    },
    AstrovaultHybrid(Option<QueryAstrovaultHybridSimulationResponse>),
}

/// The probed output amount an answer stands for: the venue's reported
/// return, or zero for a failed query or an absent position.
pub open spec fn spec_probe_amount(answer: ProbeAnswer) -> u128 {
    match answer {
        ProbeAnswer::Pair(Some(resp)) => resp.return_amount,
        ProbeAnswer::Pair(None) => 0,
        ProbeAnswer::Helix(Some(resp)) => resp.return_amount,
        ProbeAnswer::Helix(None) => 0,
        ProbeAnswer::AstrovaultStable { response: Some(resp), swap_to_asset_index } => if (
        swap_to_asset_index as int) < resp.swap_to_assets_amount@.len() {
            resp.swap_to_assets_amount@[swap_to_asset_index as int]
        } else {
            0
        },
        ProbeAnswer::AstrovaultStable { response: None, .. } => 0,
        ProbeAnswer::AstrovaultHybrid(Some(resp)) => resp.to_amount_minus_fee,
        ProbeAnswer::AstrovaultHybrid(None) => 0,
    }
}

/// Extracts the probed output amount from a probe answer.
pub fn probe_amount(answer: &ProbeAnswer) -> (r: u128)
    ensures
        r == spec_probe_amount(*answer),
{
    match answer {
        ProbeAnswer::Pair(Some(resp)) => resp.return_amount,
        ProbeAnswer::Pair(None) => 0,
        ProbeAnswer::Helix(Some(resp)) => resp.return_amount,
        ProbeAnswer::Helix(None) => 0,
        ProbeAnswer::AstrovaultStable { response: Some(resp), swap_to_asset_index } => {
            let i = *swap_to_asset_index as usize;
            if i < resp.swap_to_assets_amount.len() {
                resp.swap_to_assets_amount[i]
            } else {
                0
            }
        },
        ProbeAnswer::AstrovaultStable { response: None, .. } => 0,
        ProbeAnswer::AstrovaultHybrid(Some(resp)) => resp.to_amount_minus_fee,
        ProbeAnswer::AstrovaultHybrid(None) => 0,
    }
}

// ********** Balances ************* //

/// The balance query for an account's holding of an asset: a bank query
/// for a native coin, a token-contract query for a contract token.
#[derive(Debug, PartialEq, Eq)]
pub enum BalanceQuery {
    Native { address: String, denom: String },
    Cw20 { token: String, msg: Cw20QueryMsg },
}

/// The balance query the host runs to read `address`'s holding of the
/// asset.
pub fn balance_query(address: &String, asset_info: &AssetInfo) -> (r: BalanceQuery)
    ensures
        match asset_info {
            AssetInfo::NativeToken { denom } => r == (BalanceQuery::Native {
                address: *address,
                denom: *denom,
            }),
            AssetInfo::Token { contract_addr } => r == (BalanceQuery::Cw20 {
                token: *contract_addr,
                msg: Cw20QueryMsg::Balance { address: *address },
            }),
        },
{
    match asset_info {
        AssetInfo::NativeToken { denom } => BalanceQuery::Native {
            address: address.clone(),
            denom: denom.clone(),
        },
        AssetInfo::Token { contract_addr } => BalanceQuery::Cw20 {
            token: contract_addr.clone(),
            msg: Cw20QueryMsg::Balance { address: address.clone() },
        },
    }
}

// ********** Hop probes ************* //

/// The probe a hop answers, given the positions of its offer and return
/// assets in the pool's resolved list.
pub open spec fn spec_hop_probe(op: SwapOperation, offer: Asset, oi: int, ri: int) -> ProbeQuery {
    ProbeQuery {
        contract_addr: op.contract_addr,
        msg: match op.spec_interface() {
            SwapInterface::Astroport {} | SwapInterface::OraiDexV2 {} => ProbeMsg::Pair(
                PairQueryMsg::Simulation { offer_asset: offer },
            ),
            SwapInterface::Astrovault { pair_type: PairType::Xyk {} } => ProbeMsg::Pair(
                PairQueryMsg::Simulation { offer_asset: offer },
            ),
            SwapInterface::Helix { market_id } => ProbeMsg::Helix(
                QueryHelix::Simulation { offer_asset: offer, market_id },
            ),
            SwapInterface::Astrovault { pair_type: PairType::Stable {} } => ProbeMsg::AstrovaultStable(
                QueryAstrovaultStable::SwapSimulation {
                    amount: offer.amount,
                    swap_from_asset_index: oi as u32,
                    swap_to_asset_index: ri as u32,
                },
            ),
            SwapInterface::Astrovault { pair_type: PairType::Hybrid {} } => ProbeMsg::AstrovaultHybrid(
                QueryAstrovaultHybrid::SwapSimulation {
                    amount: offer.amount,
                    swap_from_asset_index: oi as u32,
                },
            ),
        },
    }
}

/// Builds the probe for one hop offering `offer`, locating the hop's offer
/// and return assets in the pool's resolved list.  A hop whose offer or
/// return asset is absent from the list is an invalid route.
pub fn hop_probe_query(op: &SwapOperation, pair_info: &PairInfo, offer: &Asset) -> (r: Result<
    ProbeQuery,
    ContractError,
>)
    requires
        pair_info.asset_infos@.len() <= u32::MAX,
    ensures
        ({
            let infos = pair_info.asset_infos@;
            let oi = spec_find_index(infos, op.offer_asset.spec_id());
            let ri = spec_find_index(infos, op.return_asset.spec_id());
            match (oi, ri) {
                (Some(o), Some(i)) => r == Ok::<ProbeQuery, ContractError>(
                    spec_hop_probe(*op, *offer, o, i),
                ),
                _ => r == Err::<ProbeQuery, ContractError>(ContractError::InvalidRoute {}),
            }
        }),
{
    let offer_id = op.offer_asset.id();
    let return_id = op.return_asset.id();
    let oi = match crate::asset::position_of_id(&pair_info.asset_infos, &offer_id) {
        Some(p) => p,
        None => {
            return Err(ContractError::InvalidRoute {});
        },
    };
    let ri = match crate::asset::position_of_id(&pair_info.asset_infos, &return_id) {
        Some(p) => p,
        None => {
            return Err(ContractError::InvalidRoute {});
        },
    };
    let msg = match op.interface() {
        SwapInterface::Astroport {} => ProbeMsg::Pair(
            PairQueryMsg::Simulation { offer_asset: offer.clone() },
        ),
        SwapInterface::OraiDexV2 {} => ProbeMsg::Pair(
            PairQueryMsg::Simulation { offer_asset: offer.clone() },
        ),
        SwapInterface::Astrovault { pair_type: PairType::Xyk {} } => ProbeMsg::Pair(
            PairQueryMsg::Simulation { offer_asset: offer.clone() },
        ),
        SwapInterface::Helix { market_id } => ProbeMsg::Helix(
            QueryHelix::Simulation { offer_asset: offer.clone(), market_id },
        ),
        SwapInterface::Astrovault { pair_type: PairType::Stable {} } => ProbeMsg::AstrovaultStable(
            QueryAstrovaultStable::SwapSimulation {
                amount: offer.amount,
                swap_from_asset_index: oi as u32,
                swap_to_asset_index: ri as u32,
            },
        ),
        SwapInterface::Astrovault { pair_type: PairType::Hybrid {} } => ProbeMsg::AstrovaultHybrid(
            QueryAstrovaultHybrid::SwapSimulation {
                amount: offer.amount,
                swap_from_asset_index: oi as u32,
            },
        ),
    };
    Ok(ProbeQuery { contract_addr: op.contract_addr.clone(), msg })
}

} // verus!
