//! The simulation engine: a pure route walk for off-chain quoting.
//!
//! Simulation reproduces execution's fee-case selection and per-hop amount
//! propagation, but through read-only probes and with no outbound
//! messages.  Because each hop's probe input depends on the previous
//! hop's probed output, the walk is a state machine: the router hands the
//! host one probe at a time and advances on its answer.  A zero probed
//! output marks a dead route and fails like an invalid route.

use vstd::prelude::*;

use crate::asset::{spec_find_index, Asset, AssetInfo};
use crate::config::Config;
use crate::error::ContractError;
use crate::fee::{calc_fee, case1_fires, fee_of};
use crate::queries::{hop_probe_query, spec_hop_probe, PairInfo, ProbeQuery};
use crate::router::{
    model_offer_asset, model_return_asset, net_offer, route_models, routes_wellformed, RouteModel,
};
use crate::routes::{get_offer_return_asset, RouteInfoV2, SwapOperation};

verus! {

/// The quote simulation reports: the net return asset and amount, and the
/// fee asset and amount when a fee would be charged.
#[derive(Debug, PartialEq, Eq)]
pub struct QuerySimulationResult {
    pub return_asset: Asset,
    pub fee_asset: Option<Asset>,
}

/// A simulation in progress.  It always has a pending hop: the routes
/// walked so far are folded into the accumulators, and `current` is the
/// asset offered to the pending hop.
#[derive(Debug, PartialEq, Eq)]
pub struct SimulationRun {
    /// The configured fee rate.
    pub fee_bps: u16,
    /// Whether the pre-swap fee case fires for this route set.
    pub case1: bool,
    /// The global offer asset.
    pub offer_asset_info: AssetInfo,
    /// The global return asset.
    pub return_asset_info: AssetInfo,
    /// The route set being walked.
    pub routes: Vec<RouteInfoV2>,
    /// The route of the pending hop.
    pub route_idx: usize,
    /// The pending hop within that route.
    pub hop_idx: usize,
    /// The asset offered to the pending hop.
    pub current: Asset,
    /// The pre-swap fee accumulated so far.
    pub fee_collected: u128,
    /// The return amount realized by the routes walked so far.
    pub total_return: u128,
}

/// What the walk does next: continue with a pending hop, or report the
/// finished quote.
#[derive(Debug, PartialEq, Eq)]
pub enum SimStep {
    Continue(SimulationRun),
    Done(QuerySimulationResult),
}

/// The quote assembled once every route is walked: the post-swap fee case
/// charges on the accumulated return exactly when the rate is nonzero and
/// no pre-swap fee was collected; otherwise the pre-swap fee (if any) is
/// reported against the offer asset.
pub open spec fn spec_sim_finish(
    fee_bps: u16,
    fee_collected: u128,
    total: u128,
    offer: AssetInfo,
    ret: AssetInfo,
) -> Result<QuerySimulationResult, ContractError> {
    if fee_bps > 0 && fee_collected == 0 {
        if total * fee_bps > u128::MAX || fee_of(total, fee_bps) > total {
            Err(ContractError::ArithmeticFault {})
        } else {
            let fee = fee_of(total, fee_bps);
            let net = (total - fee) as u128;
            Ok(
                QuerySimulationResult {
                    return_asset: Asset { info: ret, amount: net },
                    fee_asset: if fee > 0 {
                        Some(Asset { info: ret, amount: fee as u128 })
                    } else {
                        None
                    },
                },
            )
        }
    } else {
        Ok(
            QuerySimulationResult {
                return_asset: Asset { info: ret, amount: total },
                fee_asset: if fee_collected > 0 {
                    Some(Asset { info: offer, amount: fee_collected })
                } else {
                    None
                },
            },
        )
    }
}

/// Where the walk stands after entering a route: a pending first hop with
/// the route's net offer amount, or — once past the last route — the
/// finished quote.
#[derive(Debug, PartialEq, Eq)]
pub enum SimOutcome {
    Pending { route_idx: usize, amount: u128, fee_collected: u128, total_return: u128 },
    Finished(QuerySimulationResult),
}

/// Entering route `i` with the given accumulators: the pre-swap fee case
/// charges the route's fee up front; an empty route contributes its net
/// offer amount directly to the accumulated return and the walk moves on.
pub open spec fn spec_enter(
    routes: Seq<RouteModel>,
    i: int,
    bps: u16,
    case1: bool,
    fee_acc: u128,
    total_acc: u128,
    offer: AssetInfo,
    ret: AssetInfo,
) -> Result<SimOutcome, ContractError>
    decreases routes.len() - i,
{
    if i < 0 || i >= routes.len() {
        match spec_sim_finish(bps, fee_acc, total_acc, offer, ret) {
            Ok(q) => Ok(SimOutcome::Finished(q)),
            Err(e) => Err(e),
        }
    } else {
        let amount = routes[i].1;
        if case1 && (amount * bps > u128::MAX || fee_acc + fee_of(amount, bps) > u128::MAX
            || fee_of(amount, bps) > amount) {
            Err(ContractError::ArithmeticFault {})
        } else {
            let fee_acc2 = if case1 {
                (fee_acc + fee_of(amount, bps)) as u128
            } else {
                fee_acc
            };
            let net = net_offer(amount, bps, case1) as u128;
            if routes[i].0.len() > 0 {
                Ok(
                    SimOutcome::Pending {
                        route_idx: i as usize,
                        amount: net,
                        fee_collected: fee_acc2,
                        total_return: total_acc,
                    },
                )
            } else {
                if total_acc + net > u128::MAX {
                    Err(ContractError::ArithmeticFault {})
                } else {
                    spec_enter(routes, i + 1, bps, case1, fee_acc2, (total_acc + net) as u128, offer, ret)
                }
            }
        }
    }
}

impl SimulationRun {
    /// The route set model being walked.
    pub open spec fn models(&self) -> Seq<RouteModel> {
        route_models(self.routes@)
    }

    /// A run always points at a real pending hop.
    pub open spec fn wf(&self) -> bool {
        &&& (self.route_idx as int) < self.models().len()
        &&& (self.hop_idx as int) < self.models()[self.route_idx as int].0.len()
    }

    /// Begins a simulation: validates the route set, selects the fee
    /// case, and enters the first route.
    pub fn start(config: &Config, routes: Vec<RouteInfoV2>) -> (r: Result<
        SimulationRun,
        ContractError,
    >)
        ensures
            sim_start_post(*config, route_models(routes@), r),
    {
        let ghost models = route_models(routes@);
        let (offer_asset_info, return_asset_info) = match get_offer_return_asset(&routes) {
            Ok(p) => p,
            Err(e) => {
                return Err(e);
            },
        };
        let offer_id = offer_asset_info.id();
        let case1 = config.fee_bps > 0 && config.has_fee_asset(&offer_id);

        let n = routes.len();
        let mut k: usize = 0;
        while k < n
            invariant
                n == routes@.len(),
                models == route_models(routes@),
                models.len() == n,
                k <= n,
                forall|j: int| 0 <= j < k ==> (#[trigger] models[j].0).len() > 0,
            decreases n - k,
        {
            proof {
                assert(models[k as int] == (
                    routes@[k as int].route@,
                    routes@[k as int].offer_amount,
                ));
            }
            if routes[k].route.len() == 0 {
                assert(models[k as int].0.len() == 0);
                return Err(ContractError::InvalidRoute {});
            }
            k = k + 1;
        }

        proof {
            assert(models[0] == (routes@[0].route@, routes@[0].offer_amount));
        }
        let amount_in = routes[0].offer_amount;
        let fee_collected: u128;
        let net: u128;
        if case1 {
            let fee = match calc_fee(amount_in, config.fee_bps) {
                Ok(f) => f,
                Err(e) => {
                    return Err(e);
                },
            };
            fee_collected = fee;
            net = match amount_in.checked_sub(fee) {
                Some(a) => a,
                None => {
                    return Err(ContractError::ArithmeticFault {});
                },
            };
        } else {
            fee_collected = 0;
            net = amount_in;
        }
        Ok(
            SimulationRun {
                fee_bps: config.fee_bps,
                case1,
                offer_asset_info: offer_asset_info.clone(),
                return_asset_info,
                routes,
                route_idx: 0,
                hop_idx: 0,
                current: Asset { info: offer_asset_info, amount: net },
                fee_collected,
                total_return: 0,
            },
        )
    }

    /// The pending hop.
    pub fn pending_op(&self) -> (r: &SwapOperation)
        requires
            self.wf(),
        ensures
            *r == self.models()[self.route_idx as int].0[self.hop_idx as int],
    {
        &self.routes[self.route_idx].route[self.hop_idx]
    }

    /// The probe for the pending hop, against its pool's resolved asset
    /// list.
    pub fn probe_query(&self, pair_info: &PairInfo) -> (r: Result<ProbeQuery, ContractError>)
        requires
            self.wf(),
            pair_info.asset_infos@.len() <= u32::MAX,
        ensures
            ({
                let op = self.models()[self.route_idx as int].0[self.hop_idx as int];
                let infos = pair_info.asset_infos@;
                let oi = spec_find_index(infos, op.offer_asset.spec_id());
                let ri = spec_find_index(infos, op.return_asset.spec_id());
                match (oi, ri) {
                    (Some(o), Some(i)) => r == Ok::<ProbeQuery, ContractError>(
                        spec_hop_probe(op, self.current, o, i),
                    ),
                    _ => r == Err::<ProbeQuery, ContractError>(ContractError::InvalidRoute {}),
                }
            }),
    {
        hop_probe_query(
            &self.routes[self.route_idx].route[self.hop_idx],
            pair_info,
            &self.current,
        )
    }

    /// Advances past the pending hop on its probed output: a zero output
    /// is a dead route; otherwise the probed amount, under the return
    /// asset as the pool's list spells it, becomes the next hop's offer —
    /// or, at a route's end, joins the accumulated return and the walk
    /// enters the next route.
    pub fn advance(self, pair_info: &PairInfo, probe_amount: u128) -> (r: Result<
        SimStep,
        ContractError,
    >)
        requires
            self.wf(),
        ensures
            sim_advance_post(self, *pair_info, probe_amount, r),
            r matches Ok(SimStep::Continue(run)) ==> run.wf() && run.models() == self.models(),
    {
        if probe_amount == 0 {
            return Err(ContractError::InvalidRoute {});
        }
        let return_id = self.routes[self.route_idx].route[self.hop_idx].return_asset.id();
        let new_info = match crate::asset::find_by_id(&pair_info.asset_infos, &return_id) {
            Some(a) => a,
            None => {
                return Err(ContractError::InvalidRoute {});
            },
        };
        let route_len = self.routes[self.route_idx].route.len();
        if self.hop_idx + 1 < route_len {
            let next_hop = self.hop_idx + 1;
            Ok(
                SimStep::Continue(
                    SimulationRun {
                        hop_idx: next_hop,
                        current: Asset { info: new_info, amount: probe_amount },
                        ..self
                    },
                ),
            )
        } else {
            let total = match self.total_return.checked_add(probe_amount) {
                Some(t) => t,
                None => {
                    return Err(ContractError::ArithmeticFault {});
                },
            };
            let n = self.routes.len();
            proof {
                assert(self.models().len() == self.routes@.len());
            }
            let next_route = self.route_idx + 1;
            self.enter_routes(next_route, total)
        }
    }

    /// Walks forward from `next_route`, folding empty routes into the
    /// accumulated return, until a route with a pending hop or the
    /// finished quote.
    fn enter_routes(self, next_route: usize, total: u128) -> (r: Result<SimStep, ContractError>)
        requires
            next_route <= self.models().len(),
        ensures
            ({
                let entered = spec_enter(
                    self.models(),
                    next_route as int,
                    self.fee_bps,
                    self.case1,
                    self.fee_collected,
                    total,
                    self.offer_asset_info,
                    self.return_asset_info,
                );
                match entered {
                    Err(e) => r == Err::<SimStep, ContractError>(e),
                    Ok(SimOutcome::Pending { route_idx, amount, fee_collected, total_return }) => (
                    r matches Ok(SimStep::Continue(run)) && run == SimulationRun {
                        route_idx,
                        hop_idx: 0,
                        current: Asset { info: self.offer_asset_info, amount },
                        fee_collected,
                        total_return,
                        ..self
                    }),
                    Ok(SimOutcome::Finished(q)) => r == Ok::<SimStep, ContractError>(
                        SimStep::Done(q),
                    ),
                }
            }),
            r matches Ok(SimStep::Continue(run)) ==> run.wf() && run.models() == self.models(),
    {
        let ghost models = self.models();
        let n = self.routes.len();
        let mut i: usize = next_route;
        let mut fee_acc: u128 = self.fee_collected;
        let mut total_acc: u128 = total;
        while i < n
            invariant
                n == self.models().len(),
                models == self.models(),
                i <= n,
                spec_enter(
                    models,
                    next_route as int,
                    self.fee_bps,
                    self.case1,
                    self.fee_collected,
                    total,
                    self.offer_asset_info,
                    self.return_asset_info,
                ) == spec_enter(
                    models,
                    i as int,
                    self.fee_bps,
                    self.case1,
                    fee_acc,
                    total_acc,
                    self.offer_asset_info,
                    self.return_asset_info,
                ),
            decreases n - i,
        {
            proof {
                assert(models[i as int] == (
                    self.routes@[i as int].route@,
                    self.routes@[i as int].offer_amount,
                ));
            }
            let amount_in = self.routes[i].offer_amount;
            let net: u128;
            if self.case1 {
                let fee = match calc_fee(amount_in, self.fee_bps) {
                    Ok(f) => f,
                    Err(e) => {
                        return Err(e);
                    },
                };
                fee_acc = match fee_acc.checked_add(fee) {
                    Some(x) => x,
                    None => {
                        return Err(ContractError::ArithmeticFault {});
                    },
                };
                net = match amount_in.checked_sub(fee) {
                    Some(x) => x,
                    None => {
                        return Err(ContractError::ArithmeticFault {});
                    },
                };
            } else {
                net = amount_in;
            }
            if self.routes[i].route.len() > 0 {
                return Ok(
                    SimStep::Continue(
                        SimulationRun {
                            route_idx: i,
                            hop_idx: 0,
                            current: Asset { info: self.offer_asset_info.clone(), amount: net },
                            fee_collected: fee_acc,
                            total_return: total_acc,
                            ..self
                        },
                    ),
                );
            }
            total_acc = match total_acc.checked_add(net) {
                Some(t) => t,
                None => {
                    return Err(ContractError::ArithmeticFault {});
                },
            };
            i = i + 1;
        }
        if self.fee_bps > 0 && fee_acc == 0 {
            let fee = match calc_fee(total_acc, self.fee_bps) {
                Ok(f) => f,
                Err(e) => {
                    return Err(e);
                },
            };
            let net = match total_acc.checked_sub(fee) {
                Some(x) => x,
                None => {
                    return Err(ContractError::ArithmeticFault {});
                },
            };
            let fee_asset = if fee > 0 {
                Some(Asset { info: self.return_asset_info.clone(), amount: fee })
            } else {
                None
            };
            Ok(
                SimStep::Done(
                    QuerySimulationResult {
                        return_asset: Asset { info: self.return_asset_info, amount: net },
                        fee_asset,
                    },
                ),
            )
        } else {
            let fee_asset = if fee_acc > 0 {
                Some(Asset { info: self.offer_asset_info, amount: fee_acc })
            } else {
                None
            };
            Ok(
                SimStep::Done(
                    QuerySimulationResult {
                        return_asset: Asset { info: self.return_asset_info, amount: total_acc },
                        fee_asset,
                    },
                ),
            )
        }
    }
}

/// With no intervening state change, a finished simulation agrees with
/// settlement: if the router's realized balance of the return asset
/// equals the simulation's accumulated return, and the stored fee record
/// matches the simulation's collected pre-swap fee, then settlement pays
/// out exactly the simulated return amount and charges exactly the
/// simulated fee asset and amount.
pub proof fn lemma_sim_matches_settle(
    config: Config,
    contract: String,
    sender: String,
    offer: AssetInfo,
    offer_amount: u128,
    ret: AssetInfo,
    to: String,
    balance: u128,
    fee_collected: u128,
    q: QuerySimulationResult,
    r: Result<crate::router::SettleResponse, ContractError>,
)
    requires
        sender@ == contract@,
        spec_sim_finish(config.fee_bps, fee_collected, balance, offer, ret) == Ok::<
            QuerySimulationResult,
            ContractError,
        >(q),
        crate::router::settle_post(
            config,
            contract,
            sender,
            offer,
            offer_amount,
            ret,
            to,
            balance,
            if fee_collected > 0 {
                Some(Asset { info: offer, amount: fee_collected })
            } else {
                None
            },
            r,
        ),
    ensures
        r matches Ok(resp) && {
            &&& resp.record.return_amount == q.return_asset.amount
            &&& resp.record.fee == q.fee_asset
        },
{
}

/// The full contract of beginning a simulation: an ill-shaped route set
/// is an invalid route; otherwise the walk enters the first route with
/// empty accumulators, under the same fee-case selection execution uses.
pub open spec fn sim_start_post(
    config: Config,
    models: Seq<RouteModel>,
    r: Result<SimulationRun, ContractError>,
) -> bool {
    if !routes_wellformed(models) {
        r == Err::<SimulationRun, ContractError>(ContractError::InvalidRoute {})
    } else {
        let offer = model_offer_asset(models);
        let ret = model_return_asset(models);
        let case1 = case1_fires(config.fee_bps, config.spec_fee_asset_ids(), offer.spec_id());
        match spec_enter(models, 0, config.fee_bps, case1, 0, 0, offer, ret) {
            Err(e) => r == Err::<SimulationRun, ContractError>(e),
            Ok(SimOutcome::Pending { route_idx, amount, fee_collected, total_return }) => (r matches
            Ok(run) && {
                &&& run.fee_bps == config.fee_bps
                &&& run.case1 == case1
                &&& run.offer_asset_info == offer
                &&& run.return_asset_info == ret
                &&& run.models() == models
                &&& run.route_idx == route_idx
                &&& run.hop_idx == 0
                &&& run.current == Asset { info: offer, amount }
                &&& run.fee_collected == fee_collected
                &&& run.total_return == total_return
                &&& run.wf()
            }),
            Ok(SimOutcome::Finished(_)) => false,
        }
    }
}

/// The full contract of advancing past the pending hop.
pub open spec fn sim_advance_post(
    pre: SimulationRun,
    pair_info: PairInfo,
    probe_amount: u128,
    r: Result<SimStep, ContractError>,
) -> bool {
    let models = pre.models();
    let op = models[pre.route_idx as int].0[pre.hop_idx as int];
    if probe_amount == 0 {
        r == Err::<SimStep, ContractError>(ContractError::InvalidRoute {})
    } else {
        match spec_find_index(pair_info.asset_infos@, op.return_asset.spec_id()) {
            None => r == Err::<SimStep, ContractError>(ContractError::InvalidRoute {}),
            Some(p) => {
                let new_info = pair_info.asset_infos@[p];
                if pre.hop_idx + 1 < models[pre.route_idx as int].0.len() {
                    r matches Ok(SimStep::Continue(run)) && run == SimulationRun {
                        hop_idx: (pre.hop_idx + 1) as usize,
                        current: Asset { info: new_info, amount: probe_amount },
                        ..pre
                    }
                } else if pre.total_return + probe_amount > u128::MAX {
                    r == Err::<SimStep, ContractError>(ContractError::ArithmeticFault {})
                } else {
                    match spec_enter(
                        models,
                        pre.route_idx + 1,
                        pre.fee_bps,
                        pre.case1,
                        pre.fee_collected,
                        (pre.total_return + probe_amount) as u128,
                        pre.offer_asset_info,
                        pre.return_asset_info,
                    ) {
                        Err(e) => r == Err::<SimStep, ContractError>(e),
                        Ok(SimOutcome::Pending { route_idx, amount, fee_collected, total_return }) => (
                        r matches Ok(SimStep::Continue(run)) && run == SimulationRun {
                            route_idx,
                            hop_idx: 0,
                            current: Asset { info: pre.offer_asset_info, amount },
                            fee_collected,
                            total_return,
                            ..pre
                        }),
                        Ok(SimOutcome::Finished(q)) => r == Ok::<SimStep, ContractError>(
                            SimStep::Done(q),
                        ),
                    }
                }
            },
        }
    }
}

} // verus!
