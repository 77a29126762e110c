//! The execution orchestrator: the state machine that turns one route set
//! into an ordered chain of self-addressed steps, settles the result, and
//! asserts the caller's minimum-receive bound.
//!
//! The host offers no synchronous return value across external calls, so
//! one execution is planned here as a message chain: one hop-invocation
//! step per hop (route by route, hop by hop), an optional fee transfer, a
//! settlement step, and the terminal minimum-receive assertion.  The host
//! runs the chain strictly in order inside one all-or-nothing transaction.

use vstd::prelude::*;

use crate::asset::{spec_find_index, Asset, AssetInfo};
use crate::config::{opt_or, Config};
use crate::error::ContractError;
use crate::fee::{calc_fee, case1_fires, fee_of};
use crate::msgs::{
    self_call, spec_self_call, spec_send_msg, Coin, Cw20Msg, ExecuteMsg, HookMsg, OutMsg,
    PairCw20HookMsg, PairExecuteMsg, AstrovaultHybridExecuteMsg, AstrovaultStableExecuteMsg,
    AstrovaultXykExecuteMsg, Cw20AstrovaultXykExecuteMsg, HelixExecuteMsg, WireMsg,
    BELIEF_PRICE_RAW, MAX_SLIPPAGE_RAW,
};
use crate::queries::PairInfo;
use crate::routes::{
    get_offer_return_asset, spec_normalized_route, PairType, RouteInfo, RouteInfoV2,
    SwapInterface, SwapOperation,
};

verus! {

/// One route, reduced to what the orchestrator reads: its hops and its
/// offer amount.
pub type RouteModel = (Seq<SwapOperation>, u128);

/// The model of a route set.
pub open spec fn route_models(routes: Seq<RouteInfoV2>) -> Seq<RouteModel> {
    routes.map_values(|r: RouteInfoV2| (r.route@, r.offer_amount))
}

/// A route set model is well-shaped enough to derive the global asset
/// pair: there is a first route and it has at least one hop.
pub open spec fn models_nonempty(routes: Seq<RouteModel>) -> bool {
    routes.len() > 0 && routes[0].0.len() > 0
}

/// The global offer asset of a route set model.
pub open spec fn model_offer_asset(routes: Seq<RouteModel>) -> AssetInfo {
    routes[0].0[0].offer_asset
}

/// The global return asset of a route set model.
pub open spec fn model_return_asset(routes: Seq<RouteModel>) -> AssetInfo {
    routes[0].0[routes[0].0.len() - 1].return_asset
}

/// A route set is fully well-shaped: it is nonempty and every route in it
/// has at least one hop.
pub open spec fn routes_wellformed(routes: Seq<RouteModel>) -> bool {
    &&& models_nonempty(routes)
    &&& forall|i: int| 0 <= i < routes.len() ==> (#[trigger] routes[i].0).len() > 0
}

/// Number of hops in the routes before route `i`.
pub open spec fn hops_before(routes: Seq<RouteModel>, i: int) -> int
    decreases i,
{
    if i <= 0 {
        0
    } else {
        hops_before(routes, i - 1) + routes[i - 1].0.len()
    }
}

/// Sum of the offer amounts of the routes from `i` on.
pub open spec fn sum_offers_from(routes: Seq<RouteModel>, i: int) -> int
    decreases routes.len() - i,
{
    if i < 0 || i >= routes.len() {
        0
    } else {
        routes[i].1 + sum_offers_from(routes, i + 1)
    }
}

/// Sum of the per-route fees of the routes from `i` on.
pub open spec fn sum_fees_from(routes: Seq<RouteModel>, i: int, bps: u16) -> int
    decreases routes.len() - i,
{
    if i < 0 || i >= routes.len() {
        0
    } else {
        fee_of(routes[i].1, bps) + sum_fees_from(routes, i + 1, bps)
    }
}

/// The hop count before any route is never negative.
pub proof fn lemma_hops_before_nonneg(routes: Seq<RouteModel>, i: int)
    ensures
        hops_before(routes, i) >= 0,
    decreases i,
{
    if i > 0 {
        lemma_hops_before_nonneg(routes, i - 1);
    }
}

/// Every hop of route `a` stands before the hops of any later route.
pub proof fn lemma_hops_before_mono(routes: Seq<RouteModel>, a: int, i: int)
    requires
        0 <= a < i,
    ensures
        hops_before(routes, a) + routes[a].0.len() <= hops_before(routes, i),
    decreases i - a,
{
    if a + 1 < i {
        lemma_hops_before_mono(routes, a, i - 1);
    }
}

/// A suffix sum of offer amounts is never negative.
pub proof fn lemma_sum_offers_nonneg(routes: Seq<RouteModel>, i: int)
    ensures
        sum_offers_from(routes, i) >= 0,
    decreases routes.len() - i,
{
    if 0 <= i < routes.len() {
        lemma_sum_offers_nonneg(routes, i + 1);
    }
}

/// A suffix sum of per-route fees is never negative.
pub proof fn lemma_sum_fees_nonneg(routes: Seq<RouteModel>, i: int, bps: u16)
    ensures
        sum_fees_from(routes, i, bps) >= 0,
    decreases routes.len() - i,
{
    if 0 <= i < routes.len() {
        lemma_sum_fees_nonneg(routes, i + 1, bps);
        assert(routes[i].1 * bps >= 0) by (nonlinear_arith);
    }
}

/// All accounting of one planned execution fits in the 128-bit range: the
/// total offer amount, and, when the pre-swap case fires, every per-route
/// fee product, every per-route deduction, and the fee total.
pub open spec fn swap_arith_ok(routes: Seq<RouteModel>, bps: u16, case1: bool) -> bool {
    &&& sum_offers_from(routes, 0) <= u128::MAX
    &&& case1 ==> (forall|i: int|
        0 <= i < routes.len() ==> (#[trigger] routes[i].1) * bps <= u128::MAX && fee_of(
            routes[i].1,
            bps,
        ) <= routes[i].1)
    &&& case1 ==> sum_fees_from(routes, 0, bps) <= u128::MAX
}

/// A route's offer amount net of the pre-swap fee, when that case fires.
pub open spec fn net_offer(amount: u128, bps: u16, case1: bool) -> int {
    if case1 {
        amount - fee_of(amount, bps)
    } else {
        amount as int
    }
}

/// Hop `b` of route `a` has its invocation step at the right place in the
/// plan: a self-addressed step carrying the hop's operation, with the
/// route's net offer amount on the route's first hop and no amount on any
/// later hop.
pub open spec fn hop_msgs_ok(
    msgs: Seq<OutMsg>,
    contract: String,
    routes: Seq<RouteModel>,
    bps: u16,
    case1: bool,
    a: int,
    b: int,
) -> bool {
    msgs[hops_before(routes, a) + b] == spec_self_call(
        contract,
        ExecuteMsg::ExecuteSwapOp {
            operation: routes[a].0[b],
            amount: if b == 0 {
                Some(net_offer(routes[a].1, bps, case1) as u128)
            } else {
                None::<u128>
            },
        },
    )
}

/// The planned effects of one route-execution step: the ordered outbound
/// messages, and the transient fee record the host must store (present) or
/// clear (absent).
#[derive(Debug, PartialEq, Eq)]
pub struct SwapResponse {
    pub msgs: Vec<OutMsg>,
    pub fees_collected: Option<Asset>,
}

/// The full contract of route execution planning, over a route set model.
///
/// An empty route set, or one holding any empty route, is an invalid
/// route; accounting that does not
/// fit the 128-bit range is an arithmetic fault; otherwise the plan is,
/// in order: one hop-invocation step per hop in route-then-hop order (the
/// first hop of each route carrying that route's net offer amount, every
/// later hop carrying none), a transfer of the pre-swap fee total to the
/// fee collector when it is positive, the settlement step reporting the
/// gross offer total, and the terminal minimum-receive assertion holding
/// the recipient's snapshot balance.
pub open spec fn swap_post(
    config: Config,
    contract: String,
    sender: String,
    routes: Seq<RouteModel>,
    minimum_receive: u128,
    to: Option<String>,
    receiver_balance: u128,
    r: Result<SwapResponse, ContractError>,
) -> bool {
    if !routes_wellformed(routes) {
        r == Err::<SwapResponse, ContractError>(ContractError::InvalidRoute {})
    } else {
        let offer = model_offer_asset(routes);
        let ret = model_return_asset(routes);
        let case1 = case1_fires(config.fee_bps, config.spec_fee_asset_ids(), offer.spec_id());
        if !swap_arith_ok(routes, config.fee_bps, case1) {
            r == Err::<SwapResponse, ContractError>(ContractError::ArithmeticFault {})
        } else {
            let total_offer = sum_offers_from(routes, 0);
            let total_fee: int = if case1 {
                sum_fees_from(routes, 0, config.fee_bps)
            } else {
                0
            };
            let receiver = opt_or(to, sender);
            let nhops = hops_before(routes, routes.len() as int);
            let nfee: int = if total_fee > 0 {
                1
            } else {
                0
            };
            r matches Ok(resp) && {
                &&& resp.msgs@.len() == nhops + nfee + 2
                &&& forall|a: int, b: int|
                    0 <= a < routes.len() && 0 <= b < routes[a].0.len() ==> #[trigger] hop_msgs_ok(
                        resp.msgs@,
                        contract,
                        routes,
                        config.fee_bps,
                        case1,
                        a,
                        b,
                    )
                &&& total_fee > 0 ==> resp.msgs@[nhops] == spec_send_msg(
                    offer,
                    config.fee_address,
                    total_fee as u128,
                )
                &&& resp.fees_collected == (if total_fee > 0 {
                    Some(Asset { info: offer, amount: total_fee as u128 })
                } else {
                    None::<Asset>
                })
                &&& resp.msgs@[nhops + nfee] == spec_self_call(
                    contract,
                    ExecuteMsg::ExecutePostSwap {
                        offer_asset_info: offer,
                        offer_amount: total_offer as u128,
                        return_asset_info: ret,
                        to: receiver,
                    },
                )
                &&& resp.msgs@[nhops + nfee + 1] == spec_self_call(
                    contract,
                    ExecuteMsg::AssertMinimumReceive {
                        receiver,
                        asset_info: ret,
                        prev_balance: receiver_balance,
                        minimum_receive,
                    },
                )
            }
        }
    }
}

/// Plans one execution of a route set.
///
/// `contract` is the router's own address (steps are self-addressed) and
/// `receiver_balance` is the recipient's balance of the global return
/// asset, read synchronously at planning time so the terminal assertion
/// measures exactly this execution's effect.  Two cases charge the fee:
/// a fee-eligible offer asset is charged here, per route, before any hop
/// runs; anything else is left to settlement.
pub fn swap(
    config: &Config,
    contract: &String,
    sender: String,
    routes: Vec<RouteInfoV2>,
    minimum_receive: u128,
    to: Option<String>,
    receiver_balance: u128,
) -> (r: Result<SwapResponse, ContractError>)
    ensures
        swap_post(
            *config,
            *contract,
            sender,
            route_models(routes@),
            minimum_receive,
            to,
            receiver_balance,
            r,
        ),
{
    let ghost models = route_models(routes@);
    let (offer_asset_info, return_asset_info) = match get_offer_return_asset(&routes) {
        Ok(p) => p,
        Err(e) => {
            return Err(e);
        },
    };
    let offer_id = offer_asset_info.id();
    let case1 = config.fee_bps > 0 && config.has_fee_asset(&offer_id);

    let n = routes.len();
    let mut k: usize = 0;
    while k < n
        invariant
            n == routes@.len(),
            models == route_models(routes@),
            models.len() == n,
            k <= n,
            forall|j: int| 0 <= j < k ==> (#[trigger] models[j].0).len() > 0,
        decreases n - k,
    {
        proof {
            assert(models[k as int] == (routes@[k as int].route@, routes@[k as int].offer_amount));
        }
        if routes[k].route.len() == 0 {
            assert(models[k as int].0.len() == 0);
            return Err(ContractError::InvalidRoute {});
        }
        k = k + 1;
    }

    let mut msgs: Vec<OutMsg> = Vec::new();
    let mut total_offer_amount: u128 = 0;
    let mut total_fee_amount: u128 = 0;

    let mut i: usize = 0;
    while i < n
        invariant
            n == routes@.len(),
            models == route_models(routes@),
            models.len() == n,
            i <= n,
            routes_wellformed(models),
            offer_asset_info == model_offer_asset(models),
            return_asset_info == model_return_asset(models),
            offer_id@ == offer_asset_info.spec_id(),
            case1 == case1_fires(
                config.fee_bps,
                config.spec_fee_asset_ids(),
                offer_asset_info.spec_id(),
            ),
            msgs@.len() == hops_before(models, i as int),
            total_offer_amount + sum_offers_from(models, i as int) == sum_offers_from(models, 0),
            case1 ==> total_fee_amount + sum_fees_from(models, i as int, config.fee_bps)
                == sum_fees_from(models, 0, config.fee_bps),
            !case1 ==> total_fee_amount == 0,
            case1 ==> (forall|k: int|
                0 <= k < i ==> (#[trigger] models[k].1) * config.fee_bps <= u128::MAX && fee_of(
                    models[k].1,
                    config.fee_bps,
                ) <= models[k].1),
            forall|a: int, b: int|
                0 <= a < i && 0 <= b < models[a].0.len() ==> #[trigger] hop_msgs_ok(
                    msgs@,
                    *contract,
                    models,
                    config.fee_bps,
                    case1,
                    a,
                    b,
                ),
        decreases n - i,
    {
        proof {
            assert(models[i as int] == (routes@[i as int].route@, routes@[i as int].offer_amount));
        }
        let amount_in = routes[i].offer_amount;
        total_offer_amount = match total_offer_amount.checked_add(amount_in) {
            Some(t) => t,
            None => {
                proof {
                    lemma_sum_offers_nonneg(models, i + 1 as int);
                }
                return Err(ContractError::ArithmeticFault {});
            },
        };
        let offer_amount: u128;
        if case1 {
            let fee = match calc_fee(amount_in, config.fee_bps) {
                Ok(f) => f,
                Err(e) => {
                    return Err(e);
                },
            };
            total_fee_amount = match total_fee_amount.checked_add(fee) {
                Some(t) => t,
                None => {
                    proof {
                        lemma_sum_fees_nonneg(models, i + 1 as int, config.fee_bps);
                    }
                    return Err(ContractError::ArithmeticFault {});
                },
            };
            offer_amount = match amount_in.checked_sub(fee) {
                Some(a) => a,
                None => {
                    assert(!(fee_of(models[i as int].1, config.fee_bps) <= models[i as int].1));
                    return Err(ContractError::ArithmeticFault {});
                },
            };
        } else {
            offer_amount = amount_in;
        }

        let route_len = routes[i].route.len();
        let mut j: usize = 0;
        while j < route_len
            invariant
                n == routes@.len(),
                models == route_models(routes@),
                models.len() == n,
                i < n,
                route_len == models[i as int].0.len(),
                j <= route_len,
                offer_amount == net_offer(models[i as int].1, config.fee_bps, case1),
                msgs@.len() == hops_before(models, i as int) + j,
                forall|a: int, b: int|
                    0 <= a < i && 0 <= b < models[a].0.len() ==> #[trigger] hop_msgs_ok(
                        msgs@,
                        *contract,
                        models,
                        config.fee_bps,
                        case1,
                        a,
                        b,
                    ),
                forall|b: int|
                    0 <= b < j ==> #[trigger] hop_msgs_ok(
                        msgs@,
                        *contract,
                        models,
                        config.fee_bps,
                        case1,
                        i as int,
                        b,
                    ),
            decreases route_len - j,
        {
            proof {
                assert(models[i as int] == (
                    routes@[i as int].route@,
                    routes@[i as int].offer_amount,
                ));
                lemma_hops_before_nonneg(models, i as int);
            }
            let ghost old_msgs = msgs@;
            let op = routes[i].route[j].clone();
            let amt: Option<u128> = if j == 0 {
                Some(offer_amount)
            } else {
                None
            };
            msgs.push(self_call(contract, ExecuteMsg::ExecuteSwapOp { operation: op, amount: amt }));
            proof {
                assert forall|a: int, b: int| 0 <= a < i && 0 <= b < models[a].0.len() implies
                    #[trigger] hop_msgs_ok(
                    msgs@,
                    *contract,
                    models,
                    config.fee_bps,
                    case1,
                    a,
                    b,
                ) by {
                    lemma_hops_before_nonneg(models, a);
                    lemma_hops_before_mono(models, a, i as int);
                    assert(hop_msgs_ok(old_msgs, *contract, models, config.fee_bps, case1, a, b));
                };
                assert forall|b: int| 0 <= b < j + 1 implies #[trigger] hop_msgs_ok(
                    msgs@,
                    *contract,
                    models,
                    config.fee_bps,
                    case1,
                    i as int,
                    b,
                ) by {
                    if b < j {
                        assert(hop_msgs_ok(
                            old_msgs,
                            *contract,
                            models,
                            config.fee_bps,
                            case1,
                            i as int,
                            b,
                        ));
                    }
                };
            }
            j = j + 1;
        }
        i = i + 1;
    }

    let ghost hop_msgs = msgs@;
    let fees_collected: Option<Asset>;
    if total_fee_amount > 0 {
        msgs.push(offer_asset_info.to_send_msg(config.fee_address.clone(), total_fee_amount));
        fees_collected = Some(Asset { info: offer_asset_info.clone(), amount: total_fee_amount });
    } else {
        fees_collected = None;
    }

    let receiver = match to {
        Some(t) => t,
        None => sender,
    };
    msgs.push(
        self_call(
            contract,
            ExecuteMsg::ExecutePostSwap {
                offer_asset_info,
                offer_amount: total_offer_amount,
                return_asset_info: return_asset_info.clone(),
                to: receiver.clone(),
            },
        ),
    );
    msgs.push(
        self_call(
            contract,
            ExecuteMsg::AssertMinimumReceive {
                receiver,
                asset_info: return_asset_info,
                prev_balance: receiver_balance,
                minimum_receive,
            },
        ),
    );
    proof {
        assert forall|a: int, b: int| 0 <= a < models.len() && 0 <= b < models[a].0.len() implies
            #[trigger] hop_msgs_ok(msgs@, *contract, models, config.fee_bps, case1, a, b) by {
            lemma_hops_before_nonneg(models, a);
            lemma_hops_before_mono(models, a, n as int);
            assert(hop_msgs_ok(hop_msgs, *contract, models, config.fee_bps, case1, a, b));
        };
    }
    Ok(SwapResponse { msgs, fees_collected })
}

/// The normalized models of a legacy route set: each legacy route upgraded
/// to explicit hops against its pools' resolved pairs, starting from the
/// global offer asset; `None` marks a route with an unresolvable pool.
pub open spec fn normalized_models_from(
    offer: AssetInfo,
    routes: Seq<RouteInfo>,
    pair_infos: Seq<Vec<PairInfo>>,
    i: int,
) -> Option<Seq<RouteModel>>
    decreases routes.len() - i,
{
    if i < 0 || i >= routes.len() {
        Some(Seq::empty())
    } else {
        match spec_normalized_route(routes[i].route@, pair_infos[i]@, offer) {
            None => None,
            Some(ops) => match normalized_models_from(offer, routes, pair_infos, i + 1) {
                None => None,
                Some(rest) => Some(seq![(ops, routes[i].offer_amount)] + rest),
            },
        }
    }
}

/// The normalized models of a legacy route set.
pub open spec fn normalized_models(
    offer: AssetInfo,
    routes: Seq<RouteInfo>,
    pair_infos: Seq<Vec<PairInfo>>,
) -> Option<Seq<RouteModel>> {
    normalized_models_from(offer, routes, pair_infos, 0)
}

/// Plans one execution of a legacy-shape route set: upgrades each route to
/// explicit hops against the resolved pair of each of its pools (one
/// `PairInfo` per pool, in hop order, fetched by the host), then plans as
/// `swap` does.  A pool whose pair exposes no asset differing from the
/// running offer asset makes the route invalid.
pub fn swap_deprec(
    config: &Config,
    contract: &String,
    sender: String,
    offer_asset_info: AssetInfo,
    routes: Vec<RouteInfo>,
    pair_infos: Vec<Vec<PairInfo>>,
    minimum_receive: u128,
    to: Option<String>,
    receiver_balance: u128,
) -> (r: Result<SwapResponse, ContractError>)
    requires
        pair_infos@.len() == routes@.len(),
        forall|i: int|
            0 <= i < routes@.len() ==> (#[trigger] pair_infos@[i])@.len()
                == routes@[i].route@.len(),
    ensures
        match normalized_models(offer_asset_info, routes@, pair_infos@) {
            None => r == Err::<SwapResponse, ContractError>(ContractError::InvalidRoute {}),
            Some(models) => swap_post(
                *config,
                *contract,
                sender,
                models,
                minimum_receive,
                to,
                receiver_balance,
                r,
            ),
        },
{
    let n = routes.len();
    let mut routes_v2: Vec<RouteInfoV2> = Vec::new();
    let mut i: usize = 0;
    while i < n
        invariant
            n == routes@.len(),
            pair_infos@.len() == n,
            forall|k: int|
                0 <= k < n ==> (#[trigger] pair_infos@[k])@.len() == routes@[k].route@.len(),
            i <= n,
            routes_v2@.len() == i,
            match normalized_models_from(offer_asset_info, routes@, pair_infos@, i as int) {
                Some(rest) => normalized_models(offer_asset_info, routes@, pair_infos@) == Some(
                    route_models(routes_v2@) + rest,
                ),
                None => normalized_models(offer_asset_info, routes@, pair_infos@) is None,
            },
        decreases n - i,
    {
        let ghost before = route_models(routes_v2@);
        let ops = match crate::routes::normalize_route(
            &offer_asset_info,
            &routes[i].route,
            &pair_infos[i],
        ) {
            Ok(v) => v,
            Err(e) => {
                return Err(e);
            },
        };
        routes_v2.push(RouteInfoV2 { route: ops, offer_amount: routes[i].offer_amount });
        proof {
            assert(route_models(routes_v2@) =~= before + seq![
                (routes_v2@[i as int].route@, routes_v2@[i as int].offer_amount),
            ]);
        }
        i = i + 1;
    }
    proof {
        let models = route_models(routes_v2@);
        assert(models + Seq::<RouteModel>::empty() =~= models);
    }
    swap(config, contract, sender, routes_v2, minimum_receive, to, receiver_balance)
}

/// The observable record settlement emits: the global asset identities,
/// the gross offer total, the net amount paid out, the recipient, and the
/// fee charged, if one was.
#[derive(Debug, PartialEq, Eq)]
pub struct SettleRecord {
    pub offer_asset: String,
    pub offer_amount: u128,
    pub return_asset: String,
    pub return_amount: u128,
    pub receiver: String,
    pub fee: Option<Asset>,
}

/// The planned effects of settlement: the transfers to make, the cleared
/// transient fee record (always absent), and the observable record.
#[derive(Debug, PartialEq, Eq)]
pub struct SettleResponse {
    pub msgs: Vec<OutMsg>,
    pub fees_collected: Option<Asset>,
    pub record: SettleRecord,
}

/// The record carries the right identities, amounts and recipient.
pub open spec fn settle_record_ok(
    rec: SettleRecord,
    offer: AssetInfo,
    offer_amount: u128,
    ret: AssetInfo,
    net_return: u128,
    to: String,
) -> bool {
    &&& rec.offer_asset@ == offer.spec_id()
    &&& rec.offer_amount == offer_amount
    &&& rec.return_asset@ == ret.spec_id()
    &&& rec.return_amount == net_return
    &&& rec.receiver == to
}

/// The full contract of settlement.
///
/// Only the router itself may settle.  A present transient fee record
/// means the fee was already charged pre-swap: the whole balance goes to
/// the recipient and the record is reported.  An absent record with a
/// nonzero rate charges the post-swap fee on the realized balance, pays
/// the fee collector when it is positive, and pays the rest to the
/// recipient.  In every outcome the transient fee record is cleared.
pub open spec fn settle_post(
    config: Config,
    contract: String,
    sender: String,
    offer: AssetInfo,
    offer_amount: u128,
    ret: AssetInfo,
    to: String,
    return_balance: u128,
    fees_collected: Option<Asset>,
    r: Result<SettleResponse, ContractError>,
) -> bool {
    if sender@ != contract@ {
        r == Err::<SettleResponse, ContractError>(ContractError::Unauthorized {})
    } else {
        match fees_collected {
            Some(f) => r matches Ok(resp) && {
                &&& resp.msgs@.len() == 1
                &&& resp.msgs@[0] == spec_send_msg(ret, to, return_balance)
                &&& resp.fees_collected is None
                &&& settle_record_ok(resp.record, offer, offer_amount, ret, return_balance, to)
                &&& resp.record.fee == Some(f)
            },
            None => if config.fee_bps == 0 {
                r matches Ok(resp) && {
                    &&& resp.msgs@.len() == 1
                    &&& resp.msgs@[0] == spec_send_msg(ret, to, return_balance)
                    &&& resp.fees_collected is None
                    &&& settle_record_ok(resp.record, offer, offer_amount, ret, return_balance, to)
                    &&& resp.record.fee is None
                }
            } else if return_balance * config.fee_bps > u128::MAX || fee_of(
                return_balance,
                config.fee_bps,
            ) > return_balance {
                r == Err::<SettleResponse, ContractError>(ContractError::ArithmeticFault {})
            } else {
                let fee = fee_of(return_balance, config.fee_bps);
                let net = (return_balance - fee) as u128;
                r matches Ok(resp) && {
                    &&& resp.fees_collected is None
                    &&& settle_record_ok(resp.record, offer, offer_amount, ret, net, to)
                    &&& if fee > 0 {
                        &&& resp.msgs@.len() == 2
                        &&& resp.msgs@[0] == spec_send_msg(ret, config.fee_address, fee as u128)
                        &&& resp.msgs@[1] == spec_send_msg(ret, to, net)
                        &&& resp.record.fee == Some(Asset { info: ret, amount: fee as u128 })
                    } else {
                        &&& resp.msgs@.len() == 1
                        &&& resp.msgs@[0] == spec_send_msg(ret, to, net)
                        &&& resp.record.fee is None
                    }
                }
            },
        }
    }
}

/// Settles one execution: reads nothing itself — the host hands it the
/// router's realized balance of the global return asset and the stored
/// transient fee record — and plans the closing transfers.
pub fn post_swap(
    config: &Config,
    contract: &String,
    sender: &String,
    offer_asset_info: AssetInfo,
    offer_amount: u128,
    return_asset_info: AssetInfo,
    to: String,
    return_balance: u128,
    fees_collected: Option<Asset>,
) -> (r: Result<SettleResponse, ContractError>)
    ensures
        settle_post(
            *config,
            *contract,
            *sender,
            offer_asset_info,
            offer_amount,
            return_asset_info,
            to,
            return_balance,
            fees_collected,
            r,
        ),
{
    if !sender.eq(contract) {
        return Err(ContractError::Unauthorized {});
    }
    let offer_asset_id = offer_asset_info.id();
    let return_asset_id = return_asset_info.id();
    match fees_collected {
        Some(f) => {
            let mut msgs: Vec<OutMsg> = Vec::new();
            msgs.push(return_asset_info.to_send_msg(to.clone(), return_balance));
            Ok(
                SettleResponse {
                    msgs,
                    fees_collected: None,
                    record: SettleRecord {
                        offer_asset: offer_asset_id,
                        offer_amount,
                        return_asset: return_asset_id,
                        return_amount: return_balance,
                        receiver: to,
                        fee: Some(f),
                    },
                },
            )
        },
        None => {
            if config.fee_bps > 0 {
                let fee = match calc_fee(return_balance, config.fee_bps) {
                    Ok(f) => f,
                    Err(e) => {
                        return Err(e);
                    },
                };
                let net = match return_balance.checked_sub(fee) {
                    Some(n) => n,
                    None => {
                        return Err(ContractError::ArithmeticFault {});
                    },
                };
                let mut msgs: Vec<OutMsg> = Vec::new();
                let fee_record: Option<Asset>;
                if fee > 0 {
                    msgs.push(return_asset_info.to_send_msg(config.fee_address.clone(), fee));
                    fee_record = Some(Asset { info: return_asset_info.clone(), amount: fee });
                } else {
                    fee_record = None;
                }
                msgs.push(return_asset_info.to_send_msg(to.clone(), net));
                Ok(
                    SettleResponse {
                        msgs,
                        fees_collected: None,
                        record: SettleRecord {
                            offer_asset: offer_asset_id,
                            offer_amount,
                            return_asset: return_asset_id,
                            return_amount: net,
                            receiver: to,
                            fee: fee_record,
                        },
                    },
                )
            } else {
                let mut msgs: Vec<OutMsg> = Vec::new();
                msgs.push(return_asset_info.to_send_msg(to.clone(), return_balance));
                Ok(
                    SettleResponse {
                        msgs,
                        fees_collected: None,
                        record: SettleRecord {
                            offer_asset: offer_asset_id,
                            offer_amount,
                            return_asset: return_asset_id,
                            return_amount: return_balance,
                            receiver: to,
                            fee: None,
                        },
                    },
                )
            }
        },
    }
}

/// Settlement always clears the transient fee record, so a hypothetical
/// second settlement — with no record stored and a nonzero rate — takes
/// the post-swap branch and charges on the balance it sees, never a stale
/// pre-swap record.
pub proof fn lemma_no_double_charge(
    config: Config,
    contract: String,
    sender: String,
    offer: AssetInfo,
    offer_amount: u128,
    ret: AssetInfo,
    to: String,
    balance1: u128,
    fees_collected: Option<Asset>,
    r1: Result<SettleResponse, ContractError>,
    balance2: u128,
    r2: Result<SettleResponse, ContractError>,
)
    requires
        sender@ == contract@,
        config.fee_bps > 0,
        settle_post(
            config,
            contract,
            sender,
            offer,
            offer_amount,
            ret,
            to,
            balance1,
            fees_collected,
            r1,
        ),
        r1 matches Ok(resp1) && settle_post(
            config,
            contract,
            sender,
            offer,
            offer_amount,
            ret,
            to,
            balance2,
            resp1.fees_collected,
            r2,
        ),
    ensures
        r1 matches Ok(resp1) ==> resp1.fees_collected is None,
        r2 matches Ok(resp2) ==> resp2.record.fee == (if fee_of(balance2, config.fee_bps) > 0 {
            Some(Asset { info: ret, amount: fee_of(balance2, config.fee_bps) as u128 })
        } else {
            None::<Asset>
        }),
{
}

/// The invocation message for a constant-product pool: a native offer is
/// attached as funds with the wire payload forcing the most permissive
/// price ceiling and slippage tolerance; a token offer is sent to the
/// token contract, handing the pool the same payload as a hook.
pub open spec fn spec_pair_invoke(op: SwapOperation, amount: u128) -> OutMsg {
    match op.offer_asset {
        AssetInfo::NativeToken { denom } => OutMsg::Wasm {
            contract_addr: op.contract_addr,
            funds: Some(Coin { denom, amount }),
            msg: WireMsg::Pair(
                PairExecuteMsg::Swap {
                    offer_asset: Asset { info: op.offer_asset, amount },
                    belief_price: Some(BELIEF_PRICE_RAW),
                    max_spread: Some(MAX_SLIPPAGE_RAW),
                    to: None,
                },
            ),
        },
        AssetInfo::Token { contract_addr } => OutMsg::Wasm {
            contract_addr,
            funds: None,
            msg: WireMsg::Cw20(
                Cw20Msg::Send {
                    contract: op.contract_addr,
                    amount,
                    msg: HookMsg::Pair(
                        PairCw20HookMsg::Swap {
                            belief_price: Some(BELIEF_PRICE_RAW),
                            max_spread: Some(MAX_SLIPPAGE_RAW),
                            to: None,
                        },
                    ),
                },
            ),
        },
    }
}

/// The invocation message for a constant-product basket pool.
pub open spec fn spec_xyk_invoke(op: SwapOperation, amount: u128) -> OutMsg {
    match op.offer_asset {
        AssetInfo::NativeToken { denom } => OutMsg::Wasm {
            contract_addr: op.contract_addr,
            funds: Some(Coin { denom, amount }),
            msg: WireMsg::AstrovaultXyk(
                AstrovaultXykExecuteMsg::Swap { offer_asset: Asset { info: op.offer_asset, amount } },
            ),
        },
        AssetInfo::Token { contract_addr } => OutMsg::Wasm {
            contract_addr,
            funds: None,
            msg: WireMsg::Cw20(
                Cw20Msg::Send {
                    contract: op.contract_addr,
                    amount,
                    msg: HookMsg::AstrovaultXyk(Cw20AstrovaultXykExecuteMsg::Swap {}),
                },
            ),
        },
    }
}

/// The invocation message for a hybrid basket pool.
pub open spec fn spec_hybrid_invoke(op: SwapOperation, amount: u128) -> OutMsg {
    match op.offer_asset {
        AssetInfo::NativeToken { denom } => OutMsg::Wasm {
            contract_addr: op.contract_addr,
            funds: Some(Coin { denom, amount }),
            msg: WireMsg::AstrovaultHybrid(AstrovaultHybridExecuteMsg::Swap {}),
        },
        AssetInfo::Token { contract_addr } => OutMsg::Wasm {
            contract_addr,
            funds: None,
            msg: WireMsg::Cw20(
                Cw20Msg::Send {
                    contract: op.contract_addr,
                    amount,
                    msg: HookMsg::AstrovaultHybrid(AstrovaultHybridExecuteMsg::Swap {}),
                },
            ),
        },
    }
}

/// The invocation message for a stable basket pool: the return asset is
/// named by its position in the pool's ordered list, and the expected
/// return is always zero (no pool-level pre-commitment).
pub open spec fn spec_stable_invoke(op: SwapOperation, amount: u128, index: int) -> OutMsg {
    match op.offer_asset {
        AssetInfo::NativeToken { denom } => OutMsg::Wasm {
            contract_addr: op.contract_addr,
            funds: Some(Coin { denom, amount }),
            msg: WireMsg::AstrovaultStable(
                AstrovaultStableExecuteMsg::Swap {
                    swap_to_asset_index: index as u32,
                    expected_return: 0,
                },
            ),
        },
        AssetInfo::Token { contract_addr } => OutMsg::Wasm {
            contract_addr,
            funds: None,
            msg: WireMsg::Cw20(
                Cw20Msg::Send {
                    contract: op.contract_addr,
                    amount,
                    msg: HookMsg::AstrovaultStable(
                        AstrovaultStableExecuteMsg::Swap {
                            swap_to_asset_index: index as u32,
                            expected_return: 0,
                        },
                    ),
                },
            ),
        },
    }
}

/// The invocation message for an order-book market: native funds under the
/// offer asset's identity, and a wire payload naming the market with no
/// minimum (the router is the sole enforcer of the caller's bound).
pub open spec fn helix_invoke_ok(
    m: OutMsg,
    op: SwapOperation,
    amount: u128,
    market_id: String,
) -> bool {
    &&& m matches OutMsg::Wasm { contract_addr, funds, msg } && {
        &&& contract_addr == op.contract_addr
        &&& funds matches Some(c) && c.denom@ == op.offer_asset.spec_id() && c.amount == amount
        &&& msg == WireMsg::Helix(
            HelixExecuteMsg::Swap { market_id, minimum_receive: None, to: None },
        )
    }
}

/// The full contract of one hop invocation.
///
/// Only the router itself may invoke a hop.  The offer amount is the one
/// handed over explicitly (a route's first hop) or, absent that, the
/// router's own current balance of the hop's offer asset.  Exactly one
/// outbound call is emitted, shaped per venue family; for a stable basket
/// pool the return asset must be present in the pool's resolved list.
pub open spec fn hop_invoke_post(
    contract: String,
    sender: String,
    op: SwapOperation,
    amount_opt: Option<u128>,
    self_balance: u128,
    pool_info: Option<PairInfo>,
    r: Result<OutMsg, ContractError>,
) -> bool {
    if sender@ != contract@ {
        r == Err::<OutMsg, ContractError>(ContractError::Unauthorized {})
    } else {
        let amount = opt_or(amount_opt, self_balance);
        match op.spec_interface() {
            SwapInterface::Astroport {} | SwapInterface::OraiDexV2 {} => r == Ok::<
                OutMsg,
                ContractError,
            >(spec_pair_invoke(op, amount)),
            SwapInterface::Helix { market_id } => r matches Ok(m) && helix_invoke_ok(
                m,
                op,
                amount,
                market_id,
            ),
            SwapInterface::Astrovault { pair_type: PairType::Xyk {} } => r == Ok::<
                OutMsg,
                ContractError,
            >(spec_xyk_invoke(op, amount)),
            SwapInterface::Astrovault { pair_type: PairType::Hybrid {} } => r == Ok::<
                OutMsg,
                ContractError,
            >(spec_hybrid_invoke(op, amount)),
            SwapInterface::Astrovault { pair_type: PairType::Stable {} } => match pool_info {
                Some(p) => match spec_find_index(p.asset_infos@, op.return_asset.spec_id()) {
                    Some(idx) => r == Ok::<OutMsg, ContractError>(
                        spec_stable_invoke(op, amount, idx),
                    ),
                    None => r == Err::<OutMsg, ContractError>(ContractError::InvalidRoute {}),
                },
                None => r == Err::<OutMsg, ContractError>(ContractError::InvalidRoute {}),
            },
        }
    }
}

/// Invokes one hop: builds the single outbound call that performs the
/// swap, with the return settling back to the router itself.
///
/// `self_balance` is the router's current balance of the hop's offer
/// asset, read by the host; it stands in when no explicit amount was
/// handed over.  `pool_info` is the resolved asset list of the pool, which
/// only a stable basket pool needs.
pub fn swap_pool(
    contract: &String,
    sender: &String,
    operation: SwapOperation,
    amount: Option<u128>,
    self_balance: u128,
    pool_info: Option<&PairInfo>,
) -> (r: Result<OutMsg, ContractError>)
    requires
        pool_info matches Some(p) ==> p.asset_infos@.len() <= u32::MAX,
    ensures
        hop_invoke_post(
            *contract,
            *sender,
            operation,
            amount,
            self_balance,
            match pool_info {
                Some(p) => Some(*p),
                None => None,
            },
            r,
        ),
{
    if !sender.eq(contract) {
        return Err(ContractError::Unauthorized {});
    }
    let offer_amount = match amount {
        Some(a) => a,
        None => self_balance,
    };
    match operation.interface() {
        SwapInterface::Astroport {} | SwapInterface::OraiDexV2 {} => match &operation.offer_asset {
            AssetInfo::NativeToken { denom } => Ok(
                OutMsg::Wasm {
                    contract_addr: operation.contract_addr.clone(),
                    funds: Some(Coin { denom: denom.clone(), amount: offer_amount }),
                    msg: WireMsg::Pair(
                        PairExecuteMsg::Swap {
                            offer_asset: Asset {
                                info: operation.offer_asset.clone(),
                                amount: offer_amount,
                            },
                            belief_price: Some(BELIEF_PRICE_RAW),
                            max_spread: Some(MAX_SLIPPAGE_RAW),
                            to: None,
                        },
                    ),
                },
            ),
            AssetInfo::Token { contract_addr } => Ok(
                OutMsg::Wasm {
                    contract_addr: contract_addr.clone(),
                    funds: None,
                    msg: WireMsg::Cw20(
                        Cw20Msg::Send {
                            contract: operation.contract_addr.clone(),
                            amount: offer_amount,
                            msg: HookMsg::Pair(
                                PairCw20HookMsg::Swap {
                                    belief_price: Some(BELIEF_PRICE_RAW),
                                    max_spread: Some(MAX_SLIPPAGE_RAW),
                                    to: None,
                                },
                            ),
                        },
                    ),
                },
            ),
        },
        SwapInterface::Helix { market_id } => Ok(
            OutMsg::Wasm {
                contract_addr: operation.contract_addr.clone(),
                funds: Some(
                    Coin { denom: operation.offer_asset.id(), amount: offer_amount },
                ),
                msg: WireMsg::Helix(
                    HelixExecuteMsg::Swap { market_id, minimum_receive: None, to: None },
                ),
            },
        ),
        SwapInterface::Astrovault { pair_type: PairType::Xyk {} } => match &operation.offer_asset {
            AssetInfo::NativeToken { denom } => Ok(
                OutMsg::Wasm {
                    contract_addr: operation.contract_addr.clone(),
                    funds: Some(Coin { denom: denom.clone(), amount: offer_amount }),
                    msg: WireMsg::AstrovaultXyk(
                        AstrovaultXykExecuteMsg::Swap {
                            offer_asset: Asset {
                                info: operation.offer_asset.clone(),
                                amount: offer_amount,
                            },
                        },
                    ),
                },
            ),
            AssetInfo::Token { contract_addr } => Ok(
                OutMsg::Wasm {
                    contract_addr: contract_addr.clone(),
                    funds: None,
                    msg: WireMsg::Cw20(
                        Cw20Msg::Send {
                            contract: operation.contract_addr.clone(),
                            amount: offer_amount,
                            msg: HookMsg::AstrovaultXyk(Cw20AstrovaultXykExecuteMsg::Swap {}),
                        },
                    ),
                },
            ),
        },
        SwapInterface::Astrovault { pair_type: PairType::Hybrid {} } => match &operation
            .offer_asset {
            AssetInfo::NativeToken { denom } => Ok(
                OutMsg::Wasm {
                    contract_addr: operation.contract_addr.clone(),
                    funds: Some(Coin { denom: denom.clone(), amount: offer_amount }),
                    msg: WireMsg::AstrovaultHybrid(AstrovaultHybridExecuteMsg::Swap {}),
                },
            ),
            AssetInfo::Token { contract_addr } => Ok(
                OutMsg::Wasm {
                    contract_addr: contract_addr.clone(),
                    funds: None,
                    msg: WireMsg::Cw20(
                        Cw20Msg::Send {
                            contract: operation.contract_addr.clone(),
                            amount: offer_amount,
                            msg: HookMsg::AstrovaultHybrid(AstrovaultHybridExecuteMsg::Swap {}),
                        },
                    ),
                },
            ),
        },
        SwapInterface::Astrovault { pair_type: PairType::Stable {} } => {
            let pool = match pool_info {
                Some(p) => p,
                None => {
                    return Err(ContractError::InvalidRoute {});
                },
            };
            let return_id = operation.return_asset.id();
            let swap_to_asset_index = match crate::asset::position_of_id(
                &pool.asset_infos,
                &return_id,
            ) {
                Some(p) => p as u32,
                None => {
                    return Err(ContractError::InvalidRoute {});
                },
            };
            match &operation.offer_asset {
                AssetInfo::NativeToken { denom } => Ok(
                    OutMsg::Wasm {
                        contract_addr: operation.contract_addr.clone(),
                        funds: Some(Coin { denom: denom.clone(), amount: offer_amount }),
                        msg: WireMsg::AstrovaultStable(
                            AstrovaultStableExecuteMsg::Swap {
                                swap_to_asset_index,
                                expected_return: 0,
                            },
                        ),
                    },
                ),
                AssetInfo::Token { contract_addr } => Ok(
                    OutMsg::Wasm {
                        contract_addr: contract_addr.clone(),
                        funds: None,
                        msg: WireMsg::Cw20(
                            Cw20Msg::Send {
                                contract: operation.contract_addr.clone(),
                                amount: offer_amount,
                                msg: HookMsg::AstrovaultStable(
                                    AstrovaultStableExecuteMsg::Swap {
                                        swap_to_asset_index,
                                        expected_return: 0,
                                    },
                                ),
                            },
                        ),
                    },
                ),
            }
        },
    }
}

/// The full contract of the terminal minimum-receive assertion.
///
/// Only the router itself may run it.  With the recipient's current
/// balance in hand, the step succeeds exactly when the balance grew by at
/// least the declared minimum since the planning-time snapshot (equality
/// accepted); a shortfall reports the required minimum and the actual
/// delta; a balance below the snapshot is an arithmetic fault.
pub open spec fn assert_min_post(
    contract: String,
    sender: String,
    prev_balance: u128,
    minimum_receive: u128,
    current_balance: u128,
    r: Result<(), ContractError>,
) -> bool {
    if sender@ != contract@ {
        r == Err::<(), ContractError>(ContractError::Unauthorized {})
    } else if current_balance < prev_balance {
        r == Err::<(), ContractError>(ContractError::ArithmeticFault {})
    } else if current_balance - prev_balance < minimum_receive {
        r == Err::<(), ContractError>(
            ContractError::AssertionMinimumReceive {
                receive: minimum_receive,
                amount: (current_balance - prev_balance) as u128,
            },
        )
    } else {
        r == Ok::<(), ContractError>(())
    }
}

/// Asserts that the recipient received at least the declared minimum:
/// succeeds exactly when `current_balance - prev_balance >=
/// minimum_receive`.
pub fn assert_minimum_receive(
    contract: &String,
    sender: &String,
    prev_balance: u128,
    minimum_receive: u128,
    current_balance: u128,
) -> (r: Result<(), ContractError>)
    ensures
        assert_min_post(*contract, *sender, prev_balance, minimum_receive, current_balance, r),
        r is Ok <==> (sender@ == contract@ && current_balance >= prev_balance && current_balance
            - prev_balance >= minimum_receive),
{
    if !sender.eq(contract) {
        return Err(ContractError::Unauthorized {});
    }
    let swap_amount = match current_balance.checked_sub(prev_balance) {
        Some(a) => a,
        None => {
            return Err(ContractError::ArithmeticFault {});
        },
    };
    if swap_amount < minimum_receive {
        Err(ContractError::AssertionMinimumReceive { receive: minimum_receive, amount: swap_amount })
    } else {
        Ok(())
    }
}

} // verus!
