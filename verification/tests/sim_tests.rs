use hallswap::asset::{Asset, AssetInfo};
use hallswap::config::Config;
use hallswap::error::ContractError;
use hallswap::queries::{PairInfo, PairQueryMsg, ProbeMsg, QueryAstrovaultStable};
use hallswap::routes::{PairType, RouteInfoV2, SwapInterface, SwapOperation};
use hallswap::sim::{SimStep, SimulationRun};

fn native(denom: &str) -> AssetInfo {
    AssetInfo::NativeToken { denom: denom.to_string() }
}

fn op(pool: &str, offer: AssetInfo, ret: AssetInfo) -> SwapOperation {
    SwapOperation {
        contract_addr: pool.to_string(),
        offer_asset: offer,
        return_asset: ret,
        interface: None,
    }
}

fn config(bps: u16, fee_assets: Vec<&str>) -> Config {
    Config {
        owner: "owner".to_string(),
        fee_address: "collector".to_string(),
        fee_bps: bps,
        fee_assets: fee_assets.into_iter().map(|s| s.to_string()).collect(),
    }
}

/// A one-hop simulation with a fee-eligible offer: the fee is charged up
/// front, the probe offers the net amount, and the quote reports the
/// probed output with the fee against the offer asset — the same split
/// execution realizes.
#[test]
fn simulation_pre_swap_fee_single_hop() {
    let cfg = config(100, vec!["uusd"]);
    let routes = vec![RouteInfoV2 {
        route: vec![op("pool1", native("uusd"), native("uluna"))],
        offer_amount: 1_000_000,
    }];
    let run = SimulationRun::start(&cfg, routes).unwrap();
    assert_eq!(run.current, Asset { info: native("uusd"), amount: 990_000 });
    assert_eq!(run.fee_collected, 10_000);
    assert_eq!(run.pending_op(), &op("pool1", native("uusd"), native("uluna")));

    let pool = PairInfo { asset_infos: vec![native("uusd"), native("uluna")] };
    let probe = run.probe_query(&pool).unwrap();
    assert_eq!(probe.contract_addr, "pool1");
    assert_eq!(
        probe.msg,
        ProbeMsg::Pair(PairQueryMsg::Simulation {
            offer_asset: Asset { info: native("uusd"), amount: 990_000 },
        })
    );

    match run.advance(&pool, 950_000).unwrap() {
        SimStep::Done(q) => {
            assert_eq!(q.return_asset, Asset { info: native("uluna"), amount: 950_000 });
            assert_eq!(q.fee_asset, Some(Asset { info: native("uusd"), amount: 10_000 }));
        }
        SimStep::Continue(_) => panic!("one-hop walk should finish"),
    }
}

/// Two routes with an ineligible offer asset: outputs accumulate and the
/// post-swap fee is charged on the total, against the return asset.
#[test]
fn simulation_post_swap_fee_two_routes() {
    let cfg = config(50, vec!["uusd"]);
    let routes = vec![
        RouteInfoV2 {
            route: vec![op("pool1", native("uluna"), native("uyy"))],
            offer_amount: 100_000,
        },
        RouteInfoV2 {
            route: vec![op("pool2", native("uluna"), native("uyy"))],
            offer_amount: 200_000,
        },
    ];
    let run = SimulationRun::start(&cfg, routes).unwrap();
    assert_eq!(run.fee_collected, 0);
    assert_eq!(run.current, Asset { info: native("uluna"), amount: 100_000 });

    let pool = PairInfo { asset_infos: vec![native("uluna"), native("uyy")] };
    let run = match run.advance(&pool, 300_000).unwrap() {
        SimStep::Continue(r) => r,
        SimStep::Done(_) => panic!("a second route is pending"),
    };
    assert_eq!(run.total_return, 300_000);
    assert_eq!(run.current, Asset { info: native("uluna"), amount: 200_000 });

    match run.advance(&pool, 200_000).unwrap() {
        SimStep::Done(q) => {
            // 500_000 at 50 bps: fee 2_500, net 497_500, both on the return asset
            assert_eq!(q.return_asset, Asset { info: native("uyy"), amount: 497_500 });
            assert_eq!(q.fee_asset, Some(Asset { info: native("uyy"), amount: 2_500 }));
        }
        SimStep::Continue(_) => panic!("walk should finish after the second route"),
    }
}

/// A stable basket hop is probed by asset positions in the pool's ordered
/// list.
#[test]
fn simulation_probes_stable_basket_by_position() {
    let cfg = config(0, vec![]);
    let routes = vec![RouteInfoV2 {
        route: vec![SwapOperation {
            contract_addr: "pool1".to_string(),
            offer_asset: native("uluna"),
            return_asset: native("uosmo"),
            interface: Some(SwapInterface::Astrovault { pair_type: PairType::Stable {} }),
        }],
        offer_amount: 5_000,
    }];
    let run = SimulationRun::start(&cfg, routes).unwrap();
    let pool = PairInfo { asset_infos: vec![native("uusd"), native("uluna"), native("uosmo")] };
    let probe = run.probe_query(&pool).unwrap();
    assert_eq!(
        probe.msg,
        ProbeMsg::AstrovaultStable(QueryAstrovaultStable::SwapSimulation {
            amount: 5_000,
            swap_from_asset_index: 1,
            swap_to_asset_index: 2,
        })
    );
}

/// A hop whose probed output is zero marks a dead route.
#[test]
fn simulation_zero_probe_is_dead_route() {
    let cfg = config(0, vec![]);
    let routes = vec![RouteInfoV2 {
        route: vec![op("pool1", native("uusd"), native("uluna"))],
        offer_amount: 10,
    }];
    let run = SimulationRun::start(&cfg, routes).unwrap();
    let pool = PairInfo { asset_infos: vec![native("uusd"), native("uluna")] };
    assert_eq!(run.advance(&pool, 0), Err(ContractError::InvalidRoute {}));
}

/// An empty route set, or one holding any empty route, cannot be
/// simulated.
#[test]
fn simulation_empty_route_set_rejected() {
    let cfg = config(0, vec![]);
    assert_eq!(
        SimulationRun::start(&cfg, Vec::new()),
        Err(ContractError::InvalidRoute {})
    );
    let routes = vec![
        RouteInfoV2 {
            route: vec![op("pool1", native("uusd"), native("uluna"))],
            offer_amount: 10,
        },
        RouteInfoV2 { route: Vec::new(), offer_amount: 10 },
    ];
    assert_eq!(
        SimulationRun::start(&cfg, routes),
        Err(ContractError::InvalidRoute {})
    );
}

/// A hop whose offer asset is absent from the pool's resolved list cannot
/// be probed.
#[test]
fn simulation_unresolved_asset_rejected() {
    let cfg = config(0, vec![]);
    let routes = vec![RouteInfoV2 {
        route: vec![op("pool1", native("uusd"), native("uluna"))],
        offer_amount: 10,
    }];
    let run = SimulationRun::start(&cfg, routes).unwrap();
    let pool = PairInfo { asset_infos: vec![native("uosmo"), native("uluna")] };
    assert_eq!(run.probe_query(&pool), Err(ContractError::InvalidRoute {}));
}

/// Within one route the probed output becomes the next hop's offer, under
/// the identity the pool's list spells for the return asset.
#[test]
fn simulation_propagates_amounts_between_hops() {
    let cfg = config(0, vec![]);
    let routes = vec![RouteInfoV2 {
        route: vec![
            op("pool1", native("uusd"), native("uluna")),
            op("pool2", native("uluna"), native("uosmo")),
        ],
        offer_amount: 1_000,
    }];
    let run = SimulationRun::start(&cfg, routes).unwrap();
    let pool1 = PairInfo { asset_infos: vec![native("uusd"), native("uluna")] };
    let run = match run.advance(&pool1, 900).unwrap() {
        SimStep::Continue(r) => r,
        SimStep::Done(_) => panic!("a second hop is pending"),
    };
    assert_eq!(run.current, Asset { info: native("uluna"), amount: 900 });
    assert_eq!(run.pending_op(), &op("pool2", native("uluna"), native("uosmo")));

    let pool2 = PairInfo { asset_infos: vec![native("uluna"), native("uosmo")] };
    match run.advance(&pool2, 800).unwrap() {
        SimStep::Done(q) => {
            assert_eq!(q.return_asset, Asset { info: native("uosmo"), amount: 800 });
            assert_eq!(q.fee_asset, None);
        }
        SimStep::Continue(_) => panic!("walk should finish"),
    }
}
