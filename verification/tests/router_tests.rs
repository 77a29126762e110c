use hallswap::asset::{Asset, AssetInfo};
use hallswap::config::Config;
use hallswap::error::ContractError;
use hallswap::msgs::{
    Coin, Cw20Msg, ExecuteMsg, HookMsg, OutMsg, PairExecuteMsg, WireMsg, BELIEF_PRICE_RAW,
    MAX_SLIPPAGE_RAW,
};
use hallswap::router::{assert_minimum_receive, post_swap, swap, swap_pool};
use hallswap::routes::{RouteInfoV2, SwapInterface, SwapOperation};

fn native(denom: &str) -> AssetInfo {
    AssetInfo::NativeToken { denom: denom.to_string() }
}

fn token(addr: &str) -> AssetInfo {
    AssetInfo::Token { contract_addr: addr.to_string() }
}

fn op(pool: &str, offer: AssetInfo, ret: AssetInfo) -> SwapOperation {
    SwapOperation {
        contract_addr: pool.to_string(),
        offer_asset: offer,
        return_asset: ret,
        interface: None,
    }
}

fn config(bps: u16, fee_assets: Vec<&str>) -> Config {
    Config {
        owner: "owner".to_string(),
        fee_address: "collector".to_string(),
        fee_bps: bps,
        fee_assets: fee_assets.into_iter().map(|s| s.to_string()).collect(),
    }
}

fn self_step(payload: ExecuteMsg) -> OutMsg {
    OutMsg::Wasm { contract_addr: "router".to_string(), funds: None, msg: WireMsg::Router(payload) }
}

/// Scenario: a fee-eligible offer of 1,000,000 through one constant-product
/// hop at 100 bps charges 10,000 up front and lets 990,000 enter the pool.
#[test]
fn scenario_pre_swap_fee_single_hop() {
    let cfg = config(100, vec!["uusd"]);
    let routes = vec![RouteInfoV2 {
        route: vec![op("pool1", native("uusd"), native("uluna"))],
        offer_amount: 1_000_000,
    }];
    let resp = swap(
        &cfg,
        &"router".to_string(),
        "alice".to_string(),
        routes,
        900_000,
        None,
        10_000,
    )
    .unwrap();

    assert_eq!(resp.msgs.len(), 4);
    assert_eq!(
        resp.msgs[0],
        self_step(ExecuteMsg::ExecuteSwapOp {
            operation: op("pool1", native("uusd"), native("uluna")),
            amount: Some(990_000),
        })
    );
    // the pre-swap fee goes to the collector as a bank send of the offer asset
    assert_eq!(
        resp.msgs[1],
        OutMsg::Bank {
            to_address: "collector".to_string(),
            amount: Coin { denom: "uusd".to_string(), amount: 10_000 },
        }
    );
    assert_eq!(
        resp.msgs[2],
        self_step(ExecuteMsg::ExecutePostSwap {
            offer_asset_info: native("uusd"),
            offer_amount: 1_000_000,
            return_asset_info: native("uluna"),
            to: "alice".to_string(),
        })
    );
    assert_eq!(
        resp.msgs[3],
        self_step(ExecuteMsg::AssertMinimumReceive {
            receiver: "alice".to_string(),
            asset_info: native("uluna"),
            prev_balance: 10_000,
            minimum_receive: 900_000,
        })
    );
    assert_eq!(
        resp.fees_collected,
        Some(Asset { info: native("uusd"), amount: 10_000 })
    );

    // execution succeeds iff the pool's output reaches the minimum
    let router = "router".to_string();
    assert!(assert_minimum_receive(&router, &router, 10_000, 900_000, 910_000).is_ok());
    assert_eq!(
        assert_minimum_receive(&router, &router, 10_000, 900_000, 909_999),
        Err(ContractError::AssertionMinimumReceive { receive: 900_000, amount: 899_999 })
    );
}

/// The settlement step reports the sum of per-route offer amounts, and each
/// route's first hop carries its fee-adjusted offer amount.
#[test]
fn total_offer_is_sum_of_routes_and_fee_precedes_hops() {
    let cfg = config(100, vec!["uusd"]);
    let routes = vec![
        RouteInfoV2 {
            route: vec![op("pool1", native("uusd"), native("uluna"))],
            offer_amount: 600_000,
        },
        RouteInfoV2 {
            route: vec![
                op("pool2", native("uusd"), token("tokenA")),
                op("pool3", token("tokenA"), native("uluna")),
            ],
            offer_amount: 400_000,
        },
    ];
    let resp = swap(
        &cfg,
        &"router".to_string(),
        "alice".to_string(),
        routes,
        0,
        Some("bob".to_string()),
        0,
    )
    .unwrap();

    // 3 hop steps, one fee transfer, settle, assert
    assert_eq!(resp.msgs.len(), 6);
    // first hops carry the net amounts: 600_000 - 6_000 and 400_000 - 4_000
    match &resp.msgs[0] {
        OutMsg::Wasm { msg: WireMsg::Router(ExecuteMsg::ExecuteSwapOp { amount, .. }), .. } => {
            assert_eq!(*amount, Some(594_000));
        }
        other => panic!("unexpected first hop: {:?}", other),
    }
    match &resp.msgs[1] {
        OutMsg::Wasm { msg: WireMsg::Router(ExecuteMsg::ExecuteSwapOp { amount, .. }), .. } => {
            assert_eq!(*amount, Some(396_000));
        }
        other => panic!("unexpected second route first hop: {:?}", other),
    }
    // a later hop re-derives its amount from the router's balance
    match &resp.msgs[2] {
        OutMsg::Wasm { msg: WireMsg::Router(ExecuteMsg::ExecuteSwapOp { amount, .. }), .. } => {
            assert_eq!(*amount, None);
        }
        other => panic!("unexpected second hop: {:?}", other),
    }
    // the settlement step reports the gross total
    match &resp.msgs[4] {
        OutMsg::Wasm {
            msg: WireMsg::Router(ExecuteMsg::ExecutePostSwap { offer_amount, to, .. }),
            ..
        } => {
            assert_eq!(*offer_amount, 1_000_000);
            assert_eq!(to, "bob");
        }
        other => panic!("unexpected settle step: {:?}", other),
    }
    assert_eq!(
        resp.fees_collected,
        Some(Asset { info: native("uusd"), amount: 10_000 })
    );
}

/// Scenario: an empty route set is rejected as an invalid route and plans
/// nothing.
#[test]
fn scenario_empty_route_set_rejected() {
    let cfg = config(100, vec!["uusd"]);
    let r = swap(
        &cfg,
        &"router".to_string(),
        "alice".to_string(),
        Vec::new(),
        900_000,
        None,
        0,
    );
    assert_eq!(r, Err(ContractError::InvalidRoute {}));

    // a route set holding any empty route is rejected the same way
    let r2 = swap(
        &cfg,
        &"router".to_string(),
        "alice".to_string(),
        vec![RouteInfoV2 { route: Vec::new(), offer_amount: 5 }],
        0,
        None,
        0,
    );
    assert_eq!(r2, Err(ContractError::InvalidRoute {}));
    let r3 = swap(
        &cfg,
        &"router".to_string(),
        "alice".to_string(),
        vec![
            RouteInfoV2 {
                route: vec![op("pool1", native("uusd"), native("uluna"))],
                offer_amount: 5,
            },
            RouteInfoV2 { route: Vec::new(), offer_amount: 5 },
        ],
        0,
        None,
        0,
    );
    assert_eq!(r3, Err(ContractError::InvalidRoute {}));
}

/// An ineligible offer asset leaves the fee to settlement: no transfer is
/// planned and no transient fee record is stored.
#[test]
fn ineligible_offer_stores_no_fee_record() {
    let cfg = config(50, vec!["uusd"]);
    let routes = vec![RouteInfoV2 {
        route: vec![op("pool1", native("uluna"), native("uyy"))],
        offer_amount: 250_000,
    }];
    let resp = swap(
        &cfg,
        &"router".to_string(),
        "alice".to_string(),
        routes,
        0,
        None,
        0,
    )
    .unwrap();
    // one hop with the full amount, settle, assert — no fee transfer
    assert_eq!(resp.msgs.len(), 3);
    match &resp.msgs[0] {
        OutMsg::Wasm { msg: WireMsg::Router(ExecuteMsg::ExecuteSwapOp { amount, .. }), .. } => {
            assert_eq!(*amount, Some(250_000));
        }
        other => panic!("unexpected hop: {:?}", other),
    }
    assert_eq!(resp.fees_collected, None);
}

/// Scenario: at 50 bps with an ineligible offer asset, settlement of a
/// 500,000 return charges 2,500 post-swap, pays 497,500 to the recipient,
/// and clears the transient fee record.
#[test]
fn scenario_post_swap_fee_at_settlement() {
    let cfg = config(50, vec!["uusd"]);
    let resp = post_swap(
        &cfg,
        &"router".to_string(),
        &"router".to_string(),
        native("uluna"),
        1_000_000,
        native("uyy"),
        "bob".to_string(),
        500_000,
        None,
    )
    .unwrap();
    assert_eq!(resp.msgs.len(), 2);
    assert_eq!(
        resp.msgs[0],
        OutMsg::Bank {
            to_address: "collector".to_string(),
            amount: Coin { denom: "uyy".to_string(), amount: 2_500 },
        }
    );
    assert_eq!(
        resp.msgs[1],
        OutMsg::Bank {
            to_address: "bob".to_string(),
            amount: Coin { denom: "uyy".to_string(), amount: 497_500 },
        }
    );
    assert_eq!(resp.fees_collected, None);
    assert_eq!(resp.record.return_amount, 497_500);
    assert_eq!(resp.record.fee, Some(Asset { info: native("uyy"), amount: 2_500 }));
    assert_eq!(resp.record.receiver, "bob");
}

/// A present fee record means the fee was charged pre-swap: settlement pays
/// the whole balance out, reports the record, and clears it; a subsequent
/// settlement therefore takes the post-swap branch and never re-charges the
/// stale record.
#[test]
fn settlement_clears_fee_record_and_never_double_charges() {
    let cfg = config(100, vec!["uusd"]);
    let stale = Asset { info: native("uusd"), amount: 10_000 };
    let first = post_swap(
        &cfg,
        &"router".to_string(),
        &"router".to_string(),
        native("uusd"),
        1_000_000,
        native("uluna"),
        "bob".to_string(),
        990_000,
        Some(stale.clone()),
    )
    .unwrap();
    // the whole realized balance is paid out; the record is reported once
    assert_eq!(first.msgs.len(), 1);
    assert_eq!(
        first.msgs[0],
        OutMsg::Bank {
            to_address: "bob".to_string(),
            amount: Coin { denom: "uluna".to_string(), amount: 990_000 },
        }
    );
    assert_eq!(first.record.fee, Some(stale));
    assert_eq!(first.fees_collected, None);

    // a hypothetical second settlement starts from the cleared record and
    // charges on the balance it sees, not on the stale record
    let second = post_swap(
        &cfg,
        &"router".to_string(),
        &"router".to_string(),
        native("uusd"),
        1_000_000,
        native("uluna"),
        "bob".to_string(),
        40_000,
        first.fees_collected,
    )
    .unwrap();
    assert_eq!(second.record.fee, Some(Asset { info: native("uluna"), amount: 400 }));
    assert_eq!(second.record.return_amount, 39_600);
    assert_eq!(second.fees_collected, None);
}

/// A zero rate charges nothing at settlement.
#[test]
fn settlement_zero_rate_charges_nothing() {
    let cfg = config(0, vec![]);
    let resp = post_swap(
        &cfg,
        &"router".to_string(),
        &"router".to_string(),
        native("uusd"),
        1,
        native("uluna"),
        "bob".to_string(),
        12_345,
        None,
    )
    .unwrap();
    assert_eq!(resp.msgs.len(), 1);
    assert_eq!(resp.record.fee, None);
    assert_eq!(resp.record.return_amount, 12_345);
}

/// Scenario: an internal step invoked by an outside caller fails with
/// Unauthorized and plans nothing.
#[test]
fn scenario_internal_steps_reject_external_callers() {
    let cfg = config(0, vec![]);
    let router = "router".to_string();
    let mallory = "mallory".to_string();
    assert_eq!(
        swap_pool(
            &router,
            &mallory,
            op("pool1", native("uusd"), native("uluna")),
            Some(5),
            0,
            None,
        ),
        Err(ContractError::Unauthorized {})
    );
    assert_eq!(
        post_swap(
            &cfg,
            &router,
            &mallory,
            native("uusd"),
            1,
            native("uluna"),
            "bob".to_string(),
            1,
            None,
        ),
        Err(ContractError::Unauthorized {})
    );
    assert_eq!(
        assert_minimum_receive(&router, &mallory, 0, 0, 0),
        Err(ContractError::Unauthorized {})
    );
}

/// The terminal assertion succeeds exactly on a delta at or above the
/// minimum; equality is accepted, and a balance below the snapshot is an
/// arithmetic fault.
#[test]
fn minimum_receive_boundary() {
    let router = "router".to_string();
    assert_eq!(assert_minimum_receive(&router, &router, 100, 50, 150), Ok(()));
    assert_eq!(assert_minimum_receive(&router, &router, 100, 50, 151), Ok(()));
    assert_eq!(
        assert_minimum_receive(&router, &router, 100, 50, 149),
        Err(ContractError::AssertionMinimumReceive { receive: 50, amount: 49 })
    );
    assert_eq!(
        assert_minimum_receive(&router, &router, 100, 50, 99),
        Err(ContractError::ArithmeticFault {})
    );
    assert_eq!(assert_minimum_receive(&router, &router, 100, 0, 100), Ok(()));
}

/// Accounting that cannot fit the 128-bit range is an arithmetic fault.
#[test]
fn overflowing_offer_total_faults() {
    let cfg = config(0, vec![]);
    let routes = vec![
        RouteInfoV2 {
            route: vec![op("pool1", native("uusd"), native("uluna"))],
            offer_amount: u128::MAX,
        },
        RouteInfoV2 {
            route: vec![op("pool2", native("uusd"), native("uluna"))],
            offer_amount: 1,
        },
    ];
    let r = swap(&cfg, &"router".to_string(), "alice".to_string(), routes, 0, None, 0);
    assert_eq!(r, Err(ContractError::ArithmeticFault {}));
}

/// A constant-product invocation with a native offer attaches the funds and
/// forces the permissive price ceiling and slippage tolerance.
#[test]
fn hop_invocation_constant_product_native() {
    let router = "router".to_string();
    let r = swap_pool(
        &router,
        &router,
        op("pool1", native("uusd"), native("uluna")),
        Some(100),
        0,
        None,
    )
    .unwrap();
    assert_eq!(
        r,
        OutMsg::Wasm {
            contract_addr: "pool1".to_string(),
            funds: Some(Coin { denom: "uusd".to_string(), amount: 100 }),
            msg: WireMsg::Pair(PairExecuteMsg::Swap {
                offer_asset: Asset { info: native("uusd"), amount: 100 },
                belief_price: Some(BELIEF_PRICE_RAW),
                max_spread: Some(MAX_SLIPPAGE_RAW),
                to: None,
            }),
        }
    );
}

/// A token offer reaches the pool through the token contract's send hook.
#[test]
fn hop_invocation_constant_product_token() {
    let router = "router".to_string();
    let r = swap_pool(
        &router,
        &router,
        op("pool1", token("tokenA"), native("uluna")),
        None,
        777,
        None,
    )
    .unwrap();
    match r {
        OutMsg::Wasm { contract_addr, funds, msg } => {
            assert_eq!(contract_addr, "tokenA");
            assert_eq!(funds, None);
            match msg {
                WireMsg::Cw20(Cw20Msg::Send { contract, amount, msg }) => {
                    assert_eq!(contract, "pool1");
                    // no explicit amount: the router's own balance stands in
                    assert_eq!(amount, 777);
                    assert!(matches!(msg, HookMsg::Pair(_)));
                }
                other => panic!("unexpected payload: {:?}", other),
            }
        }
        other => panic!("unexpected message: {:?}", other),
    }
}
