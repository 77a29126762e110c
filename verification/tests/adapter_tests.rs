use hallswap::asset::{Asset, AssetInfo};
use hallswap::error::ContractError;
use hallswap::msgs::{
    AstrovaultHybridExecuteMsg, AstrovaultStableExecuteMsg, Coin, Cw20AstrovaultXykExecuteMsg,
    Cw20Msg, HelixExecuteMsg, HookMsg, OutMsg, WireMsg,
};
use hallswap::queries::{
    balance_query, pair_info_for, probe_amount, BalanceQuery, Cw20QueryMsg, PairInfo,
    PairInfoAnswer, PairSimulationResponse, ProbeAnswer, QueryAstrovaultResponse,
    QueryAstrovaultStableSimulationResponse, QueryAstrovaultHybridSimulationResponse,
    QueryOraiDexV2PairResponse,
};
use hallswap::router::swap_pool;
use hallswap::routes::{PairType, SwapInterface, SwapOperation};

fn native(denom: &str) -> AssetInfo {
    AssetInfo::NativeToken { denom: denom.to_string() }
}

fn token(addr: &str) -> AssetInfo {
    AssetInfo::Token { contract_addr: addr.to_string() }
}

fn op_with(pool: &str, offer: AssetInfo, ret: AssetInfo, iface: SwapInterface) -> SwapOperation {
    SwapOperation {
        contract_addr: pool.to_string(),
        offer_asset: offer,
        return_asset: ret,
        interface: Some(iface),
    }
}

/// An order-book invocation carries native funds under the offer identity
/// and names the market, with no venue-side minimum.
#[test]
fn hop_invocation_order_book() {
    let router = "router".to_string();
    let r = swap_pool(
        &router,
        &router,
        op_with(
            "market",
            native("inj"),
            native("uusd"),
            SwapInterface::Helix { market_id: "m1".to_string() },
        ),
        Some(42),
        0,
        None,
    )
    .unwrap();
    assert_eq!(
        r,
        OutMsg::Wasm {
            contract_addr: "market".to_string(),
            funds: Some(Coin { denom: "inj".to_string(), amount: 42 }),
            msg: WireMsg::Helix(HelixExecuteMsg::Swap {
                market_id: "m1".to_string(),
                minimum_receive: None,
                to: None,
            }),
        }
    );
}

/// A stable basket invocation locates the return asset by position in the
/// pool's ordered list and pre-commits to nothing.
#[test]
fn hop_invocation_stable_basket_indexes_return_asset() {
    let router = "router".to_string();
    let pool = PairInfo { asset_infos: vec![native("uusd"), native("uluna"), native("uosmo")] };
    let r = swap_pool(
        &router,
        &router,
        op_with(
            "pool1",
            native("uusd"),
            native("uosmo"),
            SwapInterface::Astrovault { pair_type: PairType::Stable {} },
        ),
        Some(9),
        0,
        Some(&pool),
    )
    .unwrap();
    assert_eq!(
        r,
        OutMsg::Wasm {
            contract_addr: "pool1".to_string(),
            funds: Some(Coin { denom: "uusd".to_string(), amount: 9 }),
            msg: WireMsg::AstrovaultStable(AstrovaultStableExecuteMsg::Swap {
                swap_to_asset_index: 2,
                expected_return: 0,
            }),
        }
    );
}

/// A stable basket hop whose return asset is absent from the pool's list is
/// an invalid route.
#[test]
fn hop_invocation_stable_basket_missing_asset() {
    let router = "router".to_string();
    let pool = PairInfo { asset_infos: vec![native("uusd"), native("uluna")] };
    let r = swap_pool(
        &router,
        &router,
        op_with(
            "pool1",
            native("uusd"),
            native("uosmo"),
            SwapInterface::Astrovault { pair_type: PairType::Stable {} },
        ),
        Some(9),
        0,
        Some(&pool),
    );
    assert_eq!(r, Err(ContractError::InvalidRoute {}));
}

/// Basket invocations with a token offer go through the token contract's
/// send hook.
#[test]
fn hop_invocation_basket_token_hooks() {
    let router = "router".to_string();
    let xyk = swap_pool(
        &router,
        &router,
        op_with(
            "pool1",
            token("tokenA"),
            native("uluna"),
            SwapInterface::Astrovault { pair_type: PairType::Xyk {} },
        ),
        Some(5),
        0,
        None,
    )
    .unwrap();
    assert_eq!(
        xyk,
        OutMsg::Wasm {
            contract_addr: "tokenA".to_string(),
            funds: None,
            msg: WireMsg::Cw20(Cw20Msg::Send {
                contract: "pool1".to_string(),
                amount: 5,
                msg: HookMsg::AstrovaultXyk(Cw20AstrovaultXykExecuteMsg::Swap {}),
            }),
        }
    );

    let hybrid = swap_pool(
        &router,
        &router,
        op_with(
            "pool2",
            native("uusd"),
            native("uluna"),
            SwapInterface::Astrovault { pair_type: PairType::Hybrid {} },
        ),
        Some(6),
        0,
        None,
    )
    .unwrap();
    assert_eq!(
        hybrid,
        OutMsg::Wasm {
            contract_addr: "pool2".to_string(),
            funds: Some(Coin { denom: "uusd".to_string(), amount: 6 }),
            msg: WireMsg::AstrovaultHybrid(AstrovaultHybridExecuteMsg::Swap {}),
        }
    );
}

/// A failed probe answer stands for a dead route and maps to zero output;
/// a present answer hands back the venue's reported amount.
#[test]
fn probe_answers_map_to_amounts() {
    assert_eq!(
        probe_amount(&ProbeAnswer::Pair(Some(PairSimulationResponse { return_amount: 123 }))),
        123
    );
    assert_eq!(probe_amount(&ProbeAnswer::Pair(None)), 0);
    assert_eq!(
        probe_amount(&ProbeAnswer::Helix(Some(PairSimulationResponse { return_amount: 9 }))),
        9
    );
    assert_eq!(probe_amount(&ProbeAnswer::Helix(None)), 0);
    assert_eq!(
        probe_amount(&ProbeAnswer::AstrovaultStable {
            response: Some(QueryAstrovaultStableSimulationResponse {
                swap_to_assets_amount: vec![11, 22, 33],
            }),
            swap_to_asset_index: 1,
        }),
        22
    );
    // an absent position is treated as zero output
    assert_eq!(
        probe_amount(&ProbeAnswer::AstrovaultStable {
            response: Some(QueryAstrovaultStableSimulationResponse {
                swap_to_assets_amount: vec![11],
            }),
            swap_to_asset_index: 5,
        }),
        0
    );
    assert_eq!(
        probe_amount(&ProbeAnswer::AstrovaultStable { response: None, swap_to_asset_index: 0 }),
        0
    );
    assert_eq!(
        probe_amount(&ProbeAnswer::AstrovaultHybrid(Some(
            QueryAstrovaultHybridSimulationResponse { to_amount_minus_fee: 77 }
        ))),
        77
    );
    assert_eq!(probe_amount(&ProbeAnswer::AstrovaultHybrid(None)), 0);
}

/// Each interface family's metadata answer resolves to the uniform pair
/// shape; a mismatched answer is an invalid route.
#[test]
fn pair_metadata_answers_resolve_per_interface() {
    let pair = PairInfo { asset_infos: vec![native("uusd"), native("uluna")] };
    assert_eq!(
        pair_info_for(&SwapInterface::Astroport {}, PairInfoAnswer::Pair(pair.clone())),
        Ok(pair.clone())
    );
    assert_eq!(
        pair_info_for(
            &SwapInterface::Astrovault { pair_type: PairType::Stable {} },
            PairInfoAnswer::Astrovault(QueryAstrovaultResponse {
                asset_infos: vec![native("uusd"), native("uluna")],
            }),
        ),
        Ok(pair.clone())
    );
    assert_eq!(
        pair_info_for(
            &SwapInterface::OraiDexV2 {},
            PairInfoAnswer::OraiDexV2(QueryOraiDexV2PairResponse { info: pair.clone() }),
        ),
        Ok(pair.clone())
    );
    assert_eq!(
        pair_info_for(
            &SwapInterface::Astroport {},
            PairInfoAnswer::Astrovault(QueryAstrovaultResponse { asset_infos: vec![] }),
        ),
        Err(ContractError::InvalidRoute {})
    );
}

/// Balance reads dispatch on the asset kind: a bank query for a native
/// coin, a token-contract query for a contract token.
#[test]
fn balance_queries_dispatch_on_asset_kind() {
    assert_eq!(
        balance_query(&"alice".to_string(), &native("uusd")),
        BalanceQuery::Native { address: "alice".to_string(), denom: "uusd".to_string() }
    );
    assert_eq!(
        balance_query(&"alice".to_string(), &token("tokenA")),
        BalanceQuery::Cw20 {
            token: "tokenA".to_string(),
            msg: Cw20QueryMsg::Balance { address: "alice".to_string() },
        }
    );
}

/// An explicit amount wins over the balance; an asset's identity is its
/// denom or address.
#[test]
fn asset_identities() {
    assert_eq!(native("uusd").id(), "uusd");
    assert_eq!(token("tokenA").id(), "tokenA");
    assert_eq!(Asset { info: token("tokenA"), amount: 5 }.id(), "tokenA");
}
