//! Route topology: hops, routes, route sets, and the planner that
//! validates them and derives the global offer/return asset pair.
//!
//! A route is an ordered list of hops; each hop names the pool it swaps
//! through, its offer and return asset identities, and the venue interface
//! the pool speaks.  A route set is a list of routes executed in parallel
//! within one transaction; the global offer and return assets are derived
//! from the first route alone.

use vstd::prelude::*;

use crate::asset::{spec_find_other, AssetInfo};
use crate::error::ContractError;
use crate::queries::PairInfo;

verus! {

/// The shape of a basket pool.
#[derive(Debug, Clone, Copy, PartialEq, Eq)]
pub enum PairType {
    Stable {},
    Xyk {},
    Hybrid {},
}

/// The venue families a hop can swap through.
#[derive(Debug, PartialEq, Eq)]
pub enum SwapInterface {
    Astroport {},
    Astrovault { pair_type: PairType },
    Helix { market_id: String },
    OraiDexV2 {},
}

impl Clone for SwapInterface {
    fn clone(&self) -> (res: Self)
        ensures
            res == *self,
    {
        match self {
            SwapInterface::Astroport {} => SwapInterface::Astroport {},
            SwapInterface::Astrovault { pair_type } => SwapInterface::Astrovault {
                pair_type: *pair_type,
            },
            SwapInterface::Helix { market_id } => SwapInterface::Helix {
                market_id: market_id.clone(),
            },
            SwapInterface::OraiDexV2 {} => SwapInterface::OraiDexV2 {},
        }
    }
}

/// One hop: the pool it swaps through, the asset it offers, the asset it
/// expects back, and the interface the pool speaks (absent means the
/// primary constant-product interface).
#[derive(Debug, PartialEq, Eq)]
pub struct SwapOperation {
    pub contract_addr: String,
    pub offer_asset: AssetInfo,
    pub return_asset: AssetInfo,
    pub interface: Option<SwapInterface>,
}

impl Clone for SwapOperation {
    fn clone(&self) -> (res: Self)
        ensures
            res == *self,
    {
        SwapOperation {
            contract_addr: self.contract_addr.clone(),
            offer_asset: self.offer_asset.clone(),
            return_asset: self.return_asset.clone(),
            interface: match &self.interface {
                Some(i) => Some(i.clone()),
                None => None,
            },
        }
    }
}

/// A legacy hop: only the pool address and interface; the asset pair is
/// resolved from the pool's own metadata.
#[derive(Debug, PartialEq, Eq)]
pub struct ContractInfo {
    pub contract_addr: String,
    pub interface: Option<SwapInterface>,
}

impl Clone for ContractInfo {
    fn clone(&self) -> (res: Self)
        ensures
            res == *self,
    {
        ContractInfo {
            contract_addr: self.contract_addr.clone(),
            interface: match &self.interface {
                Some(i) => Some(i.clone()),
                None => None,
            },
        }
    }
}

/// A legacy route: pools only, with the route's own offer amount.
#[derive(Debug, Clone, PartialEq, Eq)]
pub struct RouteInfo {
    pub route: Vec<ContractInfo>,
    pub offer_amount: u128,
}

/// A route: explicit hops, with the route's own offer amount.
#[derive(Debug, Clone, PartialEq, Eq)]
pub struct RouteInfoV2 {
    pub route: Vec<SwapOperation>,
    pub offer_amount: u128,
}

impl ContractInfo {
    /// The interface this pool speaks; absent defaults to the primary
    /// constant-product interface.
    pub open spec fn spec_interface(&self) -> SwapInterface {
        match self.interface {
            Some(i) => i,
            None => SwapInterface::Astroport {},
        }
    }

    /// Defaults to Astroport.
    pub fn interface(&self) -> (r: SwapInterface)
        ensures
            r == self.spec_interface(),
    {
        match &self.interface {
            Some(i) => i.clone(),
            None => SwapInterface::Astroport {},
        }
    }
}

impl SwapOperation {
    /// The interface this hop swaps through; absent defaults to the
    /// primary constant-product interface.
    pub open spec fn spec_interface(&self) -> SwapInterface {
        match self.interface {
            Some(i) => i,
            None => SwapInterface::Astroport {},
        }
    }

    /// Defaults to Astroport.
    pub fn interface(&self) -> (r: SwapInterface)
        ensures
            r == self.spec_interface(),
    {
        match &self.interface {
            Some(i) => i.clone(),
            None => SwapInterface::Astroport {},
        }
    }
}

/// A route set is well-shaped enough to derive the global asset pair:
/// there is a first route and it has at least one hop.
pub open spec fn route_set_nonempty(routes: Seq<RouteInfoV2>) -> bool {
    routes.len() > 0 && routes[0].route.len() > 0
}

/// The global offer asset: the offer asset of the first hop of the first
/// route.
pub open spec fn spec_offer_asset(routes: Seq<RouteInfoV2>) -> AssetInfo {
    routes[0].route[0].offer_asset
}

/// The global return asset: the return asset of the last hop of the first
/// route.
pub open spec fn spec_return_asset(routes: Seq<RouteInfoV2>) -> AssetInfo {
    routes[0].route[routes[0].route.len() - 1].return_asset
}

/// Derives the global offer/return asset pair of a route set, rejecting a
/// route set whose first route is missing or empty.
pub fn get_offer_return_asset(routes: &Vec<RouteInfoV2>) -> (r: Result<
    (AssetInfo, AssetInfo),
    ContractError,
>)
    ensures
        !route_set_nonempty(routes@) ==> r == Err::<(AssetInfo, AssetInfo), ContractError>(
            ContractError::InvalidRoute {},
        ),
        route_set_nonempty(routes@) ==> r == Ok::<(AssetInfo, AssetInfo), ContractError>(
            (spec_offer_asset(routes@), spec_return_asset(routes@)),
        ),
{
    if routes.len() == 0 {
        return Err(ContractError::InvalidRoute {});
    }
    let first = &routes[0];
    if first.route.len() == 0 {
        return Err(ContractError::InvalidRoute {});
    }
    let offer = first.route[0].offer_asset.clone();
    let ret = first.route[first.route.len() - 1].return_asset.clone();
    Ok((offer, ret))
}

/// The hops of one normalized legacy route, starting from hop `j` with
/// running offer asset `offer`: each hop's return asset is the first asset
/// of that pool's resolved pair that differs from the running offer asset,
/// which then becomes the next hop's offer asset.  `None` marks a pool
/// whose resolved pair does not expose a differing asset.
pub open spec fn normalized_hops_from(
    route: Seq<ContractInfo>,
    infos: Seq<PairInfo>,
    offer: AssetInfo,
    j: int,
) -> Option<Seq<SwapOperation>>
    decreases route.len() - j,
{
    if j < 0 || j >= route.len() {
        Some(Seq::empty())
    } else {
        match spec_find_other(infos[j].asset_infos@, offer.spec_id()) {
            None => None,
            Some(ret) => match normalized_hops_from(route, infos, ret, j + 1) {
                None => None,
                Some(rest) => Some(
                    seq![
                        SwapOperation {
                            contract_addr: route[j].contract_addr,
                            offer_asset: offer,
                            return_asset: ret,
                            interface: route[j].interface,
                        }
                    ] + rest,
                ),
            },
        }
    }
}

/// The normalized form of one legacy route.
pub open spec fn spec_normalized_route(
    route: Seq<ContractInfo>,
    infos: Seq<PairInfo>,
    offer: AssetInfo,
) -> Option<Seq<SwapOperation>> {
    normalized_hops_from(route, infos, offer, 0)
}

/// Upgrades one legacy route to its explicit-hop form, given the resolved
/// asset pair of each of its pools (one `PairInfo` per pool, in hop
/// order).  Fails with an invalid-route error on a pool whose resolved
/// pair exposes no asset differing from the running offer asset.
pub fn normalize_route(
    offer_asset_info: &AssetInfo,
    route: &Vec<ContractInfo>,
    infos: &Vec<PairInfo>,
) -> (r: Result<Vec<SwapOperation>, ContractError>)
    requires
        infos@.len() == route@.len(),
    ensures
        match spec_normalized_route(route@, infos@, *offer_asset_info) {
            Some(ops) => r matches Ok(v) && v@ == ops,
            None => r == Err::<Vec<SwapOperation>, ContractError>(ContractError::InvalidRoute {}),
        },
{
    let n = route.len();
    let mut ops: Vec<SwapOperation> = Vec::new();
    let mut offer = offer_asset_info.clone();
    let mut j: usize = 0;
    while j < n
        invariant
            n == route@.len(),
            infos@.len() == route@.len(),
            j <= n,
            match normalized_hops_from(route@, infos@, offer, j as int) {
                Some(rest) => spec_normalized_route(route@, infos@, *offer_asset_info) == Some(
                    ops@ + rest,
                ),
                None => spec_normalized_route(route@, infos@, *offer_asset_info) is None,
            },
        decreases n - j,
    {
        let offer_id = offer.id();
        let found = crate::asset::find_other_than_id(&infos[j].asset_infos, &offer_id);
        match found {
            None => {
                return Err(ContractError::InvalidRoute {});
            },
            Some(ret) => {
                ops.push(
                    SwapOperation {
                        contract_addr: route[j].contract_addr.clone(),
                        offer_asset: offer,
                        return_asset: ret.clone(),
                        interface: match &route[j].interface {
                            Some(i) => Some(i.clone()),
                            None => None,
                        },
                    },
                );
                offer = ret;
            },
        }
        j = j + 1;
    }
    assert(ops@ + Seq::<SwapOperation>::empty() =~= ops@);
    Ok(ops)
}

} // verus!
