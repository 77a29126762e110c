//! Router configuration and the owner-gated operations on it.
//!
//! The config is the only long-lived state of the router besides the
//! transient fee record.  The host keeps it in a single persistent slot;
//! this module computes every value that slot ever holds.

use vstd::prelude::*;

use crate::error::ContractError;

verus! {

/// The value of an optional field, or the given default.
pub open spec fn opt_or<T>(o: Option<T>, d: T) -> T {
    match o {
        Some(v) => v,
        None => d,
    }
}

/// This structure holds the main parameters for the router.
#[derive(Debug, Clone, PartialEq, Eq)]
pub struct Config {
    /// Address allowed to change this config.
    pub owner: String,
    /// Address where all fees will go to.
    pub fee_address: String,
    /// Fee amount in basis points.
    pub fee_bps: u16,
    /// Valid assets that could be used as fees.
    pub fee_assets: Vec<String>,
}

/// Partial configuration: absent fields fall back to a default on
/// instantiation and migration, and stay unchanged on an update.
#[derive(Debug, Clone, PartialEq, Eq)]
pub struct InstantiateMsg {
    pub owner: Option<String>,
    pub fee_address: Option<String>,
    pub fee_bps: Option<u16>,
    pub fee_assets: Option<Vec<String>>,
}

impl Config {
    /// The identities of the fee-eligible assets.
    pub open spec fn spec_fee_asset_ids(&self) -> Seq<Seq<char>> {
        self.fee_assets@.map_values(|s: String| s@)
    }

    /// Whether `id` names a fee-eligible asset.
    pub fn has_fee_asset(&self, id: &String) -> (r: bool)
        ensures
            r == self.spec_fee_asset_ids().contains(id@),
    {
        let n = self.fee_assets.len();
        let mut i: usize = 0;
        while i < n
            invariant
                n == self.fee_assets.len(),
                i <= n,
                forall|j: int| 0 <= j < i ==> self.fee_assets@[j]@ != id@,
            decreases n - i,
        {
            if self.fee_assets[i].eq(id) {
                assert(self.spec_fee_asset_ids()[i as int] == id@);
                return true;
            }
            i = i + 1;
        }
        assert(forall|j: int| 0 <= j < self.spec_fee_asset_ids().len()
            ==> self.spec_fee_asset_ids()[j] != id@);
        false
    }
}

/// The config a fresh deployment starts with: every absent field falls back
/// to the instantiating sender (addresses), a zero rate, or no fee assets.
pub fn instantiate(sender: String, msg: InstantiateMsg) -> (r: Config)
    ensures
        r.owner == opt_or(msg.owner, sender),
        r.fee_address == opt_or(msg.fee_address, sender),
        r.fee_bps == opt_or(msg.fee_bps, 0u16),
        msg.fee_assets matches Some(v) ==> r.fee_assets == v,
        msg.fee_assets is None ==> r.fee_assets@ == Seq::<String>::empty(),
{
    let owner = match msg.owner {
        Some(owner) => owner,
        None => sender.clone(),
    };
    let fee_address = match msg.fee_address {
        Some(fee_address) => fee_address,
        None => sender,
    };
    let fee_bps = match msg.fee_bps {
        Some(fee_bps) => fee_bps,
        None => 0,
    };
    let fee_assets = match msg.fee_assets {
        Some(fee_assets) => fee_assets,
        None => Vec::new(),
    };
    Config { owner, fee_address, fee_bps, fee_assets }
}

/// The config after a migration: like instantiation, but absent addresses
/// fall back to the owner the host re-derived from deployed administrative
/// metadata.
pub fn migrate(fallback_owner: String, msg: InstantiateMsg) -> (r: Config)
    ensures
        r.owner == opt_or(msg.owner, fallback_owner),
        r.fee_address == opt_or(msg.fee_address, fallback_owner),
        r.fee_bps == opt_or(msg.fee_bps, 0u16),
        msg.fee_assets matches Some(v) ==> r.fee_assets == v,
        msg.fee_assets is None ==> r.fee_assets@ == Seq::<String>::empty(),
{
    instantiate(fallback_owner, msg)
}

/// Owner-only partial update: each present field replaces the stored one,
/// each absent field is kept.  Any other sender is turned away unchanged.
pub fn update_config(config: Config, sender: &String, msg: InstantiateMsg) -> (r: Result<
    Config,
    ContractError,
>)
    ensures
        sender@ != config.owner@ ==> r == Err::<Config, ContractError>(
            ContractError::Unauthorized {},
        ),
        sender@ == config.owner@ ==> (r matches Ok(c) && {
            &&& c.owner == opt_or(msg.owner, config.owner)
            &&& c.fee_address == opt_or(msg.fee_address, config.fee_address)
            &&& c.fee_bps == opt_or(msg.fee_bps, config.fee_bps)
            &&& c.fee_assets == opt_or(msg.fee_assets, config.fee_assets)
        }),
{
    if !sender.eq(&config.owner) {
        return Err(ContractError::Unauthorized {});
    }
    let Config { owner, fee_address, fee_bps, fee_assets } = config;
    let owner = match msg.owner {
        Some(o) => o,
        None => owner,
    };
    let fee_address = match msg.fee_address {
        Some(a) => a,
        None => fee_address,
    };
    let fee_bps = match msg.fee_bps {
        Some(b) => b,
        None => fee_bps,
    };
    let fee_assets = match msg.fee_assets {
        Some(v) => v,
        None => fee_assets,
    };
    Ok(Config { owner, fee_address, fee_bps, fee_assets })
}

} // verus!
