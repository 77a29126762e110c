//! Asset identities and amounts.
//!
//! An asset is either a native coin, identified by its denomination, or a
//! contract-managed token, identified by the token contract's address.  The
//! identity string is the equality key used throughout the router.

use vstd::prelude::*;

verus! {

/// Identity of an asset: a native denomination or a token contract address.
#[derive(Debug, PartialEq, Eq)]
pub enum AssetInfo {
    Token { contract_addr: String },
    NativeToken { denom: String },
}

/// An asset identity together with an unsigned 128-bit amount.
#[derive(Debug, PartialEq, Eq)]
pub struct Asset {
    pub info: AssetInfo,
    pub amount: u128,
}

impl Clone for AssetInfo {
    fn clone(&self) -> (res: Self)
        ensures
            res == *self,
    {
        match self {
            AssetInfo::Token { contract_addr } => AssetInfo::Token {
                contract_addr: contract_addr.clone(),
            },
            AssetInfo::NativeToken { denom } => AssetInfo::NativeToken { denom: denom.clone() },
        }
    }
}

impl Clone for Asset {
    fn clone(&self) -> (res: Self)
        ensures
            res == *self,
    {
        Asset { info: self.info.clone(), amount: self.amount }
    }
}

impl AssetInfo {
    /// The identity string: the denomination or the token address.
    pub open spec fn spec_id(&self) -> Seq<char> {
        match self {
            AssetInfo::Token { contract_addr } => contract_addr@,
            AssetInfo::NativeToken { denom } => denom@,
        }
    }

    /// Returns the address or denom of the asset.
    pub fn id(&self) -> (r: String)
        ensures
            r@ == self.spec_id(),
    {
        match self {
            AssetInfo::Token { contract_addr } => contract_addr.clone(),
            AssetInfo::NativeToken { denom } => denom.clone(),
        }
    }
}

impl Asset {
    /// The identity string of the asset's info.
    pub open spec fn spec_id(&self) -> Seq<char> {
        self.info.spec_id()
    }

    /// Returns the address or denom of the asset.
    pub fn id(&self) -> (r: String)
        ensures
            r@ == self.spec_id(),
    {
        self.info.id()
    }
}

/// Index of the first asset at or after position `i` whose identity is `id`.
pub open spec fn find_index_from(infos: Seq<AssetInfo>, id: Seq<char>, i: int) -> Option<int>
    decreases infos.len() - i,
{
    if i < 0 || i >= infos.len() {
        None
    } else if infos[i].spec_id() == id {
        Some(i)
    } else {
        find_index_from(infos, id, i + 1)
    }
}

/// Index of the first asset in the list whose identity is `id`.
pub open spec fn spec_find_index(infos: Seq<AssetInfo>, id: Seq<char>) -> Option<int> {
    find_index_from(infos, id, 0)
}

/// The first asset at or after position `i` whose identity differs from `id`.
pub open spec fn find_other_from(infos: Seq<AssetInfo>, id: Seq<char>, i: int) -> Option<
    AssetInfo,
>
    decreases infos.len() - i,
{
    if i < 0 || i >= infos.len() {
        None
    } else if infos[i].spec_id() != id {
        Some(infos[i])
    } else {
        find_other_from(infos, id, i + 1)
    }
}

/// The first asset in the list whose identity differs from `id`.
pub open spec fn spec_find_other(infos: Seq<AssetInfo>, id: Seq<char>) -> Option<AssetInfo> {
    find_other_from(infos, id, 0)
}

/// Position of the first asset whose identity is `id`, if any.
pub fn position_of_id(infos: &Vec<AssetInfo>, id: &String) -> (r: Option<usize>)
    ensures
        match r {
            Some(p) => spec_find_index(infos@, id@) == Some(p as int),
            None => spec_find_index(infos@, id@) is None,
        },
{
    let n = infos.len();
    let mut i: usize = 0;
    while i < n
        invariant
            n == infos.len(),
            i <= n,
            spec_find_index(infos@, id@) == find_index_from(infos@, id@, i as int),
        decreases n - i,
    {
        if infos[i].id().eq(id) {
            return Some(i);
        }
        i = i + 1;
    }
    None
}

/// The first asset whose identity is `id`, if any.
pub fn find_by_id(infos: &Vec<AssetInfo>, id: &String) -> (r: Option<AssetInfo>)
    ensures
        match spec_find_index(infos@, id@) {
            Some(p) => r == Some(infos@[p]),
            None => r is None,
        },
{
    let n = infos.len();
    let mut i: usize = 0;
    while i < n
        invariant
            n == infos.len(),
            i <= n,
            spec_find_index(infos@, id@) == find_index_from(infos@, id@, i as int),
        decreases n - i,
    {
        if infos[i].id().eq(id) {
            return Some(infos[i].clone());
        }
        i = i + 1;
    }
    None
}

/// The first asset whose identity differs from `id`, if any.
pub fn find_other_than_id(infos: &Vec<AssetInfo>, id: &String) -> (r: Option<AssetInfo>)
    ensures
        r == spec_find_other(infos@, id@),
{
    let n = infos.len();
    let mut i: usize = 0;
    while i < n
        invariant
            n == infos.len(),
            i <= n,
            spec_find_other(infos@, id@) == find_other_from(infos@, id@, i as int),
        decreases n - i,
    {
        if !infos[i].id().eq(id) {
            return Some(infos[i].clone());
        }
        i = i + 1;
    }
    None
}

} // verus!
