//! Asset descriptors: a pooled asset is either a native coin, named by its
//! denomination, or a token contract, named by its address. Identity is the
//! exact tag plus payload, nothing less.

use vstd::prelude::*;

verus! {

/// A pooled asset: a native coin denomination or a token contract address.
#[derive(Clone, Debug)]
pub enum AssetInfo {
    Native(String),
    Cw20(String),
}

/// Exact identity of two asset descriptors: same kind, same name.
pub open spec fn info_eq(a: AssetInfo, b: AssetInfo) -> bool {
    match (a, b) {
        (AssetInfo::Native(x), AssetInfo::Native(y)) => x@ == y@,
        (AssetInfo::Cw20(x), AssetInfo::Cw20(y)) => x@ == y@,
        _ => false,
    }
}

impl AssetInfo {
    /// A copy naming the same asset.
    pub fn duplicate(&self) -> (r: AssetInfo)
        ensures
            info_eq(r, *self),
    {
        match self {
            AssetInfo::Native(d) => AssetInfo::Native(d.clone()),
            AssetInfo::Cw20(a) => AssetInfo::Cw20(a.clone()),
        }
    }

    /// Whether two descriptors name the same asset.
    pub fn matches(&self, other: &AssetInfo) -> (r: bool)
        ensures
            r == info_eq(*self, *other),
    {
        match (self, other) {
            (AssetInfo::Native(x), AssetInfo::Native(y)) => String::eq(x, y),
            (AssetInfo::Cw20(x), AssetInfo::Cw20(y)) => String::eq(x, y),
            _ => false,
        }
    }
}

} // verus!
