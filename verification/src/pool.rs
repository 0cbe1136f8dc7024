//! Pool state as reported by the pair contract that minted an LP token, and
//! its validation into a snapshot the valuation formula can consume. The
//! pair's response is expected to carry exactly two assets; a response that
//! does not is rejected rather than indexed into.

use vstd::prelude::*;
use crate::asset::{info_eq, AssetInfo};
use crate::OracleError;

verus! {

/// One entry of a pool response: an asset and its reserve held by the pool.
#[derive(Clone, Debug)]
pub struct Asset {
    pub info: AssetInfo,
    pub amount: u128,
}

/// The pool state handed back by the pair contract: its asset entries and
/// the total circulating supply of its LP token, read fresh at query time.
#[derive(Clone, Debug)]
pub struct PoolResponse {
    pub assets: Vec<Asset>,
    pub total_share: u128,
}

/// A validated two-asset pool: both reserves located, supply attached.
#[derive(Clone, Debug)]
pub struct PoolSnapshot {
    pub asset_a: AssetInfo,
    pub reserve_a: u128,
    pub asset_b: AssetInfo,
    pub reserve_b: u128,
    pub total_shares: u128,
}

/// The reserve of the first entry matching `target`, if any entry does.
pub open spec fn depth_of(assets: Seq<Asset>, target: AssetInfo) -> Option<u128>
    decreases assets.len(),
{
    if assets.len() == 0 {
        None
    } else if info_eq(assets[0].info, target) {
        Some(assets[0].amount)
    } else {
        depth_of(assets.drop_first(), target)
    }
}

/// The reserve of the first entry whose asset matches `target`; an entry for
/// every requested asset is a protocol invariant, so a missing one is a
/// malformed pool response.
pub fn find_depth(assets: &Vec<Asset>, target: &AssetInfo) -> (r: Result<u128, OracleError>)
    ensures
        match r {
            Ok(amount) => depth_of(assets@, *target) == Some(amount),
            Err(e) => e == OracleError::PoolData && depth_of(assets@, *target) is None,
        },
{
    let n = assets.len();
    let mut i: usize = 0;
    proof {
        assert(assets@.skip(0) =~= assets@);
    }
    while i < n
        invariant
            i <= n,
            n == assets@.len(),
            depth_of(assets@, *target) == depth_of(assets@.skip(i as int), *target),
        decreases n - i,
    {
        let ghost pre = assets@.skip(i as int);
        if assets[i].info.matches(target) {
            proof {
                assert(pre[0] == assets@[i as int]);
            }
            return Ok(assets[i].amount);
        }
        proof {
            assert(pre[0] == assets@[i as int]);
            assert(pre.drop_first() =~= assets@.skip(i as int + 1));
        }
        i = i + 1;
    }
    proof {
        assert(assets@.skip(n as int) =~= Seq::<Asset>::empty());
    }
    Err(OracleError::PoolData)
}

/// What a correct snapshot of a two-entry response holds: the assets in
/// response order, each reserve the first amount recorded for that asset,
/// and the response's total share count.
pub open spec fn snapshot_ok(resp: PoolResponse, s: PoolSnapshot) -> bool {
    &&& resp.assets.len() == 2
    &&& info_eq(s.asset_a, resp.assets[0].info)
    &&& info_eq(s.asset_b, resp.assets[1].info)
    &&& depth_of(resp.assets@, resp.assets[0].info) == Some(s.reserve_a)
    &&& depth_of(resp.assets@, resp.assets[1].info) == Some(s.reserve_b)
    &&& s.total_shares == resp.total_share
}

/// Validation of a pool response: exactly two entries must be present, and
/// the reserve of each of the two reported assets must be found among them.
pub fn resolve_pool(resp: &PoolResponse) -> (r: Result<PoolSnapshot, OracleError>)
    ensures
        match r {
            Ok(s) => snapshot_ok(*resp, s),
            Err(e) => e == OracleError::PoolData && resp.assets.len() != 2,
        },
{
    if resp.assets.len() != 2 {
        return Err(OracleError::PoolData);
    }
    let asset_a = resp.assets[0].info.duplicate();
    let asset_b = resp.assets[1].info.duplicate();
    proof {
        // Both lookups are bound to succeed: the response's own first entry
        // matches each requested asset or shadows it.
        assert(info_eq(resp.assets@[0].info, resp.assets@[0].info));
        assert(depth_of(resp.assets@, resp.assets@[0].info) is Some);
        if !info_eq(resp.assets@[0].info, resp.assets@[1].info) {
            assert(resp.assets@.drop_first()[0] == resp.assets@[1]);
            assert(depth_of(resp.assets@.drop_first(), resp.assets@[1].info) is Some);
        }
        assert(depth_of(resp.assets@, resp.assets@[1].info) is Some);
    }
    let reserve_a = match find_depth(&resp.assets, &resp.assets[0].info) {
        Ok(a) => a,
        Err(_) => {
            return Err(OracleError::PoolData);
        },
    };
    let reserve_b = match find_depth(&resp.assets, &resp.assets[1].info) {
        Ok(a) => a,
        Err(_) => {
            return Err(OracleError::PoolData);
        },
    };
    Ok(PoolSnapshot {
        asset_a,
        reserve_a,
        asset_b,
        reserve_b,
        total_shares: resp.total_share,
    })
}

} // verus!
