//! The execution context handed to every entry point.
//!
//! The context bundles storage access, an API surface and a query interface.
//! The adapter never inspects or mutates the bundle beyond re-wrapping its
//! query interface: bridging drops the custom-query capability `Q` and leaves
//! everything else untouched.

use vstd::prelude::*;
use core::marker::PhantomData;
use crate::types::Empty;

verus! {

/// Key/value storage backing a contract's persistent state.
#[derive(Debug, PartialEq, Eq)]
pub struct Storage {
    pub entries: Vec<(Vec<u8>, Vec<u8>)>,
}

/// The host API surface.  Its contents are opaque to this layer.
#[derive(Clone, Copy, Debug, PartialEq, Eq, Structural)]
pub struct Api {
    pub canonical_length: u64,
}

/// The engine-side handle behind a query interface.  The adapter only passes
/// it along; which queries it answers is the engine's business.
#[derive(Clone, Copy, Debug, PartialEq, Eq, Structural)]
pub struct RawQuerier {
    pub channel: u64,
}

/// A query interface typed with the custom-query capability `Q`.  Re-wrapping
/// the same [`RawQuerier`] under a different `Q` changes which query variants
/// the holder may ask, never where the answers come from.
#[derive(Debug, PartialEq, Eq)]
pub struct QuerierWrapper<Q> {
    pub raw: RawQuerier,
    pub marker: PhantomData<Q>,
}

impl<Q> QuerierWrapper<Q> {
    /// Wraps an engine-side querier under the capability `Q`.
    pub fn new(raw: RawQuerier) -> (r: QuerierWrapper<Q>)
        ensures
            r.raw == raw,
    {
        QuerierWrapper { raw, marker: PhantomData }
    }
}

/// Shared, read-only context access, as `query` receives it.
#[derive(Debug, PartialEq, Eq)]
pub struct Deps<Q> {
    pub storage: Storage,
    pub api: Api,
    pub querier: QuerierWrapper<Q>,
}

/// Exclusive context access, as the state-changing entry points receive it.
#[derive(Debug, PartialEq, Eq)]
pub struct DepsMut<Q> {
    pub storage: Storage,
    pub api: Api,
    pub querier: QuerierWrapper<Q>,
}

/// The same query interface with the custom-query capability dropped.
pub open spec fn strip_querier<Q>(q: QuerierWrapper<Q>) -> QuerierWrapper<Empty> {
    QuerierWrapper { raw: q.raw, marker: PhantomData }
}

/// The same read-only context with the custom-query capability dropped.
pub open spec fn strip_deps<Q>(d: Deps<Q>) -> Deps<Empty> {
    Deps { storage: d.storage, api: d.api, querier: strip_querier(d.querier) }
}

/// The same exclusive context with the custom-query capability dropped.
pub open spec fn strip_deps_mut<Q>(d: DepsMut<Q>) -> DepsMut<Empty> {
    DepsMut { storage: d.storage, api: d.api, querier: strip_querier(d.querier) }
}

/// Re-wraps a read-only context for a baseline callback: storage and API pass
/// through untouched and the query interface keeps its engine-side handle,
/// but the custom-query capability is gone.  The result stays read-only.
pub fn decustomize_deps<Q>(deps: Deps<Q>) -> (r: Deps<Empty>)
    ensures
        r == strip_deps(deps),
{
    Deps {
        storage: deps.storage,
        api: deps.api,
        querier: QuerierWrapper::new(deps.querier.raw),
    }
}

/// Re-wraps an exclusive context for a baseline callback, exactly as
/// [`decustomize_deps`] does for the read-only one.
pub fn decustomize_deps_mut<Q>(deps: DepsMut<Q>) -> (r: DepsMut<Empty>)
    ensures
        r == strip_deps_mut(deps),
{
    DepsMut {
        storage: deps.storage,
        api: deps.api,
        querier: QuerierWrapper::new(deps.querier.raw),
    }
}

/// Block and environment metadata, forwarded to every entry point unchanged.
#[derive(Clone, Debug, PartialEq, Eq)]
pub struct Env {
    pub block_height: u64,
    pub block_time: u64,
    pub contract_address: String,
}

/// A coin amount, part of the caller identity of `execute` and `instantiate`.
#[derive(Clone, Debug, PartialEq, Eq)]
pub struct Coin {
    pub denom: String,
    pub amount: u128,
}

/// The caller identity handed to `execute` and `instantiate`.
#[derive(Clone, Debug, PartialEq, Eq)]
pub struct MessageInfo {
    pub sender: String,
    pub funds: Vec<Coin>,
}

} // verus!
