//! The adapter's cross-function laws, stated and proved once and for all.
//!
//! The entry points' own contracts already pin each single call; the lemmas
//! here relate several operations: extension lifting preserves every
//! universal sub-message variant, a reply handler installed in bridging form
//! behaves exactly as the raw handler on the stripped context with its
//! response lifted, and populating the optional slots commutes.

use vstd::prelude::*;
use crate::context::{strip_deps_mut, DepsMut, Env, MessageInfo};
use crate::lift::{lift_sub_msg, lifted_result, lifts_to, msg_not_custom};
use crate::slots::{Bridged, ContractFn, Direct, ReplyFn};
use crate::types::{CosmosMsg, Empty, Reply, Response, SubMsg};
use crate::wrapper::{with_migrate_slot, with_reply_slot, with_sudo_slot, ContractWrapper};

verus! {

/// Law: lifting a baseline sub-message is value preserving.  The correlation
/// id, the gas ceiling and the reply policy carry over, and each universal
/// or pass-through variant keeps its variant and its body.
pub proof fn lemma_lift_sub_msg_value_preserving<C>(m: SubMsg<Empty>)
    requires
        msg_not_custom(m.msg),
    ensures
        lift_sub_msg::<C>(m).id == m.id,
        lift_sub_msg::<C>(m).gas_limit == m.gas_limit,
        lift_sub_msg::<C>(m).reply_on == m.reply_on,
        m.msg matches CosmosMsg::Wasm(body) ==> lift_sub_msg::<C>(m).msg == CosmosMsg::<C>::Wasm(
            body,
        ),
        m.msg matches CosmosMsg::Bank(body) ==> lift_sub_msg::<C>(m).msg == CosmosMsg::<C>::Bank(
            body,
        ),
        m.msg matches CosmosMsg::Staking(body) ==> lift_sub_msg::<C>(m).msg
            == CosmosMsg::<C>::Staking(body),
        m.msg matches CosmosMsg::Distribution(body) ==> lift_sub_msg::<C>(m).msg
            == CosmosMsg::<C>::Distribution(body),
        m.msg matches CosmosMsg::Ibc(body) ==> lift_sub_msg::<C>(m).msg == CosmosMsg::<C>::Ibc(
            body,
        ),
        m.msg matches CosmosMsg::Stargate { type_url, value } ==> lift_sub_msg::<C>(m).msg
            == (CosmosMsg::<C>::Stargate { type_url, value }),
{
}

/// Law: a directly stored callback's result reaches the caller with its
/// content unchanged.  What the wrapper's `execute` guarantees about a
/// successful dispatch through a slot stored as-is is exactly the stored
/// callback's own input/output relation on the very same response value —
/// no translation step stands between them.
pub proof fn lemma_direct_execute_passes_response_through<C, Q, T, E, F: Fn(
    DepsMut<Q>,
    Env,
    MessageInfo,
    T,
) -> Result<Response<C>, E>>(
    slot: Direct<F, T, E>,
    deps: DepsMut<Q>,
    env: Env,
    info: MessageInfo,
    msg: T,
    out: Result<Response<C>, E>,
)
    ensures
        ContractFn::<C, Q>::handler_ensures(&slot, deps, env, info, msg, out) <==> call_ensures(
            slot.handler,
            (deps, env, info, msg),
            out,
        ),
{
}

/// Law: a reply handler installed in bridging form is observably equivalent
/// to calling the raw handler directly on the context with the custom-query
/// capability removed and lifting its response — stripping and relifting is
/// value preserving for every baseline response without custom variants.
///
/// The left-hand side is exactly what the wrapper's `reply` entry point
/// guarantees about a successful dispatch through a slot installed by
/// `with_reply_empty`.
pub proof fn lemma_bridged_reply_round_trip<C, Q, E, F: Fn(
    DepsMut<Empty>,
    Env,
    Reply,
) -> Result<Response<Empty>, E>>(
    slot: Bridged<F, Reply, E>,
    deps: DepsMut<Q>,
    env: Env,
    rep: Reply,
    resp: Response<C>,
)
    ensures
        ReplyFn::<C, Q>::handler_ensures(&slot, deps, env, rep, Ok(resp)) <==> exists|
            raw: Response<Empty>,
        |
            #[trigger] call_ensures(slot.raw, (strip_deps_mut(deps), env, rep), Ok(raw))
                && lifts_to(raw, resp),
{
    if ReplyFn::<C, Q>::handler_ensures(&slot, deps, env, rep, Ok(resp)) {
        let raw_out = choose|raw_out: Result<Response<Empty>, E>|
            #[trigger] call_ensures(slot.raw, (strip_deps_mut(deps), env, rep), raw_out)
                && lifted_result(raw_out, Ok(resp));
        assert(raw_out matches Ok(raw) && lifts_to(raw, resp));
        assert(call_ensures(slot.raw, (strip_deps_mut(deps), env, rep), Ok(raw_out->Ok_0)));
    }
    if exists|raw: Response<Empty>|
        #[trigger] call_ensures(slot.raw, (strip_deps_mut(deps), env, rep), Ok(raw)) && lifts_to(
            raw,
            resp,
        ) {
        let raw = choose|raw: Response<Empty>|
            #[trigger] call_ensures(slot.raw, (strip_deps_mut(deps), env, rep), Ok(raw))
                && lifts_to(raw, resp);
        assert(lifted_result(Ok::<Response<Empty>, E>(raw), Ok::<Response<C>, E>(resp)));
        assert(ReplyFn::<C, Q>::handler_ensures(&slot, deps, env, rep, Ok(resp))) by {
            assert(call_ensures(slot.raw, (strip_deps_mut(deps), env, rep), Ok::<
                Response<Empty>,
                E,
            >(raw)) && lifted_result(Ok::<Response<Empty>, E>(raw), Ok::<Response<C>, E>(resp)));
        }
    }
}

/// Law: populating `sudo` and `reply` commutes — the order of the two
/// builder steps leaves no trace in the resulting wrapper, hence none in
/// its dispatch behavior.
pub proof fn lemma_populate_sudo_reply_commutes<X1, X2, X3, C, Q, S4, S5, S6, N4, N5>(
    w: ContractWrapper<X1, X2, X3, C, Q, S4, S5, S6>,
    sudo_slot: N4,
    reply_slot: N5,
)
    ensures
        with_reply_slot(with_sudo_slot(w, sudo_slot), reply_slot) == with_sudo_slot(
            with_reply_slot(w, reply_slot),
            sudo_slot,
        ),
{
}

/// Law: populating `sudo` and `migrate` commutes.
pub proof fn lemma_populate_sudo_migrate_commutes<X1, X2, X3, C, Q, S4, S5, S6, N4, N6>(
    w: ContractWrapper<X1, X2, X3, C, Q, S4, S5, S6>,
    sudo_slot: N4,
    migrate_slot: N6,
)
    ensures
        with_migrate_slot(with_sudo_slot(w, sudo_slot), migrate_slot) == with_sudo_slot(
            with_migrate_slot(w, migrate_slot),
            sudo_slot,
        ),
{
}

/// Law: populating `reply` and `migrate` commutes.
pub proof fn lemma_populate_reply_migrate_commutes<X1, X2, X3, C, Q, S4, S5, S6, N5, N6>(
    w: ContractWrapper<X1, X2, X3, C, Q, S4, S5, S6>,
    reply_slot: N5,
    migrate_slot: N6,
)
    ensures
        with_migrate_slot(with_reply_slot(w, reply_slot), migrate_slot) == with_reply_slot(
            with_migrate_slot(w, migrate_slot),
            reply_slot,
        ),
{
}

} // verus!
