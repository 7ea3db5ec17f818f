//! Extension lifting: raising a baseline response into the extended response
//! type of a bridged caller.
//!
//! The mapping over sub-message variants is exhaustive: the four universal
//! variants and the two pass-through variants copy through unchanged.  A
//! sub-message carrying the custom variant is a programming-contract breach
//! of the bridging invariant — a baseline callback must never emit one — so
//! the lifting functions refuse such inputs outright instead of coercing
//! them.

use vstd::prelude::*;
use crate::types::{CosmosMsg, Empty, Response, SubMsg};

verus! {

/// True when the sub-message does not carry the chain-specific extension
/// variant.
pub open spec fn msg_not_custom<C>(m: CosmosMsg<C>) -> bool {
    !(m is Custom)
}

/// True when no sub-message of the response carries the chain-specific
/// extension variant.
pub open spec fn response_no_custom<C>(r: Response<C>) -> bool {
    forall|i: int| 0 <= i < r.messages@.len() ==> msg_not_custom(#[trigger] r.messages@[i].msg)
}

/// True when a successful result's response carries no extension variant;
/// a failed result carries no sub-messages at all.
pub open spec fn result_no_custom<C, E>(out: Result<Response<C>, E>) -> bool {
    match out {
        Ok(r) => response_no_custom(r),
        Err(_) => true,
    }
}

/// The lifted form of a baseline message: the same variant with the same
/// body, under the extended type.  Meaningful only off the custom variant.
pub open spec fn lift_cosmos_msg<C>(m: CosmosMsg<Empty>) -> CosmosMsg<C>
    recommends
        msg_not_custom(m),
{
    match m {
        CosmosMsg::Wasm(body) => CosmosMsg::Wasm(body),
        CosmosMsg::Bank(body) => CosmosMsg::Bank(body),
        CosmosMsg::Staking(body) => CosmosMsg::Staking(body),
        CosmosMsg::Distribution(body) => CosmosMsg::Distribution(body),
        CosmosMsg::Custom(_) => arbitrary(),
        CosmosMsg::Ibc(body) => CosmosMsg::Ibc(body),
        CosmosMsg::Stargate { type_url, value } => CosmosMsg::Stargate { type_url, value },
    }
}

/// The lifted form of a baseline sub-message: id, gas ceiling and reply
/// policy unchanged, the message lifted.
pub open spec fn lift_sub_msg<C>(m: SubMsg<Empty>) -> SubMsg<C>
    recommends
        msg_not_custom(m.msg),
{
    SubMsg { id: m.id, msg: lift_cosmos_msg(m.msg), gas_limit: m.gas_limit, reply_on: m.reply_on }
}

/// Relates a baseline response to its lifted form: every sub-message lifted
/// in place, attributes, events and data copied through unchanged.
pub open spec fn lifts_to<C>(a: Response<Empty>, b: Response<C>) -> bool {
    &&& b.messages@.len() == a.messages@.len()
    &&& forall|i: int|
        0 <= i < a.messages@.len() ==> #[trigger] b.messages@[i] == lift_sub_msg::<C>(
            a.messages@[i],
        )
    &&& b.attributes@ == a.attributes@
    &&& b.events@ == a.events@
    &&& b.data == a.data
}

/// Relates a baseline callback result to its lifted form: a success is
/// lifted, a failure carries the very same error value.
pub open spec fn lifted_result<C, E>(a: Result<Response<Empty>, E>, b: Result<Response<C>, E>) -> bool {
    match (a, b) {
        (Ok(ra), Ok(rb)) => lifts_to(ra, rb),
        (Err(ea), Err(eb)) => ea == eb,
        _ => false,
    }
}

/// Lifts one baseline sub-message into the extended message type.
///
/// The custom variant is excluded by contract: encountering it would break
/// the bridging invariant, and this layer treats that as an unconditional
/// programming error rather than a recoverable condition.
pub fn customize_msg<C>(msg: SubMsg<Empty>) -> (r: SubMsg<C>)
    requires
        msg_not_custom(msg.msg),
    ensures
        r == lift_sub_msg::<C>(msg),
{
    let SubMsg { id, msg, gas_limit, reply_on } = msg;
    let lifted: CosmosMsg<C> = match msg {
        CosmosMsg::Wasm(body) => CosmosMsg::Wasm(body),
        CosmosMsg::Bank(body) => CosmosMsg::Bank(body),
        CosmosMsg::Staking(body) => CosmosMsg::Staking(body),
        CosmosMsg::Distribution(body) => CosmosMsg::Distribution(body),
        CosmosMsg::Custom(_) => unreached(),
        CosmosMsg::Ibc(body) => CosmosMsg::Ibc(body),
        CosmosMsg::Stargate { type_url, value } => CosmosMsg::Stargate { type_url, value },
    };
    SubMsg { id, msg: lifted, gas_limit, reply_on }
}

/// Lifts a whole baseline response: sub-messages lifted one by one in order,
/// attributes, events and data moved through unchanged.
pub fn customize_response<C>(resp: Response<Empty>) -> (r: Response<C>)
    requires
        response_no_custom(resp),
    ensures
        lifts_to(resp, r),
{
    let Response { messages, attributes, events, data } = resp;
    let ghost orig = messages@;
    let mut remaining = messages;
    let mut lifted: Vec<SubMsg<C>> = Vec::new();
    while remaining.len() > 0
        invariant
            lifted@.len() + remaining@.len() == orig.len(),
            remaining@ == orig.subrange(lifted@.len() as int, orig.len() as int),
            forall|i: int| 0 <= i < orig.len() ==> msg_not_custom(#[trigger] orig[i].msg),
            forall|i: int|
                0 <= i < lifted@.len() ==> #[trigger] lifted@[i] == lift_sub_msg::<C>(orig[i]),
        decreases remaining@.len(),
    {
        proof {
            assert(remaining@[0] == orig[lifted@.len() as int]);
        }
        let m = remaining.remove(0);
        lifted.push(customize_msg(m));
    }
    Response { messages: lifted, attributes, events, data }
}

} // verus!
