//! Tests for the data model: message shapes, context re-wrapping, extension
//! lifting and the error taxonomy.

use cw_contracts::context::{
    decustomize_deps, decustomize_deps_mut, Api, Deps, DepsMut, QuerierWrapper, RawQuerier, Storage,
};
use cw_contracts::errors::{ContractError, EntryPoint};
use cw_contracts::lift::{customize_msg, customize_response};
use cw_contracts::types::{Attribute, CosmosMsg, Empty, Event, ReplyOn, Response, SubMsg};

#[derive(Clone, Debug, PartialEq, Eq)]
enum ChainExt {
    Mint,
}

#[derive(Clone, Debug, PartialEq, Eq)]
struct ChainQuery;

fn storage() -> Storage {
    Storage { entries: vec![(vec![1u8], vec![2u8, 3u8])] }
}

#[test]
fn entry_point_labels() {
    assert_eq!(EntryPoint::Execute.label(), "execute");
    assert_eq!(EntryPoint::Instantiate.label(), "instantiate");
    assert_eq!(EntryPoint::Query.label(), "query");
    assert_eq!(EntryPoint::Sudo.label(), "sudo");
    assert_eq!(EntryPoint::Reply.label(), "reply");
    assert_eq!(EntryPoint::Migrate.label(), "migrate");
}

#[test]
fn error_classification() {
    let decode = ContractError::MessageFormat {
        operation: EntryPoint::Execute,
        detail: "bad byte".to_string(),
    };
    let missing = ContractError::NotImplemented { operation: EntryPoint::Sudo };
    let own = ContractError::Callback { detail: "overflow".to_string() };
    assert!(decode.is_message_format());
    assert!(!decode.is_not_implemented());
    assert!(missing.is_not_implemented());
    assert!(!missing.is_message_format());
    assert!(!own.is_message_format());
    assert!(!own.is_not_implemented());
}

#[test]
fn response_new_is_empty() {
    let r: Response<Empty> = Response::new();
    assert!(r.messages.is_empty());
    assert!(r.attributes.is_empty());
    assert!(r.events.is_empty());
    assert!(r.data.is_none());
}

#[test]
fn querier_rewrap_keeps_channel() {
    let q: QuerierWrapper<ChainQuery> = QuerierWrapper::new(RawQuerier { channel: 42 });
    assert_eq!(q.raw, RawQuerier { channel: 42 });
}

#[test]
fn decustomize_deps_mut_keeps_everything_but_the_capability() {
    let deps: DepsMut<ChainQuery> = DepsMut {
        storage: storage(),
        api: Api { canonical_length: 20 },
        querier: QuerierWrapper::new(RawQuerier { channel: 9 }),
    };
    let stripped = decustomize_deps_mut(deps);
    assert_eq!(stripped.storage, storage());
    assert_eq!(stripped.api, Api { canonical_length: 20 });
    assert_eq!(stripped.querier.raw, RawQuerier { channel: 9 });
}

#[test]
fn decustomize_deps_keeps_everything_but_the_capability() {
    let deps: Deps<ChainQuery> = Deps {
        storage: storage(),
        api: Api { canonical_length: 33 },
        querier: QuerierWrapper::new(RawQuerier { channel: 5 }),
    };
    let stripped = decustomize_deps(deps);
    assert_eq!(stripped.storage, storage());
    assert_eq!(stripped.api, Api { canonical_length: 33 });
    assert_eq!(stripped.querier.raw, RawQuerier { channel: 5 });
}

#[test]
fn customize_msg_preserves_every_universal_variant() {
    let variants: Vec<CosmosMsg<Empty>> = vec![
        CosmosMsg::Wasm(vec![1]),
        CosmosMsg::Bank(vec![2, 2]),
        CosmosMsg::Staking(vec![3]),
        CosmosMsg::Distribution(vec![4]),
        CosmosMsg::Ibc(vec![5]),
        CosmosMsg::Stargate { type_url: "/cosmos.gov".to_string(), value: vec![6] },
    ];
    let expected: Vec<CosmosMsg<ChainExt>> = vec![
        CosmosMsg::Wasm(vec![1]),
        CosmosMsg::Bank(vec![2, 2]),
        CosmosMsg::Staking(vec![3]),
        CosmosMsg::Distribution(vec![4]),
        CosmosMsg::Ibc(vec![5]),
        CosmosMsg::Stargate { type_url: "/cosmos.gov".to_string(), value: vec![6] },
    ];
    for (input, want) in variants.into_iter().zip(expected.into_iter()) {
        let sub = SubMsg { id: 11, msg: input, gas_limit: Some(777), reply_on: ReplyOn::Error };
        let lifted: SubMsg<ChainExt> = customize_msg(sub);
        assert_eq!(lifted.id, 11);
        assert_eq!(lifted.gas_limit, Some(777));
        assert_eq!(lifted.reply_on, ReplyOn::Error);
        assert_eq!(lifted.msg, want);
    }
}

#[test]
fn customize_response_copies_fields_and_order() {
    let resp: Response<Empty> = Response {
        messages: vec![
            SubMsg { id: 1, msg: CosmosMsg::Bank(vec![9]), gas_limit: None, reply_on: ReplyOn::Always },
            SubMsg { id: 2, msg: CosmosMsg::Wasm(vec![8]), gas_limit: Some(5), reply_on: ReplyOn::Never },
        ],
        attributes: vec![Attribute { key: "action".to_string(), value: "transfer".to_string() }],
        events: vec![Event {
            ty: "wasm".to_string(),
            attributes: vec![Attribute { key: "ok".to_string(), value: "1".to_string() }],
        }],
        data: Some(vec![0xAB]),
    };
    let lifted: Response<ChainExt> = customize_response(resp);
    assert_eq!(lifted.messages.len(), 2);
    assert_eq!(lifted.messages[0].id, 1);
    assert_eq!(lifted.messages[0].msg, CosmosMsg::Bank(vec![9]));
    assert_eq!(lifted.messages[1].id, 2);
    assert_eq!(lifted.messages[1].msg, CosmosMsg::Wasm(vec![8]));
    assert_eq!(
        lifted.attributes,
        vec![Attribute { key: "action".to_string(), value: "transfer".to_string() }]
    );
    assert_eq!(lifted.events.len(), 1);
    assert_eq!(lifted.events[0].ty, "wasm");
    assert_eq!(lifted.data, Some(vec![0xAB]));
}
