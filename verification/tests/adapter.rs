//! Tests for the wrapper: construction, builder operations, dispatch through
//! all six entry points, decode failures, missing-slot failures, error
//! normalization and bridging.

use cw_contracts::context::{
    decustomize_deps_mut, Api, Coin, Deps, DepsMut, Env, MessageInfo, QuerierWrapper, RawQuerier,
    Storage,
};
use cw_contracts::errors::{ContractError, EntryPoint};
use cw_contracts::types::{
    Attribute, CosmosMsg, Empty, Reply, ReplyOn, Response, SubMsg, SubMsgOutcome,
};
use cw_contracts::wrapper::ContractWrapper;
use std::cell::Cell;
use std::fmt;
use std::rc::Rc;

#[derive(Clone, Debug, PartialEq, Eq)]
enum ChainExt {
    Mint,
}

#[derive(Clone, Debug, PartialEq, Eq)]
struct ChainQuery;

struct LoudError {
    code: u32,
}

impl fmt::Display for LoudError {
    fn fmt(&self, f: &mut fmt::Formatter<'_>) -> fmt::Result {
        f.write_str("loud failure ")?;
        let mut code = self.code;
        let mut digits: Vec<u8> = Vec::new();
        if code == 0 {
            digits.push(b'0');
        }
        while code > 0 {
            digits.push(b'0' + (code % 10) as u8);
            code /= 10;
        }
        digits.reverse();
        f.write_str(std::str::from_utf8(&digits).unwrap())
    }
}

fn deps_mut() -> DepsMut<Empty> {
    DepsMut {
        storage: Storage { entries: vec![] },
        api: Api { canonical_length: 32 },
        querier: QuerierWrapper::new(RawQuerier { channel: 7 }),
    }
}

fn deps() -> Deps<Empty> {
    Deps {
        storage: Storage { entries: vec![] },
        api: Api { canonical_length: 32 },
        querier: QuerierWrapper::new(RawQuerier { channel: 7 }),
    }
}

fn deps_mut_ext() -> DepsMut<ChainQuery> {
    DepsMut {
        storage: Storage { entries: vec![(vec![7], vec![8])] },
        api: Api { canonical_length: 20 },
        querier: QuerierWrapper::new(RawQuerier { channel: 3 }),
    }
}

fn env() -> Env {
    Env { block_height: 12345, block_time: 1_700_000_000, contract_address: "contract0".to_string() }
}

fn info() -> MessageInfo {
    MessageInfo {
        sender: "alice".to_string(),
        funds: vec![Coin { denom: "uatom".to_string(), amount: 250 }],
    }
}

fn exec_double(
    _deps: DepsMut<Empty>,
    _env: Env,
    _info: MessageInfo,
    msg: u64,
) -> Result<Response<Empty>, String> {
    let mut r: Response<Empty> = Response::new();
    r.data = Some(vec![(msg * 2) as u8]);
    r
        .attributes
        .push(Attribute { key: "action".to_string(), value: "double".to_string() });
    Ok(r)
}

fn inst_record(
    _deps: DepsMut<Empty>,
    _env: Env,
    info: MessageInfo,
    msg: String,
) -> Result<Response<Empty>, String> {
    let mut r: Response<Empty> = Response::new();
    r.attributes.push(Attribute { key: "owner".to_string(), value: info.sender });
    r.attributes.push(Attribute { key: "name".to_string(), value: msg });
    Ok(r)
}

fn query_echo(_deps: Deps<Empty>, _env: Env, msg: String) -> Result<Vec<u8>, String> {
    Ok(msg.into_bytes())
}

#[test]
fn execute_invokes_stored_callback() {
    let w = ContractWrapper::new(exec_double, inst_record, query_echo);
    let r = w.execute(deps_mut(), env(), info(), b"21".to_vec()).unwrap();
    assert_eq!(r.data, Some(vec![42]));
    assert_eq!(r.attributes.len(), 1);
    assert_eq!(r.attributes[0].value, "double");
}

#[test]
fn execute_decodes_the_envelope_rather_than_passing_bytes() {
    // The callback sees the decoded string, not the raw JSON envelope.
    let w = ContractWrapper::new(
        |_d: DepsMut<Empty>, _e: Env, _i: MessageInfo, msg: String| -> Result<Response<Empty>, String> {
            let mut r: Response<Empty> = Response::new();
            r.data = Some(msg.into_bytes());
            Ok(r)
        },
        inst_record,
        query_echo,
    );
    let r = w.execute(deps_mut(), env(), info(), b"\"abc\"".to_vec()).unwrap();
    assert_eq!(r.data, Some(b"abc".to_vec()));
}

#[test]
fn execute_decode_failure_never_reaches_callback() {
    let hits = Rc::new(Cell::new(0u32));
    let seen = hits.clone();
    let w = ContractWrapper::new(
        move |_d: DepsMut<Empty>, _e: Env, _i: MessageInfo, _msg: u64| -> Result<
            Response<Empty>,
            String,
        > {
            seen.set(seen.get() + 1);
            Ok(Response::new())
        },
        inst_record,
        query_echo,
    );
    let r = w.execute(deps_mut(), env(), info(), b"not json at all".to_vec());
    match r {
        Err(ContractError::MessageFormat { operation, detail }) => {
            assert_eq!(operation, EntryPoint::Execute);
            assert!(!detail.is_empty());
        },
        other => panic!("expected a message-format error, got {:?}", other),
    }
    assert_eq!(hits.get(), 0);
}

#[test]
fn execute_callback_error_keeps_display_text() {
    let w = ContractWrapper::new(
        |_d: DepsMut<Empty>, _e: Env, _i: MessageInfo, _msg: u64| -> Result<
            Response<Empty>,
            LoudError,
        > { Err(LoudError { code: 409 }) },
        inst_record,
        query_echo,
    );
    let r = w.execute(deps_mut(), env(), info(), b"1".to_vec());
    assert_eq!(r, Err(ContractError::Callback { detail: "loud failure 409".to_string() }));
}

#[test]
fn instantiate_invokes_stored_callback() {
    let w = ContractWrapper::new(exec_double, inst_record, query_echo);
    let r = w.instantiate(deps_mut(), env(), info(), b"\"counter\"".to_vec()).unwrap();
    assert_eq!(r.attributes[0].value, "alice");
    assert_eq!(r.attributes[1].value, "counter");
}

#[test]
fn instantiate_decode_failure_is_named() {
    let w = ContractWrapper::new(exec_double, inst_record, query_echo);
    let r = w.instantiate(deps_mut(), env(), info(), b"5".to_vec());
    match r {
        Err(ContractError::MessageFormat { operation, .. }) => {
            assert_eq!(operation, EntryPoint::Instantiate);
        },
        other => panic!("expected a message-format error, got {:?}", other),
    }
}

#[test]
fn query_returns_callback_bytes() {
    let w = ContractWrapper::new(exec_double, inst_record, query_echo);
    let r = w.query(deps(), env(), b"\"balance\"".to_vec()).unwrap();
    assert_eq!(r, b"balance".to_vec());
}

#[test]
fn query_callback_error_becomes_callback_error() {
    let w = ContractWrapper::new(
        exec_double,
        inst_record,
        |_d: Deps<Empty>, _e: Env, _m: String| -> Result<Vec<u8>, String> {
            Err("no such key".to_string())
        },
    );
    let r = w.query(deps(), env(), b"\"balance\"".to_vec());
    assert_eq!(r, Err(ContractError::Callback { detail: "no such key".to_string() }));
}

#[test]
fn sudo_unpopulated_fails_for_every_envelope() {
    let w = ContractWrapper::new(exec_double, inst_record, query_echo);
    let wellformed = w.sudo(deps_mut(), env(), b"null".to_vec());
    assert_eq!(wellformed, Err(ContractError::NotImplemented { operation: EntryPoint::Sudo }));
    let malformed = w.sudo(deps_mut(), env(), b"}{ garbage".to_vec());
    assert_eq!(malformed, Err(ContractError::NotImplemented { operation: EntryPoint::Sudo }));
}

#[test]
fn migrate_unpopulated_names_migrate() {
    let w = ContractWrapper::new(exec_double, inst_record, query_echo);
    let r = w.migrate(deps_mut(), env(), b"null".to_vec());
    match r {
        Err(ContractError::NotImplemented { operation }) => {
            assert_eq!(operation, EntryPoint::Migrate);
            assert_eq!(operation.label(), "migrate");
        },
        other => panic!("expected a not-implemented error, got {:?}", other),
    }
}

#[test]
fn reply_unpopulated_fails_not_implemented() {
    let w = ContractWrapper::new(exec_double, inst_record, query_echo);
    let rep = Reply { id: 3, outcome: SubMsgOutcome::Failure { error: "sub failed".to_string() } };
    let r = w.reply(deps_mut(), env(), rep);
    assert_eq!(r, Err(ContractError::NotImplemented { operation: EntryPoint::Reply }));
}

#[test]
fn with_sudo_dispatches_to_the_new_callback() {
    let w = ContractWrapper::new(exec_double, inst_record, query_echo).with_sudo(
        |_d: DepsMut<Empty>, _e: Env, msg: u64| -> Result<Response<Empty>, String> {
            let mut r: Response<Empty> = Response::new();
            r.data = Some(vec![msg as u8, 0xEE]);
            Ok(r)
        },
    );
    let r = w.sudo(deps_mut(), env(), b"9".to_vec()).unwrap();
    assert_eq!(r.data, Some(vec![9, 0xEE]));
}

#[test]
fn sudo_populated_decode_failure_is_named() {
    let w = ContractWrapper::new(exec_double, inst_record, query_echo).with_sudo(
        |_d: DepsMut<Empty>, _e: Env, _msg: u64| -> Result<Response<Empty>, String> {
            Ok(Response::new())
        },
    );
    let r = w.sudo(deps_mut(), env(), b"\"not a number\"".to_vec());
    match r {
        Err(ContractError::MessageFormat { operation, .. }) => {
            assert_eq!(operation, EntryPoint::Sudo);
        },
        other => panic!("expected a message-format error, got {:?}", other),
    }
}

#[test]
fn with_reply_passes_the_envelope_through_unchanged() {
    let w = ContractWrapper::new(exec_double, inst_record, query_echo).with_reply(
        |_d: DepsMut<Empty>, _e: Env, rep: Reply| -> Result<Response<Empty>, String> {
            let mut r: Response<Empty> = Response::new();
            match rep.outcome {
                SubMsgOutcome::Success { data, .. } => {
                    r.data = data;
                    r.attributes.push(Attribute {
                        key: "id".to_string(),
                        value: rep.id.to_string(),
                    });
                },
                SubMsgOutcome::Failure { error } => {
                    r.attributes.push(Attribute { key: "error".to_string(), value: error });
                },
            }
            Ok(r)
        },
    );
    let rep = Reply {
        id: 77,
        outcome: SubMsgOutcome::Success { events: vec![], data: Some(vec![0xCD]) },
    };
    let r = w.reply(deps_mut(), env(), rep).unwrap();
    assert_eq!(r.data, Some(vec![0xCD]));
    assert_eq!(r.attributes[0].value, "77");
}

#[test]
fn with_migrate_dispatches_to_the_new_callback() {
    let w = ContractWrapper::new(exec_double, inst_record, query_echo).with_migrate(
        |_d: DepsMut<Empty>, _e: Env, msg: String| -> Result<Response<Empty>, String> {
            let mut r: Response<Empty> = Response::new();
            r.attributes.push(Attribute { key: "to".to_string(), value: msg });
            Ok(r)
        },
    );
    let r = w.migrate(deps_mut(), env(), b"\"v2\"".to_vec()).unwrap();
    assert_eq!(r.attributes[0].value, "v2");
}

fn sudo_mark(_d: DepsMut<Empty>, _e: Env, msg: u64) -> Result<Response<Empty>, String> {
    let mut r: Response<Empty> = Response::new();
    r.data = Some(vec![msg as u8, 1]);
    Ok(r)
}

fn reply_mark(_d: DepsMut<Empty>, _e: Env, rep: Reply) -> Result<Response<Empty>, String> {
    let mut r: Response<Empty> = Response::new();
    r.data = Some(vec![rep.id as u8, 2]);
    Ok(r)
}

fn migrate_mark(_d: DepsMut<Empty>, _e: Env, msg: u64) -> Result<Response<Empty>, String> {
    let mut r: Response<Empty> = Response::new();
    r.data = Some(vec![msg as u8, 3]);
    Ok(r)
}

#[test]
fn builder_order_does_not_change_dispatch() {
    let a = ContractWrapper::new(exec_double, inst_record, query_echo)
        .with_sudo(sudo_mark)
        .with_reply(reply_mark)
        .with_migrate(migrate_mark);
    let b = ContractWrapper::new(exec_double, inst_record, query_echo)
        .with_migrate(migrate_mark)
        .with_reply(reply_mark)
        .with_sudo(sudo_mark);
    let rep = Reply { id: 5, outcome: SubMsgOutcome::Success { events: vec![], data: None } };
    assert_eq!(
        a.execute(deps_mut(), env(), info(), b"4".to_vec()),
        b.execute(deps_mut(), env(), info(), b"4".to_vec())
    );
    assert_eq!(
        a.sudo(deps_mut(), env(), b"6".to_vec()),
        b.sudo(deps_mut(), env(), b"6".to_vec())
    );
    assert_eq!(
        a.reply(deps_mut(), env(), rep.clone()),
        b.reply(deps_mut(), env(), rep)
    );
    assert_eq!(
        a.migrate(deps_mut(), env(), b"8".to_vec()),
        b.migrate(deps_mut(), env(), b"8".to_vec())
    );
    assert_eq!(a.sudo(deps_mut(), env(), b"6".to_vec()).unwrap().data, Some(vec![6, 1]));
    assert_eq!(a.migrate(deps_mut(), env(), b"8".to_vec()).unwrap().data, Some(vec![8, 3]));
}

fn exec_emitting(
    _deps: DepsMut<Empty>,
    _env: Env,
    _info: MessageInfo,
    msg: u64,
) -> Result<Response<Empty>, String> {
    Ok(Response {
        messages: vec![
            SubMsg {
                id: msg,
                msg: CosmosMsg::Bank(vec![0xB0]),
                gas_limit: None,
                reply_on: ReplyOn::Always,
            },
            SubMsg {
                id: msg + 1,
                msg: CosmosMsg::Stargate { type_url: "/ibc.core".to_string(), value: vec![0x51] },
                gas_limit: Some(9000),
                reply_on: ReplyOn::Never,
            },
        ],
        attributes: vec![Attribute { key: "mode".to_string(), value: "baseline".to_string() }],
        events: vec![],
        data: Some(vec![0x1F]),
    })
}

fn inst_plain(
    _deps: DepsMut<Empty>,
    _env: Env,
    _info: MessageInfo,
    _msg: String,
) -> Result<Response<Empty>, String> {
    Ok(Response::new())
}

fn query_plain(_deps: Deps<Empty>, _env: Env, msg: String) -> Result<Vec<u8>, String> {
    Ok(msg.into_bytes())
}

#[test]
fn bridged_execute_lifts_the_response() {
    let w: ContractWrapper<_, _, _, ChainExt, ChainQuery> =
        ContractWrapper::new_with_empty(exec_emitting, inst_plain, query_plain);
    let r = w.execute(deps_mut_ext(), env(), info(), b"10".to_vec()).unwrap();
    assert_eq!(r.messages.len(), 2);
    assert_eq!(r.messages[0].id, 10);
    assert_eq!(r.messages[0].msg, CosmosMsg::<ChainExt>::Bank(vec![0xB0]));
    assert_eq!(r.messages[0].reply_on, ReplyOn::Always);
    assert_eq!(r.messages[1].id, 11);
    assert_eq!(
        r.messages[1].msg,
        CosmosMsg::<ChainExt>::Stargate { type_url: "/ibc.core".to_string(), value: vec![0x51] }
    );
    assert_eq!(r.messages[1].gas_limit, Some(9000));
    assert_eq!(r.attributes[0].value, "baseline");
    assert_eq!(r.data, Some(vec![0x1F]));
}

#[test]
fn bridged_query_strips_the_capability() {
    // The baseline query callback reads the stripped context: same storage,
    // API and engine-side querier handle as the extended one it came from.
    let w: ContractWrapper<_, _, _, ChainExt, ChainQuery> = ContractWrapper::new_with_empty(
        exec_emitting,
        inst_plain,
        |d: Deps<Empty>, _e: Env, _m: String| -> Result<Vec<u8>, String> {
            Ok(vec![d.api.canonical_length as u8, d.querier.raw.channel as u8])
        },
    );
    let extended: Deps<ChainQuery> = Deps {
        storage: Storage { entries: vec![] },
        api: Api { canonical_length: 20 },
        querier: QuerierWrapper::new(RawQuerier { channel: 3 }),
    };
    let r = w.query(extended, env(), b"\"x\"".to_vec()).unwrap();
    assert_eq!(r, vec![20, 3]);
}

fn reply_baseline(_d: DepsMut<Empty>, _e: Env, rep: Reply) -> Result<Response<Empty>, String> {
    Ok(Response {
        messages: vec![SubMsg {
            id: rep.id,
            msg: CosmosMsg::Wasm(vec![0xAA]),
            gas_limit: None,
            reply_on: ReplyOn::Success,
        }],
        attributes: vec![],
        events: vec![],
        data: Some(vec![rep.id as u8]),
    })
}

#[test]
fn bridged_reply_equals_strip_then_lift() {
    let w: ContractWrapper<_, _, _, ChainExt, ChainQuery, _, _, _> =
        ContractWrapper::new_with_empty(exec_emitting, inst_plain, query_plain)
            .with_reply_empty(reply_baseline);
    let rep = Reply { id: 66, outcome: SubMsgOutcome::Success { events: vec![], data: None } };

    // Through the wrapper.
    let through = w.reply(deps_mut_ext(), env(), rep.clone()).unwrap();

    // By hand: strip the capability, call the raw callback, lift.
    let raw = reply_baseline(decustomize_deps_mut(deps_mut_ext()), env(), rep).unwrap();
    let lifted: Response<ChainExt> = cw_contracts::lift::customize_response(raw);
    assert_eq!(through, lifted);
}

#[test]
fn with_sudo_empty_bridges_the_callback() {
    let w: ContractWrapper<_, _, _, ChainExt, ChainQuery, _, _, _> =
        ContractWrapper::new_with_empty(exec_emitting, inst_plain, query_plain).with_sudo_empty(
            |_d: DepsMut<Empty>, _e: Env, msg: u64| -> Result<Response<Empty>, String> {
                let mut r: Response<Empty> = Response::new();
                r.data = Some(vec![msg as u8, 0x5D]);
                Ok(r)
            },
        );
    let r = w.sudo(deps_mut_ext(), env(), b"2".to_vec()).unwrap();
    assert_eq!(r.data, Some(vec![2, 0x5D]));
}

#[test]
fn with_migrate_empty_bridges_the_callback() {
    let w: ContractWrapper<_, _, _, ChainExt, ChainQuery, _, _, _> =
        ContractWrapper::new_with_empty(exec_emitting, inst_plain, query_plain).with_migrate_empty(
            |_d: DepsMut<Empty>, _e: Env, msg: u64| -> Result<Response<Empty>, LoudError> {
                if msg == 0 {
                    Err(LoudError { code: 0 })
                } else {
                    let mut r: Response<Empty> = Response::new();
                    r.data = Some(vec![msg as u8]);
                    Ok(r)
                }
            },
        );
    let ok = w.migrate(deps_mut_ext(), env(), b"4".to_vec()).unwrap();
    assert_eq!(ok.data, Some(vec![4]));
    let err = w.migrate(deps_mut_ext(), env(), b"0".to_vec());
    assert_eq!(err, Err(ContractError::Callback { detail: "loud failure 0".to_string() }));
}

#[test]
fn last_write_wins_on_a_populated_slot() {
    let w = ContractWrapper::new(exec_double, inst_record, query_echo)
        .with_sudo(sudo_mark)
        .with_sudo(|_d: DepsMut<Empty>, _e: Env, msg: u64| -> Result<Response<Empty>, String> {
            let mut r: Response<Empty> = Response::new();
            r.data = Some(vec![msg as u8, 0xFF]);
            Ok(r)
        });
    let r = w.sudo(deps_mut(), env(), b"1".to_vec()).unwrap();
    assert_eq!(r.data, Some(vec![1, 0xFF]));
}

#[test]
fn custom_variant_exists_in_the_extended_type() {
    // The extended message type has the chain-specific variant available to
    // directly-stored callbacks, even though bridging never produces it.
    let w: ContractWrapper<_, _, _, ChainExt, ChainQuery, _, _, _> =
        ContractWrapper::new_with_empty(exec_emitting, inst_plain, query_plain).with_sudo(
            |_d: DepsMut<ChainQuery>, _e: Env, _msg: u64| -> Result<Response<ChainExt>, String> {
                let mut r: Response<ChainExt> = Response::new();
                r.messages.push(SubMsg {
                    id: 1,
                    msg: CosmosMsg::Custom(ChainExt::Mint),
                    gas_limit: None,
                    reply_on: ReplyOn::Never,
                });
                Ok(r)
            },
        );
    let r = w.sudo(deps_mut_ext(), env(), b"0".to_vec()).unwrap();
    assert_eq!(r.messages[0].msg, CosmosMsg::Custom(ChainExt::Mint));
}
