//! The adapter: [`ContractWrapper`] and its uniform entry points.
//!
//! A wrapper holds one callback slot per operation — `execute`, `instantiate`
//! and `query` are mandatory, `sudo`, `reply` and `migrate` optional — and
//! presents the single byte-oriented calling convention of [`Contract`].
//! Each entry point checks the slot, decodes the byte envelope into the
//! callback's own message type, invokes the callback once, and normalizes
//! its result: responses pass through unchanged (lifted first when the slot
//! is bridged), and callback errors are carried as their display text.

use vstd::prelude::*;
use core::marker::PhantomData;
use crate::context::{Deps, DepsMut, Env, MessageInfo};
use crate::errors::{ContractError, EntryPoint};
use crate::slots::{Absent, Bridged, ContractFn, Direct, PermissionedFn, QueryFn, ReplyFn};
use crate::types::{Empty, Reply, Response};

verus! {

/// Relies on `cosmwasm_std::from_json` (serde JSON decoding under the hood):
/// decodes the byte envelope into `T`, or reports the decoder's diagnostic.
/// Which byte sequences decode is `T`'s business; nothing is assumed here.
#[verifier::external_body]
fn decode_json<T: serde::de::DeserializeOwned>(bytes: &Vec<u8>) -> (r: Result<T, String>) {
    cosmwasm_std::from_json(bytes.as_slice()).map_err(|e| e.to_string())
}

/// Relies on the `Display` impl of `E`: renders a callback's error as the
/// text it displays as.  The text is whatever that impl produces.
#[verifier::external_body]
fn display_text<E: core::fmt::Display>(e: &E) -> String {
    format!("{}", e)
}

/// Some decoded message makes the slot's handler produce exactly this
/// response.
pub open spec fn contract_ok_justified<C, Q, X: ContractFn<C, Q>>(
    slot: X,
    deps: DepsMut<Q>,
    env: Env,
    info: MessageInfo,
    resp: Response<C>,
) -> bool {
    exists|m: X::Msg| slot.handler_ensures(deps, env, info, m, Ok(resp))
}

/// Some decoded message makes the slot's handler fail with some error of its
/// own.
pub open spec fn contract_err_justified<C, Q, X: ContractFn<C, Q>>(
    slot: X,
    deps: DepsMut<Q>,
    env: Env,
    info: MessageInfo,
) -> bool {
    exists|m: X::Msg, er: X::Err| slot.handler_ensures(deps, env, info, m, Err(er))
}

/// The slot's handler, applied to this very message, may fail with some
/// error of its own.
pub open spec fn contract_failed_on<C, Q, X: ContractFn<C, Q>>(
    slot: X,
    deps: DepsMut<Q>,
    env: Env,
    info: MessageInfo,
    msg: X::Msg,
) -> bool {
    exists|er: X::Err| slot.handler_ensures(deps, env, info, msg, Err(er))
}

/// Some decoded message makes the query handler produce exactly these bytes.
pub open spec fn query_ok_justified<Q, X: QueryFn<Q>>(
    slot: X,
    deps: Deps<Q>,
    env: Env,
    bytes: Vec<u8>,
) -> bool {
    exists|m: X::Msg| slot.handler_ensures(deps, env, m, Ok(bytes))
}

/// Some decoded message makes the query handler fail with some error of its
/// own.
pub open spec fn query_err_justified<Q, X: QueryFn<Q>>(slot: X, deps: Deps<Q>, env: Env) -> bool {
    exists|m: X::Msg, er: X::Err| slot.handler_ensures(deps, env, m, Err(er))
}

/// The query handler, applied to this very message, may fail with some error
/// of its own.
pub open spec fn query_failed_on<Q, X: QueryFn<Q>>(
    slot: X,
    deps: Deps<Q>,
    env: Env,
    msg: X::Msg,
) -> bool {
    exists|er: X::Err| slot.handler_ensures(deps, env, msg, Err(er))
}

/// Some decoded message makes the slot's handler produce exactly this
/// response.
pub open spec fn permissioned_ok_justified<C, Q, S: PermissionedFn<C, Q>>(
    slot: S,
    deps: DepsMut<Q>,
    env: Env,
    resp: Response<C>,
) -> bool {
    exists|m: S::Msg| slot.handler_ensures(deps, env, m, Ok(resp))
}

/// Some decoded message makes the slot's handler fail with some error of its
/// own.
pub open spec fn permissioned_err_justified<C, Q, S: PermissionedFn<C, Q>>(
    slot: S,
    deps: DepsMut<Q>,
    env: Env,
) -> bool {
    exists|m: S::Msg, er: S::Err| slot.handler_ensures(deps, env, m, Err(er))
}

/// The slot's handler, applied to this very message, may fail with some
/// error of its own.
pub open spec fn permissioned_failed_on<C, Q, S: PermissionedFn<C, Q>>(
    slot: S,
    deps: DepsMut<Q>,
    env: Env,
    msg: S::Msg,
) -> bool {
    exists|er: S::Err| slot.handler_ensures(deps, env, msg, Err(er))
}

/// The reply handler, applied to this very envelope, may fail with some
/// error of its own.
pub open spec fn reply_failed_on<C, Q, S: ReplyFn<C, Q>>(
    slot: S,
    deps: DepsMut<Q>,
    env: Env,
    msg: Reply,
) -> bool {
    exists|er: S::Err| slot.handler_ensures(deps, env, msg, Err(er))
}

/// The adapter around one contract implementation: six independently typed
/// callback slots behind the uniform interface.  A wrapper is a plain value;
/// the builder operations return a new wrapper instead of mutating in place.
pub struct ContractWrapper<X1, X2, X3, C = Empty, Q = Empty, S4 = Absent, S5 = Absent, S6 = Absent> {
    /// The mandatory `execute` slot.
    pub execute_slot: X1,
    /// The mandatory `instantiate` slot.
    pub instantiate_slot: X2,
    /// The mandatory `query` slot.
    pub query_slot: X3,
    /// The optional `sudo` slot.
    pub sudo_slot: S4,
    /// The optional `reply` slot.
    pub reply_slot: S5,
    /// The optional `migrate` slot.
    pub migrate_slot: S6,
    /// The wrapper's custom message and query extension types.
    pub marker: PhantomData<(C, Q)>,
}

/// The wrapper with its `sudo` slot replaced.  The builder operations are
/// exactly slot replacements in this sense; populating a slot twice keeps
/// the last write.
pub open spec fn with_sudo_slot<X1, X2, X3, C, Q, S4, S5, S6, N>(
    w: ContractWrapper<X1, X2, X3, C, Q, S4, S5, S6>,
    slot: N,
) -> ContractWrapper<X1, X2, X3, C, Q, N, S5, S6> {
    ContractWrapper {
        execute_slot: w.execute_slot,
        instantiate_slot: w.instantiate_slot,
        query_slot: w.query_slot,
        sudo_slot: slot,
        reply_slot: w.reply_slot,
        migrate_slot: w.migrate_slot,
        marker: PhantomData,
    }
}

/// The wrapper with its `reply` slot replaced.
pub open spec fn with_reply_slot<X1, X2, X3, C, Q, S4, S5, S6, N>(
    w: ContractWrapper<X1, X2, X3, C, Q, S4, S5, S6>,
    slot: N,
) -> ContractWrapper<X1, X2, X3, C, Q, S4, N, S6> {
    ContractWrapper {
        execute_slot: w.execute_slot,
        instantiate_slot: w.instantiate_slot,
        query_slot: w.query_slot,
        sudo_slot: w.sudo_slot,
        reply_slot: slot,
        migrate_slot: w.migrate_slot,
        marker: PhantomData,
    }
}

/// The wrapper with its `migrate` slot replaced.
pub open spec fn with_migrate_slot<X1, X2, X3, C, Q, S4, S5, S6, N>(
    w: ContractWrapper<X1, X2, X3, C, Q, S4, S5, S6>,
    slot: N,
) -> ContractWrapper<X1, X2, X3, C, Q, S4, S5, N> {
    ContractWrapper {
        execute_slot: w.execute_slot,
        instantiate_slot: w.instantiate_slot,
        query_slot: w.query_slot,
        sudo_slot: w.sudo_slot,
        reply_slot: w.reply_slot,
        migrate_slot: slot,
        marker: PhantomData,
    }
}

impl<C, Q, T1, T2, T3, E1, E2, E3, F1, F2, F3> ContractWrapper<
    Direct<F1, T1, E1>,
    Direct<F2, T2, E2>,
    Direct<F3, T3, E3>,
    C,
    Q,
> where
    F1: Fn(DepsMut<Q>, Env, MessageInfo, T1) -> Result<Response<C>, E1>,
    F2: Fn(DepsMut<Q>, Env, MessageInfo, T2) -> Result<Response<C>, E2>,
    F3: Fn(Deps<Q>, Env, T3) -> Result<Vec<u8>, E3>,
 {
    /// Creates a wrapper around the mandatory trio of callbacks, stored
    /// as-is; the optional slots start out unpopulated.
    pub fn new(execute_fn: F1, instantiate_fn: F2, query_fn: F3) -> (w: Self)
        ensures
            w.execute_slot == (Direct { handler: execute_fn, marker: PhantomData::<(T1, E1)> }),
            w.instantiate_slot == (Direct {
                handler: instantiate_fn,
                marker: PhantomData::<(T2, E2)>,
            }),
            w.query_slot == (Direct { handler: query_fn, marker: PhantomData::<(T3, E3)> }),
            w.sudo_slot == Absent,
            w.reply_slot == Absent,
            w.migrate_slot == Absent,
    {
        ContractWrapper {
            execute_slot: Direct { handler: execute_fn, marker: PhantomData },
            instantiate_slot: Direct { handler: instantiate_fn, marker: PhantomData },
            query_slot: Direct { handler: query_fn, marker: PhantomData },
            sudo_slot: Absent,
            reply_slot: Absent,
            migrate_slot: Absent,
            marker: PhantomData,
        }
    }
}

impl<C, Q, T1, T2, T3, E1, E2, E3, F1, F2, F3> ContractWrapper<
    Bridged<F1, T1, E1>,
    Bridged<F2, T2, E2>,
    Bridged<F3, T3, E3>,
    C,
    Q,
> where
    F1: Fn(DepsMut<Empty>, Env, MessageInfo, T1) -> Result<Response<Empty>, E1>,
    F2: Fn(DepsMut<Empty>, Env, MessageInfo, T2) -> Result<Response<Empty>, E2>,
    F3: Fn(Deps<Empty>, Env, T3) -> Result<Vec<u8>, E3>,
 {
    /// Creates a wrapper around callbacks written against the baseline
    /// environment, upgrading them for a caller whose responses use the
    /// chain-specific extension `C` and whose context offers the custom
    /// queries `Q`: each call strips the custom-query capability on the way
    /// in and lifts the baseline response on the way out.
    pub fn new_with_empty(execute_fn: F1, instantiate_fn: F2, query_fn: F3) -> (w: Self)
        ensures
            w.execute_slot == (Bridged { raw: execute_fn, marker: PhantomData::<(T1, E1)> }),
            w.instantiate_slot == (Bridged {
                raw: instantiate_fn,
                marker: PhantomData::<(T2, E2)>,
            }),
            w.query_slot == (Bridged { raw: query_fn, marker: PhantomData::<(T3, E3)> }),
            w.sudo_slot == Absent,
            w.reply_slot == Absent,
            w.migrate_slot == Absent,
    {
        ContractWrapper {
            execute_slot: Bridged { raw: execute_fn, marker: PhantomData },
            instantiate_slot: Bridged { raw: instantiate_fn, marker: PhantomData },
            query_slot: Bridged { raw: query_fn, marker: PhantomData },
            sudo_slot: Absent,
            reply_slot: Absent,
            migrate_slot: Absent,
            marker: PhantomData,
        }
    }
}

impl<X1, X2, X3, C, Q, S4, S5, S6> ContractWrapper<X1, X2, X3, C, Q, S4, S5, S6> {
    /// Populates the `sudo` slot with a callback stored as-is.
    pub fn with_sudo<T, E, F: Fn(DepsMut<Q>, Env, T) -> Result<Response<C>, E>>(
        self,
        sudo_fn: F,
    ) -> (w: ContractWrapper<X1, X2, X3, C, Q, Direct<F, T, E>, S5, S6>)
        ensures
            w == with_sudo_slot(self, (Direct { handler: sudo_fn, marker: PhantomData::<(T, E)> })),
    {
        ContractWrapper {
            execute_slot: self.execute_slot,
            instantiate_slot: self.instantiate_slot,
            query_slot: self.query_slot,
            sudo_slot: Direct { handler: sudo_fn, marker: PhantomData },
            reply_slot: self.reply_slot,
            migrate_slot: self.migrate_slot,
            marker: PhantomData,
        }
    }

    /// Populates the `sudo` slot with a baseline callback in bridging form.
    pub fn with_sudo_empty<T, E, F: Fn(DepsMut<Empty>, Env, T) -> Result<Response<Empty>, E>>(
        self,
        sudo_fn: F,
    ) -> (w: ContractWrapper<X1, X2, X3, C, Q, Bridged<F, T, E>, S5, S6>)
        ensures
            w == with_sudo_slot(self, (Bridged { raw: sudo_fn, marker: PhantomData::<(T, E)> })),
    {
        ContractWrapper {
            execute_slot: self.execute_slot,
            instantiate_slot: self.instantiate_slot,
            query_slot: self.query_slot,
            sudo_slot: Bridged { raw: sudo_fn, marker: PhantomData },
            reply_slot: self.reply_slot,
            migrate_slot: self.migrate_slot,
            marker: PhantomData,
        }
    }

    /// Populates the `reply` slot with a callback stored as-is.
    pub fn with_reply<E, F: Fn(DepsMut<Q>, Env, Reply) -> Result<Response<C>, E>>(
        self,
        reply_fn: F,
    ) -> (w: ContractWrapper<X1, X2, X3, C, Q, S4, Direct<F, Reply, E>, S6>)
        ensures
            w == with_reply_slot(
                self,
                (Direct { handler: reply_fn, marker: PhantomData::<(Reply, E)> }),
            ),
    {
        ContractWrapper {
            execute_slot: self.execute_slot,
            instantiate_slot: self.instantiate_slot,
            query_slot: self.query_slot,
            sudo_slot: self.sudo_slot,
            reply_slot: Direct { handler: reply_fn, marker: PhantomData },
            migrate_slot: self.migrate_slot,
            marker: PhantomData,
        }
    }

    /// Populates the `reply` slot with a baseline callback in bridging form.
    pub fn with_reply_empty<E, F: Fn(DepsMut<Empty>, Env, Reply) -> Result<Response<Empty>, E>>(
        self,
        reply_fn: F,
    ) -> (w: ContractWrapper<X1, X2, X3, C, Q, S4, Bridged<F, Reply, E>, S6>)
        ensures
            w == with_reply_slot(
                self,
                (Bridged { raw: reply_fn, marker: PhantomData::<(Reply, E)> }),
            ),
    {
        ContractWrapper {
            execute_slot: self.execute_slot,
            instantiate_slot: self.instantiate_slot,
            query_slot: self.query_slot,
            sudo_slot: self.sudo_slot,
            reply_slot: Bridged { raw: reply_fn, marker: PhantomData },
            migrate_slot: self.migrate_slot,
            marker: PhantomData,
        }
    }

    /// Populates the `migrate` slot with a callback stored as-is.
    pub fn with_migrate<T, E, F: Fn(DepsMut<Q>, Env, T) -> Result<Response<C>, E>>(
        self,
        migrate_fn: F,
    ) -> (w: ContractWrapper<X1, X2, X3, C, Q, S4, S5, Direct<F, T, E>>)
        ensures
            w == with_migrate_slot(
                self,
                (Direct { handler: migrate_fn, marker: PhantomData::<(T, E)> }),
            ),
    {
        ContractWrapper {
            execute_slot: self.execute_slot,
            instantiate_slot: self.instantiate_slot,
            query_slot: self.query_slot,
            sudo_slot: self.sudo_slot,
            reply_slot: self.reply_slot,
            migrate_slot: Direct { handler: migrate_fn, marker: PhantomData },
            marker: PhantomData,
        }
    }

    /// Populates the `migrate` slot with a baseline callback in bridging
    /// form.
    pub fn with_migrate_empty<T, E, F: Fn(DepsMut<Empty>, Env, T) -> Result<Response<Empty>, E>>(
        self,
        migrate_fn: F,
    ) -> (w: ContractWrapper<X1, X2, X3, C, Q, S4, S5, Bridged<F, T, E>>)
        ensures
            w == with_migrate_slot(
                self,
                (Bridged { raw: migrate_fn, marker: PhantomData::<(T, E)> }),
            ),
    {
        ContractWrapper {
            execute_slot: self.execute_slot,
            instantiate_slot: self.instantiate_slot,
            query_slot: self.query_slot,
            sudo_slot: self.sudo_slot,
            reply_slot: self.reply_slot,
            migrate_slot: Bridged { raw: migrate_fn, marker: PhantomData },
            marker: PhantomData,
        }
    }
}

impl<X1, X2, X3, C, Q, S4, S5, S6> ContractWrapper<X1, X2, X3, C, Q, S4, S5, S6> where
    X1: ContractFn<C, Q>,
    X2: ContractFn<C, Q>,
    X3: QueryFn<Q>,
    S4: PermissionedFn<C, Q>,
    S5: ReplyFn<C, Q>,
    S6: PermissionedFn<C, Q>,
    X1::Msg: serde::de::DeserializeOwned,
    X2::Msg: serde::de::DeserializeOwned,
    X3::Msg: serde::de::DeserializeOwned,
    S4::Msg: serde::de::DeserializeOwned,
    S6::Msg: serde::de::DeserializeOwned,
    X1::Err: core::fmt::Display,
    X2::Err: core::fmt::Display,
    X3::Err: core::fmt::Display,
    S4::Err: core::fmt::Display,
    S5::Err: core::fmt::Display,
    S6::Err: core::fmt::Display,
 {
    /// Evaluates the wrapped contract's `execute` entry point on a byte
    /// envelope: decode, invoke the stored callback once, normalize.
    pub fn execute(&self, deps: DepsMut<Q>, env: Env, info: MessageInfo, msg: Vec<u8>) -> (r:
        Result<Response<C>, ContractError>)
        requires
            forall|m: X1::Msg| self.execute_slot.handler_requires(deps, env, info, m),
        ensures
            r matches Ok(resp) ==> contract_ok_justified(self.execute_slot, deps, env, info, resp),
            r matches Err(e) ==> match e {
                ContractError::MessageFormat { operation, detail } => operation
                    == EntryPoint::Execute,
                ContractError::Callback { detail } => contract_err_justified(
                    self.execute_slot,
                    deps,
                    env,
                    info,
                ),
                ContractError::NotImplemented { operation } => false,
            },
    {
        let decoded: X1::Msg = match decode_json::<X1::Msg>(&msg) {
            Ok(m) => m,
            Err(detail) => {
                return Err(ContractError::MessageFormat { operation: EntryPoint::Execute, detail });
            },
        };
        let ghost gm = decoded;
        let r = self.execute_decoded(deps, env, info, decoded);
        proof {
            if r is Ok {
                assert(contract_ok_justified(self.execute_slot, deps, env, info, r->Ok_0)) by {
                    assert(self.execute_slot.handler_ensures(deps, env, info, gm, Ok(r->Ok_0)));
                }
            } else {
                let er = choose|er: X1::Err|
                    self.execute_slot.handler_ensures(deps, env, info, gm, Err(er));
                assert(contract_err_justified(self.execute_slot, deps, env, info)) by {
                    assert(self.execute_slot.handler_ensures(deps, env, info, gm, Err(er)));
                }
            }
        }
        r
    }

    /// `execute` after the decoding step: invokes the stored callback once
    /// on the decoded message and normalizes its result.  A success passes
    /// through with its content unchanged; a failure is carried as a
    /// callback error.
    pub fn execute_decoded(&self, deps: DepsMut<Q>, env: Env, info: MessageInfo, msg: X1::Msg) -> (r:
        Result<Response<C>, ContractError>)
        requires
            self.execute_slot.handler_requires(deps, env, info, msg),
        ensures
            r matches Ok(resp) ==> self.execute_slot.handler_ensures(deps, env, info, msg, Ok(resp)),
            r matches Err(e) ==> e matches ContractError::Callback { detail: _ }
                && contract_failed_on(self.execute_slot, deps, env, info, msg),
    {
        let ghost gmsg = msg;
        let out = self.execute_slot.invoke(deps, env, info, msg);
        match out {
            Ok(resp) => Ok(resp),
            Err(er) => {
                let detail = display_text(&er);
                proof {
                    assert(contract_failed_on(self.execute_slot, deps, env, info, gmsg)) by {
                        assert(self.execute_slot.handler_ensures(deps, env, info, gmsg, Err(er)));
                    }
                }
                Err(ContractError::Callback { detail })
            },
        }
    }

    /// Evaluates the wrapped contract's `instantiate` entry point, exactly
    /// as [`Self::execute`] evaluates `execute`.
    pub fn instantiate(&self, deps: DepsMut<Q>, env: Env, info: MessageInfo, msg: Vec<u8>) -> (r:
        Result<Response<C>, ContractError>)
        requires
            forall|m: X2::Msg| self.instantiate_slot.handler_requires(deps, env, info, m),
        ensures
            r matches Ok(resp) ==> contract_ok_justified(
                self.instantiate_slot,
                deps,
                env,
                info,
                resp,
            ),
            r matches Err(e) ==> match e {
                ContractError::MessageFormat { operation, detail } => operation
                    == EntryPoint::Instantiate,
                ContractError::Callback { detail } => contract_err_justified(
                    self.instantiate_slot,
                    deps,
                    env,
                    info,
                ),
                ContractError::NotImplemented { operation } => false,
            },
    {
        let decoded: X2::Msg = match decode_json::<X2::Msg>(&msg) {
            Ok(m) => m,
            Err(detail) => {
                return Err(
                    ContractError::MessageFormat { operation: EntryPoint::Instantiate, detail },
                );
            },
        };
        let ghost gm = decoded;
        let r = self.instantiate_decoded(deps, env, info, decoded);
        proof {
            if r is Ok {
                assert(contract_ok_justified(self.instantiate_slot, deps, env, info, r->Ok_0)) by {
                    assert(self.instantiate_slot.handler_ensures(deps, env, info, gm, Ok(r->Ok_0)));
                }
            } else {
                let er = choose|er: X2::Err|
                    self.instantiate_slot.handler_ensures(deps, env, info, gm, Err(er));
                assert(contract_err_justified(self.instantiate_slot, deps, env, info)) by {
                    assert(self.instantiate_slot.handler_ensures(deps, env, info, gm, Err(er)));
                }
            }
        }
        r
    }

    /// `instantiate` after the decoding step.
    pub fn instantiate_decoded(
        &self,
        deps: DepsMut<Q>,
        env: Env,
        info: MessageInfo,
        msg: X2::Msg,
    ) -> (r: Result<Response<C>, ContractError>)
        requires
            self.instantiate_slot.handler_requires(deps, env, info, msg),
        ensures
            r matches Ok(resp) ==> self.instantiate_slot.handler_ensures(
                deps,
                env,
                info,
                msg,
                Ok(resp),
            ),
            r matches Err(e) ==> e matches ContractError::Callback { detail: _ }
                && contract_failed_on(self.instantiate_slot, deps, env, info, msg),
    {
        let ghost gmsg = msg;
        let out = self.instantiate_slot.invoke(deps, env, info, msg);
        match out {
            Ok(resp) => Ok(resp),
            Err(er) => {
                let detail = display_text(&er);
                proof {
                    assert(contract_failed_on(self.instantiate_slot, deps, env, info, gmsg)) by {
                        assert(self.instantiate_slot.handler_ensures(
                            deps,
                            env,
                            info,
                            gmsg,
                            Err(er),
                        ));
                    }
                }
                Err(ContractError::Callback { detail })
            },
        }
    }

    /// Evaluates the wrapped contract's `query` entry point on a byte
    /// envelope, under shared read-only context access.
    pub fn query(&self, deps: Deps<Q>, env: Env, msg: Vec<u8>) -> (r: Result<
        Vec<u8>,
        ContractError,
    >)
        requires
            forall|m: X3::Msg| self.query_slot.handler_requires(deps, env, m),
        ensures
            r matches Ok(bytes) ==> query_ok_justified(self.query_slot, deps, env, bytes),
            r matches Err(e) ==> match e {
                ContractError::MessageFormat { operation, detail } => operation == EntryPoint::Query,
                ContractError::Callback { detail } => query_err_justified(
                    self.query_slot,
                    deps,
                    env,
                ),
                ContractError::NotImplemented { operation } => false,
            },
    {
        let decoded: X3::Msg = match decode_json::<X3::Msg>(&msg) {
            Ok(m) => m,
            Err(detail) => {
                return Err(ContractError::MessageFormat { operation: EntryPoint::Query, detail });
            },
        };
        let ghost gm = decoded;
        let r = self.query_decoded(deps, env, decoded);
        proof {
            if r is Ok {
                assert(query_ok_justified(self.query_slot, deps, env, r->Ok_0)) by {
                    assert(self.query_slot.handler_ensures(deps, env, gm, Ok(r->Ok_0)));
                }
            } else {
                let er = choose|er: X3::Err| self.query_slot.handler_ensures(deps, env, gm, Err(er));
                assert(query_err_justified(self.query_slot, deps, env)) by {
                    assert(self.query_slot.handler_ensures(deps, env, gm, Err(er)));
                }
            }
        }
        r
    }

    /// `query` after the decoding step.
    pub fn query_decoded(&self, deps: Deps<Q>, env: Env, msg: X3::Msg) -> (r: Result<
        Vec<u8>,
        ContractError,
    >)
        requires
            self.query_slot.handler_requires(deps, env, msg),
        ensures
            r matches Ok(bytes) ==> self.query_slot.handler_ensures(deps, env, msg, Ok(bytes)),
            r matches Err(e) ==> e matches ContractError::Callback { detail: _ } && query_failed_on(
                self.query_slot,
                deps,
                env,
                msg,
            ),
    {
        let ghost gmsg = msg;
        let out = self.query_slot.invoke(deps, env, msg);
        match out {
            Ok(bytes) => Ok(bytes),
            Err(er) => {
                let detail = display_text(&er);
                proof {
                    assert(query_failed_on(self.query_slot, deps, env, gmsg)) by {
                        assert(self.query_slot.handler_ensures(deps, env, gmsg, Err(er)));
                    }
                }
                Err(ContractError::Callback { detail })
            },
        }
    }

    /// Evaluates the wrapped contract's `sudo` entry point.  A wrapper whose
    /// `sudo` slot was never populated fails with the not-implemented
    /// condition for every envelope, well-formed or not.
    pub fn sudo(&self, deps: DepsMut<Q>, env: Env, msg: Vec<u8>) -> (r: Result<
        Response<C>,
        ContractError,
    >)
        requires
            forall|m: S4::Msg|
                self.sudo_slot.is_set() ==> self.sudo_slot.handler_requires(deps, env, m),
        ensures
            !self.sudo_slot.is_set() ==> r == Err::<Response<C>, ContractError>(
                ContractError::NotImplemented { operation: EntryPoint::Sudo },
            ),
            r matches Ok(resp) ==> self.sudo_slot.is_set() && permissioned_ok_justified(
                self.sudo_slot,
                deps,
                env,
                resp,
            ),
            r matches Err(e) ==> match e {
                ContractError::MessageFormat { operation, detail } => operation == EntryPoint::Sudo
                    && self.sudo_slot.is_set(),
                ContractError::NotImplemented { operation } => operation == EntryPoint::Sudo
                    && !self.sudo_slot.is_set(),
                ContractError::Callback { detail } => self.sudo_slot.is_set()
                    && permissioned_err_justified(self.sudo_slot, deps, env),
            },
    {
        if !self.sudo_slot.is_populated() {
            return Err(ContractError::NotImplemented { operation: EntryPoint::Sudo });
        }
        let decoded: S4::Msg = match decode_json::<S4::Msg>(&msg) {
            Ok(m) => m,
            Err(detail) => {
                return Err(ContractError::MessageFormat { operation: EntryPoint::Sudo, detail });
            },
        };
        let ghost gm = decoded;
        let r = self.sudo_decoded(deps, env, decoded);
        proof {
            if r is Ok {
                assert(permissioned_ok_justified(self.sudo_slot, deps, env, r->Ok_0)) by {
                    assert(self.sudo_slot.handler_ensures(deps, env, gm, Ok(r->Ok_0)));
                }
            } else {
                let er = choose|er: S4::Err| self.sudo_slot.handler_ensures(deps, env, gm, Err(er));
                assert(permissioned_err_justified(self.sudo_slot, deps, env)) by {
                    assert(self.sudo_slot.handler_ensures(deps, env, gm, Err(er)));
                }
            }
        }
        r
    }

    /// `sudo` after the slot check and the decoding step.
    pub fn sudo_decoded(&self, deps: DepsMut<Q>, env: Env, msg: S4::Msg) -> (r: Result<
        Response<C>,
        ContractError,
    >)
        requires
            self.sudo_slot.is_set(),
            self.sudo_slot.handler_requires(deps, env, msg),
        ensures
            r matches Ok(resp) ==> self.sudo_slot.handler_ensures(deps, env, msg, Ok(resp)),
            r matches Err(e) ==> e matches ContractError::Callback { detail: _ }
                && permissioned_failed_on(self.sudo_slot, deps, env, msg),
    {
        let ghost gmsg = msg;
        match self.sudo_slot.try_invoke(deps, env, msg) {
            Some(Ok(resp)) => Ok(resp),
            Some(Err(er)) => {
                let detail = display_text(&er);
                proof {
                    assert(permissioned_failed_on(self.sudo_slot, deps, env, gmsg)) by {
                        assert(self.sudo_slot.handler_ensures(deps, env, gmsg, Err(er)));
                    }
                }
                Err(ContractError::Callback { detail })
            },
            None => {
                proof {
                    assert(false);
                }
                Err(ContractError::NotImplemented { operation: EntryPoint::Sudo })
            },
        }
    }

    /// Evaluates the wrapped contract's `reply` entry point.  The structured
    /// reply envelope is passed through to the stored callback with no
    /// decoding step; an unpopulated slot fails with the not-implemented
    /// condition.
    pub fn reply(&self, deps: DepsMut<Q>, env: Env, reply_data: Reply) -> (r: Result<
        Response<C>,
        ContractError,
    >)
        requires
            self.reply_slot.is_set() ==> self.reply_slot.handler_requires(deps, env, reply_data),
        ensures
            !self.reply_slot.is_set() ==> r == Err::<Response<C>, ContractError>(
                ContractError::NotImplemented { operation: EntryPoint::Reply },
            ),
            r matches Ok(resp) ==> self.reply_slot.is_set() && self.reply_slot.handler_ensures(
                deps,
                env,
                reply_data,
                Ok(resp),
            ),
            r matches Err(e) ==> match e {
                ContractError::MessageFormat { operation, detail } => false,
                ContractError::NotImplemented { operation } => operation == EntryPoint::Reply
                    && !self.reply_slot.is_set(),
                ContractError::Callback { detail } => self.reply_slot.is_set()
                    && reply_failed_on(self.reply_slot, deps, env, reply_data),
            },
    {
        if !self.reply_slot.is_populated() {
            return Err(ContractError::NotImplemented { operation: EntryPoint::Reply });
        }
        let ghost grep = reply_data;
        match self.reply_slot.try_invoke(deps, env, reply_data) {
            Some(Ok(resp)) => Ok(resp),
            Some(Err(er)) => {
                let detail = display_text(&er);
                proof {
                    assert(reply_failed_on(self.reply_slot, deps, env, grep)) by {
                        assert(self.reply_slot.handler_ensures(deps, env, grep, Err(er)));
                    }
                }
                Err(ContractError::Callback { detail })
            },
            None => {
                proof {
                    assert(false);
                }
                Err(ContractError::NotImplemented { operation: EntryPoint::Reply })
            },
        }
    }

    /// Evaluates the wrapped contract's `migrate` entry point, exactly as
    /// [`Self::sudo`] evaluates `sudo`.
    pub fn migrate(&self, deps: DepsMut<Q>, env: Env, msg: Vec<u8>) -> (r: Result<
        Response<C>,
        ContractError,
    >)
        requires
            forall|m: S6::Msg|
                self.migrate_slot.is_set() ==> self.migrate_slot.handler_requires(deps, env, m),
        ensures
            !self.migrate_slot.is_set() ==> r == Err::<Response<C>, ContractError>(
                ContractError::NotImplemented { operation: EntryPoint::Migrate },
            ),
            r matches Ok(resp) ==> self.migrate_slot.is_set() && permissioned_ok_justified(
                self.migrate_slot,
                deps,
                env,
                resp,
            ),
            r matches Err(e) ==> match e {
                ContractError::MessageFormat { operation, detail } => operation
                    == EntryPoint::Migrate && self.migrate_slot.is_set(),
                ContractError::NotImplemented { operation } => operation == EntryPoint::Migrate
                    && !self.migrate_slot.is_set(),
                ContractError::Callback { detail } => self.migrate_slot.is_set()
                    && permissioned_err_justified(self.migrate_slot, deps, env),
            },
    {
        if !self.migrate_slot.is_populated() {
            return Err(ContractError::NotImplemented { operation: EntryPoint::Migrate });
        }
        let decoded: S6::Msg = match decode_json::<S6::Msg>(&msg) {
            Ok(m) => m,
            Err(detail) => {
                return Err(ContractError::MessageFormat { operation: EntryPoint::Migrate, detail });
            },
        };
        let ghost gm = decoded;
        let r = self.migrate_decoded(deps, env, decoded);
        proof {
            if r is Ok {
                assert(permissioned_ok_justified(self.migrate_slot, deps, env, r->Ok_0)) by {
                    assert(self.migrate_slot.handler_ensures(deps, env, gm, Ok(r->Ok_0)));
                }
            } else {
                let er = choose|er: S6::Err|
                    self.migrate_slot.handler_ensures(deps, env, gm, Err(er));
                assert(permissioned_err_justified(self.migrate_slot, deps, env)) by {
                    assert(self.migrate_slot.handler_ensures(deps, env, gm, Err(er)));
                }
            }
        }
        r
    }

    /// `migrate` after the slot check and the decoding step.
    pub fn migrate_decoded(&self, deps: DepsMut<Q>, env: Env, msg: S6::Msg) -> (r: Result<
        Response<C>,
        ContractError,
    >)
        requires
            self.migrate_slot.is_set(),
            self.migrate_slot.handler_requires(deps, env, msg),
        ensures
            r matches Ok(resp) ==> self.migrate_slot.handler_ensures(deps, env, msg, Ok(resp)),
            r matches Err(e) ==> e matches ContractError::Callback { detail: _ }
                && permissioned_failed_on(self.migrate_slot, deps, env, msg),
    {
        let ghost gmsg = msg;
        match self.migrate_slot.try_invoke(deps, env, msg) {
            Some(Ok(resp)) => Ok(resp),
            Some(Err(er)) => {
                let detail = display_text(&er);
                proof {
                    assert(permissioned_failed_on(self.migrate_slot, deps, env, gmsg)) by {
                        assert(self.migrate_slot.handler_ensures(deps, env, gmsg, Err(er)));
                    }
                }
                Err(ContractError::Callback { detail })
            },
            None => {
                proof {
                    assert(false);
                }
                Err(ContractError::NotImplemented { operation: EntryPoint::Migrate })
            },
        }
    }
}

/// The uniform contract interface: the single shape through which the
/// simulation engine drives any contract.  Each operation takes the
/// execution context and a byte envelope (the structured reply envelope for
/// `reply`) and reports every failure through [`ContractError`].
///
/// [`ContractWrapper`] offers the six operations under exactly these
/// signatures as inherent methods, each with its full contract.  It cannot
/// implement this trait itself: dispatching needs the slots' message types
/// decodable and their error types displayable, and Verus refuses bounds on
/// undeclared outside traits in a trait impl.  An engine generic over this
/// trait therefore works with hand-written implementors, while verified
/// callers hold the wrapper directly.
pub trait Contract<C, Q> {
    /// Under what condition `execute` may be invoked on this context.
    spec fn execute_ready(&self, deps: DepsMut<Q>, env: Env, info: MessageInfo) -> bool;

    /// Under what condition `instantiate` may be invoked on this context.
    spec fn instantiate_ready(&self, deps: DepsMut<Q>, env: Env, info: MessageInfo) -> bool;

    /// Under what condition `query` may be invoked on this context.
    spec fn query_ready(&self, deps: Deps<Q>, env: Env) -> bool;

    /// Under what condition `sudo` may be invoked on this context.
    spec fn sudo_ready(&self, deps: DepsMut<Q>, env: Env) -> bool;

    /// Under what condition `reply` may be invoked on this context.
    spec fn reply_ready(&self, deps: DepsMut<Q>, env: Env, msg: Reply) -> bool;

    /// Under what condition `migrate` may be invoked on this context.
    spec fn migrate_ready(&self, deps: DepsMut<Q>, env: Env) -> bool;

    /// Evaluates the contract's `execute` entry point.
    fn execute(&self, deps: DepsMut<Q>, env: Env, info: MessageInfo, msg: Vec<u8>) -> Result<
        Response<C>,
        ContractError,
    >
        requires
            self.execute_ready(deps, env, info),
    ;

    /// Evaluates the contract's `instantiate` entry point.
    fn instantiate(&self, deps: DepsMut<Q>, env: Env, info: MessageInfo, msg: Vec<u8>) -> Result<
        Response<C>,
        ContractError,
    >
        requires
            self.instantiate_ready(deps, env, info),
    ;

    /// Evaluates the contract's `query` entry point.
    fn query(&self, deps: Deps<Q>, env: Env, msg: Vec<u8>) -> Result<Vec<u8>, ContractError>
        requires
            self.query_ready(deps, env),
    ;

    /// Evaluates the contract's `sudo` entry point.
    fn sudo(&self, deps: DepsMut<Q>, env: Env, msg: Vec<u8>) -> Result<Response<C>, ContractError>
        requires
            self.sudo_ready(deps, env),
    ;

    /// Evaluates the contract's `reply` entry point.
    fn reply(&self, deps: DepsMut<Q>, env: Env, msg: Reply) -> Result<Response<C>, ContractError>
        requires
            self.reply_ready(deps, env, msg),
    ;

    /// Evaluates the contract's `migrate` entry point.
    fn migrate(&self, deps: DepsMut<Q>, env: Env, msg: Vec<u8>) -> Result<Response<C>, ContractError>
        requires
            self.migrate_ready(deps, env),
    ;
}

} // verus!
