//! Callback slots: the erased storage shape behind each entry point.
//!
//! A wrapper holds one slot per operation.  A slot is either [`Direct`] — the
//! callback runs as stored, against the caller's own context and message
//! extension types — or [`Bridged`] — the callback was written against the
//! baseline environment, so each invocation strips the custom-query
//! capability from the context on the way in and lifts the baseline response
//! into the extended type on the way out.  The optional operations may also
//! be [`Absent`].
//!
//! Each slot trait exposes the stored handler's calling condition and its
//! input/output relation as spec functions, so a wrapper's entry points can
//! promise exactly "the stored callback's own result, normalized".

use vstd::prelude::*;
use core::marker::PhantomData;
use crate::context::{strip_deps, strip_deps_mut, Deps, DepsMut, Env, MessageInfo};
use crate::lift::{customize_response, lifted_result, result_no_custom};
use crate::types::{Empty, Reply, Response};

verus! {

/// A populated slot holding a callback used exactly as stored.
pub struct Direct<F, T, E> {
    pub handler: F,
    pub marker: PhantomData<(T, E)>,
}

/// A populated slot holding a baseline callback, invoked through context
/// stripping and response lifting.
pub struct Bridged<F, T, E> {
    pub raw: F,
    pub marker: PhantomData<(T, E)>,
}

/// An optional slot that was never populated.
pub struct Absent;

/// The slot shape of `execute` and `instantiate`: a mandatory callback taking
/// the exclusive context, the environment, the caller identity and a decoded
/// message.
pub trait ContractFn<C, Q>: Sized {
    /// The concrete message type the stored callback expects.
    type Msg;

    /// The stored callback's own error type.
    type Err;

    /// Under what condition the stored handler may be invoked.
    spec fn handler_requires(&self, deps: DepsMut<Q>, env: Env, info: MessageInfo, msg: Self::Msg) -> bool;

    /// The input/output relation of one invocation of the stored handler,
    /// normalization included.
    spec fn handler_ensures(
        &self,
        deps: DepsMut<Q>,
        env: Env,
        info: MessageInfo,
        msg: Self::Msg,
        out: Result<Response<C>, Self::Err>,
    ) -> bool;

    /// Invokes the stored handler once on the decoded message.
    fn invoke(&self, deps: DepsMut<Q>, env: Env, info: MessageInfo, msg: Self::Msg) -> (out: Result<
        Response<C>,
        Self::Err,
    >)
        requires
            self.handler_requires(deps, env, info, msg),
        ensures
            self.handler_ensures(deps, env, info, msg, out),
    ;
}

/// The slot shape of `query`: a mandatory callback taking the shared
/// read-only context and returning opaque result bytes.
pub trait QueryFn<Q>: Sized {
    /// The concrete message type the stored callback expects.
    type Msg;

    /// The stored callback's own error type.
    type Err;

    /// Under what condition the stored handler may be invoked.
    spec fn handler_requires(&self, deps: Deps<Q>, env: Env, msg: Self::Msg) -> bool;

    /// The input/output relation of one invocation of the stored handler.
    spec fn handler_ensures(
        &self,
        deps: Deps<Q>,
        env: Env,
        msg: Self::Msg,
        out: Result<Vec<u8>, Self::Err>,
    ) -> bool;

    /// Invokes the stored handler once on the decoded message.
    fn invoke(&self, deps: Deps<Q>, env: Env, msg: Self::Msg) -> (out: Result<Vec<u8>, Self::Err>)
        requires
            self.handler_requires(deps, env, msg),
        ensures
            self.handler_ensures(deps, env, msg, out),
    ;
}

/// The slot shape of the optional operations `sudo`, `reply` and `migrate`:
/// possibly absent, and invoked without a caller identity.
pub trait PermissionedFn<C, Q>: Sized {
    /// The concrete message type the stored callback expects.
    type Msg;

    /// The stored callback's own error type.
    type Err;

    /// Whether the slot was populated.
    spec fn is_set(&self) -> bool;

    /// Under what condition the stored handler may be invoked.
    spec fn handler_requires(&self, deps: DepsMut<Q>, env: Env, msg: Self::Msg) -> bool;

    /// The input/output relation of one invocation of the stored handler,
    /// normalization included.
    spec fn handler_ensures(
        &self,
        deps: DepsMut<Q>,
        env: Env,
        msg: Self::Msg,
        out: Result<Response<C>, Self::Err>,
    ) -> bool;

    /// Whether the slot was populated, decided at run time.
    fn is_populated(&self) -> (b: bool)
        ensures
            b == self.is_set(),
    ;

    /// Invokes the stored handler once if the slot is populated, and reports
    /// an unpopulated slot as `None` without touching the message.
    fn try_invoke(&self, deps: DepsMut<Q>, env: Env, msg: Self::Msg) -> (r: Option<
        Result<Response<C>, Self::Err>,
    >)
        requires
            self.is_set() ==> self.handler_requires(deps, env, msg),
        ensures
            r is Some <==> self.is_set(),
            match r {
                Some(out) => self.handler_ensures(deps, env, msg, out),
                None => true,
            },
    ;
}

/// The slot shape of `reply`: possibly absent, taking the structured reply
/// envelope as-is — no byte decoding ever happens for `reply`.
pub trait ReplyFn<C, Q>: Sized {
    /// The stored callback's own error type.
    type Err;

    /// Whether the slot was populated.
    spec fn is_set(&self) -> bool;

    /// Under what condition the stored handler may be invoked.
    spec fn handler_requires(&self, deps: DepsMut<Q>, env: Env, msg: Reply) -> bool;

    /// The input/output relation of one invocation of the stored handler,
    /// normalization included.
    spec fn handler_ensures(
        &self,
        deps: DepsMut<Q>,
        env: Env,
        msg: Reply,
        out: Result<Response<C>, Self::Err>,
    ) -> bool;

    /// Whether the slot was populated, decided at run time.
    fn is_populated(&self) -> (b: bool)
        ensures
            b == self.is_set(),
    ;

    /// Invokes the stored handler once if the slot is populated, and reports
    /// an unpopulated slot as `None` without touching the envelope.
    fn try_invoke(&self, deps: DepsMut<Q>, env: Env, msg: Reply) -> (r: Option<
        Result<Response<C>, Self::Err>,
    >)
        requires
            self.is_set() ==> self.handler_requires(deps, env, msg),
        ensures
            r is Some <==> self.is_set(),
            match r {
                Some(out) => self.handler_ensures(deps, env, msg, out),
                None => true,
            },
    ;
}

impl<C, Q, E, F: Fn(DepsMut<Q>, Env, Reply) -> Result<Response<C>, E>> ReplyFn<C, Q> for Direct<
    F,
    Reply,
    E,
> {
    type Err = E;

    open spec fn is_set(&self) -> bool {
        true
    }

    open spec fn handler_requires(&self, deps: DepsMut<Q>, env: Env, msg: Reply) -> bool {
        call_requires(self.handler, (deps, env, msg))
    }

    open spec fn handler_ensures(&self, deps: DepsMut<Q>, env: Env, msg: Reply, out: Result<
        Response<C>,
        E,
    >) -> bool {
        call_ensures(self.handler, (deps, env, msg), out)
    }

    fn is_populated(&self) -> (b: bool) {
        true
    }

    fn try_invoke(&self, deps: DepsMut<Q>, env: Env, msg: Reply) -> (r: Option<
        Result<Response<C>, E>,
    >) {
        Some((self.handler)(deps, env, msg))
    }
}

impl<C, Q, E, F: Fn(DepsMut<Empty>, Env, Reply) -> Result<Response<Empty>, E>> ReplyFn<C, Q> for Bridged<
    F,
    Reply,
    E,
> {
    type Err = E;

    open spec fn is_set(&self) -> bool {
        true
    }

    open spec fn handler_requires(&self, deps: DepsMut<Q>, env: Env, msg: Reply) -> bool {
        &&& call_requires(self.raw, (strip_deps_mut(deps), env, msg))
        &&& forall|out: Result<Response<Empty>, E>|
            call_ensures(self.raw, (strip_deps_mut(deps), env, msg), out) ==> result_no_custom(out)
    }

    open spec fn handler_ensures(&self, deps: DepsMut<Q>, env: Env, msg: Reply, out: Result<
        Response<C>,
        E,
    >) -> bool {
        exists|raw_out: Result<Response<Empty>, E>|
            #[trigger] call_ensures(self.raw, (strip_deps_mut(deps), env, msg), raw_out)
                && lifted_result(raw_out, out)
    }

    fn is_populated(&self) -> (b: bool) {
        true
    }

    fn try_invoke(&self, deps: DepsMut<Q>, env: Env, msg: Reply) -> (r: Option<
        Result<Response<C>, E>,
    >) {
        let stripped = crate::context::decustomize_deps_mut(deps);
        let raw_out = (self.raw)(stripped, env, msg);
        let ghost g_raw = raw_out;
        proof {
            assert(call_ensures(self.raw, (strip_deps_mut(deps), env, msg), g_raw));
            assert(result_no_custom(g_raw));
        }
        let out: Result<Response<C>, E> = match raw_out {
            Ok(resp) => Ok(customize_response(resp)),
            Err(e) => Err(e),
        };
        proof {
            assert(lifted_result(g_raw, out));
        }
        Some(out)
    }
}

impl<C, Q> ReplyFn<C, Q> for Absent {
    type Err = String;

    open spec fn is_set(&self) -> bool {
        false
    }

    open spec fn handler_requires(&self, deps: DepsMut<Q>, env: Env, msg: Reply) -> bool {
        true
    }

    open spec fn handler_ensures(&self, deps: DepsMut<Q>, env: Env, msg: Reply, out: Result<
        Response<C>,
        String,
    >) -> bool {
        true
    }

    fn is_populated(&self) -> (b: bool) {
        false
    }

    fn try_invoke(&self, deps: DepsMut<Q>, env: Env, msg: Reply) -> (r: Option<
        Result<Response<C>, String>,
    >) {
        None
    }
}

impl<C, Q, T, E, F: Fn(DepsMut<Q>, Env, MessageInfo, T) -> Result<Response<C>, E>> ContractFn<
    C,
    Q,
> for Direct<F, T, E> {
    type Msg = T;

    type Err = E;

    open spec fn handler_requires(&self, deps: DepsMut<Q>, env: Env, info: MessageInfo, msg: T) -> bool {
        call_requires(self.handler, (deps, env, info, msg))
    }

    open spec fn handler_ensures(
        &self,
        deps: DepsMut<Q>,
        env: Env,
        info: MessageInfo,
        msg: T,
        out: Result<Response<C>, E>,
    ) -> bool {
        call_ensures(self.handler, (deps, env, info, msg), out)
    }

    fn invoke(&self, deps: DepsMut<Q>, env: Env, info: MessageInfo, msg: T) -> (out: Result<
        Response<C>,
        E,
    >) {
        (self.handler)(deps, env, info, msg)
    }
}

impl<Q, T, E, F: Fn(Deps<Q>, Env, T) -> Result<Vec<u8>, E>> QueryFn<Q> for Direct<F, T, E> {
    type Msg = T;

    type Err = E;

    open spec fn handler_requires(&self, deps: Deps<Q>, env: Env, msg: T) -> bool {
        call_requires(self.handler, (deps, env, msg))
    }

    open spec fn handler_ensures(&self, deps: Deps<Q>, env: Env, msg: T, out: Result<Vec<u8>, E>) -> bool {
        call_ensures(self.handler, (deps, env, msg), out)
    }

    fn invoke(&self, deps: Deps<Q>, env: Env, msg: T) -> (out: Result<Vec<u8>, E>) {
        (self.handler)(deps, env, msg)
    }
}

impl<C, Q, T, E, F: Fn(DepsMut<Q>, Env, T) -> Result<Response<C>, E>> PermissionedFn<C, Q> for Direct<
    F,
    T,
    E,
> {
    type Msg = T;

    type Err = E;

    open spec fn is_set(&self) -> bool {
        true
    }

    open spec fn handler_requires(&self, deps: DepsMut<Q>, env: Env, msg: T) -> bool {
        call_requires(self.handler, (deps, env, msg))
    }

    open spec fn handler_ensures(&self, deps: DepsMut<Q>, env: Env, msg: T, out: Result<
        Response<C>,
        E,
    >) -> bool {
        call_ensures(self.handler, (deps, env, msg), out)
    }

    fn is_populated(&self) -> (b: bool) {
        true
    }

    fn try_invoke(&self, deps: DepsMut<Q>, env: Env, msg: T) -> (r: Option<Result<Response<C>, E>>) {
        Some((self.handler)(deps, env, msg))
    }
}

impl<C, Q> PermissionedFn<C, Q> for Absent {
    // An unpopulated slot never decodes a message and never fails on its
    // own behalf; any decodable message type and any error type serve.
    type Msg = ();

    type Err = String;

    open spec fn is_set(&self) -> bool {
        false
    }

    open spec fn handler_requires(&self, deps: DepsMut<Q>, env: Env, msg: ()) -> bool {
        true
    }

    open spec fn handler_ensures(&self, deps: DepsMut<Q>, env: Env, msg: (), out: Result<
        Response<C>,
        String,
    >) -> bool {
        true
    }

    fn is_populated(&self) -> (b: bool) {
        false
    }

    fn try_invoke(&self, deps: DepsMut<Q>, env: Env, msg: ()) -> (r: Option<Result<Response<C>, String>>) {
        None
    }
}

impl<C, Q, T, E, F: Fn(DepsMut<Empty>, Env, MessageInfo, T) -> Result<Response<Empty>, E>> ContractFn<
    C,
    Q,
> for Bridged<F, T, E> {
    type Msg = T;

    type Err = E;

    open spec fn handler_requires(&self, deps: DepsMut<Q>, env: Env, info: MessageInfo, msg: T) -> bool {
        &&& call_requires(self.raw, (strip_deps_mut(deps), env, info, msg))
        &&& forall|out: Result<Response<Empty>, E>|
            call_ensures(self.raw, (strip_deps_mut(deps), env, info, msg), out)
                ==> result_no_custom(out)
    }

    open spec fn handler_ensures(
        &self,
        deps: DepsMut<Q>,
        env: Env,
        info: MessageInfo,
        msg: T,
        out: Result<Response<C>, E>,
    ) -> bool {
        exists|raw_out: Result<Response<Empty>, E>|
            #[trigger] call_ensures(self.raw, (strip_deps_mut(deps), env, info, msg), raw_out)
                && lifted_result(raw_out, out)
    }

    fn invoke(&self, deps: DepsMut<Q>, env: Env, info: MessageInfo, msg: T) -> (out: Result<
        Response<C>,
        E,
    >) {
        let stripped = crate::context::decustomize_deps_mut(deps);
        let raw_out = (self.raw)(stripped, env, info, msg);
        let ghost g_raw = raw_out;
        proof {
            assert(call_ensures(self.raw, (strip_deps_mut(deps), env, info, msg), g_raw));
            assert(result_no_custom(g_raw));
        }
        let out: Result<Response<C>, E> = match raw_out {
            Ok(resp) => Ok(customize_response(resp)),
            Err(e) => Err(e),
        };
        proof {
            assert(lifted_result(g_raw, out));
        }
        out
    }
}

impl<Q, T, E, F: Fn(Deps<Empty>, Env, T) -> Result<Vec<u8>, E>> QueryFn<Q> for Bridged<F, T, E> {
    type Msg = T;

    type Err = E;

    open spec fn handler_requires(&self, deps: Deps<Q>, env: Env, msg: T) -> bool {
        call_requires(self.raw, (strip_deps(deps), env, msg))
    }

    open spec fn handler_ensures(&self, deps: Deps<Q>, env: Env, msg: T, out: Result<Vec<u8>, E>) -> bool {
        call_ensures(self.raw, (strip_deps(deps), env, msg), out)
    }

    fn invoke(&self, deps: Deps<Q>, env: Env, msg: T) -> (out: Result<Vec<u8>, E>) {
        let stripped = crate::context::decustomize_deps(deps);
        (self.raw)(stripped, env, msg)
    }
}

impl<C, Q, T, E, F: Fn(DepsMut<Empty>, Env, T) -> Result<Response<Empty>, E>> PermissionedFn<
    C,
    Q,
> for Bridged<F, T, E> {
    type Msg = T;

    type Err = E;

    open spec fn is_set(&self) -> bool {
        true
    }

    open spec fn handler_requires(&self, deps: DepsMut<Q>, env: Env, msg: T) -> bool {
        &&& call_requires(self.raw, (strip_deps_mut(deps), env, msg))
        &&& forall|out: Result<Response<Empty>, E>|
            call_ensures(self.raw, (strip_deps_mut(deps), env, msg), out) ==> result_no_custom(out)
    }

    open spec fn handler_ensures(&self, deps: DepsMut<Q>, env: Env, msg: T, out: Result<
        Response<C>,
        E,
    >) -> bool {
        exists|raw_out: Result<Response<Empty>, E>|
            #[trigger] call_ensures(self.raw, (strip_deps_mut(deps), env, msg), raw_out)
                && lifted_result(raw_out, out)
    }

    fn is_populated(&self) -> (b: bool) {
        true
    }

    fn try_invoke(&self, deps: DepsMut<Q>, env: Env, msg: T) -> (r: Option<Result<Response<C>, E>>) {
        let stripped = crate::context::decustomize_deps_mut(deps);
        let raw_out = (self.raw)(stripped, env, msg);
        let ghost g_raw = raw_out;
        proof {
            assert(call_ensures(self.raw, (strip_deps_mut(deps), env, msg), g_raw));
            assert(result_no_custom(g_raw));
        }
        let out: Result<Response<C>, E> = match raw_out {
            Ok(resp) => Ok(customize_response(resp)),
            Err(e) => Err(e),
        };
        proof {
            assert(lifted_result(g_raw, out));
        }
        Some(out)
    }
}

} // verus!
