//! The dispatch router: what one call into a hooked method does, step by step.
//!
//! The host calls a trampoline; the caller of this module reports what
//! happened as a [`CallEvent`] and carries out the [`CallAction`] it gets
//! back. The router itself only decides: it marshals the raw arguments, looks
//! the hook up under the call's own method identity, hands the call to the
//! callback, falls back to the original method when the callback
//! defers or fails, and shapes the native result.

use crate::handles::{SafeJClass, SafeJMethodId};
use crate::original::{call_original, spec_call_original, OriginalCall};
use crate::registry::{HookInfo, HookRegistry};
use crate::signature::{JTypeKind, ParsedSig, SigModel};
use crate::value::{
    demarshal, marshal, marshal_all, slot_width, spec_demarshal, spec_marshal, spec_marshal_all,
    spec_slot_mask, spec_slot_width, zero_value, CallValue,
};
use vstd::prelude::*;

verus! {

/// What a trampoline knows about itself: the method it stands for and that
/// method's signature.
#[derive(Debug)]
pub struct TrampolineUserData {
    pub method_id: SafeJMethodId,
    pub sig: ParsedSig,
}

/// What is written to the native result slot: the low `width` bytes of `bits`.
/// Nothing is written when `width` is 0.
#[derive(Clone, Copy, Debug, PartialEq, Eq, Structural)]
pub struct NativeResult {
    pub bits: u64,
    pub width: usize,
}

/// A request to run the callback of a hook on the arguments the router holds.
#[derive(Clone, Copy, Debug, PartialEq, Eq, Structural)]
pub struct CallbackCall {
    /// Index of the callback.
    pub callback: u64,
    /// Receiver or class handle the trampoline was called with.
    pub this: usize,
    /// The class that owns the method.
    pub class: SafeJClass,
    /// Identity of the original method.
    pub original_method: SafeJMethodId,
}

/// Where one call stands.
#[derive(Debug)]
pub enum CallState {
    /// The trampoline has not been entered.
    Idle,
    /// The callback is running on `args`.
    InCallback { info: HookInfo, this: usize, args: Vec<CallValue> },
    /// The original method is running on `args`.
    InOriginal { args: Vec<CallValue> },
    /// The call is over.
    Finished,
}

/// What happened to a call.
#[derive(Debug)]
pub enum CallEvent {
    /// The host entered the trampoline with these raw argument slots.
    Invoked { this: usize, raw_args: Vec<u64> },
    /// The callback returned: a value, or `None` to defer to the original.
    CallbackReturned(Option<CallValue>),
    /// The callback failed; the failure was caught at the boundary.
    CallbackPanicked,
    /// The original method returned this raw result.
    OriginalReturned(u64),
}

/// What to do next for a call.
#[derive(Clone, Copy, Debug, PartialEq, Eq, Structural)]
pub enum CallAction {
    /// Run the callback on the arguments of the state.
    InvokeCallback(CallbackCall),
    /// Call the original method on the arguments of the state.
    CallOriginal(OriginalCall),
    /// Write the result and return to the host.
    Return(NativeResult),
    /// The bridge cannot go on: the arguments do not match the signature, a
    /// value does not fit its declared kind, or the event cannot happen in
    /// this state.
    Abort,
}

/// Model of a [`CallState`].
pub enum CallStateModel {
    Idle,
    InCallback { info: HookInfo, this: usize, args: Seq<CallValue> },
    InOriginal { args: Seq<CallValue> },
    Finished,
}

/// Model of a [`CallEvent`].
pub enum CallEventModel {
    Invoked { this: usize, raw_args: Seq<u64> },
    CallbackReturned(Option<CallValue>),
    CallbackPanicked,
    OriginalReturned(u64),
}

impl View for CallState {
    type V = CallStateModel;

    open spec fn view(&self) -> CallStateModel {
        match *self {
            CallState::Idle => CallStateModel::Idle,
            CallState::InCallback { info, this, args } => CallStateModel::InCallback {
                info,
                this,
                args: args@,
            },
            CallState::InOriginal { args } => CallStateModel::InOriginal { args: args@ },
            CallState::Finished => CallStateModel::Finished,
        }
    }
}

impl View for CallEvent {
    type V = CallEventModel;

    open spec fn view(&self) -> CallEventModel {
        match *self {
            CallEvent::Invoked { this, raw_args } => CallEventModel::Invoked {
                this,
                raw_args: raw_args@,
            },
            CallEvent::CallbackReturned(v) => CallEventModel::CallbackReturned(v),
            CallEvent::CallbackPanicked => CallEventModel::CallbackPanicked,
            CallEvent::OriginalReturned(raw) => CallEventModel::OriginalReturned(raw),
        }
    }
}

/// The native result that carries `v` out of a method whose return kind is
/// `ret`. For `Void` nothing is written, whatever `v` is.
pub open spec fn spec_native_result(ret: JTypeKind, v: CallValue) -> NativeResult {
    if ret == JTypeKind::Void {
        NativeResult { bits: 0, width: 0 }
    } else {
        NativeResult { bits: spec_demarshal(v), width: spec_slot_width(ret) as usize }
    }
}

/// Whether a callback may return `v` from a method whose return kind is `ret`.
pub open spec fn spec_result_fits(ret: JTypeKind, v: CallValue) -> bool {
    ret == JTypeKind::Void || v.fits(ret)
}

/// One step of the router: from the state of a call and what happened, the
/// next state and what to do.
pub open spec fn spec_route(
    table: Map<usize, HookInfo>,
    id: usize,
    sig: SigModel,
    state: CallStateModel,
    event: CallEventModel,
) -> (CallStateModel, CallAction) {
    match (state, event) {
        (CallStateModel::Idle, CallEventModel::Invoked { this, raw_args }) => {
            if raw_args.len() != sig.args.len() {
                (CallStateModel::Finished, CallAction::Abort)
            } else if !table.contains_key(id) {
                (
                    CallStateModel::Finished,
                    CallAction::Return(spec_native_result(sig.ret, crate::value::spec_zero(sig.ret))),
                )
            } else {
                (
                    CallStateModel::InCallback {
                        info: table[id],
                        this,
                        args: spec_marshal_all(sig.args, raw_args),
                    },
                    CallAction::InvokeCallback(
                        CallbackCall {
                            callback: table[id].callback,
                            this,
                            class: table[id].class,
                            original_method: table[id].original_method,
                        },
                    ),
                )
            }
        },
        (
            CallStateModel::InCallback { info, this, args },
            CallEventModel::CallbackReturned(Some(v)),
        ) => {
            if spec_result_fits(sig.ret, v) {
                (CallStateModel::Finished, CallAction::Return(spec_native_result(sig.ret, v)))
            } else {
                (CallStateModel::Finished, CallAction::Abort)
            }
        },
        (CallStateModel::InCallback { info, this, args }, CallEventModel::CallbackReturned(None)) => (
            CallStateModel::InOriginal { args },
            CallAction::CallOriginal(
                spec_call_original(this, info.class, info.original_method, info.is_static, sig.ret),
            ),
        ),
        (CallStateModel::InCallback { info, this, args }, CallEventModel::CallbackPanicked) => (
            CallStateModel::InOriginal { args },
            CallAction::CallOriginal(
                spec_call_original(this, info.class, info.original_method, info.is_static, sig.ret),
            ),
        ),
        (CallStateModel::InOriginal { args }, CallEventModel::OriginalReturned(raw)) => (
            CallStateModel::Finished,
            CallAction::Return(spec_native_result(sig.ret, spec_marshal(sig.ret, raw))),
        ),
        _ => (CallStateModel::Finished, CallAction::Abort),
    }
}

/// The native result that carries `v` out of a method with return kind `ret`.
pub fn native_result(ret: JTypeKind, v: CallValue) -> (r: NativeResult)
    ensures
        r == spec_native_result(ret, v),
{
    match ret {
        JTypeKind::Void => NativeResult { bits: 0, width: 0 },
        _ => NativeResult { bits: demarshal(v), width: slot_width(ret) },
    }
}

/// The body of every trampoline, one step at a time.
///
/// `registry` is the hook table as it stands at this step and `ud` the data
/// bound to the trampoline that was called. The result is the next state of
/// the call and the action to carry out, exactly as [`spec_route`] gives them.
pub fn raw_trampoline(
    registry: &HookRegistry,
    ud: &TrampolineUserData,
    state: CallState,
    event: CallEvent,
) -> (r: (CallState, CallAction))
    ensures
        (r.0@, r.1) == spec_route(registry@, ud.method_id.0, ud.sig@, state@, event@),
{
    let ret = ud.sig.ret;
    match state {
        CallState::Idle => match event {
            CallEvent::Invoked { this, raw_args } => {
                match marshal_all(&ud.sig.args, &raw_args) {
                    None => (CallState::Finished, CallAction::Abort),
                    Some(args) => match registry.lookup(ud.method_id) {
                        None => (
                            CallState::Finished,
                            CallAction::Return(native_result(ret, zero_value(ret))),
                        ),
                        Some(info) => (
                            CallState::InCallback { info, this, args },
                            CallAction::InvokeCallback(
                                CallbackCall {
                                    callback: info.callback,
                                    this,
                                    class: info.class,
                                    original_method: info.original_method,
                                },
                            ),
                        ),
                    },
                }
            },
            _ => (CallState::Finished, CallAction::Abort),
        },
        CallState::InCallback { info, this, args } => match event {
            CallEvent::CallbackReturned(Some(v)) => {
                if ret == JTypeKind::Void || v.kind_of() == ret {
                    (CallState::Finished, CallAction::Return(native_result(ret, v)))
                } else {
                    (CallState::Finished, CallAction::Abort)
                }
            },
            CallEvent::CallbackReturned(None) | CallEvent::CallbackPanicked => (
                CallState::InOriginal { args },
                CallAction::CallOriginal(
                    call_original(this, info.class, info.original_method, info.is_static, ret),
                ),
            ),
            _ => (CallState::Finished, CallAction::Abort),
        },
        CallState::InOriginal { args } => match event {
            CallEvent::OriginalReturned(raw) => (
                CallState::Finished,
                CallAction::Return(native_result(ret, marshal(ret, raw))),
            ),
            _ => (CallState::Finished, CallAction::Abort),
        },
        CallState::Finished => (CallState::Finished, CallAction::Abort),
    }
}

/// A callback that defers is transparent. From entry to return, a call whose
/// callback answers `None` asks for the original method under the
/// saved identity, through the entry point of the hook's calling mode and the
/// signature's return kind, on the very arguments the host passed; and what it
/// hands back to the host is what the original returned, for every return
/// kind.
pub proof fn lemma_deferring_callback_is_transparent(
    table: Map<usize, HookInfo>,
    id: usize,
    sig: SigModel,
    this: usize,
    raw_args: Seq<u64>,
    raw_result: u64,
)
    requires
        table.contains_key(id),
        raw_args.len() == sig.args.len(),
    ensures
        ({
            let entered = spec_route(
                table,
                id,
                sig,
                CallStateModel::Idle,
                CallEventModel::Invoked { this, raw_args },
            );
            let deferred = spec_route(
                table,
                id,
                sig,
                entered.0,
                CallEventModel::CallbackReturned(None),
            );
            let returned = spec_route(
                table,
                id,
                sig,
                deferred.0,
                CallEventModel::OriginalReturned(raw_result),
            );
            &&& entered.1 is InvokeCallback
            &&& deferred.0 == (CallStateModel::InOriginal {
                args: spec_marshal_all(sig.args, raw_args),
            })
            &&& deferred.1 == CallAction::CallOriginal(
                spec_call_original(
                    this,
                    table[id].class,
                    table[id].original_method,
                    table[id].is_static,
                    sig.ret,
                ),
            )
            &&& returned.0 == CallStateModel::Finished
            &&& returned.1 == CallAction::Return(
                if sig.ret == JTypeKind::Void {
                    NativeResult { bits: 0, width: 0 }
                } else {
                    NativeResult {
                        bits: raw_result & spec_slot_mask(sig.ret),
                        width: spec_slot_width(sig.ret) as usize,
                    }
                },
            )
        }),
{
    crate::value::lemma_demarshal_marshal(sig.ret, raw_result);
}

/// A callback that fails is contained: the call goes on exactly as if the
/// callback had deferred.
pub proof fn lemma_failing_callback_defers(
    table: Map<usize, HookInfo>,
    id: usize,
    sig: SigModel,
    state: CallStateModel,
)
    ensures
        spec_route(table, id, sig, state, CallEventModel::CallbackPanicked) == spec_route(
            table,
            id,
            sig,
            state,
            CallEventModel::CallbackReturned(None),
        ),
{
}

/// A call resolves through its own method identity alone: two tables that
/// agree on that identity route every step of the call alike.
pub proof fn lemma_route_reads_own_entry(
    first: Map<usize, HookInfo>,
    second: Map<usize, HookInfo>,
    id: usize,
    sig: SigModel,
    state: CallStateModel,
    event: CallEventModel,
)
    requires
        first.contains_key(id) == second.contains_key(id),
        first.contains_key(id) ==> first[id] == second[id],
    ensures
        spec_route(first, id, sig, state, event) == spec_route(second, id, sig, state, event),
{
}

/// Calls into two different hooked methods do not touch each other: whatever
/// is attached to, or detached from, another identity while a call is under
/// way, every step of the call is routed as before.
pub proof fn lemma_other_hook_does_not_interfere(
    table: Map<usize, HookInfo>,
    id: usize,
    other: usize,
    entry: HookInfo,
    sig: SigModel,
    state: CallStateModel,
    event: CallEventModel,
)
    requires
        id != other,
    ensures
        spec_route(table.insert(other, entry), id, sig, state, event) == spec_route(
            table,
            id,
            sig,
            state,
            event,
        ),
        spec_route(table.remove(other), id, sig, state, event) == spec_route(
            table,
            id,
            sig,
            state,
            event,
        ),
{
}

/// A hook that was detached while a call was on its way in is no error: the
/// call returns the zero of the signature's return kind.
pub proof fn lemma_detached_call_returns_zero(
    table: Map<usize, HookInfo>,
    id: usize,
    sig: SigModel,
    this: usize,
    raw_args: Seq<u64>,
)
    requires
        !table.contains_key(id),
        raw_args.len() == sig.args.len(),
    ensures
        spec_route(
            table,
            id,
            sig,
            CallStateModel::Idle,
            CallEventModel::Invoked { this, raw_args },
        ) == (
            CallStateModel::Finished,
            CallAction::Return(
                NativeResult {
                    bits: 0,
                    width: if sig.ret == JTypeKind::Void {
                        0
                    } else {
                        spec_slot_width(sig.ret) as usize
                    },
                },
            ),
        ),
{
}

} // verus!
