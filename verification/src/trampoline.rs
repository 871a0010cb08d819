//! Trampolines: the plan from which one is compiled, and the handle of a
//! compiled one.
//!
//! Compiling allocates executable memory and is done by the caller; this
//! module decides what is compiled and binds the result to its method.

use crate::handles::SafeJMethodId;
use crate::native::{
    native_arg_types, native_ret_type, spec_ffi_type_of, spec_native_args, NativeType,
};
use crate::signature::{parse_jvm_sig, spec_parse_text, ParseError, ParsedSig};
use vstd::prelude::*;

verus! {

/// What a trampoline for one method is compiled from.
#[derive(Debug)]
pub struct TrampolinePlan {
    /// The method the trampoline will stand for.
    pub method_id: SafeJMethodId,
    /// The parsed descriptor, carried in the trampoline's user data.
    pub sig: ParsedSig,
    /// Native argument types: environment, receiver or class, then the
    /// mapped arguments.
    pub arg_types: Vec<NativeType>,
    /// Native return type.
    pub ret_type: NativeType,
}

impl TrampolinePlan {
    /// Whether the native types of the plan are those of its signature.
    pub open spec fn wf(&self) -> bool {
        &&& self.sig.wf()
        &&& self.arg_types@ == spec_native_args(self.sig@)
        &&& self.ret_type == spec_ffi_type_of(self.sig@.ret)
    }
}

/// The addresses that compiling a closure yields.
#[derive(Clone, Copy, Debug, PartialEq, Eq, Structural)]
pub struct ClosureHandles {
    /// The closure allocation, to be freed on teardown.
    pub closure_handle: usize,
    /// The entry point handed to the host.
    pub code_ptr: usize,
    /// The user data bound to the closure, to be freed with it.
    pub userdata: usize,
}

/// A compiled trampoline, bound to its method. It is neither copied nor
/// cloned: whoever holds it owns the executable memory behind it.
#[derive(Debug, PartialEq, Eq)]
pub struct NativeTrampoline {
    pub closure_handle: usize,
    pub code_ptr: usize,
    pub userdata: usize,
    pub method_id: SafeJMethodId,
}

impl NativeTrampoline {
    /// Binds freshly compiled handles to the method they were compiled for.
    pub fn bind(handles: ClosureHandles, method_id: SafeJMethodId) -> (t: Self)
        ensures
            t == (NativeTrampoline {
                closure_handle: handles.closure_handle,
                code_ptr: handles.code_ptr,
                userdata: handles.userdata,
                method_id,
            }),
    {
        NativeTrampoline {
            closure_handle: handles.closure_handle,
            code_ptr: handles.code_ptr,
            userdata: handles.userdata,
            method_id,
        }
    }

    /// The entry point to install in place of the method.
    pub fn code_ptr(&self) -> (p: usize)
        ensures
            p == self.code_ptr,
    {
        self.code_ptr
    }

    /// Gives up the trampoline for teardown: the handles to free.
    pub fn destroy(self) -> (h: ClosureHandles)
        ensures
            h == (ClosureHandles {
                closure_handle: self.closure_handle,
                code_ptr: self.code_ptr,
                userdata: self.userdata,
            }),
    {
        ClosureHandles {
            closure_handle: self.closure_handle,
            code_ptr: self.code_ptr,
            userdata: self.userdata,
        }
    }
}

/// Plans the trampoline of `method_id` from its descriptor: the parsed
/// signature and the native types to compile for. A malformed descriptor is
/// refused, since a wrong argument count would corrupt the trampoline's
/// register and stack layout.
pub fn create_universal_trampoline(method_id: SafeJMethodId, method_signature: &str) -> (r: Result<
    TrampolinePlan,
    ParseError,
>)
    ensures
        match spec_parse_text(method_signature@) {
            Some(m) => {
                &&& r is Ok
                &&& r->Ok_0.method_id == method_id
                &&& r->Ok_0.sig@ == m
                &&& r->Ok_0.wf()
            },
            None => r == Err::<TrampolinePlan, ParseError>(ParseError::Malformed),
        },
{
    match parse_jvm_sig(method_signature) {
        Ok(sig) => {
            let arg_types = native_arg_types(&sig);
            let ret_type = native_ret_type(&sig);
            Ok(TrampolinePlan { method_id, sig, arg_types, ret_type })
        },
        Err(e) => Err(e),
    }
}

} // verus!
