//! Choosing how the original method of a hooked method is called.
//!
//! The host runtime has one entry point per return kind and per calling mode.
//! The choice among them is a table on `(is_static, return kind)`.

use crate::handles::{SafeJClass, SafeJMethodId};
use crate::signature::JTypeKind;
use vstd::prelude::*;

verus! {

/// The entry points of the host runtime that call a method with an argument
/// array, named as the runtime names them.
#[derive(Clone, Copy, Debug, PartialEq, Eq, Structural)]
pub enum JniCall {
    CallNonvirtualVoidMethodA,
    CallNonvirtualBooleanMethodA,
    CallNonvirtualByteMethodA,
    CallNonvirtualCharMethodA,
    CallNonvirtualShortMethodA,
    CallNonvirtualIntMethodA,
    CallNonvirtualLongMethodA,
    CallNonvirtualFloatMethodA,
    CallNonvirtualDoubleMethodA,
    CallNonvirtualObjectMethodA,
    CallStaticVoidMethodA,
    CallStaticBooleanMethodA,
    CallStaticByteMethodA,
    CallStaticCharMethodA,
    CallStaticShortMethodA,
    CallStaticIntMethodA,
    CallStaticLongMethodA,
    CallStaticFloatMethodA,
    CallStaticDoubleMethodA,
    CallStaticObjectMethodA,
}

impl JniCall {
    /// Whether this entry point calls a static method.
    pub open spec fn is_static(self) -> bool {
        match self {
            JniCall::CallStaticVoidMethodA => true,
            JniCall::CallStaticBooleanMethodA => true,
            JniCall::CallStaticByteMethodA => true,
            JniCall::CallStaticCharMethodA => true,
            JniCall::CallStaticShortMethodA => true,
            JniCall::CallStaticIntMethodA => true,
            JniCall::CallStaticLongMethodA => true,
            JniCall::CallStaticFloatMethodA => true,
            JniCall::CallStaticDoubleMethodA => true,
            JniCall::CallStaticObjectMethodA => true,
            _ => false,
        }
    }

    /// The kind of value this entry point returns.
    pub open spec fn ret_kind(self) -> JTypeKind {
        match self {
            JniCall::CallNonvirtualVoidMethodA => JTypeKind::Void,
            JniCall::CallStaticVoidMethodA => JTypeKind::Void,
            JniCall::CallNonvirtualBooleanMethodA => JTypeKind::Boolean,
            JniCall::CallStaticBooleanMethodA => JTypeKind::Boolean,
            JniCall::CallNonvirtualByteMethodA => JTypeKind::Byte,
            JniCall::CallStaticByteMethodA => JTypeKind::Byte,
            JniCall::CallNonvirtualCharMethodA => JTypeKind::Char,
            JniCall::CallStaticCharMethodA => JTypeKind::Char,
            JniCall::CallNonvirtualShortMethodA => JTypeKind::Short,
            JniCall::CallStaticShortMethodA => JTypeKind::Short,
            JniCall::CallNonvirtualIntMethodA => JTypeKind::Int,
            JniCall::CallStaticIntMethodA => JTypeKind::Int,
            JniCall::CallNonvirtualLongMethodA => JTypeKind::Long,
            JniCall::CallStaticLongMethodA => JTypeKind::Long,
            JniCall::CallNonvirtualFloatMethodA => JTypeKind::Float,
            JniCall::CallStaticFloatMethodA => JTypeKind::Float,
            JniCall::CallNonvirtualDoubleMethodA => JTypeKind::Double,
            JniCall::CallStaticDoubleMethodA => JTypeKind::Double,
            JniCall::CallNonvirtualObjectMethodA => JTypeKind::Object,
            JniCall::CallStaticObjectMethodA => JTypeKind::Object,
        }
    }
}

/// The entry point for a calling mode and a return kind.
pub open spec fn spec_select_call(is_static: bool, ret: JTypeKind) -> JniCall {
    if is_static {
        match ret {
            JTypeKind::Void => JniCall::CallStaticVoidMethodA,
            JTypeKind::Boolean => JniCall::CallStaticBooleanMethodA,
            JTypeKind::Byte => JniCall::CallStaticByteMethodA,
            JTypeKind::Char => JniCall::CallStaticCharMethodA,
            JTypeKind::Short => JniCall::CallStaticShortMethodA,
            JTypeKind::Int => JniCall::CallStaticIntMethodA,
            JTypeKind::Long => JniCall::CallStaticLongMethodA,
            JTypeKind::Float => JniCall::CallStaticFloatMethodA,
            JTypeKind::Double => JniCall::CallStaticDoubleMethodA,
            JTypeKind::Object => JniCall::CallStaticObjectMethodA,
        }
    } else {
        match ret {
            JTypeKind::Void => JniCall::CallNonvirtualVoidMethodA,
            JTypeKind::Boolean => JniCall::CallNonvirtualBooleanMethodA,
            JTypeKind::Byte => JniCall::CallNonvirtualByteMethodA,
            JTypeKind::Char => JniCall::CallNonvirtualCharMethodA,
            JTypeKind::Short => JniCall::CallNonvirtualShortMethodA,
            JTypeKind::Int => JniCall::CallNonvirtualIntMethodA,
            JTypeKind::Long => JniCall::CallNonvirtualLongMethodA,
            JTypeKind::Float => JniCall::CallNonvirtualFloatMethodA,
            JTypeKind::Double => JniCall::CallNonvirtualDoubleMethodA,
            JTypeKind::Object => JniCall::CallNonvirtualObjectMethodA,
        }
    }
}

/// Selects the entry point for a calling mode and a return kind.
pub fn select_call(is_static: bool, ret: JTypeKind) -> (f: JniCall)
    ensures
        f == spec_select_call(is_static, ret),
        f.is_static() == is_static,
        f.ret_kind() == ret,
{
    if is_static {
        match ret {
            JTypeKind::Void => JniCall::CallStaticVoidMethodA,
            JTypeKind::Boolean => JniCall::CallStaticBooleanMethodA,
            JTypeKind::Byte => JniCall::CallStaticByteMethodA,
            JTypeKind::Char => JniCall::CallStaticCharMethodA,
            JTypeKind::Short => JniCall::CallStaticShortMethodA,
            JTypeKind::Int => JniCall::CallStaticIntMethodA,
            JTypeKind::Long => JniCall::CallStaticLongMethodA,
            JTypeKind::Float => JniCall::CallStaticFloatMethodA,
            JTypeKind::Double => JniCall::CallStaticDoubleMethodA,
            JTypeKind::Object => JniCall::CallStaticObjectMethodA,
        }
    } else {
        match ret {
            JTypeKind::Void => JniCall::CallNonvirtualVoidMethodA,
            JTypeKind::Boolean => JniCall::CallNonvirtualBooleanMethodA,
            JTypeKind::Byte => JniCall::CallNonvirtualByteMethodA,
            JTypeKind::Char => JniCall::CallNonvirtualCharMethodA,
            JTypeKind::Short => JniCall::CallNonvirtualShortMethodA,
            JTypeKind::Int => JniCall::CallNonvirtualIntMethodA,
            JTypeKind::Long => JniCall::CallNonvirtualLongMethodA,
            JTypeKind::Float => JniCall::CallNonvirtualFloatMethodA,
            JTypeKind::Double => JniCall::CallNonvirtualDoubleMethodA,
            JTypeKind::Object => JniCall::CallNonvirtualObjectMethodA,
        }
    }
}

/// A request to call the original method. The arguments are those the
/// router holds for the call.
#[derive(Clone, Copy, Debug, PartialEq, Eq, Structural)]
pub struct OriginalCall {
    /// The entry point to call through.
    pub function: JniCall,
    /// The receiver, for an instance method; `None` for a static one, which
    /// is called on `class`.
    pub receiver: Option<usize>,
    /// The class that owns the method.
    pub class: SafeJClass,
    /// The saved identity of the original method.
    pub method: SafeJMethodId,
}

/// The request that calls the original `method` of `class` with return kind
/// `ret`, on the receiver `this` when the method is not static.
pub open spec fn spec_call_original(
    this: usize,
    class: SafeJClass,
    method: SafeJMethodId,
    is_static: bool,
    ret: JTypeKind,
) -> OriginalCall {
    OriginalCall {
        function: spec_select_call(is_static, ret),
        receiver: if is_static {
            None
        } else {
            Some(this)
        },
        class,
        method,
    }
}

/// Shapes the call of the original method: the entry point from the
/// calling mode and the return kind, the receiver for an instance method, the
/// class for a static one, and the saved identity of the original.
pub fn call_original(
    this_or_cls: usize,
    class: SafeJClass,
    method: SafeJMethodId,
    is_static: bool,
    ret: JTypeKind,
) -> (call: OriginalCall)
    ensures
        call == spec_call_original(this_or_cls, class, method, is_static, ret),
{
    OriginalCall {
        function: select_call(is_static, ret),
        receiver: if is_static {
            None
        } else {
            Some(this_or_cls)
        },
        class,
        method,
    }
}

/// The table has one entry point for each calling mode and return kind, and
/// no entry point serves two of them.
pub proof fn lemma_select_call_is_exact(is_static: bool, ret: JTypeKind)
    ensures
        spec_select_call(is_static, ret).is_static() == is_static,
        spec_select_call(is_static, ret).ret_kind() == ret,
{
}

/// Every entry point is the table's choice for its own mode and kind.
pub proof fn lemma_select_call_covers(f: JniCall)
    ensures
        spec_select_call(f.is_static(), f.ret_kind()) == f,
{
}

} // verus!
