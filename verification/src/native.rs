//! The native calling convention of a trampoline.

use crate::signature::{JTypeKind, ParsedSig, SigModel};
use vstd::prelude::*;

verus! {

/// A type of the platform calling convention.
#[derive(Clone, Copy, Debug, PartialEq, Eq, Structural)]
pub enum NativeType {
    /// No value.
    Void,
    /// One-byte signed integer.
    SInt8,
    /// Two-byte unsigned integer.
    UInt16,
    /// Two-byte signed integer.
    SInt16,
    /// Four-byte signed integer.
    SInt32,
    /// Eight-byte signed integer.
    SInt64,
    /// Four-byte float.
    Float32,
    /// Eight-byte float.
    Float64,
    /// Pointer-width integer.
    Pointer,
}

/// The native type that carries a value of kind `k`.
pub open spec fn spec_ffi_type_of(k: JTypeKind) -> NativeType {
    match k {
        JTypeKind::Void => NativeType::Void,
        JTypeKind::Boolean => NativeType::SInt8,
        JTypeKind::Byte => NativeType::SInt8,
        JTypeKind::Char => NativeType::UInt16,
        JTypeKind::Short => NativeType::SInt16,
        JTypeKind::Int => NativeType::SInt32,
        JTypeKind::Long => NativeType::SInt64,
        JTypeKind::Float => NativeType::Float32,
        JTypeKind::Double => NativeType::Float64,
        JTypeKind::Object => NativeType::Pointer,
    }
}

/// Maps a kind to its native type. Total over the closed set of kinds.
pub fn ffi_type_of(k: JTypeKind) -> (r: NativeType)
    ensures
        r == spec_ffi_type_of(k),
{
    match k {
        JTypeKind::Void => NativeType::Void,
        JTypeKind::Boolean | JTypeKind::Byte => NativeType::SInt8,
        JTypeKind::Char => NativeType::UInt16,
        JTypeKind::Short => NativeType::SInt16,
        JTypeKind::Int => NativeType::SInt32,
        JTypeKind::Long => NativeType::SInt64,
        JTypeKind::Float => NativeType::Float32,
        JTypeKind::Double => NativeType::Float64,
        JTypeKind::Object => NativeType::Pointer,
    }
}

/// The native argument list of a trampoline for `sig`: the environment
/// handle, the receiver or class handle, then one mapped type per argument.
pub open spec fn spec_native_args(sig: SigModel) -> Seq<NativeType> {
    seq![NativeType::Pointer, NativeType::Pointer] + sig.args.map_values(
        |k: JTypeKind| spec_ffi_type_of(k),
    )
}

/// Builds the native argument list of a trampoline, see [`spec_native_args`].
pub fn native_arg_types(sig: &ParsedSig) -> (r: Vec<NativeType>)
    ensures
        r@ == spec_native_args(sig@),
        r@.len() == sig@.args.len() + 2,
{
    let mut out: Vec<NativeType> = Vec::new();
    out.push(NativeType::Pointer);
    out.push(NativeType::Pointer);
    let mut i: usize = 0;
    while i < sig.args.len()
        invariant
            i <= sig.args@.len(),
            out@.len() == i + 2,
            out@[0] == NativeType::Pointer,
            out@[1] == NativeType::Pointer,
            forall|j: int| 0 <= j < i ==> out@[j + 2] == spec_ffi_type_of(sig.args@[j]),
        decreases sig.args@.len() - i,
    {
        out.push(ffi_type_of(sig.args[i]));
        i += 1;
    }
    assert(out@ =~= spec_native_args(sig@));
    out
}

/// The native return type of a trampoline for `sig`.
pub fn native_ret_type(sig: &ParsedSig) -> (r: NativeType)
    ensures
        r == spec_ffi_type_of(sig@.ret),
{
    ffi_type_of(sig.ret)
}

/// Every trampoline takes at least the two leading handles, and its list is
/// as long as the descriptor's argument list plus those two.
pub proof fn lemma_native_args_shape(sig: SigModel)
    ensures
        spec_native_args(sig).len() == sig.args.len() + 2,
        spec_native_args(sig)[0] == NativeType::Pointer,
        spec_native_args(sig)[1] == NativeType::Pointer,
        forall|i: int|
            0 <= i < sig.args.len() ==> spec_native_args(sig)[i + 2] == spec_ffi_type_of(
                sig.args[i],
            ),
{
}

/// From a well-formed signature no argument maps to the native `Void`.
pub proof fn lemma_native_args_never_void(sig: SigModel)
    requires
        sig.wf(),
    ensures
        forall|i: int|
            0 <= i < spec_native_args(sig).len() ==> spec_native_args(sig)[i] != NativeType::Void,
{
    assert forall|i: int| 0 <= i < spec_native_args(sig).len() implies spec_native_args(sig)[i]
        != NativeType::Void by {
        if i >= 2 {
            assert(spec_native_args(sig)[i] == spec_ffi_type_of(sig.args[i - 2]));
        }
    }
}

} // verus!
