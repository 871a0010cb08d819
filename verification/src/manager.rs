//! The hook manager: attaching and detaching, one decision at a time.
//!
//! Resolving a method, compiling a trampoline and swapping a method's entry
//! point are done by the caller. Each step here takes what the previous
//! outside step gave and says what comes next. A pending value can only be
//! had from the step before it, so the steps cannot be taken out of order:
//! a trampoline is installed only after it was compiled for a parsed
//! descriptor, and it is handed out for freeing only after the original
//! entry point was restored and the table entry removed.

use crate::handles::{SafeJClass, SafeJMethodId};
use crate::registry::{HookInfo, HookRegistry};
use crate::signature::{spec_parse_text, ParseError};
use crate::trampoline::{
    create_universal_trampoline, ClosureHandles, NativeTrampoline, TrampolinePlan,
};
use vstd::prelude::*;

verus! {

/// What the hook installation primitive reports.
#[derive(Clone, Copy, Debug, PartialEq, Eq, Structural)]
pub enum JNIHookResult {
    JnihookOk,
    JnihookErrGetJni,
    JnihookErrGetJvmti,
    JnihookErrAddJvmtiCaps,
    JnihookErrSetupClassFileLoadHook,
    JnihookErrJniOperation,
    JnihookErrJvmtiOperation,
    JnihookErrClassFileCache,
    JnihookErrJavaException,
}

impl JNIHookResult {
    /// The result with the primitive's numeric code `code`.
    pub open spec fn spec_from_code(code: i32) -> Option<JNIHookResult> {
        if code == 0 {
            Some(JNIHookResult::JnihookOk)
        } else if code == 1 {
            Some(JNIHookResult::JnihookErrGetJni)
        } else if code == 2 {
            Some(JNIHookResult::JnihookErrGetJvmti)
        } else if code == 3 {
            Some(JNIHookResult::JnihookErrAddJvmtiCaps)
        } else if code == 4 {
            Some(JNIHookResult::JnihookErrSetupClassFileLoadHook)
        } else if code == 5 {
            Some(JNIHookResult::JnihookErrJniOperation)
        } else if code == 6 {
            Some(JNIHookResult::JnihookErrJvmtiOperation)
        } else if code == 7 {
            Some(JNIHookResult::JnihookErrClassFileCache)
        } else if code == 8 {
            Some(JNIHookResult::JnihookErrJavaException)
        } else {
            None
        }
    }

    /// The result with the primitive's numeric code `code`, `None` for a code
    /// the primitive does not have.
    pub fn from_code(code: i32) -> (r: Option<JNIHookResult>)
        ensures
            r == Self::spec_from_code(code),
    {
        match code {
            0 => Some(JNIHookResult::JnihookOk),
            1 => Some(JNIHookResult::JnihookErrGetJni),
            2 => Some(JNIHookResult::JnihookErrGetJvmti),
            3 => Some(JNIHookResult::JnihookErrAddJvmtiCaps),
            4 => Some(JNIHookResult::JnihookErrSetupClassFileLoadHook),
            5 => Some(JNIHookResult::JnihookErrJniOperation),
            6 => Some(JNIHookResult::JnihookErrJvmtiOperation),
            7 => Some(JNIHookResult::JnihookErrClassFileCache),
            8 => Some(JNIHookResult::JnihookErrJavaException),
            _ => None,
        }
    }

    /// Whether the primitive succeeded.
    pub fn is_ok(&self) -> (r: bool)
        ensures
            r == (*self == JNIHookResult::JnihookOk),
    {
        match self {
            JNIHookResult::JnihookOk => true,
            _ => false,
        }
    }
}

/// Executable memory for a trampoline could not be had.
#[derive(Clone, Copy, Debug, PartialEq, Eq, Structural)]
pub enum CompileError {
    AllocationFailed,
}

/// Why attaching or detaching a hook failed.
#[derive(Clone, Copy, Debug, PartialEq, Eq, Structural)]
pub enum HookError {
    /// The class or the method was not found.
    Resolution,
    /// The descriptor is malformed.
    Parse(ParseError),
    /// The trampoline could not be compiled.
    Compile(CompileError),
    /// The primitive refused to install the trampoline.
    Install(JNIHookResult),
    /// The primitive could not restore the original entry point.
    Restore(JNIHookResult),
    /// The primitive's shutdown failed.
    Shutdown(JNIHookResult),
}

/// A method as the resolution primitive found it.
#[derive(Clone, Copy, Debug, PartialEq, Eq, Structural)]
pub struct ResolvedMethod {
    pub class: SafeJClass,
    pub method: SafeJMethodId,
    /// Whether static resolution succeeded; otherwise instance resolution did.
    pub is_static: bool,
}

/// An attach under way: the method is being resolved.
#[derive(Debug)]
pub struct PendingResolve {
    method_signature: String,
    callback: u64,
}

/// An attach under way: the trampoline of the plan is being compiled.
#[derive(Debug)]
pub struct PendingCompile {
    target: ResolvedMethod,
    callback: u64,
    plan: TrampolinePlan,
}

/// An attach under way: the trampoline is being installed.
#[derive(Debug)]
pub struct PendingInstall {
    target: ResolvedMethod,
    callback: u64,
    trampoline: NativeTrampoline,
}

impl PendingResolve {
    /// The descriptor of the method to hook.
    pub closed spec fn spec_signature(&self) -> Seq<char> {
        self.method_signature@
    }

    /// The callback to attach.
    pub closed spec fn spec_callback(&self) -> u64 {
        self.callback
    }

    /// The descriptor of the method to hook.
    pub fn method_signature(&self) -> (r: &String)
        ensures
            r@ == self.spec_signature(),
    {
        &self.method_signature
    }
}

impl PendingCompile {
    /// The method that was resolved.
    pub closed spec fn spec_target(&self) -> ResolvedMethod {
        self.target
    }

    /// The callback to attach.
    pub closed spec fn spec_callback(&self) -> u64 {
        self.callback
    }

    /// The plan to compile.
    pub closed spec fn spec_plan(&self) -> &TrampolinePlan {
        &self.plan
    }

    /// The plan is the plan of the resolved method.
    pub open spec fn wf(&self) -> bool {
        self.spec_plan().method_id == self.spec_target().method && self.spec_plan().wf()
    }

    /// The plan to compile.
    pub fn plan(&self) -> (r: &TrampolinePlan)
        ensures
            r == self.spec_plan(),
    {
        &self.plan
    }

    /// The method that was resolved.
    pub fn target(&self) -> (r: ResolvedMethod)
        ensures
            r == self.spec_target(),
    {
        self.target
    }
}

impl PendingInstall {
    /// The method that was resolved.
    pub closed spec fn spec_target(&self) -> ResolvedMethod {
        self.target
    }

    /// The callback to attach.
    pub closed spec fn spec_callback(&self) -> u64 {
        self.callback
    }

    /// The trampoline to install.
    pub closed spec fn spec_trampoline(&self) -> NativeTrampoline {
        self.trampoline
    }

    /// The trampoline is bound to the resolved method.
    pub open spec fn wf(&self) -> bool {
        self.spec_trampoline().method_id == self.spec_target().method
    }

    /// The trampoline to install.
    pub fn trampoline(&self) -> (r: &NativeTrampoline)
        ensures
            *r == self.spec_trampoline(),
    {
        &self.trampoline
    }

    /// The method that was resolved.
    pub fn target(&self) -> (r: ResolvedMethod)
        ensures
            r == self.spec_target(),
    {
        self.target
    }
}

/// A detach under way: the original entry point of `id` is being restored.
#[derive(Debug)]
pub struct PendingRestore {
    id: SafeJMethodId,
}

impl PendingRestore {
    /// The method to detach.
    pub closed spec fn spec_id(&self) -> SafeJMethodId {
        self.id
    }

    /// The method to detach.
    pub fn id(&self) -> (r: SafeJMethodId)
        ensures
            r == self.spec_id(),
    {
        self.id
    }
}

/// What a finished detach leaves to be released.
#[derive(Debug)]
pub struct Detached {
    /// The entry that was removed, if there was one. Its class reference is
    /// to be released.
    pub entry: Option<HookInfo>,
    /// The trampolines of the method, to be freed.
    pub trampolines: Vec<NativeTrampoline>,
}

/// Owns the hook table and every trampoline compiled for an attached hook.
pub struct JNIHookManager {
    jvm: usize,
    registry: HookRegistry,
    trampolines: Vec<NativeTrampoline>,
}

/// Model of a [`JNIHookManager`].
pub struct ManagerModel {
    pub hooks: Map<usize, HookInfo>,
    pub trampolines: Seq<NativeTrampoline>,
}

impl ManagerModel {
    /// Every trampoline held belongs to an attached hook, and every attached
    /// hook has a trampoline.
    pub open spec fn wf(self) -> bool {
        &&& forall|i: int|
            0 <= i < self.trampolines.len() ==> self.hooks.contains_key(
                #[trigger] self.trampolines[i].method_id.0,
            )
        &&& forall|k: usize| #[trigger]
            self.hooks.contains_key(k) ==> exists|i: int|
                0 <= i < self.trampolines.len() && (#[trigger] self.trampolines[i]).method_id.0
                    == k
    }

    /// The manager after `trampoline` was installed for `target`, with
    /// `original` as the saved identity of the original method. An
    /// entry already there is overwritten; the trampolines of an overwritten
    /// hook stay alive until the method is detached.
    pub open spec fn installed(
        self,
        target: ResolvedMethod,
        callback: u64,
        trampoline: NativeTrampoline,
        original: SafeJMethodId,
    ) -> ManagerModel {
        ManagerModel {
            hooks: self.hooks.insert(
                target.method.0,
                HookInfo {
                    callback,
                    original_method: original,
                    class: target.class,
                    is_static: target.is_static,
                },
            ),
            trampolines: self.trampolines.push(trampoline),
        }
    }

    /// The manager after the original entry point of `id` was restored.
    pub open spec fn restored(self, id: usize) -> ManagerModel {
        ManagerModel {
            hooks: self.hooks.remove(id),
            trampolines: self.trampolines.filter(|t: NativeTrampoline| t.method_id.0 != id),
        }
    }

    /// The trampolines that restoring `id` releases.
    pub open spec fn released(self, id: usize) -> Seq<NativeTrampoline> {
        self.trampolines.filter(|t: NativeTrampoline| t.method_id.0 == id)
    }
}

impl View for JNIHookManager {
    type V = ManagerModel;

    closed spec fn view(&self) -> ManagerModel {
        ManagerModel { hooks: self.registry@, trampolines: self.trampolines@ }
    }
}

/// The methods of the first `upto` trampolines, each once, in the order in
/// which they first occur.
pub open spec fn distinct_methods(list: Seq<NativeTrampoline>, upto: int) -> Seq<SafeJMethodId>
    decreases upto,
{
    if upto <= 0 {
        Seq::<SafeJMethodId>::empty()
    } else {
        let before = distinct_methods(list, upto - 1);
        if before.contains(list[upto - 1].method_id) {
            before
        } else {
            before.push(list[upto - 1].method_id)
        }
    }
}

/// Whether `list` holds a trampoline bound to `id`.
pub open spec fn holds_trampoline_of(list: Seq<NativeTrampoline>, id: SafeJMethodId) -> bool {
    exists|t: int| 0 <= t < list.len() && (#[trigger] list[t]).method_id == id
}

proof fn lemma_filter_step<A>(s: Seq<A>, pred: spec_fn(A) -> bool, i: int)
    requires
        0 <= i < s.len(),
    ensures
        s.take(i + 1).filter(pred) == if pred(s[i]) {
            s.take(i).filter(pred).push(s[i])
        } else {
            s.take(i).filter(pred)
        },
{
    reveal(Seq::filter);
    assert(s.take(i + 1).drop_last() =~= s.take(i));
}

impl JNIHookManager {
    /// A manager for the virtual machine `jvm`, with nothing attached.
    pub fn new(jvm: usize) -> (m: Self)
        ensures
            m@.hooks == Map::<usize, HookInfo>::empty(),
            m@.trampolines == Seq::<NativeTrampoline>::empty(),
            m@.wf(),
            m.spec_jvm() == jvm,
    {
        JNIHookManager { jvm, registry: HookRegistry::new(), trampolines: Vec::new() }
    }

    /// The virtual machine this manager hooks into.
    pub closed spec fn spec_jvm(&self) -> usize {
        self.jvm
    }

    /// The virtual machine this manager hooks into.
    pub fn jvm(&self) -> (r: usize)
        ensures
            r == self.spec_jvm(),
    {
        self.jvm
    }

    /// The hook table, for routing calls.
    pub fn registry(&self) -> (r: &HookRegistry)
        ensures
            r@ == self@.hooks,
    {
        &self.registry
    }

    /// Begins attaching `callback` to a method with the given descriptor. The
    /// next outside step is to resolve the class and the method.
    pub fn hook_method(&self, method_signature: &str, callback: u64) -> (p: PendingResolve)
        ensures
            p.spec_signature() == method_signature@,
            p.spec_callback() == callback,
    {
        PendingResolve { method_signature: method_signature.to_owned(), callback }
    }

    /// Takes the outcome of resolution. A method that was not found ends the
    /// attach with [`HookError::Resolution`]; a malformed descriptor ends it
    /// with [`HookError::Parse`]. Otherwise the next outside step is to
    /// compile the trampoline of the plan.
    pub fn method_resolved(&self, pending: PendingResolve, found: Option<ResolvedMethod>) -> (r:
        Result<PendingCompile, HookError>)
        ensures
            match found {
                None => r == Err::<PendingCompile, HookError>(HookError::Resolution),
                Some(target) => match spec_parse_text(pending.spec_signature()) {
                    None => r == Err::<PendingCompile, HookError>(
                        HookError::Parse(ParseError::Malformed),
                    ),
                    Some(m) => {
                        &&& r is Ok
                        &&& r->Ok_0.spec_target() == target
                        &&& r->Ok_0.spec_callback() == pending.spec_callback()
                        &&& r->Ok_0.spec_plan().method_id == target.method
                        &&& r->Ok_0.spec_plan().sig@ == m
                        &&& r->Ok_0.wf()
                    },
                },
            },
    {
        match found {
            None => Err(HookError::Resolution),
            Some(target) => {
                match create_universal_trampoline(target.method, pending.method_signature.as_str()) {
                    Err(e) => Err(HookError::Parse(e)),
                    Ok(plan) => Ok(PendingCompile { target, callback: pending.callback, plan }),
                }
            },
        }
    }

    /// Takes the outcome of compiling. Without executable memory the attach
    /// ends with [`CompileError::AllocationFailed`] and nothing is left to
    /// free. Otherwise the trampoline is bound to its method and the next
    /// outside step is to install its entry point.
    pub fn trampoline_compiled(
        &self,
        pending: PendingCompile,
        compiled: Option<ClosureHandles>,
    ) -> (r: Result<PendingInstall, HookError>)
        ensures
            match compiled {
                None => r == Err::<PendingInstall, HookError>(
                    HookError::Compile(CompileError::AllocationFailed),
                ),
                Some(h) => {
                    &&& r is Ok
                    &&& r->Ok_0.spec_target() == pending.spec_target()
                    &&& r->Ok_0.spec_callback() == pending.spec_callback()
                    &&& r->Ok_0.spec_trampoline() == (NativeTrampoline {
                        closure_handle: h.closure_handle,
                        code_ptr: h.code_ptr,
                        userdata: h.userdata,
                        method_id: pending.spec_plan().method_id,
                    })
                    &&& pending.wf() ==> r->Ok_0.wf()
                },
            },
    {
        match compiled {
            None => Err(HookError::Compile(CompileError::AllocationFailed)),
            Some(h) => Ok(
                PendingInstall {
                    target: pending.target,
                    callback: pending.callback,
                    trampoline: NativeTrampoline::bind(h, pending.plan.method_id),
                },
            ),
        }
    }

    /// Takes the outcome of installing. On success the hook is recorded and
    /// the manager keeps the trampoline. On failure the manager is unchanged
    /// and the trampoline comes back with the error, to be freed at once.
    pub fn hook_installed(
        &mut self,
        pending: PendingInstall,
        result: JNIHookResult,
        original: SafeJMethodId,
    ) -> (r: Result<(), (HookError, NativeTrampoline)>)
        ensures
            result == JNIHookResult::JnihookOk ==> r is Ok && final(self)@ == old(self)@.installed(
                pending.spec_target(),
                pending.spec_callback(),
                pending.spec_trampoline(),
                original,
            ),
            result != JNIHookResult::JnihookOk ==> r == Err::<(), (HookError, NativeTrampoline)>(
                (HookError::Install(result), pending.spec_trampoline()),
            ) && final(self)@ == old(self)@,
            final(self).spec_jvm() == old(self).spec_jvm(),
            old(self)@.wf() && pending.wf() ==> final(self)@.wf(),
    {
        proof {
            if old(self)@.wf() && pending.wf() {
                lemma_installed_keeps_wf(
                    old(self)@,
                    pending.target,
                    pending.callback,
                    pending.trampoline,
                    original,
                );
            }
        }
        if result.is_ok() {
            let entry = HookInfo::new(
                pending.callback,
                original,
                pending.target.class,
                pending.target.is_static,
            );
            self.registry.insert(pending.target.method, entry);
            self.trampolines.push(pending.trampoline);
            Ok(())
        } else {
            Err((HookError::Install(result), pending.trampoline))
        }
    }

    /// Begins detaching `id`. The next outside step is to restore the
    /// original entry point of the method.
    pub fn detach(&self, id: SafeJMethodId) -> (p: PendingRestore)
        ensures
            p.spec_id() == id,
    {
        PendingRestore { id }
    }

    /// Takes the outcome of restoring. On failure nothing changes: the entry
    /// stays in the table, since the intercept may still be live. On success
    /// the entry is removed and the trampolines of the method are handed out
    /// to be freed.
    pub fn hook_restored(&mut self, pending: PendingRestore, result: JNIHookResult) -> (r: Result<
        Detached,
        HookError,
    >)
        ensures
            final(self).spec_jvm() == old(self).spec_jvm(),
            result != JNIHookResult::JnihookOk ==> r == Err::<Detached, HookError>(
                HookError::Restore(result),
            ) && final(self)@ == old(self)@,
            result == JNIHookResult::JnihookOk ==> {
                &&& r is Ok
                &&& final(self)@ == old(self)@.restored(pending.spec_id().0)
                &&& r->Ok_0.trampolines@ == old(self)@.released(pending.spec_id().0)
                &&& r->Ok_0.entry == (if old(self)@.hooks.contains_key(pending.spec_id().0) {
                    Some(old(self)@.hooks[pending.spec_id().0])
                } else {
                    None
                })
            },
            old(self)@.wf() ==> final(self)@.wf(),
    {
        proof {
            if old(self)@.wf() {
                lemma_restored_keeps_wf(old(self)@, pending.id.0);
            }
        }
        if !result.is_ok() {
            return Err(HookError::Restore(result));
        }
        let id = pending.id;
        let entry = self.registry.remove(id);
        let mut all: Vec<NativeTrampoline> = Vec::new();
        std::mem::swap(&mut all, &mut self.trampolines);
        let ghost orig = all@;
        let ghost keep = |t: NativeTrampoline| t.method_id.0 != id.0;
        let ghost free = |t: NativeTrampoline| t.method_id.0 == id.0;
        let mut freed: Vec<NativeTrampoline> = Vec::new();
        let mut taken: usize = 0;
        let total = all.len();
        proof {
            reveal(Seq::filter);
            assert(orig.take(0) =~= Seq::<NativeTrampoline>::empty());
        }
        while taken < total
            invariant
                taken <= total,
                total == orig.len(),
                all@ == orig.skip(taken as int),
                self.trampolines@ == orig.take(taken as int).filter(keep),
                freed@ == orig.take(taken as int).filter(free),
                keep == (|t: NativeTrampoline| t.method_id.0 != id.0),
                free == (|t: NativeTrampoline| t.method_id.0 == id.0),
                self.registry@ == old(self)@.hooks.remove(id.0),
                self.jvm == old(self).jvm,
            decreases total - taken,
        {
            proof {
                lemma_filter_step(orig, keep, taken as int);
                lemma_filter_step(orig, free, taken as int);
            }
            let t = all.remove(0);
            assert(all@ =~= orig.skip(taken + 1));
            if t.method_id.0 == id.0 {
                freed.push(t);
            } else {
                self.trampolines.push(t);
            }
            taken += 1;
        }
        assert(orig.take(total as int) =~= orig);
        Ok(Detached { entry, trampolines: freed })
    }

    /// The methods to detach when everything is unhooked: each method that
    /// has a trampoline once, in the order in which they were first attached.
    pub fn unhook_all(&self) -> (ids: Vec<SafeJMethodId>)
        ensures
            ids@ == distinct_methods(self@.trampolines, self@.trampolines.len() as int),
            ids@.no_duplicates(),
            forall|i: int| 0 <= i < ids@.len() ==> holds_trampoline_of(self@.trampolines, #[trigger] ids@[i]),
            forall|t: int|
                0 <= t < self@.trampolines.len() ==> ids@.contains(
                    #[trigger] self@.trampolines[t].method_id,
                ),
            self@.wf() ==> forall|k: usize|
                self@.hooks.contains_key(k) <==> #[trigger] ids@.contains(SafeJMethodId(k)),
    {
        let mut ids: Vec<SafeJMethodId> = Vec::new();
        let mut t: usize = 0;
        while t < self.trampolines.len()
            invariant
                t <= self.trampolines@.len(),
                ids@ == distinct_methods(self.trampolines@, t as int),
                ids@.no_duplicates(),
                forall|i: int|
                    0 <= i < ids@.len() ==> holds_trampoline_of(
                        self.trampolines@.take(t as int),
                        #[trigger] ids@[i],
                    ),
                forall|u: int|
                    0 <= u < t ==> ids@.contains(#[trigger] self.trampolines@[u].method_id),
            decreases self.trampolines@.len() - t,
        {
            let id = self.trampolines[t].method_id;
            let mut seen = false;
            let mut i: usize = 0;
            while i < ids.len()
                invariant
                    i <= ids@.len(),
                    seen == ids@.take(i as int).contains(id),
                decreases ids@.len() - i,
            {
                let ghost upto = ids@.take(i as int);
                let ghost next = ids@.take(i + 1);
                proof {
                    assert(next =~= upto.push(ids@[i as int]));
                    if upto.contains(id) {
                        let w = choose|w: int| 0 <= w < upto.len() && upto[w] == id;
                        assert(next[w] == id);
                    }
                    if next.contains(id) && ids@[i as int] != id {
                        let w = choose|w: int| 0 <= w < next.len() && next[w] == id;
                        assert(upto[w] == id);
                    }
                    if ids@[i as int] == id {
                        assert(next[i as int] == id);
                    }
                }
                if ids[i].0 == id.0 {
                    seen = true;
                }
                i += 1;
            }
            assert(ids@.take(ids@.len() as int) =~= ids@);
            let ghost before = ids@;
            let ghost held = self.trampolines@.take(t as int);
            let ghost held_next = self.trampolines@.take(t + 1);
            if !seen {
                ids.push(id);
                assert(ids@[before.len() as int] == id);
            }
            proof {
                assert(held_next[t as int].method_id == id);
                assert forall|i: int| 0 <= i < ids@.len() implies holds_trampoline_of(
                    held_next,
                    #[trigger] ids@[i],
                ) by {
                    if i < before.len() {
                        assert(ids@[i] == before[i]);
                        assert(holds_trampoline_of(held, before[i]));
                        let w = choose|w: int|
                            0 <= w < held.len() && (#[trigger] held[w]).method_id == before[i];
                        assert(held_next[w].method_id == ids@[i]);
                    }
                }
                assert forall|u: int| 0 <= u < t + 1 implies ids@.contains(
                    #[trigger] self.trampolines@[u].method_id,
                ) by {
                    let want = self.trampolines@[u].method_id;
                    if u < t || seen {
                        assert(before.contains(want));
                        let w = choose|w: int| 0 <= w < before.len() && before[w] == want;
                        assert(ids@[w] == want);
                    }
                }
            }
            t += 1;
        }
        proof {
            assert(self.trampolines@.take(t as int) =~= self.trampolines@);
            if self@.wf() {
                assert forall|k: usize| self@.hooks.contains_key(k) implies #[trigger] ids@.contains(
                    SafeJMethodId(k),
                ) by {
                    let u = choose|u: int|
                        0 <= u < self@.trampolines.len() && (#[trigger] self@.trampolines[u]).method_id.0
                            == k;
                    assert(self@.trampolines[u].method_id == SafeJMethodId(k));
                }
                assert forall|k: usize| #[trigger]
                    ids@.contains(SafeJMethodId(k)) implies self@.hooks.contains_key(k) by {
                    let w = choose|w: int| 0 <= w < ids@.len() && ids@[w] == SafeJMethodId(k);
                    assert(holds_trampoline_of(self@.trampolines, ids@[w]));
                    let u = choose|u: int|
                        0 <= u < self@.trampolines.len() && (#[trigger] self@.trampolines[u]).method_id
                            == ids@[w];
                    assert(self@.hooks.contains_key(self@.trampolines[u].method_id.0));
                }
            }
        }
        ids
    }

    /// Takes the outcome of the primitive's shutdown.
    pub fn shutdown(result: JNIHookResult) -> (r: Result<(), HookError>)
        ensures
            r == (if result == JNIHookResult::JnihookOk {
                Ok::<(), HookError>(())
            } else {
                Err::<(), HookError>(HookError::Shutdown(result))
            }),
    {
        if result.is_ok() {
            Ok(())
        } else {
            Err(HookError::Shutdown(result))
        }
    }
}

proof fn lemma_filter_all<A>(s: Seq<A>, pred: spec_fn(A) -> bool)
    requires
        forall|i: int| 0 <= i < s.len() ==> pred(#[trigger] s[i]),
    ensures
        s.filter(pred) == s,
    decreases s.len(),
{
    reveal(Seq::filter);
    if s.len() > 0 {
        lemma_filter_all(s.drop_last(), pred);
        assert(s.drop_last().push(s.last()) =~= s);
    }
}

proof fn lemma_filter_none<A>(s: Seq<A>, pred: spec_fn(A) -> bool)
    requires
        forall|i: int| 0 <= i < s.len() ==> !pred(#[trigger] s[i]),
    ensures
        s.filter(pred) == Seq::<A>::empty(),
    decreases s.len(),
{
    reveal(Seq::filter);
    if s.len() > 0 {
        lemma_filter_none(s.drop_last(), pred);
    }
}

/// Installing a trampoline bound to its target keeps the manager
/// well-formed.
pub proof fn lemma_installed_keeps_wf(
    m: ManagerModel,
    target: ResolvedMethod,
    callback: u64,
    trampoline: NativeTrampoline,
    original: SafeJMethodId,
)
    requires
        m.wf(),
        trampoline.method_id == target.method,
    ensures
        m.installed(target, callback, trampoline, original).wf(),
{
    let n = m.installed(target, callback, trampoline, original);
    assert forall|k: usize| #[trigger] n.hooks.contains_key(k) implies exists|i: int|
        0 <= i < n.trampolines.len() && (#[trigger] n.trampolines[i]).method_id.0 == k by {
        if k == target.method.0 {
            assert(n.trampolines[m.trampolines.len() as int].method_id.0 == k);
        } else {
            assert(m.hooks.contains_key(k));
            let i = choose|i: int|
                0 <= i < m.trampolines.len() && (#[trigger] m.trampolines[i]).method_id.0 == k;
            assert(n.trampolines[i].method_id.0 == k);
        }
    }
    assert forall|i: int| 0 <= i < n.trampolines.len() implies n.hooks.contains_key(
        #[trigger] n.trampolines[i].method_id.0,
    ) by {
        if i < m.trampolines.len() {
            assert(n.trampolines[i] == m.trampolines[i]);
            assert(m.hooks.contains_key(m.trampolines[i].method_id.0));
        }
    }
}

/// Restoring a method keeps the manager well-formed.
pub proof fn lemma_restored_keeps_wf(m: ManagerModel, id: usize)
    requires
        m.wf(),
    ensures
        m.restored(id).wf(),
{
    let keep = |t: NativeTrampoline| t.method_id.0 != id;
    let n = m.restored(id);
    broadcast use vstd::seq_lib::group_filter_ensures;

    assert forall|i: int| 0 <= i < n.trampolines.len() implies n.hooks.contains_key(
        #[trigger] n.trampolines[i].method_id.0,
    ) by {
        let t = n.trampolines[i];
        assert(keep(t));
        assert(m.trampolines.filter(keep).contains(t));
        lemma_filter_source(m.trampolines, keep, i);
    }
    assert forall|k: usize| #[trigger] n.hooks.contains_key(k) implies exists|i: int|
        0 <= i < n.trampolines.len() && (#[trigger] n.trampolines[i]).method_id.0 == k by {
        assert(m.hooks.contains_key(k));
        let j = choose|j: int|
            0 <= j < m.trampolines.len() && (#[trigger] m.trampolines[j]).method_id.0 == k;
        assert(keep(m.trampolines[j]));
        assert(n.trampolines.contains(m.trampolines[j]));
        let i = choose|i: int| 0 <= i < n.trampolines.len() && n.trampolines[i] == m.trampolines[j];
        assert(n.trampolines[i].method_id.0 == k);
    }
}

proof fn lemma_filter_source<A>(s: Seq<A>, pred: spec_fn(A) -> bool, i: int)
    requires
        0 <= i < s.filter(pred).len(),
    ensures
        exists|j: int| 0 <= j < s.len() && s[j] == s.filter(pred)[i],
    decreases s.len(),
{
    reveal(Seq::filter);
    if s.len() > 0 {
        let sub = s.drop_last().filter(pred);
        if i < sub.len() {
            lemma_filter_source(s.drop_last(), pred, i);
            let j = choose|j: int| 0 <= j < s.drop_last().len() && s.drop_last()[j] == sub[i];
            assert(s[j] == s.filter(pred)[i]);
        } else {
            assert(s[s.len() - 1] == s.filter(pred)[i]);
        }
    }
}

/// Attach, then detach at once: the manager is as it was before, and the one
/// trampoline that was compiled is the one handed out to be freed. From an
/// empty manager, the table is empty again and nothing is held.
pub proof fn lemma_attach_then_detach(
    m: ManagerModel,
    target: ResolvedMethod,
    callback: u64,
    trampoline: NativeTrampoline,
    original: SafeJMethodId,
)
    requires
        m.wf(),
        !m.hooks.contains_key(target.method.0),
        trampoline.method_id == target.method,
    ensures
        m.installed(target, callback, trampoline, original).restored(target.method.0) == m,
        m.installed(target, callback, trampoline, original).released(target.method.0)
            == seq![trampoline],
{
    let id = target.method.0;
    let n = m.installed(target, callback, trampoline, original);
    let keep = |t: NativeTrampoline| t.method_id.0 != id;
    let free = |t: NativeTrampoline| t.method_id.0 == id;
    assert forall|i: int| 0 <= i < m.trampolines.len() implies keep(#[trigger] m.trampolines[i])
        && !free(m.trampolines[i]) by {
        assert(m.hooks.contains_key(m.trampolines[i].method_id.0));
    }
    lemma_filter_all(m.trampolines, keep);
    lemma_filter_none(m.trampolines, free);
    reveal(Seq::filter);
    assert(n.trampolines.drop_last() =~= m.trampolines);
    assert(n.trampolines.last() == trampoline);
    assert(n.trampolines.filter(keep) == m.trampolines);
    assert(n.trampolines.filter(free) =~= seq![trampoline]);
    assert(n.hooks.remove(id) =~= m.hooks);
}

/// Detaching hands out every trampoline of the method and keeps every other
/// one: none is lost and none is freed twice.
pub proof fn lemma_detach_partitions(m: ManagerModel, id: usize)
    ensures
        m.restored(id).trampolines.len() + m.released(id).len() == m.trampolines.len(),
        forall|i: int|
            0 <= i < m.released(id).len() ==> (#[trigger] m.released(id)[i]).method_id.0 == id,
        forall|i: int|
            0 <= i < m.restored(id).trampolines.len() ==> (#[trigger] m.restored(
                id,
            ).trampolines[i]).method_id.0 != id,
{
    let keep = |t: NativeTrampoline| t.method_id.0 != id;
    let free = |t: NativeTrampoline| t.method_id.0 == id;
    broadcast use vstd::seq_lib::group_filter_ensures;

    lemma_filter_split(m.trampolines, keep, free);
}

proof fn lemma_filter_split<A>(s: Seq<A>, keep: spec_fn(A) -> bool, free: spec_fn(A) -> bool)
    requires
        forall|a: A| #[trigger] keep(a) == !free(a),
    ensures
        s.filter(keep).len() + s.filter(free).len() == s.len(),
    decreases s.len(),
{
    reveal(Seq::filter);
    if s.len() > 0 {
        lemma_filter_split(s.drop_last(), keep, free);
        assert(keep(s.last()) == !free(s.last()));
    }
}

} // verus!
