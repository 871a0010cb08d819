//! The callbacks of the hooks, kept in an arena and named by their index.

use crate::dispatch::{CallEvent, CallEventModel, CallbackCall};
use crate::handles::{SafeJClass, SafeJMethodId};
use crate::value::CallValue;
use vstd::prelude::*;

verus! {

/// What a hook does with a call into its method. Nothing is asked of an
/// answer here: the router checks it against the signature.
pub trait HookCallback {
    /// Handles a call. `env` is the environment handle of the calling
    /// thread, `this` the receiver or the class handle, `class` the class
    /// that owns the method, and `original_method` the identity under which
    /// the method's own code can be called. The answer is the value to
    /// return to the host, or `None` to defer to the original method.
    fn call(
        &self,
        env: usize,
        this: usize,
        class: SafeJClass,
        original_method: SafeJMethodId,
        args: &Vec<CallValue>,
    ) -> Option<CallValue>;
}

/// The callbacks, in the order in which they were registered. A callback
/// stays where it is: its index names it for good.
pub struct CallbackArena<C: HookCallback> {
    callbacks: Vec<C>,
}

impl<C: HookCallback> View for CallbackArena<C> {
    type V = Seq<C>;

    closed spec fn view(&self) -> Seq<C> {
        self.callbacks@
    }
}

impl<C: HookCallback> CallbackArena<C> {
    /// An arena without callbacks.
    pub fn new() -> (r: Self)
        ensures
            r@ == Seq::<C>::empty(),
    {
        CallbackArena { callbacks: Vec::new() }
    }

    /// The number of callbacks.
    pub fn len(&self) -> (n: usize)
        ensures
            n == self@.len(),
    {
        self.callbacks.len()
    }

    /// Adds a callback and gives its index.
    pub fn register(&mut self, callback: C) -> (index: u64)
        ensures
            index == old(self)@.len(),
            final(self)@ == old(self)@.push(callback),
    {
        let index = self.callbacks.len() as u64;
        self.callbacks.push(callback);
        index
    }

    /// The callback with the index `index`, `None` when there is none.
    pub fn get(&self, index: u64) -> (r: Option<&C>)
        ensures
            index < self@.len() ==> r == Some(&self@[index as int]),
            index >= self@.len() ==> r is None,
    {
        if index >= self.callbacks.len() as u64 {
            None
        } else {
            Some(&self.callbacks[index as usize])
        }
    }

    /// Runs the callback that the router asked for and reports its answer.
    /// The callback with the requested index is called once, with `env`, the
    /// handles of the request and `args` as they are, and what it answers is
    /// reported as it is. A request that names no callback is answered like
    /// a callback that defers.
    pub fn run(&self, call: &CallbackCall, env: usize, args: &Vec<CallValue>) -> (event: CallEvent)
        ensures
            event@ is CallbackReturned,
            call.callback >= self@.len() ==> event@ == CallEventModel::CallbackReturned(None),
            call.callback < self@.len() ==> call_ensures(
                C::call,
                (
                    &self@[call.callback as int],
                    env,
                    call.this,
                    call.class,
                    call.original_method,
                    args,
                ),
                event@->CallbackReturned_0,
            ),
    {
        match self.get(call.callback) {
            None => CallEvent::CallbackReturned(None),
            Some(callback) => CallEvent::CallbackReturned(
                callback.call(env, call.this, call.class, call.original_method, args),
            ),
        }
    }
}

} // verus!
