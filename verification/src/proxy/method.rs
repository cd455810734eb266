//! Calls on their way: to a server, there to a thread, and there to the method.

use vstd::prelude::*;

use super::selector::{may_hop, ForwardKind, ForwardSelector, Hop, Selector};
use super::{ForwardMetadata, ForwardReturn};

verus! {

/// A call that a handle has been given to carry on.
pub trait SyncCall<Args, R>: Sized {
    /// Whether the call can go on with `args`.
    spec fn callable(&self, args: Args) -> bool;

    /// The names of the call.
    fn metadata(&self) -> (meta: ForwardMetadata);

    /// Carries the call to its thread.
    fn call_local(self, args: Args) -> (result: ForwardReturn<R>)
        requires
            self.callable(args),
    ;

    /// Makes the call, here.
    fn call_raw(&self, args: Args) -> (result: ForwardReturn<R>)
        requires
            self.callable(args),
    ;
}

/// The way to a place.
pub trait Forward {
    /// Whether the place is this one. By default it is not.
    fn is_own_side(&self) -> (own: bool)
        default_ensures
            !own,
    {
        false
    }
}

/// The way to a place, for calls like `M` with arguments like `Args` and results like `R`.
pub trait ForwardSync<M, Args, R>: Forward where M: SyncCall<Args, R> {
    /// Carries a call on. By default it is made here; whoever wants that told prints
    /// [`ForwardMetadata::fallback_line`].
    fn forward_sync(&self, method: M, args: Args) -> (result: ForwardReturn<R>)
        requires
            method.callable(args),
        default_ensures
            call_ensures(M::call_raw, (&method, args), result),
    {
        method.call_raw(args)
    }
}

/// The way to this place.
impl Forward for () {
    fn is_own_side(&self) -> (own: bool)
        ensures
            own,
    {
        true
    }
}

impl<M, Args, R> ForwardSync<M, Args, R> for () where M: SyncCall<Args, R> {

}

/// Where a call belongs.
pub struct ForwardConfig<A, B, C, D> {
    /// The server.
    pub server: ForwardSelector<A, B>,
    /// The thread of that server.
    pub thread: ForwardSelector<C, D>,
}

impl<A: Clone, B: Clone, C: Clone, D: Clone> Clone for ForwardConfig<A, B, C, D> {
    fn clone(&self) -> (config: Self)
        ensures
            cloned(self.server, config.server),
            cloned(self.thread, config.thread),
    {
        ForwardConfig { server: self.server.clone(), thread: self.thread.clone() }
    }
}

/// A method that returns its result, and where its calls belong.
pub struct ForwardSyncMethod<A, B, C, D, M> {
    /// Where its calls belong.
    pub config: ForwardConfig<A, B, C, D>,
    /// The names of its calls.
    pub meta: ForwardMetadata,
    /// The method.
    pub method: M,
}

/// A call that has been given to the handle of its server.
pub struct ServerHop<A, B, C, D, M> {
    /// The method. A handle that knows the kinds of the places can carry the call on anew: its `call_rpc`
    /// chooses the server again.
    pub method: ForwardSyncMethod<A, B, C, D, M>,
}

/// A call that has been given to the handle of its thread.
pub struct ThreadHop<A, B, C, D, M> {
    /// The method. A handle that knows the kind of the place can carry the call on anew: its `call_local`
    /// chooses the thread again.
    pub method: ForwardSyncMethod<A, B, C, D, M>,
}

/// `result` is what the call may come to where it is made.
pub open spec fn raw_answers<A, B, C, D, M, Args, R>(
    method: ForwardSyncMethod<A, B, C, D, M>,
    args: Args,
    result: ForwardReturn<R>,
) -> bool where M: Fn(Args) -> R {
    result matches ForwardReturn::Raw(value) && call_ensures(method.method, (args,), value)
}

/// `result` is what the call may come to on its server: it is made there if that is its thread, and
/// otherwise the handle of its thread carries it on.
pub open spec fn local_answers<A, B, C, D, M, Args, R>(
    method: ForwardSyncMethod<A, B, C, D, M>,
    args: Args,
    result: ForwardReturn<R>,
) -> bool where
    C: ForwardKind,
    C::Handle: ForwardSync<ThreadHop<A, B, C, D, M>, Args, R>,
    D: Selector<Args, Output = C::Index>,
    M: Fn(Args) -> R,
 {
    exists|hop: Hop<C::Handle>| #[trigger]
        may_hop(method.config.thread, args, hop) && match hop {
            Hop::Here => raw_answers(method, args, result),
            Hop::Away(handle) => call_ensures(
                <C::Handle as ForwardSync<ThreadHop<A, B, C, D, M>, Args, R>>::forward_sync,
                (&handle, ThreadHop { method }, args),
                result,
            ),
        }
}

/// `result` is what the call may come to: it goes to its thread if this is its server, and otherwise
/// the handle of its server carries it on.
pub open spec fn rpc_answers<A, B, C, D, M, Args, R>(
    method: ForwardSyncMethod<A, B, C, D, M>,
    args: Args,
    result: ForwardReturn<R>,
) -> bool where
    A: ForwardKind,
    A::Handle: ForwardSync<ServerHop<A, B, C, D, M>, Args, R>,
    B: Selector<Args, Output = A::Index>,
    C: ForwardKind,
    C::Handle: ForwardSync<ThreadHop<A, B, C, D, M>, Args, R>,
    D: Selector<Args, Output = C::Index>,
    M: Fn(Args) -> R,
 {
    exists|hop: Hop<A::Handle>| #[trigger]
        may_hop(method.config.server, args, hop) && match hop {
            Hop::Here => local_answers(method, args, result),
            Hop::Away(handle) => call_ensures(
                <A::Handle as ForwardSync<ServerHop<A, B, C, D, M>, Args, R>>::forward_sync,
                (&handle, ServerHop { method }, args),
                result,
            ),
        }
}

impl<A, B, C, D, M> ForwardSyncMethod<A, B, C, D, M> {
    /// The method `method`, whose calls belong where `config` says.
    pub fn new(
        config: ForwardConfig<A, B, C, D>,
        meta: ForwardMetadata,
        method: M,
    ) -> (forward: Self)
        ensures
            forward == (ForwardSyncMethod { config, meta, method }),
    {
        Self { config, meta, method }
    }

    /// The names of its calls.
    pub fn metadata(&self) -> (meta: ForwardMetadata)
        ensures
            meta == self.meta,
    {
        self.meta
    }

    /// Makes the call, here.
    pub fn call_raw<Args, R>(&self, args: Args) -> (result: ForwardReturn<R>) where
        M: Fn(Args) -> R,

        requires
            call_requires(self.method, (args,)),
        ensures
            raw_answers(*self, args, result),
    {
        ForwardReturn::Raw((self.method)(args))
    }

    /// Carries the call to its thread.
    pub fn call_local<Args, R>(self, args: Args) -> (result: ForwardReturn<R>) where
        C: ForwardKind,
        C::Handle: ForwardSync<ThreadHop<A, B, C, D, M>, Args, R>,
        D: Selector<Args, Output = C::Index>,
        M: Fn(Args) -> R,

        requires
            self.config.thread.selector.selectable(&args),
            call_requires(self.method, (args,)),
        ensures
            local_answers(self, args, result),
    {
        match self.config.thread.hop(&args) {
            Hop::Here => self.call_raw(args),
            Hop::Away(handle) => handle.forward_sync(ThreadHop { method: self }, args),
        }
    }

    /// Carries the call to its server.
    pub fn call_rpc<Args, R>(self, args: Args) -> (result: ForwardReturn<R>) where
        A: ForwardKind,
        A::Handle: ForwardSync<ServerHop<A, B, C, D, M>, Args, R>,
        B: Selector<Args, Output = A::Index>,
        C: ForwardKind,
        C::Handle: ForwardSync<ThreadHop<A, B, C, D, M>, Args, R>,
        D: Selector<Args, Output = C::Index>,
        M: Fn(Args) -> R,

        requires
            self.config.server.selector.selectable(&args),
            self.config.thread.selector.selectable(&args),
            call_requires(self.method, (args,)),
        ensures
            rpc_answers(self, args, result),
    {
        match self.config.server.hop(&args) {
            Hop::Here => self.call_local(args),
            Hop::Away(handle) => handle.forward_sync(ServerHop { method: self }, args),
        }
    }
}

impl<A, B, C, D, M, Args, R> SyncCall<Args, R> for ThreadHop<A, B, C, D, M> where
    M: Fn(Args) -> R,
 {
    open spec fn callable(&self, args: Args) -> bool {
        call_requires(self.method.method, (args,))
    }

    fn metadata(&self) -> (meta: ForwardMetadata)
        ensures
            meta == self.method.meta,
    {
        self.method.metadata()
    }

    /// The thread is chosen already, and is not chosen again: the call is made. `call_local` of the method
    /// itself chooses again.
    fn call_local(self, args: Args) -> (result: ForwardReturn<R>)
        ensures
            raw_answers(self.method, args, result),
    {
        self.method.call_raw(args)
    }

    fn call_raw(&self, args: Args) -> (result: ForwardReturn<R>)
        ensures
            raw_answers(self.method, args, result),
    {
        self.method.call_raw(args)
    }
}

impl<A, B, C, D, M, Args, R> SyncCall<Args, R> for ServerHop<A, B, C, D, M> where
    C: ForwardKind,
    C::Handle: ForwardSync<ThreadHop<A, B, C, D, M>, Args, R>,
    D: Selector<Args, Output = C::Index>,
    M: Fn(Args) -> R,
 {
    open spec fn callable(&self, args: Args) -> bool {
        &&& self.method.config.thread.selector.selectable(&args)
        &&& call_requires(self.method.method, (args,))
    }

    fn metadata(&self) -> (meta: ForwardMetadata)
        ensures
            meta == self.method.meta,
    {
        self.method.metadata()
    }

    fn call_local(self, args: Args) -> (result: ForwardReturn<R>)
        ensures
            local_answers(self.method, args, result),
    {
        self.method.call_local(args)
    }

    fn call_raw(&self, args: Args) -> (result: ForwardReturn<R>)
        ensures
            raw_answers(self.method, args, result),
    {
        self.method.call_raw(args)
    }
}

/// A method that returns a future of its result, and where its calls belong.
///
/// [`ForwardSelector::hop`] of `config.server`, and then of `config.thread`, says at each place whether
/// a call has arrived.
pub struct ForwardAsyncMethod<A, B, C, D, M> {
    /// Where its calls belong.
    pub config: ForwardConfig<A, B, C, D>,
    /// The names of its calls.
    pub meta: ForwardMetadata,
    /// The method.
    pub method: M,
}

impl<A, B, C, D, M> ForwardAsyncMethod<A, B, C, D, M> {
    /// The method `method`, whose calls belong where `config` says.
    pub fn new(
        config: ForwardConfig<A, B, C, D>,
        meta: ForwardMetadata,
        method: M,
    ) -> (forward: Self)
        ensures
            forward == (ForwardAsyncMethod { config, meta, method }),
    {
        Self { config, meta, method }
    }

    /// The names of its calls.
    pub fn metadata(&self) -> (meta: ForwardMetadata)
        ensures
            meta == self.meta,
    {
        self.meta
    }
}

} // verus!
