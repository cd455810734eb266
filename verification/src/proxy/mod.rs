//! Calls that are carried out where they belong: on a server, and there on a thread, that are chosen
//! by the arguments of the call.

pub mod laws;
pub mod method;
pub mod selector;

use vstd::prelude::*;
use vstd::string::StringExecFns;

use crate::oneshot::Receiver;

verus! {

/// What stands for a target, and carries its calls to it.
pub struct ForwardProxy<T> {
    target: T,
}

impl<T> View for ForwardProxy<T> {
    type V = T;

    closed spec fn view(&self) -> T {
        self.target
    }
}

impl<T> ForwardProxy<T> {
    /// A proxy of `target`.
    pub fn new(target: T) -> (proxy: Self)
        ensures
            proxy@ == target,
    {
        Self { target }
    }

    /// The target.
    pub fn as_raw_ref(&self) -> (target: &T)
        ensures
            *target == self@,
    {
        &self.target
    }

    /// The target, to be changed.
    pub fn as_raw_mut(&mut self) -> (target: &mut T)
        ensures
            *target == old(self)@,
            final(self)@ == *final(target),
    {
        &mut self.target
    }
}

/// The names by which a call is known on the way.
#[derive(Clone, Copy)]
pub struct ForwardMetadata {
    name: &'static str,
    method: &'static str,
}

impl ForwardMetadata {
    /// The name of the proxy.
    pub closed spec fn proxy_name(self) -> Seq<char> {
        self.name@
    }

    /// The name of the method.
    pub closed spec fn method_name(self) -> Seq<char> {
        self.method@
    }

    /// The names of a call of the method `method` of the proxy `name`.
    pub fn new(name: &'static str, method: &'static str) -> (meta: Self)
        ensures
            meta.proxy_name() == name@,
            meta.method_name() == method@,
    {
        Self { name, method }
    }

    /// The name of the proxy.
    pub fn name(&self) -> (name: &'static str)
        ensures
            name@ == self.proxy_name(),
    {
        self.name
    }

    /// The name of the method.
    pub fn method(&self) -> (method: &'static str)
        ensures
            method@ == self.method_name(),
    {
        self.method
    }

    /// What is said of a call that its handle makes here, for want of a way to its place.
    pub open spec fn fallback(self, is_async: bool) -> Seq<char> {
        let kind = if is_async {
            "forward-async :: "@
        } else {
            "forward-sync :: "@
        };
        kind + self.proxy_name() + "::"@ + self.method_name() + " (fall back to raw)"@
    }

    /// Says that the call is made here, for want of a way to its place.
    pub fn fallback_line(&self, is_async: bool) -> (line: String)
        ensures
            line@ == self.fallback(is_async),
    {
        let mut line = if is_async {
            "forward-async :: ".to_owned()
        } else {
            "forward-sync :: ".to_owned()
        };
        line.append(self.name);
        line.append("::");
        line.append(self.method);
        line.append(" (fall back to raw)");
        line
    }
}

/// What a call comes to: its result, or the end of a channel that the result arrives on.
#[verifier::reject_recursive_types(T)]
pub enum ForwardReturn<T> {
    /// The result.
    Raw(T),
    /// Where it arrives.
    Forward(Receiver<T>),
}

impl<T> ForwardReturn<T> {
    /// The result, for which it blocks where that has yet to arrive: what `recv` of the receiver
    /// answers. `None` where whoever was to send it has gone.
    pub fn into_sync(self) -> (result: Option<T>)
        ensures
            match self {
                ForwardReturn::Raw(value) => result == Some(value),
                ForwardReturn::Forward(receiver) => call_ensures(
                    Receiver::<T>::recv,
                    (&receiver,),
                    result,
                ),
            },
    {
        match self {
            ForwardReturn::Raw(value) => Some(value),
            ForwardReturn::Forward(receiver) => receiver.recv(),
        }
    }
}

} // verus!
