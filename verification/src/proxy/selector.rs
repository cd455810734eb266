//! How the place of a call is chosen.

use vstd::prelude::*;

use super::method::Forward;

verus! {

/// A number, or nothing, by which one of several places is told from the others.
pub trait Index {

}

impl Index for () {

}

impl Index for u8 {

}

impl Index for u16 {

}

impl Index for u32 {

}

impl Index for u64 {

}

/// What tells from the arguments of a call which place it belongs to.
pub trait Selector<Args> {
    /// How places are told apart.
    type Output: Index;

    /// Whether it can be asked about `args`. By default it can.
    open spec fn selectable(&self, args: &Args) -> bool {
        true
    }

    /// The place of a call with `args`.
    fn select(&self, args: &Args) -> (index: Self::Output)
        requires
            self.selectable(args),
    ;
}

impl<Args, I, F> Selector<Args> for F where I: Index, F: Fn(&Args) -> I {
    type Output = I;

    open spec fn selectable(&self, args: &Args) -> bool {
        call_requires(*self, (args,))
    }

    /// What the function returns.
    fn select(&self, args: &Args) -> (index: I)
        ensures
            call_ensures(*self, (args,), index),
    {
        (self)(args)
    }
}

impl<Args> Selector<Args> for () {
    type Output = ();

    /// The only place.
    fn select(&self, _args: &Args) -> (index: ()) {
        ()
    }
}

impl<Args> Selector<Args> for u32 {
    type Output = u32;

    /// This place, whatever the arguments.
    fn select(&self, _args: &Args) -> (index: u32)
        ensures
            index == *self,
    {
        *self
    }
}

/// A kind of place.
pub trait ForwardKind {
    /// How places of this kind are told apart.
    type Index: Index;

    /// The way to one of them.
    type Handle: Forward;

    /// The way to the place `index`.
    fn select(&self, index: Self::Index) -> (handle: Self::Handle);
}

/// The only place is here.
impl ForwardKind for () {
    type Index = ();

    type Handle = ();

    fn select(&self, _index: ()) -> (handle: ()) {
        ()
    }
}

/// A kind of place, and how one of them is chosen.
pub struct ForwardSelector<K, S> {
    /// The kind.
    pub kind: K,
    /// The choice.
    pub selector: S,
}

impl<K: Clone, S: Clone> Clone for ForwardSelector<K, S> {
    fn clone(&self) -> (place: Self)
        ensures
            cloned(self.kind, place.kind),
            cloned(self.selector, place.selector),
    {
        ForwardSelector { kind: self.kind.clone(), selector: self.selector.clone() }
    }
}

/// Whether a call that goes on is carried on by a handle.
pub enum Hop<H> {
    /// It has arrived.
    Here,
    /// This handle carries it on.
    Away(H),
}

/// `handle` is the way that `place` may choose for a call with `args`.
pub open spec fn may_choose<K, S, Args>(
    place: ForwardSelector<K, S>,
    args: Args,
    handle: K::Handle,
) -> bool where K: ForwardKind, S: Selector<Args, Output = K::Index> {
    exists|index: K::Index|
        #![trigger call_ensures(S::select, (&place.selector, &args), index)]
        call_ensures(S::select, (&place.selector, &args), index) && call_ensures(
            K::select,
            (&place.kind, index),
            handle,
        )
}

/// `hop` is what may come of a call with `args` at `place`: it has arrived if the chosen handle says
/// that its side is this one, and otherwise the chosen handle carries it on.
pub open spec fn may_hop<K, S, Args>(
    place: ForwardSelector<K, S>,
    args: Args,
    hop: Hop<K::Handle>,
) -> bool where K: ForwardKind, S: Selector<Args, Output = K::Index> {
    exists|handle: K::Handle| #[trigger]
        may_choose(place, args, handle) && match hop {
            Hop::Here => call_ensures(K::Handle::is_own_side, (&handle,), true),
            Hop::Away(next) => next == handle && call_ensures(
                K::Handle::is_own_side,
                (&handle,),
                false,
            ),
        }
}

impl<K, S> ForwardSelector<K, S> where K: ForwardKind {
    /// The way to the place of a call with `args`.
    fn select<Args>(&self, args: &Args) -> (handle: K::Handle) where
        S: Selector<Args, Output = K::Index>,

        requires
            self.selector.selectable(args),
        ensures
            may_choose(*self, *args, handle),
    {
        let index = self.selector.select(args);
        self.kind.select(index)
    }

    /// Whether a call with `args` has arrived, and what carries it on if not.
    pub fn hop<Args>(&self, args: &Args) -> (hop: Hop<K::Handle>) where
        S: Selector<Args, Output = K::Index>,

        requires
            self.selector.selectable(args),
        ensures
            may_hop(*self, *args, hop),
    {
        let handle = self.select(args);
        if handle.is_own_side() {
            Hop::Here
        } else {
            Hop::Away(handle)
        }
    }
}

} // verus!
