//! What holds of every call that is forwarded.

use vstd::prelude::*;

use super::method::{
    local_answers, raw_answers, rpc_answers, Forward, ForwardSync, ForwardSyncMethod, ServerHop, ThreadHop,
};
use super::selector::{may_choose, may_hop, ForwardKind, ForwardSelector, Hop, Selector};
use super::{ForwardMetadata, ForwardReturn};

verus! {

/// A call that belongs to this place, on the only server and on its only thread, is made here.
pub proof fn law_unplaced_call_is_made_here<M, Args, R>(
    method: ForwardSyncMethod<(), (), (), (), M>,
    args: Args,
    result: ForwardReturn<R>,
) where M: Fn(Args) -> R
    requires
        rpc_answers(method, args, result),
    ensures
        raw_answers(method, args, result),
{
}

/// A call whose server and whose thread say that they are this place is made here.
pub proof fn law_call_is_made_on_its_own_side<A, B, C, D, M, Args, R>(
    method: ForwardSyncMethod<A, B, C, D, M>,
    args: Args,
    result: ForwardReturn<R>,
) where
    A: ForwardKind,
    A::Handle: ForwardSync<ServerHop<A, B, C, D, M>, Args, R>,
    B: Selector<Args, Output = A::Index>,
    C: ForwardKind,
    C::Handle: ForwardSync<ThreadHop<A, B, C, D, M>, Args, R>,
    D: Selector<Args, Output = C::Index>,
    M: Fn(Args) -> R,

    requires
        rpc_answers(method, args, result),
        forall|handle: A::Handle|
            !call_ensures(A::Handle::is_own_side, (&handle,), false),
        forall|handle: C::Handle|
            !call_ensures(C::Handle::is_own_side, (&handle,), false),
    ensures
        raw_answers(method, args, result),
{
}

/// A call whose server says that it is another place is carried on by a handle that its server was
/// chosen with, together with its arguments. The thread is left to be chosen there.
pub proof fn law_call_of_another_side_is_carried_on<A, B, C, D, M, Args, R>(
    method: ForwardSyncMethod<A, B, C, D, M>,
    args: Args,
    result: ForwardReturn<R>,
) where
    A: ForwardKind,
    A::Handle: ForwardSync<ServerHop<A, B, C, D, M>, Args, R>,
    B: Selector<Args, Output = A::Index>,
    C: ForwardKind,
    C::Handle: ForwardSync<ThreadHop<A, B, C, D, M>, Args, R>,
    D: Selector<Args, Output = C::Index>,
    M: Fn(Args) -> R,

    requires
        rpc_answers(method, args, result),
        forall|handle: A::Handle| !call_ensures(A::Handle::is_own_side, (&handle,), true),
    ensures
        exists|handle: A::Handle| #[trigger]
            may_choose(method.config.server, args, handle) && call_ensures(
                <A::Handle as ForwardSync<ServerHop<A, B, C, D, M>, Args, R>>::forward_sync,
                (&handle, ServerHop { method }, args),
                result,
            ),
{
}

/// A number in the place of a selector stands for the place of that number, whatever the arguments.
pub proof fn law_number_is_a_fixed_place<K, Args>(
    place: ForwardSelector<K, u32>,
    args: Args,
    handle: K::Handle,
) where K: ForwardKind<Index = u32>
    requires
        may_choose(place, args, handle),
    ensures
        call_ensures(K::select, (&place.kind, place.selector), handle),
{
}

/// The handle `()` carries calls on in the way of all that do not say how: it makes them.
pub proof fn law_calls_are_made_by_default<A, B, C, D, M, Args, R>(
    method: ForwardSyncMethod<A, B, C, D, M>,
    args: Args,
    result: ForwardReturn<R>,
) where M: Fn(Args) -> R
    requires
        call_ensures(
            <() as ForwardSync<ThreadHop<A, B, C, D, M>, Args, R>>::forward_sync,
            (&(), ThreadHop { method }, args),
            result,
        ),
    ensures
        raw_answers(method, args, result),
{
}

/// A call that is made here answers what its method returns for its arguments.
pub proof fn law_made_call_answers_what_its_method_returns<A, B, C, D, M, Args, R>(
    method: ForwardSyncMethod<A, B, C, D, M>,
    args: Args,
    result: ForwardReturn<R>,
) where M: Fn(Args) -> R
    requires
        raw_answers(method, args, result),
    ensures
        match result {
            ForwardReturn::Raw(value) => call_ensures(method.method, (args,), value),
            ForwardReturn::Forward(_) => false,
        },
{
}

/// On its server, a call whose thread says that it is this place is made here, and one whose thread says
/// that it is another is carried on by a handle that its thread was chosen with, together with its
/// arguments.
pub proof fn law_call_goes_to_its_thread<A, B, C, D, M, Args, R>(
    method: ForwardSyncMethod<A, B, C, D, M>,
    args: Args,
    result: ForwardReturn<R>,
) where
    C: ForwardKind,
    C::Handle: ForwardSync<ThreadHop<A, B, C, D, M>, Args, R>,
    D: Selector<Args, Output = C::Index>,
    M: Fn(Args) -> R,

    requires
        local_answers(method, args, result),
    ensures
        (forall|handle: C::Handle| !call_ensures(C::Handle::is_own_side, (&handle,), false))
            ==> raw_answers(method, args, result),
        (forall|handle: C::Handle| !call_ensures(C::Handle::is_own_side, (&handle,), true))
            ==> exists|handle: C::Handle| #[trigger]
            may_choose(method.config.thread, args, handle) && call_ensures(
                <C::Handle as ForwardSync<ThreadHop<A, B, C, D, M>, Args, R>>::forward_sync,
                (&handle, ThreadHop { method }, args),
                result,
            ),
{
}

/// A call goes to its thread where its server says that it is this place: it is never made anywhere but
/// where both say so.
pub proof fn law_server_comes_before_the_thread<A, B, C, D, M, Args, R>(
    method: ForwardSyncMethod<A, B, C, D, M>,
    args: Args,
    result: ForwardReturn<R>,
) where
    A: ForwardKind,
    A::Handle: ForwardSync<ServerHop<A, B, C, D, M>, Args, R>,
    B: Selector<Args, Output = A::Index>,
    C: ForwardKind,
    C::Handle: ForwardSync<ThreadHop<A, B, C, D, M>, Args, R>,
    D: Selector<Args, Output = C::Index>,
    M: Fn(Args) -> R,

    requires
        rpc_answers(method, args, result),
        forall|handle: A::Handle| !call_ensures(A::Handle::is_own_side, (&handle,), false),
    ensures
        local_answers(method, args, result),
{
}

/// The handle of a place is the one that its kind has for what its selector chooses for the arguments. A
/// call has arrived where that handle says that its side is this one, and otherwise it is that handle that
/// carries it on.
pub proof fn law_chosen_handle_decides<K, S, Args>(
    place: ForwardSelector<K, S>,
    args: Args,
    hop: Hop<K::Handle>,
) where K: ForwardKind, S: Selector<Args, Output = K::Index>
    requires
        may_hop(place, args, hop),
    ensures
        hop matches Hop::Away(handle) ==> may_choose(place, args, handle) && call_ensures(
            K::Handle::is_own_side,
            (&handle,),
            false,
        ),
        hop is Here ==> exists|handle: K::Handle| #[trigger]
            may_choose(place, args, handle) && call_ensures(
                K::Handle::is_own_side,
                (&handle,),
                true,
            ),
{
}

/// What is chosen is what the kind has for the index that the selector gives for the arguments.
pub proof fn law_handle_is_that_of_the_index<K, S, Args>(
    place: ForwardSelector<K, S>,
    args: Args,
    handle: K::Handle,
) where K: ForwardKind, S: Selector<Args, Output = K::Index>
    requires
        may_choose(place, args, handle),
    ensures
        exists|index: K::Index|
            #![trigger call_ensures(K::select, (&place.kind, index), handle)]
            call_ensures(S::select, (&place.selector, &args), index) && call_ensures(
                K::select,
                (&place.kind, index),
                handle,
            ),
{
}

/// A call that is made here for want of a way is told by its kind, the name of its proxy and that of its
/// method.
pub proof fn law_fallback_tells_the_call(meta: ForwardMetadata)
    ensures
        meta.fallback(false) == "forward-sync :: "@ + meta.proxy_name() + "::"@ + meta.method_name()
            + " (fall back to raw)"@,
        meta.fallback(true) == "forward-async :: "@ + meta.proxy_name() + "::"@ + meta.method_name()
            + " (fall back to raw)"@,
{
}

} // verus!
