//! What holds of all texts that are written for proxies.

use vstd::prelude::*;

use super::config::PathSelector;
use super::emit::{
    attrs_text, fn_text, forward_text, impl_text, listed, passed, patterns_of, place_text, proxy_type,
    receiver_in, spaced, target_call, tuple_text, types_of, values_of,
};
use super::parser::ForwardConfig;
use super::read::quoted;
use super::syntax::{Arg, Attr, FnText, ImplText};

verus! {

/// A place is written with its kind and with its choice. Where either is not set, `()` stands in its
/// stead, and nothing else ever changes.
pub proof fn law_place_has_its_kind_and_choice(path: Seq<char>, choice: Seq<char>)
    ensures
        place_text(Some(PathSelector { path, selector: Some(choice) }))
            == "::forward::ForwardSelector { kind: "@ + path + ", selector: "@ + choice + " }"@,
        place_text(Some(PathSelector { path, selector: None }))
            == "::forward::ForwardSelector { kind: "@ + path + ", selector: "@ + "()"@ + " }"@,
        place_text(None) == "::forward::ForwardSelector { kind: "@ + "()"@ + ", selector: "@ + "()"@
            + " }"@,
{
}

/// A list begins with its first item, and two lists are joined by a comma and a space. So every item is
/// in it, in its place.
pub proof fn law_lists_are_joined_by_commas(
    item: Seq<char>,
    first: Seq<Seq<char>>,
    second: Seq<Seq<char>>,
)
    ensures
        listed(Seq::empty()) == Seq::<char>::empty(),
        listed(seq![item]) == item,
        first.len() > 0 && second.len() > 0 ==> listed(first + second) == listed(first) + ", "@
            + listed(second),
    decreases second.len(),
{
    if first.len() > 0 && second.len() == 1 {
        assert((first + second).drop_last() =~= first);
        assert((first + second).last() == second[0]);
    } else if first.len() > 0 && second.len() > 1 {
        law_lists_are_joined_by_commas(item, first, second.drop_last());
        assert((first + second).drop_last() =~= first + second.drop_last());
        assert((first + second).last() == second.last());
        assert(listed(first + second) =~= listed(first) + ", "@ + listed(second));
    }
}

/// A tuple is a list in parentheses. That of one item alone has a comma behind it, by which it differs
/// from an expression in parentheses.
pub proof fn law_tuple_is_a_list_in_parentheses(items: Seq<Seq<char>>)
    ensures
        items.len() == 1 ==> tuple_text(items) == "("@ + items[0] + ",)"@,
        items.len() != 1 ==> tuple_text(items) == "("@ + listed(items) + ")"@,
{
}

/// Statements are written one after the other, all of them, with a space behind each.
pub proof fn law_no_statement_is_lost(
    item: Seq<char>,
    first: Seq<Seq<char>>,
    second: Seq<Seq<char>>,
)
    ensures
        spaced(Seq::empty()) == Seq::<char>::empty(),
        spaced(seq![item]) == item + " "@,
        spaced(first + second) == spaced(first) + spaced(second),
    decreases second.len(),
{
    reveal_with_fuel(spaced, 2);
    assert(seq![item].drop_last() =~= Seq::<Seq<char>>::empty());
    assert(Seq::<char>::empty() + item =~= item);
    if second.len() == 0 {
        assert(first + second =~= first);
        assert(spaced(first) + Seq::<char>::empty() =~= spaced(first));
    } else {
        law_no_statement_is_lost(item, first, second.drop_last());
        assert((first + second).drop_last() =~= first + second.drop_last());
        assert((first + second).last() == second.last());
        assert(spaced(first + second) =~= spaced(first) + spaced(second));
    }
}

/// However many statements there are, each is in the text, behind the text of those before it and before
/// that of those behind it.
pub proof fn law_each_statement_is_in_its_place(items: Seq<Seq<char>>, at: int)
    requires
        0 <= at < items.len(),
    ensures
        spaced(items) == spaced(items.take(at)) + items[at] + " "@ + spaced(items.skip(at + 1)),
{
    law_no_statement_is_lost(items[at], items.take(at), seq![items[at]]);
    law_no_statement_is_lost(items[at], items.take(at) + seq![items[at]], items.skip(at + 1));
    assert(items.take(at) + seq![items[at]] + items.skip(at + 1) =~= items);
    assert(spaced(items) =~= spaced(items.take(at)) + items[at] + " "@ + spaced(
        items.skip(at + 1),
    ));
}

/// Attributes are written one after the other, with a space behind each, and each of them either among
/// those that stand inside or among the others.
pub proof fn law_no_attribute_is_lost(
    attr: Attr<Seq<char>>,
    first: Seq<Attr<Seq<char>>>,
    second: Seq<Attr<Seq<char>>>,
    inner: bool,
)
    ensures
        attrs_text(Seq::empty(), inner) == Seq::<char>::empty(),
        attr.is_inner == inner ==> attrs_text(seq![attr], inner) == attr.text + " "@,
        attr.is_inner != inner ==> attrs_text(seq![attr], inner) == Seq::<char>::empty(),
        attrs_text(first + second, inner) == attrs_text(first, inner) + attrs_text(second, inner),
    decreases second.len(),
{
    reveal_with_fuel(attrs_text, 2);
    assert(seq![attr].drop_last() =~= Seq::<Attr<Seq<char>>>::empty());
    assert(Seq::<char>::empty() + attr.text =~= attr.text);
    if second.len() == 0 {
        assert(first + second =~= first);
        assert(attrs_text(first, inner) + Seq::<char>::empty() =~= attrs_text(first, inner));
    } else {
        law_no_attribute_is_lost(attr, first, second.drop_last(), inner);
        assert((first + second).drop_last() =~= first + second.drop_last());
        assert((first + second).last() == second.last());
        assert(attrs_text(first + second, inner) =~= attrs_text(first, inner) + attrs_text(
            second,
            inner,
        ));
    }
}

/// A function is written with its attributes, its visibility and its signature, and the statements that
/// it is given stand between its braces, behind the attributes that stand inside.
pub proof fn law_function_holds_its_parts(
    item: FnText<Seq<char>, Seq<Seq<char>>>,
    attrs: Seq<Attr<Seq<char>>>,
    stmts: Seq<char>,
)
    ensures
        ({
            let head = attrs_text(attrs, false) + item.vis + " "@ + item.defaultness + " "@ + item.sig;
            let body = attrs_text(attrs, true) + stmts;
            fn_text(item, attrs, stmts) == head + " { "@ + body + " } "@
        }),
{
    let head = attrs_text(attrs, false) + item.vis + " "@ + item.defaultness + " "@ + item.sig;
    let body = attrs_text(attrs, true) + stmts;
    assert(fn_text(item, attrs, stmts) =~= head + " { "@ + body + " } "@);
}

/// A block is written with its attributes, its generic parameters, its trait if it has one, the type that
/// it is for, and its `where` clause. The items that it is given stand between its braces.
pub proof fn law_block_holds_its_parts(
    item: ImplText<Seq<char>, Seq<Seq<char>>>,
    attrs: Seq<Attr<Seq<char>>>,
    self_ty: Seq<char>,
    items: Seq<char>,
)
    ensures
        ({
            let head = attrs_text(attrs, false) + item.defaultness + " "@ + item.unsafety + " impl "@
                + item.generics + " "@;
            let tail = self_ty + " "@ + item.where_clause + " { "@ + attrs_text(attrs, true) + items
                + " } "@;
            &&& item.trait_text matches Some(text) ==> impl_text(item, attrs, self_ty, items) == head
                + text.polarity + " "@ + text.path + " for "@ + tail
            &&& item.trait_text is None ==> impl_text(item, attrs, self_ty, items) == head + tail
        }),
{
    let head = attrs_text(attrs, false) + item.defaultness + " "@ + item.unsafety + " impl "@
        + item.generics + " "@;
    let tail = self_ty + " "@ + item.where_clause + " { "@ + attrs_text(attrs, true) + items + " } "@;
    reveal_strlit("");
    match item.trait_text {
        Some(text) => {
            assert(impl_text(item, attrs, self_ty, items) =~= head + text.polarity + " "@ + text.path
                + " for "@ + tail);
        },
        None => {
            assert(impl_text(item, attrs, self_ty, items) =~= head + tail);
        },
    }
}

/// The type of a proxy is that of all proxies, around the type of its target.
pub proof fn law_proxy_is_of_its_target(self_ty: Seq<char>)
    ensures
        proxy_type(self_ty) == "::forward::ForwardProxy<"@ + self_ty + ">"@,
{
}

/// The types, the patterns and the values of parameters are as many as these, and in their order. A
/// receiver is `target` where it is taken apart, and `self` where it is passed; any other parameter has
/// its own pattern, and its name where it is one.
pub proof fn law_each_parameter_is_in_its_place(args: Seq<Arg<Seq<char>>>, at: int)
    requires
        0 <= at < args.len(),
    ensures
        types_of(args).len() == args.len(),
        patterns_of(args).len() == args.len(),
        values_of(args).len() == args.len(),
        match args[at] {
            Arg::Receiver { ty, is_mut } => {
                &&& types_of(args)[at] == ty
                &&& is_mut ==> patterns_of(args)[at] == "mut target"@
                &&& !is_mut ==> patterns_of(args)[at] == "target"@
                &&& values_of(args)[at] == "self"@
            },
            Arg::Typed { pat, name, ty } => {
                &&& types_of(args)[at] == ty
                &&& patterns_of(args)[at] == pat
                &&& values_of(args)[at] == match name {
                    Some(name) => name,
                    None => pat,
                }
            },
        },
{
}

/// What is passed to the target is what the method has from its caller: the values of all parameters but
/// the receiver, in their order.
pub proof fn law_all_but_the_receiver_is_passed(
    arg: Arg<Seq<char>>,
    first: Seq<Arg<Seq<char>>>,
    second: Seq<Arg<Seq<char>>>,
)
    ensures
        passed(Seq::empty()) == Seq::<Seq<char>>::empty(),
        arg is Receiver ==> passed(seq![arg]) == Seq::<Seq<char>>::empty(),
        arg is Typed ==> passed(seq![arg]) == values_of(seq![arg]),
        passed(first + second) == passed(first) + passed(second),
    decreases second.len(),
{
    reveal_with_fuel(passed, 2);
    assert(seq![arg].drop_last() =~= Seq::<Arg<Seq<char>>>::empty());
    if arg is Typed {
        assert(passed(seq![arg]) =~= values_of(seq![arg]));
    }
    if second.len() == 0 {
        assert(first + second =~= first);
        assert(passed(first) + Seq::<Seq<char>>::empty() =~= passed(first));
    } else {
        law_all_but_the_receiver_is_passed(arg, first, second.drop_last());
        assert((first + second).drop_last() =~= first + second.drop_last());
        assert((first + second).last() == second.last());
        assert(passed(first + second) =~= passed(first) + passed(second));
    }
}

/// There is a receiver where one of the parameters is one, and then it says whether it can be changed.
pub proof fn law_receiver_is_found(args: Seq<Arg<Seq<char>>>)
    ensures
        receiver_in(args) is None <==> forall|i: int|
            0 <= i < args.len() ==> !(#[trigger] args[i] is Receiver),
        receiver_in(args) matches Some(is_mut) ==> exists|i: int|
            0 <= i < args.len() && (#[trigger] args[i] matches Arg::Receiver { ty: _, is_mut: own }
                && own == is_mut),
    decreases args.len(),
{
    if args.len() > 0 {
        let less = args.drop_last();
        law_receiver_is_found(less);
        match args.last() {
            Arg::Receiver { .. } => {
                assert(args[args.len() - 1] is Receiver);
            },
            Arg::Typed { .. } => {
                assert forall|i: int| 0 <= i < less.len() implies less[i] == #[trigger] args[i] by {}
                if let Some(is_mut) = receiver_in(less) {
                    let i = choose|i: int|
                        0 <= i < less.len() && (#[trigger] less[i] matches Arg::Receiver {
                            ty: _,
                            is_mut: own,
                        } && own == is_mut);
                    assert(args[i] is Receiver);
                }
            },
        }
    }
}

/// The method of the same name is called on the target, which can be changed where the receiver can, or on
/// the target's type where there is no receiver, with all that the method has from its caller.
pub proof fn law_call_reaches_the_target(
    item: ImplText<Seq<char>, Seq<Seq<char>>>,
    name: Seq<char>,
    args: Seq<Arg<Seq<char>>>,
)
    ensures
        ({
            let call = name + "("@ + listed(passed(args)) + ")"@;
            match receiver_in(args) {
                Some(is_mut) => {
                    &&& is_mut ==> target_call(item, name, args) == "target.as_raw_mut()."@ + call
                    &&& !is_mut ==> target_call(item, name, args) == "target.as_raw_ref()."@ + call
                },
                None => match item.trait_text {
                    Some(text) => target_call(item, name, args) == "<"@ + item.self_ty + " as "@
                        + text.path + ">::"@ + call,
                    None => target_call(item, name, args) == "<"@ + item.self_ty + ">::"@ + call,
                },
            }
        }),
{
    let call = name + "("@ + listed(passed(args)) + ")"@;
    match (receiver_in(args), item.trait_text) {
        (Some(true), _) => {
            assert(target_call(item, name, args) =~= "target.as_raw_mut()."@ + call);
        },
        (Some(false), _) => {
            assert(target_call(item, name, args) =~= "target.as_raw_ref()."@ + call);
        },
        (None, Some(text)) => {
            assert(target_call(item, name, args) =~= "<"@ + item.self_ty + " as "@ + text.path
                + ">::"@ + call);
        },
        (None, None) => {
            assert(target_call(item, name, args) =~= "<"@ + item.self_ty + ">::"@ + call);
        },
    }
}

/// The statements of a method of a proxy, whether it returns a future or not, begin with the places that
/// are set for it: the kind and the choice of the server behind `server: `, and those of the thread behind
/// `thread: `, with `()` for what is not set. Nothing else of the method matters there.
pub proof fn law_statements_begin_with_the_places(
    name: Seq<char>,
    item: ImplText<Seq<char>, Seq<Seq<char>>>,
    method: FnText<Seq<char>, Seq<Seq<char>>>,
    args: Seq<Arg<Seq<char>>>,
    config: ForwardConfig<Seq<char>>,
)
    ensures
        ({
            let (server, server_choice) = match config.server {
                Some(PathSelector { path, selector: Some(choice) }) => (path, choice),
                Some(PathSelector { path, selector: None }) => (path, "()"@),
                None => ("()"@, "()"@),
            };
            let (thread, thread_choice) = match config.thread {
                Some(PathSelector { path, selector: Some(choice) }) => (path, choice),
                Some(PathSelector { path, selector: None }) => (path, "()"@),
                None => ("()"@, "()"@),
            };
            let places = "let config = ::forward::ForwardConfig { server: "@
                + "::forward::ForwardSelector { kind: "@ + server + ", selector: "@ + server_choice
                + " }"@ + ", thread: "@ + "::forward::ForwardSelector { kind: "@ + thread
                + ", selector: "@ + thread_choice + " }"@;
            places.is_prefix_of(forward_text(name, item, method, args, config))
        }),
{
    let (server, server_choice) = match config.server {
        Some(PathSelector { path, selector: Some(choice) }) => (path, choice),
        Some(PathSelector { path, selector: None }) => (path, "()"@),
        None => ("()"@, "()"@),
    };
    let (thread, thread_choice) = match config.thread {
        Some(PathSelector { path, selector: Some(choice) }) => (path, choice),
        Some(PathSelector { path, selector: None }) => (path, "()"@),
        None => ("()"@, "()"@),
    };
    let places = "let config = ::forward::ForwardConfig { server: "@
        + "::forward::ForwardSelector { kind: "@ + server + ", selector: "@ + server_choice + " }"@
        + ", thread: "@ + "::forward::ForwardSelector { kind: "@ + thread + ", selector: "@
        + thread_choice + " }"@;
    assert(places =~= "let config = ::forward::ForwardConfig { server: "@ + place_text(config.server)
        + ", thread: "@ + place_text(config.thread));
    lemma_statements_begin(name, item, method, args, config);
}

/// What stands before other texts begins what they make together.
proof fn lemma_begins(
    a: Seq<char>,
    b: Seq<char>,
    c: Seq<char>,
    d: Seq<char>,
    e: Seq<char>,
    f: Seq<char>,
)
    ensures
        a.is_prefix_of(a + b + c + d + e + f),
        (a + b).is_prefix_of(a + b + c + d + e + f),
{
}

proof fn lemma_statements_begin(
    name: Seq<char>,
    item: ImplText<Seq<char>, Seq<Seq<char>>>,
    method: FnText<Seq<char>, Seq<Seq<char>>>,
    args: Seq<Arg<Seq<char>>>,
    config: ForwardConfig<Seq<char>>,
)
    ensures
        ({
            let places = "let config = ::forward::ForwardConfig { server: "@ + place_text(
                config.server,
            ) + ", thread: "@ + place_text(config.thread);
            &&& places.is_prefix_of(forward_text(name, item, method, args, config))
            &&& (places + " }; let meta = ::forward::ForwardMetadata::new("@).is_prefix_of(
                forward_text(name, item, method, args, config),
            )
        }),
{
    let places = "let config = ::forward::ForwardConfig { server: "@ + place_text(config.server)
        + ", thread: "@ + place_text(config.thread);
    let called = match config.name {
        Some(lit) => lit.token,
        None => quoted(method.name),
    };
    let lit = " }; let meta = ::forward::ForwardMetadata::new("@;
    let meta = lit + name + ", "@ + called;
    let closure = "::new(config, meta, |args: "@ + tuple_text(types_of(args)) + "| { let "@
        + tuple_text(patterns_of(args)) + " = args; "@ + target_call(item, method.name, args)
        + " }); let args = "@ + tuple_text(values_of(args)) + "; "@;
    law_statements_are_made_of(name, item, method, args, config);
    let (kind, call) = if method.is_async {
        ("ForwardAsyncMethod"@, "method.call_rpc(args).await.into_async().await"@)
    } else {
        (
            "ForwardSyncMethod"@,
            "method.call_rpc(args).into_sync().expect(\"forwarded sync call dropped before completion\")"@,
        )
    };
    lemma_begins(places, meta, "); let method = ::forward::"@, kind, closure, call);
    lemma_begins(places, lit, name, ", "@, called, Seq::empty());
    lemma_joined(places, lit, name, ", "@, called);
    lemma_longer(
        places + lit,
        places + meta,
        forward_text(name, item, method, args, config),
    );
}

proof fn lemma_joined(a: Seq<char>, b: Seq<char>, c: Seq<char>, d: Seq<char>, e: Seq<char>)
    ensures
        a + b + c + d + e + Seq::<char>::empty() == a + (b + c + d + e),
{
    assert(a + b + c + d + e + Seq::<char>::empty() =~= a + (b + c + d + e));
}

proof fn lemma_longer(a: Seq<char>, b: Seq<char>, c: Seq<char>)
    requires
        a.is_prefix_of(b),
        b.is_prefix_of(c),
    ensures
        a.is_prefix_of(c),
{
    assert forall|i: int| 0 <= i < a.len() implies a[i] == c[i] by {
        assert(a[i] == b[i]);
    }
    assert(a =~= c.take(a.len() as int));
}

/// The statements of a method of a proxy: behind the places come the name of the proxy and that of the
/// method, which is the one that is set or else its own; then the call of the target, with the parameters
/// taken apart; then the parameters together; and then the call is carried on, and awaited where the method
/// returns a future.
pub proof fn law_statements_are_made_of(
    name: Seq<char>,
    item: ImplText<Seq<char>, Seq<Seq<char>>>,
    method: FnText<Seq<char>, Seq<Seq<char>>>,
    args: Seq<Arg<Seq<char>>>,
    config: ForwardConfig<Seq<char>>,
)
    ensures
        ({
            let places = "let config = ::forward::ForwardConfig { server: "@ + place_text(
                config.server,
            ) + ", thread: "@ + place_text(config.thread);
            let called = match config.name {
                Some(lit) => lit.token,
                None => quoted(method.name),
            };
            let meta = " }; let meta = ::forward::ForwardMetadata::new("@ + name + ", "@ + called;
            let closure = "::new(config, meta, |args: "@ + tuple_text(types_of(args)) + "| { let "@
                + tuple_text(patterns_of(args)) + " = args; "@ + target_call(item, method.name, args)
                + " }); let args = "@ + tuple_text(values_of(args)) + "; "@;
            let text = forward_text(name, item, method, args, config);
            &&& method.is_async ==> text == places + meta + "); let method = ::forward::"@
                + "ForwardAsyncMethod"@ + closure + "method.call_rpc(args).await.into_async().await"@
            &&& !method.is_async ==> text == places + meta + "); let method = ::forward::"@
                + "ForwardSyncMethod"@ + closure
                + "method.call_rpc(args).into_sync().expect(\"forwarded sync call dropped before completion\")"@
        }),
{
    let places = "let config = ::forward::ForwardConfig { server: "@ + place_text(config.server)
        + ", thread: "@ + place_text(config.thread);
    let called = match config.name {
        Some(lit) => lit.token,
        None => quoted(method.name),
    };
    let meta = " }; let meta = ::forward::ForwardMetadata::new("@ + name + ", "@ + called;
    let closure = "::new(config, meta, |args: "@ + tuple_text(types_of(args)) + "| { let "@
        + tuple_text(patterns_of(args)) + " = args; "@ + target_call(item, method.name, args)
        + " }); let args = "@ + tuple_text(values_of(args)) + "; "@;
    let text = forward_text(name, item, method, args, config);
    if method.is_async {
        assert(text =~= places + meta + "); let method = ::forward::"@ + "ForwardAsyncMethod"@
            + closure + "method.call_rpc(args).await.into_async().await"@);
    } else {
        assert(text =~= places + meta + "); let method = ::forward::"@ + "ForwardSyncMethod"@
            + closure
            + "method.call_rpc(args).into_sync().expect(\"forwarded sync call dropped before completion\")"@);
    }
}

/// Two methods with the same settings go to the same places, whatever else they differ in, and whatever
/// their proxies are called.
pub proof fn law_same_settings_same_places(
    name: Seq<char>,
    item: ImplText<Seq<char>, Seq<Seq<char>>>,
    method: FnText<Seq<char>, Seq<Seq<char>>>,
    args: Seq<Arg<Seq<char>>>,
    other_name: Seq<char>,
    other_item: ImplText<Seq<char>, Seq<Seq<char>>>,
    other_method: FnText<Seq<char>, Seq<Seq<char>>>,
    other_args: Seq<Arg<Seq<char>>>,
    config: ForwardConfig<Seq<char>>,
)
    ensures
        ({
            let places = "let config = ::forward::ForwardConfig { server: "@ + place_text(
                config.server,
            ) + ", thread: "@ + place_text(config.thread)
                + " }; let meta = ::forward::ForwardMetadata::new("@;
            &&& places.is_prefix_of(forward_text(name, item, method, args, config))
            &&& places.is_prefix_of(
                forward_text(other_name, other_item, other_method, other_args, config),
            )
        }),
{
    lemma_statements_begin(name, item, method, args, config);
    lemma_statements_begin(other_name, other_item, other_method, other_args, config);
}

} // verus!
