//! The texts of `impl` blocks and of what they hold.

use vstd::prelude::*;
use vstd::string::StringExecFns;

use super::config::PathSelector;
use super::parser::{option_place, ForwardConfig};
use super::read::{quote_text, quoted};
use super::syntax::{args_view, attrs_view, texts, Arg, Attr, FnText, ImplText};

verus! {

/// The expression for a place. Where no kind or no choice is set, there is the only one.
pub open spec fn place_text(place: Option<PathSelector<Seq<char>>>) -> Seq<char> {
    let (kind, selector) = match place {
        Some(PathSelector { path, selector: Some(selector) }) => (path, selector),
        Some(PathSelector { path, selector: None }) => (path, "()"@),
        None => ("()"@, "()"@),
    };
    "::forward::ForwardSelector { kind: "@ + kind + ", selector: "@ + selector + " }"@
}

/// `items`, with commas between them.
pub open spec fn listed(items: Seq<Seq<char>>) -> Seq<char>
    decreases items.len(),
{
    if items.len() == 0 {
        Seq::empty()
    } else if items.len() == 1 {
        items[0]
    } else {
        listed(items.drop_last()) + ", "@ + items.last()
    }
}

/// The tuple of `items`.
pub open spec fn tuple_text(items: Seq<Seq<char>>) -> Seq<char> {
    if items.len() == 1 {
        "("@ + listed(items) + ",)"@
    } else {
        "("@ + listed(items) + ")"@
    }
}

/// The attributes among `attrs` that stand inside, or that do not, one after the other.
pub open spec fn attrs_text(attrs: Seq<Attr<Seq<char>>>, inner: bool) -> Seq<char>
    decreases attrs.len(),
{
    if attrs.len() == 0 {
        Seq::empty()
    } else if attrs.last().is_inner == inner {
        attrs_text(attrs.drop_last(), inner) + attrs.last().text + " "@
    } else {
        attrs_text(attrs.drop_last(), inner)
    }
}

/// `items`, with a space behind each.
pub open spec fn spaced(items: Seq<Seq<char>>) -> Seq<char>
    decreases items.len(),
{
    if items.len() == 0 {
        Seq::empty()
    } else {
        spaced(items.drop_last()) + items.last() + " "@
    }
}

/// The function `item`, with the attributes `attrs` and the statements `stmts`.
pub open spec fn fn_text(
    item: FnText<Seq<char>, Seq<Seq<char>>>,
    attrs: Seq<Attr<Seq<char>>>,
    stmts: Seq<char>,
) -> Seq<char> {
    attrs_text(attrs, false) + item.vis + " "@ + item.defaultness + " "@ + item.sig + " { "@
        + attrs_text(attrs, true) + stmts + " } "@
}

/// The `impl` block `item`, with the attributes `attrs`, for the type `self_ty` and with `items` in it.
pub open spec fn impl_text(
    item: ImplText<Seq<char>, Seq<Seq<char>>>,
    attrs: Seq<Attr<Seq<char>>>,
    self_ty: Seq<char>,
    items: Seq<char>,
) -> Seq<char> {
    let trait_for = match item.trait_text {
        Some(text) => text.polarity + " "@ + text.path + " for "@,
        None => ""@,
    };
    attrs_text(attrs, false) + item.defaultness + " "@ + item.unsafety + " impl "@ + item.generics
        + " "@ + trait_for + self_ty + " "@ + item.where_clause + " { "@ + attrs_text(attrs, true)
        + items + " } "@
}

/// The type of a proxy of a target of the type `self_ty`.
pub open spec fn proxy_type(self_ty: Seq<char>) -> Seq<char> {
    "::forward::ForwardProxy<"@ + self_ty + ">"@
}

/// The type of a parameter.
pub open spec fn type_of(arg: Arg<Seq<char>>) -> Seq<char> {
    match arg {
        Arg::Receiver { ty, is_mut: _ } => ty,
        Arg::Typed { pat: _, name: _, ty } => ty,
    }
}

/// The pattern of a parameter, where the receiver is called `target`.
pub open spec fn pattern_of(arg: Arg<Seq<char>>) -> Seq<char> {
    match arg {
        Arg::Receiver { ty: _, is_mut } => if is_mut {
            "mut target"@
        } else {
            "target"@
        },
        Arg::Typed { pat, name: _, ty: _ } => pat,
    }
}

/// The expression for what a method has from its caller as a parameter: the receiver, the name of the
/// parameter, or, where its pattern takes it apart, what puts the parts together again.
pub open spec fn value_of(arg: Arg<Seq<char>>) -> Seq<char> {
    match arg {
        Arg::Receiver { .. } => "self"@,
        Arg::Typed { pat: _, name: Some(name), ty: _ } => name,
        Arg::Typed { pat, name: None, ty: _ } => pat,
    }
}

/// The types of `args`.
pub open spec fn types_of(args: Seq<Arg<Seq<char>>>) -> Seq<Seq<char>> {
    args.map_values(|arg: Arg<Seq<char>>| type_of(arg))
}

/// The patterns of `args`, where the receiver is called `target`.
pub open spec fn patterns_of(args: Seq<Arg<Seq<char>>>) -> Seq<Seq<char>> {
    args.map_values(|arg: Arg<Seq<char>>| pattern_of(arg))
}

/// The expressions for what a method has from its caller as `args`.
pub open spec fn values_of(args: Seq<Arg<Seq<char>>>) -> Seq<Seq<char>> {
    args.map_values(|arg: Arg<Seq<char>>| value_of(arg))
}

/// What is passed for `args`: all but the receiver.
pub open spec fn passed(args: Seq<Arg<Seq<char>>>) -> Seq<Seq<char>>
    decreases args.len(),
{
    if args.len() == 0 {
        Seq::empty()
    } else {
        match args.last() {
            Arg::Receiver { .. } => passed(args.drop_last()),
            Arg::Typed { .. } => passed(args.drop_last()).push(value_of(args.last())),
        }
    }
}

/// Whether `mut` stands before the receiver among `args`, if there is one.
pub open spec fn receiver_in(args: Seq<Arg<Seq<char>>>) -> Option<bool>
    decreases args.len(),
{
    if args.len() == 0 {
        None
    } else {
        match args.last() {
            Arg::Receiver { ty: _, is_mut } => Some(is_mut),
            Arg::Typed { .. } => receiver_in(args.drop_last()),
        }
    }
}

/// The call of the method `name` of the target: on the target, or on its type if there is no receiver.
pub open spec fn target_call(
    item: ImplText<Seq<char>, Seq<Seq<char>>>,
    name: Seq<char>,
    args: Seq<Arg<Seq<char>>>,
) -> Seq<char> {
    let callee = match receiver_in(args) {
        Some(true) => "target.as_raw_mut()."@,
        Some(false) => "target.as_raw_ref()."@,
        None => match item.trait_text {
            Some(text) => "<"@ + item.self_ty + " as "@ + text.path + ">::"@,
            None => "<"@ + item.self_ty + ">::"@,
        },
    };
    callee + name + "("@ + listed(passed(args)) + ")"@
}

/// The statements of the method `method` of the proxy called `name`: they make the call, with the
/// places that are set, and forward it.
pub open spec fn forward_text(
    name: Seq<char>,
    item: ImplText<Seq<char>, Seq<Seq<char>>>,
    method: FnText<Seq<char>, Seq<Seq<char>>>,
    args: Seq<Arg<Seq<char>>>,
    config: ForwardConfig<Seq<char>>,
) -> Seq<char> {
    let method_name = match config.name {
        Some(lit) => lit.token,
        None => quoted(method.name),
    };
    let kind = if method.is_async {
        "ForwardAsyncMethod"@
    } else {
        "ForwardSyncMethod"@
    };
    let call = if method.is_async {
        "method.call_rpc(args).await.into_async().await"@
    } else {
        "method.call_rpc(args).into_sync().expect(\"forwarded sync call dropped before completion\")"@
    };
    "let config = ::forward::ForwardConfig { server: "@ + place_text(config.server) + ", thread: "@
        + place_text(config.thread) + " }; let meta = ::forward::ForwardMetadata::new("@ + name
        + ", "@ + method_name + "); let method = ::forward::"@ + kind
        + "::new(config, meta, |args: "@ + tuple_text(types_of(args)) + "| { let "@ + tuple_text(
        patterns_of(args),
    ) + " = args; "@ + target_call(item, method.name, args) + " }); let args = "@ + tuple_text(
        values_of(args),
    ) + "; "@ + call
}

/// Writes the expression for a place.
pub fn write_place(place: &Option<PathSelector<String>>) -> (text: String)
    ensures
        text@ == place_text(option_place(*place)),
{
    let mut text = "::forward::ForwardSelector { kind: ".to_owned();
    match place {
        Some(PathSelector { path, selector: Some(selector) }) => {
            text.append(path.as_str());
            text.append(", selector: ");
            text.append(selector.as_str());
        },
        Some(PathSelector { path, selector: None }) => {
            text.append(path.as_str());
            text.append(", selector: ");
            text.append("()");
        },
        None => {
            text.append("()");
            text.append(", selector: ");
            text.append("()");
        },
    }
    text.append(" }");
    text
}

/// Writes `items`, with commas between them.
pub fn write_list(items: &Vec<String>) -> (text: String)
    ensures
        text@ == listed(texts(items@)),
{
    let ghost all = texts(items@);
    if items.len() == 0 {
        return String::new();
    }
    let mut text = items[0].clone();
    let mut i: usize = 1;
    assert(all.take(1).len() == 1 && all.take(1)[0] == items@[0]@);
    while i < items.len()
        invariant
            1 <= i <= items@.len(),
            all == texts(items@),
            text@ == listed(all.take(i as int)),
        decreases items@.len() - i,
    {
        text.append(", ");
        text.append(items[i].as_str());
        i = i + 1;
        assert(all.take(i as int).drop_last() =~= all.take(i - 1));
        assert(all.take(i as int).last() == items@[i - 1]@);
    }
    assert(all.take(i as int) =~= all);
    text
}

/// Writes the tuple of `items`.
pub fn write_tuple(items: &Vec<String>) -> (text: String)
    ensures
        text@ == tuple_text(texts(items@)),
{
    let mut text = "(".to_owned();
    text.append(write_list(items).as_str());
    if items.len() == 1 {
        text.append(",)");
    } else {
        text.append(")");
    }
    text
}

/// Writes the attributes among `attrs` that stand inside, or that do not.
pub fn write_attrs(attrs: &Vec<Attr<String>>, inner: bool) -> (text: String)
    ensures
        text@ == attrs_text(attrs_view(attrs@), inner),
{
    let ghost all = attrs_view(attrs@);
    let mut text = String::new();
    let mut i: usize = 0;
    while i < attrs.len()
        invariant
            i <= attrs@.len(),
            all == attrs_view(attrs@),
            text@ == attrs_text(all.take(i as int), inner),
        decreases attrs@.len() - i,
    {
        if attrs[i].is_inner == inner {
            text.append(attrs[i].text.as_str());
            text.append(" ");
        }
        i = i + 1;
        assert(all.take(i as int).drop_last() =~= all.take(i - 1));
        assert(all.take(i as int).last() == attrs@[i - 1]@);
    }
    assert(all.take(i as int) =~= all);
    text
}

/// Writes `items`, with a space behind each.
pub fn write_stmts(items: &Vec<String>) -> (text: String)
    ensures
        text@ == spaced(texts(items@)),
{
    let ghost all = texts(items@);
    let mut text = String::new();
    let mut i: usize = 0;
    while i < items.len()
        invariant
            i <= items@.len(),
            all == texts(items@),
            text@ == spaced(all.take(i as int)),
        decreases items@.len() - i,
    {
        text.append(items[i].as_str());
        text.append(" ");
        i = i + 1;
        assert(all.take(i as int).drop_last() =~= all.take(i - 1));
        assert(all.take(i as int).last() == items@[i - 1]@);
    }
    assert(all.take(i as int) =~= all);
    text
}

/// Writes the function `item`, with the attributes `attrs` and the statements `stmts`.
pub fn write_fn(item: &FnText<String, Vec<String>>, attrs: &Vec<Attr<String>>, stmts: &str) -> (text:
    String)
    ensures
        text@ == fn_text(item@, attrs_view(attrs@), stmts@),
{
    let mut text = write_attrs(attrs, false);
    text.append(item.vis.as_str());
    text.append(" ");
    text.append(item.defaultness.as_str());
    text.append(" ");
    text.append(item.sig.as_str());
    text.append(" { ");
    text.append(write_attrs(attrs, true).as_str());
    text.append(stmts);
    text.append(" } ");
    text
}

/// Writes the `impl` block `item`, with the attributes `attrs`, for the type `self_ty` and with `items`
/// in it.
pub fn write_impl(
    item: &ImplText<String, Vec<String>>,
    attrs: &Vec<Attr<String>>,
    self_ty: &str,
    items: &str,
) -> (text: String)
    ensures
        text@ == impl_text(item@, attrs_view(attrs@), self_ty@, items@),
{
    let mut trait_for = "".to_owned();
    if let Some(trait_text) = &item.trait_text {
        trait_for = trait_text.polarity.clone();
        trait_for.append(" ");
        trait_for.append(trait_text.path.as_str());
        trait_for.append(" for ");
    }
    let mut text = write_attrs(attrs, false);
    text.append(item.defaultness.as_str());
    text.append(" ");
    text.append(item.unsafety.as_str());
    text.append(" impl ");
    text.append(item.generics.as_str());
    text.append(" ");
    text.append(trait_for.as_str());
    text.append(self_ty);
    text.append(" ");
    text.append(item.where_clause.as_str());
    text.append(" { ");
    text.append(write_attrs(attrs, true).as_str());
    text.append(items);
    text.append(" } ");
    text
}

/// Writes the type of a proxy of a target of the type `self_ty`.
pub fn write_proxy_type(self_ty: &str) -> (text: String)
    ensures
        text@ == proxy_type(self_ty@),
{
    let mut text = "::forward::ForwardProxy<".to_owned();
    text.append(self_ty);
    text.append(">");
    text
}

/// Lists the types of `args`.
fn list_types(args: &Vec<Arg<String>>) -> (types: Vec<String>)
    ensures
        texts(types@) == types_of(args_view(args@)),
{
    let ghost all = args_view(args@);
    let mut types: Vec<String> = Vec::new();
    let mut i: usize = 0;
    while i < args.len()
        invariant
            i <= args@.len(),
            all == args_view(args@),
            types@.len() == i,
            forall|k: int| 0 <= k < i ==> (#[trigger] types@[k])@ == type_of(all[k]),
        decreases args@.len() - i,
    {
        let ty = match &args[i] {
            Arg::Receiver { ty, is_mut: _ } => ty.clone(),
            Arg::Typed { pat: _, name: _, ty } => ty.clone(),
        };
        assert(ty@ == type_of(all[i as int]));
        types.push(ty);
        i = i + 1;
    }
    assert(texts(types@) =~= types_of(all));
    types
}

/// Lists the patterns of `args`, where the receiver is called `target`.
fn list_patterns(args: &Vec<Arg<String>>) -> (patterns: Vec<String>)
    ensures
        texts(patterns@) == patterns_of(args_view(args@)),
{
    let ghost all = args_view(args@);
    let mut patterns: Vec<String> = Vec::new();
    let mut i: usize = 0;
    while i < args.len()
        invariant
            i <= args@.len(),
            all == args_view(args@),
            patterns@.len() == i,
            forall|k: int| 0 <= k < i ==> (#[trigger] patterns@[k])@ == pattern_of(all[k]),
        decreases args@.len() - i,
    {
        let pattern = match &args[i] {
            Arg::Receiver { ty: _, is_mut } => if *is_mut {
                "mut target".to_owned()
            } else {
                "target".to_owned()
            },
            Arg::Typed { pat, name: _, ty: _ } => pat.clone(),
        };
        assert(pattern@ == pattern_of(all[i as int]));
        patterns.push(pattern);
        i = i + 1;
    }
    assert(texts(patterns@) =~= patterns_of(all));
    patterns
}

/// Writes the expression for what a method has from its caller as a parameter.
fn write_value(arg: &Arg<String>) -> (value: String)
    ensures
        value@ == value_of(arg@),
{
    match arg {
        Arg::Receiver { .. } => "self".to_owned(),
        Arg::Typed { pat: _, name: Some(name), ty: _ } => name.clone(),
        Arg::Typed { pat, name: None, ty: _ } => pat.clone(),
    }
}

/// Lists the expressions for what a method has from its caller as `args`.
fn list_values(args: &Vec<Arg<String>>) -> (values: Vec<String>)
    ensures
        texts(values@) == values_of(args_view(args@)),
{
    let ghost all = args_view(args@);
    let mut values: Vec<String> = Vec::new();
    let mut i: usize = 0;
    while i < args.len()
        invariant
            i <= args@.len(),
            all == args_view(args@),
            values@.len() == i,
            forall|k: int| 0 <= k < i ==> (#[trigger] values@[k])@ == value_of(all[k]),
        decreases args@.len() - i,
    {
        let value = write_value(&args[i]);
        assert(value@ == value_of(all[i as int]));
        values.push(value);
        i = i + 1;
    }
    assert(texts(values@) =~= values_of(all));
    values
}

/// Lists what is passed for `args`, and tells whether `mut` stands before the receiver among them.
fn list_passed(args: &Vec<Arg<String>>) -> (listed: (Vec<String>, Option<bool>))
    ensures
        texts(listed.0@) == passed(args_view(args@)),
        listed.1 == receiver_in(args_view(args@)),
{
    let ghost all = args_view(args@);
    let mut given: Vec<String> = Vec::new();
    let mut receiver: Option<bool> = None;
    let mut i: usize = 0;
    assert(texts(given@) =~= passed(all.take(0)));
    while i < args.len()
        invariant
            i <= args@.len(),
            all == args_view(args@),
            texts(given@) == passed(all.take(i as int)),
            receiver == receiver_in(all.take(i as int)),
        decreases args@.len() - i,
    {
        proof {
            assert(all.take(i + 1).drop_last() =~= all.take(i as int));
            assert(all.take(i + 1).last() == args@[i as int]@);
        }
        let ghost before = given@;
        match &args[i] {
            Arg::Receiver { ty: _, is_mut } => {
                receiver = Some(*is_mut);
            },
            Arg::Typed { .. } => {
                let value = write_value(&args[i]);
                given.push(value);
                assert(texts(given@) =~= texts(before).push(value@));
            },
        }
        i = i + 1;
    }
    assert(all.take(i as int) =~= all);
    (given, receiver)
}

/// Writes the call of the method `name` of the target.
pub fn write_target_call(
    item: &ImplText<String, Vec<String>>,
    name: &str,
    args: &Vec<Arg<String>>,
) -> (text: String)
    ensures
        text@ == target_call(item@, name@, args_view(args@)),
{
    let (given, receiver) = list_passed(args);
    let mut text = match receiver {
        Some(true) => "target.as_raw_mut().".to_owned(),
        Some(false) => "target.as_raw_ref().".to_owned(),
        None => {
            let mut callee = "<".to_owned();
            callee.append(item.self_ty.as_str());
            if let Some(trait_text) = &item.trait_text {
                callee.append(" as ");
                callee.append(trait_text.path.as_str());
            }
            callee.append(">::");
            callee
        },
    };
    text.append(name);
    text.append("(");
    text.append(write_list(&given).as_str());
    text.append(")");
    text
}

/// Writes the statements of the method `method` of the proxy called `name`.
pub fn write_forward(
    name: &str,
    item: &ImplText<String, Vec<String>>,
    method: &FnText<String, Vec<String>>,
    args: &Vec<Arg<String>>,
    config: &ForwardConfig<String>,
) -> (text: String)
    ensures
        text@ == forward_text(name@, item@, method@, args_view(args@), config@),
{
    let method_name = match &config.name {
        Some(lit) => lit.token.clone(),
        None => quote_text(method.name.as_str()),
    };
    let mut text = "let config = ::forward::ForwardConfig { server: ".to_owned();
    text.append(write_place(&config.server).as_str());
    text.append(", thread: ");
    text.append(write_place(&config.thread).as_str());
    text.append(" }; let meta = ::forward::ForwardMetadata::new(");
    text.append(name);
    text.append(", ");
    text.append(method_name.as_str());
    text.append("); let method = ::forward::");
    if method.is_async {
        text.append("ForwardAsyncMethod");
    } else {
        text.append("ForwardSyncMethod");
    }
    text.append("::new(config, meta, |args: ");
    text.append(write_tuple(&list_types(args)).as_str());
    text.append("| { let ");
    text.append(write_tuple(&list_patterns(args)).as_str());
    text.append(" = args; ");
    text.append(write_target_call(item, method.name.as_str(), args).as_str());
    text.append(" }); let args = ");
    text.append(write_tuple(&list_values(args)).as_str());
    text.append("; ");
    if method.is_async {
        text.append("method.call_rpc(args).await.into_async().await");
    } else {
        text.append(
            "method.call_rpc(args).into_sync().expect(\"forwarded sync call dropped before completion\")",
        );
    }
    text
}

} // verus!
