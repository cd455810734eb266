//! The `impl` block of a proxy, made of the `impl` block of its target.
//!
//! The settings of the proxy stand behind its attribute, and those of each method in an attribute
//! `forward` of the method:
//!
//! ```text
//! #[forward_proxy(name = "Something")]
//! impl Something for Target {
//!     #[forward(Center, UserThread(2), name = "brief")]
//!     fn method(&self, id: u32) -> String { .. }
//! }
//! ```
//!
//! The `impl` block stays, without the attributes `forward`, and is followed by one for
//! `ForwardProxy<Target>`, whose methods forward their calls.

pub mod config;
pub mod describe;
pub mod emit;
pub mod export;
pub mod laws;
pub mod parser;
pub mod read;
pub mod setting_laws;
pub mod syntax;
pub mod text_laws;

use vstd::prelude::*;
use vstd::string::StringExecFns;

use self::config::Problem;
use self::emit::{
    fn_text, forward_text, impl_text, proxy_type, spaced, write_fn, write_forward, write_impl,
    write_proxy_type, write_stmts,
};
use self::parser::{
    forward_config_of, parse_forward_config, parse_proxy_config, proxy_config_in, ProxyConfig,
};
use self::read::{
    attributes, fn_arg, impl_item_fn, item_impl, quote_text, quoted, read_arg, read_attributes,
    read_fn, read_impl,
};
use self::syntax::{args_view, attrs_view, texts, Arg, Attr, ImplText};

verus! {

/// Two texts: one for the target, and one for its proxy.
pub struct Both<S> {
    /// The one for the target.
    pub target: S,
    /// The one for the proxy.
    pub proxy: S,
}

/// The attributes that `list` are.
pub open spec fn attrs_of(list: Seq<Seq<char>>) -> Result<
    Seq<Attr<Seq<char>>>,
    Problem<Seq<char>>,
>
    decreases list.len(),
{
    if list.len() == 0 {
        Ok(Seq::empty())
    } else {
        match (attrs_of(list.drop_last()), attributes(list.last())) {
            (Err(problem), _) => Err(problem),
            (_, Err(message)) => Err(Problem::Syntax(message)),
            (Ok(attrs), Ok(more)) => Ok(attrs + more),
        }
    }
}

/// The parameters that `list` are.
pub open spec fn args_of(list: Seq<Seq<char>>) -> Result<Seq<Arg<Seq<char>>>, Problem<Seq<char>>>
    decreases list.len(),
{
    if list.len() == 0 {
        Ok(Seq::empty())
    } else {
        match (args_of(list.drop_last()), fn_arg(list.last())) {
            (Err(problem), _) => Err(problem),
            (_, Err(message)) => Err(Problem::Syntax(message)),
            (Ok(args), Ok(arg)) => Ok(args.push(arg)),
        }
    }
}

/// The name that a proxy has from the trait of `item`, as a string literal.
pub open spec fn default_name(item: ImplText<Seq<char>, Seq<Seq<char>>>) -> Result<
    Seq<char>,
    Problem<Seq<char>>,
> {
    match item.trait_text {
        Some(text) => if text.names.len() > 0 {
            Ok(quoted(text.names.last()))
        } else {
            Err(Problem::Nameless)
        },
        None => Err(Problem::Nameless),
    }
}

/// The name of a proxy, as a string literal: the one that is set, or else that of its trait.
pub open spec fn proxy_name(
    config: ProxyConfig<Seq<char>>,
    item: ImplText<Seq<char>, Seq<Seq<char>>>,
) -> Result<Seq<char>, Problem<Seq<char>>> {
    match config.name {
        Some(lit) => Ok(lit.token),
        None => default_name(item),
    }
}

/// An item of the `impl` block `item` of a target, and of that of its proxy, which is called `name`. A
/// function loses its attribute `forward`, and forwards its calls in the proxy; all others stay.
pub open spec fn both_of(
    name: Seq<char>,
    item: ImplText<Seq<char>, Seq<Seq<char>>>,
    text: Seq<char>,
) -> Result<Both<Seq<char>>, Problem<Seq<char>>> {
    match impl_item_fn(text) {
        None => Ok(Both { target: text + " "@, proxy: text + " "@ }),
        Some(method) => match attrs_of(method.attrs) {
            Err(problem) => Err(problem),
            Ok(attrs) => match forward_config_of(attrs) {
                (Err(problem), _) => Err(problem),
                (Ok(config), attrs) => match args_of(method.inputs) {
                    Err(problem) => Err(problem),
                    Ok(args) => Ok(
                        Both {
                            target: fn_text(method, attrs, spaced(method.stmts)),
                            proxy: fn_text(
                                method,
                                attrs,
                                forward_text(name, item, method, args, config),
                            ),
                        },
                    ),
                },
            },
        },
    }
}

/// The items `list` of the `impl` block `item` of a target, and of that of its proxy.
pub open spec fn all_of(
    name: Seq<char>,
    item: ImplText<Seq<char>, Seq<Seq<char>>>,
    list: Seq<Seq<char>>,
) -> Result<Both<Seq<char>>, Problem<Seq<char>>>
    decreases list.len(),
{
    if list.len() == 0 {
        Ok(Both { target: Seq::empty(), proxy: Seq::empty() })
    } else {
        match all_of(name, item, list.drop_last()) {
            Err(problem) => Err(problem),
            Ok(before) => match both_of(name, item, list.last()) {
                Err(problem) => Err(problem),
                Ok(both) => Ok(
                    Both { target: before.target + both.target, proxy: before.proxy + both.proxy },
                ),
            },
        }
    }
}

/// The `impl` block `item` of a target, followed by that of its proxy, which is called `name`.
pub open spec fn expanded(name: Seq<char>, item: ImplText<Seq<char>, Seq<Seq<char>>>) -> Result<
    Seq<char>,
    Problem<Seq<char>>,
> {
    match attrs_of(item.attrs) {
        Err(problem) => Err(problem),
        Ok(attrs) => match all_of(name, item, item.items) {
            Err(problem) => Err(problem),
            Ok(both) => Ok(
                impl_text(item, attrs, item.self_ty, both.target) + impl_text(
                    item,
                    attrs,
                    proxy_type(item.self_ty),
                    both.proxy,
                ),
            ),
        },
    }
}

/// What becomes of the text `input` of an `impl` block with the settings `attrs`.
pub open spec fn expansion(attrs: Seq<char>, input: Seq<char>) -> Result<
    Seq<char>,
    Problem<Seq<char>>,
> {
    match proxy_config_in(attrs) {
        Err(problem) => Err(problem),
        Ok(config) => match item_impl(input) {
            Err(message) => Err(Problem::Syntax(message)),
            Ok(item) => match proxy_name(config, item) {
                Err(problem) => Err(problem),
                Ok(name) => expanded(name, item),
            },
        },
    }
}

/// A text or what is wrong, spoken of.
pub open spec fn result_view(result: Result<String, Problem<String>>) -> Result<
    Seq<char>,
    Problem<Seq<char>>,
> {
    match result {
        Ok(text) => Ok(text@),
        Err(problem) => Err(problem@),
    }
}

/// Two texts or what is wrong, spoken of.
pub open spec fn both_view(result: Result<Both<String>, Problem<String>>) -> Result<
    Both<Seq<char>>,
    Problem<Seq<char>>,
> {
    match result {
        Ok(both) => Ok(Both { target: both.target@, proxy: both.proxy@ }),
        Err(problem) => Err(problem@),
    }
}

/// Reads the attributes that `list` are.
fn read_attrs(list: &Vec<String>) -> (attrs: Result<Vec<Attr<String>>, Problem<String>>)
    ensures
        match attrs {
            Ok(attrs) => attrs_of(texts(list@)) == Ok::<Seq<Attr<Seq<char>>>, Problem<Seq<char>>>(
                attrs_view(attrs@),
            ),
            Err(problem) => attrs_of(texts(list@)) == Err::<
                Seq<Attr<Seq<char>>>,
                Problem<Seq<char>>,
            >(problem@),
        },
{
    let ghost all = texts(list@);
    let mut attrs: Vec<Attr<String>> = Vec::new();
    let mut i: usize = 0;
    assert(attrs_view(attrs@) =~= Seq::empty());
    while i < list.len()
        invariant
            i <= list@.len(),
            all == texts(list@),
            attrs_of(all.take(i as int)) == Ok::<Seq<Attr<Seq<char>>>, Problem<Seq<char>>>(
                attrs_view(attrs@),
            ),
        decreases list@.len() - i,
    {
        proof {
            assert(all.take(i + 1).drop_last() =~= all.take(i as int));
            assert(all.take(i + 1).last() == list@[i as int]@);
        }
        match read_attributes(list[i].as_str()) {
            Ok(mut more) => {
                let ghost (before, added) = (attrs@, more@);
                attrs.append(&mut more);
                assert(attrs_view(attrs@) =~= attrs_view(before) + attrs_view(added));
            },
            Err(message) => {
                proof {
                    lemma_attrs_stop(all, i + 1);
                }
                return Err(Problem::Syntax(message));
            },
        }
        i = i + 1;
    }
    assert(all.take(i as int) =~= all);
    Ok(attrs)
}

/// What is wrong with the first `count` attributes of a list is wrong with the list.
proof fn lemma_attrs_stop(list: Seq<Seq<char>>, count: int)
    requires
        0 <= count <= list.len(),
        attrs_of(list.take(count)) is Err,
    ensures
        attrs_of(list) == attrs_of(list.take(count)),
    decreases list.len(),
{
    if count == list.len() {
        assert(list.take(count) =~= list);
    } else {
        assert(list.drop_last().take(count) =~= list.take(count));
        lemma_attrs_stop(list.drop_last(), count);
    }
}

/// Reads the parameters that `list` are.
fn read_args(list: &Vec<String>) -> (args: Result<Vec<Arg<String>>, Problem<String>>)
    ensures
        match args {
            Ok(args) => args_of(texts(list@)) == Ok::<Seq<Arg<Seq<char>>>, Problem<Seq<char>>>(
                args_view(args@),
            ),
            Err(problem) => args_of(texts(list@)) == Err::<
                Seq<Arg<Seq<char>>>,
                Problem<Seq<char>>,
            >(problem@),
        },
{
    let ghost all = texts(list@);
    let mut args: Vec<Arg<String>> = Vec::new();
    let mut i: usize = 0;
    assert(args_view(args@) =~= Seq::empty());
    while i < list.len()
        invariant
            i <= list@.len(),
            all == texts(list@),
            args_of(all.take(i as int)) == Ok::<Seq<Arg<Seq<char>>>, Problem<Seq<char>>>(
                args_view(args@),
            ),
        decreases list@.len() - i,
    {
        proof {
            assert(all.take(i + 1).drop_last() =~= all.take(i as int));
            assert(all.take(i + 1).last() == list@[i as int]@);
        }
        match read_arg(list[i].as_str()) {
            Ok(arg) => {
                let ghost before = args@;
                args.push(arg);
                assert(args_view(args@) =~= args_view(before).push(arg@));
            },
            Err(message) => {
                proof {
                    lemma_args_stop(all, i + 1);
                }
                return Err(Problem::Syntax(message));
            },
        }
        i = i + 1;
    }
    assert(all.take(i as int) =~= all);
    Ok(args)
}

/// What is wrong with the first `count` parameters of a list is wrong with the list.
proof fn lemma_args_stop(list: Seq<Seq<char>>, count: int)
    requires
        0 <= count <= list.len(),
        args_of(list.take(count)) is Err,
    ensures
        args_of(list) == args_of(list.take(count)),
    decreases list.len(),
{
    if count == list.len() {
        assert(list.take(count) =~= list);
    } else {
        assert(list.drop_last().take(count) =~= list.take(count));
        lemma_args_stop(list.drop_last(), count);
    }
}

/// The name that a proxy has from the trait of `item`, as a string literal.
pub fn get_default_name(item: &ImplText<String, Vec<String>>) -> (name: Result<
    String,
    Problem<String>,
>)
    ensures
        result_view(name) == default_name(item@),
{
    match &item.trait_text {
        Some(text) => if text.names.len() > 0 {
            Ok(quote_text(text.names[text.names.len() - 1].as_str()))
        } else {
            Err(Problem::Nameless)
        },
        None => Err(Problem::Nameless),
    }
}

/// Makes an item of the `impl` block `item` of a target, and of that of its proxy, of the item `text`.
pub fn expand_item(name: &str, item: &ImplText<String, Vec<String>>, text: &str) -> (both: Result<
    Both<String>,
    Problem<String>,
>)
    ensures
        both_view(both) == both_of(name@, item@, text@),
{
    let method = match read_fn(text) {
        Some(method) => method,
        None => {
            let mut same = text.to_owned();
            same.append(" ");
            return Ok(Both { target: same.clone(), proxy: same });
        },
    };
    let mut attrs = match read_attrs(&method.attrs) {
        Ok(attrs) => attrs,
        Err(problem) => return Err(problem),
    };
    let config = match parse_forward_config(&mut attrs) {
        Ok(config) => config,
        Err(problem) => return Err(problem),
    };
    let args = match read_args(&method.inputs) {
        Ok(args) => args,
        Err(problem) => return Err(problem),
    };
    let forward = write_forward(name, item, &method, &args, &config);
    Ok(
        Both {
            target: write_fn(&method, &attrs, write_stmts(&method.stmts).as_str()),
            proxy: write_fn(&method, &attrs, forward.as_str()),
        },
    )
}

/// What is wrong with the first `count` items of a list is wrong with the list.
proof fn lemma_items_stop(
    name: Seq<char>,
    item: ImplText<Seq<char>, Seq<Seq<char>>>,
    list: Seq<Seq<char>>,
    count: int,
)
    requires
        0 <= count <= list.len(),
        all_of(name, item, list.take(count)) is Err,
    ensures
        all_of(name, item, list) == all_of(name, item, list.take(count)),
    decreases list.len(),
{
    if count == list.len() {
        assert(list.take(count) =~= list);
    } else {
        assert(list.drop_last().take(count) =~= list.take(count));
        lemma_items_stop(name, item, list.drop_last(), count);
    }
}

/// Makes the items of the `impl` block `item` of a target, and of that of its proxy.
fn expand_items(name: &str, item: &ImplText<String, Vec<String>>) -> (both: Result<
    Both<String>,
    Problem<String>,
>)
    ensures
        both_view(both) == all_of(name@, item@, item@.items),
{
    let ghost all = texts(item.items@);
    let mut target = String::new();
    let mut proxy = String::new();
    let mut i: usize = 0;
    while i < item.items.len()
        invariant
            i <= item.items@.len(),
            all == texts(item.items@),
            all_of(name@, item@, all.take(i as int)) == Ok::<Both<Seq<char>>, Problem<Seq<char>>>(
                Both { target: target@, proxy: proxy@ },
            ),
        decreases item.items@.len() - i,
    {
        proof {
            assert(all.take(i + 1).drop_last() =~= all.take(i as int));
            assert(all.take(i + 1).last() == item.items@[i as int]@);
        }
        match expand_item(name, item, item.items[i].as_str()) {
            Ok(both) => {
                target.append(both.target.as_str());
                proxy.append(both.proxy.as_str());
            },
            Err(problem) => {
                proof {
                    lemma_items_stop(name@, item@, all, i + 1);
                }
                return Err(problem);
            },
        }
        i = i + 1;
    }
    assert(all.take(i as int) =~= all);
    Ok(Both { target, proxy })
}

/// Makes the `impl` block `item` of a target, followed by that of its proxy, which is called `name`.
pub fn expand(name: &str, item: &ImplText<String, Vec<String>>) -> (text: Result<
    String,
    Problem<String>,
>)
    ensures
        result_view(text) == expanded(name@, item@),
{
    let attrs = match read_attrs(&item.attrs) {
        Ok(attrs) => attrs,
        Err(problem) => return Err(problem),
    };
    let both = match expand_items(name, item) {
        Ok(both) => both,
        Err(problem) => return Err(problem),
    };
    let proxy_ty = write_proxy_type(item.self_ty.as_str());
    let mut text = write_impl(item, &attrs, item.self_ty.as_str(), both.target.as_str());
    text.append(write_impl(item, &attrs, proxy_ty.as_str(), both.proxy.as_str()).as_str());
    Ok(text)
}

/// Makes what becomes of the text `input` of an `impl` block with the settings `attrs`. Only a block
/// without a trait, where no name is set either, is refused for want of a name.
pub fn parse(attrs: &str, input: &str) -> (text: Result<String, Problem<String>>)
    ensures
        result_view(text) == expansion(attrs@, input@),
        proxy_config_in(attrs@) matches Ok(config) ==> (item_impl(input@) matches Ok(item) ==> (
        proxy_name(config, item) is Err <==> config.name is None && item.trait_text is None)),
{
    let config = match parse_proxy_config(attrs) {
        Ok(config) => config,
        Err(problem) => return Err(problem),
    };
    let item = match read_impl(input) {
        Ok(item) => item,
        Err(message) => return Err(Problem::Syntax(message)),
    };
    let name = match config.name {
        Some(lit) => lit.token,
        None => match get_default_name(&item) {
            Ok(name) => name,
            Err(problem) => return Err(problem),
        },
    };
    expand(name.as_str(), &item)
}

} // verus!
