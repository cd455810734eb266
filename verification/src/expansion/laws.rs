//! What holds of all settings and of all expansions.

use vstd::prelude::*;

use super::config::{
    named_in, named_view, settings_in, settings_view, taken_view, unset, values_view, with_setting,
    with_settings, with_unnamed, Problem, Schema, Settings, Taken, Value, Values,
};
use super::emit::{fn_text, forward_text, impl_text, proxy_type, spaced};
use super::parser::{
    forward_config, forward_config_of, forward_view, paths, proxy_config_in, proxy_view,
    ForwardConfig, ProxyConfig,
};
use super::read::{attributes, fn_arg, impl_item_fn, item_impl, lexed, quoted, trees};
use super::syntax::{Arg, Attr, ImplText};
use super::{
    all_of, args_of, attrs_of, both_of, both_view, default_name, expanded, expansion, proxy_name,
    result_view, Both,
};

verus! {

/// Settings of `schema` as they can be while they are read: what may still come without its name is not
/// set, nor is anything behind it.
pub open spec fn possible(schema: Schema, settings: Settings<Values>) -> bool {
    &&& settings.values.len() == schema.names().len()
    &&& settings.next matches Some(slot) ==> slot < schema.unnamed() && forall|i: int|
        slot <= i < settings.values.len() ==> settings.values[i] is None
}

/// What is set in `before` is set alike in `after`.
pub open spec fn kept(before: Values, after: Values) -> bool {
    &&& before.len() == after.len()
    &&& forall|i: int|
        0 <= i < before.len() && (#[trigger] before[i]) is Some ==> after[i] == before[i]
}

/// Nothing is set at first.
pub proof fn law_settings_begin_unset(schema: Schema)
    ensures
        possible(schema, Settings { values: unset(schema), next: Some(0usize), whole: true }),
{
}

/// A setting never changes one that was set before it. So none is given twice, and one that comes
/// without its name is not set yet.
pub proof fn law_setting_keeps_the_others(
    schema: Schema,
    before: Settings<Values>,
    text: Seq<char>,
)
    requires
        possible(schema, before),
    ensures
        with_setting(schema, before, text) matches Ok((after, _)) ==> {
            &&& possible(schema, after)
            &&& kept(before.values, after.values)
            &&& exists|slot: int|
                0 <= slot < before.values.len() && before.values[slot] is None && (
                #[trigger] after.values[slot]) is Some
        },
{
    if let Ok(Some((slot, taken))) = named_in(schema, text) {
        let path = super::read::leading_path(text)->Ok_0.0;
        schema.names().index_of_first_ensures(path);
        if let Ok((after, _)) = with_setting(schema, before, text) {
            assert(after.values[slot] is Some);
        }
    } else if let Ok((after, _)) = with_setting(schema, before, text) {
        assert(after.values[before.next->0 as int] is Some);
    }
}

/// All settings together never change one that was set before them.
pub proof fn law_settings_only_grow(schema: Schema, before: Settings<Values>, text: Seq<char>)
    requires
        possible(schema, before),
    ensures
        with_settings(schema, before, text) matches Ok(after) ==> {
            &&& possible(schema, after)
            &&& kept(before.values, after.values)
        },
    decreases trees(text),
{
    law_setting_keeps_the_others(schema, before, text);
    if let Ok((after, rest)) = with_setting(schema, before, text) {
        if let Ok(Some(rest)) = super::config::next_setting(rest) {
            if trees(rest) < trees(text) {
                law_settings_only_grow(schema, after, rest);
            }
        }
    }
}

/// Once a setting is named, all that follow have to be.
pub proof fn law_named_from_the_first_name_on(
    schema: Schema,
    before: Settings<Values>,
    text: Seq<char>,
    next: Seq<char>,
)
    requires
        with_setting(schema, before, text) is Ok,
        named_in(schema, text)->Ok_0 is Some,
        named_in(schema, next) is Ok,
        named_in(schema, next)->Ok_0 is None,
    ensures
        with_setting(schema, with_setting(schema, before, text)->Ok_0.0, next) == Err::<
            (Settings<Values>, Seq<char>),
            Problem<Seq<char>>,
        >(Problem::Unknown(schema)),
{
}

/// Of the settings of a method, the first without a name is its server, the second its thread, and
/// there is no third.
pub proof fn law_places_come_in_their_order(
    first: Taken<Seq<char>>,
    second: Taken<Seq<char>>,
)
    ensures
        ({
            let none = Settings { values: unset(Schema::Forward), next: Some(0usize), whole: true };
            let one = with_unnamed(Schema::Forward, none, none.next->0, first);
            let two = with_unnamed(Schema::Forward, one, one.next->0, second);
            &&& one.next is Some
            &&& one.values =~= seq![Some(first.value), None, None, None]
            &&& two.values =~= seq![Some(first.value), Some(second.value), None, None]
            &&& two.next is None
        }),
{
}

/// No tokens are no settings.
pub proof fn law_nothing_sets_nothing(schema: Schema, text: Seq<char>)
    requires
        lexed(text) == Ok::<nat, Seq<char>>(0),
    ensures
        settings_in(schema, text) == Ok::<Values, Problem<Seq<char>>>(unset(schema)),
{
}

/// A method loses the first of its attributes that is called `forward`, and no other; one without such
/// an attribute has no settings.
pub proof fn law_one_attribute_goes(attrs: Seq<Attr<Seq<char>>>)
    ensures
        ({
            let (config, left) = forward_config_of(attrs);
            ||| {
                &&& forall|i: int| 0 <= i < attrs.len() ==> (#[trigger] attrs[i]).path != "forward"@
                &&& left == attrs
                &&& config is Ok
                &&& config->Ok_0 == forward_config(unset(Schema::Forward))
            }
            ||| exists|index: int|
                {
                    &&& 0 <= index < attrs.len()
                    &&& attrs[index].path == "forward"@
                    &&& forall|i: int|
                        0 <= i < index ==> (#[trigger] attrs[i]).path != "forward"@
                    &&& left == #[trigger] attrs.remove(index)
                }
        }),
{
    paths(attrs).index_of_first_ensures("forward"@);
    match paths(attrs).index_of_first("forward"@) {
        Some(index) => {
            assert(forall|i: int| 0 <= i < index ==> paths(attrs)[i] == (#[trigger] attrs[i]).path);
            assert(forward_config_of(attrs).1 == attrs.remove(index));
        },
        None => {
            assert forall|i: int| 0 <= i < attrs.len() implies (#[trigger] attrs[i]).path
                != "forward"@ by {
                assert(paths(attrs)[i] == attrs[i].path);
            }
        },
    }
}

/// A proxy is called what is set, and otherwise like its trait; one without either is refused.
pub proof fn law_proxy_has_a_name(
    config: ProxyConfig<Seq<char>>,
    item: ImplText<Seq<char>, Seq<Seq<char>>>,
)
    ensures
        config.name matches Some(lit) ==> proxy_name(config, item) == Ok::<
            Seq<char>,
            Problem<Seq<char>>,
        >(lit.token),
        config.name is None && item.trait_text is Some && item.trait_text->0.names.len() > 0
            ==> proxy_name(config, item) == Ok::<Seq<char>, Problem<Seq<char>>>(
            quoted(item.trait_text->0.names.last()),
        ),
        config.name is None && item.trait_text is None ==> proxy_name(config, item) == Err::<
            Seq<char>,
            Problem<Seq<char>>,
        >(Problem::Nameless),
{
}

/// What is no function is in the block of the proxy as it is in that of the target.
pub proof fn law_other_items_stay(
    name: Seq<char>,
    item: ImplText<Seq<char>, Seq<Seq<char>>>,
    text: Seq<char>,
)
    requires
        impl_item_fn(text) is None,
    ensures
        both_of(name, item, text) is Ok,
        both_of(name, item, text)->Ok_0.target == both_of(name, item, text)->Ok_0.proxy,
        both_of(name, item, text)->Ok_0.target == text + " "@,
{
}

/// A function of the target keeps its visibility, its signature and its statements, and its attributes
/// but the one that its settings stand in.
pub proof fn law_target_stays(
    name: Seq<char>,
    item: ImplText<Seq<char>, Seq<Seq<char>>>,
    text: Seq<char>,
)
    requires
        impl_item_fn(text) is Some,
        both_of(name, item, text) is Ok,
    ensures
        ({
            let method = impl_item_fn(text)->0;
            let attrs = super::attrs_of(method.attrs)->Ok_0;
            both_of(name, item, text)->Ok_0.target == fn_text(
                method,
                forward_config_of(attrs).1,
                spaced(method.stmts),
            )
        }),
{
}

/// The first item that something is wrong with decides what is wrong.
pub proof fn law_first_problem_decides(
    name: Seq<char>,
    item: ImplText<Seq<char>, Seq<Seq<char>>>,
    good: Seq<Seq<char>>,
    bad: Seq<char>,
    others: Seq<Seq<char>>,
)
    requires
        all_of(name, item, good) is Ok,
        both_of(name, item, bad) is Err,
    ensures
        all_of(name, item, good.push(bad) + others) is Err,
        all_of(name, item, good.push(bad) + others)->Err_0 == both_of(name, item, bad)->Err_0,
    decreases others.len(),
{
    let list = good.push(bad) + others;
    if others.len() == 0 {
        assert(list.drop_last() =~= good);
        assert(list.last() == bad);
    } else {
        assert(list.drop_last() =~= good.push(bad) + others.drop_last());
        law_first_problem_decides(name, item, good, bad, others.drop_last());
    }
}

/// What is wrong with the settings of a proxy is said before anything of the block is looked at, and
/// what is wrong with the block before anything in it is.
pub proof fn law_settings_come_first(attrs: Seq<char>, input: Seq<char>)
    ensures
        proxy_config_in(attrs) matches Err(problem) ==> expansion(attrs, input) == Err::<
            Seq<char>,
            Problem<Seq<char>>,
        >(problem),
        proxy_config_in(attrs) is Ok && item_impl(input) is Err ==> expansion(attrs, input) == Err::<
            Seq<char>,
            Problem<Seq<char>>,
        >(Problem::Syntax(item_impl(input)->Err_0)),
        proxy_config_in(attrs) is Ok && item_impl(input) is Ok && proxy_name(
            proxy_config_in(attrs)->Ok_0,
            item_impl(input)->Ok_0,
        ) is Ok ==> expansion(attrs, input) == expanded(
            proxy_name(proxy_config_in(attrs)->Ok_0, item_impl(input)->Ok_0)->Ok_0,
            item_impl(input)->Ok_0,
        ),
{
}

/// Attributes are read one after the other, all of them, and so are parameters. What is wrong with the
/// first that something is wrong with is wrong with the list.
pub proof fn law_lists_are_read_in_turn(
    text: Seq<char>,
    first: Seq<Seq<char>>,
    second: Seq<Seq<char>>,
)
    ensures
        attrs_of(Seq::empty()) matches Ok(attrs) && attrs.len() == 0,
        match attributes(text) {
            Ok(attrs) => attrs_of(seq![text]) matches Ok(same) && same == attrs,
            Err(message) => attrs_of(seq![text]) matches Err(problem) && problem == Problem::Syntax(
                message,
            ),
        },
        match (attrs_of(first), attrs_of(second)) {
            (Ok(a), Ok(b)) => attrs_of(first + second) matches Ok(both) && both == a + b,
            (Err(a), _) => attrs_of(first + second) matches Err(problem) && problem == a,
            (_, Err(b)) => attrs_of(first + second) matches Err(problem) && problem == b,
        },
        args_of(Seq::empty()) matches Ok(args) && args.len() == 0,
        match fn_arg(text) {
            Ok(arg) => args_of(seq![text]) matches Ok(args) && args == seq![arg],
            Err(message) => args_of(seq![text]) matches Err(problem) && problem == Problem::Syntax(
                message,
            ),
        },
        match (args_of(first), args_of(second)) {
            (Ok(a), Ok(b)) => args_of(first + second) matches Ok(both) && both == a + b,
            (Err(a), _) => args_of(first + second) matches Err(problem) && problem == a,
            (_, Err(b)) => args_of(first + second) matches Err(problem) && problem == b,
        },
    decreases second.len(),
{
    reveal_with_fuel(attrs_of, 2);
    reveal_with_fuel(args_of, 2);
    assert(seq![text].drop_last() =~= Seq::<Seq<char>>::empty());
    if let Ok(attrs) = attributes(text) {
        assert(Seq::<Attr<Seq<char>>>::empty() + attrs =~= attrs);
    }
    if let Ok(arg) = fn_arg(text) {
        assert(Seq::<Arg<Seq<char>>>::empty().push(arg) =~= seq![arg]);
    }
    if second.len() == 0 {
        assert(first + second =~= first);
        if let Ok(a) = attrs_of(first) {
            assert(a + Seq::<Attr<Seq<char>>>::empty() =~= a);
        }
        if let Ok(a) = args_of(first) {
            assert(a + Seq::<Arg<Seq<char>>>::empty() =~= a);
        }
    } else {
        law_lists_are_read_in_turn(text, first, second.drop_last());
        assert((first + second).drop_last() =~= first + second.drop_last());
        assert((first + second).last() == second.last());
        if let (Ok(a), Ok(b), Ok(more)) = (
            attrs_of(first),
            attrs_of(second.drop_last()),
            attributes(second.last()),
        ) {
            assert(a + b + more =~= a + (b + more));
        }
        if let (Ok(a), Ok(b), Ok(arg)) = (
            args_of(first),
            args_of(second.drop_last()),
            fn_arg(second.last()),
        ) {
            assert((a + b).push(arg) =~= a + b.push(arg));
        }
    }
}

/// The name that a proxy has from its trait is the last of those that the path of the trait is made of.
pub proof fn law_default_name_is_the_last(item: ImplText<Seq<char>, Seq<Seq<char>>>)
    ensures
        item.trait_text is None ==> default_name(item) == Err::<Seq<char>, Problem<Seq<char>>>(
            Problem::Nameless,
        ),
        item.trait_text matches Some(text) ==> (text.names.len() > 0 ==> default_name(item) == Ok::<
            Seq<char>,
            Problem<Seq<char>>,
        >(quoted(text.names[text.names.len() - 1]))),
{
}

/// A function of a proxy has the visibility, the signature and the attributes of that of the target, and
/// its statements forward the call, with the settings that the function was given and to the parameters
/// that it has.
pub proof fn law_proxy_forwards(
    name: Seq<char>,
    item: ImplText<Seq<char>, Seq<Seq<char>>>,
    text: Seq<char>,
)
    requires
        impl_item_fn(text) is Some,
    ensures
        ({
            let method = impl_item_fn(text)->0;
            match attrs_of(method.attrs) {
                Err(problem) => both_of(name, item, text) matches Err(same) && same == problem,
                Ok(attrs) => match (forward_config_of(attrs), args_of(method.inputs)) {
                    ((Err(problem), _), _) => both_of(name, item, text) matches Err(same) && same
                        == problem,
                    (_, Err(problem)) => both_of(name, item, text) matches Err(same) && same
                        == problem,
                    ((Ok(config), left), Ok(args)) => both_of(name, item, text) matches Ok(both)
                        && both.proxy == fn_text(
                        method,
                        left,
                        forward_text(name, item, method, args, config),
                    ) && both.target == fn_text(method, left, spaced(method.stmts)),
                },
            }
        }),
{
}

/// The items of a block are made one after the other, all of them, for the target and for the proxy.
pub proof fn law_no_item_is_lost(
    name: Seq<char>,
    item: ImplText<Seq<char>, Seq<Seq<char>>>,
    text: Seq<char>,
    first: Seq<Seq<char>>,
    second: Seq<Seq<char>>,
)
    ensures
        all_of(name, item, Seq::empty()) matches Ok(both) && both.target.len() == 0
            && both.proxy.len() == 0,
        both_of(name, item, text) matches Ok(one) ==> (all_of(name, item, seq![text])
            matches Ok(both) && both.target == one.target && both.proxy == one.proxy),
        all_of(name, item, first) is Ok && all_of(name, item, second) is Ok ==> (all_of(
            name,
            item,
            first + second,
        ) matches Ok(both) && both.target == all_of(name, item, first)->Ok_0.target + all_of(
            name,
            item,
            second,
        )->Ok_0.target && both.proxy == all_of(name, item, first)->Ok_0.proxy + all_of(
            name,
            item,
            second,
        )->Ok_0.proxy),
    decreases second.len(),
{
    reveal_with_fuel(all_of, 2);
    assert(seq![text].drop_last() =~= Seq::<Seq<char>>::empty());
    if let Ok(one) = both_of(name, item, text) {
        assert(Seq::<char>::empty() + one.target =~= one.target);
        assert(Seq::<char>::empty() + one.proxy =~= one.proxy);
    }
    if all_of(name, item, first) is Ok && all_of(name, item, second) is Ok {
        let a = all_of(name, item, first)->Ok_0;
        if second.len() == 0 {
            assert(first + second =~= first);
            assert(a.target + Seq::<char>::empty() =~= a.target);
            assert(a.proxy + Seq::<char>::empty() =~= a.proxy);
        } else {
            law_no_item_is_lost(name, item, text, first, second.drop_last());
            assert((first + second).drop_last() =~= first + second.drop_last());
            assert((first + second).last() == second.last());
            let b = all_of(name, item, second.drop_last())->Ok_0;
            let c = both_of(name, item, second.last())->Ok_0;
            assert(a.target + b.target + c.target =~= a.target + (b.target + c.target));
            assert(a.proxy + b.proxy + c.proxy =~= a.proxy + (b.proxy + c.proxy));
        }
    }
}

/// What comes out is the block of the target, for its own type and with its own items, and behind it that
/// of the proxy, for the type of the proxy and with the items of the proxy; both with the attributes of the
/// block.
pub proof fn law_both_blocks_come_out(name: Seq<char>, item: ImplText<Seq<char>, Seq<Seq<char>>>)
    ensures
        match (attrs_of(item.attrs), all_of(name, item, item.items)) {
            (Err(problem), _) => expanded(name, item) matches Err(same) && same == problem,
            (_, Err(problem)) => expanded(name, item) matches Err(same) && same == problem,
            (Ok(attrs), Ok(both)) => expanded(name, item) matches Ok(text) && text == impl_text(
                item,
                attrs,
                item.self_ty,
                both.target,
            ) + impl_text(item, attrs, proxy_type(item.self_ty), both.proxy),
        },
{
}

/// A text of settings and a text of a block that can both be read, and a name that can be had, make what
/// they make, and nothing else.
pub proof fn law_expansion_is_of_its_input(attrs: Seq<char>, input: Seq<char>)
    requires
        proxy_config_in(attrs) is Ok,
        item_impl(input) is Ok,
    ensures
        ({
            let config = proxy_config_in(attrs)->Ok_0;
            let item = item_impl(input)->Ok_0;
            match config.name {
                Some(lit) => expansion(attrs, input) == expanded(lit.token, item),
                None => match default_name(item) {
                    Ok(name) => expansion(attrs, input) == expanded(name, item),
                    Err(problem) => expansion(attrs, input) matches Err(same) && same == problem,
                },
            }
        }),
{
}

/// What comes out is spoken of as it is.
pub proof fn law_results_are_spoken_of_whole(
    text: String,
    problem: Problem<String>,
    target: String,
    proxy: String,
)
    ensures
        result_view(Ok(text)) == Ok::<Seq<char>, Problem<Seq<char>>>(text@),
        result_view(Err(problem)) == Err::<Seq<char>, Problem<Seq<char>>>(problem@),
        both_view(Ok(Both { target, proxy })) matches Ok(both) && both.target == target@ && both.proxy
            == proxy@,
        both_view(Err(problem)) matches Err(same) && same == problem@,
        proxy_view(Err(problem)) matches Err(same) && same == problem@,
        forward_view(Err(problem)) matches Err(same) && same == problem@,
{
}

/// Settings that are read are spoken of as they are.
pub proof fn law_read_settings_are_spoken_of_whole(
    proxy: ProxyConfig<String>,
    config: ForwardConfig<String>,
    taken: Taken<String>,
    settings: Settings<Vec<Option<Value<String>>>>,
    slot: usize,
)
    ensures
        proxy_view(Ok(proxy)) matches Ok(same) && same == proxy@,
        forward_view(Ok(config)) matches Ok(same) && same == config@,
        taken_view(Ok(taken)) matches Ok(same) && same.value == taken.value@ && same.rest
            == taken.rest@ && same.whole == taken.whole,
        named_view(Ok(Some((slot, taken)))) matches Ok(Some((at, same))) && at == slot && same
            == taken@,
        named_view(Ok(None)) matches Ok(same) && same is None,
        settings_view(Ok(settings)) matches Ok(same) && same.values == values_view(settings.values@)
            && same.next == settings.next && same.whole == settings.whole,
{
}

} // verus!
