//! What holds of all settings, one by one.

use vstd::prelude::*;

use super::config::{
    named_in, next_setting, option_value, place_in, settings_in, unset, value_in, values_view,
    with_named, with_setting, with_settings, with_unnamed, Kind, PathSelector, Problem, Schema,
    Settings, Taken, Value, Values,
};
use super::parser::{
    forward_config, forward_config_in, forward_config_of, option_lit, option_place, proxy_config,
    proxy_config_in, ForwardConfig, ProxyConfig,
};
use super::read::{
    after_comma, after_eq, arg_view, attributes, attributes_view, count_view, fn_view, group_view,
    impl_view, inner_attributes, leading_expr, leading_group, leading_int, leading_path, leading_str,
    lexed, lit_view, outer_attributes, read_view, rest_view, trait_of, trees, without_trait,
};
use super::syntax::{
    args_view, attrs_view, option_text, texts, trait_view, Arg, Attr, FnText, ImplText, LitText, Meta,
    TraitText,
};

verus! {

/// Each setting of a method is that of its own slot and of no other, whatever the others hold.
pub proof fn law_settings_of_a_method_have_their_slots(values: Values, other: Values)
    requires
        values.len() == 4,
        other.len() == 4,
    ensures
        forward_config(values).server == match values[0] {
            Some(Value::Place(place)) => Some(place),
            _ => None,
        },
        forward_config(values).thread == match values[1] {
            Some(Value::Place(place)) => Some(place),
            _ => None,
        },
        forward_config(values).name == match values[2] {
            Some(Value::Text(lit)) => Some(lit),
            _ => None,
        },
        forward_config(values).timeout == match values[3] {
            Some(Value::Number(number)) => Some(number),
            _ => None,
        },
        values[0] == other[0] ==> forward_config(values).server == forward_config(other).server,
        values[1] == other[1] ==> forward_config(values).thread == forward_config(other).thread,
        values[2] == other[2] ==> forward_config(values).name == forward_config(other).name,
        values[3] == other[3] ==> forward_config(values).timeout == forward_config(other).timeout,
{
}

/// The name of a proxy is that of its slot.
pub proof fn law_setting_of_a_proxy_has_its_slot(values: Values)
    requires
        values.len() == 1,
    ensures
        proxy_config(values).name == match values[0] {
            Some(Value::Text(lit)) => Some(lit),
            _ => None,
        },
{
}

/// A method has a server, a thread, a name and a timeout to be set, in this order; the first two are places
/// and may go without their names. A proxy has its name alone, which may go without.
pub proof fn law_settings_are_these(name: Seq<char>)
    ensures
        Schema::Forward.slot_of("server"@) == Some(0int),
        Schema::Forward.slot_of("thread"@) == Some(1int),
        Schema::Forward.slot_of("name"@) == Some(2int),
        Schema::Forward.slot_of("timeout"@) == Some(3int),
        name != "server"@ && name != "thread"@ && name != "name"@ && name != "timeout"@
            ==> Schema::Forward.slot_of(name) is None,
        Schema::Forward.kind_of(0) == Kind::Place,
        Schema::Forward.kind_of(1) == Kind::Place,
        Schema::Forward.kind_of(2) == Kind::Text,
        Schema::Forward.kind_of(3) == Kind::Number,
        Schema::Forward.unnamed() == 2,
        Schema::Forward.names().len() == 4,
        Schema::Proxy.slot_of("name"@) == Some(0int),
        name != "name"@ ==> Schema::Proxy.slot_of(name) is None,
        Schema::Proxy.kind_of(0) == Kind::Text,
        Schema::Proxy.unnamed() == 1,
        Schema::Proxy.names().len() == 1,
{
    reveal_strlit("server");
    reveal_strlit("thread");
    reveal_strlit("name");
    reveal_strlit("timeout");
    assert("server"@[0] != "thread"@[0]);
    assert("server"@[0] != "name"@[0]);
    assert("thread"@[0] != "name"@[0]);
    assert("timeout"@[0] != "name"@[0]);
    assert("timeout"@[0] != "server"@[0]);
    assert("timeout"@[1] != "thread"@[1]);
    let names = Schema::Forward.names();
    names.index_of_first_ensures("server"@);
    names.index_of_first_ensures("thread"@);
    names.index_of_first_ensures("name"@);
    names.index_of_first_ensures("timeout"@);
    names.index_of_first_ensures(name);
    assert(names[0] == "server"@ && names[1] == "thread"@ && names[2] == "name"@ && names[3]
        == "timeout"@);
    Schema::Proxy.names().index_of_first_ensures("name"@);
    Schema::Proxy.names().index_of_first_ensures(name);
    assert(Schema::Proxy.names()[0] == "name"@);
}

/// No setting is set until one is given.
pub proof fn law_unset_is_unset(schema: Schema, slot: int)
    requires
        0 <= slot < schema.names().len(),
    ensures
        unset(schema).len() == schema.names().len(),
        unset(schema)[slot] is None,
{
}

/// A place is a path, and then, in parentheses, an expression, if they hold any tokens. What the
/// parentheses hold behind the expression is left over, and what stands behind them is what is left.
pub proof fn law_place_is_read(text: Seq<char>)
    ensures
        leading_path(text) matches Err(message) ==> place_in(text) == Err::<
            Taken<Seq<char>>,
            Problem<Seq<char>>,
        >(Problem::Syntax(message)),
        leading_path(text) matches Ok((path, rest)) ==> match leading_group(rest) {
            None => place_in(text) matches Ok(taken) && taken.value == Value::Place(
                PathSelector { path, selector: None },
            ) && taken.rest == rest && taken.whole,
            Some((content, behind)) => if lexed(content) == Ok::<nat, Seq<char>>(0) {
                place_in(text) matches Ok(taken) && taken.value == Value::Place(
                    PathSelector { path, selector: None },
                ) && taken.rest == behind && taken.whole
            } else {
                match leading_expr(content) {
                    Err(message) => place_in(text) == Err::<Taken<Seq<char>>, Problem<Seq<char>>>(
                        Problem::Selector(message),
                    ),
                    Ok((expr, left)) => place_in(text) matches Ok(taken) && taken.value
                        == Value::Place(PathSelector { path, selector: Some(expr) }) && taken.rest
                        == behind && taken.whole == (lexed(left) == Ok::<nat, Seq<char>>(0)),
                }
            },
        },
{
}

/// A string and a number are read as such; `None` is no number, and anything else is refused.
pub proof fn law_values_are_read(text: Seq<char>)
    ensures
        value_in(Kind::Place, text) == place_in(text),
        match leading_str(text) {
            Ok((lit, rest)) => value_in(Kind::Text, text) matches Ok(taken) && taken.value
                == Value::Text(lit) && taken.rest == rest && taken.whole,
            Err(message) => value_in(Kind::Text, text) == Err::<
                Taken<Seq<char>>,
                Problem<Seq<char>>,
            >(Problem::Syntax(message)),
        },
        leading_path(text) matches Ok((path, rest)) ==> (path == "None"@ ==> (value_in(
            Kind::Number,
            text,
        ) matches Ok(taken) && taken.value is NoNumber && taken.rest == rest && taken.whole)),
        !(leading_path(text) matches Ok((path, _)) && path == "None"@) ==> match leading_int(text) {
            Ok((number, rest)) => value_in(Kind::Number, text) matches Ok(taken) && taken.value
                == Value::Number(number) && taken.rest == rest && taken.whole,
            Err(message) => value_in(Kind::Number, text) == Err::<
                Taken<Seq<char>>,
                Problem<Seq<char>>,
            >(Problem::Syntax(message)),
        },
{
}

/// A setting is named where the name of one stands before an equals sign, and then its value stands
/// behind it.
pub proof fn law_named_settings_are_read(schema: Schema, text: Seq<char>)
    ensures
        leading_path(text) matches Err(message) ==> (named_in(schema, text) matches Err(problem)
            && problem == Problem::Syntax(message)),
        leading_path(text) matches Ok((path, rest)) ==> {
            &&& after_eq(rest) is None || schema.slot_of(path) is None ==> (named_in(schema, text)
                matches Ok(named) && named is None)
            &&& after_eq(rest) is Some && schema.slot_of(path) is Some ==> match value_in(
                schema.kind_of(schema.slot_of(path)->0),
                after_eq(rest)->0,
            ) {
                Err(problem) => named_in(schema, text) matches Err(same) && same == problem,
                Ok(taken) => named_in(schema, text) matches Ok(Some((slot, same))) && slot
                    == schema.slot_of(path)->0 && same == taken,
            }
        },
{
}

/// A setting that is given changes its own slot, and no other, to what was read. One that is named is set
/// once; after it all have to be named. One without its name leaves the turn to the next that may go
/// without.
pub proof fn law_setting_changes_its_slot(
    schema: Schema,
    before: Settings<Values>,
    slot: usize,
    other: int,
    taken: Taken<Seq<char>>,
)
    requires
        slot < before.values.len(),
        0 <= other < before.values.len(),
        other != slot,
    ensures
        before.values[slot as int] is Some ==> with_named(before, slot as int, taken) == Err::<
            Settings<Values>,
            Problem<Seq<char>>,
        >(Problem::Duplicated),
        before.values[slot as int] is None ==> (with_named(before, slot as int, taken)
            matches Ok(after) && after.values[slot as int] == Some(taken.value)
            && after.values[other] == before.values[other] && after.values.len()
            == before.values.len() && after.next is None && after.whole == (before.whole
            && taken.whole)),
        ({
            let after = with_unnamed(schema, before, slot, taken);
            &&& after.values[slot as int] == Some(taken.value)
            &&& after.values[other] == before.values[other]
            &&& after.values.len() == before.values.len()
            &&& after.whole == (before.whole && taken.whole)
            &&& slot + 1 < schema.unnamed() ==> after.next == Some((slot + 1) as usize)
            &&& slot + 1 >= schema.unnamed() ==> after.next is None
        }),
{
}

/// A setting is set by its name if it has one, and otherwise it is the one whose turn it is. What stands
/// behind its value is left.
pub proof fn law_setting_is_read(schema: Schema, before: Settings<Values>, text: Seq<char>)
    ensures
        match named_in(schema, text) {
            Err(problem) => with_setting(schema, before, text) matches Err(same) && same == problem,
            Ok(Some((slot, taken))) => match with_named(before, slot, taken) {
                Err(problem) => with_setting(schema, before, text) matches Err(same) && same
                    == problem,
                Ok(after) => with_setting(schema, before, text) matches Ok((same, rest)) && same
                    == after && rest == taken.rest,
            },
            Ok(None) => match before.next {
                None => with_setting(schema, before, text) matches Err(same) && same
                    == Problem::<Seq<char>>::Unknown(schema),
                Some(slot) => match value_in(schema.kind_of(slot as int), text) {
                    Err(problem) => with_setting(schema, before, text) matches Err(same) && same
                        == problem,
                    Ok(taken) => with_setting(schema, before, text) matches Ok((same, rest)) && same
                        == with_unnamed(schema, before, slot, taken) && rest == taken.rest,
                },
            },
        },
{
}

/// Behind a setting comes nothing, or a comma and then nothing or another setting.
pub proof fn law_settings_are_parted_by_commas(text: Seq<char>)
    ensures
        match lexed(text) {
            Err(message) => next_setting(text) matches Err(same) && same == Problem::Syntax(message),
            Ok(count) => {
                &&& count == 0 ==> (next_setting(text) matches Ok(next) && next is None)
                &&& count > 0 ==> match after_comma(text) {
                    Err(message) => next_setting(text) matches Err(same) && same
                        == Problem::Syntax(message),
                    Ok(rest) => match lexed(rest) {
                        Err(message) => next_setting(text) matches Err(same) && same
                            == Problem::Syntax(message),
                        Ok(more) => next_setting(text) matches Ok(next) && if more == 0 {
                            next is None
                        } else {
                            next == Some(rest)
                        },
                    },
                }
            },
        },
{
}

/// Settings are read one after the other, each with what those before it have set; what is wrong with one
/// is wrong with all.
pub proof fn law_settings_are_read_in_turn(
    schema: Schema,
    before: Settings<Values>,
    text: Seq<char>,
)
    ensures
        match with_setting(schema, before, text) {
            Err(problem) => with_settings(schema, before, text) matches Err(same) && same == problem,
            Ok((after, rest)) => match next_setting(rest) {
                Err(problem) => with_settings(schema, before, text) matches Err(same) && same
                    == problem,
                Ok(None) => with_settings(schema, before, text) matches Ok(same) && same == after,
                Ok(Some(next)) => trees(next) < trees(text) ==> with_settings(schema, before, text)
                    == with_settings(schema, after, next),
            },
        },
{
}

/// All settings in a text are what is read of them from the first on, with nothing left over.
pub proof fn law_all_settings_are_read(schema: Schema, text: Seq<char>)
    ensures
        ({
            let none = Settings { values: unset(schema), next: Some(0usize), whole: true };
            match lexed(text) {
                Err(message) => settings_in(schema, text) matches Err(same) && same
                    == Problem::Syntax(message),
                Ok(count) => {
                    &&& count == 0 ==> (settings_in(schema, text) matches Ok(values) && values
                        == unset(schema))
                    &&& count > 0 ==> match with_settings(schema, none, text) {
                        Err(problem) => settings_in(schema, text) matches Err(same) && same
                            == problem,
                        Ok(after) => {
                            &&& after.whole ==> (settings_in(schema, text) matches Ok(values)
                                && values == after.values)
                            &&& !after.whole ==> (settings_in(schema, text) matches Err(same) && same
                                == Problem::<Seq<char>>::Unexpected)
                        },
                    }
                },
            }
        }),
{
}

/// A proxy has the settings that stand behind its attribute.
pub proof fn law_proxy_has_its_settings(text: Seq<char>)
    ensures
        match settings_in(Schema::Proxy, text) {
            Ok(values) => proxy_config_in(text) matches Ok(config) && config == proxy_config(values),
            Err(problem) => proxy_config_in(text) matches Err(same) && same == problem,
        },
{
}

/// A method has the settings that stand in the parentheses of its attribute. Without parentheses it has
/// none, and an equals sign is refused.
pub proof fn law_method_has_its_settings(tokens: Seq<char>)
    ensures
        match settings_in(Schema::Forward, tokens) {
            Ok(values) => forward_config_in(Meta::List(tokens)) matches Ok(config) && config
                == forward_config(values),
            Err(problem) => forward_config_in(Meta::List(tokens)) matches Err(same) && same == problem,
        },
        forward_config_in(Meta::Path) matches Ok(config) && config.server is None && config.thread
            is None && config.name is None && config.timeout is None,
        forward_config_in(Meta::NameValue) matches Err(problem) && problem
            == Problem::<Seq<char>>::Parentheses,
{
}

/// The settings of a method are those in the first of its attributes that is called `forward`.
pub proof fn law_first_attribute_counts(attrs: Seq<Attr<Seq<char>>>, index: int)
    requires
        0 <= index < attrs.len(),
        attrs[index].path == "forward"@,
        forall|i: int| 0 <= i < index ==> (#[trigger] attrs[i]).path != "forward"@,
    ensures
        forward_config_of(attrs).0 == forward_config_in(attrs[index].meta),
        forward_config_of(attrs).1 == attrs.take(index) + attrs.skip(index + 1),
{
    let paths = super::parser::paths(attrs);
    paths.index_of_first_ensures("forward"@);
    assert(paths[index] == attrs[index].path);
    assert forall|i: int| 0 <= i < index implies paths[i] != "forward"@ by {
        assert(paths[i] == attrs[i].path);
    }
    assert(paths.index_of_first("forward"@) == Some(index));
    assert(attrs.remove(index) =~= attrs.take(index) + attrs.skip(index + 1));
}

/// An attribute that can be read as one that stands outside is one, and otherwise it is read as one that
/// stands inside.
pub proof fn law_attributes_are_read(text: Seq<char>)
    ensures
        outer_attributes(text) is Ok ==> attributes(text) == outer_attributes(text),
        outer_attributes(text) is Err ==> attributes(text) == inner_attributes(text),
{
}

/// A text that may be there, spoken of.
pub open spec fn text_of(string: Option<String>) -> Option<Seq<char>> {
    match string {
        Some(string) => Some(string@),
        None => None,
    }
}

/// Settings are spoken of with all that they hold.
pub proof fn law_settings_are_spoken_of_whole(
    place: PathSelector<String>,
    lit: LitText<String>,
    number: String,
    config: ForwardConfig<String>,
    proxy: ProxyConfig<String>,
)
    ensures
        place@.path == place.path@,
        place@.selector == text_of(place.selector),
        lit@.token == lit.token@,
        lit@.value == lit.value@,
        Value::Place(place)@ == Value::Place(place@),
        Value::Text(lit)@ == Value::Text(lit@),
        Value::Number(number)@ == Value::Number(number@),
        Value::<String>::NoNumber@ == Value::<Seq<char>>::NoNumber,
        option_place(Some(place)) == Some(place@),
        option_place(None) is None,
        option_lit(Some(lit)) == Some(lit@),
        option_lit(None) is None,
        option_text(Some(number)) == Some(number@),
        option_text(None) is None,
        config@.server == option_place(config.server),
        config@.thread == option_place(config.thread),
        config@.name == option_lit(config.name),
        config@.timeout == text_of(config.timeout),
        proxy@.name == option_lit(proxy.name),
{
}

/// The values of settings are spoken of one by one.
pub proof fn law_values_are_spoken_of_whole(values: Seq<Option<Value<String>>>, slot: int)
    requires
        0 <= slot < values.len(),
    ensures
        values_view(values).len() == values.len(),
        values_view(values)[slot] == match values[slot] {
            Some(value) => Some(value@),
            None => None,
        },
        values_view(values)[slot] == option_value(values[slot]),
{
}

/// What is wrong is spoken of as it is.
pub proof fn law_problems_are_spoken_of_whole(message: String, schema: Schema)
    ensures
        Problem::Syntax(message)@ == Problem::Syntax(message@),
        Problem::Selector(message)@ == Problem::Selector(message@),
        Problem::<String>::Unexpected@ == Problem::<Seq<char>>::Unexpected,
        Problem::<String>::Duplicated@ == Problem::<Seq<char>>::Duplicated,
        Problem::<String>::Unknown(schema)@ == Problem::<Seq<char>>::Unknown(schema),
        Problem::<String>::Parentheses@ == Problem::<Seq<char>>::Parentheses,
        Problem::<String>::Nameless@ == Problem::<Seq<char>>::Nameless,
{
}

/// What is read of a block is spoken of with all that it holds.
pub proof fn law_blocks_are_spoken_of_whole(
    item: ImplText<String, Vec<String>>,
    text: TraitText<String, Vec<String>>,
    method: FnText<String, Vec<String>>,
)
    ensures
        item@.attrs == texts(item.attrs@),
        item@.defaultness == item.defaultness@,
        item@.unsafety == item.unsafety@,
        item@.generics == item.generics@,
        item.trait_text is None <==> item@.trait_text is None,
        item.trait_text is Some ==> item@.trait_text->0 == item.trait_text->0@,
        item@.self_ty == item.self_ty@,
        item@.where_clause == item.where_clause@,
        item@.items == texts(item.items@),
        text@.polarity == text.polarity@,
        text@.path == text.path@,
        text@.names == texts(text.names@),
        method@.attrs == texts(method.attrs@),
        method@.vis == method.vis@,
        method@.defaultness == method.defaultness@,
        method@.sig == method.sig@,
        method@.name == method.name@,
        method@.is_async == method.is_async,
        method@.inputs == texts(method.inputs@),
        method@.stmts == texts(method.stmts@),
{
}

/// Attributes and parameters are spoken of with all that they hold.
pub proof fn law_attributes_are_spoken_of_whole(
    attr: Attr<String>,
    tokens: String,
    pat: String,
    name: Option<String>,
    ty: String,
    is_mut: bool,
)
    ensures
        attr@.text == attr.text@,
        attr@.path == attr.path@,
        attr@.is_inner == attr.is_inner,
        attr@.meta == attr.meta@,
        Meta::<String>::Path@ == Meta::<Seq<char>>::Path,
        Meta::<String>::NameValue@ == Meta::<Seq<char>>::NameValue,
        Meta::List(tokens)@ == Meta::List(tokens@),
        (Arg::Receiver { ty, is_mut })@ == (Arg::Receiver { ty: ty@, is_mut }),
        (Arg::Typed { pat, name, ty })@ == (Arg::Typed { pat: pat@, name: text_of(name), ty: ty@ }),
{
}

/// Lists are spoken of one by one.
pub proof fn law_lists_are_spoken_of_whole(
    strings: Seq<String>,
    attrs: Seq<Attr<String>>,
    args: Seq<Arg<String>>,
    at: int,
)
    ensures
        texts(strings).len() == strings.len(),
        attrs_view(attrs).len() == attrs.len(),
        args_view(args).len() == args.len(),
        0 <= at < strings.len() ==> texts(strings)[at] == strings[at]@,
        0 <= at < attrs.len() ==> attrs_view(attrs)[at] == attrs[at]@,
        0 <= at < args.len() ==> args_view(args)[at] == args[at]@,
{
}

/// What is read at the beginning of a text, and what is left of it, are spoken of as they are, and so is
/// what is wrong.
pub proof fn law_readings_are_spoken_of_whole(
    first: String,
    rest: String,
    message: String,
    lit: LitText<String>,
    count: usize,
)
    ensures
        read_view(Ok((first, rest))) matches Ok(read) && read.0 == first@ && read.1 == rest@,
        read_view(Err(message)) matches Err(same) && same == message@,
        rest_view(Ok(rest)) matches Ok(same) && same == rest@,
        rest_view(Err(message)) matches Err(same) && same == message@,
        group_view(Some((first, rest))) matches Some(read) && read.0 == first@ && read.1 == rest@,
        group_view(None) is None,
        lit_view(Ok((lit, rest))) matches Ok(read) && read.0 == lit@ && read.1 == rest@,
        lit_view(Err(message)) matches Err(same) && same == message@,
        count_view(Ok(count)) matches Ok(same) && same == count,
        count_view(Err(message)) matches Err(same) && same == message@,
{
}

/// What is read of a block and of what it holds is spoken of as it is, and so is what is wrong.
pub proof fn law_parts_are_spoken_of_whole(
    item: ImplText<String, Vec<String>>,
    text: TraitText<String, Vec<String>>,
    method: FnText<String, Vec<String>>,
    arg: Arg<String>,
    attrs: Vec<Attr<String>>,
    message: String,
)
    ensures
        impl_view(Ok(item)) matches Ok(same) && same == item@,
        impl_view(Err(message)) matches Err(same) && same == message@,
        trait_view(Some(text)) == Some(text@),
        trait_view(None) is None,
        fn_view(Some(method)) == Some(method@),
        fn_view(None) is None,
        arg_view(Ok(arg)) matches Ok(same) && same == arg@,
        arg_view(Err(message)) matches Err(same) && same == message@,
        attributes_view(Ok(attrs)) matches Ok(same) && same == attrs_view(attrs@),
        attributes_view(Err(message)) matches Err(same) && same == message@,
{
}

/// A block is what is read of it without its trait, and its trait.
pub proof fn law_block_is_read_in_two_parts(
    read: Result<ImplText<Seq<char>, Seq<Seq<char>>>, Seq<char>>,
)
    ensures
        match read {
            Ok(item) => {
                &&& without_trait(read) matches Ok(same) && same.trait_text is None && (ImplText {
                    trait_text: item.trait_text,
                    ..same
                }) == item
                &&& trait_of(read) == item.trait_text
            },
            Err(message) => {
                &&& without_trait(read) matches Err(same) && same == message
                &&& trait_of(read) is None
            },
        },
{
}

/// A text is made of as many token trees as are counted in it, and one that is not made of tokens of none.
pub proof fn law_trees_are_counted(text: Seq<char>)
    ensures
        lexed(text) matches Ok(count) ==> trees(text) == count,
        lexed(text) is Err ==> trees(text) == 0,
{
}

} // verus!
