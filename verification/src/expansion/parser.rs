//! Where settings stand: behind the attribute of a proxy, and in the attributes of its methods.

use vstd::prelude::*;

use super::config::{
    option_value, read_settings, settings_in, unset, values_view, PathSelector, Problem, Schema,
    Value, Values,
};
use super::syntax::{attrs_view, option_text, Attr, LitText, Meta};

verus! {

/// The settings of a proxy.
pub struct ProxyConfig<S> {
    /// Its name.
    pub name: Option<LitText<S>>,
}

/// The settings of a method of a proxy.
pub struct ForwardConfig<S> {
    /// Its server.
    pub server: Option<PathSelector<S>>,
    /// Its thread on that server.
    pub thread: Option<PathSelector<S>>,
    /// Its name on the way.
    pub name: Option<LitText<S>>,
    /// How long it may take.
    pub timeout: Option<S>,
}

/// The string literal `lit`, spoken of.
pub open spec fn option_lit(lit: Option<LitText<String>>) -> Option<LitText<Seq<char>>> {
    match lit {
        Some(lit) => Some(lit@),
        None => None,
    }
}

/// The place `place`, spoken of.
pub open spec fn option_place(place: Option<PathSelector<String>>) -> Option<
    PathSelector<Seq<char>>,
> {
    match place {
        Some(place) => Some(place@),
        None => None,
    }
}

impl View for ProxyConfig<String> {
    type V = ProxyConfig<Seq<char>>;

    open spec fn view(&self) -> ProxyConfig<Seq<char>> {
        ProxyConfig { name: option_lit(self.name) }
    }
}

impl View for ForwardConfig<String> {
    type V = ForwardConfig<Seq<char>>;

    open spec fn view(&self) -> ForwardConfig<Seq<char>> {
        ForwardConfig {
            server: option_place(self.server),
            thread: option_place(self.thread),
            name: option_lit(self.name),
            timeout: option_text(self.timeout),
        }
    }
}

/// The place that a setting is set to.
pub open spec fn place_of(value: Option<Value<Seq<char>>>) -> Option<PathSelector<Seq<char>>> {
    match value {
        Some(Value::Place(place)) => Some(place),
        _ => None,
    }
}

/// The string that a setting is set to.
pub open spec fn lit_of(value: Option<Value<Seq<char>>>) -> Option<LitText<Seq<char>>> {
    match value {
        Some(Value::Text(lit)) => Some(lit),
        _ => None,
    }
}

/// The number that a setting is set to.
pub open spec fn number_of(value: Option<Value<Seq<char>>>) -> Option<Seq<char>> {
    match value {
        Some(Value::Number(number)) => Some(number),
        _ => None,
    }
}

/// The settings of a proxy that are set to `values`.
pub open spec fn proxy_config(values: Values) -> ProxyConfig<Seq<char>> {
    ProxyConfig { name: lit_of(values[0]) }
}

/// The settings of a method that are set to `values`.
pub open spec fn forward_config(values: Values) -> ForwardConfig<Seq<char>> {
    ForwardConfig {
        server: place_of(values[0]),
        thread: place_of(values[1]),
        name: lit_of(values[2]),
        timeout: number_of(values[3]),
    }
}

/// The settings of a proxy in `text`.
pub open spec fn proxy_config_in(text: Seq<char>) -> Result<
    ProxyConfig<Seq<char>>,
    Problem<Seq<char>>,
> {
    match settings_in(Schema::Proxy, text) {
        Ok(values) => Ok(proxy_config(values)),
        Err(problem) => Err(problem),
    }
}

/// The settings of a method in what comes behind the path of its attribute.
pub open spec fn forward_config_in(meta: Meta<Seq<char>>) -> Result<
    ForwardConfig<Seq<char>>,
    Problem<Seq<char>>,
> {
    match meta {
        Meta::Path => Ok(forward_config(unset(Schema::Forward))),
        Meta::NameValue => Err(Problem::Parentheses),
        Meta::List(tokens) => match settings_in(Schema::Forward, tokens) {
            Ok(values) => Ok(forward_config(values)),
            Err(problem) => Err(problem),
        },
    }
}

/// The paths of `attrs`.
pub open spec fn paths(attrs: Seq<Attr<Seq<char>>>) -> Seq<Seq<char>> {
    attrs.map_values(|attr: Attr<Seq<char>>| attr.path)
}

/// The settings of a method with the attributes `attrs`, and the attributes without the one that they
/// stand in: the first called `forward`.
pub open spec fn forward_config_of(attrs: Seq<Attr<Seq<char>>>) -> (
    Result<ForwardConfig<Seq<char>>, Problem<Seq<char>>>,
    Seq<Attr<Seq<char>>>,
) {
    match paths(attrs).index_of_first("forward"@) {
        Some(index) => (forward_config_in(attrs[index].meta), attrs.remove(index)),
        None => (Ok(forward_config(unset(Schema::Forward))), attrs),
    }
}

/// Settings of a proxy or what is wrong, spoken of.
pub open spec fn proxy_view(config: Result<ProxyConfig<String>, Problem<String>>) -> Result<
    ProxyConfig<Seq<char>>,
    Problem<Seq<char>>,
> {
    match config {
        Ok(config) => Ok(config@),
        Err(problem) => Err(problem@),
    }
}

/// Settings of a method or what is wrong, spoken of.
pub open spec fn forward_view(config: Result<ForwardConfig<String>, Problem<String>>) -> Result<
    ForwardConfig<Seq<char>>,
    Problem<Seq<char>>,
> {
    match config {
        Ok(config) => Ok(config@),
        Err(problem) => Err(problem@),
    }
}

fn take_place(value: Option<Value<String>>) -> (place: Option<PathSelector<String>>)
    ensures
        option_place(place) == place_of(option_value(value)),
{
    match value {
        Some(Value::Place(place)) => Some(place),
        _ => None,
    }
}

fn take_lit(value: Option<Value<String>>) -> (lit: Option<LitText<String>>)
    ensures
        option_lit(lit) == lit_of(option_value(value)),
{
    match value {
        Some(Value::Text(lit)) => Some(lit),
        _ => None,
    }
}

fn take_number(value: Option<Value<String>>) -> (number: Option<String>)
    ensures
        option_text(number) == number_of(option_value(value)),
{
    match value {
        Some(Value::Number(number)) => Some(number),
        _ => None,
    }
}

impl ProxyConfig<String> {
    /// The settings that are set to `values`.
    pub fn of(values: Vec<Option<Value<String>>>) -> (config: Self)
        requires
            values@.len() == 1,
        ensures
            config@ == proxy_config(values_view(values@)),
    {
        let mut values = values;
        let ghost all = values@;
        let name = values.pop().unwrap();
        assert(name == all[0]);
        ProxyConfig { name: take_lit(name) }
    }
}

impl ForwardConfig<String> {
    /// Nothing is set.
    pub fn empty() -> (config: Self)
        ensures
            config@ == forward_config(unset(Schema::Forward)),
    {
        ForwardConfig { server: None, thread: None, name: None, timeout: None }
    }

    /// The settings that are set to `values`.
    pub fn of(values: Vec<Option<Value<String>>>) -> (config: Self)
        requires
            values@.len() == 4,
        ensures
            config@ == forward_config(values_view(values@)),
    {
        let mut values = values;
        let ghost all = values@;
        let timeout = values.pop().unwrap();
        let name = values.pop().unwrap();
        let thread = values.pop().unwrap();
        let server = values.pop().unwrap();
        assert(server == all[0] && thread == all[1] && name == all[2] && timeout == all[3]);
        ForwardConfig {
            server: take_place(server),
            thread: take_place(thread),
            name: take_lit(name),
            timeout: take_number(timeout),
        }
    }
}

/// Reads the settings of a proxy in `text`.
pub fn parse_proxy_config(text: &str) -> (config: Result<ProxyConfig<String>, Problem<String>>)
    ensures
        proxy_view(config) == proxy_config_in(text@),
{
    match read_settings(Schema::Proxy, text) {
        Ok(values) => Ok(ProxyConfig::of(values)),
        Err(problem) => Err(problem),
    }
}

/// Takes the attribute that the settings of a method stand in out of `attrs`, and reads them. A method
/// without such an attribute has no settings.
pub fn parse_forward_config(attrs: &mut Vec<Attr<String>>) -> (config: Result<
    ForwardConfig<String>,
    Problem<String>,
>)
    ensures
        (forward_view(config), attrs_view(final(attrs)@)) == forward_config_of(
            attrs_view(old(attrs)@),
        ),
{
    let index = match position(attrs) {
        Some(index) => index,
        None => return Ok(ForwardConfig::empty()),
    };
    proof {
        paths(attrs_view(attrs@)).index_of_first_ensures("forward"@);
    }
    let ghost before = attrs@;
    let forward = attrs.remove(index);
    assert(attrs_view(attrs@) =~= attrs_view(before).remove(index as int));
    assert(forward@ == attrs_view(before)[index as int]);
    match forward.meta {
        Meta::Path => Ok(ForwardConfig::empty()),
        Meta::NameValue => Err(Problem::Parentheses),
        Meta::List(tokens) => match read_settings(Schema::Forward, tokens.as_str()) {
            Ok(values) => Ok(ForwardConfig::of(values)),
            Err(problem) => Err(problem),
        },
    }
}

/// The place of the attribute that settings stand in.
fn position(attrs: &Vec<Attr<String>>) -> (index: Option<usize>)
    ensures
        match index {
            Some(index) => {
                &&& index < attrs@.len()
                &&& paths(attrs_view(attrs@)).index_of_first("forward"@) == Some(index as int)
            },
            None => paths(attrs_view(attrs@)).index_of_first("forward"@) is None,
        },
{
    let ghost all = paths(attrs_view(attrs@));
    proof {
        all.index_of_first_ensures("forward"@);
    }
    let forward = "forward".to_owned();
    let mut index: usize = 0;
    while index < attrs.len()
        invariant
            forward@ == "forward"@,
            all == paths(attrs_view(attrs@)),
            index <= attrs@.len(),
            forall|i: int| 0 <= i < index ==> all[i] != forward@,
            match all.index_of_first(forward@) {
                Some(i) => 0 <= i < all.len() && all[i] == forward@ && forall|j: int|
                    0 <= j < i ==> all[j] != forward@,
                None => !all.contains(forward@),
            },
        decreases attrs@.len() - index,
    {
        assert(all[index as int] == attrs@[index as int].path@);
        if attrs[index].path == forward {
            return Some(index);
        }
        index = index + 1;
    }
    None
}

} // verus!
