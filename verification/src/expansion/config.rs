//! The settings of a proxy and of its methods.
//!
//! ```text
//! settings = [ setting { "," setting } [ "," ] ]
//! setting  = name "=" value | value
//! ```
//!
//! The first settings of a kind may go without their names, in their order, until one is named.

use vstd::prelude::*;

use super::read::{
    after_comma, after_eq, count_trees, leading_expr, leading_group, leading_int, leading_path,
    leading_str, lexed, read_expr, read_group, read_int, read_path, read_str, skip_comma, skip_eq,
    trees,
};
use super::syntax::{option_text, LitText};

verus! {

/// A kind of place, and what is to choose one of them: `Path` or `Path(expression)`.
pub struct PathSelector<S> {
    /// The kind.
    pub path: S,
    /// The choice.
    pub selector: Option<S>,
}

impl View for PathSelector<String> {
    type V = PathSelector<Seq<char>>;

    open spec fn view(&self) -> PathSelector<Seq<char>> {
        PathSelector { path: self.path@, selector: option_text(self.selector) }
    }
}

/// What is wrong with settings, or with what they are for.
pub enum Problem<S> {
    /// It does not read as what it has to be, for this reason.
    Syntax(S),
    /// A selector does not read as an expression, for this reason.
    Selector(S),
    /// There is more in the parentheses of a selector than an expression.
    Unexpected,
    /// A setting is given twice.
    Duplicated,
    /// A name is none of these settings'.
    Unknown(Schema),
    /// Settings stand behind an equals sign.
    Parentheses,
    /// A proxy has no name, and no trait to have it from.
    Nameless,
}

impl View for Problem<String> {
    type V = Problem<Seq<char>>;

    open spec fn view(&self) -> Problem<Seq<char>> {
        match *self {
            Problem::Syntax(message) => Problem::Syntax(message@),
            Problem::Selector(message) => Problem::Selector(message@),
            Problem::Unexpected => Problem::Unexpected,
            Problem::Duplicated => Problem::Duplicated,
            Problem::Unknown(schema) => Problem::Unknown(schema),
            Problem::Parentheses => Problem::Parentheses,
            Problem::Nameless => Problem::Nameless,
        }
    }
}

/// What a setting can be set to.
pub enum Value<S> {
    /// A place.
    Place(PathSelector<S>),
    /// A string.
    Text(LitText<S>),
    /// A number.
    Number(S),
    /// No number.
    NoNumber,
}

impl View for Value<String> {
    type V = Value<Seq<char>>;

    open spec fn view(&self) -> Value<Seq<char>> {
        match *self {
            Value::Place(place) => Value::Place(place@),
            Value::Text(lit) => Value::Text(lit@),
            Value::Number(number) => Value::Number(number@),
            Value::NoNumber => Value::NoNumber,
        }
    }
}

/// Which of these a setting is set to.
#[derive(Clone, Copy, PartialEq, Eq, Structural)]
pub enum Kind {
    /// A place.
    Place,
    /// A string.
    Text,
    /// A number, or `None`.
    Number,
}

/// The settings that there are.
#[derive(Clone, Copy, PartialEq, Eq, Structural)]
pub enum Schema {
    /// Those of a proxy.
    Proxy,
    /// Those of one of its methods.
    Forward,
}

impl Schema {
    /// The names of the settings. They are known by their places in this list.
    pub open spec fn names(self) -> Seq<Seq<char>> {
        match self {
            Schema::Proxy => seq!["name"@],
            Schema::Forward => seq!["server"@, "thread"@, "name"@, "timeout"@],
        }
    }

    /// What the setting `slot` is set to.
    pub open spec fn kind_of(self, slot: int) -> Kind {
        match self {
            Schema::Proxy => Kind::Text,
            Schema::Forward => if slot < 2 {
                Kind::Place
            } else if slot == 2 {
                Kind::Text
            } else {
                Kind::Number
            },
        }
    }

    /// How many settings may go without their names.
    pub open spec fn unnamed(self) -> nat {
        match self {
            Schema::Proxy => 1,
            Schema::Forward => 2,
        }
    }

    /// The setting called `name`.
    pub open spec fn slot_of(self, name: Seq<char>) -> Option<int> {
        self.names().index_of_first(name)
    }

    /// How many settings there are.
    pub fn count(self) -> (count: usize)
        ensures
            count == self.names().len(),
    {
        match self {
            Schema::Proxy => 1,
            Schema::Forward => 4,
        }
    }

    /// How many settings may go without their names.
    pub fn unnamed_count(self) -> (count: usize)
        ensures
            count == self.unnamed(),
    {
        match self {
            Schema::Proxy => 1,
            Schema::Forward => 2,
        }
    }

    /// The name of the setting `slot`.
    pub fn name(self, slot: usize) -> (name: &'static str)
        requires
            slot < self.names().len(),
        ensures
            name@ == self.names()[slot as int],
    {
        match self {
            Schema::Proxy => "name",
            Schema::Forward => if slot == 0 {
                "server"
            } else if slot == 1 {
                "thread"
            } else if slot == 2 {
                "name"
            } else {
                "timeout"
            },
        }
    }

    /// What the setting `slot` is set to.
    pub fn kind(self, slot: usize) -> (kind: Kind)
        ensures
            kind == self.kind_of(slot as int),
    {
        match self {
            Schema::Proxy => Kind::Text,
            Schema::Forward => if slot < 2 {
                Kind::Place
            } else if slot == 2 {
                Kind::Text
            } else {
                Kind::Number
            },
        }
    }

    /// The setting called `name`.
    pub fn find(self, name: &str) -> (slot: Option<usize>)
        ensures
            match slot {
                Some(slot) => self.slot_of(name@) == Some(slot as int),
                None => self.slot_of(name@) is None,
            },
    {
        proof {
            self.names().index_of_first_ensures(name@);
        }
        let wanted = name.to_owned();
        let mut slot: usize = 0;
        while slot < self.count()
            invariant
                wanted@ == name@,
                slot <= self.names().len(),
                forall|i: int| 0 <= i < slot ==> self.names()[i] != name@,
                match self.slot_of(name@) {
                    Some(i) => 0 <= i < self.names().len() && self.names()[i] == name@
                        && forall|j: int| 0 <= j < i ==> self.names()[j] != name@,
                    None => !self.names().contains(name@),
                },
            decreases self.names().len() - slot,
        {
            if self.name(slot).to_owned() == wanted {
                assert(self.names()[slot as int] == name@);
                return Some(slot);
            }
            slot = slot + 1;
        }
        None
    }
}

/// What is read of a value: the value, the text behind it, and whether all of it was read.
pub struct Taken<S> {
    /// The value.
    pub value: Value<S>,
    /// What is left.
    pub rest: S,
    /// Whether nothing in it was left over.
    pub whole: bool,
}

/// The place that `text` begins with.
pub open spec fn place_in(text: Seq<char>) -> Result<Taken<Seq<char>>, Problem<Seq<char>>> {
    match leading_path(text) {
        Err(message) => Err(Problem::Syntax(message)),
        Ok((path, rest)) => match leading_group(rest) {
            None => Ok(
                Taken { value: Value::Place(PathSelector { path, selector: None }), rest, whole: true },
            ),
            Some((content, rest)) => if lexed(content) == Ok::<nat, Seq<char>>(0) {
                Ok(
                    Taken {
                        value: Value::Place(PathSelector { path, selector: None }),
                        rest,
                        whole: true,
                    },
                )
            } else {
                match leading_expr(content) {
                    Err(message) => Err(Problem::Selector(message)),
                    Ok((expr, left)) => Ok(
                        Taken {
                            value: Value::Place(PathSelector { path, selector: Some(expr) }),
                            rest,
                            whole: lexed(left) == Ok::<nat, Seq<char>>(0),
                        },
                    ),
                }
            },
        },
    }
}

/// The value of the kind `kind` that `text` begins with.
pub open spec fn value_in(kind: Kind, text: Seq<char>) -> Result<
    Taken<Seq<char>>,
    Problem<Seq<char>>,
> {
    match kind {
        Kind::Place => place_in(text),
        Kind::Text => match leading_str(text) {
            Err(message) => Err(Problem::Syntax(message)),
            Ok((lit, rest)) => Ok(Taken { value: Value::Text(lit), rest, whole: true }),
        },
        Kind::Number => if leading_path(text) is Ok && leading_path(text)->Ok_0.0 == "None"@ {
            Ok(Taken { value: Value::NoNumber, rest: leading_path(text)->Ok_0.1, whole: true })
        } else {
            match leading_int(text) {
                Err(message) => Err(Problem::Syntax(message)),
                Ok((number, rest)) => Ok(Taken { value: Value::Number(number), rest, whole: true }),
            }
        },
    }
}

/// The named setting that `text` begins with, if it begins with one: which, and its value.
pub open spec fn named_in(schema: Schema, text: Seq<char>) -> Result<
    Option<(int, Taken<Seq<char>>)>,
    Problem<Seq<char>>,
> {
    match leading_path(text) {
        Err(message) => Err(Problem::Syntax(message)),
        Ok((path, rest)) => match (after_eq(rest), schema.slot_of(path)) {
            (Some(rest), Some(slot)) => match value_in(schema.kind_of(slot), rest) {
                Err(problem) => Err(problem),
                Ok(taken) => Ok(Some((slot, taken))),
            },
            _ => Ok(None),
        },
    }
}

/// Settings, as far as they have been read.
pub struct Settings<L> {
    /// What each is set to.
    pub values: L,
    /// The one that may come next without its name.
    pub next: Option<usize>,
    /// Whether nothing in what was read was left over.
    pub whole: bool,
}

/// What settings are set to, spoken of.
pub type Values = Seq<Option<Value<Seq<char>>>>;

/// No setting is set.
pub open spec fn unset(schema: Schema) -> Values {
    Seq::new(schema.names().len(), |slot: int| None)
}

/// The settings `before` after the setting `slot` was named. Each may be named once.
pub open spec fn with_named(
    before: Settings<Values>,
    slot: int,
    taken: Taken<Seq<char>>,
) -> Result<Settings<Values>, Problem<Seq<char>>> {
    if before.values[slot] is Some {
        Err(Problem::Duplicated)
    } else {
        Ok(
            Settings {
                values: before.values.update(slot, Some(taken.value)),
                next: None,
                whole: before.whole && taken.whole,
            },
        )
    }
}

/// The settings `before` after the setting `slot` was given without its name.
pub open spec fn with_unnamed(
    schema: Schema,
    before: Settings<Values>,
    slot: usize,
    taken: Taken<Seq<char>>,
) -> Settings<Values> {
    Settings {
        values: before.values.update(slot as int, Some(taken.value)),
        next: if slot + 1 < schema.unnamed() {
            Some((slot + 1) as usize)
        } else {
            None
        },
        whole: before.whole && taken.whole,
    }
}

/// The settings `before` after the setting that `text` begins with, and what is left of `text`.
pub open spec fn with_setting(schema: Schema, before: Settings<Values>, text: Seq<char>) -> Result<
    (Settings<Values>, Seq<char>),
    Problem<Seq<char>>,
> {
    match named_in(schema, text) {
        Err(problem) => Err(problem),
        Ok(Some((slot, taken))) => match with_named(before, slot, taken) {
            Err(problem) => Err(problem),
            Ok(after) => Ok((after, taken.rest)),
        },
        Ok(None) => match before.next {
            None => Err(Problem::Unknown(schema)),
            Some(slot) => match value_in(schema.kind_of(slot as int), text) {
                Err(problem) => Err(problem),
                Ok(taken) => Ok((with_unnamed(schema, before, slot, taken), taken.rest)),
            },
        },
    }
}

/// What is left of `text`, which is behind a setting: nothing, or another setting behind a comma.
pub open spec fn next_setting(text: Seq<char>) -> Result<Option<Seq<char>>, Problem<Seq<char>>> {
    match lexed(text) {
        Err(message) => Err(Problem::Syntax(message)),
        Ok(count) => if count == 0 {
            Ok(None)
        } else {
            match after_comma(text) {
                Err(message) => Err(Problem::Syntax(message)),
                Ok(rest) => match lexed(rest) {
                    Err(message) => Err(Problem::Syntax(message)),
                    Ok(count) => if count == 0 {
                        Ok(None)
                    } else {
                        Ok(Some(rest))
                    },
                },
            }
        },
    }
}

/// The settings `before` after all settings in `text`, which has one at least. Each of them takes a
/// token at least.
pub open spec fn with_settings(schema: Schema, before: Settings<Values>, text: Seq<char>) -> Result<
    Settings<Values>,
    Problem<Seq<char>>,
>
    decreases trees(text),
{
    match with_setting(schema, before, text) {
        Err(problem) => Err(problem),
        Ok((after, rest)) => match next_setting(rest) {
            Err(problem) => Err(problem),
            Ok(None) => Ok(after),
            Ok(Some(rest)) => if trees(rest) < trees(text) {
                with_settings(schema, after, rest)
            } else {
                Ok(after)
            },
        },
    }
}

/// What the settings in `text` are set to.
pub open spec fn settings_in(schema: Schema, text: Seq<char>) -> Result<Values, Problem<Seq<char>>> {
    match lexed(text) {
        Err(message) => Err(Problem::Syntax(message)),
        Ok(count) => if count == 0 {
            Ok(unset(schema))
        } else {
            match with_settings(
                schema,
                Settings { values: unset(schema), next: Some(0), whole: true },
                text,
            ) {
                Err(problem) => Err(problem),
                Ok(after) => if after.whole {
                    Ok(after.values)
                } else {
                    Err(Problem::Unexpected)
                },
            }
        },
    }
}

impl View for Taken<String> {
    type V = Taken<Seq<char>>;

    open spec fn view(&self) -> Taken<Seq<char>> {
        Taken { value: self.value@, rest: self.rest@, whole: self.whole }
    }
}

/// The value `value`, spoken of.
pub open spec fn option_value(value: Option<Value<String>>) -> Option<Value<Seq<char>>> {
    match value {
        Some(value) => Some(value@),
        None => None,
    }
}

/// The values `values`, spoken of.
pub open spec fn values_view(values: Seq<Option<Value<String>>>) -> Values {
    values.map_values(|value: Option<Value<String>>| option_value(value))
}

impl View for Settings<Vec<Option<Value<String>>>> {
    type V = Settings<Values>;

    open spec fn view(&self) -> Settings<Values> {
        Settings { values: values_view(self.values@), next: self.next, whole: self.whole }
    }
}

/// What was taken or is wrong, spoken of.
pub open spec fn taken_view(taken: Result<Taken<String>, Problem<String>>) -> Result<
    Taken<Seq<char>>,
    Problem<Seq<char>>,
> {
    match taken {
        Ok(taken) => Ok(taken@),
        Err(problem) => Err(problem@),
    }
}

/// Reads the place that `text` begins with.
pub fn read_place(text: &str) -> (taken: Result<Taken<String>, Problem<String>>)
    ensures
        taken_view(taken) == place_in(text@),
        taken matches Ok(taken) ==> trees(taken.rest@) < trees(text@),
{
    let (path, rest) = match read_path(text) {
        Ok(read) => read,
        Err(message) => return Err(Problem::Syntax(message)),
    };
    let (content, rest) = match read_group(rest.as_str()) {
        Some(read) => read,
        None => {
            let value = Value::Place(PathSelector { path, selector: None });
            return Ok(Taken { value, rest, whole: true });
        },
    };
    if is_empty(content.as_str()) {
        let value = Value::Place(PathSelector { path, selector: None });
        return Ok(Taken { value, rest, whole: true });
    }
    match read_expr(content.as_str()) {
        Ok((expr, left)) => {
            let whole = is_empty(left.as_str());
            let value = Value::Place(PathSelector { path, selector: Some(expr) });
            Ok(Taken { value, rest, whole })
        },
        Err(message) => Err(Problem::Selector(message)),
    }
}

/// Whether `text` has no tokens.
fn is_empty(text: &str) -> (empty: bool)
    ensures
        empty == (lexed(text@) == Ok::<nat, Seq<char>>(0)),
{
    match count_trees(text) {
        Ok(count) => count == 0,
        Err(_) => false,
    }
}

/// Reads the value of the kind `kind` that `text` begins with.
pub fn read_value(kind: Kind, text: &str) -> (taken: Result<Taken<String>, Problem<String>>)
    ensures
        taken_view(taken) == value_in(kind, text@),
        taken matches Ok(taken) ==> trees(taken.rest@) < trees(text@),
{
    match kind {
        Kind::Place => read_place(text),
        Kind::Text => match read_str(text) {
            Ok((lit, rest)) => Ok(Taken { value: Value::Text(lit), rest, whole: true }),
            Err(message) => Err(Problem::Syntax(message)),
        },
        Kind::Number => {
            if let Ok((path, rest)) = read_path(text) {
                if path == "None".to_owned() {
                    return Ok(Taken { value: Value::NoNumber, rest, whole: true });
                }
            }
            match read_int(text) {
                Ok((number, rest)) => Ok(
                    Taken { value: Value::Number(number), rest, whole: true },
                ),
                Err(message) => Err(Problem::Syntax(message)),
            }
        },
    }
}

/// A named setting or what is wrong, spoken of.
pub open spec fn named_view(
    named: Result<Option<(usize, Taken<String>)>, Problem<String>>,
) -> Result<Option<(int, Taken<Seq<char>>)>, Problem<Seq<char>>> {
    match named {
        Ok(Some((slot, taken))) => Ok(Some((slot as int, taken@))),
        Ok(None) => Ok(None),
        Err(problem) => Err(problem@),
    }
}

/// Reads the named setting that `text` begins with, if it begins with one.
pub fn read_named(schema: Schema, text: &str) -> (named: Result<
    Option<(usize, Taken<String>)>,
    Problem<String>,
>)
    ensures
        named_view(named) == named_in(schema, text@),
        named matches Ok(Some((slot, taken))) ==> {
            &&& slot < schema.names().len()
            &&& trees(taken.rest@) < trees(text@)
        },
{
    let (path, rest) = match read_path(text) {
        Ok(read) => read,
        Err(message) => return Err(Problem::Syntax(message)),
    };
    let rest = match skip_eq(rest.as_str()) {
        Some(rest) => rest,
        None => return Ok(None),
    };
    proof {
        schema.names().index_of_first_ensures(path@);
    }
    match schema.find(path.as_str()) {
        Some(slot) => match read_value(schema.kind(slot), rest.as_str()) {
            Ok(taken) => Ok(Some((slot, taken))),
            Err(problem) => Err(problem),
        },
        None => Ok(None),
    }
}

/// Settings or what is wrong, spoken of.
pub open spec fn settings_view(
    settings: Result<Settings<Vec<Option<Value<String>>>>, Problem<String>>,
) -> Result<Settings<Values>, Problem<Seq<char>>> {
    match settings {
        Ok(settings) => Ok(settings@),
        Err(problem) => Err(problem@),
    }
}

impl Settings<Vec<Option<Value<String>>>> {
    /// Whether these are settings of `schema`.
    pub open spec fn wf(self, schema: Schema) -> bool {
        &&& self.values@.len() == schema.names().len()
        &&& self.next matches Some(slot) ==> slot < schema.unnamed()
    }

    /// The settings of `schema`, none of which is set.
    pub fn new(schema: Schema) -> (settings: Self)
        ensures
            settings.wf(schema),
            settings@ == (Settings { values: unset(schema), next: Some(0usize), whole: true }),
    {
        let mut values: Vec<Option<Value<String>>> = Vec::new();
        let mut slot: usize = 0;
        while slot < schema.count()
            invariant
                slot <= schema.names().len(),
                values@.len() == slot,
                forall|i: int| 0 <= i < slot ==> values@[i] is None,
            decreases schema.names().len() - slot,
        {
            values.push(None);
            slot = slot + 1;
        }
        assert(values_view(values@) =~= unset(schema));
        Settings { values, next: Some(0), whole: true }
    }

    /// Sets the setting `slot`, which is named, unless it is set.
    pub fn set_named(self, schema: Schema, slot: usize, taken: Taken<String>) -> (after: Result<
        Self,
        Problem<String>,
    >)
        requires
            self.wf(schema),
            slot < schema.names().len(),
        ensures
            settings_view(after) == with_named(self@, slot as int, taken@),
            after matches Ok(after) ==> after.wf(schema),
    {
        if self.values[slot].is_some() {
            return Err(Problem::Duplicated);
        }
        let Settings { mut values, next: _, whole } = self;
        let ghost before = values@;
        let Taken { value, rest: _, whole: all } = taken;
        values.set(slot, Some(value));
        assert(values_view(values@) =~= values_view(before).update(slot as int, Some(value@)));
        Ok(Settings { values, next: None, whole: whole && all })
    }

    /// Sets the setting `slot`, whose turn it is.
    pub fn set_unnamed(self, schema: Schema, slot: usize, taken: Taken<String>) -> (after: Self)
        requires
            self.wf(schema),
            slot < schema.unnamed(),
        ensures
            after@ == with_unnamed(schema, self@, slot, taken@),
            after.wf(schema),
    {
        let Settings { mut values, next: _, whole } = self;
        let ghost before = values@;
        let Taken { value, rest: _, whole: all } = taken;
        values.set(slot, Some(value));
        assert(values_view(values@) =~= values_view(before).update(slot as int, Some(value@)));
        let next = if slot + 1 < schema.unnamed_count() {
            Some(slot + 1)
        } else {
            None
        };
        Settings { values, next, whole: whole && all }
    }
}

/// Reads the setting that `text` begins with.
pub fn read_setting(
    schema: Schema,
    before: Settings<Vec<Option<Value<String>>>>,
    text: &str,
) -> (read: Result<(Settings<Vec<Option<Value<String>>>>, String), Problem<String>>)
    requires
        before.wf(schema),
    ensures
        match read {
            Ok((after, rest)) => with_setting(schema, before@, text@) == Ok::<
                (Settings<Values>, Seq<char>),
                Problem<Seq<char>>,
            >((after@, rest@)),
            Err(problem) => with_setting(schema, before@, text@) == Err::<
                (Settings<Values>, Seq<char>),
                Problem<Seq<char>>,
            >(problem@),
        },
        read matches Ok((after, rest)) ==> after.wf(schema) && trees(rest@) < trees(text@),
{
    match read_named(schema, text) {
        Err(problem) => Err(problem),
        Ok(Some((slot, taken))) => {
            let rest = taken.rest.clone();
            match before.set_named(schema, slot, taken) {
                Ok(after) => Ok((after, rest)),
                Err(problem) => Err(problem),
            }
        },
        Ok(None) => match before.next {
            None => Err(Problem::Unknown(schema)),
            Some(slot) => match read_value(schema.kind(slot), text) {
                Err(problem) => Err(problem),
                Ok(taken) => {
                    let rest = taken.rest.clone();
                    Ok((before.set_unnamed(schema, slot, taken), rest))
                },
            },
        },
    }
}

/// Reads up to the next setting.
fn read_next(text: &str) -> (next: Result<Option<String>, Problem<String>>)
    ensures
        match next {
            Ok(next) => next_setting(text@) == Ok::<Option<Seq<char>>, Problem<Seq<char>>>(
                option_text(next),
            ),
            Err(problem) => next_setting(text@) == Err::<Option<Seq<char>>, Problem<Seq<char>>>(
                problem@,
            ),
        },
        next matches Ok(Some(next)) ==> trees(next@) < trees(text@),
{
    match count_trees(text) {
        Err(message) => return Err(Problem::Syntax(message)),
        Ok(count) => if count == 0 {
            return Ok(None);
        },
    }
    let rest = match skip_comma(text) {
        Ok(rest) => rest,
        Err(message) => return Err(Problem::Syntax(message)),
    };
    match count_trees(rest.as_str()) {
        Err(message) => Err(Problem::Syntax(message)),
        Ok(count) => if count == 0 {
            Ok(None)
        } else {
            Ok(Some(rest))
        },
    }
}

/// Reads the settings in `text`.
pub fn read_settings(schema: Schema, text: &str) -> (values: Result<
    Vec<Option<Value<String>>>,
    Problem<String>,
>)
    ensures
        match values {
            Ok(values) => settings_in(schema, text@) == Ok::<Values, Problem<Seq<char>>>(
                values_view(values@),
            ),
            Err(problem) => settings_in(schema, text@) == Err::<Values, Problem<Seq<char>>>(
                problem@,
            ),
        },
        values matches Ok(values) ==> values@.len() == schema.names().len(),
{
    let mut settings = Settings::new(schema);
    match count_trees(text) {
        Err(message) => return Err(Problem::Syntax(message)),
        Ok(count) => if count == 0 {
            return Ok(settings.values);
        },
    }
    let mut text_left = text.to_owned();
    let ghost all = with_settings(schema, settings@, text@);
    loop
        invariant
            settings.wf(schema),
            all == with_settings(schema, settings@, text_left@),
            trees(text@) > 0,
            settings_in(schema, text@) == match all {
                Err(problem) => Err::<Values, Problem<Seq<char>>>(problem),
                Ok(after) => if after.whole {
                    Ok(after.values)
                } else {
                    Err(Problem::Unexpected)
                },
            },
        decreases trees(text_left@),
    {
        let (after, rest) = match read_setting(schema, settings, text_left.as_str()) {
            Ok(read) => read,
            Err(problem) => return Err(problem),
        };
        settings = after;
        match read_next(rest.as_str()) {
            Err(problem) => return Err(problem),
            Ok(None) => {
                let Settings { values, next: _, whole } = settings;
                return if whole {
                    Ok(values)
                } else {
                    Err(Problem::Unexpected)
                };
            },
            Ok(Some(next)) => {
                text_left = next;
            },
        }
    }
}

} // verus!
