//! What is said of settings and of what is wrong with them.

use vstd::prelude::*;
use vstd::string::StringExecFns;

use super::config::{PathSelector, Problem, Schema};
use super::parser::{option_lit, option_place, ForwardConfig, ProxyConfig};
use super::syntax::{option_text, LitText};

verus! {

/// What is said of a problem.
pub open spec fn message_of(problem: Problem<Seq<char>>) -> Seq<char> {
    match problem {
        Problem::Syntax(message) => message,
        Problem::Selector(message) => message,
        Problem::Unexpected => "unexpected token, expected `)`"@,
        Problem::Duplicated => "duplicated config setting"@,
        Problem::Unknown(Schema::Proxy) => "expected one of named settings [\"name\"]"@,
        Problem::Unknown(Schema::Forward) => {
            "expected one of named settings [\"server\", \"thread\", \"name\", \"timeout\"]"@
        },
        Problem::Parentheses => "expected parentheses #[forward(...)]"@,
        Problem::Nameless => "missing proxy name"@,
    }
}

/// What else is said of a problem.
pub open spec fn note_of(problem: Problem<Seq<char>>) -> Option<Seq<char>> {
    match problem {
        Problem::Selector(_) => Some("unexpected selector format"@),
        _ => None,
    }
}

impl Problem<String> {
    /// What is said of it.
    pub fn message(&self) -> (message: String)
        ensures
            message@ == message_of(self@),
    {
        match self {
            Problem::Syntax(message) => message.clone(),
            Problem::Selector(message) => message.clone(),
            Problem::Unexpected => "unexpected token, expected `)`".to_owned(),
            Problem::Duplicated => "duplicated config setting".to_owned(),
            Problem::Unknown(schema) => match schema {
                Schema::Proxy => "expected one of named settings [\"name\"]".to_owned(),
                Schema::Forward => {
                    "expected one of named settings [\"server\", \"thread\", \"name\", \"timeout\"]".to_owned()
                },
            },
            Problem::Parentheses => "expected parentheses #[forward(...)]".to_owned(),
            Problem::Nameless => "missing proxy name".to_owned(),
        }
    }

    /// What else is said of it.
    pub fn note(&self) -> (note: Option<String>)
        ensures
            option_text(note) == note_of(self@),
    {
        match self {
            Problem::Selector(_) => Some("unexpected selector format".to_owned()),
            _ => None,
        }
    }
}

/// A place, as it is written in settings.
pub open spec fn label_of(place: PathSelector<Seq<char>>) -> Seq<char> {
    match place.selector {
        Some(selector) => place.path + "("@ + selector + ")"@,
        None => place.path,
    }
}

/// The label of a place that may be set.
pub open spec fn option_label(place: Option<PathSelector<Seq<char>>>) -> Option<Seq<char>> {
    match place {
        Some(place) => Some(label_of(place)),
        None => None,
    }
}

/// How a string literal that may be set is written.
pub open spec fn option_token(lit: Option<LitText<Seq<char>>>) -> Option<Seq<char>> {
    match lit {
        Some(lit) => Some(lit.token),
        None => None,
    }
}

/// What a string literal that may be set stands for.
pub open spec fn option_string(lit: Option<LitText<Seq<char>>>) -> Option<Seq<char>> {
    match lit {
        Some(lit) => Some(lit.value),
        None => None,
    }
}

/// The settings of a method, each as it is written.
pub struct Labels {
    /// Its server.
    pub server: Option<String>,
    /// Its thread on that server.
    pub thread: Option<String>,
    /// Its name on the way.
    pub name: Option<String>,
    /// How long it may take.
    pub timeout: Option<String>,
}

fn label(place: &Option<PathSelector<String>>) -> (label: Option<String>)
    ensures
        option_text(label) == option_label(option_place(*place)),
{
    match place {
        Some(place) => {
            let mut label = place.path.clone();
            if let Some(selector) = &place.selector {
                label.append("(");
                label.append(selector.as_str());
                label.append(")");
            }
            Some(label)
        },
        None => None,
    }
}

impl ForwardConfig<String> {
    /// Each setting as it is written.
    pub fn labels(&self) -> (labels: Labels)
        ensures
            option_text(labels.server) == option_label(self@.server),
            option_text(labels.thread) == option_label(self@.thread),
            option_text(labels.name) == option_token(self@.name),
            option_text(labels.timeout) == self@.timeout,
    {
        Labels {
            server: label(&self.server),
            thread: label(&self.thread),
            name: match &self.name {
                Some(lit) => Some(lit.token.clone()),
                None => None,
            },
            timeout: match &self.timeout {
                Some(timeout) => Some(timeout.clone()),
                None => None,
            },
        }
    }
}

impl ProxyConfig<String> {
    /// What its name stands for.
    pub fn label(&self) -> (label: Option<String>)
        ensures
            option_text(label) == option_string(option_lit(self.name)),
    {
        match &self.name {
            Some(lit) => Some(lit.value.clone()),
            None => None,
        }
    }
}

/// What is wrong with how something reads is said in the words of the reader.
pub proof fn law_readers_have_their_say(message: Seq<char>)
    ensures
        message_of(Problem::Syntax(message)) == message,
        message_of(Problem::Selector(message)) == message,
        note_of(Problem::Selector(message)) == Some("unexpected selector format"@),
        note_of(Problem::Syntax(message)) is None,
{
}

/// A name that is none of the settings' is answered with the names of those that there are.
pub proof fn law_unknown_name_is_answered_with_the_names(schema: Schema)
    ensures
        message_of(Problem::Unknown(schema)) == "expected one of named settings [\""@ + joined(
            schema.names(),
        ) + "\"]"@,
        note_of(Problem::Unknown(schema)) is None,
{
    reveal_with_fuel(joined, 5);
    reveal_strlit("expected one of named settings [\"");
    reveal_strlit("\"]");
    reveal_strlit("\", \"");
    reveal_strlit("name");
    let names = schema.names();
    match schema {
        Schema::Proxy => {
            reveal_strlit("expected one of named settings [\"name\"]");
            assert(message_of(Problem::Unknown(schema)) =~= "expected one of named settings [\""@
                + joined(names) + "\"]"@);
        },
        Schema::Forward => {
            reveal_strlit("server");
            reveal_strlit("thread");
            reveal_strlit("timeout");
            reveal_strlit(
                "expected one of named settings [\"server\", \"thread\", \"name\", \"timeout\"]",
            );
            assert(names.drop_last() =~= seq!["server"@, "thread"@, "name"@]);
            assert(names.drop_last().drop_last() =~= seq!["server"@, "thread"@]);
            assert(names.drop_last().drop_last().drop_last() =~= seq!["server"@]);
            assert(message_of(Problem::Unknown(schema)) =~= "expected one of named settings [\""@
                + joined(names) + "\"]"@);
        },
    }
}

/// `names`, with quotes and commas between them.
pub open spec fn joined(names: Seq<Seq<char>>) -> Seq<char>
    decreases names.len(),
{
    if names.len() <= 1 {
        names[0]
    } else {
        joined(names.drop_last()) + "\", \""@ + names.last()
    }
}

/// What else can be wrong is said in these words, and nothing is added.
pub proof fn law_problems_are_said()
    ensures
        message_of(Problem::Unexpected) == "unexpected token, expected `)`"@,
        message_of(Problem::Duplicated) == "duplicated config setting"@,
        message_of(Problem::Parentheses) == "expected parentheses #[forward(...)]"@,
        message_of(Problem::Nameless) == "missing proxy name"@,
        note_of(Problem::Unexpected) is None,
        note_of(Problem::Duplicated) is None,
        note_of(Problem::Parentheses) is None,
        note_of(Problem::Nameless) is None,
{
}

/// A place is shown as it is written, with its choice in parentheses if it has one, and a string as it is
/// written or as what it stands for.
pub proof fn law_settings_are_shown(path: Seq<char>, choice: Seq<char>, lit: LitText<Seq<char>>)
    ensures
        option_label(Some(PathSelector { path, selector: Some(choice) })) == Some(
            path + "("@ + choice + ")"@,
        ),
        option_label(Some(PathSelector { path, selector: None })) == Some(path),
        option_label(None) is None,
        option_token(Some(lit)) == Some(lit.token),
        option_token(None) is None,
        option_string(Some(lit)) == Some(lit.value),
        option_string(None) is None,
{
}

} // verus!
