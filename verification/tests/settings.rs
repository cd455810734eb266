//! The settings of proxies and of their methods.

use forward::expansion::config::{
    read_place, read_setting, read_settings, read_value, Kind, PathSelector, Problem, Schema,
    Settings, Taken, Value,
};
use forward::expansion::parser::{
    parse_forward_config, parse_proxy_config, ForwardConfig, ProxyConfig,
};
use forward::expansion::syntax::{Attr, LitText, Meta};

fn forward_attr(tokens: &str) -> Vec<Attr<String>> {
    vec![Attr {
        text: format!("# [forward ({})]", tokens),
        path: "forward".to_string(),
        is_inner: false,
        meta: Meta::List(tokens.to_string()),
    }]
}

fn forward_config(tokens: &str) -> Result<ForwardConfig<String>, Problem<String>> {
    parse_forward_config(&mut forward_attr(tokens))
}

fn label(tokens: &str) -> [Option<String>; 4] {
    let labels = forward_config(tokens).map_err(|p| p.message()).unwrap().labels();
    [labels.server, labels.thread, labels.name, labels.timeout]
}

fn text(str: &str) -> Option<String> {
    Some(str.to_string())
}

fn message(tokens: &str) -> String {
    match forward_config(tokens) {
        Ok(_) => panic!("{} is accepted", tokens),
        Err(problem) => problem.message(),
    }
}

fn place(path: &str) -> Taken<String> {
    let value = Value::Place(PathSelector { path: path.to_string(), selector: None });
    Taken { value, rest: String::new(), whole: true }
}

#[test]
fn server_alone() {
    assert_eq!(label("Center"), [text("Center"), None, None, None]);
}

#[test]
fn all_settings_by_name() {
    assert_eq!(
        label("server=Game, thread=UserThread(2), name=\"brief_fn\", timeout=5"),
        [text("Game"), text("UserThread(2)"), text("\"brief_fn\""), text("5")],
    );
}

#[test]
fn no_timeout_by_name() {
    assert_eq!(
        label("server=Game, thread=UserThread(2), name=\"brief_fn\", timeout=None"),
        [text("Game"), text("UserThread(2)"), text("\"brief_fn\""), None],
    );
}

#[test]
fn thread_alone_by_name() {
    assert_eq!(label("thread = EventThread"), [None, text("EventThread"), None, None]);
}

#[test]
fn places_without_names_come_in_their_order() {
    assert_eq!(
        label("Center, UserThread(2), name = \"x\""),
        [text("Center"), text("UserThread(2)"), text("\"x\""), None],
    );
    assert_eq!(label("Center, thread = T"), [text("Center"), text("T"), None, None]);
    assert_eq!(label("a::B, c::D<E, F>"), [text("a :: B"), text("c :: D < E , F >"), None, None]);
}

#[test]
fn nothing_and_commas() {
    assert_eq!(label(""), [None, None, None, None]);
    assert_eq!(label("Center,"), [text("Center"), None, None, None]);
    assert_eq!(message(","), "expected identifier");
    assert_eq!(message("Center Other"), "expected `,`");
    assert_eq!(message("Center,,"), "expected identifier");
}

#[test]
fn selectors() {
    assert_eq!(label("UserThread()"), [text("UserThread"), None, None, None]);
    assert_eq!(label("UserThread(|args| args.0)"), [text("UserThread(| args | args . 0)"), None, None, None]);
    match forward_config("UserThread(+)") {
        Err(problem) => {
            assert!(matches!(problem, Problem::Selector(_)));
            assert_eq!(problem.note(), text("unexpected selector format"));
        },
        Ok(_) => panic!(),
    }
    assert!(matches!(forward_config("UserThread(1 2)"), Err(Problem::Unexpected)));
    assert_eq!(message("UserThread(1 2)"), "unexpected token, expected `)`");
    // What is wrong behind the parentheses is said first.
    assert!(matches!(forward_config("UserThread(1 2), 3"), Err(Problem::Syntax(_))));
}

#[test]
fn settings_are_given_once() {
    assert!(matches!(forward_config("server=A, server=B"), Err(Problem::Duplicated)));
    assert!(matches!(forward_config("A, server=B"), Err(Problem::Duplicated)));
    assert!(matches!(forward_config("timeout=None, timeout=5"), Err(Problem::Duplicated)));
    assert_eq!(message("name=\"a\", name=\"b\""), "duplicated config setting");
}

#[test]
fn unknown_names() {
    assert_eq!(
        message("A, B, other=C"),
        "expected one of named settings [\"server\", \"thread\", \"name\", \"timeout\"]",
    );
    assert!(matches!(forward_config("server=A, B"), Err(Problem::Unknown(Schema::Forward))));
    assert!(matches!(forward_config("A, B, C"), Err(Problem::Unknown(Schema::Forward))));
    // A name that is not known reads as a place, and an equals sign does not follow places.
    assert_eq!(message("other=A"), "expected `,`");
    match parse_proxy_config("name = \"a\", other = \"b\"") {
        Err(problem) => {
            assert_eq!(problem.message(), "expected one of named settings [\"name\"]");
            assert_eq!(problem.note(), None);
        },
        Ok(_) => panic!(),
    }
}

#[test]
fn values_of_the_wrong_kind() {
    assert_eq!(message("name = 5"), "expected string literal");
    assert_eq!(message("timeout = \"5\""), "expected integer literal");
    assert_eq!(message("server = 5"), "expected identifier");
    assert_eq!(message("5"), "expected identifier");
}

#[test]
fn text_that_is_made_of_no_tokens() {
    assert!(matches!(forward_config("("), Err(Problem::Syntax(_))));
}

#[test]
fn names_of_proxies() {
    assert_eq!(parse_proxy_config("").map(|c| c.label()).ok(), Some(None));
    assert_eq!(
        parse_proxy_config("name = \"TargetTrait\"").map(|c| c.label()).ok(),
        Some(text("TargetTrait")),
    );
    assert_eq!(parse_proxy_config("name = \"a\\n\"").map(|c| c.label()).ok(), Some(text("a\n")));
    // Every setting begins with a name.
    assert!(matches!(parse_proxy_config("\"TargetTrait\""), Err(Problem::Syntax(_))));
}

#[test]
fn attributes_that_settings_stand_in() {
    let other = |path: &str, meta| Attr {
        text: format!("# [{}]", path),
        path: path.to_string(),
        is_inner: false,
        meta,
    };
    let mut attrs = vec![
        other("doc", Meta::NameValue),
        other("forward", Meta::Path),
        other("forward", Meta::List("A".to_string())),
    ];
    let config = parse_forward_config(&mut attrs).ok().unwrap();
    assert!(config.server.is_none());
    assert_eq!(attrs.len(), 2);
    assert_eq!(attrs[0].path, "doc");
    assert!(matches!(attrs[1].meta, Meta::List(_)));
    let config = parse_forward_config(&mut attrs).ok().unwrap();
    assert_eq!(config.server.unwrap().path, "A");
    assert_eq!(attrs.len(), 1);
    let config = parse_forward_config(&mut attrs).ok().unwrap();
    assert!(config.server.is_none() && config.thread.is_none());
    assert_eq!(attrs.len(), 1);

    let mut attrs = vec![other("forward", Meta::NameValue)];
    let problem = parse_forward_config(&mut attrs).err().unwrap();
    assert!(matches!(problem, Problem::Parentheses));
    assert_eq!(problem.message(), "expected parentheses #[forward(...)]");
}

#[test]
fn values_are_read_by_their_kinds() {
    let taken = read_place("A(1), B").ok().unwrap();
    assert_eq!(taken.rest, ", B");
    assert!(taken.whole);
    assert!(matches!(taken.value, Value::Place(PathSelector { selector: Some(_), .. })));
    let taken = read_value(Kind::Text, "\"a\" b").ok().unwrap();
    assert_eq!(taken.rest, "b");
    assert!(matches!(taken.value, Value::Text(LitText { token, value }) if token == "\"a\"" && value == "a"));
    assert!(matches!(read_value(Kind::Number, "5").ok().unwrap().value, Value::Number(n) if n == "5"));
    assert!(matches!(read_value(Kind::Number, "None").ok().unwrap().value, Value::NoNumber));
}

#[test]
fn settings_are_set_one_by_one() {
    let none = Settings::new(Schema::Forward);
    assert_eq!(none.values.len(), 4);
    assert_eq!(none.next, Some(0));
    let one = none.set_unnamed(Schema::Forward, 0, place("A"));
    assert_eq!(one.next, Some(1));
    let two = one.set_named(Schema::Forward, 1, place("B")).ok().unwrap();
    assert_eq!(two.next, None);
    assert!(two.values[0].is_some() && two.values[1].is_some() && two.values[2].is_none());
    assert!(matches!(two.set_named(Schema::Forward, 0, place("C")), Err(Problem::Duplicated)));

    let (after, rest) = read_setting(Schema::Forward, Settings::new(Schema::Forward), "A, B").ok().unwrap();
    assert_eq!(after.next, Some(1));
    assert_eq!(rest, ", B");
    assert_eq!(read_settings(Schema::Proxy, "").ok().unwrap().len(), 1);
}

#[test]
fn settings_have_names() {
    assert_eq!(Schema::Forward.count(), 4);
    assert_eq!(Schema::Forward.unnamed_count(), 2);
    assert_eq!(Schema::Proxy.count(), 1);
    assert_eq!(Schema::Proxy.unnamed_count(), 1);
    assert_eq!(Schema::Forward.find("timeout"), Some(3));
    assert_eq!(Schema::Proxy.find("timeout"), None);
    assert!(Schema::Forward.kind(1) == Kind::Place);
    assert_eq!(Schema::Forward.name(2), "name");
}

#[test]
fn configs_of_values() {
    let lit = LitText { token: "\"a\"".to_string(), value: "a".to_string() };
    let config = ProxyConfig::of(vec![Some(Value::Text(lit))]);
    assert_eq!(config.label(), text("a"));
    let config = ForwardConfig::of(vec![None, None, None, Some(Value::Number("3".to_string()))]);
    assert_eq!(config.labels().timeout, text("3"));
    assert!(ForwardConfig::empty().labels().server.is_none());
}
