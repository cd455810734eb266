//! What becomes of `impl` blocks.

use proc_macro2::TokenStream;

use forward::expansion::config::{PathSelector, Problem};
use forward::expansion::emit::{
    write_attrs, write_fn, write_forward, write_impl, write_list, write_place, write_proxy_type,
    write_stmts, write_target_call, write_tuple,
};
use forward::expansion::export::{file_name, ExportStep};
use forward::expansion::parser::ForwardConfig;
use forward::expansion::syntax::{Arg, Attr, FnText, ImplText, LitText, Meta, TraitText};
use forward::expansion::{expand, expand_item, get_default_name, parse};

/// A text without regard to how its tokens are set apart.
fn normal(text: &str) -> String {
    text.parse::<TokenStream>().unwrap().to_string().replace(' ', "")
}

fn expanded(attrs: &str, input: &str) -> String {
    match parse(attrs, input) {
        Ok(text) => normal(&text),
        Err(problem) => panic!("{}", problem.message()),
    }
}

fn refused(attrs: &str, input: &str) -> Problem<String> {
    match parse(attrs, input) {
        Ok(text) => panic!("{}", text),
        Err(problem) => problem,
    }
}

fn string(str: &str) -> String {
    str.to_string()
}

fn attr(text: &str, path: &str, is_inner: bool) -> Attr<String> {
    Attr { text: string(text), path: string(path), is_inner, meta: Meta::Path }
}

fn block() -> ImplText<String, Vec<String>> {
    ImplText {
        attrs: Vec::new(),
        defaultness: string(""),
        unsafety: string(""),
        generics: string(""),
        trait_text: Some(TraitText {
            polarity: string(""),
            path: string("a :: Something"),
            names: vec![string("a"), string("Something")],
        }),
        self_ty: string("Target"),
        where_clause: string(""),
        items: Vec::new(),
    }
}

fn method(is_async: bool) -> FnText<String, Vec<String>> {
    FnText {
        attrs: Vec::new(),
        vis: string(""),
        defaultness: string(""),
        sig: string("fn get (& self , id : u32) -> String"),
        name: string("get"),
        is_async,
        inputs: Vec::new(),
        stmts: vec![string("body () ;"), string("1")],
    }
}

fn args() -> Vec<Arg<String>> {
    vec![
        Arg::Receiver { ty: string("& Self"), is_mut: false },
        Arg::Typed { pat: string("id"), name: Some(string("id")), ty: string("u32") },
    ]
}

const ONLY_PLACE: &str = "::forward::ForwardSelector { kind: (), selector: () }";

#[test]
fn proxy_forwards_a_call() {
    let result = expanded(
        "name = \"something1234\"",
        "impl CrossSomething for Target {
            fn get_remote_something(&self) -> String {
                self.raw_get_remote_something()
            }
        }",
    );
    let expected = "impl CrossSomething for Target {
            fn get_remote_something(&self) -> String {
                self.raw_get_remote_something()
            }
        }
        impl CrossSomething for ::forward::ForwardProxy<Target> {
            fn get_remote_something(&self) -> String {
                let config = ::forward::ForwardConfig {
                    server: ::forward::ForwardSelector { kind: (), selector: () },
                    thread: ::forward::ForwardSelector { kind: (), selector: () }
                };
                let meta = ::forward::ForwardMetadata::new(\"something1234\", \"get_remote_something\");
                let method = ::forward::ForwardSyncMethod::new(config, meta, |args: (&Self,)| {
                    let (target,) = args;
                    target.as_raw_ref().get_remote_something()
                });
                let args = (self,);
                method.call_rpc(args).into_sync()
                    .expect(\"forwarded sync call dropped before completion\")
            }
        }";
    assert_eq!(result, normal(expected));
}

#[test]
fn proxy_forwards_a_future() {
    let result = expanded(
        "",
        "impl a::CrossSomething for Target {
            async fn async_get_remote(&self) -> String { self.raw_async_get_remote().await }
        }",
    );
    let expected = "impl a::CrossSomething for Target {
            async fn async_get_remote(&self) -> String { self.raw_async_get_remote().await }
        }
        impl a::CrossSomething for ::forward::ForwardProxy<Target> {
            async fn async_get_remote(&self) -> String {
                let config = ::forward::ForwardConfig {
                    server: ::forward::ForwardSelector { kind: (), selector: () },
                    thread: ::forward::ForwardSelector { kind: (), selector: () }
                };
                let meta = ::forward::ForwardMetadata::new(\"CrossSomething\", \"async_get_remote\");
                let method = ::forward::ForwardAsyncMethod::new(config, meta, |args: (&Self,)| {
                    let (target,) = args;
                    target.as_raw_ref().async_get_remote()
                });
                let args = (self,);
                method.call_rpc(args).await.into_async().await
            }
        }";
    assert_eq!(result, normal(expected));
}

#[test]
fn proxy_keeps_to_the_settings() {
    let result = expanded(
        "",
        "#[allow(dead_code)]
        unsafe impl<T: Clone> Trait<T> for Target<T> where T: Send {
            #![allow(unused)]
            type Item = T;
            #[doc = \"a\"]
            #[forward(Game, UserThread(2), name = \"brief\", timeout = 5)]
            #[inline]
            fn method(&mut self, mut id: u32, (a, b): (u8, u8)) -> u8 { #![allow(unused)] let x = 1; a }
            fn free(id: u32) -> u32 { id }
        }",
    );
    let expected = "#[allow(dead_code)]
        unsafe impl<T: Clone> Trait<T> for Target<T> where T: Send {
            #![allow(unused)]
            type Item = T;
            #[doc = \"a\"]
            #[inline]
            fn method(&mut self, mut id: u32, (a, b): (u8, u8)) -> u8 { #![allow(unused)] let x = 1; a }
            fn free(id: u32) -> u32 { id }
        }
        #[allow(dead_code)]
        unsafe impl<T: Clone> Trait<T> for ::forward::ForwardProxy<Target<T>> where T: Send {
            #![allow(unused)]
            type Item = T;
            #[doc = \"a\"]
            #[inline]
            fn method(&mut self, mut id: u32, (a, b): (u8, u8)) -> u8 {
                #![allow(unused)]
                let config = ::forward::ForwardConfig {
                    server: ::forward::ForwardSelector { kind: Game, selector: () },
                    thread: ::forward::ForwardSelector { kind: UserThread, selector: 2 }
                };
                let meta = ::forward::ForwardMetadata::new(\"Trait\", \"brief\");
                let method = ::forward::ForwardSyncMethod::new(config, meta, |args: (&mut Self, u32, (u8, u8))| {
                    let (mut target, mut id, (a, b)) = args;
                    target.as_raw_mut().method(id, (a, b))
                });
                let args = (self, id, (a, b));
                method.call_rpc(args).into_sync()
                    .expect(\"forwarded sync call dropped before completion\")
            }
            fn free(id: u32) -> u32 {
                let config = ::forward::ForwardConfig {
                    server: ::forward::ForwardSelector { kind: (), selector: () },
                    thread: ::forward::ForwardSelector { kind: (), selector: () }
                };
                let meta = ::forward::ForwardMetadata::new(\"Trait\", \"free\");
                let method = ::forward::ForwardSyncMethod::new(config, meta, |args: (u32,)| {
                    let (id,) = args;
                    <Target<T> as Trait<T>>::free(id)
                });
                let args = (id,);
                method.call_rpc(args).into_sync()
                    .expect(\"forwarded sync call dropped before completion\")
            }
        }";
    assert_eq!(result, normal(expected));
}

#[test]
fn inherent_block_needs_a_name() {
    let input = "impl Target { fn get(&self) -> u8 { 1 } const N: u8 = 2; }";
    let problem = refused("", input);
    assert!(matches!(problem, Problem::Nameless));
    assert_eq!(problem.message(), "missing proxy name");
    let result = expanded("name = \"n\"", input);
    assert!(result.starts_with(&normal(input)));
    assert!(result.contains("impl::forward::ForwardProxy<Target>"));
}

#[test]
fn what_is_wrong_is_said() {
    let good = "impl T for U { fn f(&self) {} }";
    assert!(matches!(refused("5", good), Problem::Syntax(_)));
    assert!(matches!(refused("name=\"a\", b=1", good), Problem::Unknown(_)));
    assert!(matches!(refused("", "struct S;"), Problem::Syntax(_)));
    let first = "impl T for U { #[forward = 1] fn f(&self) {} #[forward(A, A, A)] fn g(&self) {} }";
    assert!(matches!(refused("", first), Problem::Parentheses));
    // The settings of the proxy come first.
    assert!(matches!(refused("5", first), Problem::Syntax(_)));
    let second = "impl T for U { fn f(&self) {} #[forward(server=A, server=B)] fn g(&self) {} }";
    assert!(matches!(refused("", second), Problem::Duplicated));
}

#[test]
fn only_one_attribute_goes() {
    let result = expanded("", "impl T for U { #[forward(A)] #[forward(B)] fn f(&self) {} }");
    assert_eq!(result.matches(&normal("#[forward(B)]")).count(), 2);
    assert_eq!(result.matches(&normal("#[forward(A)]")).count(), 0);
}

#[test]
fn other_items_stay() {
    let both = expand_item("\"n\"", &block(), "type Item = u8 ;").ok().unwrap();
    assert_eq!(both.target, "type Item = u8 ; ");
    assert_eq!(both.proxy, "type Item = u8 ; ");
}

#[test]
fn default_name_is_the_last_of_the_trait() {
    assert_eq!(get_default_name(&block()).ok(), Some(string("\"Something\"")));
    let inherent = ImplText { trait_text: None, ..block() };
    assert!(matches!(get_default_name(&inherent), Err(Problem::Nameless)));
}

#[test]
fn every_trait_gives_a_name() {
    let result = expanded("", "impl Trait for S { fn call(&self) {} }");
    assert!(result.contains("ForwardMetadata::new(\"Trait\",\"call\")"), "{}", result);
    let result = expanded("", "impl<T> ::a::b::Trait<T> for S { fn call(&self) {} }");
    assert!(result.contains("ForwardMetadata::new(\"Trait\",\"call\")"), "{}", result);
    // A trait in parenthesized form is no trait that `syn` reads.
    assert!(matches!(refused("", "impl Fn(A) -> B for S { fn call(&self) {} }"), Problem::Syntax(_)));
}

#[test]
fn calls_of_changing_targets_are_written() {
    let changing = vec![
        Arg::Receiver { ty: string("& mut Self"), is_mut: true },
        Arg::Typed { pat: string("mut id"), name: Some(string("id")), ty: string("u32") },
    ];
    assert_eq!(write_target_call(&block(), "set", &changing), "target.as_raw_mut().set(id)");
}

#[test]
fn empty_block_is_expanded() {
    let text = expand("\"n\"", &block()).ok().unwrap();
    assert_eq!(
        normal(&text),
        normal("impl a::Something for Target {} impl a::Something for ::forward::ForwardProxy<Target> {}"),
    );
}

#[test]
fn places_are_written() {
    let place = |selector| Some(PathSelector { path: string("Kind"), selector });
    assert_eq!(write_place(&None), ONLY_PLACE);
    assert_eq!(
        write_place(&place(None)),
        "::forward::ForwardSelector { kind: Kind, selector: () }",
    );
    assert_eq!(
        write_place(&place(Some(string("2")))),
        "::forward::ForwardSelector { kind: Kind, selector: 2 }",
    );
}

#[test]
fn lists_and_tuples_are_written() {
    let items = |n: usize| ["a", "b", "c"][..n].iter().map(|s| string(s)).collect::<Vec<_>>();
    assert_eq!(write_list(&items(0)), "");
    assert_eq!(write_list(&items(3)), "a, b, c");
    assert_eq!(write_tuple(&items(0)), "()");
    assert_eq!(write_tuple(&items(1)), "(a,)");
    assert_eq!(write_tuple(&items(2)), "(a, b)");
}

#[test]
fn functions_and_blocks_are_written() {
    let attrs = vec![attr("#[a]", "a", false), attr("#![b]", "b", true)];
    assert_eq!(write_attrs(&attrs, false), "#[a] ");
    assert_eq!(write_attrs(&attrs, true), "#![b] ");
    assert_eq!(
        write_fn(&method(false), &attrs, "1"),
        "#[a]   fn get (& self , id : u32) -> String { #![b] 1 } ",
    );
    assert_eq!(
        write_impl(&block(), &attrs, "Other", "items "),
        "#[a]   impl   a :: Something for Other  { #![b] items  } ",
    );
    assert_eq!(write_stmts(&method(false).stmts), "body () ; 1 ");
    assert_eq!(write_proxy_type("T"), "::forward::ForwardProxy<T>");
}

#[test]
fn calls_of_the_target_are_written() {
    assert_eq!(write_target_call(&block(), "get", &args()), "target.as_raw_ref().get(id)");
    let free = vec![Arg::Typed { pat: string("id"), name: Some(string("id")), ty: string("u32") }];
    assert_eq!(
        write_target_call(&block(), "get", &free),
        "<Target as a :: Something>::get(id)",
    );
    let inherent = ImplText { trait_text: None, ..block() };
    assert_eq!(write_target_call(&inherent, "get", &free), "<Target>::get(id)");
}

#[test]
fn statements_of_proxies_are_written() {
    let config = ForwardConfig {
        server: Some(PathSelector { path: string("Game"), selector: None }),
        thread: None,
        name: None,
        timeout: None,
    };
    assert_eq!(
        write_forward("\"n\"", &block(), &method(false), &args(), &config),
        "let config = ::forward::ForwardConfig { \
         server: ::forward::ForwardSelector { kind: Game, selector: () }, \
         thread: ::forward::ForwardSelector { kind: (), selector: () } }; \
         let meta = ::forward::ForwardMetadata::new(\"n\", \"get\"); \
         let method = ::forward::ForwardSyncMethod::new(config, meta, |args: (& Self, u32)| { \
         let (target, id) = args; target.as_raw_ref().get(id) }); \
         let args = (self, id); \
         method.call_rpc(args).into_sync().expect(\"forwarded sync call dropped before completion\")",
    );
    let named = ForwardConfig {
        name: Some(LitText { token: string("\"brief\""), value: string("brief") }),
        ..ForwardConfig::empty()
    };
    let text = write_forward("\"n\"", &block(), &method(true), &args(), &named);
    assert!(text.contains("::forward::ForwardMetadata::new(\"n\", \"brief\")"));
    assert!(text.contains("::forward::ForwardAsyncMethod::new("));
    assert!(text.ends_with("method.call_rpc(args).await.into_async().await"));
}

#[test]
fn expansion_is_exported_to_the_nearest_target() {
    assert_eq!(file_name("test"), "forward_proxy_test.rs");
    assert!(matches!(ExportStep::Look.after(true), ExportStep::Prepare));
    assert!(matches!(ExportStep::Look.after(false), ExportStep::Rise));
    assert!(matches!(ExportStep::Prepare.after(true), ExportStep::Create));
    assert!(matches!(ExportStep::Prepare.after(false), ExportStep::Done(false)));
    assert!(matches!(ExportStep::Create.after(true), ExportStep::Done(true)));
    assert!(matches!(ExportStep::Create.after(false), ExportStep::Rise));
    assert!(matches!(ExportStep::Rise.after(true), ExportStep::Look));
    assert!(matches!(ExportStep::Rise.after(false), ExportStep::Done(false)));
    assert!(matches!(ExportStep::Done(true).after(false), ExportStep::Done(true)));
}
