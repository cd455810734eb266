//! Calls that are made through a proxy.

use std::cell::RefCell;
use std::rc::Rc;

use forward::oneshot::channel;
use forward::proxy::method::{ServerHop, ThreadHop};
use forward::proxy::selector::Hop;
use forward::registry::ForwardRegistry;
use forward::{
    Forward, ForwardAsyncMethod, ForwardConfig, ForwardKind, ForwardMetadata, ForwardProxy,
    ForwardReturn, ForwardSelector, ForwardSync, ForwardSyncMethod, Index, Selector, SyncCall,
};

#[derive(Clone, Copy)]
struct Center;

#[derive(Clone, Copy)]
struct UserThread;

struct RpcForward;

struct LocalForward;

impl ForwardKind for Center {
    type Index = ();
    type Handle = RpcForward;

    fn select(&self, _: ()) -> RpcForward {
        RpcForward
    }
}

impl ForwardKind for UserThread {
    type Index = u32;
    type Handle = LocalForward;

    fn select(&self, _: u32) -> LocalForward {
        LocalForward
    }
}

impl Forward for RpcForward {}

impl<M: SyncCall<Args, R>, Args, R> ForwardSync<M, Args, R> for RpcForward {
    fn forward_sync(&self, method: M, args: Args) -> ForwardReturn<R> {
        assert_eq!(method.metadata().name(), "something1234");
        method.call_local(args)
    }
}

impl Forward for LocalForward {}

impl<M: SyncCall<Args, R>, Args, R> ForwardSync<M, Args, R> for LocalForward {}

struct Target {
    something: String,
}

impl Target {
    fn raw_get_remote_something(&self) -> String {
        format!("raw {}", self.something)
    }
}

trait CrossSomething {
    fn get_remote_something(&self) -> String;
}

impl CrossSomething for Target {
    fn get_remote_something(&self) -> String {
        self.raw_get_remote_something()
    }
}

impl CrossSomething for ForwardProxy<Target> {
    fn get_remote_something(&self) -> String {
        let config = ForwardConfig {
            server: ForwardSelector { kind: (), selector: () },
            thread: ForwardSelector { kind: (), selector: () },
        };
        let meta = ForwardMetadata::new("something1234", "get_remote_something");
        let method = ForwardSyncMethod::new(config, meta, |args: (&Self,)| {
            let (target,) = args;
            target.as_raw_ref().get_remote_something()
        });
        let args = (self,);
        method.call_rpc(args).into_sync().expect("forwarded sync call dropped before completion")
    }
}

#[test]
fn demo_forwarding_flow() {
    let proxy = ForwardProxy::new(Target { something: "payload".to_owned() });
    let sync_value = proxy.get_remote_something();
    assert_eq!(sync_value, "raw payload");
}

#[test]
fn proxy_gives_access_to_its_target() {
    let mut proxy = ForwardProxy::new(1);
    assert_eq!(*proxy.as_raw_ref(), 1);
    *proxy.as_raw_mut() = 2;
    assert_eq!(*proxy.as_raw_ref(), 2);
}

#[test]
fn metadata_holds_the_names() {
    let meta = ForwardMetadata::new("proxy", "method");
    assert_eq!(meta.name(), "proxy");
    assert_eq!(meta.method(), "method");
    assert_eq!(meta.fallback_line(false), "forward-sync :: proxy::method (fall back to raw)");
    assert_eq!(meta.fallback_line(true), "forward-async :: proxy::method (fall back to raw)");
}

trait Counting {
    fn count(&mut self, by: u32) -> u32;
}

impl Counting for u32 {
    fn count(&mut self, by: u32) -> u32 {
        *self += by;
        *self
    }
}

impl Counting for ForwardProxy<u32> {
    #[allow(unused_mut)]
    fn count(&mut self, mut by: u32) -> u32 {
        let config = ForwardConfig {
            server: ForwardSelector { kind: (), selector: () },
            thread: ForwardSelector { kind: (), selector: () },
        };
        let meta = ForwardMetadata::new("Counting", "count");
        let method = ForwardSyncMethod::new(config, meta, |args: (&mut Self, u32)| {
            let (mut target, mut by) = args;
            target.as_raw_mut().count(by)
        });
        let args = (self, by);
        method.call_rpc(args).into_sync().expect("forwarded sync call dropped before completion")
    }
}

#[test]
fn targets_are_changed_through_their_proxies() {
    let mut proxy = ForwardProxy::new(1u32);
    assert_eq!(proxy.count(2), 3);
    assert_eq!(proxy.count(4), 7);
    assert_eq!(*proxy.as_raw_ref(), 7);
}

/// A place whose handles write down what happens to them.
#[derive(Clone)]
struct Logged {
    name: &'static str,
    own: bool,
    log: Rc<RefCell<Vec<String>>>,
}

impl ForwardKind for Logged {
    type Index = u32;
    type Handle = LoggedHandle;

    fn select(&self, index: u32) -> LoggedHandle {
        self.log.borrow_mut().push(format!("{} {}", self.name, index));
        LoggedHandle { name: self.name, own: self.own, log: self.log.clone() }
    }
}

struct LoggedHandle {
    name: &'static str,
    own: bool,
    log: Rc<RefCell<Vec<String>>>,
}

impl Forward for LoggedHandle {
    fn is_own_side(&self) -> bool {
        self.own
    }
}

impl<M: SyncCall<Args, R>, Args, R> ForwardSync<M, Args, R> for LoggedHandle {
    fn forward_sync(&self, method: M, args: Args) -> ForwardReturn<R> {
        self.log.borrow_mut().push(format!("carried by {}", self.name));
        method.call_local(args)
    }
}

fn logged_call(server_is_own: bool, thread_is_own: bool) -> (Vec<String>, u32) {
    let log = Rc::new(RefCell::new(Vec::new()));
    let config = ForwardConfig {
        server: ForwardSelector {
            kind: Logged { name: "server", own: server_is_own, log: log.clone() },
            selector: 7,
        },
        thread: ForwardSelector {
            kind: Logged { name: "thread", own: thread_is_own, log: log.clone() },
            selector: |args: &(u32,)| args.0 + 1,
        },
    };
    let meta = ForwardMetadata::new("proxy", "method");
    let method = ForwardSyncMethod::new(config, meta, |args: (u32,)| args.0 * 10);
    let result = method.call_rpc((4,)).into_sync().unwrap();
    let steps = log.borrow().clone();
    (steps, result)
}

#[test]
fn call_on_its_own_side_is_made() {
    let (steps, result) = logged_call(true, true);
    assert_eq!(steps, vec!["server 7", "thread 5"]);
    assert_eq!(result, 40);
}

#[test]
fn call_on_another_thread_is_carried_on() {
    let (steps, result) = logged_call(true, false);
    assert_eq!(steps, vec!["server 7", "thread 5", "carried by thread"]);
    assert_eq!(result, 40);
}

#[test]
fn call_on_another_server_is_carried_on() {
    let (steps, result) = logged_call(false, true);
    assert_eq!(steps, vec!["server 7", "carried by server", "thread 5"]);
    assert_eq!(result, 40);
}

#[test]
fn call_that_is_elsewhere_is_carried_twice() {
    let (steps, result) = logged_call(false, false);
    assert_eq!(
        steps,
        vec!["server 7", "carried by server", "thread 5", "carried by thread"],
    );
    assert_eq!(result, 40);
}

#[test]
fn handles_make_calls_and_are_not_here_by_default() {
    let config = ForwardConfig {
        server: ForwardSelector { kind: Center, selector: () },
        thread: ForwardSelector { kind: UserThread, selector: 2 },
    };
    let meta = ForwardMetadata::new("something1234", "method");
    assert!(!LocalForward.is_own_side());
    assert!(().is_own_side());
    let method = ForwardSyncMethod::new(config.clone(), meta, |args: (u8,)| args.0 + 1);
    assert_eq!(method.metadata().method(), "method");
    assert!(matches!(method.call_raw((1,)), ForwardReturn::Raw(2)));
    assert!(matches!(method.call_rpc((1,)), ForwardReturn::Raw(2)));
    let method = ForwardSyncMethod::new(config, meta, |args: (u8,)| args.0 + 1);
    assert!(matches!(method.call_local((1,)), ForwardReturn::Raw(2)));
}

/// A place that is somewhere else until a call has been carried on this often.
#[derive(Clone)]
struct Moving {
    left: Rc<RefCell<u32>>,
}

impl ForwardKind for Moving {
    type Index = ();
    type Handle = Moving;

    fn select(&self, _: ()) -> Moving {
        self.clone()
    }
}

impl Forward for Moving {
    fn is_own_side(&self) -> bool {
        *self.left.borrow() == 0
    }
}

impl<M> ForwardSync<ServerHop<Moving, (), (), (), M>, (u8,), u8> for Moving
where
    M: Fn((u8,)) -> u8,
{
    fn forward_sync(&self, hop: ServerHop<Moving, (), (), (), M>, args: (u8,)) -> ForwardReturn<u8> {
        *self.left.borrow_mut() -= 1;
        hop.method.call_rpc(args)
    }
}

impl<M> ForwardSync<ThreadHop<(), (), Moving, (), M>, (u8,), u8> for Moving
where
    M: Fn((u8,)) -> u8,
{
    fn forward_sync(&self, hop: ThreadHop<(), (), Moving, (), M>, args: (u8,)) -> ForwardReturn<u8> {
        *self.left.borrow_mut() -= 1;
        hop.method.call_local(args)
    }
}

#[test]
fn handles_can_choose_the_place_again() {
    let meta = ForwardMetadata::new("proxy", "method");
    let here = ForwardSelector { kind: (), selector: () };
    let moving = Moving { left: Rc::new(RefCell::new(3)) };
    let config = ForwardConfig {
        server: ForwardSelector { kind: moving.clone(), selector: () },
        thread: here.clone(),
    };
    let method = ForwardSyncMethod::new(config, meta, |args: (u8,)| args.0 + 1);
    assert!(matches!(method.call_rpc((1,)), ForwardReturn::Raw(2)));
    assert_eq!(*moving.left.borrow(), 0);
    let moving = Moving { left: Rc::new(RefCell::new(3)) };
    let config = ForwardConfig {
        server: here,
        thread: ForwardSelector { kind: moving.clone(), selector: () },
    };
    let method = ForwardSyncMethod::new(config, meta, |args: (u8,)| args.0 + 1);
    assert!(matches!(method.call_rpc((1,)), ForwardReturn::Raw(2)));
    assert_eq!(*moving.left.borrow(), 0);
}

#[test]
fn selectors_choose_by_the_arguments() {
    fn index_of<S: Selector<(u32,)>>(selector: &S, args: (u32,)) -> S::Output {
        selector.select(&args)
    }
    fn is_index<I: Index>(_: I) {}
    assert_eq!(index_of(&(), (3,)), ());
    assert_eq!(index_of(&9u32, (3,)), 9);
    assert_eq!(index_of(&|args: &(u32,)| args.0 as u64, (3,)), 3u64);
    is_index(());
    is_index(1u8);
    is_index(1u16);
    is_index(1u32);
    is_index(1u64);
}

#[test]
fn hops_say_who_carries_on() {
    let here = ForwardSelector { kind: (), selector: () };
    assert!(matches!(here.hop(&(1, 2)), Hop::Here));
    let away = ForwardSelector { kind: UserThread, selector: 2 };
    assert!(matches!(away.hop(&(1, 2)), Hop::Away(LocalForward)));
}

#[test]
fn futures_are_placed_alike() {
    let config = ForwardConfig {
        server: ForwardSelector { kind: (), selector: () },
        thread: ForwardSelector { kind: UserThread, selector: 2 },
    };
    let meta = ForwardMetadata::new("proxy", "method");
    let method = ForwardAsyncMethod::new(config, meta, |args: (u8,)| std::future::ready(args.0));
    assert_eq!(method.metadata().name(), "proxy");
    assert!(matches!(method.config.server.hop(&(1u8,)), Hop::Here));
    assert!(matches!(method.config.thread.hop(&(1u8,)), Hop::Away(_)));
}

#[test]
fn result_is_waited_for() {
    assert_eq!(ForwardReturn::Raw(5).into_sync(), Some(5));
    let (tx, rx) = channel();
    tx.send(6).unwrap();
    assert_eq!(ForwardReturn::Forward(rx).into_sync(), Some(6));
    let (tx, rx) = channel::<u8>();
    drop(tx);
    assert_eq!(ForwardReturn::Forward(rx).into_sync(), None);
}

#[test]
fn nothing_is_registered_at_first() {
    let registry = ForwardRegistry::<Target>::default();
    assert_eq!(registry.get_forward("CrossSomething", "get_remote_something"), None);
}
