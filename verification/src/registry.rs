//! The proxies that can be found by name.

use vstd::hash_map::StringHashMap;
use vstd::prelude::*;

use crate::proxy::ForwardProxy;

verus! {

/// Proxies by their names.
#[verifier::reject_recursive_types(T)]
pub struct ForwardRegistry<T> {
    proxies: StringHashMap<ForwardProxy<T>>,
}

impl<T> View for ForwardRegistry<T> {
    type V = Map<Seq<char>, ForwardProxy<T>>;

    closed spec fn view(&self) -> Map<Seq<char>, ForwardProxy<T>> {
        self.proxies@
    }
}

impl<T> Default for ForwardRegistry<T> {
    /// No proxies.
    fn default() -> (registry: Self)
        ensures
            registry@ == Map::<Seq<char>, ForwardProxy<T>>::empty(),
    {
        ForwardRegistry { proxies: StringHashMap::new() }
    }
}

impl<T> ForwardRegistry<T> {
    /// Whether the function `function` of the proxy `proxy` can be called. A proxy that is there
    /// answers for all of its functions.
    pub fn get_forward(&self, proxy: &str, function: &str) -> (found: Option<()>)
        ensures
            found == if self@.contains_key(proxy@) {
                Some(())
            } else {
                None::<()>
            },
    {
        let _ = function;
        match self.proxies.get(proxy) {
            Some(_) => Some(()),
            None => None,
        }
    }
}

} // verus!
