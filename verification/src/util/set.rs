use vstd::prelude::*;
use vstd::hash_map::StringHashMap;
use std::sync::Arc;

verus! {

/// Relies on std's Arc::clone: the returned handle shares the allocation of
/// the argument, so it carries the same value.
#[verifier::external_body]
pub(crate) fn arc_clone<T>(a: &Arc<T>) -> (res: Arc<T>)
    ensures
        res == *a,
{
    Arc::clone(a)
}

/// How one client is built for one partition key, from shared baseline
/// configuration. Construction must be pure configuration assembly: it is a
/// function of the configuration and the key, and it cannot fail.
///
/// `spec_build` carries a default body so that a factory outside the verifier
/// only writes the executable method; a factory the verifier checks overrides
/// it and proves `build` against it.
pub trait ClientFactory<K, T> {
    /// The client this factory builds for a configuration and a key.
    open spec fn spec_build(&self, config: K, key: Seq<char>) -> T {
        vstd::pervasive::arbitrary()
    }

    fn build(&self, config: &K, key: &str) -> (r: T)
        ensures
            r == self.spec_build(*config, key@),
    ;
}

/// A keyed registry that lazily builds and reuses one shared client per
/// partition key: the first `get` for a key constructs the client, every later
/// `get` hands out another handle to that same instance. All calls go through
/// one exclusive borrow, so constructions are serialized and at most one
/// construction happens per key.
#[verifier::reject_recursive_types(T)]
pub struct ClientSet<K, T, F: ClientFactory<K, T>> {
    pub clients: StringHashMap<Arc<T>>,
    pub client_factory: F,
    pub initial_data: K,
}

impl<K, T, F: ClientFactory<K, T>> ClientSet<K, T, F> {
    /// An empty registry over the given baseline configuration and factory.
    pub fn new(initial_data: K, client_factory: F) -> (r: Self)
        ensures
            r.clients@ == Map::<Seq<char>, Arc<T>>::empty(),
            r.client_factory == client_factory,
            r.initial_data == initial_data,
    {
        ClientSet { clients: StringHashMap::new(), client_factory, initial_data }
    }

    /// The shared client for `key`: the one already registered, or else the
    /// one the factory builds now, which is registered before it is returned.
    /// Either way the handle returned is the instance registered under `key`
    /// afterwards, and nothing else changes.
    pub fn get(&mut self, key: &str) -> (r: Arc<T>)
        ensures
            final(self).client_factory == old(self).client_factory,
            final(self).initial_data == old(self).initial_data,
            old(self).clients@.contains_key(key@) ==> {
                &&& final(self).clients@ == old(self).clients@
                &&& r == old(self).clients@[key@]
            },
            !old(self).clients@.contains_key(key@) ==> {
                &&& r == old(self).client_factory.spec_build(old(self).initial_data, key@)
                &&& final(self).clients@ == old(self).clients@.insert(key@, r)
            },
    {
        match self.clients.get(key) {
            Some(client) => arc_clone(client),
            None => {
                let client = Arc::new(self.client_factory.build(&self.initial_data, key));
                self.clients.insert(key.to_owned(), arc_clone(&client));
                client
            },
        }
    }
}

/// At-most-one construction per key: once a `get` has registered a client for
/// a key, every later `get` for that key finds it, returns that same client,
/// and changes nothing — so no key's client is ever built twice. Keys register
/// independently: building for one key disturbs no other key's client.
pub proof fn lemma_client_built_once<T>(
    clients: Map<Seq<char>, T>,
    key: Seq<char>,
    built: T,
    other: Seq<char>,
)
    requires
        !clients.contains_key(key),
    ensures
        ({
            let registered = clients.insert(key, built);
            &&& registered.contains_key(key)
            &&& registered[key] == built
            &&& other != key ==> registered.contains_key(other) == clients.contains_key(other)
            &&& other != key && clients.contains_key(other) ==> registered[other] == clients[other]
        }),
{
}

} // verus!
