use std::cell::Cell;
use std::sync::atomic::{AtomicU32, Ordering};
use std::sync::{Arc, Mutex};
use price_cache::util::set::{ClientFactory, ClientSet};

#[derive(Debug, Clone, PartialEq, Eq)]
struct FakeClient {
    config: String,
    region: String,
}

struct CountingFactory {
    built: Cell<u32>,
}

impl ClientFactory<String, FakeClient> for CountingFactory {
    fn build(&self, config: &String, key: &str) -> FakeClient {
        self.built.set(self.built.get() + 1);
        FakeClient { config: config.clone(), region: key.to_string() }
    }
}

fn pool() -> ClientSet<String, FakeClient, CountingFactory> {
    ClientSet::new("base-config".to_string(), CountingFactory { built: Cell::new(0) })
}

#[test]
fn get_reuses_the_instance_for_a_key() {
    let mut set = pool();
    let first = set.get("r1");
    let again = set.get("r1");
    assert!(Arc::ptr_eq(&first, &again));
    assert_eq!(set.client_factory.built.get(), 1);
}

#[test]
fn distinct_keys_build_distinct_clients_once_each() {
    let mut set = pool();
    let r1 = set.get("r1");
    let r2 = set.get("r2");
    assert!(!Arc::ptr_eq(&r1, &r2));
    assert_eq!(r1.region, "r1");
    assert_eq!(r2.region, "r2");
    assert_eq!(r1.config, "base-config");
    assert_eq!(set.client_factory.built.get(), 2);

    // many repeated gets never rebuild
    for _ in 0..10 {
        let again = set.get("r1");
        assert!(Arc::ptr_eq(&r1, &again));
        let again = set.get("r2");
        assert!(Arc::ptr_eq(&r2, &again));
    }
    assert_eq!(set.client_factory.built.get(), 2);
}

struct AtomicCountingFactory {
    built: Arc<AtomicU32>,
}

impl ClientFactory<String, FakeClient> for AtomicCountingFactory {
    fn build(&self, config: &String, key: &str) -> FakeClient {
        self.built.fetch_add(1, Ordering::SeqCst);
        FakeClient { config: config.clone(), region: key.to_string() }
    }
}

#[test]
fn concurrent_callers_observe_one_construction() {
    let built = Arc::new(AtomicU32::new(0));
    let set = Arc::new(Mutex::new(ClientSet::new(
        "base-config".to_string(),
        AtomicCountingFactory { built: built.clone() },
    )));

    let runtime =
        tokio::runtime::Builder::new_multi_thread().worker_threads(4).build().unwrap();
    let clients: Vec<Arc<FakeClient>> = runtime.block_on(async {
        let mut handles = Vec::new();
        for _ in 0..16 {
            let set = set.clone();
            handles.push(tokio::spawn(async move { set.lock().unwrap().get("same-key") }));
        }
        let mut out = Vec::new();
        for handle in handles {
            out.push(handle.await.unwrap());
        }
        out
    });

    assert_eq!(built.load(Ordering::SeqCst), 1);
    for client in &clients {
        assert!(Arc::ptr_eq(client, &clients[0]));
        assert_eq!(client.region, "same-key");
    }
}

#[test]
fn the_factory_sees_the_baseline_configuration() {
    let mut set = ClientSet::new(
        "other-config".to_string(),
        CountingFactory { built: Cell::new(0) },
    );
    let c = set.get("eu-central-1");
    assert_eq!(*c, FakeClient { config: "other-config".to_string(), region: "eu-central-1".to_string() });
}
