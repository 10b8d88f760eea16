use vstd::prelude::*;
use vstd::string::StringExecFns;
use crate::cache::store::{CacheStore, CachedFile};
use crate::cache::types::{CacheError, CacheKey, CacheLoadResult, Cacheable, Codec};

verus! {

/// Seconds in seven days: the default maximum age of a cached artifact.
pub const DEFAULT_CACHE_MAX_AGE_SECONDS: i64 = 604800;

/// The file name stem derived from a cache key, before the category prefix and
/// the `.json` suffix: the logical name and the content fingerprint joined by
/// an underscore, with an absent field rendered empty. A key with neither
/// field has no stem; callers must reject it first.
pub open spec fn spec_filename_stem(
    content_key: Option<Seq<char>>,
    content_hash: Option<Seq<char>>,
) -> Seq<char> {
    match (content_key, content_hash) {
        (Some(k), Some(h)) => k + "_"@ + h,
        (Some(k), None) => k + "_"@,
        (None, Some(h)) => "_"@ + h,
        (None, None) => Seq::empty(),
    }
}

/// The store-relative artifact path for a key under a category:
/// `{category}/{stem}.json`.
pub open spec fn spec_cache_filename(category: Seq<char>, key: CacheKey) -> Seq<char> {
    category + "/"@ + spec_filename_stem(key.spec_content_key(), key.spec_content_hash()) + ".json"@
}

/// Whether the artifact stored at `path` can satisfy a load at time `now`:
/// it exists, is no older than `max_age` seconds, and its bytes decode.
pub open spec fn spec_cache_usable<O: Codec>(
    files: Map<Seq<char>, CachedFile>,
    path: Seq<char>,
    now: int,
    max_age: int,
) -> bool {
    &&& files.contains_key(path)
    &&& now - files[path].mtime <= max_age
    &&& <O as Codec>::spec_decode(files[path].bytes) is Some
}

/// Configuration for a cache engine: where artifacts live and how old they may
/// grow before they are refetched.
pub struct FileBackedCacheableBuilder {
    pub cache_directory: String,
    pub cache_max_age: i64,
}

impl FileBackedCacheableBuilder {
    /// Defaults: root directory `cache`, maximum age seven days.
    pub fn new(cache_directory: Option<String>, cache_max_age: Option<i64>) -> (r: Self)
        ensures
            r.cache_directory@ == match cache_directory {
                Some(d) => d@,
                None => "cache"@,
            },
            r.cache_max_age == match cache_max_age {
                Some(a) => a,
                None => DEFAULT_CACHE_MAX_AGE_SECONDS,
            },
    {
        let dir = match cache_directory {
            Some(d) => d,
            None => "cache".to_owned(),
        };
        let age = match cache_max_age {
            Some(a) => a,
            None => DEFAULT_CACHE_MAX_AGE_SECONDS,
        };
        FileBackedCacheableBuilder { cache_directory: dir, cache_max_age: age }
    }

    /// Wrap a loadable in a cache engine with this configuration.
    pub fn build<C: Cacheable>(self, cacheable: C) -> (r: FileBackedCacheable<C>)
        ensures
            r.cacheable == cacheable,
            r.cache_max_age == self.cache_max_age,
            r.cache_directory == self.cache_directory,
    {
        FileBackedCacheable::new(cacheable, self.cache_max_age, self.cache_directory)
    }
}

/// The cache engine: in front of any loadable, it derives the artifact path
/// for an input, serves the stored artifact when it is fresh and decodable,
/// and otherwise fetches, persists, and returns the new value.
pub struct FileBackedCacheable<C: Cacheable> {
    pub cacheable: C,
    pub cache_max_age: i64,
    pub cache_directory: String,
}

impl<C: Cacheable> FileBackedCacheable<C> {
    pub fn new(cacheable: C, cache_max_age: i64, root_path: String) -> (r: Self)
        ensures
            r.cacheable == cacheable,
            r.cache_max_age == cache_max_age,
            r.cache_directory == root_path,
    {
        FileBackedCacheable { cacheable, cache_max_age, cache_directory: root_path }
    }

    /// The full store path for a key: `{root}/{category}/{stem}.json`.
    pub open spec fn spec_artifact_path(&self, key: CacheKey) -> Seq<char> {
        self.cache_directory@ + "/"@ + spec_cache_filename(self.cacheable.spec_category(), key)
    }

    /// Derive the store-relative artifact file name for a key; `None` when the
    /// key has neither field. For a fixed category the result is a function of
    /// the key's two fields alone, so equal keys always resolve to the same
    /// file.
    pub fn build_cache_filename(&self, cache_key: &CacheKey) -> (r: Option<String>)
        ensures
            match r {
                Some(s) => cache_key.is_valid() && s@ == spec_cache_filename(
                    self.cacheable.spec_category(),
                    *cache_key,
                ),
                None => !cache_key.is_valid(),
            },
    {
        let stem: String = match (&cache_key.content_key, &cache_key.content_hash) {
            (None, None) => {
                return None;
            },
            (Some(k), Some(h)) => {
                let mut s = k.clone();
                s.append("_");
                s.append(h.as_str());
                s
            },
            (Some(k), None) => {
                let mut s = k.clone();
                s.append("_");
                s
            },
            (None, Some(h)) => {
                let mut s = "_".to_owned();
                s.append(h.as_str());
                s
            },
        };
        let mut name = self.cacheable.category_key();
        name.append("/");
        name.append(stem.as_str());
        name.append(".json");
        Some(name)
    }

    /// The full store path for a key; `None` when the key has neither field.
    fn artifact_path(&self, cache_key: &CacheKey) -> (r: Option<String>)
        ensures
            match r {
                Some(s) => cache_key.is_valid() && s@ == self.spec_artifact_path(*cache_key),
                None => !cache_key.is_valid(),
            },
    {
        match self.build_cache_filename(cache_key) {
            Some(name) => {
                let mut path = self.cache_directory.clone();
                path.append("/");
                path.append(name.as_str());
                Some(path)
            },
            None => None,
        }
    }

    /// Probe the store for a usable artifact at `path`: present, no older than
    /// `cache_max_age` at time `now`, and decodable. A stale or corrupted
    /// artifact is reported as absent, never as an error, so a corrupted file
    /// heals itself on the next load.
    fn test_cache<S: CacheStore>(&self, store: &S, path: &str, now: i64) -> (r: Result<
        Option<C::Output>,
        CacheError<C::Error>,
    >)
        ensures
            match r {
                Ok(Some(v)) => spec_cache_usable::<C::Output>(
                    store.files(),
                    path@,
                    now as int,
                    self.cache_max_age as int,
                ) && Some(v) == <C::Output as Codec>::spec_decode(store.files()[path@].bytes),
                Ok(None) => !spec_cache_usable::<C::Output>(
                    store.files(),
                    path@,
                    now as int,
                    self.cache_max_age as int,
                ),
                Err(e) => e is IO,
            },
    {
        let entry = match store.read(path) {
            Ok(Some(e)) => e,
            Ok(None) => {
                return Ok(None);
            },
            Err(_) => {
                return Err(CacheError::IO);
            },
        };
        let age: i128 = now as i128 - entry.modified as i128;
        if age > self.cache_max_age as i128 {
            return Ok(None);
        }
        match <C::Output as Codec>::decode(entry.bytes.as_slice()) {
            Some(v) => Ok(Some(v)),
            None => Ok(None),
        }
    }

    /// Persist a freshly fetched value at `path`, overwriting any artifact
    /// already there. A failure leaves the store unchanged and is fatal to the
    /// whole load, even though the fetch itself succeeded.
    fn write_cache<S: CacheStore>(
        &self,
        store: &mut S,
        path: &str,
        now: i64,
        result: &C::Output,
    ) -> (r: Result<(), CacheError<C::Error>>)
        ensures
            match r {
                Ok(_) => result.encodable() && <C::Output as Codec>::spec_decode(
                    result.spec_encode(),
                ) == Some(*result) && final(store).files() == old(store).files().insert(
                    path@,
                    CachedFile { mtime: now as int, bytes: result.spec_encode() },
                ),
                Err(e) => final(store).files() == old(store).files() && (e is Serialize
                    || e is IO),
            },
    {
        let bytes = match result.encode() {
            Ok(b) => b,
            Err(_) => {
                return Err(CacheError::Serialize);
            },
        };
        match store.write(path, now, bytes.as_slice()) {
            Ok(_) => Ok(()),
            Err(_) => Err(CacheError::IO),
        }
    }

    /// Everything one `load` call guarantees, relating the store's artifacts
    /// before (`pre`) and after (`post`) to the time `now` the call observed
    /// and its result:
    /// - `Ok` with a hit: the artifact at the key's path was usable, the store
    ///   is untouched, and the returned value is what those bytes decode to;
    /// - `Ok` with a miss: no usable artifact was stored, and the fetched value
    ///   now sits encoded at the key's path with modification time `now`;
    /// - any error leaves the store unchanged.
    pub open spec fn spec_load_post(
        &self,
        pre: Map<Seq<char>, CachedFile>,
        post: Map<Seq<char>, CachedFile>,
        now: int,
        r: Result<CacheLoadResult<C::Output>, CacheError<C::Error>>,
    ) -> bool {
        match r {
            Ok(res) => {
                let path = self.spec_artifact_path(res.cache_key);
                &&& res.cache_key.is_valid()
                &&& (res.cache_hit <==> spec_cache_usable::<C::Output>(
                    pre,
                    path,
                    now,
                    self.cache_max_age as int,
                ))
                &&& if res.cache_hit {
                    &&& post == pre
                    &&& Some(res.result) == <C::Output as Codec>::spec_decode(pre[path].bytes)
                } else {
                    &&& res.result.encodable()
                    &&& <C::Output as Codec>::spec_decode(res.result.spec_encode()) == Some(
                        res.result,
                    )
                    &&& post == pre.insert(
                        path,
                        CachedFile { mtime: now, bytes: res.result.spec_encode() },
                    )
                }
            },
            Err(_) => post == pre,
        }
    }

    /// One cache-engine pass at observed time `now`: derive the key, reject it
    /// if it has neither field, serve a usable artifact as a hit, and
    /// otherwise fetch, persist and return the fresh value as a miss.
    pub fn load_at<S: CacheStore>(&self, store: &mut S, now: i64, input: &C::Input) -> (r: Result<
        CacheLoadResult<C::Output>,
        CacheError<C::Error>,
    >)
        ensures
            self.spec_load_post(old(store).files(), final(store).files(), now as int, r),
    {
        let cache_key = match self.cacheable.get_cache_key(input) {
            Ok(k) => k,
            Err(e) => {
                return Err(CacheError::FetchFailed(e));
            },
        };
        let path = match self.artifact_path(&cache_key) {
            Some(p) => p,
            None => {
                return Err(CacheError::InvalidKey);
            },
        };
        match self.test_cache(store, path.as_str(), now) {
            Ok(Some(result)) => {
                return Ok(CacheLoadResult { result, cache_key, cache_hit: true });
            },
            Ok(None) => {},
            Err(e) => {
                return Err(e);
            },
        }
        let result = match self.cacheable.load(input) {
            Ok(v) => v,
            Err(e) => {
                return Err(CacheError::FetchFailed(e));
            },
        };
        match self.write_cache(store, path.as_str(), now, &result) {
            Ok(_) => Ok(CacheLoadResult { result, cache_key, cache_hit: false }),
            Err(e) => Err(e),
        }
    }

    /// Serve `input` from the cache or fetch and persist it, judging freshness
    /// against the wall clock.
    pub fn load<S: CacheStore>(&self, store: &mut S, input: &C::Input) -> (r: Result<
        CacheLoadResult<C::Output>,
        CacheError<C::Error>,
    >)
        ensures
            exists|now: int|
                self.spec_load_post(old(store).files(), final(store).files(), now, r),
    {
        let now = now_epoch_seconds();
        let r = self.load_at(store, now, input);
        proof {
            assert(self.spec_load_post(old(store).files(), final(store).files(), now as int, r));
        }
        r
    }
}

/// Relies on chrono::Utc::now: the current wall-clock time, read as whole
/// seconds since the Unix epoch. Nothing is assumed of the value.
#[verifier::external_body]
fn now_epoch_seconds() -> i64 {
    chrono::Utc::now().timestamp()
}

/// Idempotent hit: when a successful load misses and persists its value, any
/// later successful load on the same engine that derives the same key at most
/// `cache_max_age` seconds later is forced by the load contract to be a hit,
/// and to return the equal value.
pub proof fn lemma_idempotent_hit<C: Cacheable>(
    engine: &FileBackedCacheable<C>,
    pre: Map<Seq<char>, CachedFile>,
    mid: Map<Seq<char>, CachedFile>,
    post: Map<Seq<char>, CachedFile>,
    now1: int,
    now2: int,
    res1: CacheLoadResult<C::Output>,
    res2: CacheLoadResult<C::Output>,
)
    requires
        engine.spec_load_post(pre, mid, now1, Ok(res1)),
        !res1.cache_hit,
        engine.spec_load_post(mid, post, now2, Ok(res2)),
        res2.cache_key == res1.cache_key,
        now2 - now1 <= engine.cache_max_age as int,
    ensures
        res2.cache_hit,
        res2.result == res1.result,
        post == mid,
{
    let path = engine.spec_artifact_path(res1.cache_key);
    assert(mid == pre.insert(path, CachedFile { mtime: now1, bytes: res1.result.spec_encode() }));
    assert(spec_cache_usable::<C::Output>(mid, path, now2, engine.cache_max_age as int));
}

/// Staleness: a successful load whose key's artifact is older than the
/// configured age bound never reports a hit, whatever the stored bytes hold.
pub proof fn lemma_stale_artifact_is_miss<C: Cacheable>(
    engine: &FileBackedCacheable<C>,
    pre: Map<Seq<char>, CachedFile>,
    post: Map<Seq<char>, CachedFile>,
    now: int,
    res: CacheLoadResult<C::Output>,
)
    requires
        engine.spec_load_post(pre, post, now, Ok(res)),
        pre.contains_key(engine.spec_artifact_path(res.cache_key)),
        now - pre[engine.spec_artifact_path(res.cache_key)].mtime > engine.cache_max_age as int,
    ensures
        !res.cache_hit,
{
}

/// Corrupted artifacts self-heal: when the bytes stored at the key's path do
/// not decode, a successful load reports a miss instead of an error, and it
/// overwrites the path in place with an artifact that decodes to the value it
/// returned.
pub proof fn lemma_corrupted_artifact_self_heals<C: Cacheable>(
    engine: &FileBackedCacheable<C>,
    pre: Map<Seq<char>, CachedFile>,
    post: Map<Seq<char>, CachedFile>,
    now: int,
    res: CacheLoadResult<C::Output>,
)
    requires
        engine.spec_load_post(pre, post, now, Ok(res)),
        pre.contains_key(engine.spec_artifact_path(res.cache_key)),
        <C::Output as Codec>::spec_decode(
            pre[engine.spec_artifact_path(res.cache_key)].bytes,
        ) is None,
    ensures
        !res.cache_hit,
        post == pre.insert(
            engine.spec_artifact_path(res.cache_key),
            CachedFile { mtime: now, bytes: res.result.spec_encode() },
        ),
        <C::Output as Codec>::spec_decode(
            post[engine.spec_artifact_path(res.cache_key)].bytes,
        ) == Some(res.result),
{
}

} // verus!
