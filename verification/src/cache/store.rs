use vstd::prelude::*;
use vstd::hash_map::StringHashMap;
use vstd::slice::slice_to_vec;

verus! {

/// One artifact as the backing store holds it, in specification terms:
/// a modification time (seconds since the Unix epoch) and the raw bytes.
pub ghost struct CachedFile {
    pub mtime: int,
    pub bytes: Seq<u8>,
}

/// One artifact as it is handed across the store interface.
pub struct StoredEntry {
    pub modified: i64,
    pub bytes: Vec<u8>,
}

/// A store-side failure (permissions, disk, ...). A missing artifact is not a
/// failure: `read` reports it as `Ok(None)`.
#[derive(Debug)]
pub struct StoreError {}

/// Where artifacts live, keyed by their derived path. The cache engine owns
/// every path it derives; callers never touch the store at those paths except
/// through the engine.
///
/// `files` carries a default body so that a store outside the verifier only
/// writes the two executable methods; a store the verifier checks overrides it
/// and proves `read` and `write` against it.
pub trait CacheStore {
    /// The artifacts the store currently holds, by path.
    open spec fn files(&self) -> Map<Seq<char>, CachedFile> {
        Map::empty()
    }

    /// Look up the artifact at `path`; `Ok(None)` when nothing is stored there.
    fn read(&self, path: &str) -> (r: Result<Option<StoredEntry>, StoreError>)
        ensures
            match r {
                Ok(Some(e)) => self.files().contains_key(path@) && self.files()[path@]
                    == (CachedFile { mtime: e.modified as int, bytes: e.bytes@ }),
                Ok(None) => !self.files().contains_key(path@),
                Err(_) => true,
            },
    ;

    /// Write `bytes` at `path` with modification time `now`, overwriting any
    /// artifact already there; on failure the store is unchanged.
    fn write(&mut self, path: &str, now: i64, bytes: &[u8]) -> (r: Result<(), StoreError>)
        ensures
            match r {
                Ok(_) => final(self).files() == old(self).files().insert(
                    path@,
                    CachedFile { mtime: now as int, bytes: bytes@ },
                ),
                Err(_) => final(self).files() == old(self).files(),
            },
    ;
}

/// An in-memory store, suitable for exercising the cache engine without a
/// file system.
pub struct MemoryStore {
    pub entries: StringHashMap<StoredEntry>,
}

impl MemoryStore {
    pub fn new() -> (r: Self)
        ensures
            r.files() == Map::<Seq<char>, CachedFile>::empty(),
    {
        let r = MemoryStore { entries: StringHashMap::new() };
        proof {
            assert(r.files() =~= Map::<Seq<char>, CachedFile>::empty());
        }
        r
    }
}

impl CacheStore for MemoryStore {
    open spec fn files(&self) -> Map<Seq<char>, CachedFile> {
        self.entries@.map_values(
            |e: StoredEntry| CachedFile { mtime: e.modified as int, bytes: e.bytes@ },
        )
    }

    fn read(&self, path: &str) -> (r: Result<Option<StoredEntry>, StoreError>) {
        match self.entries.get(path) {
            Some(e) => Ok(Some(StoredEntry { modified: e.modified, bytes: slice_to_vec(e.bytes.as_slice()) })),
            None => Ok(None),
        }
    }

    fn write(&mut self, path: &str, now: i64, bytes: &[u8]) -> (r: Result<(), StoreError>) {
        self.entries.insert(path.to_owned(), StoredEntry { modified: now, bytes: slice_to_vec(bytes) });
        proof {
            assert(self.files() =~= old(self).files().insert(
                path@,
                CachedFile { mtime: now as int, bytes: bytes@ },
            ));
        }
        Ok(())
    }
}

} // verus!
