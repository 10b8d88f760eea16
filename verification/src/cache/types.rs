use vstd::prelude::*;

verus! {

/// Identifier addressing one cached artifact: an optional stable logical name
/// (`content_key`) and an optional fingerprint of the current remote content
/// (`content_hash`). At least one of the two must be present for the key to be
/// usable; a key with neither is an input-validation error.
#[derive(Debug, Clone, PartialEq, Eq)]
pub struct CacheKey {
    pub content_key: Option<String>,
    pub content_hash: Option<String>,
}

impl CacheKey {
    /// A usable key carries at least one of its two fields.
    pub open spec fn is_valid(&self) -> bool {
        self.content_key is Some || self.content_hash is Some
    }

    /// The logical name, as a character sequence.
    pub open spec fn spec_content_key(&self) -> Option<Seq<char>> {
        match self.content_key {
            Some(k) => Some(k@),
            None => None,
        }
    }

    /// The content fingerprint, as a character sequence.
    pub open spec fn spec_content_hash(&self) -> Option<Seq<char>> {
        match self.content_hash {
            Some(h) => Some(h@),
            None => None,
        }
    }
}

/// What a successful cache load hands back: the value, the key it was stored
/// under, and whether it was served from the store or freshly fetched.
#[derive(Debug)]
pub struct CacheLoadResult<O> {
    pub result: O,
    pub cache_key: CacheKey,
    pub cache_hit: bool,
}

/// How a cache load can fail. A cached artifact that fails to decode is never
/// an error: it is folded into the miss path so a corrupted file heals itself
/// on the next load.
#[derive(Debug)]
pub enum CacheError<E> {
    /// The wrapped loadable itself failed, during key derivation or the
    /// remote fetch; its own error is surfaced verbatim.
    FetchFailed(E),
    /// Encoding a freshly fetched value for persistence failed.
    Serialize,
    /// The backing store failed during a read or a write.
    IO,
    /// The loadable produced a cache key with neither field set.
    InvalidKey,
}

/// Byte-serialisation capability for cached artifact values. Encoding must be
/// lossless: whatever bytes `encode` produces, `decode` recovers the value.
///
/// The specification members carry default bodies so that implementations
/// outside the verifier only write the two executable methods; an
/// implementation the verifier checks overrides them with its real encoding
/// and proves the contracts against it.
pub trait Codec: Sized {
    /// Whether this value can be encoded at all.
    open spec fn encodable(&self) -> bool {
        true
    }

    /// The bytes that a successful `encode` produces for this value.
    open spec fn spec_encode(&self) -> Seq<u8> {
        Seq::empty()
    }

    /// The value, if any, that a byte string decodes to.
    open spec fn spec_decode(bytes: Seq<u8>) -> Option<Self> {
        None
    }

    fn encode(&self) -> (r: Result<Vec<u8>, ()>)
        ensures
            r matches Ok(b) ==> self.encodable() && b@ == self.spec_encode()
                && Self::spec_decode(b@) == Some(*self),
            r is Err ==> !self.encodable(),
    ;

    fn decode(bytes: &[u8]) -> (r: Option<Self>)
        ensures
            r == Self::spec_decode(bytes@),
    ;
}

/// The capability a data source implements to participate in caching: compute
/// a cache key for an input, perform the full remote fetch for an input, and
/// report the namespace under which its artifacts are stored.
/// `spec_category` carries a default body so that implementations outside the
/// verifier only write the three executable methods; an implementation the
/// verifier checks overrides it and proves `category_key` against it.
pub trait Cacheable {
    type Input;

    type Output: Codec;

    type Error;

    /// The namespace under which this loadable's artifacts are stored.
    open spec fn spec_category(&self) -> Seq<char> {
        Seq::empty()
    }

    /// Cheap probe computing the cache key for an input, typically a metadata
    /// request rather than a full fetch. A failure here aborts the whole load.
    fn get_cache_key(&self, input: &Self::Input) -> Result<CacheKey, Self::Error>;

    /// The full remote retrieval, decoded into the output type.
    fn load(&self, input: &Self::Input) -> Result<Self::Output, Self::Error>;

    /// The stable namespace string, used as a path prefix; it must not contain
    /// characters illegal in path segments.
    fn category_key(&self) -> (r: String)
        ensures
            r@ == self.spec_category(),
    ;
}

} // verus!
