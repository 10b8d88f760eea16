use vstd::prelude::*;
use vstd::string::{StrSliceExecFns, StringExecFns};

verus! {

/// Where the bulk price API lives when no other base URL is configured.
pub const DEFAULT_BASE_URL: &'static str = "https://pricing.us-east-1.amazonaws.com";

/// The URL of the top-level service index under a base URL.
pub fn service_index_url(base_url: &str) -> (r: String)
    ensures
        r@ == base_url@ + "/offers/v1.0/aws/index.json"@,
{
    let mut s = base_url.to_owned();
    s.append("/offers/v1.0/aws/index.json");
    s
}

/// The URL of a service's current region index under a base URL.
pub fn region_index_url(base_url: &str, service_code: &str) -> (r: String)
    ensures
        r@ == base_url@ + "/offers/v1.0/aws/"@ + service_code@ + "/current/region_index.json"@,
{
    let mut s = base_url.to_owned();
    s.append("/offers/v1.0/aws/");
    s.append(service_code);
    s.append("/current/region_index.json");
    s
}

/// The URL of a listed resource: its path joined to the base URL.
pub fn resource_url(base_url: &str, path: &str) -> (r: String)
    ensures
        r@ == base_url@ + "/"@ + path@,
{
    let mut s = base_url.to_owned();
    s.append("/");
    s.append(path);
    s
}

/// `s` with every leading double-quote character removed.
pub open spec fn spec_trim_leading_quotes(s: Seq<char>) -> Seq<char>
    decreases s.len(),
{
    if s.len() > 0 && s[0] == '"' {
        spec_trim_leading_quotes(s.drop_first())
    } else {
        s
    }
}

/// `s` with every trailing double-quote character removed.
pub open spec fn spec_trim_trailing_quotes(s: Seq<char>) -> Seq<char>
    decreases s.len(),
{
    if s.len() > 0 && s.last() == '"' {
        spec_trim_trailing_quotes(s.drop_last())
    } else {
        s
    }
}

/// `s` with the double quotes stripped from both ends, as an entity tag is
/// carried in an HTTP header.
pub open spec fn spec_trim_quotes(s: Seq<char>) -> Seq<char> {
    spec_trim_trailing_quotes(spec_trim_leading_quotes(s))
}

/// Strip the double quotes from both ends of an entity tag, as HTTP carries
/// them in the header.
pub fn trim_etag_quotes(s: &str) -> (r: String)
    ensures
        r@ == spec_trim_quotes(s@),
{
    let n = s.unicode_len();
    let mut start: usize = 0;
    proof {
        assert(s@.skip(0) =~= s@);
    }
    while start < n && s.get_char(start) == '"'
        invariant
            start <= n,
            n == s@.len(),
            spec_trim_leading_quotes(s@) == spec_trim_leading_quotes(s@.skip(start as int)),
        decreases n - start,
    {
        proof {
            assert(s@.skip(start as int).drop_first() =~= s@.skip(start as int + 1));
        }
        start = start + 1;
    }
    proof {
        assert(spec_trim_leading_quotes(s@.skip(start as int)) == s@.skip(start as int));
    }
    let mut end: usize = n;
    proof {
        assert(s@.skip(start as int).take(n - start) =~= s@.skip(start as int));
    }
    while end > start && s.get_char(end - 1) == '"'
        invariant
            start <= end <= n,
            n == s@.len(),
            spec_trim_leading_quotes(s@) == s@.skip(start as int),
            spec_trim_trailing_quotes(s@.skip(start as int)) == spec_trim_trailing_quotes(
                s@.skip(start as int).take(end - start),
            ),
        decreases end,
    {
        proof {
            let cur = s@.skip(start as int).take(end - start);
            assert(cur.last() == s@[end - 1]);
            assert(cur.drop_last() =~= s@.skip(start as int).take(end - 1 - start));
        }
        end = end - 1;
    }
    proof {
        let cur = s@.skip(start as int).take(end - start);
        assert(spec_trim_trailing_quotes(cur) == cur);
        assert(cur =~= s@.subrange(start as int, end as int));
    }
    s.substring_char(start, end).to_owned()
}

} // verus!
