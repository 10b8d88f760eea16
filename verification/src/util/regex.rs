use vstd::prelude::*;
use vstd::string::StrSliceExecFns;

verus! {

/// A match group that a pattern was expected to capture was not there; carries
/// the name of the missing group.
#[derive(Debug, Clone, PartialEq, Eq)]
pub struct MatchGroupMissing {
    pub key: String,
}

/// The capture group at index `group` of a match, as an owned string; `key`
/// names the group in the error when the index is out of range.
pub fn regex_extract_match_group(c: &Vec<String>, group: usize, key: &str) -> (r: Result<
    String,
    MatchGroupMissing,
>)
    ensures
        match r {
            Ok(s) => group < c@.len() && s@ == c@[group as int]@,
            Err(e) => group >= c@.len() && e.key@ == key@,
        },
{
    if group < c.len() {
        Ok(c[group].clone())
    } else {
        Err(MatchGroupMissing { key: key.to_owned() })
    }
}

/// `s` divided at every occurrence of `sep`: the segments in order, none of
/// which contains `sep`. Separators at either end, or adjacent ones, yield
/// empty segments; the empty string is one empty segment.
pub open spec fn spec_split(s: Seq<char>, sep: char) -> Seq<Seq<char>>
    decreases s.len(),
{
    if s.len() == 0 {
        seq![Seq::<char>::empty()]
    } else if s[0] == sep {
        seq![Seq::<char>::empty()] + spec_split(s.drop_first(), sep)
    } else {
        let rest = spec_split(s.drop_first(), sep);
        seq![seq![s[0]] + rest[0]] + rest.drop_first()
    }
}

/// A split always has at least one segment.
pub proof fn lemma_split_len(s: Seq<char>, sep: char)
    ensures
        spec_split(s, sep).len() >= 1,
    decreases s.len(),
{
    if s.len() > 0 {
        lemma_split_len(s.drop_first(), sep);
    }
}

/// A string without the separator is one segment: itself.
pub proof fn lemma_split_no_sep(s: Seq<char>, sep: char)
    requires
        forall|j: int| 0 <= j < s.len() ==> s[j] != sep,
    ensures
        spec_split(s, sep) == seq![s],
    decreases s.len(),
{
    if s.len() == 0 {
        assert(s =~= Seq::<char>::empty());
    } else {
        lemma_split_no_sep(s.drop_first(), sep);
        assert(seq![s[0]] + s.drop_first() =~= s);
        assert(spec_split(s, sep) =~~= seq![s]);
    }
}

/// Splitting `a + sep + b`, where `a` is free of the separator, yields `a`
/// followed by the segments of `b`.
pub proof fn lemma_split_clean_prefix(a: Seq<char>, b: Seq<char>, sep: char)
    requires
        forall|j: int| 0 <= j < a.len() ==> a[j] != sep,
    ensures
        spec_split(a + seq![sep] + b, sep) == seq![a] + spec_split(b, sep),
    decreases a.len(),
{
    let s = a + seq![sep] + b;
    if a.len() == 0 {
        assert(s =~= seq![sep] + b);
        assert(s[0] == sep);
        assert(s.drop_first() =~= b);
        assert(a =~= Seq::<char>::empty());
        assert(spec_split(s, sep) =~~= seq![a] + spec_split(b, sep));
    } else {
        lemma_split_clean_prefix(a.drop_first(), b, sep);
        assert(s[0] == a[0]);
        assert(s.drop_first() =~= a.drop_first() + seq![sep] + b);
        let rest = spec_split(s.drop_first(), sep);
        lemma_split_len(b, sep);
        assert(rest == seq![a.drop_first()] + spec_split(b, sep));
        assert(rest[0] == a.drop_first());
        assert(seq![s[0]] + rest[0] =~= a);
        assert(rest.drop_first() =~= spec_split(b, sep));
        assert(spec_split(s, sep) =~~= seq![a] + spec_split(b, sep));
    }
}

/// Divide `s` at every occurrence of `sep`, as `spec_split` describes.
pub fn split_char(s: &str, sep: char) -> (r: Vec<String>)
    ensures
        r.deep_view() == spec_split(s@, sep),
{
    let n = s.unicode_len();
    let mut done: Vec<String> = Vec::new();
    let mut start: usize = 0;
    let mut i: usize = 0;
    proof {
        assert(done.deep_view() =~~= Seq::<Seq<char>>::empty());
        assert(s@.skip(0) =~= s@);
        assert(spec_split(s@, sep) =~~= done.deep_view() + spec_split(s@.skip(0), sep));
    }
    while i < n
        invariant
            n == s@.len(),
            start <= i <= n,
            forall|j: int| start <= j < i ==> s@[j] != sep,
            spec_split(s@, sep) == done.deep_view() + spec_split(s@.skip(start as int), sep),
        decreases n - i,
    {
        let c = s.get_char(i);
        if c == sep {
            let seg = s.substring_char(start, i).to_owned();
            proof {
                let tail = s@.skip(i as int + 1);
                assert(s@.skip(start as int) =~= seg@ + seq![sep] + tail);
                lemma_split_clean_prefix(seg@, tail, sep);
                assert(done.deep_view().push(seg@) =~~= done.deep_view() + seq![seg@]);
            }
            let ghost old_dv = done.deep_view();
            done.push(seg);
            proof {
                assert(done.deep_view() =~~= old_dv.push(done@[done@.len() - 1]@));
                assert(spec_split(s@, sep) =~~= done.deep_view() + spec_split(
                    s@.skip(i as int + 1),
                    sep,
                ));
            }
            start = i + 1;
        }
        i = i + 1;
    }
    let seg = s.substring_char(start, n).to_owned();
    proof {
        assert(s@.skip(start as int) =~= seg@);
        lemma_split_no_sep(seg@, sep);
    }
    let ghost old_dv = done.deep_view();
    done.push(seg);
    proof {
        assert(done.deep_view() =~~= old_dv.push(done@[done@.len() - 1]@));
        assert(spec_split(s@, sep) =~~= done.deep_view());
    }
    done
}

/// Whether two strings hold the same characters.
pub fn str_eq(a: &str, b: &str) -> (r: bool)
    ensures
        r == (a@ == b@),
{
    let na = a.unicode_len();
    let nb = b.unicode_len();
    if na != nb {
        return false;
    }
    let mut i: usize = 0;
    while i < na
        invariant
            na == a@.len(),
            na == b@.len(),
            i <= na,
            forall|j: int| 0 <= j < i ==> a@[j] == b@[j],
        decreases na - i,
    {
        if a.get_char(i) != b.get_char(i) {
            return false;
        }
        i = i + 1;
    }
    proof {
        assert(a@ =~= b@);
    }
    true
}

} // verus!
