use vstd::prelude::*;
use vstd::string::StringExecFns;
use crate::api::aws::types::{PriceOffering, RITermAttributes, SavingPlanProduct, SavingsPlanTerms};
use crate::util::regex::{lemma_split_clean_prefix, lemma_split_no_sep, spec_split, split_char, str_eq};

verus! {

/// The top-level service index: every offer family the bulk price API
/// publishes, keyed by service name. `publication_date` is seconds since the
/// Unix epoch.
#[derive(Debug)]
pub struct ServiceListResponse {
    pub format_version: String,
    pub publication_date: i64,
    pub offers: Vec<(String, ServiceListResponseOffer)>,
}

/// One offer family of the service index.
#[derive(Debug)]
pub struct ServiceListResponseOffer {
    pub offer_code: String,
    pub version_index_url: Option<String>,
    pub current_version_url: Option<String>,
    pub current_region_index_url: Option<String>,
    pub savings_plan_version_index_url: Option<String>,
    pub current_savings_plan_index_url: Option<String>,
}

/// The per-service region index, keyed by region code. `publication_date` is
/// seconds since the Unix epoch.
#[derive(Debug)]
pub struct RegionIndexResponse {
    pub format_version: String,
    pub publication_date: i64,
    pub regions: Vec<(String, RegionIndexResponseRegion)>,
}

/// One region of a region index.
#[derive(Debug)]
pub struct RegionIndexResponseRegion {
    pub region_code: String,
    pub current_version_url: PriceBulkOffer,
}

/// The common envelope of a product response. `publication_date` is seconds
/// since the Unix epoch.
#[derive(Debug)]
pub struct ProductResponse<PT, TT> {
    pub format_version: String,
    pub publication_date: i64,
    pub version: String,
    pub products: PT,
    pub terms: TT,
}

pub type PricingListResponse = ProductResponse<
    Vec<(String, PricingListResponseProduct<Vec<(String, String)>>)>,
    PricingListResponseTerms,
>;

pub type SavingsPlanListResponse = ProductResponse<Vec<SavingPlanProduct>, SavingsPlanTerms>;

/// One product of a pricing list.
#[derive(Debug)]
pub struct PricingListResponseProduct<T> {
    pub product_family: String,
    pub sku: String,
    pub attributes: T,
}

/// The terms of a pricing list: on-demand and reserved offerings, keyed by
/// sku and then by offer term code.
#[derive(Debug)]
pub struct PricingListResponseTerms {
    pub on_demand: Vec<(String, Vec<(String, PriceOffering<Vec<(String, String)>>)>)>,
    pub reserved: Vec<(String, Vec<(String, PriceOffering<RITermAttributes>)>)>,
}

// ======= Utility types - not part of the response DTO ==========
/// Why an offer resource path failed to parse.
#[derive(Debug, Clone, PartialEq, Eq)]
pub enum OfferPathError {
    /// The path does not have the
    /// `/{prefix}/v1.0/aws/{service}/{version}/{region}/{file}` shape.
    InvalidResourcePath,
}

/// The capture groups of an offer resource path
/// `/{prefix}/v1.0/aws/{service_code}/{offer_version}/{region}/{filename}`:
/// exactly eight slash-separated segments, the first empty (the leading
/// slash), the fixed `v1.0` and `aws` segments in place, and every other
/// segment non-empty.
pub open spec fn spec_parse_offer_resource(s: Seq<char>) -> Option<
    (Seq<char>, Seq<char>, Seq<char>, Seq<char>),
> {
    let segs = spec_split(s, '/');
    if segs.len() == 8 && segs[0].len() == 0 && segs[1].len() > 0 && segs[2] == "v1.0"@ && segs[3]
        == "aws"@ && segs[4].len() > 0 && segs[5].len() > 0 && segs[6].len() > 0 && segs[7].len()
        > 0 {
        Some((segs[4], segs[5], segs[6], segs[7]))
    } else {
        None
    }
}

/// Parse an offer resource path into its
/// `(service_code, offer_version, region, filename)` groups.
fn parse_offer_resource(s: &str) -> (r: Result<(String, String, String, String), OfferPathError>)
    ensures
        match r {
            Ok(t) => spec_parse_offer_resource(s@) == Some((t.0@, t.1@, t.2@, t.3@)),
            Err(_) => spec_parse_offer_resource(s@) is None,
        },
{
    let segs = split_char(s, '/');
    proof {
        assert(forall|i: int|
            0 <= i < segs@.len() ==> segs.deep_view()[i] == #[trigger] segs@[i]@);
    }
    if segs.len() != 8 {
        return Err(OfferPathError::InvalidResourcePath);
    }
    if !segs[0].as_str().is_empty() || segs[1].as_str().is_empty() {
        return Err(OfferPathError::InvalidResourcePath);
    }
    if !str_eq(segs[2].as_str(), "v1.0") || !str_eq(segs[3].as_str(), "aws") {
        return Err(OfferPathError::InvalidResourcePath);
    }
    if segs[4].as_str().is_empty() || segs[5].as_str().is_empty() || segs[6].as_str().is_empty()
        || segs[7].as_str().is_empty() {
        return Err(OfferPathError::InvalidResourcePath);
    }
    Ok((segs[4].clone(), segs[5].clone(), segs[6].clone(), segs[7].clone()))
}

/// Whether a path segment is well formed: non-empty and free of separators.
pub open spec fn spec_clean_segment(s: Seq<char>) -> bool {
    s.len() > 0 && forall|j: int| 0 <= j < s.len() ==> s[j] != '/'
}

/// Rendering and parsing invert each other: the resource path built from
/// well-formed segments, prefixed with a slash, parses back to exactly those
/// segments, whatever the leading family segment is.
pub proof fn lemma_resource_path_round_trip(
    family: Seq<char>,
    sc: Seq<char>,
    ov: Seq<char>,
    rg: Seq<char>,
    fname: Seq<char>,
)
    requires
        spec_clean_segment(family),
        spec_clean_segment(sc),
        spec_clean_segment(ov),
        spec_clean_segment(rg),
        spec_clean_segment(fname),
    ensures
        spec_parse_offer_resource(
            seq!['/'] + family + seq!['/'] + "v1.0"@ + seq!['/'] + "aws"@ + seq!['/'] + sc
                + seq!['/'] + ov + seq!['/'] + rg + seq!['/'] + fname,
        ) == Some((sc, ov, rg, fname)),
{
    reveal_strlit("v1.0");
    reveal_strlit("aws");
    let v10 = "v1.0"@;
    let aws = "aws"@;
    assert(v10.len() == 4 && v10[0] == 'v' && v10[1] == '1' && v10[2] == '.' && v10[3] == '0');
    assert(aws.len() == 3 && aws[0] == 'a' && aws[1] == 'w' && aws[2] == 's');
    let s = seq!['/'] + family + seq!['/'] + v10 + seq!['/'] + aws + seq!['/'] + sc + seq!['/']
        + ov + seq!['/'] + rg + seq!['/'] + fname;
    let r1 = family + seq!['/'] + v10 + seq!['/'] + aws + seq!['/'] + sc + seq!['/'] + ov
        + seq!['/'] + rg + seq!['/'] + fname;
    let r2 = v10 + seq!['/'] + aws + seq!['/'] + sc + seq!['/'] + ov + seq!['/'] + rg + seq!['/']
        + fname;
    let r3 = aws + seq!['/'] + sc + seq!['/'] + ov + seq!['/'] + rg + seq!['/'] + fname;
    let r4 = sc + seq!['/'] + ov + seq!['/'] + rg + seq!['/'] + fname;
    let r5 = ov + seq!['/'] + rg + seq!['/'] + fname;
    let r6 = rg + seq!['/'] + fname;
    let empty = Seq::<char>::empty();

    assert(s =~= empty + seq!['/'] + r1);
    lemma_split_clean_prefix(empty, r1, '/');
    assert(r1 =~= family + seq!['/'] + r2);
    lemma_split_clean_prefix(family, r2, '/');
    assert(r2 =~= v10 + seq!['/'] + r3);
    lemma_split_clean_prefix(v10, r3, '/');
    assert(r3 =~= aws + seq!['/'] + r4);
    lemma_split_clean_prefix(aws, r4, '/');
    assert(r4 =~= sc + seq!['/'] + r5);
    lemma_split_clean_prefix(sc, r5, '/');
    assert(r5 =~= ov + seq!['/'] + r6);
    lemma_split_clean_prefix(ov, r6, '/');
    assert(r6 =~= rg + seq!['/'] + fname);
    lemma_split_clean_prefix(rg, fname, '/');
    lemma_split_no_sep(fname, '/');

    let segs = spec_split(s, '/');
    assert(segs =~~= seq![empty, family, v10, aws, sc, ov, rg, fname]);
    assert(segs.len() == 8);
    assert(spec_parse_offer_resource(s) == Some((sc, ov, rg, fname)));
}

/// A well-formed offer renders a path that parses back to its own fields.
pub proof fn lemma_offer_path_round_trip(o: PriceBulkOffer)
    requires
        spec_clean_segment(o.service_code@),
        spec_clean_segment(o.offer_version@),
        spec_clean_segment(o.region@),
        spec_clean_segment(o.filename@),
    ensures
        spec_parse_offer_resource(seq!['/'] + o.spec_path()) == Some(
            (o.service_code@, o.offer_version@, o.region@, o.filename@),
        ),
{
    reveal_strlit("offers/v1.0/aws/");
    reveal_strlit("offers");
    reveal_strlit("v1.0");
    reveal_strlit("aws");
    reveal_strlit("/");
    assert("offers/v1.0/aws/"@ =~= "offers"@ + seq!['/'] + "v1.0"@ + seq!['/'] + "aws"@
        + seq!['/']);
    assert(forall|j: int| 0 <= j < "offers"@.len() ==> "offers"@[j] != '/');
    assert("offers"@.len() > 0);
    lemma_resource_path_round_trip(
        "offers"@,
        o.service_code@,
        o.offer_version@,
        o.region@,
        o.filename@,
    );
    assert(seq!['/'] + o.spec_path() =~= seq!['/'] + "offers"@ + seq!['/'] + "v1.0"@ + seq!['/']
        + "aws"@ + seq!['/'] + o.service_code@ + seq!['/'] + o.offer_version@ + seq!['/']
        + o.region@ + seq!['/'] + o.filename@);
}

/// A well-formed savings-plan resource renders a path that parses back to its
/// own fields.
pub proof fn lemma_savings_plan_path_round_trip(o: PriceBulkSavingsPlan)
    requires
        spec_clean_segment(o.service_code@),
        spec_clean_segment(o.offer_version@),
        spec_clean_segment(o.region@),
        spec_clean_segment(o.filename@),
    ensures
        spec_parse_offer_resource(seq!['/'] + o.spec_path()) == Some(
            (o.service_code@, o.offer_version@, o.region@, o.filename@),
        ),
{
    reveal_strlit("savingsPlan/v1.0/aws/");
    reveal_strlit("savingsPlan");
    reveal_strlit("v1.0");
    reveal_strlit("aws");
    reveal_strlit("/");
    assert("savingsPlan/v1.0/aws/"@ =~= "savingsPlan"@ + seq!['/'] + "v1.0"@ + seq!['/'] + "aws"@
        + seq!['/']);
    assert(forall|j: int| 0 <= j < "savingsPlan"@.len() ==> "savingsPlan"@[j] != '/');
    assert("savingsPlan"@.len() > 0);
    lemma_resource_path_round_trip(
        "savingsPlan"@,
        o.service_code@,
        o.offer_version@,
        o.region@,
        o.filename@,
    );
    assert(seq!['/'] + o.spec_path() =~= seq!['/'] + "savingsPlan"@ + seq!['/'] + "v1.0"@
        + seq!['/'] + "aws"@ + seq!['/'] + o.service_code@ + seq!['/'] + o.offer_version@
        + seq!['/'] + o.region@ + seq!['/'] + o.filename@);
}

/// One versioned pricing-list resource, as the region index names them.
#[derive(Debug, Clone, PartialEq, Eq)]
pub struct PriceBulkOffer {
    pub service_code: String,
    pub offer_version: String,
    pub region: String,
    pub filename: String,
}

impl PriceBulkOffer {
    /// The resource path this offer is fetched from, relative to the API root.
    pub open spec fn spec_path(&self) -> Seq<char> {
        "offers/v1.0/aws/"@ + self.service_code@ + "/"@ + self.offer_version@ + "/"@ + self.region@
            + "/"@ + self.filename@
    }

    /// A short identifier for this offer: region, service and version.
    pub open spec fn spec_tag(&self) -> Seq<char> {
        self.region@ + "-"@ + self.service_code@ + "-"@ + self.offer_version@
    }

    pub fn path(&self) -> (r: String)
        ensures
            r@ == self.spec_path(),
    {
        let mut s = "offers/v1.0/aws/".to_owned();
        s.append(self.service_code.as_str());
        s.append("/");
        s.append(self.offer_version.as_str());
        s.append("/");
        s.append(self.region.as_str());
        s.append("/");
        s.append(self.filename.as_str());
        s
    }

    pub fn tag(&self) -> (r: String)
        ensures
            r@ == self.spec_tag(),
    {
        let mut s = self.region.clone();
        s.append("-");
        s.append(self.service_code.as_str());
        s.append("-");
        s.append(self.offer_version.as_str());
        s
    }

    /// Parse a resource path as the bulk-price indexes list them.
    pub fn try_from(s: &str) -> (r: Result<Self, OfferPathError>)
        ensures
            match r {
                Ok(o) => spec_parse_offer_resource(s@) == Some(
                    (o.service_code@, o.offer_version@, o.region@, o.filename@),
                ),
                Err(_) => spec_parse_offer_resource(s@) is None,
            },
    {
        match parse_offer_resource(s) {
            Ok((service_code, offer_version, region, filename)) => Ok(
                PriceBulkOffer { service_code, offer_version, region, filename },
            ),
            Err(e) => Err(e),
        }
    }
}

/// One versioned savings-plan resource.
#[derive(Debug, Clone, PartialEq, Eq)]
pub struct PriceBulkSavingsPlan {
    pub service_code: String,
    pub offer_version: String,
    pub region: String,
    pub filename: String,
}

impl PriceBulkSavingsPlan {
    /// A short identifier for this resource: region, service and version.
    pub open spec fn spec_tag(&self) -> Seq<char> {
        self.region@ + "-"@ + self.service_code@ + "-"@ + self.offer_version@
    }

    /// The resource path this savings plan is fetched from, relative to the
    /// API root.
    pub open spec fn spec_path(&self) -> Seq<char> {
        "savingsPlan/v1.0/aws/"@ + self.service_code@ + "/"@ + self.offer_version@ + "/"@
            + self.region@ + "/"@ + self.filename@
    }

    pub fn tag(&self) -> (r: String)
        ensures
            r@ == self.spec_tag(),
    {
        let mut s = self.region.clone();
        s.append("-");
        s.append(self.service_code.as_str());
        s.append("-");
        s.append(self.offer_version.as_str());
        s
    }

    pub fn path(&self) -> (r: String)
        ensures
            r@ == self.spec_path(),
    {
        let mut s = "savingsPlan/v1.0/aws/".to_owned();
        s.append(self.service_code.as_str());
        s.append("/");
        s.append(self.offer_version.as_str());
        s.append("/");
        s.append(self.region.as_str());
        s.append("/");
        s.append(self.filename.as_str());
        s
    }

    /// Parse a resource path as the bulk-price indexes list them.
    pub fn try_from(s: &str) -> (r: Result<Self, OfferPathError>)
        ensures
            match r {
                Ok(o) => spec_parse_offer_resource(s@) == Some(
                    (o.service_code@, o.offer_version@, o.region@, o.filename@),
                ),
                Err(_) => spec_parse_offer_resource(s@) is None,
            },
    {
        match parse_offer_resource(s) {
            Ok((service_code, offer_version, region, filename)) => Ok(
                PriceBulkSavingsPlan { service_code, offer_version, region, filename },
            ),
            Err(e) => Err(e),
        }
    }
}

} // verus!
