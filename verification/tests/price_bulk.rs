use price_cache::api::aws::price_bulk::{
    region_index_url, resource_url, service_index_url, trim_etag_quotes, DEFAULT_BASE_URL,
};
use price_cache::api::aws::price_bulk_types::{OfferPathError, PriceBulkOffer, PriceBulkSavingsPlan};
use price_cache::util::regex::{regex_extract_match_group, split_char, str_eq, MatchGroupMissing};

fn offer() -> PriceBulkOffer {
    PriceBulkOffer {
        service_code: "AmazonEC2".to_string(),
        offer_version: "20240312153724".to_string(),
        region: "ap-northeast-1".to_string(),
        filename: "index.json".to_string(),
    }
}

#[test]
fn offer_path_is_rendered_in_order() {
    assert_eq!(
        offer().path(),
        "offers/v1.0/aws/AmazonEC2/20240312153724/ap-northeast-1/index.json"
    );
}

#[test]
fn offer_tag_is_region_service_version() {
    assert_eq!(offer().tag(), "ap-northeast-1-AmazonEC2-20240312153724");
}

#[test]
fn offer_parses_from_its_resource_path() {
    let parsed =
        PriceBulkOffer::try_from("/offers/v1.0/aws/AmazonEC2/20240312153724/ap-northeast-1/index.json")
            .unwrap();
    assert_eq!(parsed, offer());
}

#[test]
fn savings_plan_path_and_parse() {
    let plan = PriceBulkSavingsPlan {
        service_code: "AWSComputeSavingsPlan".to_string(),
        offer_version: "20240312234047".to_string(),
        region: "ap-northeast-1".to_string(),
        filename: "index.json".to_string(),
    };
    assert_eq!(
        plan.path(),
        "savingsPlan/v1.0/aws/AWSComputeSavingsPlan/20240312234047/ap-northeast-1/index.json"
    );
    assert_eq!(plan.tag(), "ap-northeast-1-AWSComputeSavingsPlan-20240312234047");

    let parsed = PriceBulkSavingsPlan::try_from(
        "/savingsPlan/v1.0/aws/AWSComputeSavingsPlan/20240312234047/ap-northeast-1/index.json",
    )
    .unwrap();
    assert_eq!(parsed.service_code, "AWSComputeSavingsPlan");
    assert_eq!(parsed.offer_version, "20240312234047");
    assert_eq!(parsed.region, "ap-northeast-1");
    assert_eq!(parsed.filename, "index.json");
}

#[test]
fn malformed_resource_paths_are_refused() {
    // no leading slash
    assert!(matches!(
        PriceBulkOffer::try_from("offers/v1.0/aws/a/b/c/d"),
        Err(OfferPathError::InvalidResourcePath)
    ));
    // wrong fixed segments
    assert!(PriceBulkOffer::try_from("/offers/v2.0/aws/a/b/c/d").is_err());
    assert!(PriceBulkOffer::try_from("/offers/v1.0/gcp/a/b/c/d").is_err());
    // an empty capture group
    assert!(PriceBulkOffer::try_from("/offers/v1.0/aws//b/c/d").is_err());
    assert!(PriceBulkOffer::try_from("/offers/v1.0/aws/a/b/c/").is_err());
    // wrong number of segments
    assert!(PriceBulkOffer::try_from("/offers/v1.0/aws/a/b/c").is_err());
    assert!(PriceBulkOffer::try_from("/offers/v1.0/aws/a/b/c/d/e").is_err());
}

#[test]
fn etag_quotes_are_trimmed() {
    assert_eq!(trim_etag_quotes("\"5ba48a10a4b3a1ab52b\""), "5ba48a10a4b3a1ab52b");
    assert_eq!(trim_etag_quotes("plain"), "plain");
    assert_eq!(trim_etag_quotes("\"\""), "");
    assert_eq!(trim_etag_quotes(""), "");
    assert_eq!(trim_etag_quotes("\"\"inner\"\""), "inner");
    assert_eq!(trim_etag_quotes("ab\"cd"), "ab\"cd");
}

#[test]
fn request_urls_are_joined() {
    assert_eq!(
        service_index_url(DEFAULT_BASE_URL),
        "https://pricing.us-east-1.amazonaws.com/offers/v1.0/aws/index.json"
    );
    assert_eq!(
        region_index_url("http://localhost:8080", "AmazonEC2"),
        "http://localhost:8080/offers/v1.0/aws/AmazonEC2/current/region_index.json"
    );
    assert_eq!(
        resource_url("http://localhost:8080", &offer().path()),
        "http://localhost:8080/offers/v1.0/aws/AmazonEC2/20240312153724/ap-northeast-1/index.json"
    );
}

#[test]
fn match_groups_are_extracted_by_index() {
    let groups = vec!["".to_string(), "offers".to_string(), "AmazonEC2".to_string()];
    assert_eq!(regex_extract_match_group(&groups, 2, "service_code"), Ok("AmazonEC2".to_string()));
    assert_eq!(
        regex_extract_match_group(&groups, 3, "offer_version"),
        Err(MatchGroupMissing { key: "offer_version".to_string() })
    );
}

#[test]
fn split_char_keeps_empty_segments() {
    assert_eq!(split_char("a/b/c", '/'), vec!["a", "b", "c"]);
    assert_eq!(split_char("/a//b/", '/'), vec!["", "a", "", "b", ""]);
    assert_eq!(split_char("", '/'), vec![""]);
    assert_eq!(split_char("abc", '/'), vec!["abc"]);
}

#[test]
fn str_eq_compares_contents() {
    assert!(str_eq("aws", "aws"));
    assert!(!str_eq("aws", "aw"));
    assert!(!str_eq("aws", "awz"));
    assert!(str_eq("", ""));
}
