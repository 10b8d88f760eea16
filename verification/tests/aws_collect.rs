use price_cache::api::aws::ec2::{collect_instance_types, merge_region_instance_types};
use price_cache::api::aws::elasticache::{
    collect_type_specific_parameters, CacheNodeParameterRecord, CacheNodeValueRecord,
};

fn pair(k: &str, v: &str) -> (String, String) {
    (k.to_string(), v.to_string())
}

#[test]
fn merge_keeps_the_first_region_record() {
    let merged = merge_region_instance_types(vec![
        vec![pair("m5.large", "us-west-2"), pair("t3.micro", "us-west-2")],
        vec![pair("m5.large", "us-east-1"), pair("c5.large", "us-east-1")],
    ]);
    let mut sorted = merged.clone();
    sorted.sort();
    assert_eq!(
        sorted,
        vec![
            pair("c5.large", "us-east-1"),
            pair("m5.large", "us-west-2"),
            pair("t3.micro", "us-west-2"),
        ]
    );
}

#[test]
fn merge_of_nothing_is_empty() {
    let merged: Vec<(String, String)> = merge_region_instance_types(vec![]);
    assert!(merged.is_empty());
}

#[test]
fn collect_skips_untyped_records_and_keeps_the_last() {
    let collected = collect_instance_types(vec![
        vec![
            (Some("m5.large".to_string()), "first".to_string()),
            (None, "dropped".to_string()),
        ],
        vec![(Some("m5.large".to_string()), "second".to_string())],
    ]);
    assert_eq!(collected, vec![pair("m5.large", "second")]);
}

fn value(node_type: Option<&str>, value_text: Option<&str>) -> CacheNodeValueRecord {
    CacheNodeValueRecord {
        cache_node_type: node_type.map(|s| s.to_string()),
        value: value_text.map(|s| s.to_string()),
    }
}

fn parameter(name: Option<&str>, values: Vec<CacheNodeValueRecord>) -> CacheNodeParameterRecord {
    CacheNodeParameterRecord { parameter_name: name.map(|s| s.to_string()), values }
}

#[test]
fn parameters_group_by_node_type() {
    let grouped = collect_type_specific_parameters(vec![
        parameter(
            Some("maxmemory"),
            vec![
                value(Some("cache.t3.micro"), Some("500mb")),
                value(Some("cache.m5.large"), Some("6gb")),
            ],
        ),
        parameter(
            Some("threads"),
            vec![value(Some("cache.t3.micro"), Some("2"))],
        ),
    ]);
    assert_eq!(grouped.len(), 2);
    let micro = grouped.iter().find(|g| g.0 == "cache.t3.micro").unwrap();
    let mut micro_params = micro.1.clone();
    micro_params.sort();
    assert_eq!(micro_params, vec![pair("maxmemory", "500mb"), pair("threads", "2")]);
    let large = grouped.iter().find(|g| g.0 == "cache.m5.large").unwrap();
    assert_eq!(large.1, vec![pair("maxmemory", "6gb")]);
}

#[test]
fn incomplete_parameters_and_values_are_skipped() {
    let grouped = collect_type_specific_parameters(vec![
        parameter(None, vec![value(Some("cache.t3.micro"), Some("ignored"))]),
        parameter(
            Some("maxmemory"),
            vec![
                value(None, Some("no node type")),
                value(Some("cache.t3.micro"), None),
                value(Some("cache.t3.micro"), Some("500mb")),
            ],
        ),
    ]);
    assert_eq!(grouped, vec![("cache.t3.micro".to_string(), vec![pair("maxmemory", "500mb")])]);
}

#[test]
fn a_later_value_for_the_same_node_type_wins() {
    let grouped = collect_type_specific_parameters(vec![
        parameter(
            Some("maxmemory"),
            vec![
                value(Some("cache.t3.micro"), Some("400mb")),
                value(Some("cache.t3.micro"), Some("500mb")),
            ],
        ),
    ]);
    assert_eq!(grouped, vec![("cache.t3.micro".to_string(), vec![pair("maxmemory", "500mb")])]);
}
