use price_cache::api::aws::price_bulk_types::{ProductResponse, SavingsPlanListResponse};
use price_cache::api::aws::types::{
    ContractLength, Currency, DiscountedRate, LeaseContractLength, PurchaseOption,
    SavingPlanProduct, SavingsPlanProductAttributes, SavingsPlanTerm, SavingsPlanTermRate,
    SavingsPlanTerms,
};
use price_cache::transform::aws::savings_plan::{pivot, PivotError};

fn attributes(region: &str) -> SavingsPlanProductAttributes {
    SavingsPlanProductAttributes {
        purchase_option: PurchaseOption::NoUpfront,
        product_family: "ComputeSavingsPlans".to_string(),
        region_code: Some(region.to_string()),
        service_code: "ComputeSavingsPlans".to_string(),
        granularity: "hourly".to_string(),
        instance_type: None,
        location_type: "AWS Region".to_string(),
        purchase_term: ContractLength::OneYear,
        location: region.to_string(),
        usage_type: "ComputeSP:1yrNoUpfront".to_string(),
    }
}

fn product(sku: &str, region: &str) -> SavingPlanProduct {
    SavingPlanProduct {
        sku: sku.to_string(),
        product_family: "ComputeSavingsPlans".to_string(),
        service_code: "ComputeSavingsPlans".to_string(),
        usage_type: "ComputeSP:1yrNoUpfront".to_string(),
        operation: "".to_string(),
        attributes: attributes(region),
    }
}

fn rate(discounted_sku: &str, price: &str) -> SavingsPlanTermRate {
    SavingsPlanTermRate {
        discounted_sku: discounted_sku.to_string(),
        discounted_usage_type: "BoxUsage".to_string(),
        discounted_operation: "RunInstances".to_string(),
        discounted_service_code: "AmazonEC2".to_string(),
        rate_code: format!("{}.rate", discounted_sku),
        unit: "Hrs".to_string(),
        discounted_rate: DiscountedRate { price: price.to_string(), currency: Currency::USD },
    }
}

fn term(sku: &str, rates: Vec<SavingsPlanTermRate>) -> SavingsPlanTerm {
    SavingsPlanTerm {
        sku: sku.to_string(),
        description: format!("{} description", sku),
        effective_date: 1710000000,
        lease_contract_length: LeaseContractLength { duration: 1, unit: "year".to_string() },
        rates,
    }
}

fn response(
    products: Vec<SavingPlanProduct>,
    terms: Vec<SavingsPlanTerm>,
) -> SavingsPlanListResponse {
    ProductResponse {
        format_version: "v1.0".to_string(),
        publication_date: 1710000000,
        version: "20240312234047".to_string(),
        products,
        terms: SavingsPlanTerms { savings_plan: terms },
    }
}

#[test]
fn pivot_joins_each_rate_with_its_product_attributes() {
    let r = response(
        vec![product("plan-a", "us-east-1"), product("plan-b", "eu-central-1")],
        vec![
            term("plan-a", vec![rate("sku-1", "0.01"), rate("sku-2", "0.02")]),
            term("plan-b", vec![rate("sku-3", "0.03")]),
        ],
    );
    let rows = pivot(r).unwrap();
    assert_eq!(rows.len(), 3);

    assert_eq!(rows[0].savings_plan_sku, "plan-a");
    assert_eq!(rows[0].term_rate.discounted_sku, "sku-1");
    assert_eq!(rows[0].savings_plan_attributes.region_code, Some("us-east-1".to_string()));
    assert_eq!(rows[0].savings_plan_effective_date, 1710000000);
    assert_eq!(rows[0].lease_contract_length.duration, 1);

    assert_eq!(rows[1].savings_plan_sku, "plan-a");
    assert_eq!(rows[1].term_rate.discounted_sku, "sku-2");

    assert_eq!(rows[2].savings_plan_sku, "plan-b");
    assert_eq!(rows[2].term_rate.discounted_sku, "sku-3");
    assert_eq!(rows[2].savings_plan_attributes.region_code, Some("eu-central-1".to_string()));
}

#[test]
fn rows_of_one_term_share_the_attributes_instance() {
    let r = response(
        vec![product("plan-a", "us-east-1")],
        vec![term("plan-a", vec![rate("sku-1", "0.01"), rate("sku-2", "0.02")])],
    );
    let rows = pivot(r).unwrap();
    assert!(std::sync::Arc::ptr_eq(
        &rows[0].savings_plan_attributes,
        &rows[1].savings_plan_attributes
    ));
}

#[test]
fn a_term_with_rates_but_no_product_fails() {
    let r = response(
        vec![product("plan-a", "us-east-1")],
        vec![term("plan-ghost", vec![rate("sku-1", "0.01")])],
    );
    match pivot(r) {
        Err(PivotError::AttributesNotFound(sku)) => assert_eq!(sku, "plan-ghost"),
        other => panic!("expected AttributesNotFound, got {:?}", other),
    }
}

#[test]
fn a_term_without_rates_needs_no_product() {
    let r = response(
        vec![product("plan-a", "us-east-1")],
        vec![term("plan-ghost", vec![]), term("plan-a", vec![rate("sku-1", "0.01")])],
    );
    let rows = pivot(r).unwrap();
    assert_eq!(rows.len(), 1);
    assert_eq!(rows[0].savings_plan_sku, "plan-a");
}

#[test]
fn a_later_product_with_the_same_sku_wins() {
    let r = response(
        vec![product("plan-a", "us-east-1"), product("plan-a", "eu-central-1")],
        vec![term("plan-a", vec![rate("sku-1", "0.01")])],
    );
    let rows = pivot(r).unwrap();
    assert_eq!(rows[0].savings_plan_attributes.region_code, Some("eu-central-1".to_string()));
}

#[test]
fn an_empty_response_pivots_to_no_rows() {
    let rows = pivot(response(vec![], vec![])).unwrap();
    assert!(rows.is_empty());
}
