use vstd::prelude::*;

verus! {

/// Reserved-instance contract length.
#[derive(Debug, Clone, Copy, PartialEq, Eq, Structural)]
pub enum ContractLength {
    OneYear,
    ThreeYear,
}

/// How a reserved term is paid for.
#[derive(Debug, Clone, Copy, PartialEq, Eq, Structural)]
pub enum PurchaseOption {
    NoUpfront,
    PartialUpfront,
    AllUpfront,
}

/// Reserved-instance offering class.
#[derive(Debug, Clone, Copy, PartialEq, Eq, Structural)]
pub enum RIOfferingClass {
    Standard,
    Convertible,
}

/// The currency a rate is quoted in.
#[derive(Debug, Clone, Copy, PartialEq, Eq, Structural)]
pub enum Currency {
    USD,
}

/// One price offering of a product term. `effective_date` is seconds since
/// the Unix epoch; `price_dimensions` is keyed by rate code.
#[derive(Debug)]
pub struct PriceOffering<TA> {
    pub offer_term_code: String,
    pub sku: String,
    pub effective_date: i64,
    pub price_dimensions: Vec<(String, PriceDimension)>,
    pub term_attributes: TA,
}

/// One priced dimension of an offering; `price_per_unit` is keyed by currency
/// code, with the amount kept as the decimal string the feed carries.
#[derive(Debug)]
pub struct PriceDimension {
    pub rate_code: String,
    pub description: String,
    pub unit: String,
    pub price_per_unit: Vec<(String, String)>,
}

/// The attributes distinguishing one reserved-instance term.
#[derive(Debug, Clone, Copy, PartialEq, Eq, Structural)]
pub struct RITermAttributes {
    pub lease_contract_length: ContractLength,
    pub offering_class: RIOfferingClass,
    pub purchase_option: PurchaseOption,
}

/// One savings-plan product row.
#[derive(Debug)]
pub struct SavingPlanProduct {
    pub sku: String,
    pub product_family: String,
    pub service_code: String,
    pub usage_type: String,
    pub operation: String,
    pub attributes: SavingsPlanProductAttributes,
}

/// The attributes of a savings-plan product.
#[derive(Debug)]
pub struct SavingsPlanProductAttributes {
    pub purchase_option: PurchaseOption,
    pub product_family: String,
    pub region_code: Option<String>,
    pub service_code: String,
    pub granularity: String,
    pub instance_type: Option<String>,
    pub location_type: String,
    pub purchase_term: ContractLength,
    pub location: String,
    pub usage_type: String,
}

impl Clone for SavingsPlanProductAttributes {
    /// A clone carries exactly the same attribute values.
    fn clone(&self) -> (r: Self)
        ensures
            r == *self,
    {
        SavingsPlanProductAttributes {
            purchase_option: self.purchase_option,
            product_family: self.product_family.clone(),
            region_code: match &self.region_code {
                Some(s) => Some(s.clone()),
                None => None,
            },
            service_code: self.service_code.clone(),
            granularity: self.granularity.clone(),
            instance_type: match &self.instance_type {
                Some(s) => Some(s.clone()),
                None => None,
            },
            location_type: self.location_type.clone(),
            purchase_term: self.purchase_term,
            location: self.location.clone(),
            usage_type: self.usage_type.clone(),
        }
    }
}

/// The savings-plan terms of a response.
#[derive(Debug)]
pub struct SavingsPlanTerms {
    pub savings_plan: Vec<SavingsPlanTerm>,
}

/// One savings-plan term: a plan and the rates it discounts.
/// `effective_date` is seconds since the Unix epoch.
#[derive(Debug)]
pub struct SavingsPlanTerm {
    pub sku: String,
    pub description: String,
    pub effective_date: i64,
    pub lease_contract_length: LeaseContractLength,
    pub rates: Vec<SavingsPlanTermRate>,
}

/// How long a savings-plan lease runs.
#[derive(Debug)]
pub struct LeaseContractLength {
    pub duration: i32,
    pub unit: String,
}

impl Clone for LeaseContractLength {
    /// A clone carries exactly the same length.
    fn clone(&self) -> (r: Self)
        ensures
            r == *self,
    {
        LeaseContractLength { duration: self.duration, unit: self.unit.clone() }
    }
}

/// One discounted rate of a savings-plan term.
#[derive(Debug)]
pub struct SavingsPlanTermRate {
    pub discounted_sku: String,
    pub discounted_usage_type: String,
    pub discounted_operation: String,
    pub discounted_service_code: String,
    pub rate_code: String,
    pub unit: String,
    pub discounted_rate: DiscountedRate,
}

impl Clone for SavingsPlanTermRate {
    /// A clone carries exactly the same rate.
    fn clone(&self) -> (r: Self)
        ensures
            r == *self,
    {
        SavingsPlanTermRate {
            discounted_sku: self.discounted_sku.clone(),
            discounted_usage_type: self.discounted_usage_type.clone(),
            discounted_operation: self.discounted_operation.clone(),
            discounted_service_code: self.discounted_service_code.clone(),
            rate_code: self.rate_code.clone(),
            unit: self.unit.clone(),
            discounted_rate: self.discounted_rate.clone(),
        }
    }
}

/// A discounted price, kept as the decimal string the feed carries.
#[derive(Debug)]
pub struct DiscountedRate {
    pub price: String,
    pub currency: Currency,
}

impl Clone for DiscountedRate {
    /// A clone carries exactly the same rate.
    fn clone(&self) -> (r: Self)
        ensures
            r == *self,
    {
        DiscountedRate { price: self.price.clone(), currency: self.currency }
    }
}

} // verus!
