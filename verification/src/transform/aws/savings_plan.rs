use vstd::prelude::*;
use vstd::hash_map::StringHashMap;
use std::sync::Arc;
use crate::api::aws::price_bulk_types::SavingsPlanListResponse;
use crate::api::aws::types::{
    LeaseContractLength, SavingPlanProduct, SavingsPlanProductAttributes, SavingsPlanTerm,
    SavingsPlanTermRate,
};
use crate::util::set::arc_clone;

verus! {

/// One flat row of a pivoted savings-plan response: a term's rate joined with
/// the attributes of the product the term belongs to.
#[derive(Debug)]
pub struct PivotedSavingsPlanTermRate {
    pub savings_plan_sku: String,
    pub savings_plan_effective_date: i64,
    pub savings_plan_attributes: Arc<SavingsPlanProductAttributes>,
    pub lease_contract_length: LeaseContractLength,
    pub term_rate: SavingsPlanTermRate,
}

/// One pivoted row, in specification terms: the same fields, with the shared
/// attributes handle replaced by the attributes it points at.
pub ghost struct PivotedRowView {
    pub savings_plan_sku: String,
    pub savings_plan_effective_date: i64,
    pub savings_plan_attributes: SavingsPlanProductAttributes,
    pub lease_contract_length: LeaseContractLength,
    pub term_rate: SavingsPlanTermRate,
}

impl View for PivotedSavingsPlanTermRate {
    type V = PivotedRowView;

    open spec fn view(&self) -> PivotedRowView {
        PivotedRowView {
            savings_plan_sku: self.savings_plan_sku,
            savings_plan_effective_date: self.savings_plan_effective_date,
            savings_plan_attributes: *self.savings_plan_attributes,
            lease_contract_length: self.lease_contract_length,
            term_rate: self.term_rate,
        }
    }
}

/// Why a savings-plan response could not be pivoted.
#[derive(Debug, Clone, PartialEq, Eq)]
pub enum PivotError {
    /// A term references a product sku that the response's product list does
    /// not carry.
    AttributesNotFound(String),
}

/// The attributes of each product, keyed by sku; a later product with the same
/// sku replaces an earlier one.
pub open spec fn spec_attribute_lookup(products: Seq<SavingPlanProduct>) -> Map<
    Seq<char>,
    SavingsPlanProductAttributes,
>
    decreases products.len(),
{
    if products.len() == 0 {
        Map::empty()
    } else {
        spec_attribute_lookup(products.drop_last()).insert(
            products.last().sku@,
            products.last().attributes,
        )
    }
}

/// The pivoted rows of one term: one row per rate, in the rates' order.
pub open spec fn spec_term_rows(
    term: SavingsPlanTerm,
    attrs: Map<Seq<char>, SavingsPlanProductAttributes>,
) -> Seq<PivotedRowView> {
    Seq::new(
        term.rates@.len(),
        |i: int|
            PivotedRowView {
                savings_plan_sku: term.sku,
                savings_plan_effective_date: term.effective_date,
                savings_plan_attributes: attrs[term.sku@],
                lease_contract_length: term.lease_contract_length,
                term_rate: term.rates@[i],
            },
    )
}

/// The pivoted rows of a whole response: every term's rows, terms in order.
pub open spec fn spec_pivot_rows(
    terms: Seq<SavingsPlanTerm>,
    attrs: Map<Seq<char>, SavingsPlanProductAttributes>,
) -> Seq<PivotedRowView>
    decreases terms.len(),
{
    if terms.len() == 0 {
        Seq::empty()
    } else {
        spec_pivot_rows(terms.drop_last(), attrs) + spec_term_rows(terms.last(), attrs)
    }
}

/// The bare attributes behind each shared handle of a lookup map.
pub open spec fn spec_lookup_values(
    m: Map<Seq<char>, Arc<SavingsPlanProductAttributes>>,
) -> Map<Seq<char>, SavingsPlanProductAttributes> {
    m.map_values(|a: Arc<SavingsPlanProductAttributes>| *a)
}

/// The views of a row sequence, element by element.
pub open spec fn spec_row_views(rows: Seq<PivotedSavingsPlanTermRate>) -> Seq<PivotedRowView> {
    rows.map_values(|row: PivotedSavingsPlanTermRate| row@)
}

/// Reshape a savings-plan response into one flat row per term rate, joining
/// each rate with its product's attributes by sku. Fails on the first term
/// that carries rates for a sku absent from the product list; a term without
/// rates needs no attributes and contributes no rows.
pub fn pivot(response: SavingsPlanListResponse) -> (r: Result<
    Vec<PivotedSavingsPlanTermRate>,
    PivotError,
>)
    ensures
        ({
            let attrs = spec_attribute_lookup(response.products@);
            let terms = response.terms.savings_plan@;
            match r {
                Ok(rows) => {
                    &&& forall|i: int|
                        0 <= i < terms.len() && terms[i].rates@.len() > 0
                            ==> attrs.contains_key(#[trigger] terms[i].sku@)
                    &&& spec_row_views(rows@) == spec_pivot_rows(terms, attrs)
                },
                Err(e) => exists|i: int|
                    0 <= i < terms.len() && terms[i].rates@.len() > 0 && !attrs.contains_key(
                        #[trigger] terms[i].sku@,
                    ) && e == PivotError::AttributesNotFound(terms[i].sku),
            }
        }),
{
    let products = response.products;
    let terms = response.terms.savings_plan;
    let ghost attrs = spec_attribute_lookup(products@);

    let mut attribute_lookup: StringHashMap<Arc<SavingsPlanProductAttributes>> =
        StringHashMap::new();
    let mut p: usize = 0;
    proof {
        assert(products@.take(0) =~= Seq::<SavingPlanProduct>::empty());
        assert(spec_lookup_values(attribute_lookup@) =~= spec_attribute_lookup(products@.take(0)));
    }
    while p < products.len()
        invariant
            p <= products@.len(),
            spec_lookup_values(attribute_lookup@) == spec_attribute_lookup(products@.take(p as int)),
        decreases products@.len() - p,
    {
        let product = &products[p];
        attribute_lookup.insert(product.sku.clone(), Arc::new(product.attributes.clone()));
        proof {
            assert(products@.take(p as int + 1).drop_last() =~= products@.take(p as int));
            assert(products@.take(p as int + 1).last() == products@[p as int]);
            assert(spec_lookup_values(attribute_lookup@) =~= spec_attribute_lookup(
                products@.take(p as int + 1),
            ));
        }
        p = p + 1;
    }
    proof {
        assert(products@.take(products@.len() as int) =~= products@);
        assert(spec_lookup_values(attribute_lookup@) == attrs);
    }

    let mut pivoted: Vec<PivotedSavingsPlanTermRate> = Vec::new();
    let mut i: usize = 0;
    proof {
        assert(terms@.take(0) =~= Seq::<SavingsPlanTerm>::empty());
        assert(spec_row_views(pivoted@) =~= spec_pivot_rows(terms@.take(0), attrs));
    }
    while i < terms.len()
        invariant
            i <= terms@.len(),
            spec_lookup_values(attribute_lookup@) == attrs,
            attrs == spec_attribute_lookup(response.products@),
            terms@ == response.terms.savings_plan@,
            spec_row_views(pivoted@) == spec_pivot_rows(terms@.take(i as int), attrs),
            forall|k: int|
                0 <= k < i && terms@[k].rates@.len() > 0 ==> attrs.contains_key(
                    #[trigger] terms@[k].sku@,
                ),
        decreases terms@.len() - i,
    {
        let term = &terms[i];
        let mut j: usize = 0;
        proof {
            assert(spec_term_rows(terms@[i as int], attrs).take(0)
                =~= Seq::<PivotedRowView>::empty());
            assert(spec_row_views(pivoted@) =~= spec_pivot_rows(terms@.take(i as int), attrs)
                + spec_term_rows(terms@[i as int], attrs).take(0));
        }
        while j < term.rates.len()
            invariant
                i < terms@.len(),
                term == &terms@[i as int],
                j <= term.rates@.len(),
                attrs == spec_attribute_lookup(response.products@),
                terms@ == response.terms.savings_plan@,
                spec_lookup_values(attribute_lookup@) == attrs,
                spec_row_views(pivoted@) == spec_pivot_rows(terms@.take(i as int), attrs)
                    + spec_term_rows(terms@[i as int], attrs).take(j as int),
                j > 0 ==> attrs.contains_key(terms@[i as int].sku@),
            decreases term.rates@.len() - j,
        {
            let attributes = match attribute_lookup.get(term.sku.as_str()) {
                Some(a) => arc_clone(a),
                None => {
                    proof {
                        assert(!spec_lookup_values(attribute_lookup@).contains_key(
                            terms@[i as int].sku@,
                        ));
                        assert((i as int) < terms@.len() && terms@[i as int].rates@.len() > 0
                            && !attrs.contains_key(terms@[i as int].sku@));
                    }
                    return Err(PivotError::AttributesNotFound(term.sku.clone()));
                },
            };
            proof {
                assert(spec_lookup_values(attribute_lookup@)[terms@[i as int].sku@] == *(
                attribute_lookup@[terms@[i as int].sku@]));
                assert(*attributes == attrs[terms@[i as int].sku@]);
            }
            let rate = term.rates[j].clone();
            let ghost prev = pivoted@;
            pivoted.push(
                PivotedSavingsPlanTermRate {
                    savings_plan_sku: term.sku.clone(),
                    savings_plan_effective_date: term.effective_date,
                    savings_plan_attributes: attributes,
                    lease_contract_length: term.lease_contract_length.clone(),
                    term_rate: rate,
                },
            );
            proof {
                let rows = spec_term_rows(terms@[i as int], attrs);
                assert(pivoted@[prev.len() as int]@ == rows[j as int]);
                assert(rows.take(j as int + 1) =~= rows.take(j as int).push(rows[j as int]));
                assert(spec_row_views(pivoted@) =~= spec_row_views(prev).push(rows[j as int]));
                assert(spec_row_views(pivoted@) =~= spec_pivot_rows(terms@.take(i as int), attrs)
                    + rows.take(j as int + 1));
            }
            j = j + 1;
        }
        proof {
            let rows = spec_term_rows(terms@[i as int], attrs);
            assert(rows.take(rows.len() as int) =~= rows);
            assert(terms@.take(i as int + 1).drop_last() =~= terms@.take(i as int));
            assert(terms@.take(i as int + 1).last() == terms@[i as int]);
            assert(spec_row_views(pivoted@) =~= spec_pivot_rows(terms@.take(i as int + 1), attrs));
        }
        i = i + 1;
    }
    proof {
        assert(terms@.take(terms@.len() as int) =~= terms@);
    }
    Ok(pivoted)
}

} // verus!
