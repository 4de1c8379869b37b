use vstd::prelude::*;
use crate::error::{Error, ErrorKind, Result};
use crate::format::{decimal_digits, decimal_text, ether_text, format_ether};
use crate::pricing::{price_source, price_source_of, PriceSource};
use crate::transaction::{
    build_transaction_request, class_of, determine_transaction_type, estimate_execution_time,
    execution_time_text, request_error, request_of, transaction_type_name, GasEstimation,
    GasRequest, TransactionInput, TransactionType,
};

verus! {

/// Everything an estimation needs from the upstream node, decided from the
/// input alone: the request for the gas limit, the kind of transaction and
/// where its price comes from.
#[derive(Debug, Clone)]
pub struct EstimatePlan {
    pub request: GasRequest,
    pub tx_type: TransactionType,
    pub price: PriceSource,
}

/// `price * limit`, clamped to the largest 128-bit value.
pub open spec fn saturating_product(price: u128, limit: u128) -> u128 {
    if price * limit > u128::MAX {
        u128::MAX
    } else {
        (price * limit) as u128
    }
}

/// `e` reports a transaction of kind `t` priced at `price` with gas limit `limit`.
pub open spec fn estimation_of(e: GasEstimation, t: TransactionType, price: u128, limit: u64) -> bool {
    let cost = saturating_product(price, limit as u128);
    &&& e.gas_limit@ == decimal_digits(limit as nat)
    &&& e.gas_price@ == decimal_digits(price as nat)
    &&& e.estimated_cost_wei@ == decimal_digits(cost as nat)
    &&& e.estimated_cost_eth@ == ether_text(cost as nat)
    &&& e.estimated_execution_time is Some
    &&& e.estimated_execution_time->0@ == execution_time_text(t)
    &&& e.type_of_transaction@ == transaction_type_name(t)
}

/// Validates and classifies a transaction, and decides what to ask upstream.
/// Fails with the first invalid field, before any network call.
pub fn plan_estimate(tx: &TransactionInput) -> (r: Result<EstimatePlan>)
    ensures
        r is Err <==> request_error(*tx) is Some,
        r is Err ==> r->Err_0.is(ErrorKind::InvalidInput, request_error(*tx)->0),
        r is Ok ==> request_of(r->Ok_0.request, *tx),
        r is Ok ==> r->Ok_0.tx_type == class_of(*tx),
        r is Ok ==> price_source_of(class_of(*tx), *tx) == Some(r->Ok_0.price),
{
    let request = match build_transaction_request(tx) {
        Ok(req) => req,
        Err(e) => return Err(e),
    };
    let tx_type = determine_transaction_type(tx);
    let price = match price_source(tx_type, tx) {
        Ok(p) => p,
        Err(e) => return Err(e),
    };
    Ok(EstimatePlan { request, tx_type, price })
}

/// The total cost of a transaction, clamped to the largest 128-bit value
/// instead of wrapping.
pub fn total_cost(price: u128, limit: u128) -> (r: u128)
    ensures
        r == saturating_product(price, limit),
        price * limit > u128::MAX ==> r == u128::MAX,
        price * limit <= u128::MAX ==> r == price * limit,
{
    match price.checked_mul(limit) {
        Some(c) => c,
        None => u128::MAX,
    }
}

/// Builds the estimation of a transaction of kind `tx_type` from its price and gas limit.
pub fn assemble_estimation(tx_type: TransactionType, price: u128, limit: u64) -> (r: GasEstimation)
    ensures
        estimation_of(r, tx_type, price, limit),
{
    let cost = total_cost(price, limit as u128);
    GasEstimation {
        gas_limit: decimal_text(limit as u128),
        gas_price: decimal_text(price),
        estimated_cost_wei: decimal_text(cost),
        estimated_cost_eth: format_ether(cost),
        estimated_execution_time: estimate_execution_time(&tx_type),
        type_of_transaction: String::from_str(tx_type.as_str()),
    }
}

/// Joins the two upstream branches of an estimation: the price and the gas
/// limit. A failure of either one fails the whole estimation (the price's
/// first); only when both succeeded is the estimation built.
pub fn complete_estimate(tx_type: TransactionType, price: Result<u128>, limit: Result<u64>) -> (r:
    Result<GasEstimation>)
    ensures
        price is Err ==> r == Err::<GasEstimation, Error>(price->Err_0),
        price is Ok && limit is Err ==> r == Err::<GasEstimation, Error>(limit->Err_0),
        price is Ok && limit is Ok ==> r is Ok && estimation_of(
            r->Ok_0,
            tx_type,
            price->Ok_0,
            limit->Ok_0,
        ),
{
    let price = match price {
        Ok(p) => p,
        Err(e) => return Err(e),
    };
    let limit = match limit {
        Ok(l) => l,
        Err(e) => return Err(e),
    };
    Ok(assemble_estimation(tx_type, price, limit))
}

/// Two estimations of the same kind of transaction, from the same price and
/// gas limit, agree in every field: with identical input and an unchanged
/// upstream state, estimating twice gives the same answer.
pub proof fn lemma_estimation_repeatable(
    e1: GasEstimation,
    e2: GasEstimation,
    t: TransactionType,
    price: u128,
    limit: u64,
)
    requires
        estimation_of(e1, t, price, limit),
        estimation_of(e2, t, price, limit),
    ensures
        e1.gas_limit@ == e2.gas_limit@,
        e1.gas_price@ == e2.gas_price@,
        e1.estimated_cost_wei@ == e2.estimated_cost_wei@,
        e1.estimated_cost_eth@ == e2.estimated_cost_eth@,
        e1.estimated_execution_time->0@ == e2.estimated_execution_time->0@,
        e1.type_of_transaction@ == e2.type_of_transaction@,
{
}

} // verus!
