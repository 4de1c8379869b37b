use vstd::prelude::*;
use crate::error::{ErrorKind, Result};
use crate::parse::{is_u128_text, parse_u128, u128_text_value};
use crate::transaction::{amount_error, invalid_amount, TransactionInput, TransactionType};

verus! {

/// The priority fee assumed for a fee-market transaction that names none: 1.5 gwei.
pub const DEFAULT_PRIORITY_FEE: u128 = 1_500_000_000;

/// Where the gas price of a transaction comes from.
#[derive(Debug, Clone, Copy, PartialEq, Eq, Structural)]
pub enum PriceSource {
    /// The price the client gave for a legacy transaction; it bypasses the cache.
    Explicit(u128),
    /// The network price, through the shared cache.
    Cached,
    /// The current network price, but never below the priority fee.
    Market { priority_fee: u128 },
}

/// The price source of a transaction of kind `t`, or `None` when the field
/// that decides it is not a valid amount.
pub open spec fn price_source_of(t: TransactionType, tx: TransactionInput) -> Option<PriceSource> {
    match t {
        TransactionType::Legacy => match tx.gas_price {
            Some(s) => if is_u128_text(s@) {
                Some(PriceSource::Explicit(u128_text_value(s@) as u128))
            } else {
                None
            },
            None => Some(PriceSource::Cached),
        },
        TransactionType::EIP1559 => match tx.max_priority_fee_per_gas {
            Some(s) => if is_u128_text(s@) {
                Some(PriceSource::Market { priority_fee: u128_text_value(s@) as u128 })
            } else {
                None
            },
            None => Some(PriceSource::Market { priority_fee: DEFAULT_PRIORITY_FEE }),
        },
    }
}

/// The name of the field from which a transaction of kind `t` takes its price.
pub open spec fn price_field_name(t: TransactionType) -> Seq<char> {
    match t {
        TransactionType::Legacy => "gasPrice"@,
        TransactionType::EIP1559 => "maxPriorityFeePerGas"@,
    }
}

pub open spec fn max_price(a: u128, b: u128) -> u128 {
    if a >= b {
        a
    } else {
        b
    }
}

/// Decides where the gas price of a transaction of kind `tx_type` comes
/// from: a legacy transaction's explicit price wins, else the cache; a
/// fee-market transaction is priced from the network with its priority fee,
/// or the default one, as a floor.
pub fn price_source(tx_type: TransactionType, tx: &TransactionInput) -> (r: Result<PriceSource>)
    ensures
        r is Ok <==> price_source_of(tx_type, *tx) is Some,
        r is Ok ==> r->Ok_0 == price_source_of(tx_type, *tx)->0,
        r is Err ==> r->Err_0.is(ErrorKind::InvalidInput, amount_error(price_field_name(tx_type))),
{
    match tx_type {
        TransactionType::Legacy => match &tx.gas_price {
            Some(s) => match parse_u128(s.as_str()) {
                Ok(p) => Ok(PriceSource::Explicit(p)),
                Err(_) => Err(invalid_amount("gasPrice")),
            },
            None => Ok(PriceSource::Cached),
        },
        TransactionType::EIP1559 => match &tx.max_priority_fee_per_gas {
            Some(s) => match parse_u128(s.as_str()) {
                Ok(p) => Ok(PriceSource::Market { priority_fee: p }),
                Err(_) => Err(invalid_amount("maxPriorityFeePerGas")),
            },
            None => Ok(PriceSource::Market { priority_fee: DEFAULT_PRIORITY_FEE }),
        },
    }
}

/// The price of a fee-market transaction: the current network price, but
/// never below the priority fee.
pub fn fee_market_price(current_gas_price: u128, priority_fee: u128) -> (r: u128)
    ensures
        r == max_price(current_gas_price, priority_fee),
        r >= priority_fee,
        r >= current_gas_price,
{
    if current_gas_price >= priority_fee {
        current_gas_price
    } else {
        priority_fee
    }
}

} // verus!
