use vstd::prelude::*;
use crate::error::{Error, ErrorKind, Result};
use crate::parse::{
    hex_bytes, is_address_text, is_hex_text, is_u128_text, parse_address, parse_bytes,
    is_u256_text, limbs_value, parse_u128, parse_u256, u128_text_value, u256_text_value,
};

verus! {

/// A transaction as a client submits it: addresses and amounts as untrusted text.
#[derive(Debug, Clone)]
pub struct TransactionInput {
    pub from: String,
    pub to: String,
    pub data: Option<String>,
    pub value: Option<String>,
    pub gas_price: Option<String>,
    pub max_fee_per_gas: Option<String>,
    pub max_priority_fee_per_gas: Option<String>,
    pub _nonce: Option<u64>,
}

/// The result of an estimation, every amount written in decimal.
#[derive(Debug, Clone)]
pub struct GasEstimation {
    pub gas_limit: String,
    pub gas_price: String,
    pub estimated_cost_wei: String,
    pub estimated_cost_eth: String,
    pub estimated_execution_time: Option<String>,
    pub type_of_transaction: String,
}

/// How a transaction is priced: one flat gas price, or fee-market fields.
#[derive(Debug, Clone, Copy, PartialEq, Eq, Structural)]
pub enum TransactionType {
    Legacy,
    EIP1559,
}

/// A validated request for the upstream gas estimate, every field typed.
#[derive(Debug, Clone)]
pub struct GasRequest {
    pub from: [u8; 20],
    pub to: [u8; 20],
    pub input: Option<Vec<u8>>,
    /// A 256-bit amount as four limbs, least significant first.
    pub value: Option<[u64; 4]>,
    pub max_fee_per_gas: Option<u128>,
    pub max_priority_fee_per_gas: Option<u128>,
    pub gas_price: Option<u128>,
}

/// Fee-market fields take priority: either one makes the transaction `EIP1559`.
pub open spec fn class_of(tx: TransactionInput) -> TransactionType {
    if tx.max_fee_per_gas is Some || tx.max_priority_fee_per_gas is Some {
        TransactionType::EIP1559
    } else {
        TransactionType::Legacy
    }
}

pub open spec fn transaction_type_name(t: TransactionType) -> Seq<char> {
    match t {
        TransactionType::Legacy => "legacy"@,
        TransactionType::EIP1559 => "eip1559"@,
    }
}

/// The static execution-time heuristic of each kind of transaction.
pub open spec fn execution_time_text(t: TransactionType) -> Seq<char> {
    match t {
        TransactionType::Legacy => "~30 seconds"@,
        TransactionType::EIP1559 => "~15 seconds"@,
    }
}

/// An optional amount field is absent or a valid 128-bit amount.
pub open spec fn amount_field_ok(f: Option<String>) -> bool {
    f is None || is_u128_text(f->0@)
}

/// The value of an optional amount field, where it is valid.
pub open spec fn amount_field(f: Option<String>) -> Option<u128> {
    match f {
        Some(s) => Some(u128_text_value(s@) as u128),
        None => None,
    }
}

/// The message that reports an invalid amount in the field called `name`.
pub open spec fn amount_error(name: Seq<char>) -> Seq<char> {
    "Invalid '"@ + name + "' amount"@
}

/// The message of the first invalid field of `tx`, in the order in which the
/// fields are read, if any field is invalid.
pub open spec fn request_error(tx: TransactionInput) -> Option<Seq<char>> {
    if !is_address_text(tx.from@) {
        Some("Invalid address in 'from': "@ + tx.from@)
    } else if !is_address_text(tx.to@) {
        Some("Invalid address in 'to': "@ + tx.to@)
    } else if tx.data is Some && !is_hex_text(tx.data->0@) {
        Some("Invalid 'data' hex"@)
    } else if tx.value is Some && !is_u256_text(tx.value->0@) {
        Some("Invalid 'value' amount"@)
    } else if !amount_field_ok(tx.max_fee_per_gas) {
        Some(amount_error("maxFeePerGas"@))
    } else if !amount_field_ok(tx.max_priority_fee_per_gas) {
        Some(amount_error("maxPriorityFeePerGas"@))
    } else if !amount_field_ok(tx.gas_price) {
        Some(amount_error("gasPrice"@))
    } else {
        None
    }
}

/// `req` holds exactly what the fields of `tx` denote.
pub open spec fn request_of(req: GasRequest, tx: TransactionInput) -> bool {
    &&& req.from@ == hex_bytes(tx.from@)
    &&& req.to@ == hex_bytes(tx.to@)
    &&& req.input is Some == tx.data is Some
    &&& req.input is Some ==> req.input->0@ == hex_bytes(tx.data->0@)
    &&& req.value is Some == tx.value is Some
    &&& req.value is Some ==> limbs_value(req.value->0@) == u256_text_value(tx.value->0@)
    &&& req.max_fee_per_gas == amount_field(tx.max_fee_per_gas)
    &&& req.max_priority_fee_per_gas == amount_field(tx.max_priority_fee_per_gas)
    &&& req.gas_price == amount_field(tx.gas_price)
}

impl TransactionType {
    /// The lower-case name of the kind of transaction.
    pub fn as_str(&self) -> (r: &'static str)
        ensures
            r@ == transaction_type_name(*self),
    {
        match self {
            TransactionType::Legacy => "legacy",
            TransactionType::EIP1559 => "eip1559",
        }
    }
}

/// Classifies a transaction: `EIP1559` when either fee-market field is
/// present, even beside a legacy gas price; `Legacy` otherwise.
pub fn determine_transaction_type(tx: &TransactionInput) -> (r: TransactionType)
    ensures
        r == class_of(*tx),
        tx.max_fee_per_gas is Some || tx.max_priority_fee_per_gas is Some
            ==> r == TransactionType::EIP1559,
        tx.max_fee_per_gas is None && tx.max_priority_fee_per_gas is None
            ==> r == TransactionType::Legacy,
{
    if tx.max_fee_per_gas.is_some() || tx.max_priority_fee_per_gas.is_some() {
        TransactionType::EIP1559
    } else {
        TransactionType::Legacy
    }
}

/// A human-readable estimate of how long the transaction takes to be included.
pub fn estimate_execution_time(tx_type: &TransactionType) -> (r: Option<String>)
    ensures
        r is Some,
        r->0@ == execution_time_text(*tx_type),
{
    match tx_type {
        TransactionType::Legacy => Some(String::from_str("~30 seconds")),
        TransactionType::EIP1559 => Some(String::from_str("~15 seconds")),
    }
}

/// The error that reports an invalid amount in the field called `name`.
pub fn invalid_amount(name: &str) -> (e: Error)
    ensures
        e.is(ErrorKind::InvalidInput, amount_error(name@)),
{
    Error::InvalidInput(String::from_str("Invalid '").concat(name).concat("' amount"))
}

/// Parses the optional amount field called `name`.
fn parse_amount_field(f: &Option<String>, name: &str) -> (r: Result<Option<u128>>)
    ensures
        r is Ok <==> amount_field_ok(*f),
        r is Ok ==> r->Ok_0 == amount_field(*f),
        r is Err ==> r->Err_0.is(ErrorKind::InvalidInput, amount_error(name@)),
{
    match f {
        Some(s) => match parse_u128(s.as_str()) {
            Ok(v) => Ok(Some(v)),
            Err(_) => Err(invalid_amount(name)),
        },
        None => Ok(None),
    }
}

/// Validates every field of `tx` and builds the upstream estimate request
/// from it; each optional field is parsed only if present, and the first
/// invalid one is reported.
pub fn build_transaction_request(tx: &TransactionInput) -> (r: Result<GasRequest>)
    ensures
        r is Err <==> request_error(*tx) is Some,
        r is Err ==> r->Err_0.is(ErrorKind::InvalidInput, request_error(*tx)->0),
        r is Ok ==> request_of(r->Ok_0, *tx),
{
    let from = match parse_address(tx.from.as_str()) {
        Ok(a) => a,
        Err(_) => {
            return Err(
                Error::InvalidInput(
                    String::from_str("Invalid address in 'from': ").concat(tx.from.as_str()),
                ),
            )
        },
    };
    let to = match parse_address(tx.to.as_str()) {
        Ok(a) => a,
        Err(_) => {
            return Err(
                Error::InvalidInput(
                    String::from_str("Invalid address in 'to': ").concat(tx.to.as_str()),
                ),
            )
        },
    };
    let input = match &tx.data {
        Some(d) => match parse_bytes(d.as_str()) {
            Ok(b) => Some(b),
            Err(_) => return Err(Error::InvalidInput(String::from_str("Invalid 'data' hex"))),
        },
        None => None,
    };
    let value = match &tx.value {
        Some(v) => match parse_u256(v.as_str()) {
            Ok(l) => Some(l),
            Err(_) => return Err(Error::InvalidInput(String::from_str("Invalid 'value' amount"))),
        },
        None => None,
    };
    let max_fee_per_gas = match parse_amount_field(&tx.max_fee_per_gas, "maxFeePerGas") {
        Ok(v) => v,
        Err(e) => return Err(e),
    };
    let max_priority_fee_per_gas = match parse_amount_field(
        &tx.max_priority_fee_per_gas,
        "maxPriorityFeePerGas",
    ) {
        Ok(v) => v,
        Err(e) => return Err(e),
    };
    let gas_price = match parse_amount_field(&tx.gas_price, "gasPrice") {
        Ok(v) => v,
        Err(e) => return Err(e),
    };
    Ok(GasRequest { from, to, input, value, max_fee_per_gas, max_priority_fee_per_gas, gas_price })
}

/// Checks the fields that the estimation engine requires before it is entered:
/// both addresses must be given.
pub fn validate_input(tx: &TransactionInput) -> (r: Result<()>)
    ensures
        r is Ok <==> tx.from@.len() > 0 && tx.to@.len() > 0,
        tx.from@.len() == 0 ==> r is Err && r->Err_0.is(
            ErrorKind::InvalidInput,
            "Missing 'from' address"@,
        ),
        tx.from@.len() > 0 && tx.to@.len() == 0 ==> r is Err && r->Err_0.is(
            ErrorKind::InvalidInput,
            "Missing 'to' address"@,
        ),
{
    if tx.from.as_str().unicode_len() == 0 {
        return Err(Error::InvalidInput(String::from_str("Missing 'from' address")));
    }
    if tx.to.as_str().unicode_len() == 0 {
        return Err(Error::InvalidInput(String::from_str("Missing 'to' address")));
    }
    Ok(())
}

} // verus!
