//! Gas-cost estimation core for Ethereum transactions: input parsing,
//! transaction classification, pricing decisions, a shared time-bounded
//! gas-price cache, cost arithmetic and the mapping of upstream failures to errors.
//!
//! Everything that talks to the network lives outside this library; the
//! functions here take the upstream results as plain values.

pub mod cache;
pub mod engine;
pub mod error;
pub mod format;
pub mod parse;
pub mod pricing;
pub mod transaction;
pub mod upstream;

pub use cache::{fetched_price, BlockMetricsCache, CacheLookup, CachedPrice, GasPriceCache};
pub use engine::{assemble_estimation, complete_estimate, plan_estimate, total_cost, EstimatePlan};
pub use error::{Error, ErrorKind, Result};
pub use format::{decimal_text, format_ether};
pub use parse::{parse_address, parse_bytes, parse_u128, parse_u256};
pub use pricing::{fee_market_price, price_source, PriceSource, DEFAULT_PRIORITY_FEE};
pub use transaction::{
    build_transaction_request, determine_transaction_type, estimate_execution_time,
    invalid_amount, validate_input, GasEstimation, GasRequest, TransactionInput, TransactionType,
};
pub use upstream::{classify_rpc_message, contains_text, map_upstream_error, UpstreamError};
