use vstd::prelude::*;
use crate::error::{Error, ErrorKind};

verus! {

/// An upstream JSON-RPC failure, by shape, with the texts that describe it.
#[derive(Debug, Clone)]
pub enum UpstreamError {
    /// The node answered with an error object carrying this message.
    ErrorResp { message: String },
    /// The node answered null where a value was expected.
    NullResp,
    /// The node does not support a feature that the call needs.
    UnsupportedFeature(String),
    /// A local pre-processing step failed.
    LocalUsageError(String),
    /// The request could not be serialized.
    SerError(String),
    /// The response could not be deserialized.
    DeserError { err: String, text: String },
    /// The transport failed.
    Transport,
}

/// `needle` occurs in `hay` as a contiguous run.
pub open spec fn contains_seq(hay: Seq<char>, needle: Seq<char>) -> bool {
    exists|i: int|
        0 <= i && i + needle.len() <= hay.len() && #[trigger] hay.subrange(i, i + needle.len())
            == needle
}

/// The lower-case form of a text, as the standard library computes it.
pub uninterp spec fn lower_of(s: Seq<char>) -> Seq<char>;

/// The category and message to which an upstream error message maps;
/// `lowered` is the lower-case form of `message`, searched for the phrases
/// by which a node reports a transaction that would fail.
pub open spec fn rpc_message_error(lowered: Seq<char>, message: Seq<char>) -> (ErrorKind, Seq<char>) {
    if contains_seq(lowered, "execution reverted"@) {
        (ErrorKind::GasEstimation, "Transaction would fail: Details: "@ + message)
    } else if contains_seq(lowered, "gas required exceeds allowance"@) {
        (ErrorKind::GasEstimation, "Transaction would fail: gas required exceeds allowance"@)
    } else {
        (ErrorKind::Provider, "RPC error: "@ + message)
    }
}

/// The category and message to which each upstream failure maps.
pub open spec fn upstream_error(e: UpstreamError) -> (ErrorKind, Seq<char>) {
    match e {
        UpstreamError::ErrorResp { message } => rpc_message_error(lower_of(message@), message@),
        UpstreamError::NullResp => (ErrorKind::Provider, "Received null response"@),
        UpstreamError::UnsupportedFeature(m) => (ErrorKind::Provider, "Unsupported feature: "@ + m@),
        UpstreamError::LocalUsageError(m) => (ErrorKind::Provider, "Local usage error: "@ + m@),
        UpstreamError::SerError(m) => (ErrorKind::Provider, "Serialization error: "@ + m@),
        UpstreamError::DeserError { err, text } => (
            ErrorKind::Provider,
            "Deserialization error: "@ + err@ + " for text: "@ + text@,
        ),
        UpstreamError::Transport => (ErrorKind::Provider, "Transport error"@),
    }
}

/// Relies on `str::to_lowercase`: the result depends on the characters alone.
#[verifier::external_body]
fn lowercase(s: &str) -> (r: String)
    ensures
        r@ == lower_of(s@),
{
    s.to_lowercase()
}

fn matches_at(hay: &str, needle: &str, i: usize) -> (r: bool)
    requires
        i + needle@.len() <= hay@.len(),
        hay@.len() <= usize::MAX,
    ensures
        r == (hay@.subrange(i as int, i + needle@.len()) == needle@),
{
    let n = needle.unicode_len();
    let mut j: usize = 0;
    while j < n
        invariant
            n == needle@.len(),
            i + n <= hay@.len(),
            hay@.len() <= usize::MAX,
            j <= n,
            forall|k: int| 0 <= k < j ==> hay@[i + k] == needle@[k],
        decreases n - j,
    {
        if hay.get_char(i + j) != needle.get_char(j) {
            assert(hay@.subrange(i as int, i + n)[j as int] != needle@[j as int]);
            return false;
        }
        j = j + 1;
    }
    assert(hay@.subrange(i as int, i + n) =~= needle@);
    true
}

/// Whether `needle` occurs in `hay`.
pub fn contains_text(hay: &str, needle: &str) -> (r: bool)
    ensures
        r == contains_seq(hay@, needle@),
{
    let h = hay.unicode_len();
    let n = needle.unicode_len();
    if n > h {
        return false;
    }
    let mut i: usize = 0;
    loop
        invariant
            h == hay@.len(),
            n == needle@.len(),
            n <= h,
            i <= h - n,
            forall|k: int| 0 <= k < i ==> #[trigger] hay@.subrange(k, k + n) != needle@,
        decreases h - n - i,
    {
        if matches_at(hay, needle, i) {
            return true;
        }
        if i == h - n {
            return false;
        }
        i = i + 1;
    }
}

/// Maps an upstream error message, given with its lower-case form, to an error:
/// a message that mentions a revert, or a gas requirement beyond the
/// allowance, means the transaction itself would fail; any other is a
/// provider failure.
pub fn classify_rpc_message(lowered: &str, message: &str) -> (r: Error)
    ensures
        r.is(rpc_message_error(lowered@, message@).0, rpc_message_error(lowered@, message@).1),
{
    if contains_text(lowered, "execution reverted") {
        Error::GasEstimation(String::from_str("Transaction would fail: Details: ").concat(message))
    } else if contains_text(lowered, "gas required exceeds allowance") {
        Error::GasEstimation(
            String::from_str("Transaction would fail: gas required exceeds allowance"),
        )
    } else {
        Error::Provider(String::from_str("RPC error: ").concat(message))
    }
}

/// Maps an upstream failure to the error taxonomy of the library.
pub fn map_upstream_error(e: &UpstreamError) -> (r: Error)
    ensures
        r.is(upstream_error(*e).0, upstream_error(*e).1),
{
    match e {
        UpstreamError::ErrorResp { message } => {
            let lowered = lowercase(message.as_str());
            classify_rpc_message(lowered.as_str(), message.as_str())
        },
        UpstreamError::NullResp => Error::Provider(String::from_str("Received null response")),
        UpstreamError::UnsupportedFeature(m) => Error::Provider(
            String::from_str("Unsupported feature: ").concat(m.as_str()),
        ),
        UpstreamError::LocalUsageError(m) => Error::Provider(
            String::from_str("Local usage error: ").concat(m.as_str()),
        ),
        UpstreamError::SerError(m) => Error::Provider(
            String::from_str("Serialization error: ").concat(m.as_str()),
        ),
        UpstreamError::DeserError { err, text } => Error::Provider(
            String::from_str("Deserialization error: ").concat(err.as_str()).concat(
                " for text: ",
            ).concat(text.as_str()),
        ),
        UpstreamError::Transport => Error::Provider(String::from_str("Transport error")),
    }
}

} // verus!
