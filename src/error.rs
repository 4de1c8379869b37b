use vstd::prelude::*;

verus! {

/// The failures that the estimation core reports, by category, each with a
/// human-readable message.
#[derive(Debug, Clone)]
pub enum Error {
    /// Startup or environment misconfiguration.
    Config(String),
    /// The upstream node is unreachable, or answered with something malformed.
    Provider(String),
    /// A malformed or missing field in the request.
    InvalidInput(String),
    /// The node indicates that the transaction would fail on chain.
    GasEstimation(String),
    /// An unexpected internal failure.
    Server(String),
}

/// The category of an [`Error`], without its message.
#[derive(Debug, Clone, Copy, PartialEq, Eq, Structural)]
pub enum ErrorKind {
    Config,
    Provider,
    InvalidInput,
    GasEstimation,
    Server,
}

pub type Result<T> = core::result::Result<T, Error>;

/// The machine-readable name of each category.
pub open spec fn kind_name(k: ErrorKind) -> Seq<char> {
    match k {
        ErrorKind::Config => "configuration_error"@,
        ErrorKind::Provider => "provider_error"@,
        ErrorKind::InvalidInput => "invalid_input"@,
        ErrorKind::GasEstimation => "gas_estimation_error"@,
        ErrorKind::Server => "server_error"@,
    }
}

/// The text put before the message when an error is described in full.
pub open spec fn kind_prefix(k: ErrorKind) -> Seq<char> {
    match k {
        ErrorKind::Config => "Configuration error: "@,
        ErrorKind::Provider => "Ethereum provider error: "@,
        ErrorKind::InvalidInput => "Invalid input: "@,
        ErrorKind::GasEstimation => "Gas estimation failed: "@,
        ErrorKind::Server => "Server error: "@,
    }
}

/// The HTTP status under which each category is reported.
pub open spec fn kind_status(k: ErrorKind) -> u16 {
    match k {
        ErrorKind::Config => 500,
        ErrorKind::Provider => 503,
        ErrorKind::InvalidInput => 400,
        ErrorKind::GasEstimation => 400,
        ErrorKind::Server => 500,
    }
}

impl Error {
    pub open spec fn kind(&self) -> ErrorKind {
        match self {
            Error::Config(_) => ErrorKind::Config,
            Error::Provider(_) => ErrorKind::Provider,
            Error::InvalidInput(_) => ErrorKind::InvalidInput,
            Error::GasEstimation(_) => ErrorKind::GasEstimation,
            Error::Server(_) => ErrorKind::Server,
        }
    }

    pub open spec fn message(&self) -> Seq<char> {
        match self {
            Error::Config(m) => m@,
            Error::Provider(m) => m@,
            Error::InvalidInput(m) => m@,
            Error::GasEstimation(m) => m@,
            Error::Server(m) => m@,
        }
    }

    /// The error is of category `k` and carries the message `m`.
    pub open spec fn is(&self, k: ErrorKind, m: Seq<char>) -> bool {
        self.kind() == k && self.message() == m
    }

    /// The machine-readable name of the error's category.
    pub fn error_type(&self) -> (r: &'static str)
        ensures
            r@ == kind_name(self.kind()),
    {
        match self {
            Error::Config(_) => "configuration_error",
            Error::Provider(_) => "provider_error",
            Error::InvalidInput(_) => "invalid_input",
            Error::GasEstimation(_) => "gas_estimation_error",
            Error::Server(_) => "server_error",
        }
    }

    fn prefix(&self) -> (r: &'static str)
        ensures
            r@ == kind_prefix(self.kind()),
    {
        match self {
            Error::Config(_) => "Configuration error: ",
            Error::Provider(_) => "Ethereum provider error: ",
            Error::InvalidInput(_) => "Invalid input: ",
            Error::GasEstimation(_) => "Gas estimation failed: ",
            Error::Server(_) => "Server error: ",
        }
    }

    /// The message carried by the error.
    pub fn message_text(&self) -> (r: &str)
        ensures
            r@ == self.message(),
    {
        match self {
            Error::Config(m) => m.as_str(),
            Error::Provider(m) => m.as_str(),
            Error::InvalidInput(m) => m.as_str(),
            Error::GasEstimation(m) => m.as_str(),
            Error::Server(m) => m.as_str(),
        }
    }

    /// The full description: the category's prefix followed by the message.
    pub fn describe(&self) -> (r: String)
        ensures
            r@ == kind_prefix(self.kind()) + self.message(),
    {
        String::from_str(self.prefix()).concat(self.message_text())
    }

    /// The HTTP status code under which the error is reported to a client.
    pub fn http_status(&self) -> (r: u16)
        ensures
            r == kind_status(self.kind()),
    {
        match self {
            Error::Config(_) => 500,
            Error::Provider(_) => 503,
            Error::InvalidInput(_) => 400,
            Error::GasEstimation(_) => 400,
            Error::Server(_) => 500,
        }
    }

    /// The message shown to a client: the bare message for a rejected request,
    /// the full description otherwise.
    pub fn response_message(&self) -> (r: String)
        ensures
            r@ == (match self.kind() {
                ErrorKind::InvalidInput | ErrorKind::GasEstimation => self.message(),
                _ => kind_prefix(self.kind()) + self.message(),
            }),
    {
        match self {
            Error::InvalidInput(m) => m.clone(),
            Error::GasEstimation(m) => m.clone(),
            _ => self.describe(),
        }
    }
}

} // verus!
