//! The errors of the library.
use vstd::prelude::*;

verus! {

/// What can go wrong while resolving, fetching, downloading or converting.
#[derive(Debug, Clone)]
pub enum DxcError {
    Network(String),
    ProviderNotFound(String),
    DownloadFailed(String),
    ConversionFailed(String),
    Database(String),
    Config(String),
    Other(String),
}

impl DxcError {
    /// The text shown for the error: a prefix naming its kind, then its
    /// detail.
    pub open spec fn spec_message(&self) -> Seq<char> {
        match self {
            DxcError::Network(s) => "Network error: "@ + s@,
            DxcError::ProviderNotFound(s) => "Provider not found for URL: "@ + s@,
            DxcError::DownloadFailed(s) => "Download failed: "@ + s@,
            DxcError::ConversionFailed(s) => "Conversion failed: "@ + s@,
            DxcError::Database(s) => "Database error: "@ + s@,
            DxcError::Config(s) => "Config error: "@ + s@,
            DxcError::Other(s) => s@,
        }
    }

    /// The text shown for the error (what `to_string` gives).
    pub fn message(&self) -> (r: String)
        ensures
            r@ == self.spec_message(),
    {
        match self {
            DxcError::Network(s) => String::from_str("Network error: ").concat(s.as_str()),
            DxcError::ProviderNotFound(s) => String::from_str("Provider not found for URL: ").concat(
                s.as_str(),
            ),
            DxcError::DownloadFailed(s) => String::from_str("Download failed: ").concat(s.as_str()),
            DxcError::ConversionFailed(s) => String::from_str("Conversion failed: ").concat(
                s.as_str(),
            ),
            DxcError::Database(s) => String::from_str("Database error: ").concat(s.as_str()),
            DxcError::Config(s) => String::from_str("Config error: ").concat(s.as_str()),
            DxcError::Other(s) => s.clone(),
        }
    }
}

} // verus!
