//! The error discipline of the client.
//!
//! Every fallible operation reports exactly one of these kinds, optionally
//! wrapping the text of the underlying cause. Nothing is retried and no
//! partial data accompanies an error.

use vstd::prelude::*;
use vstd::string::StringExecFns;

verus! {

/// One reportable failure of the client.
#[derive(Debug)]
pub enum ClientError {
    /// The required credential was absent at construction.
    ConfigurationError,
    /// The underlying HTTP client could not be built.
    TransportInitError(String),
    /// A network-level failure: connection, resolution, timeout, TLS.
    TransportError(String),
    /// The response body could not be decoded as the expected structure.
    DecodeError(String),
}

impl ClientError {
    /// The human-readable message of this error: its kind, then the text of
    /// the wrapped cause.
    pub open spec fn spec_message(&self) -> Seq<char> {
        match self {
            ClientError::ConfigurationError => "configuration error: FRED_API_KEY not found."@,
            ClientError::TransportInitError(cause) => "transport initialization error: "@ + cause@,
            ClientError::TransportError(cause) => "transport error: "@ + cause@,
            ClientError::DecodeError(cause) => "decode error: "@ + cause@,
        }
    }

    /// Renders this error as a human-readable message.
    pub fn message(&self) -> (r: String)
        ensures
            r@ == self.spec_message(),
    {
        match self {
            ClientError::ConfigurationError => {
                let mut out = String::new();
                out.append("configuration error: FRED_API_KEY not found.");
                proof {
                    assert(out@ =~= self.spec_message());
                }
                out
            },
            ClientError::TransportInitError(cause) => {
                let mut out = String::new();
                out.append("transport initialization error: ");
                out.append(cause.as_str());
                proof {
                    assert(out@ =~= self.spec_message());
                }
                out
            },
            ClientError::TransportError(cause) => {
                let mut out = String::new();
                out.append("transport error: ");
                out.append(cause.as_str());
                proof {
                    assert(out@ =~= self.spec_message());
                }
                out
            },
            ClientError::DecodeError(cause) => {
                let mut out = String::new();
                out.append("decode error: ");
                out.append(cause.as_str());
                proof {
                    assert(out@ =~= self.spec_message());
                }
                out
            },
        }
    }
}

} // verus!
