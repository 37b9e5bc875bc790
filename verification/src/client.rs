//! The client: credential handling, URL construction, and the mapping of
//! transport outcomes to typed results.
//!
//! The client owns the base URL and the credential and builds every URL the
//! endpoint family needs. Performing the HTTP GET itself is I/O and is left
//! to the embedding program, which hands the outcome — the body text, or
//! the text of the transport failure — to
//! [`series_observation_outcome`].

use vstd::prelude::*;
use vstd::string::StringExecFns;
use crate::encode::lemma_add_empty_right;
use crate::decode::decode_observation_response;
use crate::decode::parsed_json;
use crate::decode::spec_response;
use crate::error::ClientError;
use crate::response::ObservationResponse;
use crate::series::BuilderModel;
use crate::series::ObservationBuilder;
use crate::series::spec_options;

verus! {

/// The fixed base of every URL of the remote API.
pub open spec fn spec_base_url() -> Seq<char> {
    "https://api.stlouisfed.org/fred/"@
}

/// The base URL as a string slice.
pub fn base_url() -> (r: &'static str)
    ensures
        r@ == spec_base_url(),
{
    "https://api.stlouisfed.org/fred/"
}

/// The URL of the liveness probe: a known lightweight category lookup.
pub open spec fn spec_probe_url(base: Seq<char>, api_key: Seq<char>) -> Seq<char> {
    base + "category?category_id=125&api_key="@ + api_key + "&file_type=json"@
}

/// The URL of one series-observations request: base, path, required
/// parameters, then the rendered fragment of the options builder if one
/// was supplied.
pub open spec fn spec_observation_url(
    base: Seq<char>,
    api_key: Seq<char>,
    series_id: Seq<char>,
    options: Option<BuilderModel>,
) -> Seq<char> {
    base + "series/observations?series_id="@ + series_id + "&api_key="@ + api_key
        + "&file_type=json"@ + (match options {
        None => Seq::empty(),
        Some(m) => spec_options(m),
    })
}

/// The client of the remote API: one base URL and one credential, set at
/// construction and never mutated afterwards.
pub struct FredClient {
    pub url_base: String,
    pub api_key: String,
}

impl FredClient {
    /// Builds a client from the credential the embedding program loaded,
    /// or reports `ConfigurationError` when none is present. No other
    /// outcome exists: a present credential always yields a client holding
    /// exactly that credential and the fixed base URL.
    pub fn new(credential: Option<String>) -> (r: Result<FredClient, ClientError>)
        ensures
            match credential {
                None => r matches Err(e) && e is ConfigurationError,
                Some(key) => r matches Ok(c) && c.api_key@ == key@ && c.url_base@
                    == spec_base_url(),
            },
    {
        match credential {
            None => Err(ClientError::ConfigurationError),
            Some(key) => {
                let mut base = String::new();
                base.append(base_url());
                proof {
                    assert(base@ =~= spec_base_url());
                }
                Ok(FredClient { url_base: base, api_key: key })
            },
        }
    }

    /// The URL of the construction-time liveness probe.
    pub fn probe_url(&self) -> (r: String)
        ensures
            r@ == spec_probe_url(self.url_base@, self.api_key@),
    {
        let mut url = self.url_base.clone();
        url.append("category?category_id=125&api_key=");
        url.append(self.api_key.as_str());
        url.append("&file_type=json");
        url
    }

    /// The URL of one series-observations request for `series_id`, with
    /// the rendered fragment of `opt_builder` appended when one is given.
    pub fn observation_url(&self, series_id: &str, opt_builder: Option<&ObservationBuilder>) -> (r:
        String)
        ensures
            r@ == spec_observation_url(
                self.url_base@,
                self.api_key@,
                series_id@,
                match opt_builder {
                    Some(b) => Some(b@),
                    None => None,
                },
            ),
    {
        let mut url = self.url_base.clone();
        url.append("series/observations?series_id=");
        url.append(series_id);
        url.append("&api_key=");
        url.append(self.api_key.as_str());
        url.append("&file_type=json");
        let ghost head = url@;
        match opt_builder {
            Some(b) => {
                let fragment = b.options();
                url.append(fragment.as_str());
            },
            None => {
                proof {
                    lemma_add_empty_right(head);
                }
            },
        }
        url
    }
}

/// Turns the outcome of the one GET of a series-observations request into
/// the typed result: a transport failure becomes `TransportError` wrapping
/// its cause, and a received body is decoded, exactly as
/// [`decode_observation_response`] states. No retry, no other outcome.
pub fn series_observation_outcome(transport: Result<String, String>) -> (r: Result<
    ObservationResponse,
    ClientError,
>)
    ensures
        match transport {
            Err(cause) => r matches Err(e) && e matches ClientError::TransportError(m) && m@
                == cause@,
            Ok(body) => match r {
                Ok(resp) => parsed_json(body@) matches Some(v) && spec_response(v) == Some(resp@),
                Err(e) => {
                    &&& e is DecodeError
                    &&& parsed_json(body@) matches Some(v) ==> spec_response(v) is None
                },
            },
        },
{
    match transport {
        Err(cause) => Err(ClientError::TransportError(cause)),
        Ok(body) => decode_observation_response(body.as_str()),
    }
}

} // verus!
