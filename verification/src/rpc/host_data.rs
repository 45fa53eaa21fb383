//! The start-up data that the host hands to a provider through the environment: JSON, written
//! in base64.

use crate::lattice::HostData;
use vstd::prelude::*;

verus! {

/// The environment variable that holds the host data.
pub const HOST_DATA_ENV: &'static str = "WASMCLOUD_HOST_DATA";

/// Why there is no host data.
#[derive(Debug, PartialEq, Eq)]
pub enum HostDataError {
    /// The environment variable is not set.
    NotFound,
    /// The variable's value is not base64, for this reason.
    InvalidBase64(String),
    /// The decoded value is not the JSON of host data, for this reason.
    InvalidJson(String),
}

/// What a [`HostDataError`] says.
#[verifier::ext_equal]
pub enum HostDataErrorView {
    NotFound,
    InvalidBase64(Seq<char>),
    InvalidJson(Seq<char>),
}

impl View for HostDataError {
    type V = HostDataErrorView;

    open spec fn view(&self) -> HostDataErrorView {
        match *self {
            HostDataError::NotFound => HostDataErrorView::NotFound,
            HostDataError::InvalidBase64(reason) => HostDataErrorView::InvalidBase64(reason@),
            HostDataError::InvalidJson(reason) => HostDataErrorView::InvalidJson(reason@),
        }
    }
}

/// The words that a [`HostDataError`] is reported in.
pub open spec fn host_data_error_text(error: HostDataErrorView) -> Seq<char> {
    match error {
        HostDataErrorView::NotFound => "env variable '"@ + HOST_DATA_ENV@ + "' not found"@,
        HostDataErrorView::InvalidBase64(reason) => "env variable '"@ + HOST_DATA_ENV@
            + "' is invalid base64: "@ + reason,
        HostDataErrorView::InvalidJson(reason) => "parsing '"@ + HOST_DATA_ENV@ + "': "@ + reason,
    }
}

impl HostDataError {
    /// The error in words.
    pub fn message(&self) -> (text: String)
        ensures
            text@ == host_data_error_text(self@),
            text@ == match *self {
                HostDataError::NotFound => "env variable '"@ + HOST_DATA_ENV@ + "' not found"@,
                HostDataError::InvalidBase64(reason) => "env variable '"@ + HOST_DATA_ENV@
                    + "' is invalid base64: "@ + reason@,
                HostDataError::InvalidJson(reason) => "parsing '"@ + HOST_DATA_ENV@ + "': "@
                    + reason@,
            },
    {
        match self {
            HostDataError::NotFound => {
                let mut text = String::from_str("env variable '");
                text.append(HOST_DATA_ENV);
                text.append("' not found");
                text
            },
            HostDataError::InvalidBase64(reason) => {
                let mut text = String::from_str("env variable '");
                text.append(HOST_DATA_ENV);
                text.append("' is invalid base64: ");
                text.append(reason.as_str());
                text
            },
            HostDataError::InvalidJson(reason) => {
                let mut text = String::from_str("parsing '");
                text.append(HOST_DATA_ENV);
                text.append("': ");
                text.append(reason.as_str());
                text
            },
        }
    }
}

/// What `base64::decode` makes of a text: the bytes that it stands for in the standard
/// alphabet, or the words in which the error is displayed.
pub uninterp spec fn base64_decoded(text: Seq<char>) -> Result<Seq<u8>, Seq<char>>;

/// Calls `base64::decode`, which takes the UTF-8 bytes of `text` for base64 in the standard
/// alphabet. Nothing but the text enters into its result; that result, bytes or error, is what
/// [`base64_decoded`] names.
#[verifier::external_body]
fn decode_base64(text: &str) -> (decoded: Result<Vec<u8>, String>)
    ensures
        match decoded {
            Ok(bytes) => base64_decoded(text@) == Ok::<Seq<u8>, Seq<char>>(bytes@),
            Err(reason) => base64_decoded(text@) == Err::<Seq<u8>, Seq<char>>(reason@),
        },
{
    base64::decode(text).map_err(|e| e.to_string())
}

/// What a parser made of the decoded bytes, as a result of loading.
pub open spec fn parse_outcome(parsed: Result<HostData, String>) -> Result<
    HostData,
    HostDataErrorView,
> {
    match parsed {
        Ok(data) => Ok(data),
        Err(reason) => Err(HostDataErrorView::InvalidJson(reason@)),
    }
}

/// The result of loading, with its error taken as what it says.
pub open spec fn load_outcome(loaded: Result<HostData, HostDataError>) -> Result<
    HostData,
    HostDataErrorView,
> {
    match loaded {
        Ok(data) => Ok(data),
        Err(error) => Err(error@),
    }
}

/// Loads the host data from the value of [`HOST_DATA_ENV`], which is `None` where the variable
/// is not set. `parse` reads the host data from its JSON.
pub fn load_host_data<F: FnOnce(Vec<u8>) -> Result<HostData, String>>(
    value: Option<String>,
    parse: F,
) -> (loaded: Result<HostData, HostDataError>)
    requires
        forall|json: Vec<u8>| #[trigger] parse.requires((json,)),
    ensures
        match value {
            None => load_outcome(loaded) == Err::<HostData, HostDataErrorView>(
                HostDataErrorView::NotFound,
            ),
            Some(text) => match base64_decoded(text@) {
                Err(reason) => load_outcome(loaded) == Err::<HostData, HostDataErrorView>(
                    HostDataErrorView::InvalidBase64(reason),
                ),
                Ok(bytes) => exists|json: Vec<u8>, parsed: Result<HostData, String>|
                    {
                        &&& json@ == bytes
                        &&& #[trigger] parse.ensures((json,), parsed)
                        &&& load_outcome(loaded) == parse_outcome(parsed)
                    },
            },
        },
        value is None ==> loaded matches Err(HostDataError::NotFound),
        value matches Some(text) ==> match base64_decoded(text@) {
            Err(why) => loaded matches Err(HostDataError::InvalidBase64(reason)) && reason@ == why,
            Ok(bytes) => exists|json: Vec<u8>, parsed: Result<HostData, String>|
                {
                    &&& json@ == bytes
                    &&& #[trigger] parse.ensures((json,), parsed)
                    &&& match parsed {
                        Ok(data) => loaded == Ok::<HostData, HostDataError>(data),
                        Err(why) => loaded matches Err(HostDataError::InvalidJson(reason))
                            && reason == why,
                    }
                },
        },
{
    match value {
        None => Err(HostDataError::NotFound),
        Some(text) => host_data_decoded(decode_base64(text.as_str()), parse),
    }
}

/// Reads the host data from what decoding the variable's value gave.
pub fn host_data_decoded<F: FnOnce(Vec<u8>) -> Result<HostData, String>>(
    decoded: Result<Vec<u8>, String>,
    parse: F,
) -> (loaded: Result<HostData, HostDataError>)
    requires
        forall|json: Vec<u8>| #[trigger] parse.requires((json,)),
    ensures
        match decoded {
            Err(reason) => load_outcome(loaded) == Err::<HostData, HostDataErrorView>(
                HostDataErrorView::InvalidBase64(reason@),
            ),
            Ok(json) => exists|parsed: Result<HostData, String>|
                {
                    &&& #[trigger] parse.ensures((json,), parsed)
                    &&& load_outcome(loaded) == parse_outcome(parsed)
                },
        },
        match decoded {
            Err(why) => loaded matches Err(HostDataError::InvalidBase64(reason)) && reason == why,
            Ok(json) => exists|parsed: Result<HostData, String>|
                {
                    &&& #[trigger] parse.ensures((json,), parsed)
                    &&& match parsed {
                        Ok(data) => loaded == Ok::<HostData, HostDataError>(data),
                        Err(why) => loaded matches Err(HostDataError::InvalidJson(reason))
                            && reason == why,
                    }
                },
        },
{
    match decoded {
        Err(reason) => Err(HostDataError::InvalidBase64(reason)),
        Ok(json) => match parse(json) {
            Ok(data) => Ok(data),
            Err(reason) => Err(HostDataError::InvalidJson(reason)),
        },
    }
}

} // verus!
