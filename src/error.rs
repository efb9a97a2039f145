//! The errors of the readiness check and their messages.
use vstd::prelude::*;

verus! {

/// The request that an HTTP error came from.
#[derive(Clone, Copy, Debug, PartialEq, Eq, Structural)]
pub enum Request {
    HealthCheck,
    ListModels,
}

/// The configuration setting that was found missing.
#[derive(Clone, Copy, Debug, PartialEq, Eq, Structural)]
pub enum Setting {
    /// No provider entry under the LM Studio key.
    Provider,
    /// The provider entry has no base URL.
    BaseUrl,
}

/// What went wrong while checking or preparing the local server.
#[derive(Debug)]
pub enum LmStudioError {
    /// The configuration lacks what is needed to reach the server.
    ConfigurationMissing { setting: Setting },
    /// The request never got a response (connect, DNS, timeout).
    TransportError { request: Request, detail: String },
    /// The server answered with a status outside 2xx.
    ServerError { request: Request, status: u16 },
    /// The body was not JSON.
    InvalidJson { detail: String },
    /// The body was JSON without a `data` array.
    MissingData,
    /// The model-management executable could not be found.
    BinaryNotInstalled,
    /// The download could not be started, or ended with a failure.
    SubprocessFailure { detail: String },
}

/// Where LM Studio can be downloaded.
pub const INSTALL_URL: &'static str = "https://lmstudio.ai/";

/// The character of a decimal digit.
pub open spec fn digit_char(d: nat) -> char {
    seq!['0', '1', '2', '3', '4', '5', '6', '7', '8', '9'][d as int]
}

/// The decimal text of `n`, without leading zeros.
pub open spec fn decimal(n: nat) -> Seq<char>
    decreases n,
{
    if n < 10 {
        seq![digit_char(n)]
    } else {
        decimal(n / 10).push(digit_char(n % 10))
    }
}

fn digit_str(d: u16) -> (r: &'static str)
    requires
        d < 10,
    ensures
        r@ == seq![digit_char(d as nat)],
{
    proof {
        reveal_strlit("0");
        reveal_strlit("1");
        reveal_strlit("2");
        reveal_strlit("3");
        reveal_strlit("4");
        reveal_strlit("5");
        reveal_strlit("6");
        reveal_strlit("7");
        reveal_strlit("8");
        reveal_strlit("9");
    }
    match d {
        0 => "0",
        1 => "1",
        2 => "2",
        3 => "3",
        4 => "4",
        5 => "5",
        6 => "6",
        7 => "7",
        8 => "8",
        _ => "9",
    }
}

/// The decimal text of `n`.
pub fn decimal_string(n: u16) -> (r: String)
    ensures
        r@ == decimal(n as nat),
    decreases n,
{
    if n < 10 {
        digit_str(n).to_owned()
    } else {
        let mut s = decimal_string(n / 10);
        s.append(digit_str(n % 10));
        s
    }
}

/// The message of an error, as a user reads it.
pub open spec fn message_of(e: LmStudioError) -> Seq<char> {
    match e {
        LmStudioError::ConfigurationMissing { setting: Setting::Provider } =>
            "Built-in provider lmstudio not found"@,
        LmStudioError::ConfigurationMissing { setting: Setting::BaseUrl } =>
            "oss provider must have a base_url"@,
        LmStudioError::TransportError { request: Request::HealthCheck, detail } => detail@,
        LmStudioError::TransportError { request: Request::ListModels, detail } =>
            "Request failed: "@ + detail@,
        LmStudioError::ServerError { request: Request::HealthCheck, status } =>
            "Server returned error: "@ + decimal(status as nat),
        LmStudioError::ServerError { request: Request::ListModels, status } =>
            "Failed to fetch models: "@ + decimal(status as nat),
        LmStudioError::InvalidJson { detail } => "JSON parse error: "@ + detail@,
        LmStudioError::MissingData => "No "@ + "'data'"@ + " array in response"@,
        LmStudioError::BinaryNotInstalled =>
            "LM Studio not found. Please install LM Studio from "@ + INSTALL_URL@,
        LmStudioError::SubprocessFailure { detail } => detail@,
    }
}

impl LmStudioError {
    /// The message of this error.
    pub fn message(&self) -> (r: String)
        ensures
            r@ == message_of(*self),
    {
        match self {
            LmStudioError::ConfigurationMissing { setting: Setting::Provider } =>
                "Built-in provider lmstudio not found".to_owned(),
            LmStudioError::ConfigurationMissing { setting: Setting::BaseUrl } =>
                "oss provider must have a base_url".to_owned(),
            LmStudioError::TransportError { request: Request::HealthCheck, detail } => detail.clone(),
            LmStudioError::TransportError { request: Request::ListModels, detail } => {
                let mut s = "Request failed: ".to_owned();
                s.append(detail.as_str());
                s
            },
            LmStudioError::ServerError { request, status } => {
                let mut s = match request {
                    Request::HealthCheck => "Server returned error: ".to_owned(),
                    Request::ListModels => "Failed to fetch models: ".to_owned(),
                };
                let code = decimal_string(*status);
                s.append(code.as_str());
                s
            },
            LmStudioError::InvalidJson { detail } => {
                let mut s = "JSON parse error: ".to_owned();
                s.append(detail.as_str());
                s
            },
            LmStudioError::MissingData => {
                let mut s = "No ".to_owned();
                s.append("'data'");
                s.append(" array in response");
                s
            },
            LmStudioError::BinaryNotInstalled => {
                let mut s = "LM Studio not found. Please install LM Studio from ".to_owned();
                s.append(INSTALL_URL);
                s
            },
            LmStudioError::SubprocessFailure { detail } => detail.clone(),
        }
    }
}

/// `part` occurs in `s`.
pub open spec fn contains_text(s: Seq<char>, part: Seq<char>) -> bool {
    exists|i: int| 0 <= i && i + part.len() <= s.len() && #[trigger] s.subrange(i, i + part.len()) == part
}

/// An error for a non-2xx answer names the status code in its message.
pub proof fn lemma_server_error_names_status(request: Request, status: u16)
    ensures
        contains_text(
            message_of(LmStudioError::ServerError { request, status }),
            decimal(status as nat),
        ),
{
    let m = message_of(LmStudioError::ServerError { request, status });
    let d = decimal(status as nat);
    let i = m.len() - d.len();
    assert(m.subrange(i, i + d.len()) =~= d);
}

/// The error for a listing without a `data` array names the field in its message.
pub proof fn lemma_missing_data_names_field()
    ensures
        contains_text(message_of(LmStudioError::MissingData), "'data'"@),
{
    let m = message_of(LmStudioError::MissingData);
    let i = "No "@.len() as int;
    assert(m.subrange(i, i + "'data'"@.len()) =~= "'data'"@);
}

/// The error for a missing executable points to where LM Studio is installed from.
pub proof fn lemma_not_installed_points_to_installer()
    ensures
        contains_text(message_of(LmStudioError::BinaryNotInstalled), INSTALL_URL@),
{
    let m = message_of(LmStudioError::BinaryNotInstalled);
    let i = m.len() - INSTALL_URL@.len();
    assert(m.subrange(i, i + INSTALL_URL@.len()) =~= INSTALL_URL@);
}

} // verus!
