//! The client of the local server: its configuration, its URL, and what the
//! health check and the model listing make of the server's answers.
use vstd::prelude::*;
use crate::error::{LmStudioError, Request, Setting};
use crate::json::{Json, get, json_get, parse_json, parsed_json, str_eq};

verus! {

/// The key of the LM Studio entry among the model providers.
pub const LMSTUDIO_OSS_PROVIDER_ID: &'static str = "lmstudio";

/// How to reach one model-serving backend.
#[derive(Debug)]
pub struct ModelProviderInfo {
    pub base_url: Option<String>,
}

/// A provider entry under its key.
#[derive(Debug)]
pub struct ProviderEntry {
    pub id: String,
    pub info: ModelProviderInfo,
}

/// The part of the configuration that the readiness check reads.
#[derive(Debug)]
pub struct Config {
    /// The model that the user asked for.
    pub model: String,
    /// The provider entries, keyed by `id`; the first entry of a key counts.
    pub model_providers: Vec<ProviderEntry>,
}

/// The entry stored under `id`: the first one with that key.
pub open spec fn provider_of(entries: Seq<ProviderEntry>, id: Seq<char>) -> Option<ModelProviderInfo>
    decreases entries.len(),
{
    if entries.len() == 0 {
        None
    } else if entries[0].id@ == id {
        Some(entries[0].info)
    } else {
        provider_of(entries.drop_first(), id)
    }
}

/// What the HTTP layer made of one request.
#[derive(Debug)]
pub enum HttpOutcome {
    /// No response came (connect, DNS or timeout failure), with the transport's text.
    Failed { detail: String },
    /// The server answered with this status and body.
    Responded { status: u16, body: Vec<u8> },
}

/// A 2xx status.
pub open spec fn is_success(status: u16) -> bool {
    200 <= status <= 299
}

/// `s` without its trailing slashes.
pub open spec fn trim_trailing_slashes(s: Seq<char>) -> Seq<char>
    decreases s.len(),
{
    if s.len() > 0 && s.last() == '/' {
        trim_trailing_slashes(s.drop_last())
    } else {
        s
    }
}

/// The URL that both requests go to.
pub open spec fn models_url_of(base_url: Seq<char>) -> Seq<char> {
    trim_trailing_slashes(base_url) + "/models"@
}

/// The health check got a 2xx answer.
pub open spec fn healthy(outcome: HttpOutcome) -> bool {
    outcome matches HttpOutcome::Responded { status, .. } && is_success(status)
}

/// `e` is the error that a failed health check reports for `outcome`.
pub open spec fn health_error(outcome: HttpOutcome, e: LmStudioError) -> bool {
    match outcome {
        HttpOutcome::Failed { detail } => e matches LmStudioError::TransportError {
            request: Request::HealthCheck,
            detail: d,
        } && d@ == detail@,
        HttpOutcome::Responded { status, .. } => !is_success(status) && (e matches LmStudioError::ServerError {
            request: Request::HealthCheck,
            status: s,
        } && s == status),
    }
}

/// The `id` of a listed model, when it is a string.
pub open spec fn model_id(entry: Json) -> Option<Seq<char>> {
    match json_get(entry, "id"@) {
        Some(Json::Str(s)) => Some(s@),
        _ => None,
    }
}

/// The string `id`s of `entries`, in order; entries without one are left out.
pub open spec fn model_ids(entries: Seq<Json>) -> Seq<Seq<char>>
    decreases entries.len(),
{
    if entries.len() == 0 {
        Seq::empty()
    } else {
        let rest = model_ids(entries.drop_last());
        match model_id(entries.last()) {
            Some(id) => rest.push(id),
            None => rest,
        }
    }
}

/// The `data` array of a listing document, when it has one.
pub open spec fn data_of(doc: Json) -> Option<Seq<Json>> {
    match json_get(doc, "data"@) {
        Some(Json::Array(items)) => Some(items@),
        _ => None,
    }
}

/// A `data` array whose entries all carry a string `id` lists exactly those
/// ids, in order.
pub proof fn lemma_listing_keeps_ids_in_order(items: Seq<Json>, ids: Seq<Seq<char>>)
    requires
        items.len() == ids.len(),
        forall|i: int| 0 <= i < items.len() ==> model_id(#[trigger] items[i]) == Some(ids[i]),
    ensures
        model_ids(items) == ids,
    decreases items.len(),
{
    if items.len() > 0 {
        let n = items.len() - 1;
        assert forall|i: int| 0 <= i < n implies model_id(#[trigger] items.drop_last()[i]) == Some(
            ids.drop_last()[i],
        ) by {
            assert(items.drop_last()[i] == items[i]);
        }
        lemma_listing_keeps_ids_in_order(items.drop_last(), ids.drop_last());
        assert(model_id(items.last()) == Some(ids[n]));
        assert(ids.drop_last().push(ids[n]) =~= ids);
    } else {
        assert(ids =~= Seq::<Seq<char>>::empty());
    }
}

/// The views of a list of strings.
pub open spec fn views(v: Seq<String>) -> Seq<Seq<char>> {
    v.map_values(|s: String| s@)
}

/// The model ids that a listing response yields, or `None` where the listing fails.
pub open spec fn listed_models(outcome: HttpOutcome) -> Option<Seq<Seq<char>>> {
    match outcome {
        HttpOutcome::Failed { .. } => None,
        HttpOutcome::Responded { status, body } => {
            if !is_success(status) {
                None
            } else {
                match parsed_json(body@) {
                    None => None,
                    Some(doc) => match data_of(doc) {
                        None => None,
                        Some(items) => Some(model_ids(items)),
                    },
                }
            }
        },
    }
}

/// The model ids of a parsed listing document, or the error for a document
/// without a `data` array.
pub fn models_from_json(doc: &Json) -> (r: Result<Vec<String>, LmStudioError>)
    ensures
        data_of(*doc) is None ==> r matches Err(LmStudioError::MissingData),
        data_of(*doc) matches Some(items) ==> r is Ok && views(r->Ok_0@) == model_ids(items),
{
    match get(doc, "data") {
        Some(Json::Array(items)) => {
            let mut out: Vec<String> = Vec::new();
            let mut i: usize = 0;
            while i < items.len()
                invariant
                    0 <= i <= items@.len(),
                    views(out@) == model_ids(items@.take(i as int)),
                decreases items.len() - i,
            {
                assert(items@.take(i + 1).drop_last() == items@.take(i as int));
                assert(items@.take(i + 1).last() == items@[i as int]);
                match get(&items[i], "id") {
                    Some(Json::Str(id)) => {
                        out.push(id.clone());
                        assert(views(out@) == views(out@.drop_last()).push(id@));
                    },
                    _ => {},
                }
                i = i + 1;
            }
            assert(items@.take(items@.len() as int) == items@);
            Ok(out)
        },
        _ => Err(LmStudioError::MissingData),
    }
}

/// The local server's client: where it lives. The HTTP requests themselves are
/// made by the caller, which hands their outcomes back.
#[derive(Debug)]
pub struct LMStudioClient {
    base_url: String,
}

impl View for LMStudioClient {
    type V = Seq<char>;

    /// The base URL, as configured.
    closed spec fn view(&self) -> Seq<char> {
        self.base_url@
    }
}

impl LMStudioClient {
    /// Builds the client from the LM Studio provider entry of `config`. The
    /// caller then runs the health check on `models_url` and hands its outcome
    /// to `check_server`.
    pub fn try_from_provider(config: &Config) -> (r: Result<Self, LmStudioError>)
        ensures
            match provider_of(config.model_providers@, LMSTUDIO_OSS_PROVIDER_ID@) {
                None => r matches Err(
                    LmStudioError::ConfigurationMissing { setting: Setting::Provider },
                ),
                Some(info) => match info.base_url {
                    None => r matches Err(
                        LmStudioError::ConfigurationMissing { setting: Setting::BaseUrl },
                    ),
                    Some(url) => r is Ok && r->Ok_0@ == url@,
                },
            },
    {
        let providers = &config.model_providers;
        let mut i: usize = 0;
        assert(providers@.skip(0) == providers@);
        while i < providers.len()
            invariant
                0 <= i <= providers@.len(),
                providers@ == config.model_providers@,
                provider_of(providers@, LMSTUDIO_OSS_PROVIDER_ID@) == provider_of(
                    providers@.skip(i as int),
                    LMSTUDIO_OSS_PROVIDER_ID@,
                ),
            decreases providers.len() - i,
        {
            assert(providers@.skip(i as int).drop_first() == providers@.skip(i + 1));
            assert(providers@.skip(i as int)[0] == providers@[i as int]);
            if str_eq(providers[i].id.as_str(), LMSTUDIO_OSS_PROVIDER_ID) {
                assert(provider_of(config.model_providers@, LMSTUDIO_OSS_PROVIDER_ID@) == Some(
                    providers@[i as int].info,
                ));
                return match &providers[i].info.base_url {
                    Some(url) => Ok(LMStudioClient { base_url: url.clone() }),
                    None => Err(LmStudioError::ConfigurationMissing { setting: Setting::BaseUrl }),
                };
            }
            i = i + 1;
        }
        Err(LmStudioError::ConfigurationMissing { setting: Setting::Provider })
    }

    /// A client for a server at `host_root`, such as `http://localhost:1234`.
    pub fn from_host_root(host_root: String) -> (r: Self)
        ensures
            r@ == host_root@,
    {
        LMStudioClient { base_url: host_root }
    }

    /// `GET` target of the health check and of the listing: the base URL
    /// without trailing slashes, then `/models`.
    pub fn models_url(&self) -> (r: String)
        ensures
            r@ == models_url_of(self@),
    {
        let base = self.base_url.as_str();
        let mut end = base.unicode_len();
        assert(base@.subrange(0, end as int) == base@);
        while end > 0 && base.get_char(end - 1) == '/'
            invariant
                end <= base@.len(),
                trim_trailing_slashes(base@) == trim_trailing_slashes(base@.subrange(0, end as int)),
            decreases end,
        {
            assert(base@.subrange(0, end as int).drop_last() == base@.subrange(0, end - 1));
            end = end - 1;
        }
        assert(base@.subrange(0, end as int) == base@.subrange(0, end as int).subrange(0, end as int));
        let mut url = base.substring_char(0, end).to_owned();
        url.append("/models");
        url
    }

    /// What the health check's outcome means: any 2xx answer is healthy.
    pub fn check_server(&self, outcome: &HttpOutcome) -> (r: Result<(), LmStudioError>)
        ensures
            healthy(*outcome) ==> r is Ok,
            !healthy(*outcome) ==> (r matches Err(e) && health_error(*outcome, e)),
    {
        match outcome {
            HttpOutcome::Failed { detail } => Err(
                LmStudioError::TransportError { request: Request::HealthCheck, detail: detail.clone() },
            ),
            HttpOutcome::Responded { status, .. } => {
                if 200 <= *status && *status <= 299 {
                    Ok(())
                } else {
                    Err(LmStudioError::ServerError { request: Request::HealthCheck, status: *status })
                }
            },
        }
    }

    /// The models that the listing's outcome names, in the server's order.
    pub fn fetch_models(&self, outcome: &HttpOutcome) -> (r: Result<Vec<String>, LmStudioError>)
        ensures
            (r is Ok) == (listed_models(*outcome) is Some),
            r is Ok ==> Some(views(r->Ok_0@)) == listed_models(*outcome),
            match *outcome {
                HttpOutcome::Failed { detail } => r matches Err(
                    LmStudioError::TransportError { request: Request::ListModels, detail: d },
                ) && d@ == detail@,
                HttpOutcome::Responded { status, body } => if !is_success(status) {
                    r matches Err(
                        LmStudioError::ServerError { request: Request::ListModels, status: s },
                    ) && s == status
                } else {
                    match parsed_json(body@) {
                        None => r matches Err(LmStudioError::InvalidJson { .. }),
                        Some(doc) => data_of(doc) is None ==> r matches Err(
                            LmStudioError::MissingData,
                        ),
                    }
                },
            },
    {
        match outcome {
            HttpOutcome::Failed { detail } => Err(
                LmStudioError::TransportError { request: Request::ListModels, detail: detail.clone() },
            ),
            HttpOutcome::Responded { status, body } => {
                if 200 <= *status && *status <= 299 {
                    match parse_json(body.as_slice()) {
                        Ok(doc) => models_from_json(&doc),
                        Err(detail) => Err(LmStudioError::InvalidJson { detail }),
                    }
                } else {
                    Err(LmStudioError::ServerError { request: Request::ListModels, status: *status })
                }
            },
        }
    }
}

} // verus!
