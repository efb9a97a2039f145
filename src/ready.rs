//! The readiness flow: reach the server, list its models, and download the
//! default model when it is missing. Each step's outside work (a request, a
//! lookup on disk, a process) is done by the caller, which hands the outcome
//! back to `OssReadiness::advance` and performs the action that comes out.
use vstd::prelude::*;
use crate::client::{HttpOutcome, LMStudioClient, healthy, health_error, listed_models, models_url_of};
use crate::error::{LmStudioError, message_of};

verus! {

/// The model that the flow makes sure of when `--oss` is given without a model.
pub const DEFAULT_OSS_MODEL: &'static str = "openai/gpt-oss-20b";

/// What became of the download process.
#[derive(Debug)]
pub enum ProcessOutcome {
    /// The process could not be started, with the operating system's text.
    SpawnFailed { detail: String },
    /// The process ran; `status` is its exit status as text.
    Exited { success: bool, status: String },
}

/// Where the flow stands.
#[derive(Debug)]
pub enum Phase {
    AwaitHealth,
    AwaitListing,
    AwaitBinary,
    AwaitDownload { binary: String },
    Done,
}

/// The outcome of the last action, handed back by the caller.
#[derive(Debug)]
pub enum Event {
    /// The outcome of a `Get`.
    Http(HttpOutcome),
    /// The outcome of `LocateBinary`.
    Located(Result<String, LmStudioError>),
    /// The outcome of a `Spawn`.
    Exited(ProcessOutcome),
}

/// What the caller does next.
#[derive(Debug)]
pub enum Action {
    /// Send `GET url` and report the outcome as `Event::Http`.
    Get { url: String },
    /// Look for the executable and report the outcome as `Event::Located`.
    LocateBinary,
    /// Run `program args..` with the standard streams inherited, wait for it,
    /// and report the outcome as `Event::Exited`.
    Spawn { program: String, args: Vec<String> },
    /// The flow is over; `warning`, if any, is to be logged.
    Finish { result: Result<(), LmStudioError>, warning: Option<String> },
}

/// What a model listing leads to.
#[derive(Clone, Copy, Debug, PartialEq, Eq, Structural)]
pub enum ListingPlan {
    /// The default model is listed: nothing to do.
    Present,
    /// The listing worked and lacks the default model: download it.
    Download,
    /// The listing failed: warn and go on, since the check is advisory.
    Advisory,
}

/// The plan that a listing outcome leads to.
pub open spec fn plan_of(outcome: HttpOutcome) -> ListingPlan {
    match listed_models(outcome) {
        None => ListingPlan::Advisory,
        Some(ids) => if ids.contains(DEFAULT_OSS_MODEL@) {
            ListingPlan::Present
        } else {
            ListingPlan::Download
        },
    }
}

/// A listing that already holds the default model leads to no download.
pub proof fn lemma_listed_model_needs_no_download(outcome: HttpOutcome)
    requires
        listed_models(outcome) matches Some(ids) && ids.contains(DEFAULT_OSS_MODEL@),
    ensures
        plan_of(outcome) == ListingPlan::Present,
{
}

/// A failed listing never stops the flow: it leads to a warning only.
pub proof fn lemma_failed_listing_is_advisory(outcome: HttpOutcome)
    requires
        listed_models(outcome) is None,
    ensures
        plan_of(outcome) == ListingPlan::Advisory,
{
}

/// The event that each phase waits for.
pub open spec fn expects(phase: Phase, event: Event) -> bool {
    match phase {
        Phase::AwaitHealth | Phase::AwaitListing => event is Http,
        Phase::AwaitBinary => event is Located,
        Phase::AwaitDownload { .. } => event is Exited,
        Phase::Done => false,
    }
}

/// The arguments of the download command.
pub open spec fn download_args() -> Seq<Seq<char>> {
    seq!["get"@, "--yes"@, DEFAULT_OSS_MODEL@]
}

/// The message of a download that could not be started.
pub open spec fn spawn_failure(binary: Seq<char>, detail: Seq<char>) -> Seq<char> {
    "Failed to execute '"@ + binary + " get --yes "@ + DEFAULT_OSS_MODEL@ + "': "@ + detail
}

/// The message of a download that exited with a failure.
pub open spec fn exit_failure(status: Seq<char>) -> Seq<char> {
    "lms command failed with status: "@ + status
}

/// The warning logged when the listing fails with `e`.
pub open spec fn listing_warning(e: LmStudioError) -> Seq<char> {
    "Failed to query local models from LM Studio: "@ + message_of(e) + "."@
}

/// Whether `ids` holds `id`.
pub fn contains_model(ids: &Vec<String>, id: &str) -> (r: bool)
    ensures
        r == ids@.map_values(|s: String| s@).contains(id@),
{
    let ghost v = ids@.map_values(|s: String| s@);
    let mut i: usize = 0;
    while i < ids.len()
        invariant
            0 <= i <= ids@.len(),
            v == ids@.map_values(|s: String| s@),
            forall|j: int| 0 <= j < i ==> v[j] != id@,
        decreases ids.len() - i,
    {
        if crate::json::str_eq(ids[i].as_str(), id) {
            assert(v[i as int] == id@);
            return true;
        }
        i = i + 1;
    }
    false
}

/// The state of one readiness check.
#[derive(Debug)]
pub struct OssReadiness {
    pub client: LMStudioClient,
    pub phase: Phase,
}

/// Starts the readiness check from `config`: fails at once, with no request,
/// where the configuration does not name the server; otherwise asks for the
/// health check.
pub fn ensure_oss_ready(config: &crate::client::Config) -> (r: Result<(OssReadiness, Action), LmStudioError>)
    ensures
        match crate::client::provider_of(config.model_providers@, crate::client::LMSTUDIO_OSS_PROVIDER_ID@) {
            None => r matches Err(
                LmStudioError::ConfigurationMissing { setting: crate::error::Setting::Provider },
            ),
            Some(info) => match info.base_url {
                None => r matches Err(
                    LmStudioError::ConfigurationMissing { setting: crate::error::Setting::BaseUrl },
                ),
                Some(url) => r matches Ok((s, a)) && (s.client@ == url@ && s.phase is AwaitHealth
                    && (a matches Action::Get { url: u } && u@ == models_url_of(url@))),
            },
        },
{
    match LMStudioClient::try_from_provider(config) {
        Ok(client) => {
            let url = client.models_url();
            Ok((OssReadiness { client, phase: Phase::AwaitHealth }, Action::Get { url }))
        },
        Err(e) => Err(e),
    }
}

impl OssReadiness {
    /// Whether `event` is the one that the current phase waits for.
    pub fn accepts(&self, event: &Event) -> (r: bool)
        ensures
            r == expects(self.phase, *event),
    {
        match (&self.phase, event) {
            (Phase::AwaitHealth, Event::Http(_)) => true,
            (Phase::AwaitListing, Event::Http(_)) => true,
            (Phase::AwaitBinary, Event::Located(_)) => true,
            (Phase::AwaitDownload { .. }, Event::Exited(_)) => true,
            _ => false,
        }
    }

    /// Takes the outcome of the last action and gives the next action.
    pub fn advance(self, event: Event) -> (r: (OssReadiness, Action))
        requires
            expects(self.phase, event),
        ensures
            r.0.client@ == self.client@,
            match (self.phase, event) {
                (Phase::AwaitHealth, Event::Http(o)) => if healthy(o) {
                    r.0.phase is AwaitListing && (r.1 matches Action::Get { url } && url@
                        == models_url_of(self.client@))
                } else {
                    r.0.phase is Done && (r.1 matches Action::Finish { result: Err(e), warning: None }
                        && health_error(o, e))
                },
                (Phase::AwaitListing, Event::Http(o)) => match plan_of(o) {
                    ListingPlan::Present => r.0.phase is Done && r.1 matches Action::Finish {
                        result: Ok(()),
                        warning: None,
                    },
                    ListingPlan::Download => r.0.phase is AwaitBinary
                        && r.1 is LocateBinary,
                    ListingPlan::Advisory => r.0.phase is Done && (r.1 matches Action::Finish {
                        result: Ok(()),
                        warning: Some(w),
                    } && exists|e: LmStudioError| w@ == #[trigger] listing_warning(e)),
                },
                (Phase::AwaitBinary, Event::Located(Ok(binary))) => r.0.phase matches Phase::AwaitDownload {
                    binary: b,
                } && b@ == binary@ && (r.1 matches Action::Spawn { program, args } && program@ == binary@
                    && args@.map_values(|s: String| s@) == download_args()),
                (Phase::AwaitBinary, Event::Located(Err(e))) => r.0.phase is Done && r.1 == Action::Finish {
                    result: Err(e),
                    warning: None,
                },
                (Phase::AwaitDownload { binary }, Event::Exited(p)) => r.0.phase is Done && match p {
                    ProcessOutcome::SpawnFailed { detail } => r.1 matches Action::Finish {
                        result: Err(LmStudioError::SubprocessFailure { detail: d }),
                        warning: None,
                    } && d@ == spawn_failure(binary@, detail@),
                    ProcessOutcome::Exited { success, status } => if success {
                        r.1 matches Action::Finish { result: Ok(()), warning: None }
                    } else {
                        r.1 matches Action::Finish {
                            result: Err(LmStudioError::SubprocessFailure { detail: d }),
                            warning: None,
                        } && d@ == exit_failure(status@)
                    },
                },
                _ => true,
            },
    {
        let OssReadiness { client, phase } = self;
        match (phase, event) {
            (Phase::AwaitHealth, Event::Http(o)) => match client.check_server(&o) {
                Ok(()) => {
                    let url = client.models_url();
                    (OssReadiness { client, phase: Phase::AwaitListing }, Action::Get { url })
                },
                Err(e) => (
                    OssReadiness { client, phase: Phase::Done },
                    Action::Finish { result: Err(e), warning: None },
                ),
            },
            (Phase::AwaitListing, Event::Http(o)) => match client.fetch_models(&o) {
                Ok(models) => {
                    if contains_model(&models, DEFAULT_OSS_MODEL) {
                        (
                            OssReadiness { client, phase: Phase::Done },
                            Action::Finish { result: Ok(()), warning: None },
                        )
                    } else {
                        (OssReadiness { client, phase: Phase::AwaitBinary }, Action::LocateBinary)
                    }
                },
                Err(e) => {
                    let mut w = "Failed to query local models from LM Studio: ".to_owned();
                    let m = e.message();
                    w.append(m.as_str());
                    w.append(".");
                    assert(w@ == listing_warning(e));
                    (
                        OssReadiness { client, phase: Phase::Done },
                        Action::Finish { result: Ok(()), warning: Some(w) },
                    )
                },
            },
            (Phase::AwaitBinary, Event::Located(Ok(binary))) => {
                let mut args: Vec<String> = Vec::new();
                args.push("get".to_owned());
                args.push("--yes".to_owned());
                args.push(DEFAULT_OSS_MODEL.to_owned());
                assert(args@.map_values(|s: String| s@) =~= download_args());
                let program = binary.clone();
                (
                    OssReadiness { client, phase: Phase::AwaitDownload { binary } },
                    Action::Spawn { program, args },
                )
            },
            (Phase::AwaitBinary, Event::Located(Err(e))) => (
                OssReadiness { client, phase: Phase::Done },
                Action::Finish { result: Err(e), warning: None },
            ),
            (Phase::AwaitDownload { binary }, Event::Exited(p)) => {
                let result = match p {
                    ProcessOutcome::SpawnFailed { detail } => {
                        let mut d = "Failed to execute '".to_owned();
                        d.append(binary.as_str());
                        d.append(" get --yes ");
                        d.append(DEFAULT_OSS_MODEL);
                        d.append("': ");
                        d.append(detail.as_str());
                        Err(LmStudioError::SubprocessFailure { detail: d })
                    },
                    ProcessOutcome::Exited { success, status } => {
                        if success {
                            Ok(())
                        } else {
                            let mut d = "lms command failed with status: ".to_owned();
                            d.append(status.as_str());
                            Err(LmStudioError::SubprocessFailure { detail: d })
                        }
                    },
                };
                (
                    OssReadiness { client, phase: Phase::Done },
                    Action::Finish { result, warning: None },
                )
            },
            (phase, _) => (OssReadiness { client, phase }, Action::LocateBinary),
        }
    }
}

} // verus!
