//! The orchestration state machine.
//!
//! One run of the pipeline is a walk of this machine. The caller owns all
//! input and output: it performs the [`Act`] the machine hands out,
//! feeds the outcome back as the next [`Ev`], and stops at
//! [`Act::Halt`]. Every decision — what to do next, and with which
//! arguments — is taken here and verified against [`step_spec`].

use vstd::prelude::*;

use crate::builder::{artifact_path, artifact_path_spec, build_args, build_args_spec, BuildStatus};
use crate::config::{authorized, authorized_spec, ConfigV, ServerConfig};
use crate::decode::{decode_body, decoded_body};
use crate::json::{json_parse, parse_json};
use crate::report::{
    fetch_failure_message, fetch_failure_message_text, table_report, render_table,
    timeout_message, timeout_message_text, upload_failure_message, upload_failure_message_text,
    ScenarioOutcome, ScenarioOutcomeV,
};
use crate::text::{payload_of, render_payload};
use crate::trigger::{
    event_fields_spec, extract_event_fields, extract_head, head_spec, make_trigger, trigger_of,
    EventFields, EventFieldsV, PullRequestTrigger, TriggerV,
};

verus! {

/// How long the profiling wait may block, in seconds.
pub const WAIT_TIMEOUT_SECS: u64 = 1200;

/// How the profiling wait ended.
#[derive(Clone, Copy, PartialEq, Eq, Structural, Debug)]
pub enum WaitOutcome {
    Completed,
    TimedOut,
}

/// Why a run ended with no visible effect.
#[derive(Clone, Copy, PartialEq, Eq, Structural, Debug)]
pub enum AbortReason {
    /// The body was not an event, or a required field was missing, not a
    /// string, or empty.
    MalformedEvent,
    /// The pull-request lookup could not be fetched.
    UpstreamFetchError,
    /// The pull-request lookup's body was not well-formed JSON.
    UpstreamParseError,
    /// The trigger was not admitted; dropped silently by design, so that
    /// neither the trigger keyword nor the allow-list leaks into comments.
    Unauthorized,
    /// The caller handed the machine an outcome its stage cannot take.
    ProtocolMismatch,
}

/// Where a run stands.
pub enum Stage {
    /// Nothing read yet.
    Received,
    /// The event fields are in hand; the pull-request lookup is out.
    ResolvingPull { fields: EventFields },
    /// The full trigger is in hand, not yet authorized.
    Extracted { trigger: PullRequestTrigger },
    /// The trigger is admitted; the workspace is being created.
    Authorized { trigger: PullRequestTrigger },
    /// The containerized build is running in `workspace`.
    Building { trigger: PullRequestTrigger, workspace: String },
    /// The build has ended; the artifact upload is out.
    Built { trigger: PullRequestTrigger },
    /// The upload succeeded; the wait on `job` is out.
    Uploaded { trigger: PullRequestTrigger, job: String },
    /// The wait completed; the result fetch is out.
    Polled { trigger: PullRequestTrigger, job: String },
    /// The report is being published.
    Reported { trigger: PullRequestTrigger, report: String },
    /// The run ended after publishing (or failing to publish) a report.
    Done,
    /// The run ended silently, with no visible effect.
    Aborted { reason: AbortReason },
}

#[verifier::ext_equal]
pub ghost enum StageV {
    Received,
    ResolvingPull { fields: EventFieldsV },
    Extracted { trigger: TriggerV },
    Authorized { trigger: TriggerV },
    Building { trigger: TriggerV, workspace: Seq<char> },
    Built { trigger: TriggerV },
    Uploaded { trigger: TriggerV, job: Seq<char> },
    Polled { trigger: TriggerV, job: Seq<char> },
    Reported { trigger: TriggerV, report: Seq<char> },
    Done,
    Aborted { reason: AbortReason },
}

impl View for Stage {
    type V = StageV;

    open spec fn view(&self) -> StageV {
        match self {
            Stage::Received => StageV::Received,
            Stage::ResolvingPull { fields } => StageV::ResolvingPull { fields: fields@ },
            Stage::Extracted { trigger } => StageV::Extracted { trigger: trigger@ },
            Stage::Authorized { trigger } => StageV::Authorized { trigger: trigger@ },
            Stage::Building { trigger, workspace } => StageV::Building {
                trigger: trigger@,
                workspace: workspace@,
            },
            Stage::Built { trigger } => StageV::Built { trigger: trigger@ },
            Stage::Uploaded { trigger, job } => StageV::Uploaded { trigger: trigger@, job: job@ },
            Stage::Polled { trigger, job } => StageV::Polled { trigger: trigger@, job: job@ },
            Stage::Reported { trigger, report } => StageV::Reported {
                trigger: trigger@,
                report: report@,
            },
            Stage::Done => StageV::Done,
            Stage::Aborted { reason } => StageV::Aborted { reason: *reason },
        }
    }
}

/// The outcome of one outside operation, handed back to the machine.
pub enum Ev {
    /// The raw webhook request body.
    Body(Vec<u8>),
    /// The pull-request lookup's response body, or `None` if the fetch
    /// failed.
    PullInfo(Option<Vec<u8>>),
    /// Nothing happened outside; the machine asked to be called again.
    Go,
    /// The created workspace directory, or `None` if creating it or
    /// restricting its permissions failed.
    Workspace(Option<String>),
    /// How the containerized build ended.
    BuildFinished(BuildStatus),
    /// The profiling job's URL, or `None` if the upload failed.
    UploadDone(Option<String>),
    /// How the profiling wait ended.
    Waited(WaitOutcome),
    /// The scenario outcomes, or `None` if fetching them failed.
    Fetched(Option<Vec<ScenarioOutcome>>),
    /// Whether the comment was posted; the machine ignores the value.
    Published(bool),
}

#[verifier::ext_equal]
pub ghost enum EvV {
    Body(Seq<u8>),
    PullInfo(Option<Seq<u8>>),
    Go,
    Workspace(Option<Seq<char>>),
    BuildFinished(BuildStatus),
    UploadDone(Option<Seq<char>>),
    Waited(WaitOutcome),
    Fetched(Option<Seq<ScenarioOutcomeV>>),
    Published(bool),
}

impl View for Ev {
    type V = EvV;

    open spec fn view(&self) -> EvV {
        match self {
            Ev::Body(b) => EvV::Body(b@),
            Ev::PullInfo(o) => EvV::PullInfo(
                match o {
                    Some(b) => Some(b@),
                    None => None,
                },
            ),
            Ev::Go => EvV::Go,
            Ev::Workspace(o) => EvV::Workspace(
                match o {
                    Some(s) => Some(s@),
                    None => None,
                },
            ),
            Ev::BuildFinished(s) => EvV::BuildFinished(*s),
            Ev::UploadDone(o) => EvV::UploadDone(
                match o {
                    Some(s) => Some(s@),
                    None => None,
                },
            ),
            Ev::Waited(o) => EvV::Waited(*o),
            Ev::Fetched(o) => EvV::Fetched(
                match o {
                    Some(v) => Some(v.deep_view()),
                    None => None,
                },
            ),
            Ev::Published(ok) => EvV::Published(*ok),
        }
    }
}

/// What the caller must do next.
pub enum Act {
    /// Issue a GET to `url` and hand back [`Ev::PullInfo`].
    GetPullInfo { url: String },
    /// Call the machine again with [`Ev::Go`].
    Advance,
    /// Create the run's workspace directory with owner/group access only
    /// and hand back [`Ev::Workspace`].
    CreateWorkspace,
    /// Run the containerized build with these arguments and hand back
    /// [`Ev::BuildFinished`].
    RunBuild { args: Vec<String> },
    /// Upload the artifact at `artifact` to the profiling service and
    /// hand back [`Ev::UploadDone`].
    Upload { artifact: String, token: String },
    /// Wait for the profiling job, up to the timeout, and hand back
    /// [`Ev::Waited`].
    Wait { job: String, timeout_secs: u64 },
    /// Fetch the profiling results and hand back [`Ev::Fetched`].
    FetchResult { job: String },
    /// POST `payload` to `url` with the token and hand back
    /// [`Ev::Published`]. `report` is the text the payload carries.
    Publish { url: String, report: String, payload: String, token: String },
    /// The run is over; nothing more to do.
    Halt,
}

#[verifier::ext_equal]
pub ghost enum ActV {
    GetPullInfo { url: Seq<char> },
    Advance,
    CreateWorkspace,
    RunBuild { args: Seq<Seq<char>> },
    Upload { artifact: Seq<char>, token: Seq<char> },
    Wait { job: Seq<char>, timeout_secs: u64 },
    FetchResult { job: Seq<char> },
    Publish { url: Seq<char>, report: Seq<char>, payload: Seq<char>, token: Seq<char> },
    Halt,
}

impl View for Act {
    type V = ActV;

    open spec fn view(&self) -> ActV {
        match self {
            Act::GetPullInfo { url } => ActV::GetPullInfo { url: url@ },
            Act::Advance => ActV::Advance,
            Act::CreateWorkspace => ActV::CreateWorkspace,
            Act::RunBuild { args } => ActV::RunBuild { args: args.deep_view() },
            Act::Upload { artifact, token } => ActV::Upload {
                artifact: artifact@,
                token: token@,
            },
            Act::Wait { job, timeout_secs } => ActV::Wait {
                job: job@,
                timeout_secs: *timeout_secs,
            },
            Act::FetchResult { job } => ActV::FetchResult { job: job@ },
            Act::Publish { url, report, payload, token } => ActV::Publish {
                url: url@,
                report: report@,
                payload: payload@,
                token: token@,
            },
            Act::Halt => ActV::Halt,
        }
    }
}

/// The publish action for a report: to the trigger's comments URL, with
/// the report wrapped in the fixed payload template, under the source
/// API token.
pub open spec fn publish_act(cfg: ConfigV, t: TriggerV, report: Seq<char>) -> ActV {
    ActV::Publish {
        url: t.report_url,
        report,
        payload: payload_of(report),
        token: cfg.source_api_token,
    }
}

/// The reporting transition: remember the report and publish it.
pub open spec fn reported(cfg: ConfigV, t: TriggerV, report: Seq<char>) -> (StageV, ActV) {
    (StageV::Reported { trigger: t, report }, publish_act(cfg, t, report))
}

/// The machine's transition function. Any pairing of stage and event
/// other than the ones the protocol produces aborts the run.
pub open spec fn step_spec(cfg: ConfigV, st: StageV, ev: EvV) -> (StageV, ActV) {
    match (st, ev) {
        (StageV::Received, EvV::Body(b)) => match decoded_body(b) {
            Some(j) => match event_fields_spec(j) {
                Some(f) => (
                    StageV::ResolvingPull { fields: f },
                    ActV::GetPullInfo { url: f.pull_url },
                ),
                None => (StageV::Aborted { reason: AbortReason::MalformedEvent }, ActV::Halt),
            },
            None => (StageV::Aborted { reason: AbortReason::MalformedEvent }, ActV::Halt),
        },
        (StageV::ResolvingPull { fields }, EvV::PullInfo(body)) => match body {
            Some(bytes) => match json_parse(bytes) {
                Some(info) => match head_spec(info) {
                    Some(h) => (
                        StageV::Extracted { trigger: trigger_of(fields, h) },
                        ActV::Advance,
                    ),
                    None => (
                        StageV::Aborted { reason: AbortReason::MalformedEvent },
                        ActV::Halt,
                    ),
                },
                None => (StageV::Aborted { reason: AbortReason::UpstreamParseError }, ActV::Halt),
            },
            None => (StageV::Aborted { reason: AbortReason::UpstreamFetchError }, ActV::Halt),
        },
        (StageV::Extracted { trigger }, EvV::Go) => if authorized_spec(cfg, trigger) {
            (StageV::Authorized { trigger }, ActV::CreateWorkspace)
        } else {
            (StageV::Aborted { reason: AbortReason::Unauthorized }, ActV::Halt)
        },
        (StageV::Authorized { trigger }, EvV::Workspace(ws)) => match ws {
            Some(dir) => (
                StageV::Building { trigger, workspace: dir },
                ActV::RunBuild {
                    args: build_args_spec(trigger.clone_url, trigger.head_commit, dir),
                },
            ),
            None => (
                StageV::Built { trigger },
                ActV::Upload {
                    artifact: artifact_path_spec(Seq::<char>::empty()),
                    token: cfg.profiling_api_token,
                },
            ),
        },
        (StageV::Building { trigger, workspace }, EvV::BuildFinished(_)) => (
            StageV::Built { trigger },
            ActV::Upload {
                artifact: artifact_path_spec(workspace),
                token: cfg.profiling_api_token,
            },
        ),
        (StageV::Built { trigger }, EvV::UploadDone(job)) => match job {
            Some(j) => (
                StageV::Uploaded { trigger, job: j },
                ActV::Wait { job: j, timeout_secs: WAIT_TIMEOUT_SECS },
            ),
            None => reported(cfg, trigger, upload_failure_message()),
        },
        (StageV::Uploaded { trigger, job }, EvV::Waited(o)) => match o {
            WaitOutcome::TimedOut => reported(cfg, trigger, timeout_message()),
            WaitOutcome::Completed => (
                StageV::Polled { trigger, job },
                ActV::FetchResult { job },
            ),
        },
        (StageV::Polled { trigger, job: _ }, EvV::Fetched(res)) => match res {
            Some(outs) => reported(cfg, trigger, table_report(outs)),
            None => reported(cfg, trigger, fetch_failure_message()),
        },
        (StageV::Reported { trigger: _, report: _ }, EvV::Published(_)) => (
            StageV::Done,
            ActV::Halt,
        ),
        (StageV::Done, _) => (StageV::Done, ActV::Halt),
        (StageV::Aborted { reason }, _) => (StageV::Aborted { reason }, ActV::Halt),
        _ => (StageV::Aborted { reason: AbortReason::ProtocolMismatch }, ActV::Halt),
    }
}

fn report_and_publish(cfg: &ServerConfig, trigger: PullRequestTrigger, report: String) -> (r: (
    Stage,
    Act,
))
    ensures
        (r.0@, r.1@) == reported(cfg@, trigger@, report@),
{
    let url = trigger.report_url.clone();
    let payload = render_payload(report.as_str());
    let token = cfg.source_api_token.clone();
    let stored = report.clone();
    let res = (
        Stage::Reported { trigger, report: stored },
        Act::Publish { url, report, payload, token },
    );
    proof {
        assert(res.0@ =~~= reported(cfg@, res.0@->Reported_trigger, report@).0);
    }
    res
}

/// One transition of the machine: from the current stage and the latest
/// outcome to the next stage and the next thing to do.
pub fn step(cfg: &ServerConfig, st: Stage, ev: Ev) -> (r: (Stage, Act))
    ensures
        r.0@ == step_spec(cfg@, st@, ev@).0,
        r.1@ == step_spec(cfg@, st@, ev@).1,
{
    let ghost st0 = st@;
    let ghost ev0 = ev@;
    match (st, ev) {
        (Stage::Received, Ev::Body(b)) => match decode_body(b.as_slice()) {
            Some(j) => match extract_event_fields(&j) {
                Ok(f) => {
                    let url = f.pull_url.clone();
                    (Stage::ResolvingPull { fields: f }, Act::GetPullInfo { url })
                },
                Err(_) => (
                    Stage::Aborted { reason: AbortReason::MalformedEvent },
                    Act::Halt,
                ),
            },
            None => (Stage::Aborted { reason: AbortReason::MalformedEvent }, Act::Halt),
        },
        (Stage::ResolvingPull { fields }, Ev::PullInfo(body)) => match body {
            Some(bytes) => match parse_json(bytes.as_slice()) {
                Some(info) => match extract_head(&info) {
                    Ok(h) => {
                        let t = make_trigger(fields, h);
                        (Stage::Extracted { trigger: t }, Act::Advance)
                    },
                    Err(_) => (
                        Stage::Aborted { reason: AbortReason::MalformedEvent },
                        Act::Halt,
                    ),
                },
                None => (
                    Stage::Aborted { reason: AbortReason::UpstreamParseError },
                    Act::Halt,
                ),
            },
            None => (
                Stage::Aborted { reason: AbortReason::UpstreamFetchError },
                Act::Halt,
            ),
        },
        (Stage::Extracted { trigger }, Ev::Go) => {
            if authorized(cfg, &trigger) {
                (Stage::Authorized { trigger }, Act::CreateWorkspace)
            } else {
                (Stage::Aborted { reason: AbortReason::Unauthorized }, Act::Halt)
            }
        },
        (Stage::Authorized { trigger }, Ev::Workspace(ws)) => match ws {
            Some(dir) => {
                let args = build_args(&trigger.clone_url, &trigger.head_commit, &dir);
                (Stage::Building { trigger, workspace: dir }, Act::RunBuild { args })
            },
            None => {
                let empty = String::new();
                let artifact = artifact_path(&empty);
                let token = cfg.profiling_api_token.clone();
                (Stage::Built { trigger }, Act::Upload { artifact, token })
            },
        },
        (Stage::Building { trigger, workspace }, Ev::BuildFinished(_)) => {
            let artifact = artifact_path(&workspace);
            let token = cfg.profiling_api_token.clone();
            (Stage::Built { trigger }, Act::Upload { artifact, token })
        },
        (Stage::Built { trigger }, Ev::UploadDone(job)) => match job {
            Some(j) => {
                let job_again = j.clone();
                (
                    Stage::Uploaded { trigger, job: j },
                    Act::Wait { job: job_again, timeout_secs: WAIT_TIMEOUT_SECS },
                )
            },
            None => report_and_publish(cfg, trigger, upload_failure_message_text().to_owned()),
        },
        (Stage::Uploaded { trigger, job }, Ev::Waited(o)) => match o {
            WaitOutcome::TimedOut => report_and_publish(
                cfg,
                trigger,
                timeout_message_text().to_owned(),
            ),
            WaitOutcome::Completed => {
                let job_again = job.clone();
                (Stage::Polled { trigger, job }, Act::FetchResult { job: job_again })
            },
        },
        (Stage::Polled { trigger, job: _ }, Ev::Fetched(res)) => match res {
            Some(outs) => {
                let rep = render_table(&outs);
                report_and_publish(cfg, trigger, rep)
            },
            None => report_and_publish(cfg, trigger, fetch_failure_message_text().to_owned()),
        },
        (Stage::Reported { trigger: _, report: _ }, Ev::Published(_)) => (Stage::Done, Act::Halt),
        (Stage::Done, _) => (Stage::Done, Act::Halt),
        (Stage::Aborted { reason }, _) => (Stage::Aborted { reason }, Act::Halt),
        _ => (Stage::Aborted { reason: AbortReason::ProtocolMismatch }, Act::Halt),
    }
}

} // verus!
