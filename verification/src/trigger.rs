//! Trigger extraction: reading the pull-request fields out of the inbound
//! event, and the head commit out of the secondary pull-request lookup.

use vstd::prelude::*;

use crate::json::{get_of, str_of, Json, JsonV};
use vstd::string::StrSliceExecFns;

verus! {

/// The fields read from the inbound webhook event itself.
#[derive(Debug)]
pub struct EventFields {
    pub pull_url: String,
    pub comments_url: String,
    pub body: String,
    pub login: String,
}

#[verifier::ext_equal]
pub ghost struct EventFieldsV {
    pub pull_url: Seq<char>,
    pub comments_url: Seq<char>,
    pub body: Seq<char>,
    pub login: Seq<char>,
}

impl View for EventFields {
    type V = EventFieldsV;

    open spec fn view(&self) -> EventFieldsV {
        EventFieldsV {
            pull_url: self.pull_url@,
            comments_url: self.comments_url@,
            body: self.body@,
            login: self.login@,
        }
    }
}

/// The fields read from the secondary pull-request lookup.
#[derive(Debug)]
pub struct HeadInfo {
    pub sha: String,
    pub clone_url: String,
}

#[verifier::ext_equal]
pub ghost struct HeadInfoV {
    pub sha: Seq<char>,
    pub clone_url: Seq<char>,
}

impl View for HeadInfo {
    type V = HeadInfoV;

    open spec fn view(&self) -> HeadInfoV {
        HeadInfoV { sha: self.sha@, clone_url: self.clone_url@ }
    }
}

/// Everything a run needs to know about the pull request that triggered
/// it. All five fields are non-empty.
pub struct PullRequestTrigger {
    pub report_url: String,
    pub clone_url: String,
    pub head_commit: String,
    pub command_text: String,
    pub commenter_id: String,
}

#[verifier::ext_equal]
pub ghost struct TriggerV {
    pub report_url: Seq<char>,
    pub clone_url: Seq<char>,
    pub head_commit: Seq<char>,
    pub command_text: Seq<char>,
    pub commenter_id: Seq<char>,
}

impl View for PullRequestTrigger {
    type V = TriggerV;

    open spec fn view(&self) -> TriggerV {
        TriggerV {
            report_url: self.report_url@,
            clone_url: self.clone_url@,
            head_commit: self.head_commit@,
            command_text: self.command_text@,
            commenter_id: self.commenter_id@,
        }
    }
}

impl TriggerV {
    /// The trigger invariant: all five fields are non-empty.
    pub open spec fn wf(self) -> bool {
        &&& self.report_url.len() > 0
        &&& self.clone_url.len() > 0
        &&& self.head_commit.len() > 0
        &&& self.command_text.len() > 0
        &&& self.commenter_id.len() > 0
    }
}

/// Why no trigger could be produced from an event.
#[derive(Clone, Copy, PartialEq, Eq, Structural, Debug)]
pub enum ExtractError {
    /// A required field is missing, not a string, or empty.
    MalformedEvent,
    /// The secondary pull-request lookup could not be fetched.
    UpstreamFetchError,
    /// The secondary pull-request lookup's body is not well-formed JSON.
    UpstreamParseError,
}

/// The field `key` of `j`, if `j` is an object that has it.
pub open spec fn sub_field(j: Option<JsonV>, key: Seq<char>) -> Option<JsonV> {
    match j {
        Some(v) => get_of(v, key),
        None => None,
    }
}

/// The characters of `j`, if it is a string value.
pub open spec fn str_at(j: Option<JsonV>) -> Option<Seq<char>> {
    match j {
        Some(v) => str_of(v),
        None => None,
    }
}

/// The event fields, if the event carries all four as non-empty strings.
pub open spec fn event_fields_spec(j: JsonV) -> Option<EventFieldsV> {
    let issue = sub_field(Some(j), "issue"@);
    let comment = sub_field(Some(j), "comment"@);
    let pull_url = str_at(sub_field(sub_field(issue, "pull_request"@), "url"@));
    let comments_url = str_at(sub_field(issue, "comments_url"@));
    let body = str_at(sub_field(comment, "body"@));
    let login = str_at(sub_field(sub_field(comment, "user"@), "login"@));
    match (pull_url, comments_url, body, login) {
        (Some(p), Some(c), Some(b), Some(l)) => if p.len() > 0 && c.len() > 0 && b.len() > 0
            && l.len() > 0 {
            Some(EventFieldsV { pull_url: p, comments_url: c, body: b, login: l })
        } else {
            None
        },
        _ => None,
    }
}

/// The head commit and clone URL, if the lookup response carries both as
/// non-empty strings.
pub open spec fn head_spec(j: JsonV) -> Option<HeadInfoV> {
    let head = sub_field(Some(j), "head"@);
    let sha = str_at(sub_field(head, "sha"@));
    let clone_url = str_at(sub_field(sub_field(head, "repo"@), "clone_url"@));
    match (sha, clone_url) {
        (Some(s), Some(c)) => if s.len() > 0 && c.len() > 0 {
            Some(HeadInfoV { sha: s, clone_url: c })
        } else {
            None
        },
        _ => None,
    }
}

/// The trigger built from the two extraction stages.
pub open spec fn trigger_of(f: EventFieldsV, h: HeadInfoV) -> TriggerV {
    TriggerV {
        report_url: f.comments_url,
        clone_url: h.clone_url,
        head_commit: h.sha,
        command_text: f.body,
        commenter_id: f.login,
    }
}

/// A trigger assembled from successful extraction stages is well formed.
pub proof fn lemma_extracted_wf(j: JsonV, i: JsonV, f: EventFieldsV, h: HeadInfoV)
    requires
        event_fields_spec(j) == Some(f),
        head_spec(i) == Some(h),
    ensures
        trigger_of(f, h).wf(),
{
}

fn field<'a>(j: Option<&'a Json>, key: &str) -> (r: Option<&'a Json>)
    ensures
        match r {
            Some(v) => sub_field(opt_shape(j), key@) == Some(v@),
            None => sub_field(opt_shape(j), key@) is None,
        },
{
    match j {
        Some(v) => v.get(&key.to_owned()),
        None => None,
    }
}

/// The shapes of an optional borrowed value.
pub open spec fn opt_shape(j: Option<&Json>) -> Option<JsonV> {
    match j {
        Some(v) => Some(v@),
        None => None,
    }
}

fn string_field<'a>(j: Option<&'a Json>, key: &str) -> (r: Option<&'a String>)
    ensures
        match r {
            Some(s) => str_at(sub_field(opt_shape(j), key@)) == Some(s@),
            None => str_at(sub_field(opt_shape(j), key@)) is None,
        },
{
    match field(j, key) {
        Some(v) => v.as_str(),
        None => None,
    }
}

/// First extraction stage: reads the four event fields. Succeeds exactly
/// when all four are present as non-empty strings; no other event shape
/// produces a trigger.
pub fn extract_event_fields(j: &Json) -> (r: Result<EventFields, ExtractError>)
    ensures
        match r {
            Ok(f) => event_fields_spec(j@) == Some(f@),
            Err(e) => event_fields_spec(j@) is None && e == ExtractError::MalformedEvent,
        },
{
    let issue = field(Some(j), "issue");
    let comment = field(Some(j), "comment");
    let pull_url = match string_field(field(issue, "pull_request"), "url") {
        Some(s) => s,
        None => {
            return Err(ExtractError::MalformedEvent);
        },
    };
    let comments_url = match string_field(issue, "comments_url") {
        Some(s) => s,
        None => {
            return Err(ExtractError::MalformedEvent);
        },
    };
    let body = match string_field(comment, "body") {
        Some(s) => s,
        None => {
            return Err(ExtractError::MalformedEvent);
        },
    };
    let login = match string_field(field(comment, "user"), "login") {
        Some(s) => s,
        None => {
            return Err(ExtractError::MalformedEvent);
        },
    };
    if pull_url.as_str().unicode_len() == 0 || comments_url.as_str().unicode_len() == 0
        || body.as_str().unicode_len() == 0 || login.as_str().unicode_len() == 0 {
        return Err(ExtractError::MalformedEvent);
    }
    Ok(
        EventFields {
            pull_url: pull_url.clone(),
            comments_url: comments_url.clone(),
            body: body.clone(),
            login: login.clone(),
        },
    )
}

/// Second extraction stage: reads the head commit and clone URL out of
/// the pull-request lookup response. Succeeds exactly when both are
/// present as non-empty strings.
pub fn extract_head(j: &Json) -> (r: Result<HeadInfo, ExtractError>)
    ensures
        match r {
            Ok(h) => head_spec(j@) == Some(h@),
            Err(e) => head_spec(j@) is None && e == ExtractError::MalformedEvent,
        },
{
    let head = field(Some(j), "head");
    let sha = match string_field(head, "sha") {
        Some(s) => s,
        None => {
            return Err(ExtractError::MalformedEvent);
        },
    };
    let clone_url = match string_field(field(head, "repo"), "clone_url") {
        Some(s) => s,
        None => {
            return Err(ExtractError::MalformedEvent);
        },
    };
    if sha.as_str().unicode_len() == 0 || clone_url.as_str().unicode_len() == 0 {
        return Err(ExtractError::MalformedEvent);
    }
    Ok(HeadInfo { sha: sha.clone(), clone_url: clone_url.clone() })
}

/// Assembles the trigger from the two extraction stages.
pub fn make_trigger(f: EventFields, h: HeadInfo) -> (t: PullRequestTrigger)
    ensures
        t@ == trigger_of(f@, h@),
{
    PullRequestTrigger {
        report_url: f.comments_url,
        clone_url: h.clone_url,
        head_commit: h.sha,
        command_text: f.body,
        commenter_id: f.login,
    }
}

} // verus!
