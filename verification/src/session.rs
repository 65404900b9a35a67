//! What a session log says about its session.

use vstd::prelude::*;

use crate::json::Json;
#[allow(unused_imports)]
use crate::json::JsonView;
#[allow(unused_imports)]
use crate::text::opt_text;
use crate::time::{parse_timestamp, Timestamp};
#[allow(unused_imports)]
use crate::time::timestamp_in;

verus! {

/// The description of a session.
#[derive(Clone, Debug)]
pub struct SessionMeta {
    pub session_id: String,
    pub started_at: Timestamp,
    pub last_event_at: Timestamp,
    pub cwd: Option<String>,
    pub repo_url: Option<String>,
    pub repo_branch: Option<String>,
    pub repo_commit: Option<String>,
    pub model_provider: Option<String>,
    pub subagent: Option<String>,
    pub last_model: Option<String>,
}

/// What a [`SessionMeta`] holds.
#[verifier::ext_equal]
pub struct SessionMetaView {
    pub session_id: Seq<char>,
    pub started_at: Timestamp,
    pub last_event_at: Timestamp,
    pub cwd: Option<Seq<char>>,
    pub repo_url: Option<Seq<char>>,
    pub repo_branch: Option<Seq<char>>,
    pub repo_commit: Option<Seq<char>>,
    pub model_provider: Option<Seq<char>>,
    pub subagent: Option<Seq<char>>,
    pub last_model: Option<Seq<char>>,
}

impl View for SessionMeta {
    type V = SessionMetaView;

    open spec fn view(&self) -> SessionMetaView {
        SessionMetaView {
            session_id: self.session_id@,
            started_at: self.started_at,
            last_event_at: self.last_event_at,
            cwd: opt_text(self.cwd),
            repo_url: opt_text(self.repo_url),
            repo_branch: opt_text(self.repo_branch),
            repo_commit: opt_text(self.repo_commit),
            model_provider: opt_text(self.model_provider),
            subagent: opt_text(self.subagent),
            last_model: opt_text(self.last_model),
        }
    }
}

/// What an optional description holds.
pub open spec fn opt_meta(meta: Option<SessionMeta>) -> Option<SessionMetaView> {
    match meta {
        Some(m) => Some(m@),
        None => None,
    }
}

/// The point in time that the member `timestamp` of an object spells.
pub open spec fn timestamp_member(value: JsonView) -> Option<Timestamp> {
    match value.text_at("timestamp"@) {
        Some(text) => timestamp_in(text),
        None => None,
    }
}

/// The description that `payload` gives of a session that started at
/// `started_at`; none where it names no session.
pub open spec fn meta_of_payload(payload: JsonView, started_at: Timestamp) -> Option<
    SessionMetaView,
> {
    match payload.text_at("id"@) {
        Some(session_id) => Some(
            SessionMetaView {
                session_id,
                started_at,
                last_event_at: started_at,
                cwd: payload.text_at("cwd"@),
                repo_url: payload.text_at2("git"@, "repository_url"@),
                repo_branch: payload.text_at2("git"@, "branch"@),
                repo_commit: payload.text_at2("git"@, "commit_hash"@),
                model_provider: payload.text_at("model_provider"@),
                subagent: payload.text_at2("source"@, "subagent"@),
                last_model: None,
            },
        ),
        None => None,
    }
}

/// The description that the event `value` gives of its session. The session
/// started when its payload says so, or else at `fallback`; where neither is
/// known there is no description.
pub open spec fn meta_in(value: JsonView, fallback: Option<Timestamp>) -> Option<
    SessionMetaView,
> {
    match value.get("payload"@) {
        Some(payload) => match (timestamp_member(payload), fallback) {
            (Some(at), _) => meta_of_payload(payload, at),
            (None, Some(at)) => meta_of_payload(payload, at),
            (None, None) => None,
        },
        None => None,
    }
}

/// An optional text as an owned string.
fn owned(text: Option<&str>) -> (copy: Option<String>)
    ensures
        opt_text(copy) == (match text {
            Some(t) => Some(t@),
            None => None,
        }),
{
    match text {
        Some(t) => Some(t.to_owned()),
        None => None,
    }
}

/// The point in time that the member `timestamp` of an object spells.
pub fn read_timestamp(value: &Json) -> (point: Option<Timestamp>)
    ensures
        point == timestamp_member(value@),
{
    match value.str_at("timestamp") {
        Some(text) => parse_timestamp(text),
        None => None,
    }
}

/// The description that `payload` gives of a session that started at
/// `started_at`; none where it names no session.
pub fn session_meta_at(payload: &Json, started_at: Timestamp) -> (meta: Option<SessionMeta>)
    ensures
        opt_meta(meta) == meta_of_payload(payload@, started_at),
{
    match payload.str_at("id") {
        Some(session_id) => Some(
            SessionMeta {
                session_id: session_id.to_owned(),
                started_at,
                last_event_at: started_at,
                cwd: owned(payload.str_at("cwd")),
                repo_url: owned(payload.str_at2("git", "repository_url")),
                repo_branch: owned(payload.str_at2("git", "branch")),
                repo_commit: owned(payload.str_at2("git", "commit_hash")),
                model_provider: owned(payload.str_at("model_provider")),
                subagent: owned(payload.str_at2("source", "subagent")),
                last_model: None,
            },
        ),
        None => None,
    }
}

/// The description that the event `value` gives of its session, started at
/// `fallback` where its payload does not say when.
pub fn parse_session_meta(value: &Json, fallback: Option<Timestamp>) -> (meta: Option<SessionMeta>)
    ensures
        opt_meta(meta) == meta_in(value@, fallback),
{
    let payload: &Json = match value.get("payload") {
        Some(payload) => payload,
        None => return None,
    };
    match read_timestamp(payload) {
        Some(at) => session_meta_at(payload, at),
        None => match fallback {
            Some(at) => session_meta_at(payload, at),
            None => None,
        },
    }
}

/// A session is described where it is named and its start is known. The start
/// is the payload's own time, or else that of the event, and is also the time
/// of the last event.
pub proof fn law_sessions_are_described(
    value: JsonView,
    payload: JsonView,
    fallback: Option<Timestamp>,
)
    requires
        value.get("payload"@) == Some(payload),
    ensures
        ({
            let own = match payload.text_at("timestamp"@) {
                Some(text) => timestamp_in(text),
                None => None,
            };
            let start = if own is Some { own } else { fallback };
            &&& meta_in(value, fallback) is Some <==> payload.text_at("id"@) is Some && start is Some
            &&& meta_in(value, fallback) matches Some(meta) ==> {
                &&& Some(meta.session_id) == payload.text_at("id"@)
                &&& Some(meta.started_at) == start
                &&& meta.last_event_at == meta.started_at
                &&& meta.cwd == payload.text_at("cwd"@)
                &&& meta.repo_url == payload.text_at2("git"@, "repository_url"@)
                &&& meta.repo_branch == payload.text_at2("git"@, "branch"@)
                &&& meta.repo_commit == payload.text_at2("git"@, "commit_hash"@)
                &&& meta.model_provider == payload.text_at("model_provider"@)
                &&& meta.subagent == payload.text_at2("source"@, "subagent"@)
                &&& meta.last_model is None
            }
        }),
{
}

/// A description given for a start has that start, and is otherwise the same
/// for every start. Without a payload there is none.
pub proof fn law_descriptions_differ_by_their_start(
    payload: JsonView,
    a: Timestamp,
    b: Timestamp,
    value: JsonView,
)
    ensures
        meta_of_payload(payload, a) is Some <==> payload.text_at("id"@) is Some,
        meta_of_payload(payload, a) matches Some(meta) ==> meta.started_at == a
            && meta.last_event_at == a && meta_of_payload(payload, b) == Some(
            SessionMetaView { started_at: b, last_event_at: b, ..meta },
        ),
        value.get("payload"@) == Some(payload) && timestamp_member(payload) == Some(a)
            ==> meta_in(value, Some(b)) == meta_of_payload(payload, a) && meta_in(value, None)
            == meta_of_payload(payload, a),
        value.get("payload"@) is None ==> meta_in(value, Some(a)) is None && meta_in(
            value,
            None,
        ) is None,
{
}

/// The time of an event is the one that its member `timestamp` spells.
pub proof fn law_events_have_their_time(value: JsonView)
    ensures
        value.text_at("timestamp"@) matches Some(text) ==> timestamp_member(value) == timestamp_in(
            text,
        ),
        value.text_at("timestamp"@) is None ==> timestamp_member(value) is None,
{
}

} // verus!
