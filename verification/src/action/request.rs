//! Requests, proposals and the states of action work.

use vstd::prelude::*;

use super::ActionError;
use crate::json::{Datum, Json};
use crate::nexus;
use crate::runtime::{RuntimePins, RuntimeScope};
use crate::text;

verus! {

/// The version of one tool.
#[derive(Debug)]
pub struct ToolVersion {
    pub tool: String,
    pub version: String,
}

/// Required read scope, assigned by trusted code and not by a model's
/// suggestion. The anchor is an existing Proposition used only as a native read
/// coordinate; it need not be true. Actual prerequisites are the premises.
#[derive(Debug)]
pub struct ContextRequest {
    pub recall_receipt: Option<Json>,
    pub anchor: String,
    pub required_refs: Vec<String>,
    pub premises: Vec<String>,
    pub applied_revisions: Vec<String>,
    pub task_family: String,
    pub environment_digest: String,
    pub tool_versions: Vec<ToolVersion>,
    /// Identifies one logical business operation within this Space instance.
    pub deduplication_key: Option<String>,
}

/// The versions, by tool.
pub open spec fn tools_value(tools: Seq<ToolVersion>) -> Datum
    decreases tools.len(),
{
    if tools.len() == 0 {
        Datum::empty()
    } else {
        tools_value(tools.drop_last()).with(
            tools.last().tool@,
            Datum::Text(tools.last().version@),
        )
    }
}

pub(crate) fn tools_json(tools: &Vec<ToolVersion>) -> (r: Json)
    ensures
        r@ == tools_value(tools@),
{
    let mut out = Json::object();
    let mut i: usize = 0;
    assert(tools@.take(0) =~= Seq::empty());
    while i < tools.len()
        invariant
            i <= tools.len(),
            out@ == tools_value(tools@.take(i as int)),
        decreases tools.len() - i,
    {
        proof {
            assert(tools@.take(i + 1).drop_last() =~= tools@.take(i as int));
            assert(tools@.take(i + 1).last() == tools@[i as int]);
        }
        out = out.with(tools[i].tool.as_str(), Json::text(tools[i].version.as_str()));
        i = i + 1;
    }
    assert(tools@.take(i as int) =~= tools@);
    out
}

pub open spec fn optional_text(t: Option<String>) -> Datum {
    match t {
        Some(own) => Datum::Text(own@),
        None => Datum::Null,
    }
}

impl ContextRequest {
    pub open spec fn value(self) -> Datum {
        let base = Datum::empty().with("anchor"@, Datum::Text(self.anchor@)).with(
            "required_refs"@,
            crate::json::text_list(text::views(self.required_refs@)),
        ).with("premises"@, crate::json::text_list(text::views(self.premises@))).with(
            "applied_revisions"@,
            crate::json::text_list(text::views(self.applied_revisions@)),
        ).with("task_family"@, Datum::Text(self.task_family@)).with(
            "environment_digest"@,
            Datum::Text(self.environment_digest@),
        ).with("tool_versions"@, tools_value(self.tool_versions@)).with(
            "deduplication_key"@,
            optional_text(self.deduplication_key),
        );
        match self.recall_receipt {
            Some(receipt) => base.with("recall_receipt"@, receipt@),
            None => base,
        }
    }

    pub fn to_json(&self) -> (r: Json)
        ensures
            r@ == self.value(),
    {
        let base = Json::object().with("anchor", Json::text(self.anchor.as_str())).with(
            "required_refs",
            Json::texts(&self.required_refs),
        ).with("premises", Json::texts(&self.premises)).with(
            "applied_revisions",
            Json::texts(&self.applied_revisions),
        ).with("task_family", Json::text(self.task_family.as_str())).with(
            "environment_digest",
            Json::text(self.environment_digest.as_str()),
        ).with("tool_versions", tools_json(&self.tool_versions)).with(
            "deduplication_key",
            Json::text_or_null(&self.deduplication_key),
        );
        match &self.recall_receipt {
            Some(receipt) => base.with("recall_receipt", receipt.copy()),
            None => base,
        }
    }

    /// The same request, part for part.
    pub open spec fn same_as(self, other: ContextRequest) -> bool {
        &&& match (self.recall_receipt, other.recall_receipt) {
            (Some(a), Some(b)) => a@ == b@,
            (None, None) => true,
            _ => false,
        }
        &&& self.anchor@ == other.anchor@
        &&& text::views(self.required_refs@) == text::views(other.required_refs@)
        &&& text::views(self.premises@) == text::views(other.premises@)
        &&& text::views(self.applied_revisions@) == text::views(other.applied_revisions@)
        &&& self.task_family@ == other.task_family@
        &&& self.environment_digest@ == other.environment_digest@
        &&& self.tool_versions@ == other.tool_versions@
        &&& self.deduplication_key == other.deduplication_key
    }

    pub fn copy(&self) -> (r: ContextRequest)
        ensures
            r.same_as(*self),
            r.value() == self.value(),
    {
        let recall_receipt = match &self.recall_receipt {
            Some(receipt) => Some(receipt.copy()),
            None => None,
        };
        ContextRequest {
            recall_receipt,
            anchor: self.anchor.clone(),
            required_refs: text::copy_list(&self.required_refs),
            premises: text::copy_list(&self.premises),
            applied_revisions: text::copy_list(&self.applied_revisions),
            task_family: self.task_family.clone(),
            environment_digest: self.environment_digest.clone(),
            tool_versions: copy_tools(&self.tool_versions),
            deduplication_key: crate::runtime::optional_copy(&self.deduplication_key),
        }
    }
}

fn copy_tools(tools: &Vec<ToolVersion>) -> (r: Vec<ToolVersion>)
    ensures
        r@ == tools@,
{
    let mut out: Vec<ToolVersion> = Vec::new();
    let mut i: usize = 0;
    while i < tools.len()
        invariant
            i <= tools.len(),
            out@ == tools@.take(i as int),
        decreases tools.len() - i,
    {
        out.push(
            ToolVersion { tool: tools[i].tool.clone(), version: tools[i].version.clone() },
        );
        i = i + 1;
        assert(out@ =~= tools@.take(i as int));
    }
    assert(tools@.take(i as int) =~= tools@);
    out
}

/// What a policy suggests for a wake.
#[derive(Debug)]
pub enum Proposal {
    Act { rationale: String, used_refs: Vec<String>, payload: Json },
    Ask { rationale: String, used_refs: Vec<String>, question: String },
    Defer { reason: String },
    Silence { rationale: String, used_refs: Vec<String> },
}

impl Proposal {
    /// Why it is suggested.
    pub open spec fn why(self) -> Seq<char> {
        match self {
            Proposal::Act { rationale, .. } => rationale@,
            Proposal::Ask { rationale, .. } => rationale@,
            Proposal::Defer { reason } => reason@,
            Proposal::Silence { rationale, .. } => rationale@,
        }
    }

    /// The memories that it names as used.
    pub open spec fn used(self) -> Seq<Seq<char>> {
        match self {
            Proposal::Act { used_refs, .. } => text::views(used_refs@),
            Proposal::Ask { used_refs, .. } => text::views(used_refs@),
            Proposal::Defer { .. } => Seq::empty(),
            Proposal::Silence { used_refs, .. } => text::views(used_refs@),
        }
    }

    /// The work is put off, for that reason.
    pub open spec fn defers(self, reason: Seq<char>) -> bool {
        self matches Proposal::Defer { reason: own } && own@ == reason
    }

    /// The name of the decision.
    pub open spec fn decision(self) -> Seq<char> {
        match self {
            Proposal::Act { .. } => "act"@,
            Proposal::Ask { .. } => "ask"@,
            Proposal::Defer { .. } => "defer"@,
            Proposal::Silence { .. } => "silence"@,
        }
    }

    pub fn reason_text(&self) -> (r: &str)
        ensures
            r@ == self.why(),
    {
        match self {
            Proposal::Act { rationale, .. } => rationale.as_str(),
            Proposal::Ask { rationale, .. } => rationale.as_str(),
            Proposal::Defer { reason } => reason.as_str(),
            Proposal::Silence { rationale, .. } => rationale.as_str(),
        }
    }

    pub fn defer(reason: &str) -> (r: Proposal)
        ensures
            r.defers(reason@),
    {
        Proposal::Defer { reason: reason.to_owned() }
    }
}

#[derive(Clone, Copy, Debug, PartialEq, Eq, Structural)]
pub enum ActionKind {
    Business,
    DeliverClarification,
}

impl ActionKind {
    pub open spec fn name(self) -> Seq<char> {
        match self {
            ActionKind::Business => "business"@,
            ActionKind::DeliverClarification => "deliver_clarification"@,
        }
    }

    pub fn as_str(&self) -> (r: &'static str)
        ensures
            r@ == self.name(),
    {
        match self {
            ActionKind::Business => "business",
            ActionKind::DeliverClarification => "deliver_clarification",
        }
    }
}

/// A fixed request. The destination is chosen by the installed adapter; the
/// payload is content, never authority over the target. The stable key is the
/// native attempt.
#[derive(Debug)]
pub struct ActionRequest {
    pub scope: RuntimeScope,
    pub pins: RuntimePins,
    pub gate_wake_ref: String,
    pub kind: ActionKind,
    pub attempt_id: String,
    pub payload: Json,
    pub context: ContextRequest,
}

impl ActionRequest {
    pub open spec fn value(self) -> Datum {
        Datum::empty().with("scope"@, self.scope.value()).with("pins"@, self.pins.value()).with(
            "gate_wake_ref"@,
            Datum::Text(self.gate_wake_ref@),
        ).with("kind"@, Datum::Text(self.kind.name())).with(
            "attempt_id"@,
            Datum::Text(self.attempt_id@),
        ).with("payload"@, self.payload@).with("context"@, self.context.value())
    }

    pub fn to_json(&self) -> (r: Json)
        ensures
            r@ == self.value(),
    {
        Json::object().with("scope", self.scope.to_json()).with("pins", self.pins.to_json()).with(
            "gate_wake_ref",
            Json::text(self.gate_wake_ref.as_str()),
        ).with("kind", Json::text(self.kind.as_str())).with(
            "attempt_id",
            Json::text(self.attempt_id.as_str()),
        ).with("payload", self.payload.copy()).with("context", self.context.to_json())
    }
}

/// What an adapter is handed with a request.
#[derive(Debug)]
pub struct DispatchPermit {
    pub wake_ref: String,
    pub attempt_ref: String,
    pub dispatch_ref: String,
    pub fence: u64,
    pub expires_at_ms: u64,
}

/// The status of a transport; it is never an independent outcome.
#[derive(Clone, Copy, Debug, PartialEq, Eq, Structural)]
pub enum DeliveryStatus {
    Accepted,
    Finished,
    Unknown,
}

/// An answer to a question. It is data, never an approval.
#[derive(Debug)]
pub struct ClarificationResponse {
    pub event_key: String,
    pub answer: String,
}

impl ClarificationResponse {
    pub open spec fn same_as(self, other: ClarificationResponse) -> bool {
        self.event_key@ == other.event_key@ && self.answer@ == other.answer@
    }

    pub fn same(&self, other: &ClarificationResponse) -> (r: bool)
        ensures
            r == self.same_as(*other),
    {
        text::same(self.event_key.as_str(), other.event_key.as_str()) && text::same(
            self.answer.as_str(),
            other.answer.as_str(),
        )
    }
}

/// Where the work of a wake stands.
#[derive(Debug)]
pub struct ActionStatus {
    pub wake_ref: String,
    pub decision: Option<String>,
    pub decision_ref: Option<String>,
    pub attempt_ref: Option<String>,
    pub dispatch_ref: Option<String>,
    pub state: String,
    pub reason: Option<String>,
    pub next_run_ms: Option<u64>,
    pub attempts: u32,
    /// Explicit operator retries; attempts counts the current window.
    pub operator_retries: u32,
}

/// A status, through views.
pub struct Status {
    pub wake_ref: Seq<char>,
    pub decision: Option<Seq<char>>,
    pub decision_ref: Option<Seq<char>>,
    pub attempt_ref: Option<Seq<char>>,
    pub dispatch_ref: Option<Seq<char>>,
    pub state: Seq<char>,
    pub reason: Option<Seq<char>>,
    pub next_run_ms: Option<u64>,
    pub attempts: u32,
    pub operator_retries: u32,
}

pub open spec fn opt_view(t: Option<String>) -> Option<Seq<char>> {
    match t {
        Some(own) => Some(own@),
        None => None,
    }
}

impl View for ActionStatus {
    type V = Status;

    open spec fn view(&self) -> Status {
        Status {
            wake_ref: self.wake_ref@,
            decision: opt_view(self.decision),
            decision_ref: opt_view(self.decision_ref),
            attempt_ref: opt_view(self.attempt_ref),
            dispatch_ref: opt_view(self.dispatch_ref),
            state: self.state@,
            reason: opt_view(self.reason),
            next_run_ms: self.next_run_ms,
            attempts: self.attempts,
            operator_retries: self.operator_retries,
        }
    }
}

impl Status {
    /// The status of work in a state, of which nothing else is known.
    pub open spec fn bare(wake_ref: Seq<char>, state: Seq<char>) -> Status {
        Status {
            wake_ref,
            decision: None,
            decision_ref: None,
            attempt_ref: None,
            dispatch_ref: None,
            state,
            reason: None,
            next_run_ms: None,
            attempts: 0,
            operator_retries: 0,
        }
    }
}

impl ActionStatus {
    pub fn bare(wake_ref: &str, state: &str) -> (r: ActionStatus)
        ensures
            r@ == Status::bare(wake_ref@, state@),
    {
        ActionStatus {
            wake_ref: wake_ref.to_owned(),
            decision: None,
            decision_ref: None,
            attempt_ref: None,
            dispatch_ref: None,
            state: state.to_owned(),
            reason: None,
            next_run_ms: None,
            attempts: 0,
            operator_retries: 0,
        }
    }

    pub fn copy(&self) -> (r: ActionStatus)
        ensures
            r == *self,
    {
        ActionStatus {
            wake_ref: self.wake_ref.clone(),
            decision: crate::runtime::optional_copy(&self.decision),
            decision_ref: crate::runtime::optional_copy(&self.decision_ref),
            attempt_ref: crate::runtime::optional_copy(&self.attempt_ref),
            dispatch_ref: crate::runtime::optional_copy(&self.dispatch_ref),
            state: self.state.clone(),
            reason: crate::runtime::optional_copy(&self.reason),
            next_run_ms: self.next_run_ms,
            attempts: self.attempts,
            operator_retries: self.operator_retries,
        }
    }
}

// ---------------------------------------------------------------------------
// Derived identities
// ---------------------------------------------------------------------------

/// A scope and one more text under a name.
pub open spec fn scoped_value(scope: RuntimeScope, name: Seq<char>, id: Seq<char>) -> Datum {
    Datum::empty().with("scope"@, scope.value()).with(name, Datum::Text(id))
}

/// The digits of a scoped identity.
pub(crate) fn scoped_digits(scope: &RuntimeScope, name: &str, id: &str) -> (r: String)
    ensures
        nexus::digits_of(scoped_value(*scope, name@, id@)) == Some(r@),
        nexus::is_hex64(r@),
{
    let scope_json = scope.to_json();
    let value = Json::object().with("scope", scope_json).with(name, Json::text(id));
    proof {
        nexus::two_texts_are_portable(
            "space_id"@,
            scope.space_id@,
            "space_instance"@,
            scope.space_instance@,
        );
        scope_is_portable(*scope);
        let a = Datum::empty();
        nexus::a_member_keeps_portable(a, "scope"@, scope.value(), 100);
        nexus::a_member_keeps_portable(
            a.with("scope"@, scope.value()),
            name@,
            Datum::Text(id@),
            100,
        );
    }
    nexus::json_digits(&value)
}

proof fn scope_is_portable(scope: RuntimeScope)
    ensures
        nexus::portable(scope.value(), 99),
{
    let a = Datum::empty();
    nexus::a_member_keeps_portable(a, "space_id"@, Datum::Text(scope.space_id@), 99);
    nexus::a_member_keeps_portable(
        a.with("space_id"@, Datum::Text(scope.space_id@)),
        "space_instance"@,
        Datum::Text(scope.space_instance@),
        99,
    );
}

/// The reference of the dispatch of an attempt.
pub open spec fn dispatch_reference_of(scope: RuntimeScope, attempt_id: Seq<char>) -> Option<
    Seq<char>,
> {
    match nexus::digits_of(scoped_value(scope, "attempt_id"@, attempt_id)) {
        Some(digits) => Some("dispatch/v1/"@ + digits),
        None => None,
    }
}

/// The reference of the dispatch of an attempt: a function of the scope and the
/// attempt alone, so that recovery finds a dispatch that was already started.
pub fn dispatch_reference(scope: &RuntimeScope, attempt_id: &str) -> (r: String)
    ensures
        dispatch_reference_of(*scope, attempt_id@) == Some(r@),
{
    let mut out = "dispatch/v1/".to_owned();
    out.append(scoped_digits(scope, "attempt_id", attempt_id).as_str());
    out
}

/// The storage key of a record of action work.
pub open spec fn key_of(scope: RuntimeScope, kind: Seq<char>, id: Seq<char>) -> Option<Seq<char>> {
    match nexus::digits_of(scoped_value(scope, "id"@, id)) {
        Some(digits) => Some("actions/"@ + kind + "/"@ + digits),
        None => None,
    }
}

pub fn key(scope: &RuntimeScope, kind: &str, id: &str) -> (r: String)
    ensures
        key_of(*scope, kind@, id@) == Some(r@),
{
    let mut out = "actions/".to_owned();
    out.append(kind);
    out.append("/");
    out.append(scoped_digits(scope, "id", id).as_str());
    out
}

/// The digest of a JSON value that an outsider may have filled.
pub(crate) fn digest_or(value: &Json) -> (r: Result<String, ActionError>)
    ensures
        match r {
            Ok(d) => nexus::digest_of(value@) == Some(d@),
            Err(e) => nexus::digest_of(value@) is None && e == ActionError::Undigestible,
        },
{
    match nexus::content_digest(value) {
        Ok(d) => Ok(d),
        Err(_) => Err(ActionError::Undigestible),
    }
}

} // verus!
