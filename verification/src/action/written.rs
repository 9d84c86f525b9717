//! What is written of an action reads back: no part of it is lost, and different
//! actions are written differently.

use vstd::prelude::*;

use super::context::{Capture, VersionPin};
use super::native::{self, GatePlan, OutputRow};
use super::request::{self, ActionKind, ActionRequest, ContextRequest, Proposal};
use super::{ActionBindings, ActionLimits};
use crate::json::{self, Datum};
use crate::runtime::{RuntimePin, RuntimePins, RuntimeScope};
use crate::text;
use crate::wake::WakeRecord;

verus! {

// ---------------------------------------------------------------------------
// Scopes and pins
// ---------------------------------------------------------------------------

/// A scope reads back as the Space and its instance.
pub proof fn scopes_read_back(scope: RuntimeScope)
    ensures
        scope.value().at("space_id"@) == Datum::Text(scope.space_id@),
        scope.value().at("space_instance"@) == Datum::Text(scope.space_instance@),
{
    broadcast use json::with_is_read_back;

    reveal_strlit("space_id");
    reveal_strlit("space_instance");
    assert("space_id"@.len() == 8 && "space_instance"@.len() == 14);
    let v = scope.value();
    assert(v.get("space_id"@) == Some(Datum::Text(scope.space_id@)));
    assert(v.get("space_instance"@) == Some(Datum::Text(scope.space_instance@)));
}

/// A pin reads back as what it pins, at which digest.
pub proof fn pin_reads_back(pin: RuntimePin)
    ensures
        pin.value().at("id"@) == Datum::Text(pin.id@),
        pin.value().at("digest"@) == Datum::Text(pin.digest@),
{
    broadcast use json::with_is_read_back;

    reveal_strlit("id");
    reveal_strlit("digest");
    assert("id"@.len() == 2 && "digest"@.len() == 6);
    let v = pin.value();
    assert(v.get("id"@) == Some(Datum::Text(pin.id@)));
    assert(v.get("digest"@) == Some(Datum::Text(pin.digest@)));
}

/// The two pins are the same in both parts, or neither is there.
pub open spec fn agree(a: Option<RuntimePin>, b: Option<RuntimePin>) -> bool {
    &&& a is Some <==> b is Some
    &&& a is Some ==> a->0.id@ == b->0.id@ && a->0.digest@ == b->0.digest@
}

/// Configurations are written alike only where policy, evaluator and binding agree.
pub proof fn pins_tell_apart(a: RuntimePins, b: RuntimePins)
    requires
        a.value() == b.value(),
    ensures
        agree(Some(a.policy), Some(b.policy)),
        agree(a.evaluator, b.evaluator),
        agree(a.binding, b.binding),
        a.same_as(b),
{
    broadcast use json::with_is_read_back;

    reveal_strlit("policy");
    reveal_strlit("evaluator");
    reveal_strlit("binding");
    assert("policy"@.len() == 6 && "evaluator"@.len() == 9 && "binding"@.len() == 7);
    let v = a.value();
    let w = b.value();
    assert(v.get("policy"@) == Some(a.policy.value()));
    assert(w.get("policy"@) == Some(b.policy.value()));
    assert(v.get("evaluator"@) == Some(crate::runtime::optional_pin_value(a.evaluator)));
    assert(w.get("evaluator"@) == Some(crate::runtime::optional_pin_value(b.evaluator)));
    assert(v.get("binding"@) == Some(crate::runtime::optional_pin_value(a.binding)));
    assert(w.get("binding"@) == Some(crate::runtime::optional_pin_value(b.binding)));
    pin_reads_back(a.policy);
    pin_reads_back(b.policy);
    if a.evaluator is Some {
        pin_reads_back(a.evaluator->0);
    }
    if b.evaluator is Some {
        pin_reads_back(b.evaluator->0);
    }
    if a.binding is Some {
        pin_reads_back(a.binding->0);
    }
    if b.binding is Some {
        pin_reads_back(b.binding->0);
    }
}

// ---------------------------------------------------------------------------
// Requests
// ---------------------------------------------------------------------------

/// The value is the list of these texts.
pub open spec fn lists(v: Datum, texts: Seq<String>) -> bool {
    v is Array && v->Array_0.len() == texts.len() && forall|i: int|
        0 <= i < texts.len() ==> #[trigger] v->Array_0[i] == Datum::Text(texts[i]@)
}

pub(crate) proof fn listed(texts: Seq<String>)
    ensures
        lists(json::text_list(text::views(texts)), texts),
{
    assert(text::views(texts).len() == texts.len());
    let v = json::text_list(text::views(texts));
    assert forall|i: int| 0 <= i < texts.len() implies #[trigger] v->Array_0[i] == Datum::Text(
        texts[i]@,
    ) by {
        assert(text::views(texts)[i] == texts[i]@);
    }
}

/// The context that is asked for reads back part by part.
pub proof fn contexts_read_back(c: ContextRequest)
    ensures
        ({
            let v = c.value();
            &&& v.at("anchor"@) == Datum::Text(c.anchor@)
            &&& lists(v.at("required_refs"@), c.required_refs@)
            &&& lists(v.at("premises"@), c.premises@)
            &&& lists(v.at("applied_revisions"@), c.applied_revisions@)
            &&& v.at("task_family"@) == Datum::Text(c.task_family@)
            &&& v.at("environment_digest"@) == Datum::Text(c.environment_digest@)
            &&& v.at("tool_versions"@) == request::tools_value(c.tool_versions@)
            &&& c.deduplication_key matches Some(k) ==> v.at("deduplication_key"@) == Datum::Text(
                k@,
            )
            &&& c.deduplication_key is None ==> v.at("deduplication_key"@) == Datum::Null
            &&& c.recall_receipt matches Some(receipt) ==> v.get("recall_receipt"@) == Some(
                receipt@,
            )
            &&& c.recall_receipt is None ==> v.get("recall_receipt"@) is None
        }),
{
    broadcast use json::with_is_read_back;

    reveal_strlit("anchor");
    reveal_strlit("required_refs");
    reveal_strlit("premises");
    reveal_strlit("applied_revisions");
    reveal_strlit("task_family");
    reveal_strlit("environment_digest");
    reveal_strlit("tool_versions");
    reveal_strlit("deduplication_key");
    reveal_strlit("recall_receipt");
    assert("anchor"@.len() == 6 && "required_refs"@.len() == 13 && "premises"@.len() == 8 && "applied_revisions"@.len() == 17);
    assert("task_family"@.len() == 11 && "environment_digest"@.len() == 18 && "tool_versions"@.len() == 13 && "deduplication_key"@.len() == 17);
    assert("recall_receipt"@.len() == 14 && "applied_revisions"@[0] == 'a' && "deduplication_key"@[0] == 'd' && "required_refs"@[0] == 'r');
    assert("tool_versions"@[0] == 't');
    listed(c.required_refs@);
    listed(c.premises@);
    listed(c.applied_revisions@);
    let v = c.value();
    assert(v.get("anchor"@) == Some(Datum::Text(c.anchor@)));
    assert(v.get("required_refs"@) == Some(json::text_list(text::views(c.required_refs@))));
    assert(v.get("premises"@) == Some(json::text_list(text::views(c.premises@))));
    assert(v.get("applied_revisions"@) == Some(
        json::text_list(text::views(c.applied_revisions@)),
    ));
    assert(v.get("task_family"@) == Some(Datum::Text(c.task_family@)));
    assert(v.get("environment_digest"@) == Some(Datum::Text(c.environment_digest@)));
    assert(v.get("tool_versions"@) == Some(request::tools_value(c.tool_versions@)));
    assert(v.get("deduplication_key"@) == Some(request::optional_text(c.deduplication_key)));
    assert(Datum::empty().get("recall_receipt"@) is None);
    if c.recall_receipt is None {
        assert(v.get("recall_receipt"@) is None);
    }
}

/// The last version that is named of a tool is the one that is written.
pub proof fn tools_read_back(tools: Seq<request::ToolVersion>, i: int)
    requires
        0 <= i < tools.len(),
        forall|j: int| i < j < tools.len() ==> (#[trigger] tools[j]).tool@ != tools[i].tool@,
    ensures
        request::tools_value(tools) is Object,
        request::tools_value(tools).at(tools[i].tool@) == Datum::Text(tools[i].version@),
    decreases tools.len(),
{
    broadcast use json::with_is_read_back;

    let rest = tools.drop_last();
    tools_are_objects(rest);
    let v = request::tools_value(tools);
    if i < tools.len() - 1 {
        assert forall|j: int| i < j < rest.len() implies (#[trigger] rest[j]).tool@
            != rest[i].tool@ by {
            assert(rest[j] == tools[j]);
        }
        tools_read_back(rest, i);
        assert(tools[tools.len() - 1] == tools.last());
        assert(v.get(tools[i].tool@) == request::tools_value(rest).get(tools[i].tool@));
    } else {
        assert(v.get(tools[i].tool@) == Some(Datum::Text(tools[i].version@)));
    }
}

proof fn tools_are_objects(tools: Seq<request::ToolVersion>)
    ensures
        request::tools_value(tools) is Object,
    decreases tools.len(),
{
    if tools.len() > 0 {
        tools_are_objects(tools.drop_last());
    }
}

/// A request is written with all that it is made of: requests that are written alike, and
/// so have the same digest, are for the same Space, configuration, wake, kind, attempt
/// and payload, and rest on the same context.
pub proof fn requests_tell_apart(a: ActionRequest, b: ActionRequest)
    requires
        a.value() == b.value(),
    ensures
        a.scope.space_id@ == b.scope.space_id@,
        a.scope.space_instance@ == b.scope.space_instance@,
        a.pins.same_as(b.pins),
        a.gate_wake_ref@ == b.gate_wake_ref@,
        a.kind == b.kind,
        a.attempt_id@ == b.attempt_id@,
        a.payload@ == b.payload@,
        a.context.value() == b.context.value(),
{
    broadcast use json::with_is_read_back;

    reveal_strlit("scope");
    reveal_strlit("pins");
    reveal_strlit("gate_wake_ref");
    reveal_strlit("kind");
    reveal_strlit("attempt_id");
    reveal_strlit("payload");
    reveal_strlit("context");
    reveal_strlit("business");
    reveal_strlit("deliver_clarification");
    assert("scope"@.len() == 5 && "pins"@.len() == 4 && "gate_wake_ref"@.len() == 13 && "kind"@.len() == 4);
    assert("attempt_id"@.len() == 10 && "payload"@.len() == 7 && "context"@.len() == 7 && "business"@.len() == 8);
    assert("deliver_clarification"@.len() == 21 && "context"@[0] == 'c' && "kind"@[0] == 'k' && "payload"@[0] == 'p');
    assert("pins"@[0] == 'p');
    let v = a.value();
    let w = b.value();
    assert(v.get("scope"@) == Some(a.scope.value()));
    assert(w.get("scope"@) == Some(b.scope.value()));
    assert(v.get("pins"@) == Some(a.pins.value()));
    assert(w.get("pins"@) == Some(b.pins.value()));
    assert(v.get("gate_wake_ref"@) == Some(Datum::Text(a.gate_wake_ref@)));
    assert(w.get("gate_wake_ref"@) == Some(Datum::Text(b.gate_wake_ref@)));
    assert(v.get("kind"@) == Some(Datum::Text(a.kind.name())));
    assert(w.get("kind"@) == Some(Datum::Text(b.kind.name())));
    assert(v.get("attempt_id"@) == Some(Datum::Text(a.attempt_id@)));
    assert(w.get("attempt_id"@) == Some(Datum::Text(b.attempt_id@)));
    assert(v.get("payload"@) == Some(a.payload@));
    assert(w.get("payload"@) == Some(b.payload@));
    assert(v.get("context"@) == Some(a.context.value()));
    assert(w.get("context"@) == Some(b.context.value()));
    scopes_read_back(a.scope);
    scopes_read_back(b.scope);
    pins_tell_apart(a.pins, b.pins);
}

/// The identity of an attempt is made of the Space, the wake and the kind of action: of
/// two attempts that are written alike none differs from the other.
pub proof fn attempts_tell_apart(a: WakeRecord, p: ActionKind, b: WakeRecord, q: ActionKind)
    requires
        native::attempt_value(a, p) == native::attempt_value(b, q),
    ensures
        a.scope.space_id@ == b.scope.space_id@,
        a.scope.space_instance@ == b.scope.space_instance@,
        a.wake_ref@ == b.wake_ref@,
        p == q,
{
    broadcast use json::with_is_read_back;

    reveal_strlit("scope");
    reveal_strlit("wake");
    reveal_strlit("kind");
    reveal_strlit("business");
    reveal_strlit("deliver_clarification");
    assert("scope"@.len() == 5 && "wake"@.len() == 4 && "kind"@.len() == 4 && "business"@.len() == 8);
    assert("deliver_clarification"@.len() == 21 && "kind"@[0] == 'k' && "wake"@[0] == 'w');
    let v = native::attempt_value(a, p);
    let w = native::attempt_value(b, q);
    assert(v.get("scope"@) == Some(a.scope.value()));
    assert(w.get("scope"@) == Some(b.scope.value()));
    assert(v.get("wake"@) == Some(Datum::Text(a.wake_ref@)));
    assert(w.get("wake"@) == Some(Datum::Text(b.wake_ref@)));
    assert(v.get("kind"@) == Some(Datum::Text(p.name())));
    assert(w.get("kind"@) == Some(Datum::Text(q.name())));
    scopes_read_back(a.scope);
    scopes_read_back(b.scope);
}

/// A record is kept under a key of its own: what is written for two records of different
/// Spaces or identities differs.
pub proof fn records_tell_apart(a: RuntimeScope, x: Seq<char>, b: RuntimeScope, y: Seq<char>)
    ensures
        request::scoped_value(a, "id"@, x) == request::scoped_value(b, "id"@, y)
            ==> a.space_id@ == b.space_id@ && a.space_instance@ == b.space_instance@ && x == y,
        request::scoped_value(a, "attempt_id"@, x) == request::scoped_value(b, "attempt_id"@, y)
            ==> a.space_id@ == b.space_id@ && a.space_instance@ == b.space_instance@ && x == y,
{
    broadcast use json::with_is_read_back;

    reveal_strlit("scope");
    reveal_strlit("id");
    reveal_strlit("attempt_id");
    assert("scope"@.len() == 5 && "id"@.len() == 2 && "attempt_id"@.len() == 10);
    scopes_read_back(a);
    scopes_read_back(b);
    let v = request::scoped_value(a, "id"@, x);
    let w = request::scoped_value(b, "id"@, y);
    assert(v.get("scope"@) == Some(a.value()) && v.get("id"@) == Some(Datum::Text(x)));
    assert(w.get("scope"@) == Some(b.value()) && w.get("id"@) == Some(Datum::Text(y)));
    let p = request::scoped_value(a, "attempt_id"@, x);
    let q = request::scoped_value(b, "attempt_id"@, y);
    assert(p.get("scope"@) == Some(a.value()) && p.get("attempt_id"@) == Some(Datum::Text(x)));
    assert(q.get("scope"@) == Some(b.value()) && q.get("attempt_id"@) == Some(Datum::Text(y)));
}

// ---------------------------------------------------------------------------
// Configuration
// ---------------------------------------------------------------------------

/// Limits are written with every bound, and bounded so that a lease outlives four
/// callbacks.
pub proof fn limits_read_back(a: ActionLimits, b: ActionLimits)
    ensures
        a.bounded() <==> {
            &&& 0 < a.callbacks_ms < 30_001
            &&& 999 < a.lease_ms < 300_001
            &&& a.callbacks_ms * 4 < a.lease_ms
            &&& 0 < a.retry_ms < 3_600_001
            &&& a.max_retries < 17
            &&& 0 < a.per_pass < 21
            &&& 0 < a.proposal_tokens < 8_193
        },
        a.value() == b.value() && a.bounded() && b.bounded() ==> {
            &&& a.callbacks_ms == b.callbacks_ms
            &&& a.lease_ms == b.lease_ms
            &&& a.retry_ms == b.retry_ms
            &&& a.max_retries == b.max_retries
            &&& a.per_pass == b.per_pass
            &&& a.proposal_tokens == b.proposal_tokens
            &&& a.recall.value() == b.recall.value()
        },
{
    broadcast use json::with_is_read_back;

    reveal_strlit("recall");
    reveal_strlit("callbacks_ms");
    reveal_strlit("lease_ms");
    reveal_strlit("retry_ms");
    reveal_strlit("max_retries");
    reveal_strlit("per_pass");
    reveal_strlit("proposal_tokens");
    assert("recall"@.len() == 6 && "callbacks_ms"@.len() == 12 && "lease_ms"@.len() == 8 && "retry_ms"@.len() == 8);
    assert("max_retries"@.len() == 11 && "per_pass"@.len() == 8 && "proposal_tokens"@.len() == 15 && "lease_ms"@[0] == 'l');
    assert("per_pass"@[0] == 'p' && "retry_ms"@[0] == 'r');
    let v = a.value();
    let w = b.value();
    assert(v.get("recall"@) == Some(a.recall.value()));
    assert(w.get("recall"@) == Some(b.recall.value()));
    assert(v.get("callbacks_ms"@) == Some(Datum::Unsigned(a.callbacks_ms)));
    assert(w.get("callbacks_ms"@) == Some(Datum::Unsigned(b.callbacks_ms)));
    assert(v.get("lease_ms"@) == Some(Datum::Unsigned(a.lease_ms)));
    assert(w.get("lease_ms"@) == Some(Datum::Unsigned(b.lease_ms)));
    assert(v.get("retry_ms"@) == Some(Datum::Unsigned(a.retry_ms)));
    assert(w.get("retry_ms"@) == Some(Datum::Unsigned(b.retry_ms)));
    assert(v.get("max_retries"@) == Some(Datum::Unsigned(a.max_retries as u64)));
    assert(w.get("max_retries"@) == Some(Datum::Unsigned(b.max_retries as u64)));
    assert(v.get("per_pass"@) == Some(Datum::Unsigned(a.per_pass as u64)));
    assert(w.get("per_pass"@) == Some(Datum::Unsigned(b.per_pass as u64)));
    assert(v.get("proposal_tokens"@) == Some(Datum::Unsigned(a.proposal_tokens as u64)));
    assert(w.get("proposal_tokens"@) == Some(Datum::Unsigned(b.proposal_tokens as u64)));
}

/// What is installed is pinned whole: manifests are alike only where the pins, the
/// limits, the adapter and its promise, the channel for questions and the observer agree.
pub proof fn manifests_tell_apart(a: ActionBindings, b: ActionBindings)
    requires
        a.manifest_value() == b.manifest_value(),
    ensures
        a.policy_pin.same_as(b.policy_pin),
        a.binding_pin.same_as(b.binding_pin),
        a.limits.value() == b.limits.value(),
        a.business == b.business,
        a.clarification is Some <==> b.clarification is Some,
        a.clarification is Some ==> {
            &&& a.clarification->0.recipient_principal@ == b.clarification->0.recipient_principal@
            &&& a.clarification->0.reply_timeout_ms == b.clarification->0.reply_timeout_ms
            &&& a.clarification->0.idempotency == b.clarification->0.idempotency
        },
        a.lookup is Some <==> b.lookup is Some,
        a.lookup is Some ==> {
            &&& a.lookup->0.binding.same_as(b.lookup->0.binding)
            &&& a.lookup->0.principal_id@ == b.lookup->0.principal_id@
            &&& a.lookup->0.configuration_digest@ == b.lookup->0.configuration_digest@
        },
{
    broadcast use json::with_is_read_back;

    reveal_strlit("format");
    reveal_strlit("policy");
    reveal_strlit("binding");
    reveal_strlit("limits");
    reveal_strlit("business");
    reveal_strlit("business_idempotency");
    reveal_strlit("clarification");
    reveal_strlit("lookup");
    reveal_strlit("recipient");
    reveal_strlit("timeout_ms");
    reveal_strlit("idempotency");
    reveal_strlit("principal_id");
    reveal_strlit("configuration_digest");
    assert("format"@.len() == 6 && "policy"@.len() == 6 && "binding"@.len() == 7 && "limits"@.len() == 6);
    assert("business"@.len() == 8 && "business_idempotency"@.len() == 20 && "clarification"@.len() == 13 && "lookup"@.len() == 6);
    assert("recipient"@.len() == 9 && "timeout_ms"@.len() == 10 && "idempotency"@.len() == 11 && "principal_id"@.len() == 12);
    assert("configuration_digest"@.len() == 20 && "business_idempotency"@[0] == 'b' && "configuration_digest"@[0] == 'c' && "format"@[0] == 'f');
    assert("limits"@[0] == 'l' && "limits"@[1] == 'i' && "lookup"@[0] == 'l' && "lookup"@[1] == 'o');
    assert("policy"@[0] == 'p');
    manifest_parts(a);
    manifest_parts(b);
    pin_reads_back(a.policy_pin);
    pin_reads_back(b.policy_pin);
    pin_reads_back(a.binding_pin);
    pin_reads_back(b.binding_pin);
    if a.lookup is Some {
        let l = a.lookup->0;
        pin_reads_back(l.binding);
        assert(l.value().get("binding"@) == Some(l.binding.value()));
        assert(l.value().get("principal_id"@) == Some(Datum::Text(l.principal_id@)));
        assert(l.value().get("configuration_digest"@) == Some(
            Datum::Text(l.configuration_digest@),
        ));
    }
    if b.lookup is Some {
        let l = b.lookup->0;
        pin_reads_back(l.binding);
        assert(l.value().get("binding"@) == Some(l.binding.value()));
        assert(l.value().get("principal_id"@) == Some(Datum::Text(l.principal_id@)));
        assert(l.value().get("configuration_digest"@) == Some(
            Datum::Text(l.configuration_digest@),
        ));
    }
    if a.clarification is Some {
        let c = a.clarification->0;
        let v = a.clarification_value();
        assert(v.get("recipient"@) == Some(Datum::Text(c.recipient_principal@)));
        assert(v.get("timeout_ms"@) == Some(Datum::Unsigned(c.reply_timeout_ms)));
        assert(v.get("idempotency"@) == Some(Datum::Bool(c.idempotency)));
    }
    if b.clarification is Some {
        let c = b.clarification->0;
        let v = b.clarification_value();
        assert(v.get("recipient"@) == Some(Datum::Text(c.recipient_principal@)));
        assert(v.get("timeout_ms"@) == Some(Datum::Unsigned(c.reply_timeout_ms)));
        assert(v.get("idempotency"@) == Some(Datum::Bool(c.idempotency)));
    }
}

proof fn manifest_parts(a: ActionBindings)
    ensures
        a.manifest_value().get("policy"@) == Some(a.policy_pin.value()),
        a.manifest_value().get("binding"@) == Some(a.binding_pin.value()),
        a.manifest_value().get("limits"@) == Some(a.limits.value()),
        a.manifest_value().get("business"@) == Some(Datum::Bool(a.business is Some)),
        a.manifest_value().get("business_idempotency"@) == Some(a.idempotency_value()),
        a.manifest_value().get("clarification"@) == Some(a.clarification_value()),
        a.manifest_value().get("lookup"@) == Some(a.lookup_value()),
{
    broadcast use json::with_is_read_back;

    reveal_strlit("format");
    reveal_strlit("policy");
    reveal_strlit("binding");
    reveal_strlit("limits");
    reveal_strlit("business");
    reveal_strlit("business_idempotency");
    reveal_strlit("clarification");
    reveal_strlit("lookup");
    assert("format"@.len() == 6 && "policy"@.len() == 6 && "binding"@.len() == 7 && "limits"@.len() == 6);
    assert("business"@.len() == 8 && "business_idempotency"@.len() == 20 && "clarification"@.len() == 13 && "lookup"@.len() == 6);
    assert("format"@[0] == 'f' && "limits"@[0] == 'l' && "limits"@[1] == 'i' && "lookup"@[0] == 'l');
    assert("lookup"@[1] == 'o' && "policy"@[0] == 'p');
}

// ---------------------------------------------------------------------------
// Decisions
// ---------------------------------------------------------------------------

/// A decision is recorded with its kind, why it was made, what was retrieved for it, what
/// it used, the revisions that it applies, and the basis that it was read at.
pub proof fn decisions_read_back(
    kind: Seq<char>,
    rationale: Seq<char>,
    capture: Capture,
    used: Seq<Seq<char>>,
    revisions: Seq<Seq<char>>,
)
    ensures
        ({
            let v = native::decision_value(kind, rationale, capture, used, revisions);
            &&& v.at("decision"@) == Datum::Text(kind)
            &&& capture.receipt is None ==> v.at("rationale"@) == Datum::Text(rationale)
            &&& capture.receipt matches Some(receipt) ==> exists|told: Datum|
                #[trigger] told.at("rationale"@) == Datum::Text(rationale) && told.at(
                    "recall_receipt"@,
                ) == receipt@ && v.at("rationale"@) == Datum::Text(told.written())
            &&& lists(v.at("retrieved_refs"@), capture.retrieved@)
            &&& v.at("used_refs"@) == json::text_list(used)
            &&& v.at("applied_revisions"@) == json::text_list(revisions)
            &&& v.at("basis"@) == capture.basis@
        }),
{
    broadcast use json::with_is_read_back;

    reveal_strlit("decision");
    reveal_strlit("rationale");
    reveal_strlit("retrieved_refs");
    reveal_strlit("used_refs");
    reveal_strlit("applied_revisions");
    reveal_strlit("basis");
    reveal_strlit("recall_receipt");
    assert("decision"@.len() == 8 && "rationale"@.len() == 9 && "retrieved_refs"@.len() == 14 && "used_refs"@.len() == 9);
    assert("applied_revisions"@.len() == 17 && "basis"@.len() == 5 && "recall_receipt"@.len() == 14 && "rationale"@[0] == 'r');
    assert("recall_receipt"@[2] == 'c' && "retrieved_refs"@[2] == 't' && "used_refs"@[0] == 'u');
    listed(capture.retrieved@);
    let v = native::decision_value(kind, rationale, capture, used, revisions);
    assert(v.get("decision"@) == Some(Datum::Text(kind)));
    assert(v.get("rationale"@) == Some(
        Datum::Text(native::rationale_text(capture.receipt, rationale)),
    ));
    assert(v.get("retrieved_refs"@) == Some(json::text_list(text::views(capture.retrieved@))));
    assert(v.get("used_refs"@) == Some(json::text_list(used)));
    assert(v.get("applied_revisions"@) == Some(json::text_list(revisions)));
    assert(v.get("basis"@) == Some(capture.basis@));
    if let Some(receipt) = capture.receipt {
        let told = Datum::empty().with("rationale"@, Datum::Text(rationale)).with(
            "recall_receipt"@,
            receipt@,
        );
        assert(told.get("rationale"@) == Some(Datum::Text(rationale)));
        assert(told.get("recall_receipt"@) == Some(receipt@));
        assert(told.at("rationale"@) == Datum::Text(rationale));
    }
}

/// The value lists these pins, each with its version.
pub open spec fn lists_pins(v: Datum, pins: Seq<VersionPin>) -> bool {
    v is Array && v->Array_0.len() == pins.len() && forall|i: int|
        0 <= i < pins.len() ==> (#[trigger] v->Array_0[i]).at("id"@) == Datum::Text(pins[i].id@)
            && v->Array_0[i].at("version"@) == Datum::Unsigned(pins[i].version)
}

proof fn listed_pins(pins: Seq<VersionPin>)
    ensures
        lists_pins(native::pins_value(pins), pins),
{
    broadcast use json::with_is_read_back;

    reveal_strlit("id");
    reveal_strlit("version");
    assert("id"@.len() == 2 && "version"@.len() == 7);
    let v = native::pins_value(pins);
    assert forall|i: int| 0 <= i < pins.len() implies (#[trigger] v->Array_0[i]).at("id"@)
        == Datum::Text(pins[i].id@) && v->Array_0[i].at("version"@) == Datum::Unsigned(
        pins[i].version,
    ) by {
        let p = pins[i].value();
        assert(v->Array_0[i] == p);
        assert(p.get("id"@) == Some(Datum::Text(pins[i].id@)));
        assert(p.get("version"@) == Some(Datum::Unsigned(pins[i].version)));
    }
}

/// The request names that element as a premise, as required, or as a revision to apply.
pub open spec fn is_asked_for(request: ContextRequest, id: Seq<char>) -> bool {
    super::laws::names(request.premises@, id) || super::laws::names(request.required_refs@, id)
        || super::laws::names(request.applied_revisions@, id)
}

proof fn named_views(list: Seq<String>, id: Seq<char>)
    ensures
        super::laws::names(list, id) <==> text::views(list).contains(id),
{
    let all = text::views(list);
    if super::laws::names(list, id) {
        let k = choose|k: int| 0 <= k < list.len() && (#[trigger] list[k])@ == id;
        assert(all[k] == id);
    }
    if all.contains(id) {
        let k = choose|k: int| 0 <= k < all.len() && all[k] == id;
        assert(list[k]@ == id);
    }
}

/// A decision depends on everything that was pinned, at the sequence and under the policy
/// of its basis; an action depends besides on every pinned element that its request names,
/// and on no other, as a condition. No other decision has a condition.
pub proof fn dependencies_are_pinned(capture: Capture, kind: Seq<char>)
    ensures
        ({
            let v = native::dependency_value(capture, kind);
            let groups = v.at("groups"@)->Array_0;
            &&& v.at("basis_seq"@) == capture.basis@.at("snapshot_seq"@)
            &&& v.at("policy_basis"@) == capture.basis@
            &&& v.at("groups"@) is Array
            &&& 1 <= groups.len() <= 2
            &&& groups[0].at("role"@) == Datum::Text("context"@)
            &&& lists_pins(groups[0].at("pins"@), capture.pins@)
            &&& groups.len() == 2 ==> {
                &&& kind == "act"@
                &&& groups[1].at("role"@) == Datum::Text("all_of"@)
                &&& groups[1].at("pins"@) is Array
            }
            &&& kind == "act"@ ==> forall|i: int|
                0 <= i < capture.pins@.len() && is_asked_for(
                    capture.request,
                    (#[trigger] capture.pins@[i]).id@,
                ) ==> groups.len() == 2 && groups[1].at("pins"@)->Array_0.contains(
                    capture.pins@[i].value(),
                )
            &&& kind == "act"@ && groups.len() == 2 ==> forall|k: int|
                0 <= k < groups[1].at("pins"@)->Array_0.len() ==> exists|i: int|
                    0 <= i < capture.pins@.len() && is_asked_for(
                        capture.request,
                        (#[trigger] capture.pins@[i]).id@,
                    ) && capture.pins@[i].value() == #[trigger] groups[1].at("pins"@)->Array_0[k]
        }),
{
    broadcast use json::with_is_read_back;

    reveal_strlit("basis_seq");
    reveal_strlit("policy_basis");
    reveal_strlit("groups");
    reveal_strlit("role");
    reveal_strlit("pins");
    assert("basis_seq"@.len() == 9 && "policy_basis"@.len() == 12 && "groups"@.len() == 6 && "role"@.len() == 4);
    assert("pins"@.len() == 4 && "pins"@[0] == 'p' && "role"@[0] == 'r');
    let v = native::dependency_value(capture, kind);
    assert(v.get("basis_seq"@) == Some(capture.basis@.at("snapshot_seq"@)));
    assert(v.get("policy_basis"@) == Some(capture.basis@));
    assert(v.get("groups"@) == Some(native::groups_value(capture, kind)));
    let groups = v.at("groups"@)->Array_0;
    assert(groups[0].get("role"@) == Some(Datum::Text("context"@)));
    assert(groups[0].get("pins"@) == Some(native::pins_value(capture.pins@)));
    listed_pins(capture.pins@);
    let keep = native::asked_for(capture.request);
    let required = capture.pins@.filter(keep);
    crate::recall::passes::filter_holds(capture.pins@, keep);
    assert forall|p: VersionPin| keep(p) == is_asked_for(capture.request, #[trigger] p.id@) by {
        named_views(capture.request.premises@, p.id@);
        named_views(capture.request.required_refs@, p.id@);
        named_views(capture.request.applied_revisions@, p.id@);
    }
    if required.len() > 0 && kind == "act"@ {
        assert(groups[1].get("role"@) == Some(Datum::Text("all_of"@)));
        assert(groups[1].get("pins"@) == Some(native::pins_value(required)));
        let list = groups[1].at("pins"@)->Array_0;
        assert forall|k: int| 0 <= k < list.len() implies exists|i: int|
            0 <= i < capture.pins@.len() && is_asked_for(
                capture.request,
                (#[trigger] capture.pins@[i]).id@,
            ) && capture.pins@[i].value() == #[trigger] list[k] by {
            assert(list[k] == required[k].value());
            assert(required.contains(required[k]));
            let i = choose|i: int| 0 <= i < capture.pins@.len() && capture.pins@[i] == required[k];
            assert(is_asked_for(capture.request, capture.pins@[i].id@));
        }
    }
    if kind == "act"@ {
        assert forall|i: int|
            0 <= i < capture.pins@.len() && is_asked_for(
                capture.request,
                (#[trigger] capture.pins@[i]).id@,
            ) implies groups.len() == 2 && groups[1].at("pins"@)->Array_0.contains(
            capture.pins@[i].value(),
        ) by {
            assert(capture.pins@.contains(capture.pins@[i]));
            assert(required.contains(capture.pins@[i]));
            let k = choose|k: int| 0 <= k < required.len() && required[k] == capture.pins@[i];
            assert(native::pins_value(required)->Array_0[k] == capture.pins@[i].value());
        }
    }
}

/// An attempt is recorded under its identity with the revisions, environment and tools of
/// its context, what was stored for it, and when it started.
pub proof fn attempts_read_back(
    bindings: ActionBindings,
    wake: WakeRecord,
    capture: Capture,
    own: ActionRequest,
    request_digest: Seq<char>,
    selection: Datum,
    started_at: Seq<char>,
)
    ensures
        ({
            let v = native::attempt_record(
                bindings,
                wake,
                capture,
                own,
                request_digest,
                selection,
                started_at,
            );
            &&& v.at("attempt_id"@) == Datum::Text(own.attempt_id@)
            &&& lists(v.at("applied_revisions"@), capture.request.applied_revisions@)
            &&& v.at("environment_digest"@) == Datum::Text(capture.request.environment_digest@)
            &&& v.at("tool_versions"@) == request::tools_value(capture.request.tool_versions@)
            &&& v.at("selection_policy"@) == selection
            &&& v.at("preconditions_satisfied"@) == Datum::Text("yes"@)
            &&& v.at("started_at"@) == Datum::Text(started_at)
            &&& v.at("trial_ref"@) == Datum::Null
            &&& v.at("context"@).at("task_family"@) == Datum::Text(capture.request.task_family@)
            &&& v.at("context"@).at("gate_wake_ref"@) == Datum::Text(wake.wake_ref@)
            &&& v.at("context"@).at("binding"@) == bindings.binding_pin.value()
            &&& v.at("context"@).at("request_digest"@) == Datum::Text(request_digest)
        }),
{
    broadcast use json::with_is_read_back;

    reveal_strlit("attempt_id");
    reveal_strlit("applied_revisions");
    reveal_strlit("trial_ref");
    reveal_strlit("context");
    reveal_strlit("environment_digest");
    reveal_strlit("tool_versions");
    reveal_strlit("selection_policy");
    reveal_strlit("preconditions_satisfied");
    reveal_strlit("started_at");
    reveal_strlit("task_family");
    reveal_strlit("gate_wake_ref");
    reveal_strlit("binding");
    reveal_strlit("request_digest");
    assert("attempt_id"@.len() == 10 && "applied_revisions"@.len() == 17 && "trial_ref"@.len() == 9 && "context"@.len() == 7);
    assert("environment_digest"@.len() == 18 && "tool_versions"@.len() == 13 && "selection_policy"@.len() == 16 && "preconditions_satisfied"@.len() == 23);
    assert("started_at"@.len() == 10 && "task_family"@.len() == 11 && "gate_wake_ref"@.len() == 13 && "binding"@.len() == 7);
    assert("request_digest"@.len() == 14 && "attempt_id"@[0] == 'a' && "binding"@[0] == 'b' && "context"@[0] == 'c');
    assert("gate_wake_ref"@[0] == 'g' && "started_at"@[0] == 's' && "tool_versions"@[0] == 't');
    listed(capture.request.applied_revisions@);
    let v = native::attempt_record(
        bindings,
        wake,
        capture,
        own,
        request_digest,
        selection,
        started_at,
    );
    assert(v.get("attempt_id"@) == Some(Datum::Text(own.attempt_id@)));
    assert(v.get("applied_revisions"@) is Some);
    assert(v.get("trial_ref"@) == Some(Datum::Null));
    assert(v.get("environment_digest"@) is Some);
    assert(v.get("tool_versions"@) is Some);
    assert(v.get("selection_policy"@) == Some(selection));
    assert(v.get("preconditions_satisfied"@) is Some);
    assert(v.get("started_at"@) == Some(Datum::Text(started_at)));
    assert(v.get("context"@) is Some);
    let c = v.at("context"@);
    assert(c.get("task_family"@) == Some(Datum::Text(capture.request.task_family@)));
    assert(c.get("gate_wake_ref"@) == Some(Datum::Text(wake.wake_ref@)));
    assert(c.get("binding"@) == Some(bindings.binding_pin.value()));
    assert(c.get("request_digest"@) == Some(Datum::Text(request_digest)));
}

// ---------------------------------------------------------------------------
// Plans
// ---------------------------------------------------------------------------

/// The only continuation is that one.
pub open spec fn continues_once(plan: GatePlan, key: Seq<char>, at: int) -> bool {
    &&& plan.continuations@.len() == 1
    &&& plan.continuations@[0].key@ == key
    &&& plan.continuations@[0].not_before_ms == at
}

/// What follows a decision. An action is dispatched at once, with its own payload, context
/// and attempt; a question goes to the installed recipient, correlates with its wake, is
/// due after the installed time, and is waited for; deferred work is retried after the
/// installed wait until its rounds are used up, and an operator's from there on. Silence is
/// followed by nothing.
pub proof fn plans_follow_decisions(
    plan: GatePlan,
    proposal: Proposal,
    bindings: ActionBindings,
    wake: WakeRecord,
    rounds: u32,
    context: ContextRequest,
    now: u64,
)
    requires
        plan.carries_out(proposal, bindings, wake, rounds, context, now),
    ensures
        match proposal {
            Proposal::Act { rationale, used_refs, payload } => {
                &&& plan.decision@ == "act"@
                &&& plan.rationale@ == rationale@
                &&& continues_once(plan, "dispatch"@, now as int)
                &&& plan.request is Some
                &&& plan.request->0.payload@ == payload@
                &&& plan.request->0.gate_wake_ref@ == wake.wake_ref@
                &&& plan.request->0.scope == wake.scope
                &&& plan.request->0.pins == wake.pins
                &&& plan.request->0.context.value() == context.value()
                &&& plan.request->0.kind is DeliverClarification <==> wake.continuation_key is Some
                    && wake.continuation_key->0@ == "clarification"@
                &&& plan.recipient is None
            },
            Proposal::Ask { rationale, used_refs, question } => {
                &&& plan.decision@ == "ask"@
                &&& plan.rationale@ == rationale@
                &&& plan.request is None
                &&& bindings.clarification is Some
                &&& plan.recipient is Some
                &&& plan.recipient->0@ == bindings.clarification->0.recipient_principal@
                &&& now + bindings.clarification->0.reply_timeout_ms <= u64::MAX
                    ==> plan.reply_deadline_ms is Some && plan.reply_deadline_ms->0 == now
                    + bindings.clarification->0.reply_timeout_ms
                &&& plan.clarification_payload is Some
                &&& plan.clarification_payload->0@.at("question"@) == Datum::Text(question@)
                &&& plan.clarification_payload->0@.at("recipient"@) == Datum::Text(
                    bindings.clarification->0.recipient_principal@,
                )
                &&& plan.clarification_payload->0@.at("correlation"@) == Datum::Text(
                    wake.wake_ref@,
                )
                &&& plan.clarification_payload->0@.at("reply_deadline_ms"@) == Datum::Unsigned(
                    plan.reply_deadline_ms->0,
                )
                &&& plan.continuations@.len() == 2
                &&& plan.continuations@[0].key@ == "answer"@
                &&& plan.continuations@[1].key@ == "clarification"@
                &&& plan.continuations@[0].not_before_ms == now
                &&& plan.continuations@[1].not_before_ms == now
            },
            Proposal::Defer { reason } => {
                &&& plan.decision@ == "defer"@
                &&& plan.rationale@ == reason@
                &&& plan.used@.len() == 0
                &&& plan.request is None
                &&& plan.recipient is None
                &&& now + bindings.limits.retry_ms <= u64::MAX ==> continues_once(
                    plan,
                    if rounds < bindings.limits.max_retries {
                        "retry"@
                    } else {
                        "manual"@
                    },
                    now + bindings.limits.retry_ms,
                )
            },
            Proposal::Silence { rationale, used_refs } => {
                &&& plan.decision@ == "silence"@
                &&& plan.rationale@ == rationale@
                &&& plan.request is None
                &&& plan.recipient is None
                &&& plan.continuations@.len() == 0
            },
        },
{
    broadcast use json::with_is_read_back;

    let list = super::journal::continuations(plan.continuations@);
    assert(list.len() == plan.continuations@.len());
    assert forall|i: int| 0 <= i < list.len() implies #[trigger] list[i] == (
        plan.continuations@[i].key@,
        plan.continuations@[i].not_before_ms,
    ) by {}
    if plan.continuations@.len() > 0 {
        assert(list[0] == (plan.continuations@[0].key@, plan.continuations@[0].not_before_ms));
    }
    if plan.continuations@.len() > 1 {
        assert(list[1] == (plan.continuations@[1].key@, plan.continuations@[1].not_before_ms));
    }
    match proposal {
        Proposal::Ask { rationale, used_refs, question } => {
            let due = plan.reply_deadline_ms->0;
            let recipient = bindings.clarification->0.recipient_principal@;
            question_parts(question@, recipient, wake.wake_ref@, due);
        },
        Proposal::Defer { reason } => {
            assert(text::views(plan.used@).len() == plan.used@.len());
        },
        _ => {},
    }
}

proof fn question_parts(
    question: Seq<char>,
    recipient: Seq<char>,
    correlation: Seq<char>,
    due: u64,
)
    ensures
        ({
            let v = native::question_value(question, recipient, correlation, due);
            &&& v.at("question"@) == Datum::Text(question)
            &&& v.at("recipient"@) == Datum::Text(recipient)
            &&& v.at("correlation"@) == Datum::Text(correlation)
            &&& v.at("reply_deadline_ms"@) == Datum::Unsigned(due)
        }),
{
    broadcast use json::with_is_read_back;

    reveal_strlit("question");
    reveal_strlit("recipient");
    reveal_strlit("correlation");
    reveal_strlit("reply_deadline_ms");
    assert("question"@.len() == 8 && "recipient"@.len() == 9 && "correlation"@.len() == 11 && "reply_deadline_ms"@.len() == 17);
    let v = native::question_value(question, recipient, correlation, due);
    assert(v.get("question"@) == Some(Datum::Text(question)));
    assert(v.get("recipient"@) == Some(Datum::Text(recipient)));
    assert(v.get("correlation"@) == Some(Datum::Text(correlation)));
    assert(v.get("reply_deadline_ms"@) == Some(Datum::Unsigned(due)));
}

// ---------------------------------------------------------------------------
// Commits
// ---------------------------------------------------------------------------

/// The record of that name in an activity.
pub open spec fn record_of(row: Datum, name: Seq<char>) -> Datum {
    row.at("facets"@).at("kip://profiles/cognitive-memory@2.0.0/"@ + name)
}

/// A decision is known by the last of the committed activities that records it; where
/// none does, by what was known before. So is an attempt, by the identity of its request.
pub proof fn commits_are_known_by_their_records(
    rows: Seq<OutputRow>,
    kind: Seq<char>,
    own: Option<ActionRequest>,
    before: Option<Seq<char>>,
    i: int,
)
    requires
        0 <= i < rows.len(),
    ensures
        (record_of(rows[i].row@, "DecisionRecord"@).at("decision"@) == Datum::Text(kind)
            && forall|j: int|
            i < j < rows.len() ==> record_of(
                (#[trigger] rows[j]).row@,
                "DecisionRecord"@,
            ).at("decision"@) != Datum::Text(kind)) ==> native::decision_among(rows, kind, before)
            == Some(rows[i].id@),
        (forall|j: int|
            0 <= j < rows.len() ==> record_of(
                (#[trigger] rows[j]).row@,
                "DecisionRecord"@,
            ).at("decision"@) != Datum::Text(kind)) ==> native::decision_among(rows, kind, before)
            == before,
        own is None ==> native::attempt_among(rows, own, before) == before,
        own matches Some(request) ==> {
            &&& (record_of(rows[i].row@, "AttemptRecord"@).at("attempt_id"@) == Datum::Text(
                request.attempt_id@,
            ) && forall|j: int|
                i < j < rows.len() ==> record_of(
                    (#[trigger] rows[j]).row@,
                    "AttemptRecord"@,
                ).at("attempt_id"@) != Datum::Text(request.attempt_id@)) ==> native::attempt_among(
                rows,
                own,
                before,
            ) == Some(rows[i].id@)
            &&& (forall|j: int|
                0 <= j < rows.len() ==> record_of(
                    (#[trigger] rows[j]).row@,
                    "AttemptRecord"@,
                ).at("attempt_id"@) != Datum::Text(request.attempt_id@)) ==> native::attempt_among(
                rows,
                own,
                before,
            ) == before
        },
    decreases rows.len(),
{
    let rest = rows.drop_last();
    assert(rows[rows.len() - 1] == rows.last());
    assert forall|j: int| 0 <= j < rest.len() implies rest[j] == #[trigger] rows[j] by {}
    if i < rest.len() {
        commits_are_known_by_their_records(rest, kind, own, before, i);
    } else if rest.len() > 0 {
        commits_are_known_by_their_records(rest, kind, own, before, 0);
    }
}

} // verus!
