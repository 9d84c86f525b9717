//! What a host shows of its attention, and who it works as.

use vstd::prelude::*;

use super::semantic::runtime::{SemanticPass, SemanticStatus};
use crate::json::{Datum, Json};
use crate::runtime::{RuntimePin, RuntimePins};
use crate::text;

verus! {

// ---------------------------------------------------------------------------
// Sessions
// ---------------------------------------------------------------------------

/// Who attention works as.
#[derive(Debug)]
pub enum WorkIdentity {
    /// The host that the actions authenticate as.
    Actions,
    /// The principal that arms the Watches for an evaluator.
    Controller { principal: String, auth_method: &'static str },
    /// The engine itself, where nothing else is installed.
    System,
}

/// Who attention works as: whoever the actions authenticate as, and without
/// actions the controller of the evaluator.
pub fn work_identity(actions: bool, controller: Option<String>) -> (r: WorkIdentity)
    ensures
        if actions {
            r is Actions
        } else {
            match controller {
                Some(own) => r matches WorkIdentity::Controller { principal, auth_method }
                    && principal@ == own@ && auth_method@
                    == "brain:registered-semantic-controller"@,
                None => r is System,
            }
        },
{
    if actions {
        return WorkIdentity::Actions;
    }
    match controller {
        Some(principal) => WorkIdentity::Controller {
            principal,
            auth_method: "brain:registered-semantic-controller",
        },
        None => WorkIdentity::System,
    }
}

/// Whether a read may leave a recheck behind.
pub fn may_notice(automatic: bool, enabled: bool) -> (r: bool)
    ensures
        r == (automatic && enabled),
{
    automatic && enabled
}

/// Whether attention is at work: its own tasks, an evaluation, an action, or a
/// scan whose time is not over.
pub fn is_busy(tasks: bool, semantic: bool, actions: bool, running_until_ms: u64, now: u64) -> (r:
    bool)
    ensures
        r == (tasks || semantic || actions || running_until_ms > now),
{
    tasks || semantic || actions || running_until_ms > now
}

// ---------------------------------------------------------------------------
// Queries
// ---------------------------------------------------------------------------

/// The conditions of a Watch that the engine can judge by itself.
pub const RUNNABLE_FILTERS: &'static str =
    "FILTER(IS_NOT_NULL(?w.facets[\"WatchState\"].arm_generation)) FILTER(IS_NULL(?w.attributes.condition.text)) FILTER(IS_NOT_NULL(?w.attributes.condition.element) || IS_NOT_NULL(?w.attributes.condition.slot) || IS_NOT_NULL(?w.attributes.condition.type))";

/// The query for a page of armed Watches.
pub open spec fn watch_query_of(runnable: bool, limit: usize) -> Seq<char> {
    "FIND(?w.id, ?w.name, ?w.attributes, ?w._system.version, ?w.facets[\"WatchState\"], ?w.schema_ref)\nWHERE {?w CONCEPT {type:\"Watch\"} FILTER(?w.attributes.status == \"armed\") FILTER(?w.id > :after) "@
        + if runnable {
        RUNNABLE_FILTERS@
    } else {
        Seq::empty()
    } + "}\nORDER BY ?w.id LIMIT "@ + text::decimal(limit as nat)
}

pub fn watch_query(runnable: bool, limit: usize) -> (r: String)
    ensures
        r@ == watch_query_of(runnable, limit),
{
    let mut out =
        "FIND(?w.id, ?w.name, ?w.attributes, ?w._system.version, ?w.facets[\"WatchState\"], ?w.schema_ref)\nWHERE {?w CONCEPT {type:\"Watch\"} FILTER(?w.attributes.status == \"armed\") FILTER(?w.id > :after) ".to_owned();
    let ghost head = out@;
    if runnable {
        out.append(RUNNABLE_FILTERS);
    }
    proof {
        assert(out@ =~= head + if runnable {
            RUNNABLE_FILTERS@
        } else {
            Seq::empty()
        });
    }
    out.append("}\nORDER BY ?w.id LIMIT ");
    out.append(text::decimal_text(limit as u64).as_str());
    out
}

/// The command that archives a Watch at an exact version.
pub const ARCHIVE_COMMAND: &'static str =
    "TRANSITION :target TO \"archived\" EXPECT VERSION :version";

pub fn archive_parameters(target: &str, expected: u64) -> (r: Json)
    ensures
        r@ == Datum::empty().with("target"@, Datum::Text(target@)).with(
            "version"@,
            Datum::Unsigned(expected),
        ),
{
    Json::object().with("target", Json::text(target)).with("version", Json::unsigned(expected))
}

// ---------------------------------------------------------------------------
// Status
// ---------------------------------------------------------------------------

/// The status where no evaluator is installed.
pub fn no_evaluator() -> (r: SemanticStatus)
    ensures
        !r.configured,
        !r.automatic,
        !r.running,
        r.pin is None,
        r.last_pass is None,
        r.reason matches Some(reason) && reason@ == "semantic_evaluator_unavailable"@,
{
    SemanticStatus {
        configured: false,
        automatic: false,
        running: false,
        pin: None,
        reason: Some("semantic_evaluator_unavailable".to_owned()),
        last_pass: None,
    }
}

/// What is known of the actions of a host.
#[derive(Debug)]
pub struct ActionFacts {
    pub enabled: bool,
    pub pins: RuntimePins,
}

pub open spec fn pass_value(pass: SemanticPass) -> Datum {
    Datum::empty().with("scanned"@, Datum::Unsigned(pass.scanned as u64)).with(
        "calls"@,
        Datum::Unsigned(pass.calls as u64),
    ).with("input_tokens"@, Datum::Unsigned(pass.input_tokens as u64)).with(
        "advanced"@,
        Datum::Unsigned(pass.advanced as u64),
    ).with("fired"@, Datum::Unsigned(pass.fired as u64)).with(
        "expired"@,
        Datum::Unsigned(pass.expired as u64),
    ).with("deferred"@, Datum::Unsigned(pass.deferred as u64)).with(
        "reason"@,
        text_or_null(pass.reason),
    )
}

pub open spec fn text_or_null(t: Option<String>) -> Datum {
    match t {
        Some(own) => Datum::Text(own@),
        None => Datum::Null,
    }
}

fn pass_json(pass: &SemanticPass) -> (r: Json)
    ensures
        r@ == pass_value(*pass),
{
    Json::object().with("scanned", Json::unsigned(pass.scanned as u64)).with(
        "calls",
        Json::unsigned(pass.calls as u64),
    ).with("input_tokens", Json::unsigned(pass.input_tokens as u64)).with(
        "advanced",
        Json::unsigned(pass.advanced as u64),
    ).with("fired", Json::unsigned(pass.fired as u64)).with(
        "expired",
        Json::unsigned(pass.expired as u64),
    ).with("deferred", Json::unsigned(pass.deferred as u64)).with(
        "reason",
        Json::text_or_null(&pass.reason),
    )
}

pub open spec fn semantic_value(status: SemanticStatus) -> Datum {
    Datum::empty().with("configured"@, Datum::Bool(status.configured)).with(
        "automatic"@,
        Datum::Bool(status.automatic),
    ).with("running"@, Datum::Bool(status.running)).with(
        "pin"@,
        crate::runtime::optional_pin_value(status.pin),
    ).with("reason"@, text_or_null(status.reason)).with(
        "last_pass"@,
        match status.last_pass {
            Some(pass) => pass_value(pass),
            None => Datum::Null,
        },
    )
}

fn pin_json(pin: &Option<RuntimePin>) -> (r: Json)
    ensures
        r@ == crate::runtime::optional_pin_value(*pin),
{
    match pin {
        Some(own) => own.to_json(),
        None => Json::Null,
    }
}

fn semantic_json(status: &SemanticStatus) -> (r: Json)
    ensures
        r@ == semantic_value(*status),
{
    let last = match &status.last_pass {
        Some(pass) => pass_json(pass),
        None => Json::Null,
    };
    Json::object().with("configured", Json::Bool(status.configured)).with(
        "automatic",
        Json::Bool(status.automatic),
    ).with("running", Json::Bool(status.running)).with("pin", pin_json(&status.pin)).with(
        "reason",
        Json::text_or_null(&status.reason),
    ).with("last_pass", last)
}

/// Attention runs: on this host, under its policy, in this Space.
pub open spec fn runs(automatic: bool, policy_enabled: bool, registered: Option<bool>) -> bool {
    automatic && policy_enabled && registered == Some(true)
}

pub open spec fn status_value(
    automatic: bool,
    policy_enabled: bool,
    registered: Option<bool>,
    semantic: SemanticStatus,
    actions: Option<ActionFacts>,
    last_scan: Datum,
) -> Datum {
    let enabled = runs(automatic, policy_enabled, registered);
    Datum::empty().with("semantic_attention"@, semantic_value(semantic)).with(
        "structured_attention"@,
        Datum::empty().with("supported"@, Datum::Bool(true)).with(
            "enabled"@,
            Datum::Bool(enabled),
        ).with("registered"@, Datum::Bool(registered is Some)),
    ).with(
        "actions"@,
        Datum::empty().with("supported"@, Datum::Bool(true)).with(
            "configured"@,
            Datum::Bool(actions is Some),
        ).with(
            "enabled"@,
            Datum::Bool(
                enabled && registered is Some && (actions matches Some(facts) && facts.enabled),
            ),
        ).with("ready"@, Datum::Null).with(
            "readiness"@,
            Datum::Text("validated_per_work_item"@),
        ).with(
            "pins"@,
            match actions {
                Some(facts) => facts.pins.value(),
                None => Datum::Null,
            },
        ).with(
            "blocked_reason"@,
            if actions is None {
                Datum::Text("action_bindings_not_installed"@)
            } else {
                Datum::Null
            },
        ),
    ).with("last_scan"@, last_scan)
}

/// What is configured and what runs. It claims no work, and says nothing of what
/// any particular action may do.
pub fn runtime_status(
    automatic: bool,
    policy_enabled: bool,
    registered: Option<bool>,
    semantic: &SemanticStatus,
    actions: &Option<ActionFacts>,
    last_scan: Json,
) -> (r: Json)
    ensures
        r@ == status_value(
            automatic,
            policy_enabled,
            registered,
            *semantic,
            *actions,
            last_scan@,
        ),
{
    let in_space = match registered {
        Some(on) => on,
        None => false,
    };
    let enabled = automatic && policy_enabled && in_space;
    let actions_enabled = registered.is_some() && match actions {
        Some(facts) => facts.enabled,
        None => false,
    };
    let pins = match actions {
        Some(facts) => facts.pins.to_json(),
        None => Json::Null,
    };
    let blocked = if actions.is_none() {
        Json::text("action_bindings_not_installed")
    } else {
        Json::Null
    };
    let structured = Json::object().with("supported", Json::Bool(true)).with(
        "enabled",
        Json::Bool(enabled),
    ).with("registered", Json::Bool(registered.is_some()));
    let action_part = Json::object().with("supported", Json::Bool(true)).with(
        "configured",
        Json::Bool(actions.is_some()),
    ).with("enabled", Json::Bool(enabled && actions_enabled)).with("ready", Json::Null).with(
        "readiness",
        Json::text("validated_per_work_item"),
    ).with("pins", pins).with("blocked_reason", blocked);
    Json::object().with("semantic_attention", semantic_json(semantic)).with(
        "structured_attention",
        structured,
    ).with("actions", action_part).with("last_scan", last_scan)
}

/// Nothing runs on an isolated host: whatever is installed and registered, its
/// status shows neither attention nor actions enabled.
pub proof fn isolated_hosts_run_nothing(policy_enabled: bool, registered: Option<bool>)
    ensures
        !runs(false, policy_enabled, registered),
        !runs(true, false, registered),
        !runs(true, policy_enabled, None),
{
}

} // verus!
