//! The model's bounded host operations. No identity, evaluator, observer policy or
//! capability comes from their arguments; those are the host's own.

use vstd::prelude::*;

use crate::json::{Datum, Json};
use crate::nexus;
use crate::text;

verus! {

/// The name of the tool.
pub const NAME: &'static str = "memory_runtime";

/// What is said of the host to every model.
pub const CAPABILITIES: &'static str =
    "Anda Brain uses KIP 2.0 / CognitiveMemory 2.0.0. This connection exposes the existing Brain API and raw KIP, not the optional five-intent Memory Interface; no memory_* bundle or full CognitiveMemory conformance is claimed. Procedural candidates are unproven. No independent observer/trial/evaluation scheduler or external dispatch adapter is configured. Model plans cannot write learning records, LeaseState or WatchState. Nexus computes dependency validity; a stored review never overrides it. Text Watch evaluation is unavailable, including a text member mixed with selectors. Read constraints, task scope, uncertainty and invalid dependencies must remain visible.";

/// The most bytes of a content that is digested.
pub const MAX_CONTENT_BYTES: usize = 65_536;

/// How long a task is leased, in milliseconds.
pub const LEASE_MS: u64 = 300_000;

/// The arguments of a call.
#[derive(Debug)]
pub struct RuntimeArgs {
    pub operation: String,
    pub target_ref: Option<String>,
    pub expected_version: Option<u64>,
    pub content: Option<Json>,
}

/// Why a call is refused.
#[derive(Debug, PartialEq, Eq)]
pub enum RuntimeToolError {
    ContentRequired,
    ContentTooLarge,
    /// The content has no digest; the engine says why.
    Undigestible(String),
    MaintenanceOnly,
    TargetRequired,
    VersionRequired,
    UnknownOperation,
}

/// Why a call is refused, through views.
pub enum Refusal {
    ContentRequired,
    ContentTooLarge,
    Undigestible(Seq<char>),
    MaintenanceOnly,
    TargetRequired,
    VersionRequired,
    UnknownOperation,
}

impl View for RuntimeToolError {
    type V = Refusal;

    open spec fn view(&self) -> Refusal {
        match self {
            RuntimeToolError::ContentRequired => Refusal::ContentRequired,
            RuntimeToolError::ContentTooLarge => Refusal::ContentTooLarge,
            RuntimeToolError::Undigestible(why) => Refusal::Undigestible(why@),
            RuntimeToolError::MaintenanceOnly => Refusal::MaintenanceOnly,
            RuntimeToolError::TargetRequired => Refusal::TargetRequired,
            RuntimeToolError::VersionRequired => Refusal::VersionRequired,
            RuntimeToolError::UnknownOperation => Refusal::UnknownOperation,
        }
    }
}

impl Refusal {
    /// The words of the refusal.
    pub open spec fn words(self) -> Seq<char> {
        match self {
            Refusal::ContentRequired => "content is required"@,
            Refusal::ContentTooLarge => "content exceeds 64 KiB"@,
            Refusal::Undigestible(why) => why,
            Refusal::MaintenanceOnly =>
                "only Maintenance may manage Watch arming and task leases"@,
            Refusal::TargetRequired => "target_ref is required"@,
            Refusal::VersionRequired => "expected_version must be positive"@,
            Refusal::UnknownOperation =>
                "UnsupportedCapability: unknown memory runtime operation"@,
        }
    }
}

impl RuntimeToolError {
    pub fn message(&self) -> (r: &str)
        ensures
            r@ == self@.words(),
    {
        match self {
            RuntimeToolError::ContentRequired => "content is required",
            RuntimeToolError::ContentTooLarge => "content exceeds 64 KiB",
            RuntimeToolError::Undigestible(why) => why.as_str(),
            RuntimeToolError::MaintenanceOnly =>
                "only Maintenance may manage Watch arming and task leases",
            RuntimeToolError::TargetRequired => "target_ref is required",
            RuntimeToolError::VersionRequired => "expected_version must be positive",
            RuntimeToolError::UnknownOperation =>
                "UnsupportedCapability: unknown memory runtime operation",
        }
    }
}

/// What a call comes to.
#[derive(Debug)]
pub enum RuntimeStep {
    /// The answer, which needs nothing else.
    Answer(Json),
    ArmWatch { target: String, expected: u64 },
    LeaseTask { target: String, expected: u64, until_ms: u64 },
}

/// Why a call is refused.
pub open spec fn refused(args: RuntimeArgs, maintenance: bool) -> Option<Refusal> {
    let operation = args.operation@;
    if operation == "syntax"@ {
        None
    } else if operation == "content_digest"@ {
        match args.content {
            None => Some(Refusal::ContentRequired),
            Some(content) => if text::utf8_len(content@.written()) > MAX_CONTENT_BYTES {
                Some(Refusal::ContentTooLarge)
            } else {
                match nexus::digested(content@) {
                    Err(why) => Some(Refusal::Undigestible(why)),
                    Ok(_) => None,
                }
            },
        }
    } else if !maintenance {
        Some(Refusal::MaintenanceOnly)
    } else if args.target_ref is None {
        Some(Refusal::TargetRequired)
    } else if !(args.expected_version matches Some(v) && v > 0) {
        Some(Refusal::VersionRequired)
    } else if operation == "arm_watch"@ || operation == "lease_task"@ {
        None
    } else {
        Some(Refusal::UnknownOperation)
    }
}

/// What a call does that is not refused.
pub open spec fn does(step: RuntimeStep, args: RuntimeArgs, syntax: Seq<char>, now: u64) -> bool {
    let operation = args.operation@;
    if operation == "syntax"@ {
        step matches RuntimeStep::Answer(v) && v@ == Datum::empty().with(
            "syntax"@,
            Datum::Text(syntax),
        )
    } else if operation == "content_digest"@ {
        step matches RuntimeStep::Answer(v) && v@ == Datum::empty().with(
            "content_digest"@,
            Datum::Text(nexus::digest_of(args.content->0@)->0),
        )
    } else if operation == "arm_watch"@ {
        step matches RuntimeStep::ArmWatch { target, expected } && target@ == args.target_ref->0@
            && expected == args.expected_version->0
    } else {
        step matches RuntimeStep::LeaseTask { target, expected, until_ms } && target@
            == args.target_ref->0@ && expected == args.expected_version->0 && until_ms == now
            + LEASE_MS
    }
}

/// Decides a call: reading the syntax and digesting content are open to every
/// mode, everything that changes something to maintenance alone.
pub fn plan(args: RuntimeArgs, maintenance: bool, now: u64) -> (r: Result<
    RuntimeStep,
    RuntimeToolError,
>)
    requires
        now <= u64::MAX - LEASE_MS,
    ensures
        match r {
            Ok(step) => refused(args, maintenance) is None && does(
                step,
                args,
                crate::prompts::reference_text(crate::prompts::Reference::Syntax),
                now,
            ),
            Err(e) => refused(args, maintenance) == Some(e@),
        },
{
    if text::same(args.operation.as_str(), "syntax") {
        let syntax = crate::prompts::syntax();
        return Ok(RuntimeStep::Answer(Json::object().with("syntax", Json::text(syntax))));
    }
    if text::same(args.operation.as_str(), "content_digest") {
        let content = match &args.content {
            Some(content) => content,
            None => return Err(RuntimeToolError::ContentRequired),
        };
        let written = content.to_text();
        if text::byte_len(written.as_str()) > MAX_CONTENT_BYTES {
            return Err(RuntimeToolError::ContentTooLarge);
        }
        return match nexus::content_digest(content) {
            Ok(digest) => Ok(
                RuntimeStep::Answer(
                    Json::object().with("content_digest", Json::text(digest.as_str())),
                ),
            ),
            Err(why) => Err(RuntimeToolError::Undigestible(why)),
        };
    }
    if !maintenance {
        return Err(RuntimeToolError::MaintenanceOnly);
    }
    let target = match args.target_ref {
        Some(target) => target,
        None => return Err(RuntimeToolError::TargetRequired),
    };
    let expected: u64 = match args.expected_version {
        Some(v) => if v > 0 {
            v
        } else {
            return Err(RuntimeToolError::VersionRequired);
        },
        None => return Err(RuntimeToolError::VersionRequired),
    };
    proof {
        reveal_strlit("arm_watch");
        reveal_strlit("lease_task");
        assert("arm_watch"@.len() != "lease_task"@.len());
    }
    if text::same(args.operation.as_str(), "arm_watch") {
        return Ok(RuntimeStep::ArmWatch { target, expected });
    }
    if text::same(args.operation.as_str(), "lease_task") {
        return Ok(RuntimeStep::LeaseTask { target, expected, until_ms: now + LEASE_MS });
    }
    Err(RuntimeToolError::UnknownOperation)
}

/// Outside of maintenance a call changes nothing: it is refused or answered.
pub proof fn only_maintenance_changes_anything(
    step: RuntimeStep,
    args: RuntimeArgs,
    syntax: Seq<char>,
    now: u64,
)
    requires
        refused(args, false) is None,
        does(step, args, syntax, now),
    ensures
        step is Answer,
{
}

/// Content is digested up to sixty-four kibibytes, whoever asks; Watches and tasks are dealt
/// with only for maintenance, at a target and a positive version; nothing else is done.
pub proof fn operations_are_refused_for_their_reason(args: RuntimeArgs, maintenance: bool)
    ensures
        ({
            let operation = args.operation@;
            let r = refused(args, maintenance);
            let reads = operation == "syntax"@ || operation == "content_digest"@;
            let changes = operation == "arm_watch"@ || operation == "lease_task"@;
            &&& operation == "syntax"@ ==> r is None
            &&& operation == "content_digest"@ && args.content is None ==> r == Some(
                Refusal::ContentRequired,
            )
            &&& operation == "content_digest"@ && args.content is Some && text::utf8_len(
                args.content->0@.written(),
            ) > 65_536 ==> r == Some(Refusal::ContentTooLarge)
            &&& operation == "content_digest"@ && r is None ==> nexus::digested(args.content->0@)
                is Ok
            &&& !reads && !maintenance ==> r == Some(Refusal::MaintenanceOnly)
            &&& !reads && maintenance && args.target_ref is None ==> r == Some(
                Refusal::TargetRequired,
            )
            &&& !reads && maintenance && args.target_ref is Some && (args.expected_version is None
                || args.expected_version->0 == 0) ==> r == Some(Refusal::VersionRequired)
            &&& !reads && maintenance && args.target_ref is Some && args.expected_version is Some
                && args.expected_version->0 > 0 ==> (r is None <==> changes) && (!changes ==> r
                == Some(Refusal::UnknownOperation))
        }),
{
    reveal_strlit("syntax");
    reveal_strlit("content_digest");
    reveal_strlit("arm_watch");
    reveal_strlit("lease_task");
    assert("syntax"@.len() == 6 && "content_digest"@.len() == 14 && "arm_watch"@.len() == 9
        && "lease_task"@.len() == 10);
}

/// What is done is what was asked for: the syntax, the digest of the content, or a change at
/// the target and version that were given. A task is leased for five minutes.
pub proof fn steps_do_what_was_asked(
    step: RuntimeStep,
    args: RuntimeArgs,
    syntax: Seq<char>,
    now: u64,
)
    requires
        refused(args, true) is None,
        does(step, args, syntax, now),
    ensures
        args.operation@ == "syntax"@ ==> step is Answer && step->Answer_0@.at("syntax"@)
            == Datum::Text(syntax),
        args.operation@ == "content_digest"@ ==> step is Answer && step->Answer_0@.at(
            "content_digest"@,
        ) == Datum::Text(nexus::digested(args.content->0@)->Ok_0),
        args.operation@ == "arm_watch"@ ==> step is ArmWatch && step->ArmWatch_target@
            == args.target_ref->0@ && step->ArmWatch_expected == args.expected_version->0,
        args.operation@ == "lease_task"@ ==> step is LeaseTask && step->LeaseTask_target@
            == args.target_ref->0@ && step->LeaseTask_expected == args.expected_version->0
            && step->until_ms == now + 300_000,
{
    broadcast use crate::json::with_is_read_back;

    reveal_strlit("syntax");
    reveal_strlit("content_digest");
    reveal_strlit("arm_watch");
    reveal_strlit("lease_task");
    assert("syntax"@.len() == 6 && "content_digest"@.len() == 14 && "arm_watch"@.len() == 9
        && "lease_task"@.len() == 10);
    if args.operation@ == "syntax"@ {
        assert(step->Answer_0@.get("syntax"@) == Some(Datum::Text(syntax)));
    }
    if args.operation@ == "content_digest"@ {
        assert(step->Answer_0@.get("content_digest"@) is Some);
    }
}

} // verus!
