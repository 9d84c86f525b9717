//! What holds of the passes of semantic judgment and of the model's endpoint.

use vstd::prelude::*;

use super::http::{self, OpenAiWatchConfig};
use super::runtime::{self, CursorRead, Evaluated, PageCost, SemanticJob, SemanticPass};
use super::{SemanticError, SemanticLimits, WatchCandidate, WatchJudgment, WatchPage};
use crate::json::{self, Datum};
use crate::runtime::{AttentionConfig, RuntimePin, RuntimePins, RuntimeScope};
use crate::text;

verus! {

// ---------------------------------------------------------------------------
// Who may judge
// ---------------------------------------------------------------------------

/// The Space lets this evaluator judge: its configuration pins exactly it, it is enabled
/// under that configuration, and its controller calls.
pub proof fn contexts_permit_only_their_evaluator(
    config: AttentionConfig,
    pin: RuntimePin,
    enabled: bool,
    registered: RuntimePins,
    caller: Seq<char>,
    principal: Seq<char>,
)
    ensures
        ({
            let r = runtime::context_refused(config, pin, enabled, registered, caller, principal);
            let own = config.pins.evaluator;
            let pinned = own is Some && own->0.id@ == pin.id@ && own->0.digest@ == pin.digest@;
            &&& r is None ==> pinned && enabled && caller == principal
                && registered.policy.digest@ == config.pins.policy.digest@
                && registered.policy.id@ == config.pins.policy.id@
            &&& !pinned <==> r == Some(SemanticError::EvaluatorChanged)
            &&& pinned && !enabled ==> r == Some(SemanticError::Disabled)
            &&& pinned && enabled && registered.same_as(config.pins) && caller != principal ==> r
                == Some(SemanticError::ControllerDiffers)
            &&& pinned && enabled && registered.same_as(config.pins) && caller == principal ==> r
                is None
        }),
{
}

/// A Watch is a Concept: `C-` and a number.
pub proof fn watches_are_concepts(id: Seq<char>)
    ensures
        runtime::is_watch(id) ==> id.len() > 2 && id[0] == 'C' && id[1] == '-' && forall|i: int|
            2 <= i < id.len() ==> '0' <= #[trigger] id[i] <= '9' || i == 2 && id[i] == '+',
{
    reveal_strlit("C-");
    if runtime::is_watch(id) {
        assert(id.subrange(0, 2)[0] == id[0]);
        assert(id.subrange(0, 2)[1] == id[1]);
        let rest = id.skip(2);
        assert forall|i: int| 2 <= i < id.len() implies '0' <= #[trigger] id[i] <= '9' || i == 2
            && id[i] == '+' by {
            assert(rest[i - 2] == id[i]);
            if rest[0] == '+' && i > 2 {
                assert(rest.skip(1)[i - 3] == id[i]);
            }
        }
    }
}

// ---------------------------------------------------------------------------
// Jobs and pages
// ---------------------------------------------------------------------------

/// A job waits only while it has nothing to commit, and only for its retry time or because
/// its attempts are used up; a page that was accepted is done.
pub proof fn pages_wait_only_for_a_reason(job: SemanticJob, now: u64, limits: SemanticLimits)
    ensures
        job.accepted <==> runtime::entry_of(job, now, limits) is Done,
        !job.accepted && job.evaluation is Some ==> runtime::entry_of(job, now, limits) is Work,
        !job.accepted && job.retry_at_ms <= now && job.attempts < limits.attempts_per_page
            ==> runtime::entry_of(job, now, limits) is Work,
        !job.accepted && job.evaluation is None && job.retry_at_ms > now ==> runtime::entry_of(
            job,
            now,
            limits,
        ) is Wait,
        !job.accepted && job.evaluation is None && job.attempts >= limits.attempts_per_page
            ==> runtime::entry_of(job, now, limits) is Wait,
{
}

/// A page is judged only where its candidates fit the page, its tokens fit the call and
/// what the pass has left, and there is time. An empty page costs nothing.
pub proof fn pages_fit_their_budgets(
    candidates: nat,
    tokens: usize,
    pass: SemanticPass,
    limits: SemanticLimits,
    in_time: bool,
)
    ensures
        ({
            let cost = runtime::page_cost(candidates, tokens, pass, limits, in_time);
            &&& cost is TooLarge <==> candidates > limits.candidates_per_page
            &&& cost is Fits && candidates > 0 ==> tokens <= limits.input_tokens
                && pass.input_tokens + tokens <= limits.pass_input_tokens && in_time
            &&& candidates <= limits.candidates_per_page && tokens <= limits.input_tokens
                && pass.input_tokens + tokens <= limits.pass_input_tokens && in_time ==> cost
                is Fits
            &&& candidates == 0 ==> cost is Fits
        }),
{
}

/// A page that fits uses up one attempt and clears the reason; one that is too large uses
/// up all of them; one that must wait uses up none. Each says why.
pub proof fn attempts_are_counted(
    before: SemanticJob,
    after: SemanticJob,
    cost: PageCost,
    limits: SemanticLimits,
)
    requires
        runtime::weighed(before, after, cost, limits),
        before.attempts < u32::MAX,
    ensures
        cost is Fits ==> after.attempts == before.attempts + 1 && after.progress.reason is None,
        cost is TooLarge ==> after.attempts == limits.attempts_per_page && after.progress.reason
            is Some && after.progress.reason->0@ == "semantic_page_budget_exceeded"@,
        cost is NotNow ==> after.attempts == before.attempts && after.progress.reason is Some
            && after.progress.reason->0@ == "semantic_input_or_pass_budget_exhausted"@,
        after.ticket == before.ticket && after.evaluation == before.evaluation && after.epoch
            == before.epoch && after.accepted == before.accepted && after.retry_at_ms
            == before.retry_at_ms && after.watch == before.watch && after.version
            == before.version && after.generation == before.generation,
        after.progress.ticket_ref == before.progress.ticket_ref && after.progress.status
            == before.progress.status,
{
}

/// A page is this job's own where it is of its Watch, version and arming, for its
/// evaluator; the Watch is still armed where its row says so, of the same version and
/// arming.
pub proof fn pages_are_of_their_job(
    page: WatchPage,
    job: SemanticJob,
    pin: RuntimePin,
    row: Seq<Datum>,
)
    requires
        row.len() == 3,
    ensures
        runtime::is_own_page(page, job, pin) <==> page.evaluator is Some && page.evaluator->0.id@
            == pin.id@ && page.evaluator->0.digest@ == pin.digest@ && page.watch_ref@ == job.watch@
            && page.expected_version == job.version && page.arm_generation == job.generation,
        runtime::still_armed(Datum::Array(seq![Datum::Array(row)]), job) <==> row[0]
            == Datum::Unsigned(job.version) && row[1] == Datum::Text("armed"@) && row[2]
            == Datum::Unsigned(job.generation),
        !runtime::still_armed(Datum::Array(Seq::empty()), job),
{
    assert(seq![Datum::Array(row)][0] == Datum::Array(row));
}

/// Whatever stopped the evaluator, every candidate of the page gets a judgment that is
/// withheld for that reason; what the evaluator judged is taken as it is.
pub proof fn failures_withhold_every_candidate(
    before: SemanticJob,
    after: SemanticJob,
    page: WatchPage,
    evaluated: Evaluated,
    judgments: Vec<WatchJudgment>,
)
    requires
        runtime::settled(before, after, page, evaluated, judgments),
    ensures
        evaluated matches Evaluated::Judged(own) ==> judgments == own && after == before,
        !(evaluated is Judged) ==> {
            let reason = if evaluated is Invalid {
                "semantic_invalid_or_truncated_receipt"@
            } else if evaluated is Unavailable {
                "semantic_provider_unavailable"@
            } else if evaluated is Panicked {
                "semantic_evaluator_panicked"@
            } else {
                "semantic_evaluator_timeout"@
            };
            &&& judgments@.len() == page.candidates@.len()
            &&& after.progress.reason is Some && after.progress.reason->0@ == reason
            &&& after.attempts == before.attempts && after.accepted == before.accepted
            &&& forall|i: int|
                0 <= i < judgments@.len() ==> super::is_withheld(
                    #[trigger] judgments@[i],
                    page.candidates@[i].id@,
                    reason,
                )
        },
{
}

/// A commit is accepted unless the engine deferred it; then the job waits for its retry
/// time and keeps why. Either way the stored evaluation is dropped, and the engine's own
/// status and evaluation are kept.
pub proof fn commits_are_accepted_unless_deferred(
    before: SemanticJob,
    after: SemanticJob,
    result: Datum,
    now: u64,
    limits: SemanticLimits,
)
    requires
        runtime::commit_taken(before, after, result, now, limits),
        now + limits.retry_ms <= u64::MAX,
    ensures
        after.accepted <==> result.at("status"@) != Datum::Text("deferred"@),
        after.evaluation is None,
        after.retry_at_ms == now + limits.retry_ms,
        after.accepted <==> after.progress.reason is None,
        !after.accepted && before.progress.reason is Some ==> after.progress.reason->0@
            == before.progress.reason->0@,
        !after.accepted && before.progress.reason is None ==> after.progress.reason->0@
            == "semantic_unknown"@,
        result.at("status"@) is Text ==> after.progress.status is Some && after.progress.status->0@
            == result.at("status"@)->Text_0,
        result.at("evaluation_ref"@) is Text ==> after.progress.evaluation_ref is Some
            && after.progress.evaluation_ref->0@ == result.at("evaluation_ref"@)->Text_0,
        !(result.at("evaluation_ref"@) is Text) ==> after.progress.evaluation_ref is None,
        after.attempts == before.attempts && after.ticket == before.ticket && after.watch
            == before.watch,
{
}

/// An accepted page counts as advanced, and where it fired or expired as that; any other
/// as deferred, with its reason.
pub proof fn outcomes_are_counted(pass: SemanticPass, job: SemanticJob)
    requires
        pass.advanced < usize::MAX,
        pass.fired < usize::MAX,
        pass.expired < usize::MAX,
        pass.deferred < usize::MAX,
    ensures
        ({
            let after = runtime::with_outcome(pass, job);
            let fired = job.progress.status is Some && job.progress.status->0@ == "fired"@;
            let expired = job.progress.status is Some && job.progress.status->0@ == "expired"@;
            &&& job.accepted ==> after.advanced == pass.advanced + 1 && after.deferred
                == pass.deferred && after.reason == pass.reason
            &&& job.accepted && fired ==> after.fired == pass.fired + 1
            &&& job.accepted && expired ==> after.expired == pass.expired + 1
            &&& !job.accepted || !fired ==> after.fired == pass.fired
            &&& !job.accepted || !expired ==> after.expired == pass.expired
            &&& !job.accepted ==> after.deferred == pass.deferred + 1 && after.advanced
                == pass.advanced && after.reason == job.progress.reason
            &&& after.calls == pass.calls && after.input_tokens == pass.input_tokens
                && after.scanned == pass.scanned
        }),
{
    reveal_strlit("fired");
    reveal_strlit("expired");
}

/// What is shown is the pass that runs or has just run, and else the one that the journal
/// kept; a job that was left behind asks for recovery, and a journal or configuration
/// that cannot be read says so.
pub proof fn statuses_show_the_last_pass(
    last: SemanticPass,
    running: bool,
    context: Option<CursorRead>,
)
    ensures
        context is None ==> runtime::shown_reason(last, running, context) == Some(
            "semantic_configuration_or_authority_unavailable"@,
        ),
        context == Some(CursorRead::Unavailable) ==> runtime::shown_reason(last, running, context)
            == Some("semantic_journal_unavailable"@),
        context matches Some(CursorRead::Found(cursor)) ==> {
            &&& cursor.pending is Some && !running ==> runtime::shown_reason(
                last,
                running,
                context,
            ) == Some("semantic_processing_requires_recovery"@)
            &&& !running && last.reason is None ==> runtime::shown_pass(last, running, context)
                == cursor.last
        },
        running || last.reason is Some || !(context is Some && context->0 is Found)
            ==> runtime::shown_pass(last, running, context) == last,
{
}

/// The sources of a page hold each change of its candidates, in order, and nothing else.
pub proof fn changes_are_kept_in_order(candidates: Seq<WatchCandidate>, more: WatchCandidate)
    ensures
        runtime::changed(Seq::empty()).len() == 0,
        more.change_id is Some ==> runtime::changed(candidates.push(more)) == runtime::changed(
            candidates,
        ).push(more.change_id->0@),
        more.change_id is None ==> runtime::changed(candidates.push(more)) == runtime::changed(
            candidates,
        ),
{
    assert(candidates.push(more).drop_last() =~= candidates);
}

/// Two preparations are written alike only where they are for one scope, evaluator, Watch,
/// version and arming; two evaluations only where ticket, evaluator, epoch and attempt
/// agree; two journals only where scope and evaluator do.
pub proof fn keys_tell_apart(
    a: (RuntimeScope, RuntimePin, Seq<char>, u64, u64),
    b: (RuntimeScope, RuntimePin, Seq<char>, u64, u64),
    m: u32,
    n: u32,
)
    ensures
        runtime::preparation_value(a.0, a.1, a.2, a.3, a.4) == runtime::preparation_value(
            b.0,
            b.1,
            b.2,
            b.3,
            b.4,
        ) ==> a.0.same_as(b.0) && a.1.same_as(b.1) && a.2 == b.2 && a.3 == b.3 && a.4 == b.4,
        runtime::evaluation_value(a.2, a.1, a.3, m) == runtime::evaluation_value(b.2, b.1, b.3, n)
            ==> a.2 == b.2 && a.1.same_as(b.1) && a.3 == b.3 && m == n,
        runtime::journal_value(a.0, a.1) == runtime::journal_value(b.0, b.1) ==> a.0.same_as(b.0)
            && a.1.same_as(b.1),
{
    broadcast use json::with_is_read_back;

    crate::action::written::scopes_read_back(a.0);
    crate::action::written::scopes_read_back(b.0);
    crate::action::written::pin_reads_back(a.1);
    crate::action::written::pin_reads_back(b.1);
    reveal_strlit("format");
    reveal_strlit("scope");
    reveal_strlit("pin");
    reveal_strlit("watch");
    reveal_strlit("version");
    reveal_strlit("generation");
    reveal_strlit("ticket");
    reveal_strlit("epoch");
    reveal_strlit("attempt");
    assert("format"@.len() == 6 && "scope"@.len() == 5 && "pin"@.len() == 3 && "watch"@.len() == 5);
    assert("version"@.len() == 7 && "generation"@.len() == 10 && "ticket"@.len() == 6 && "epoch"@.len() == 5);
    assert("attempt"@.len() == 7 && "attempt"@[0] == 'a' && "epoch"@[0] == 'e' && "format"@[0] == 'f');
    assert("scope"@[0] == 's' && "ticket"@[0] == 't' && "version"@[0] == 'v' && "watch"@[0] == 'w');
    let p = runtime::preparation_value(a.0, a.1, a.2, a.3, a.4);
    let q = runtime::preparation_value(b.0, b.1, b.2, b.3, b.4);
    assert(p.get("scope"@) == Some(a.0.value()));
    assert(q.get("scope"@) == Some(b.0.value()));
    assert(p.get("pin"@) == Some(a.1.value()));
    assert(q.get("pin"@) == Some(b.1.value()));
    assert(p.get("watch"@) == Some(Datum::Text(a.2)));
    assert(q.get("watch"@) == Some(Datum::Text(b.2)));
    assert(p.get("version"@) == Some(Datum::Unsigned(a.3)));
    assert(q.get("version"@) == Some(Datum::Unsigned(b.3)));
    assert(p.get("generation"@) == Some(Datum::Unsigned(a.4)));
    assert(q.get("generation"@) == Some(Datum::Unsigned(b.4)));
    let e = runtime::evaluation_value(a.2, a.1, a.3, m);
    let f = runtime::evaluation_value(b.2, b.1, b.3, n);
    assert(e.get("ticket"@) == Some(Datum::Text(a.2)));
    assert(f.get("ticket"@) == Some(Datum::Text(b.2)));
    assert(e.get("pin"@) == Some(a.1.value()));
    assert(f.get("pin"@) == Some(b.1.value()));
    assert(e.get("epoch"@) == Some(Datum::Unsigned(a.3)));
    assert(f.get("epoch"@) == Some(Datum::Unsigned(b.3)));
    assert(e.get("attempt"@) == Some(Datum::Unsigned(m as u64)));
    assert(f.get("attempt"@) == Some(Datum::Unsigned(n as u64)));
    let i = runtime::journal_value(a.0, a.1);
    let j = runtime::journal_value(b.0, b.1);
    assert(i.get("scope"@) == Some(a.0.value()));
    assert(j.get("scope"@) == Some(b.0.value()));
    assert(i.get("pin"@) == Some(a.1.value()));
    assert(j.get("pin"@) == Some(b.1.value()));
}

// ---------------------------------------------------------------------------
// The endpoint
// ---------------------------------------------------------------------------

/// An endpoint is on TLS, or on this machine; it carries no name, no password, no query
/// and no fragment.
pub proof fn endpoints_are_safe(
    scheme: Seq<char>,
    username: Seq<char>,
    password: bool,
    query: bool,
    fragment: bool,
    host: Option<Seq<char>>,
)
    ensures
        http::endpoint_allowed(scheme, username, password, query, fragment, host) <==> {
            &&& host is Some
            &&& scheme == "https"@ || (scheme == "http"@ && (host->0 == "localhost"@ || host->0
                == "127.0.0.1"@ || host->0 == "[::1]"@))
            &&& username.len() == 0 && !password && !query && !fragment
        },
{
}

/// The key is read from an environment variable, named in capitals, digits and
/// underscores.
pub proof fn secrets_are_named_by_variables(config: OpenAiWatchConfig)
    ensures
        config.refused() is None ==> {
            let name = config.api_key_env@;
            &&& 0 < name.len()
            &&& text::utf8_len(name) < 129
            &&& forall|i: int|
                0 <= i < name.len() ==> 'A' <= #[trigger] name[i] <= 'Z' || '0' <= name[i] <= '9'
                    || name[i] == '_'
            &&& config.contract.refused() is None
        },
        config.contract.refused() is None && config.refused() is Some ==> config.refused() == Some(
            SemanticError::InvalidSecretReference,
        ),
        config.contract.refused() is Some ==> config.refused() == config.contract.refused(),
{
    let name = config.api_key_env@;
    if config.refused() is None {
        assert forall|i: int| 0 <= i < name.len() implies 'A' <= #[trigger] name[i] <= 'Z' || '0'
            <= name[i] <= '9' || name[i] == '_' by {
            assert(http::is_variable_char(name[i]));
        }
    }
}

/// A completion is taken only from the model that was asked, of its one choice, which it
/// ended by itself, as the assistant, without calling tools or refusing, and with text.
pub proof fn completions_are_whole(response: Datum, model: Seq<char>)
    ensures
        http::completion_refused(response, model) is None ==> {
            let choices = response.at("choices"@);
            let choice = choices->Array_0[0];
            let message = choice.at("message"@);
            &&& response.at("model"@) == Datum::Text(model)
            &&& choices is Array && choices->Array_0.len() == 1
            &&& choice.at("finish_reason"@) == Datum::Text("stop"@)
            &&& message.at("role"@) == Datum::Text("assistant"@)
            &&& message.at("tool_calls"@) is Null
            &&& message.at("refusal"@) is Null
            &&& message.at("content"@) is Text
        },
        http::completion_refused(response, model) == Some(SemanticError::ContentMissing)
            ==> response.at("choices"@)->Array_0[0].at("message"@).at("content"@) is Null
            || !(response.at("choices"@)->Array_0[0].at("message"@).at("content"@) is Text),
{
}

/// The material of a request is what its second message says.
pub proof fn material_is_the_second_message(request: Datum, list: Seq<Datum>, content: Seq<char>)
    requires
        request.at("messages"@) == Datum::Array(list),
    ensures
        list.len() > 1 && list[1].at("content"@) == Datum::Text(content)
            ==> http::material_text(request) == Some(content),
        list.len() < 2 ==> http::material_text(request) is None,
{
}

/// An endpoint is a URL of at most two kibibytes, and a safe one.
pub proof fn endpoints_are_short(value: Seq<char>)
    ensures
        http::endpoint_refused(value) is None ==> http::url_of(value) is Some && text::utf8_len(
            value,
        ) < 2_049,
        http::url_of(value) is None <==> http::endpoint_refused(value) == Some(
            SemanticError::InvalidUrl,
        ),
        http::url_of(value) is Some && text::utf8_len(value) > 2_048 ==> http::endpoint_refused(
            value,
        ) == Some(SemanticError::InvalidEndpoint),
        http::url_of(value) matches Some((scheme, username, password, query, fragment, host))
            ==> (http::endpoint_refused(value) is None <==> text::utf8_len(value) < 2_049
            && http::endpoint_allowed(scheme, username, password, query, fragment, host)),
{
}

/// New work has tried nothing.
pub proof fn new_work_has_tried_nothing(
    job: SemanticJob,
    watch: Seq<char>,
    version: u64,
    generation: u64,
)
    requires
        job.is_new(watch, version, generation),
    ensures
        job.watch@ == watch,
        job.version == version,
        job.generation == generation,
        job.attempts == 0 && job.epoch == 0 && job.retry_at_ms == 0,
        job.ticket is None && job.evaluation is None && !job.accepted,
        job.progress.reason is None && job.progress.status is None,
{
}

} // verus!
