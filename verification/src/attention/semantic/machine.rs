//! What holds of the steps of a judgment and of a pass.

use vstd::prelude::*;

use super::judging::{self, Judging, Terms};
use super::round::{self, Round};
use super::runtime::{self, SemanticJob};
use super::SemanticError;
use crate::json::Datum;

verus! {

// ---------------------------------------------------------------------------
// One judgment
// ---------------------------------------------------------------------------

/// A judgment begins with the page of the job's ticket, or by preparing one. It does not
/// begin at all where the page was accepted or has to wait.
pub proof fn judgments_begin_with_their_page(
    judging: Judging,
    job: SemanticJob,
    terms: Terms,
    now: u64,
    ask: judging::Ask,
)
    requires
        judging.begins(job, terms, now, ask),
    ensures
        ({
            let spent = job.evaluation is None && (job.retry_at_ms > now || job.attempts
                >= terms.config.limits.attempts_per_page);
            &&& ask is Stop <==> job.accepted || spent
            &&& !job.accepted && !spent && job.ticket is Some ==> ask is ReadPage
                && ask->ReadPage_0@ == job.ticket->0@
            &&& !job.accepted && !spent && job.ticket is None ==> ask is Prepare
            &&& !spent ==> judging.job == job
            &&& !job.accepted && spent && job.progress.reason is None
                ==> judging.job.progress.reason is Some && judging.job.progress.reason->0@
                == "semantic_attempt_budget_exhausted"@
            &&& !job.accepted && spent && job.progress.reason is Some
                ==> judging.job.progress.reason is Some && judging.job.progress.reason->0@
                == job.progress.reason->0@
        }),
{
}

/// A page that is not of this job is refused; an evaluation that was stored is taken up
/// before anything is judged again.
pub proof fn stored_evaluations_come_first(
    before: Judging,
    after: Judging,
    told: judging::Told,
    terms: Terms,
    now: u64,
    r: Result<judging::Ask, SemanticError>,
)
    requires
        before.moves(after, told, terms, now, r),
        before.stage is Page,
        told is Page,
    ensures
        ({
            let page = told->Page_0;
            let own = page.evaluator is Some && page.evaluator->0.id@ == terms.pin.id@
                && page.evaluator->0.digest@ == terms.pin.digest@ && page.watch_ref@
                == before.job.watch@ && page.expected_version == before.job.version
                && page.arm_generation == before.job.generation;
            &&& !own ==> r == Err::<judging::Ask, SemanticError>(SemanticError::PageMismatch)
            &&& own && before.job.evaluation is Some ==> r == Ok::<judging::Ask, SemanticError>(
                judging::Ask::ReadEvaluation,
            )
            &&& own && before.job.evaluation is None ==> r == Ok::<judging::Ask, SemanticError>(
                judging::Ask::ReadWatch,
            )
            &&& own ==> after.page == Some(page) && after.job == before.job
        }),
{
}

/// A refusal that leaves open whether the engine acted keeps the work as it is; any other
/// gives the page up for good, and says why.
pub proof fn refusals_give_the_page_up(
    before: Judging,
    after: Judging,
    told: judging::Told,
    terms: Terms,
    now: u64,
    r: Result<judging::Ask, SemanticError>,
)
    requires
        before.moves(after, told, terms, now, r),
        told is Refused,
        before.stage is Prepare || before.stage is Page || before.stage is Evaluation
            || before.stage is Store || before.stage is Configuration || before.stage is Commit,
    ensures
        told->Refused_0 is Ambiguous ==> after == before && r == Err::<judging::Ask, SemanticError>(
            SemanticError::Unresolved,
        ),
        !(told->Refused_0 is Ambiguous) ==> {
            &&& r == Ok::<judging::Ask, SemanticError>(judging::Ask::SaveJob)
            &&& after.stage is Written
            &&& after.job.evaluation is None
            &&& after.job.attempts == terms.config.limits.attempts_per_page
            &&& after.job.progress.reason is Some && after.job.progress.reason->0@
                == "semantic_native_basis_or_material_unavailable"@
            &&& after.job.ticket == before.job.ticket && after.job.accepted == before.job.accepted
        },
{
}

/// The evaluator is called with the request that was counted, once it was paid for; a page
/// without candidates is stored without a call.
pub proof fn calls_are_paid_for(
    before: Judging,
    after: Judging,
    told: judging::Told,
    terms: Terms,
    now: u64,
    r: Result<judging::Ask, SemanticError>,
)
    requires
        before.wf(terms),
        before.moves(after, told, terms, now, r),
        before.stage is Reserved,
        told is Saved,
    ensures
        before.page->0.candidates@.len() > 0 ==> {
            &&& r == Ok::<judging::Ask, SemanticError>(judging::Ask::Evaluate)
            &&& after.pass.calls == before.pass.calls + 1
            &&& after.pass.input_tokens == before.pass.input_tokens + before.tokens
            &&& after.pass.input_tokens <= terms.config.limits.pass_input_tokens
            &&& after.request == before.request
        },
        before.page->0.candidates@.len() == 0 && r is Ok ==> r->Ok_0 is Store
            && (r->Ok_0)->judgments@.len() == 0 && after.pass == before.pass,
{
}

/// A request of more than a mebibyte fits no call.
pub proof fn large_requests_fit_no_call(bytes: usize, tokens: usize)
    ensures
        bytes <= 1_048_576 ==> judging::weight_of(bytes, tokens) == tokens,
        bytes > 1_048_576 ==> judging::weight_of(bytes, tokens) == usize::MAX,
{
}

/// What is stored is bound to the Watch and to every change that was judged.
pub proof fn stored_judgments_name_their_sources(
    before: Judging,
    after: Judging,
    judgments: Seq<super::WatchJudgment>,
    terms: Terms,
    r: Result<judging::Ask, SemanticError>,
)
    requires
        before.stores(after, judgments, terms, r),
        r is Ok,
    ensures
        r->Ok_0 is Store,
        (r->Ok_0)->judgments@ == judgments,
        (r->Ok_0)->sources@.len() == 1 + runtime::changed(before.page->0.candidates@).len(),
        (r->Ok_0)->sources@[0]@ == before.job.watch@,
        after.stage is Store,
        after.job == before.job,
        before.job.epoch <= 9_007_199_254_740_991,
{
    let sources = (r->Ok_0)->sources@;
    assert(crate::text::views(sources).len() == sources.len());
    assert(crate::text::views(sources)[0] == sources[0]@);
}

/// A judgment is committed under the ticket of its job, and only while the configuration
/// is the one that it was judged under.
pub proof fn commits_need_the_same_configuration(
    before: Judging,
    after: Judging,
    told: judging::Told,
    terms: Terms,
    now: u64,
    r: Result<judging::Ask, SemanticError>,
)
    requires
        before.moves(after, told, terms, now, r),
        before.stage is Configuration,
        told is Configuration,
    ensures
        ({
            let c = told->Configuration_0;
            let same = c.scope.space_id@ == terms.native.scope.space_id@ && c.scope.space_instance@
                == terms.native.scope.space_instance@ && terms.native.pins.same_as(c.pins);
            &&& same ==> r is Ok && r->Ok_0 is Commit && (r->Ok_0)->Commit_0@
                == before.job.ticket->0@
            &&& !same ==> r == Err::<judging::Ask, SemanticError>(
                SemanticError::ConfigurationChanged,
            )
        }),
{
}

/// A Watch that is no longer armed as it was is given up before anything is counted.
pub proof fn disarmed_watches_are_not_judged(
    before: Judging,
    after: Judging,
    told: judging::Told,
    terms: Terms,
    now: u64,
    r: Result<judging::Ask, SemanticError>,
)
    requires
        before.moves(after, told, terms, now, r),
        before.stage is Watch,
        told is Watch,
    ensures
        !runtime::still_armed(told->Watch_0@, before.job) ==> r == Ok::<
            judging::Ask,
            SemanticError,
        >(judging::Ask::SaveJob) && after.job.attempts == terms.config.limits.attempts_per_page
            && after.stage is Written,
        before.page->0.candidates@.len() > terms.config.limits.candidates_per_page ==> r == Ok::<
            judging::Ask,
            SemanticError,
        >(judging::Ask::SaveJob) && after.job.attempts == terms.config.limits.attempts_per_page,
        r == Ok::<judging::Ask, SemanticError>(judging::Ask::Count) ==> runtime::still_armed(
            told->Watch_0@,
            before.job,
        ) && before.page->0.candidates@.len() <= terms.config.limits.candidates_per_page,
{
}

// ---------------------------------------------------------------------------
// One pass
// ---------------------------------------------------------------------------

/// A pass first takes up the Watch that the last one left behind; without one it looks for
/// Watches behind the cursor.
pub proof fn pending_watches_come_first(
    before: Round,
    after: Round,
    cursor: Option<runtime::Cursor>,
    terms: Terms,
    r: Result<round::Ask, SemanticError>,
)
    requires
        before.cursor_moves(after, cursor, terms, r),
        before.pass.scanned < usize::MAX,
    ensures
        cursor is Some && cursor->0.pending is Some ==> r is Ok && r->Ok_0 is ReadJob
            && (r->Ok_0)->ReadJob_0@ == cursor->0.pending->0@ && after.stage is Job
            && after.pass.scanned == before.pass.scanned + 1,
        cursor is None || cursor->0.pending is None ==> r is Ok && r->Ok_0 is Discover
            && after.stage is Discovery && after.pass == before.pass,
        cursor is None ==> after.cursor.after@.len() == 0,
{
}

/// A Watch that was found gets new work unless its work is of the same version and arming;
/// work whose evaluation is not committed is never dropped.
pub proof fn uncommitted_evaluations_are_kept(
    before: Round,
    after: Round,
    stored: Option<SemanticJob>,
    r: Result<round::Ask, SemanticError>,
    version: u64,
    generation: u64,
)
    requires
        before.known_moves(after, stored, r),
        runtime::nth(before.rows@[before.next as int]@, 1) == Datum::Unsigned(version),
        runtime::nth(before.rows@[before.next as int]@, 2) == Datum::Unsigned(generation),
    ensures
        ({
            let same = stored is Some && stored->0.version == version && stored->0.generation
                == generation;
            &&& same ==> r == Ok::<round::Ask, SemanticError>(round::Ask::SaveCursor)
                && after.cursor.pending is Some && after.cursor.pending->0@ == before.watch@
            &&& !same && stored is Some && stored->0.evaluation is Some ==> r == Err::<
                round::Ask,
                SemanticError,
            >(SemanticError::PendingCommit)
            &&& !same && (stored is None || stored->0.evaluation is None) ==> r is Ok && r->Ok_0
                is SaveNew && (r->Ok_0)->SaveNew_0.watch@ == before.watch@
                && (r->Ok_0)->SaveNew_0.version == version && (r->Ok_0)->SaveNew_0.generation
                == generation && (r->Ok_0)->SaveNew_0.attempts == 0
                && !(r->Ok_0)->SaveNew_0.accepted && (r->Ok_0)->SaveNew_0.evaluation is None
        }),
{
}

/// A pass ends behind its last Watch, and starts over once a short page was dealt with to
/// its end; what it counted is kept.
pub proof fn passes_start_over_at_the_end(
    before: Round,
    after: Round,
    complete: bool,
    terms: Terms,
    r: Result<round::Ask, SemanticError>,
)
    requires
        before.finishes(after, complete, terms, r),
    ensures
        complete && before.rows@.len() < terms.config.limits.watches_per_pass
            ==> after.cursor.after@.len() == 0,
        !complete || before.rows@.len() >= terms.config.limits.watches_per_pass
            ==> after.cursor.after@ == before.cursor.after@,
        after.cursor.last == before.pass,
        after.stage is Ending,
        r == Ok::<round::Ask, SemanticError>(round::Ask::SaveCursor),
{
}

/// The next Watch is taken only while the pass permits it and there is time, and only from
/// a row that can be read.
pub proof fn watches_are_taken_within_the_pass(
    before: Round,
    after: Round,
    terms: Terms,
    tick: round::Tick,
    r: Result<round::Ask, SemanticError>,
)
    requires
        before.turns_to_next(after, terms, tick, r),
    ensures
        r is Ok && r->Ok_0 is ReadJob ==> {
            &&& tick.in_time
            &&& before.pass.scanned < terms.config.limits.watches_per_pass
            &&& before.next < before.rows@.len()
            &&& runtime::nth(before.rows@[before.next as int]@, 0) == Datum::Text(
                (r->Ok_0)->ReadJob_0@,
            )
            &&& after.watch@ == (r->Ok_0)->ReadJob_0@
        },
        before.next >= before.rows@.len() ==> r == Ok::<round::Ask, SemanticError>(
            round::Ask::SaveCursor,
        ) && after.stage is Ending && (before.rows@.len() < terms.config.limits.watches_per_pass
            ==> after.cursor.after@.len() == 0),
        before.next < before.rows@.len() && (!tick.in_time || before.pass.scanned
            >= terms.config.limits.watches_per_pass) ==> after.stage is Ending
            && after.cursor.after@ == before.cursor.after@,
        before.next < before.rows@.len() && tick.in_time && before.pass.scanned
            < terms.config.limits.watches_per_pass ==> {
            let row = before.rows@[before.next as int]@;
            &&& !(runtime::nth(row, 0) is Text) ==> r == Err::<round::Ask, SemanticError>(
                SemanticError::InvalidRowId,
            )
            &&& runtime::nth(row, 0) is Text && !(runtime::nth(row, 1) is Unsigned) ==> r == Err::<
                round::Ask,
                SemanticError,
            >(SemanticError::InvalidRowVersion)
            &&& runtime::nth(row, 0) is Text && runtime::nth(row, 1) is Unsigned
                && !(runtime::nth(row, 2) is Unsigned) ==> r == Err::<round::Ask, SemanticError>(
                SemanticError::InvalidRowGeneration,
            )
        },
{
}

/// When a judgment has ended the pass counts it and moves on behind its Watch.
pub proof fn ended_judgments_are_left_behind(
    before: Round,
    after: Round,
    judged: Judging,
    r: Result<round::Ask, SemanticError>,
)
    requires
        before.ends_judgment(after, judged, r),
    ensures
        after.cursor.after@ == before.watch@,
        after.cursor.pending is None,
        after.pass == runtime::with_outcome(judged.pass, judged.job),
        after.judging is None,
        after.stage is Moved,
        r == Ok::<round::Ask, SemanticError>(round::Ask::SaveCursor),
{
}

/// A page that was prepared is kept by its ticket before it is read; without a ticket there
/// is no page.
pub proof fn tickets_are_kept(
    before: Judging,
    after: Judging,
    result: Datum,
    r: Result<judging::Ask, SemanticError>,
)
    requires
        before.prepared_moves(after, result, r),
    ensures
        result.at("ticket_ref"@) is Text ==> {
            let ticket = result.at("ticket_ref"@)->Text_0;
            &&& r == Ok::<judging::Ask, SemanticError>(judging::Ask::SaveJob)
            &&& after.stage is Ticket
            &&& after.job.ticket is Some && after.job.ticket->0@ == ticket
            &&& after.job.progress.ticket_ref is Some && after.job.progress.ticket_ref->0@
                == ticket
            &&& after.job.attempts == before.job.attempts && after.job.evaluation
                == before.job.evaluation
        },
        !(result.at("ticket_ref"@) is Text) ==> r == Err::<judging::Ask, SemanticError>(
            SemanticError::PageMissing,
        ),
{
}

/// The page that is read is that of the ticket.
pub proof fn pages_are_read_by_their_ticket(
    before: Judging,
    after: Judging,
    r: Result<judging::Ask, SemanticError>,
)
    requires
        before.ticket_moves(after, r),
    ensures
        r is Ok && r->Ok_0 is ReadPage && (r->Ok_0)->ReadPage_0@ == before.job.ticket->0@,
        after.stage is Page && after.job == before.job,
{
}

/// A reply is taken only where it is read as one, within its bytes and its tokens, matches
/// the page and judges it validly; what cannot be taken is invalid.
pub proof fn replies_keep_to_their_bounds(before: Judging, told: judging::Told, terms: Terms)
    ensures
        told is Reply ==> before.heard(told, terms) is Some,
        told is Reply && before.heard(told, terms)->0 is Judged ==> {
            &&& told->Reply_tokens <= terms.config.limits.output_tokens
            &&& crate::text::utf8_len(told->raw@) < 262_145
            &&& told->Reply_reply is Some
            &&& super::receipt_taken(told->Reply_reply->0, before.page->0)
            &&& super::judgments_valid(told->Reply_reply->0.judgments@, before.page->0)
            &&& (before.heard(told, terms)->0)->Judged_0 == told->Reply_reply->0.judgments
        },
        told is Reply && !(before.heard(told, terms)->0 is Judged) ==> before.heard(
            told,
            terms,
        )->0 is Invalid,
        told is Reply && (told->Reply_tokens > terms.config.limits.output_tokens
            || told->Reply_reply is None) ==> before.heard(told, terms)->0 is Invalid,
        told is Unavailable ==> before.heard(told, terms) == Some(runtime::Evaluated::Unavailable),
        told is Panicked ==> before.heard(told, terms) == Some(runtime::Evaluated::Panicked),
        told is TimedOut ==> before.heard(told, terms) == Some(runtime::Evaluated::TimedOut),
{
}

} // verus!
