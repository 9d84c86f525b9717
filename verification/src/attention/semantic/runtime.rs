//! Semantic passes: which Watch is judged next, what one page may cost, and what
//! is kept so that an interrupted commit is found again.

use vstd::prelude::*;

use super::{
    unknown, SemanticError, SemanticLimits, WatchJudgment, WatchMatch, WatchPage,
    FORMAT,
};
use crate::attention::next;
use crate::json::{Datum, Json};
use crate::nexus::{self, MAX_SAFE_INTEGER};
use crate::runtime::{AttentionConfig, RuntimePin, RuntimePins, RuntimeScope};
use crate::text;
use crate::wake::MAX_DELAY_MS;

verus! {

/// What one bounded pass did; never cumulative.
#[derive(Debug)]
pub struct SemanticPass {
    pub scanned: usize,
    pub calls: usize,
    pub input_tokens: usize,
    pub advanced: usize,
    pub fired: usize,
    pub expired: usize,
    pub deferred: usize,
    pub reason: Option<String>,
}

/// How far a Watch has come.
#[derive(Debug)]
pub struct SemanticProgress {
    pub ticket_ref: Option<String>,
    pub evaluation_ref: Option<String>,
    pub status: Option<String>,
    pub reason: Option<String>,
}

/// Where the passes stand.
#[derive(Debug)]
pub struct Cursor {
    pub after: String,
    /// Kept before a page is prepared: a Watch may come to its end before the
    /// host sees the acknowledgement.
    pub pending: Option<String>,
    pub last: SemanticPass,
}

/// The work of one Watch.
#[derive(Debug)]
pub struct SemanticJob {
    pub watch: String,
    pub version: u64,
    pub generation: u64,
    pub epoch: u64,
    pub attempts: u32,
    pub ticket: Option<String>,
    /// The stored evaluation that has not been committed yet.
    pub evaluation: Option<Json>,
    pub accepted: bool,
    pub progress: SemanticProgress,
    pub retry_at_ms: u64,
}

impl SemanticPass {
    pub open spec fn is_empty(self) -> bool {
        &&& self.scanned == 0
        &&& self.calls == 0
        &&& self.input_tokens == 0
        &&& self.advanced == 0
        &&& self.fired == 0
        &&& self.expired == 0
        &&& self.deferred == 0
        &&& self.reason is None
    }

    pub fn new() -> (r: SemanticPass)
        ensures
            r.is_empty(),
    {
        SemanticPass {
            scanned: 0,
            calls: 0,
            input_tokens: 0,
            advanced: 0,
            fired: 0,
            expired: 0,
            deferred: 0,
            reason: None,
        }
    }

    pub fn copy(&self) -> (r: SemanticPass)
        ensures
            r == *self,
    {
        SemanticPass {
            scanned: self.scanned,
            calls: self.calls,
            input_tokens: self.input_tokens,
            advanced: self.advanced,
            fired: self.fired,
            expired: self.expired,
            deferred: self.deferred,
            reason: crate::runtime::optional_copy(&self.reason),
        }
    }
}

impl SemanticProgress {
    pub open spec fn is_empty(self) -> bool {
        self.ticket_ref is None && self.evaluation_ref is None && self.status is None && self.reason
            is None
    }

    pub fn new() -> (r: SemanticProgress)
        ensures
            r.is_empty(),
    {
        SemanticProgress { ticket_ref: None, evaluation_ref: None, status: None, reason: None }
    }
}

impl Cursor {
    pub fn new() -> (r: Cursor)
        ensures
            r.after@.len() == 0,
            r.pending is None,
            r.last.is_empty(),
    {
        Cursor { after: String::new(), pending: None, last: SemanticPass::new() }
    }
}

// ---------------------------------------------------------------------------
// Authority
// ---------------------------------------------------------------------------

/// Why semantic work may not run.
pub open spec fn context_refused(
    config: AttentionConfig,
    pin: RuntimePin,
    enabled: bool,
    registered: RuntimePins,
    caller: Seq<char>,
    principal: Seq<char>,
) -> Option<SemanticError> {
    if !(config.pins.evaluator matches Some(own) && own.same_as(pin)) {
        Some(SemanticError::EvaluatorChanged)
    } else if !enabled || !registered.same_as(config.pins) {
        Some(SemanticError::Disabled)
    } else if caller != principal {
        Some(SemanticError::ControllerDiffers)
    } else {
        None
    }
}

/// Semantic work runs only under the pin that the Watches were armed with, while
/// attention is enabled, and as the principal that arms them.
pub fn check_context(
    config: &AttentionConfig,
    pin: &RuntimePin,
    enabled: bool,
    registered: &RuntimePins,
    caller: &str,
    principal: &str,
) -> (r: Result<(), SemanticError>)
    ensures
        match r {
            Ok(()) => context_refused(*config, *pin, enabled, *registered, caller@, principal@)
                is None,
            Err(e) => context_refused(*config, *pin, enabled, *registered, caller@, principal@)
                == Some(e),
        },
{
    let own = match &config.pins.evaluator {
        Some(own) => own.same(pin),
        None => false,
    };
    if !own {
        return Err(SemanticError::EvaluatorChanged);
    }
    if !enabled || !registered.same(&config.pins) {
        return Err(SemanticError::Disabled);
    }
    if !text::same(caller, principal) {
        return Err(SemanticError::ControllerDiffers);
    }
    Ok(())
}

/// The scope and the pin that a journal belongs to.
pub open spec fn journal_value(scope: RuntimeScope, pin: RuntimePin) -> Datum {
    Datum::empty().with("scope"@, scope.value()).with("pin"@, pin.value())
}

pub open spec fn key_of(scope: RuntimeScope, pin: RuntimePin, suffix: Seq<char>) -> Option<
    Seq<char>,
> {
    match nexus::digits_of(journal_value(scope, pin)) {
        Some(digits) => Some("semantic/"@ + digits + "/"@ + suffix),
        None => None,
    }
}

fn scope_json(scope: &RuntimeScope) -> (r: Json)
    ensures
        r@ == scope.value(),
        nexus::portable(r@, 1),
{
    let a = nexus::put(
        Json::object(),
        "space_id",
        Json::text(scope.space_id.as_str()),
        Ghost(1),
    );
    nexus::put(a, "space_instance", Json::text(scope.space_instance.as_str()), Ghost(1))
}

fn pin_json(pin: &RuntimePin) -> (r: Json)
    ensures
        r@ == pin.value(),
        nexus::portable(r@, 1),
{
    let a = nexus::put(Json::object(), "id", Json::text(pin.id.as_str()), Ghost(1));
    nexus::put(a, "digest", Json::text(pin.digest.as_str()), Ghost(1))
}

/// The storage key of a record: records of another scope or of another contract
/// have other keys.
pub fn key(scope: &RuntimeScope, pin: &RuntimePin, suffix: &str) -> (r: String)
    ensures
        key_of(*scope, *pin, suffix@) == Some(r@),
{
    let a = nexus::put(Json::object(), "scope", scope_json(scope), Ghost(2));
    let value = nexus::put(a, "pin", pin_json(pin), Ghost(2));
    proof {
        nexus::portable_with_more_room(value@, 2, 100);
    }
    let mut out = "semantic/".to_owned();
    out.append(nexus::json_digits(&value).as_str());
    out.append("/");
    out.append(suffix);
    out
}

// ---------------------------------------------------------------------------
// Status
// ---------------------------------------------------------------------------

/// What is known of the evaluation of Watches.
#[derive(Debug)]
pub struct SemanticStatus {
    pub configured: bool,
    pub automatic: bool,
    pub running: bool,
    pub pin: Option<RuntimePin>,
    pub reason: Option<String>,
    /// The last bounded pass only.
    pub last_pass: Option<SemanticPass>,
}

/// What became of the read of the cursor.
#[derive(Debug)]
pub enum CursorRead {
    Missing,
    Unavailable,
    Found(Cursor),
}

/// The pass that is shown: the stored one, unless something runs or went wrong in
/// this process.
pub open spec fn shown_pass(last: SemanticPass, running: bool, context: Option<CursorRead>) -> SemanticPass {
    match context {
        Some(CursorRead::Found(cursor)) => if !running && last.reason is None {
            cursor.last
        } else {
            last
        },
        _ => last,
    }
}

/// What is wrong, if anything is.
pub open spec fn shown_reason(
    last: SemanticPass,
    running: bool,
    context: Option<CursorRead>,
) -> Option<Seq<char>> {
    match context {
        None => Some("semantic_configuration_or_authority_unavailable"@),
        Some(CursorRead::Unavailable) => Some("semantic_journal_unavailable"@),
        Some(CursorRead::Found(cursor)) => if cursor.pending is Some && !running {
            Some("semantic_processing_requires_recovery"@)
        } else {
            pass_reason(shown_pass(last, running, context))
        },
        Some(CursorRead::Missing) => pass_reason(last),
    }
}

pub open spec fn pass_reason(pass: SemanticPass) -> Option<Seq<char>> {
    match pass.reason {
        Some(reason) => Some(reason@),
        None => None,
    }
}

/// Whether a pass starts by itself: both the configuration and the host ask for it,
/// none is running, and the host has a slot for it.
pub fn may_start(
    config_automatic: bool,
    host_automatic: bool,
    running: bool,
    slot: bool,
) -> (r: bool)
    ensures
        r == (config_automatic && host_automatic && !running && slot),
{
    config_automatic && host_automatic && !running && slot
}

/// What is kept of a pass: the pass itself, or after a failure the one before it,
/// with the reason that someone has to look.
pub fn pass_ended(last: &mut SemanticPass, ended: Option<SemanticPass>)
    ensures
        match ended {
            Some(pass) => *final(last) == pass,
            None => {
                &&& *final(last) == (SemanticPass { reason: final(last).reason, ..*old(last) })
                &&& final(last).reason matches Some(reason) && reason@
                    == "semantic_processing_requires_recovery"@
            },
        },
{
    match ended {
        Some(pass) => {
            *last = pass;
        },
        None => {
            last.reason = Some("semantic_processing_requires_recovery".to_owned());
        },
    }
}

/// The status of the evaluation. The context is missing where the configuration
/// or the authority of the work could not be established.
pub fn status(
    pin: RuntimePin,
    last: SemanticPass,
    running: bool,
    host_automatic: bool,
    config_automatic: bool,
    context: Option<CursorRead>,
) -> (r: SemanticStatus)
    ensures
        r.configured,
        r.pin == Some(pin),
        r.running == running,
        r.automatic == (context is Some && host_automatic && config_automatic),
        r.last_pass == Some(shown_pass(last, running, context)),
        match r.reason {
            Some(reason) => shown_reason(last, running, context) == Some(reason@),
            None => shown_reason(last, running, context) is None,
        },
{
    let automatic = context.is_some() && host_automatic && config_automatic;
    let mut reason: Option<String> = None;
    let mut pass = last;
    match context {
        None => {
            reason = Some("semantic_configuration_or_authority_unavailable".to_owned());
        },
        Some(CursorRead::Missing) => {},
        Some(CursorRead::Unavailable) => {
            reason = Some("semantic_journal_unavailable".to_owned());
        },
        Some(CursorRead::Found(cursor)) => {
            let pending = cursor.pending.is_some();
            if !running && pass.reason.is_none() {
                pass = cursor.last;
            }
            if pending && !running {
                reason = Some("semantic_processing_requires_recovery".to_owned());
            }
        },
    }
    if reason.is_none() {
        reason = crate::runtime::optional_copy(&pass.reason);
    }
    SemanticStatus {
        configured: true,
        automatic,
        running,
        pin: Some(pin),
        reason,
        last_pass: Some(pass),
    }
}

// ---------------------------------------------------------------------------
// The operator
// ---------------------------------------------------------------------------

/// The identity of a Watch.
pub open spec fn is_watch(id: Seq<char>) -> bool {
    text::is_prefix("C-"@, id) && text::unsigned_of(id.skip(2)) is Some
}

pub fn check_watch(id: &str) -> (r: Result<(), SemanticError>)
    ensures
        r == if is_watch(id@) {
            Ok::<(), SemanticError>(())
        } else {
            Err::<(), SemanticError>(SemanticError::InvalidWatch)
        },
{
    proof {
        reveal_strlit("C-");
    }
    match text::strip_prefix(id, "C-") {
        Some(rest) => if text::parse_unsigned(rest).is_some() {
            Ok(())
        } else {
            Err(SemanticError::InvalidWatch)
        },
        None => Err(SemanticError::InvalidWatch),
    }
}

impl SemanticJob {
    /// Nothing has been done yet.
    pub open spec fn is_new(self, watch: Seq<char>, version: u64, generation: u64) -> bool {
        &&& self.watch@ == watch
        &&& self.version == version
        &&& self.generation == generation
        &&& self.epoch == 0
        &&& self.attempts == 0
        &&& self.ticket is None
        &&& self.evaluation is None
        &&& !self.accepted
        &&& self.progress.is_empty()
        &&& self.retry_at_ms == 0
    }

    pub fn new(watch: &str, version: u64, generation: u64) -> (r: SemanticJob)
        ensures
            r.is_new(watch@, version, generation),
    {
        SemanticJob {
            watch: watch.to_owned(),
            version,
            generation,
            epoch: 0,
            attempts: 0,
            ticket: None,
            evaluation: None,
            accepted: false,
            progress: SemanticProgress::new(),
            retry_at_ms: 0,
        }
    }

    /// Gives a Watch new attempts, on an operator's word. It keeps its page: no
    /// interval is skipped and no evaluator replaced. What is stored or accepted
    /// already is settled first.
    pub fn retry(&mut self) -> (r: Result<(), SemanticError>)
        ensures
            match r {
                Ok(()) => {
                    &&& old(self).evaluation is None
                    &&& !old(self).accepted
                    &&& old(self).epoch < MAX_SAFE_INTEGER
                    &&& *final(self) == (SemanticJob {
                        epoch: (old(self).epoch + 1) as u64,
                        attempts: 0,
                        retry_at_ms: 0,
                        progress: (SemanticProgress { reason: None, ..old(self).progress }),
                        ..*old(self)
                    })
                },
                Err(e) => {
                    &&& *final(self) == *old(self)
                    &&& e == if old(self).evaluation is Some || old(self).accepted {
                        SemanticError::CommitPending
                    } else {
                        SemanticError::CounterExhausted
                    }
                    &&& old(self).evaluation is Some || old(self).accepted || old(self).epoch
                        >= MAX_SAFE_INTEGER
                },
            },
    {
        if self.evaluation.is_some() || self.accepted {
            return Err(SemanticError::CommitPending);
        }
        match next(self.epoch) {
            Ok(epoch) => {
                self.epoch = epoch;
                self.attempts = 0;
                self.retry_at_ms = 0;
                self.progress.reason = None;
                Ok(())
            },
            Err(_) => Err(SemanticError::CounterExhausted),
        }
    }
}

// ---------------------------------------------------------------------------
// A pass
// ---------------------------------------------------------------------------

/// The query that finds the next Watches to be judged.
pub open spec fn discovery_query_of(limit: usize) -> Seq<char> {
    "FIND(?w.id, ?w._system.version, ?w.facets[\"WatchState\"].arm_generation)\nWHERE {?w CONCEPT {type:\"Watch\"} FILTER(?w.attributes.status == \"armed\") FILTER(?w.id > :after)\nFILTER(IS_NOT_NULL(?w.facets[\"WatchState\"].arm_generation))\nFILTER(IS_NOT_NULL(?w.attributes.condition.text) || (IS_NULL(?w.attributes.condition.element) && IS_NULL(?w.attributes.condition.slot) && IS_NULL(?w.attributes.condition.type)))}\nORDER BY ?w.id LIMIT "@
        + text::decimal(limit as nat)
}

pub fn discovery_query(limits: &SemanticLimits) -> (r: String)
    ensures
        r@ == discovery_query_of(limits.watches_per_pass),
{
    let mut out =
        "FIND(?w.id, ?w._system.version, ?w.facets[\"WatchState\"].arm_generation)\nWHERE {?w CONCEPT {type:\"Watch\"} FILTER(?w.attributes.status == \"armed\") FILTER(?w.id > :after)\nFILTER(IS_NOT_NULL(?w.facets[\"WatchState\"].arm_generation))\nFILTER(IS_NOT_NULL(?w.attributes.condition.text) || (IS_NULL(?w.attributes.condition.element) && IS_NULL(?w.attributes.condition.slot) && IS_NULL(?w.attributes.condition.type)))}\nORDER BY ?w.id LIMIT ".to_owned();
    out.append(text::decimal_text(limits.watches_per_pass as u64).as_str());
    out
}

/// Whether a pass takes up another Watch.
pub fn may_scan(pass: &SemanticPass, limits: &SemanticLimits, in_time: bool) -> (r: bool)
    ensures
        r == (pass.scanned < limits.watches_per_pass && in_time),
{
    pass.scanned < limits.watches_per_pass && in_time
}

/// An armed Watch as it was found.
#[derive(Debug)]
pub struct WatchRow {
    pub watch: String,
    pub version: u64,
    pub generation: u64,
}

/// The item of a list; null where there is none.
pub open spec fn nth(v: Datum, i: int) -> Datum {
    match v {
        Datum::Array(list) => if 0 <= i < list.len() {
            list[i]
        } else {
            Datum::Null
        },
        _ => Datum::Null,
    }
}

fn item(value: &Json, i: usize) -> (r: Json)
    ensures
        r@ == nth(value@, i as int),
{
    match value.as_array() {
        Some(list) => if i < list.len() {
            assert(crate::json::items_view(list@)[i as int] == list@[i as int]@);
            list[i].copy()
        } else {
            Json::Null
        },
        None => Json::Null,
    }
}

pub fn read_row(row: &Json) -> (r: Result<WatchRow, SemanticError>)
    ensures
        match (nth(row@, 0).as_text(), nth(row@, 1).as_u64(), nth(row@, 2).as_u64()) {
            (None, _, _) => r is Err && r->Err_0 == SemanticError::InvalidRowId,
            (Some(_), None, _) => r is Err && r->Err_0 == SemanticError::InvalidRowVersion,
            (Some(_), Some(_), None) => r is Err && r->Err_0
                == SemanticError::InvalidRowGeneration,
            (Some(id), Some(version), Some(generation)) => r matches Ok(w) && w.watch@ == id
                && w.version == version && w.generation == generation,
        },
{
    let id = item(row, 0);
    let watch = match id.as_text() {
        Some(s) => s.to_owned(),
        None => return Err(SemanticError::InvalidRowId),
    };
    let version: u64 = match item(row, 1).as_u64() {
        Some(n) => n,
        None => return Err(SemanticError::InvalidRowVersion),
    };
    match item(row, 2).as_u64() {
        Some(generation) => Ok(WatchRow { watch, version, generation }),
        None => Err(SemanticError::InvalidRowGeneration),
    }
}

/// Whether a Watch needs new work: it has none, or another version or generation
/// of it was armed since. An evaluation that is not committed is never dropped.
pub fn needs_job(stored: &Option<SemanticJob>, row: &WatchRow) -> (r: Result<bool, SemanticError>)
    ensures
        r == match stored {
            None => Ok::<bool, SemanticError>(true),
            Some(own) => if own.version == row.version && own.generation == row.generation {
                Ok::<bool, SemanticError>(false)
            } else if own.evaluation is Some {
                Err::<bool, SemanticError>(SemanticError::PendingCommit)
            } else {
                Ok::<bool, SemanticError>(true)
            },
        },
{
    match stored {
        None => Ok(true),
        Some(own) => if own.version == row.version && own.generation == row.generation {
            Ok(false)
        } else if own.evaluation.is_some() {
            Err(SemanticError::PendingCommit)
        } else {
            Ok(true)
        },
    }
}

impl Cursor {
    /// Notes the Watch that is about to be judged.
    pub fn take_up(&mut self, watch: &str)
        ensures
            final(self).pending matches Some(p) && p@ == watch@,
            *final(self) == (Cursor { pending: final(self).pending, ..*old(self) }),
    {
        self.pending = Some(watch.to_owned());
    }

    /// The Watch was judged, or put off.
    pub fn move_on(&mut self, watch: &str)
        ensures
            final(self).after@ == watch@,
            final(self).pending is None,
            final(self).last == old(self).last,
    {
        self.after = watch.to_owned();
        self.pending = None;
    }

    /// The pass is over: after the last Watch, the next pass starts from the
    /// first.
    pub fn finish(&mut self, pass: &SemanticPass, complete: bool, rows: usize, limits: &SemanticLimits)
        ensures
            final(self).after@ == if complete && rows < limits.watches_per_pass {
                Seq::empty()
            } else {
                old(self).after@
            },
            final(self).pending == old(self).pending,
            final(self).last == *pass,
    {
        if complete && rows < limits.watches_per_pass {
            self.after = String::new();
        }
        self.last = pass.copy();
    }
}

/// Counts a Watch that is taken up.
pub fn count_scanned(pass: &mut SemanticPass)
    requires
        old(pass).scanned < usize::MAX,
    ensures
        *final(pass) == (SemanticPass { scanned: (old(pass).scanned + 1) as usize, ..*old(pass) }),
{
    pass.scanned = pass.scanned + 1;
}

/// What the engine refused for good.
#[derive(Clone, Copy, Debug, PartialEq, Eq, Structural)]
pub enum NativeFailure {
    VersionConflict,
    NotAuthorized,
    NotFoundOrNotVisible,
    UnsupportedCapability,
    ResourceExhausted,
    /// Anything else: it is not known whether the engine acted.
    Ambiguous,
}

/// The page is given up: no attempt is left for it.
pub open spec fn gives_up(before: SemanticJob, after: SemanticJob, limits: SemanticLimits) -> bool {
    explained(
        SemanticJob { evaluation: None, attempts: limits.attempts_per_page, ..before },
        after,
        "semantic_native_basis_or_material_unavailable"@,
    )
}

/// Takes over a failure of the engine: only a definite refusal gives the page up.
/// After any other failure the stored evaluation is kept, to be replayed.
pub fn refused(job: &mut SemanticJob, failure: NativeFailure, limits: &SemanticLimits) -> (
given_up: bool)
    ensures
        given_up == (failure != NativeFailure::Ambiguous),
        if given_up {
            gives_up(*old(job), *final(job), *limits)
        } else {
            *final(job) == *old(job)
        },
{
    match failure {
        NativeFailure::Ambiguous => false,
        _ => {
            job.evaluation = None;
            job.attempts = limits.attempts_per_page;
            job.progress.reason = Some(
                "semantic_native_basis_or_material_unavailable".to_owned(),
            );
            true
        },
    }
}

/// The progress says so.
pub open spec fn came_to(job: SemanticJob, status: Seq<char>) -> bool {
    job.progress.status matches Some(s) && s@ == status
}

/// The pass with what became of a Watch.
pub open spec fn with_outcome(pass: SemanticPass, job: SemanticJob) -> SemanticPass {
    if job.accepted {
        SemanticPass {
            advanced: (pass.advanced + 1) as usize,
            fired: (pass.fired + if came_to(job, "fired"@) {
                1int
            } else {
                0
            }) as usize,
            expired: (pass.expired + if came_to(job, "expired"@) {
                1int
            } else {
                0
            }) as usize,
            ..pass
        }
    } else {
        SemanticPass {
            deferred: (pass.deferred + 1) as usize,
            reason: job.progress.reason,
            ..pass
        }
    }
}

/// Counts what became of a Watch.
pub fn count_outcome(pass: &mut SemanticPass, job: &SemanticJob)
    requires
        old(pass).advanced < usize::MAX,
        old(pass).fired < usize::MAX,
        old(pass).expired < usize::MAX,
        old(pass).deferred < usize::MAX,
    ensures
        *final(pass) == with_outcome(*old(pass), *job),
{
    if job.accepted {
        pass.advanced = pass.advanced + 1;
        if let Some(s) = &job.progress.status {
            if text::same(s.as_str(), "fired") {
                pass.fired = pass.fired + 1;
            }
            if text::same(s.as_str(), "expired") {
                pass.expired = pass.expired + 1;
            }
        }
    } else {
        pass.deferred = pass.deferred + 1;
        pass.reason = crate::runtime::optional_copy(&job.progress.reason);
    }
}

// ---------------------------------------------------------------------------
// One page
// ---------------------------------------------------------------------------

/// How the work of a Watch starts.
#[derive(Clone, Copy, Debug, PartialEq, Eq, Structural)]
pub enum PageEntry {
    /// The page was accepted before.
    Done,
    /// It is too early, or the attempts are used up.
    Wait,
    Work,
}

/// The reason, unless there is one already.
pub open spec fn kept_reason(before: Option<String>, reason: Seq<char>) -> Seq<char> {
    match before {
        Some(own) => own@,
        None => reason,
    }
}

/// How the work of a Watch starts at that time.
pub open spec fn entry_of(job: SemanticJob, now: u64, limits: SemanticLimits) -> PageEntry {
    if job.accepted {
        PageEntry::Done
    } else if job.evaluation is None && (job.retry_at_ms > now || job.attempts
        >= limits.attempts_per_page) {
        PageEntry::Wait
    } else {
        PageEntry::Work
    }
}

/// The progress gives that reason, and nothing else changed.
pub open spec fn explained(before: SemanticJob, after: SemanticJob, reason: Seq<char>) -> bool {
    &&& after == (SemanticJob { progress: after.progress, ..before })
    &&& after.progress == (SemanticProgress { reason: after.progress.reason, ..before.progress })
    &&& after.progress.reason matches Some(own) && own@ == reason
}

/// How the work of a Watch starts. An evaluation that is stored is committed
/// before anything else, whatever it has cost.
pub fn enter_page(job: &mut SemanticJob, now: u64, limits: &SemanticLimits) -> (r: PageEntry)
    ensures
        r == entry_of(*old(job), now, *limits),
        if r == PageEntry::Wait {
            explained(
                *old(job),
                *final(job),
                kept_reason(old(job).progress.reason, "semantic_attempt_budget_exhausted"@),
            )
        } else {
            *final(job) == *old(job)
        },
{
    if job.accepted {
        return PageEntry::Done;
    }
    if job.evaluation.is_none() && (job.retry_at_ms > now || job.attempts
        >= limits.attempts_per_page) {
        if job.progress.reason.is_none() {
            job.progress.reason = Some("semantic_attempt_budget_exhausted".to_owned());
        }
        return PageEntry::Wait;
    }
    PageEntry::Work
}

/// What identifies the preparation of a page.
pub open spec fn preparation_value(
    scope: RuntimeScope,
    pin: RuntimePin,
    watch: Seq<char>,
    version: u64,
    generation: u64,
) -> Datum {
    Datum::empty().with("format"@, Datum::Text(FORMAT@)).with("scope"@, scope.value()).with(
        "pin"@,
        pin.value(),
    ).with("watch"@, Datum::Text(watch)).with("version"@, Datum::Unsigned(version)).with(
        "generation"@,
        Datum::Unsigned(generation),
    )
}

proof fn preparation_is_portable(
    scope: RuntimeScope,
    pin: RuntimePin,
    watch: Seq<char>,
    version: u64,
    generation: u64,
)
    requires
        version <= MAX_SAFE_INTEGER,
        generation <= MAX_SAFE_INTEGER,
        nexus::portable(scope.value(), 1),
        nexus::portable(pin.value(), 1),
    ensures
        nexus::portable(preparation_value(scope, pin, watch, version, generation), 100),
{
    nexus::portable_with_more_room(scope.value(), 1, 99);
    nexus::portable_with_more_room(pin.value(), 1, 99);
    let a = Datum::empty();
    nexus::a_member_keeps_portable(a, "format"@, Datum::Text(FORMAT@), 100);
    let b = a.with("format"@, Datum::Text(FORMAT@));
    nexus::a_member_keeps_portable(b, "scope"@, scope.value(), 100);
    let c = b.with("scope"@, scope.value());
    nexus::a_member_keeps_portable(c, "pin"@, pin.value(), 100);
    let d = c.with("pin"@, pin.value());
    nexus::a_member_keeps_portable(d, "watch"@, Datum::Text(watch), 100);
    let e = d.with("watch"@, Datum::Text(watch));
    nexus::a_member_keeps_portable(e, "version"@, Datum::Unsigned(version), 100);
    let f = e.with("version"@, Datum::Unsigned(version));
    nexus::a_member_keeps_portable(f, "generation"@, Datum::Unsigned(generation), 100);
}

/// The key that a page is prepared under: preparing it again finds it.
pub fn preparation_key(scope: &RuntimeScope, pin: &RuntimePin, job: &SemanticJob) -> (r: Result<
    String,
    SemanticError,
>)
    ensures
        match r {
            Ok(d) => nexus::digest_of(
                preparation_value(*scope, *pin, job.watch@, job.version, job.generation),
            ) == Some(d@),
            Err(e) => e == SemanticError::Undigestible && nexus::digest_of(
                preparation_value(*scope, *pin, job.watch@, job.version, job.generation),
            ) is None,
        },
        job.version <= MAX_SAFE_INTEGER && job.generation <= MAX_SAFE_INTEGER ==> r is Ok,
{
    let scope_part = scope_json(scope);
    let pin_part = pin_json(pin);
    let value = Json::object().with("format", Json::text(FORMAT)).with(
        "scope",
        scope_part,
    ).with("pin", pin_part).with("watch", Json::text(job.watch.as_str())).with(
        "version",
        Json::unsigned(job.version),
    ).with("generation", Json::unsigned(job.generation));
    proof {
        if job.version <= MAX_SAFE_INTEGER && job.generation <= MAX_SAFE_INTEGER {
            preparation_is_portable(*scope, *pin, job.watch@, job.version, job.generation);
        }
    }
    super::digest_or(&value)
}

/// The ticket is noted, and nothing else changed.
pub open spec fn ticketed(before: SemanticJob, after: SemanticJob, ticket: Seq<char>) -> bool {
    &&& after.ticket matches Some(own) && own@ == ticket
    &&& after == (SemanticJob {
        ticket: after.ticket,
        progress: (SemanticProgress { ticket_ref: after.ticket, ..before.progress }),
        ..before
    })
}

/// Notes the ticket of the page that was prepared.
pub fn page_prepared(job: &mut SemanticJob, result: &Json) -> (r: Result<(), SemanticError>)
    ensures
        match result@.text_at("ticket_ref"@) {
            Some(ticket) => r == Ok::<(), SemanticError>(()) && ticketed(
                *old(job),
                *final(job),
                ticket,
            ),
            None => r == Err::<(), SemanticError>(SemanticError::PageMissing) && *final(job)
                == *old(job),
        },
{
    match result.text_at("ticket_ref") {
        Some(ticket) => {
            let own = ticket.to_owned();
            job.progress.ticket_ref = Some(own.clone());
            job.ticket = Some(own);
            Ok(())
        },
        None => Err(SemanticError::PageMissing),
    }
}

/// The page is the one that the host asked for.
pub open spec fn is_own_page(page: WatchPage, job: SemanticJob, pin: RuntimePin) -> bool {
    &&& page.evaluator matches Some(own) && own.same_as(pin)
    &&& page.watch_ref@ == job.watch@
    &&& page.expected_version == job.version
    &&& page.arm_generation == job.generation
}

pub fn check_page(page: &WatchPage, job: &SemanticJob, pin: &RuntimePin) -> (r: Result<
    (),
    SemanticError,
>)
    ensures
        r == if is_own_page(*page, *job, *pin) {
            Ok::<(), SemanticError>(())
        } else {
            Err::<(), SemanticError>(SemanticError::PageMismatch)
        },
{
    let own = match &page.evaluator {
        Some(own) => own.same(pin),
        None => false,
    };
    if own && text::same(page.watch_ref.as_str(), job.watch.as_str()) && page.expected_version
        == job.version && page.arm_generation == job.generation {
        Ok(())
    } else {
        Err(SemanticError::PageMismatch)
    }
}

/// The Watch is still armed, in the same version and generation.
pub open spec fn still_armed(rows: Datum, job: SemanticJob) -> bool {
    let row = nth(rows, 0);
    &&& nth(row, 0) == Datum::Unsigned(job.version)
    &&& nth(row, 1) == Datum::Text("armed"@)
    &&& nth(row, 2) == Datum::Unsigned(job.generation)
}

/// No event data reaches a model for a Watch that has changed meanwhile.
pub fn check_armed(rows: &Json, job: &SemanticJob) -> (r: Result<(), SemanticError>)
    ensures
        r == if still_armed(rows@, *job) {
            Ok::<(), SemanticError>(())
        } else {
            Err::<(), SemanticError>(SemanticError::WatchChanged)
        },
{
    let row = item(rows, 0);
    let version = match item(&row, 0).as_u64() {
        Some(n) => n == job.version,
        None => false,
    };
    let armed = item(&row, 1).is_text("armed");
    let generation = match item(&row, 2).as_u64() {
        Some(n) => n == job.generation,
        None => false,
    };
    if version && armed && generation {
        Ok(())
    } else {
        Err(SemanticError::WatchChanged)
    }
}

/// What a page may cost.
#[derive(Clone, Copy, Debug, PartialEq, Eq, Structural)]
pub enum PageCost {
    /// Too many candidates: no attempt can judge it.
    TooLarge,
    /// Not in this pass.
    NotNow,
    Fits,
}

/// A page fits: an empty one always does, any other must leave the pass within
/// its tokens and its time.
pub open spec fn page_cost(
    candidates: nat,
    tokens: usize,
    pass: SemanticPass,
    limits: SemanticLimits,
    in_time: bool,
) -> PageCost {
    if candidates > limits.candidates_per_page {
        PageCost::TooLarge
    } else if candidates > 0 && (tokens > limits.input_tokens || tokens
        > limits.pass_input_tokens - pass.input_tokens || !in_time) {
        PageCost::NotNow
    } else {
        PageCost::Fits
    }
}

pub open spec fn cost_reason(cost: PageCost) -> Option<Seq<char>> {
    match cost {
        PageCost::TooLarge => Some("semantic_page_budget_exceeded"@),
        PageCost::NotNow => Some("semantic_input_or_pass_budget_exhausted"@),
        PageCost::Fits => None,
    }
}

/// The work after its page was weighed.
pub open spec fn weighed(
    before: SemanticJob,
    after: SemanticJob,
    cost: PageCost,
    limits: SemanticLimits,
) -> bool {
    &&& after == (SemanticJob {
        attempts: match cost {
            PageCost::TooLarge => limits.attempts_per_page,
            PageCost::NotNow => before.attempts,
            PageCost::Fits => (before.attempts + 1) as u32,
        },
        progress: after.progress,
        ..before
    })
    &&& after.progress == (SemanticProgress { reason: after.progress.reason, ..before.progress })
    &&& match after.progress.reason {
        Some(reason) => cost_reason(cost) == Some(reason@),
        None => cost_reason(cost) is None,
    }
}

/// Weighs a page before anything is spent on it. A page that fits is charged to
/// the job first: an attempt that is interrupted has been made.
pub fn weigh_page(
    job: &mut SemanticJob,
    page: &WatchPage,
    tokens: usize,
    pass: &SemanticPass,
    limits: &SemanticLimits,
    in_time: bool,
) -> (r: PageCost)
    requires
        pass.input_tokens <= limits.pass_input_tokens,
        old(job).attempts < u32::MAX,
    ensures
        r == page_cost(page.candidates@.len(), tokens, *pass, *limits, in_time),
        weighed(*old(job), *final(job), r, *limits),
{
    if page.candidates.len() > limits.candidates_per_page {
        job.progress.reason = Some("semantic_page_budget_exceeded".to_owned());
        job.attempts = limits.attempts_per_page;
        return PageCost::TooLarge;
    }
    if page.candidates.len() > 0 && (tokens > limits.input_tokens || tokens
        > limits.pass_input_tokens - pass.input_tokens || !in_time) {
        job.progress.reason = Some("semantic_input_or_pass_budget_exhausted".to_owned());
        return PageCost::NotNow;
    }
    job.attempts = job.attempts + 1;
    job.progress.reason = None;
    PageCost::Fits
}

/// Charges a call of the evaluator to the pass.
pub fn charge_call(pass: &mut SemanticPass, tokens: usize, limits: &SemanticLimits)
    requires
        old(pass).calls < usize::MAX,
        old(pass).input_tokens <= limits.pass_input_tokens,
        tokens <= limits.pass_input_tokens - old(pass).input_tokens,
    ensures
        *final(pass) == (SemanticPass {
            calls: (old(pass).calls + 1) as usize,
            input_tokens: (old(pass).input_tokens + tokens) as usize,
            ..*old(pass)
        }),
        final(pass).input_tokens <= limits.pass_input_tokens,
{
    pass.calls = pass.calls + 1;
    pass.input_tokens = pass.input_tokens + tokens;
}

/// What came of a call.
#[derive(Debug)]
pub enum Evaluated {
    Judged(Vec<WatchJudgment>),
    Invalid,
    Unavailable,
    Panicked,
    TimedOut,
}

pub open spec fn failure_reason(evaluated: Evaluated) -> Option<Seq<char>> {
    match evaluated {
        Evaluated::Judged(_) => None,
        Evaluated::Invalid => Some("semantic_invalid_or_truncated_receipt"@),
        Evaluated::Unavailable => Some("semantic_provider_unavailable"@),
        Evaluated::Panicked => Some("semantic_evaluator_panicked"@),
        Evaluated::TimedOut => Some("semantic_evaluator_timeout"@),
    }
}

/// The work and the judgments after an evaluation.
pub open spec fn settled(
    before: SemanticJob,
    after: SemanticJob,
    page: WatchPage,
    evaluated: Evaluated,
    judgments: Vec<WatchJudgment>,
) -> bool {
    match failure_reason(evaluated) {
        None => after == before && evaluated == Evaluated::Judged(judgments),
        Some(reason) => {
            &&& explained(before, after, reason)
            &&& judgments@.len() == page.candidates@.len()
            &&& forall|i: int|
                0 <= i < judgments@.len() ==> super::is_withheld(
                    #[trigger] judgments@[i],
                    page.candidates@[i].id@,
                    reason,
                )
        },
    }
}

/// The judgments that are committed: those of the evaluator or, where it failed,
/// none that would claim coverage.
pub fn settle_judgments(job: &mut SemanticJob, page: &WatchPage, evaluated: Evaluated) -> (r: Vec<
    WatchJudgment,
>)
    ensures
        settled(*old(job), *final(job), *page, evaluated, r),
{
    let reason = match evaluated {
        Evaluated::Judged(list) => return list,
        Evaluated::Invalid => "semantic_invalid_or_truncated_receipt",
        Evaluated::Unavailable => "semantic_provider_unavailable",
        Evaluated::Panicked => "semantic_evaluator_panicked",
        Evaluated::TimedOut => "semantic_evaluator_timeout",
    };
    job.progress.reason = Some(reason.to_owned());
    unknown(page, reason)
}

/// What identifies an evaluation.
pub open spec fn evaluation_value(ticket: Seq<char>, pin: RuntimePin, epoch: u64, attempt: u32) -> Datum {
    Datum::empty().with("ticket"@, Datum::Text(ticket)).with("pin"@, pin.value()).with(
        "epoch"@,
        Datum::Unsigned(epoch),
    ).with("attempt"@, Datum::Unsigned(attempt as u64))
}

/// The key of an evaluation: one for each attempt.
pub fn evaluation_key(ticket: &str, pin: &RuntimePin, epoch: u64, attempt: u32) -> (r: String)
    requires
        epoch <= MAX_SAFE_INTEGER,
    ensures
        nexus::digest_of(evaluation_value(ticket@, *pin, epoch, attempt)) == Some(r@),
{
    let a = nexus::put(Json::object(), "ticket", Json::text(ticket), Ghost(2));
    let b = nexus::put(a, "pin", pin_json(pin), Ghost(2));
    let c = nexus::put(b, "epoch", Json::unsigned(epoch), Ghost(2));
    let value = nexus::put(c, "attempt", Json::unsigned(attempt as u64), Ghost(2));
    proof {
        nexus::portable_with_more_room(value@, 2, 100);
    }
    nexus::json_digest(&value)
}

/// The elements that the candidates are changes of.
pub open spec fn changed(candidates: Seq<super::WatchCandidate>) -> Seq<Seq<char>>
    decreases candidates.len(),
{
    if candidates.len() == 0 {
        Seq::empty()
    } else {
        let before = changed(candidates.drop_last());
        match candidates.last().change_id {
            Some(id) => before.push(id@),
            None => before,
        }
    }
}

/// What an evaluation is bound to: the Watch and everything that changed. Whoever
/// may not read these may not read the evaluation.
pub fn sources(watch: &str, page: &WatchPage) -> (r: Vec<String>)
    ensures
        text::views(r@) == seq![watch@] + changed(page.candidates@),
{
    let mut out: Vec<String> = Vec::new();
    out.push(watch.to_owned());
    let ghost all = page.candidates@;
    let mut i: usize = 0;
    proof {
        assert(all.take(0) =~= Seq::empty());
        assert(text::views(out@) =~= seq![watch@] + changed(all.take(0)));
    }
    while i < page.candidates.len()
        invariant
            i <= page.candidates.len(),
            all == page.candidates@,
            text::views(out@) == seq![watch@] + changed(all.take(i as int)),
        decreases page.candidates.len() - i,
    {
        let ghost before = text::views(out@);
        proof {
            assert(all.take(i + 1).drop_last() =~= all.take(i as int));
            assert(all.take(i + 1).last() == all[i as int]);
        }
        if let Some(id) = &page.candidates[i].change_id {
            out.push(id.clone());
            assert(text::views(out@) =~= before.push(id@));
        }
        proof {
            assert(text::views(out@) =~= seq![watch@] + changed(all.take(i + 1)));
        }
        i = i + 1;
    }
    assert(all.take(i as int) =~= all);
    out
}

/// The configuration did not change while the page was judged.
pub fn check_unchanged(before: &AttentionConfig, now: &AttentionConfig) -> (r: Result<
    (),
    SemanticError,
>)
    ensures
        r == if before.scope.same_as(now.scope) && before.pins.same_as(now.pins) {
            Ok::<(), SemanticError>(())
        } else {
            Err::<(), SemanticError>(SemanticError::ConfigurationChanged)
        },
{
    if before.scope.same(&now.scope) && before.pins.same(&now.pins) {
        Ok(())
    } else {
        Err(SemanticError::ConfigurationChanged)
    }
}

pub open spec fn text_of(v: Option<Seq<char>>, s: Option<String>) -> bool {
    match (v, s) {
        (Some(a), Some(b)) => a == b@,
        (None, None) => true,
        _ => false,
    }
}

fn own_text(value: &Json, name: &str) -> (r: Option<String>)
    ensures
        text_of(value@.text_at(name@), r),
{
    match value.text_at(name) {
        Some(s) => Some(s.to_owned()),
        None => None,
    }
}

/// The work after the engine's answer to a commit.
pub open spec fn commit_taken(
    before: SemanticJob,
    after: SemanticJob,
    result: Datum,
    now: u64,
    limits: SemanticLimits,
) -> bool {
    let accepted = result.at("status"@) != Datum::Text("deferred"@);
    &&& after == (SemanticJob {
        accepted,
        evaluation: None,
        retry_at_ms: (now + limits.retry_ms) as u64,
        progress: after.progress,
        ..before
    })
    &&& after.progress.ticket_ref == before.progress.ticket_ref
    &&& text_of(result.text_at("status"@), after.progress.status)
    &&& text_of(result.text_at("evaluation_ref"@), after.progress.evaluation_ref)
    &&& match after.progress.reason {
        Some(reason) => !accepted && reason@ == kept_reason(
            before.progress.reason,
            "semantic_unknown"@,
        ),
        None => accepted,
    }
}

/// Takes over the engine's answer to a commit. Whatever it is, the evaluation has
/// been used, and the Watch rests before it is judged again.
pub fn committed(job: &mut SemanticJob, result: &Json, now: u64, limits: &SemanticLimits)
    requires
        limits.valid(),
        now <= u64::MAX - MAX_DELAY_MS,
    ensures
        commit_taken(*old(job), *final(job), result@, now, *limits),
{
    job.progress.status = own_text(result, "status");
    job.progress.evaluation_ref = own_text(result, "evaluation_ref");
    job.accepted = !result.member_is("status", "deferred");
    if job.accepted {
        job.progress.reason = None;
    } else if job.progress.reason.is_none() {
        job.progress.reason = Some("semantic_unknown".to_owned());
    }
    job.evaluation = None;
    job.retry_at_ms = now + limits.retry_ms;
}

// ---------------------------------------------------------------------------
// Laws
// ---------------------------------------------------------------------------

/// A pass never spends more tokens than it has: what is charged for a page that
/// fits leaves it within its budget.
pub proof fn passes_stay_within_their_tokens(
    candidates: nat,
    tokens: usize,
    pass: SemanticPass,
    limits: SemanticLimits,
    in_time: bool,
)
    requires
        candidates > 0,
        pass.input_tokens <= limits.pass_input_tokens,
        page_cost(candidates, tokens, pass, limits, in_time) == PageCost::Fits,
    ensures
        pass.input_tokens + tokens <= limits.pass_input_tokens,
        tokens <= limits.input_tokens,
        candidates <= limits.candidates_per_page,
        in_time,
{
}

/// A failure never claims coverage: where an evaluation failed, every candidate
/// is judged unknown, and none a match or no match.
pub proof fn failures_claim_no_coverage(
    judgment: WatchJudgment,
    id: Seq<char>,
    reason: Seq<char>,
)
    requires
        super::is_withheld(judgment, id, reason),
    ensures
        judgment.result != WatchMatch::Match,
        judgment.result != WatchMatch::NoMatch,
{
}

} // verus!
