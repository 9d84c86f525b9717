//! The judgment of one Watch, step by step: its page is prepared, weighed and
//! judged, the judgment is stored, and only then committed.

use vstd::prelude::*;

use super::runtime::{self, Evaluated, NativeFailure, PageCost, PageEntry, SemanticJob, SemanticPass};
use super::{SemanticConfig, SemanticError, SemanticReply, WatchJudgment, WatchPage};
use crate::json::{Datum, Json};
use crate::nexus::{self, MAX_SAFE_INTEGER};
use crate::runtime::{AttentionConfig, RuntimePin};
use crate::text;
use crate::wake::MAX_DELAY_MS;

verus! {

/// The longest request that is counted, in bytes.
pub const MAX_REQUEST_BYTES: usize = 1_048_576;

/// What a judgment goes by.
#[derive(Debug)]
pub struct Terms {
    pub config: SemanticConfig,
    pub native: AttentionConfig,
    pub pin: RuntimePin,
}

/// What the host is waited for.
#[derive(Clone, Copy, Debug, PartialEq, Eq, Structural)]
pub enum Stage {
    Prepare,
    /// The ticket is being written.
    Ticket,
    Page,
    /// The evaluation that was stored before.
    Evaluation,
    Watch,
    Count,
    /// The attempt is being written.
    Reserved,
    Reply,
    Store,
    /// The stored evaluation is being noted.
    Stored,
    Configuration,
    Commit,
    /// The outcome is being written.
    Written,
    Over,
}

/// What the host does next.
#[derive(Debug)]
pub enum Ask {
    /// Prepare the page under that key.
    Prepare(String),
    SaveJob,
    ReadPage(String),
    ReadEvaluation,
    /// Read how the Watch stands now.
    ReadWatch,
    /// Count the request.
    Count,
    /// Call the evaluator with the request.
    Evaluate,
    /// Store the evaluation, bound to its sources.
    Store { key: String, judgments: Vec<WatchJudgment>, sources: Vec<String> },
    ReadConfiguration,
    Commit(String),
    Stop,
}

/// What the host reports.
#[derive(Debug)]
pub enum Told {
    Prepared(Json),
    Saved,
    Page(WatchPage),
    Evaluation,
    Watch(Json),
    Counted { bytes: usize, tokens: usize, in_time: bool },
    Reply { raw: String, tokens: usize, reply: Option<SemanticReply> },
    Unavailable,
    Panicked,
    TimedOut,
    Stored(Json),
    Configuration(AttentionConfig),
    Committed(Json),
    /// The engine refused the last request.
    Refused(NativeFailure),
}

/// How far a judgment has come.
#[derive(Debug)]
pub struct Judging {
    pub stage: Stage,
    pub job: SemanticJob,
    pub pass: SemanticPass,
    pub page: Option<WatchPage>,
    pub request: Json,
    pub tokens: usize,
}

pub open spec fn proceeds(r: Result<Ask, SemanticError>, ask: Ask) -> bool {
    r == Ok::<Ask, SemanticError>(ask)
}

pub open spec fn fails(r: Result<Ask, SemanticError>, e: SemanticError) -> bool {
    r == Err::<Ask, SemanticError>(e)
}

/// What a request weighs: one that is too long to be counted weighs more than any
/// budget.
pub open spec fn weight_of(bytes: usize, tokens: usize) -> usize {
    if bytes <= MAX_REQUEST_BYTES {
        tokens
    } else {
        usize::MAX
    }
}

/// A reply counts only as a whole: in time, within its size, for this page, and
/// with a reasoned judgment for every candidate.
pub open spec fn reply_taken(
    raw: Seq<char>,
    tokens: usize,
    reply: Option<SemanticReply>,
    page: WatchPage,
    limit: usize,
) -> bool {
    &&& text::utf8_len(raw) <= super::MAX_REPLY_BYTES
    &&& tokens <= limit
    &&& reply matches Some(own) && super::receipt_taken(own, page) && super::judgments_valid(
        own.judgments@,
        page,
    )
}

fn read_reply(
    raw: &str,
    tokens: usize,
    reply: Option<SemanticReply>,
    page: &WatchPage,
    limit: usize,
) -> (r: Evaluated)
    ensures
        r == if reply_taken(raw@, tokens, reply, *page, limit) {
            Evaluated::Judged(reply->0.judgments)
        } else {
            Evaluated::Invalid
        },
{
    if super::check_reply_size(raw, tokens, limit).is_err() {
        return Evaluated::Invalid;
    }
    match reply {
        Some(own) => match super::judgments(own, page) {
            Ok(list) => Evaluated::Judged(list),
            Err(_) => Evaluated::Invalid,
        },
        None => Evaluated::Invalid,
    }
}

impl Judging {
    /// What has been spent fits the limits.
    pub open spec fn wf(self, terms: Terms) -> bool {
        &&& terms.config.limits.valid()
        &&& self.pass.input_tokens <= terms.config.limits.pass_input_tokens
        &&& self.before_weight() ==> self.job.evaluation is None ==> self.job.attempts
            < terms.config.limits.attempts_per_page
        &&& self.stage == Stage::Watch || self.stage == Stage::Count || self.stage
            == Stage::Reserved ==> self.job.evaluation is None
        &&& self.before_call() ==> self.pass.calls < usize::MAX
        &&& self.stage == Stage::Evaluation || self.stage == Stage::Stored || self.stage
            == Stage::Configuration || self.stage == Stage::Commit ==> self.job.evaluation is Some
        &&& self.stage != Stage::Prepare && self.stage != Stage::Over && self.stage
            != Stage::Written ==> self.job.ticket is Some
        &&& self.has_page() ==> self.page is Some
        &&& self.stage == Stage::Reserved && self.page->0.candidates@.len() > 0 ==> self.tokens
            <= terms.config.limits.pass_input_tokens - self.pass.input_tokens
    }

    pub open spec fn before_weight(self) -> bool {
        self.stage == Stage::Prepare || self.stage == Stage::Ticket || self.stage == Stage::Page
            || self.stage == Stage::Watch || self.stage == Stage::Count
    }

    pub open spec fn before_call(self) -> bool {
        self.before_weight() || self.stage == Stage::Reserved
    }

    pub open spec fn has_page(self) -> bool {
        self.stage == Stage::Watch || self.stage == Stage::Count || self.stage == Stage::Reserved
            || self.stage == Stage::Reply
    }

    /// Starts the judgment of a Watch.
    pub fn begin(job: SemanticJob, pass: SemanticPass, terms: &Terms, now: u64) -> (r: Result<
        (Judging, Ask),
        SemanticError,
    >)
        requires
            terms.config.limits.valid(),
            pass.input_tokens <= terms.config.limits.pass_input_tokens,
            pass.calls < usize::MAX,
        ensures
            match r {
                Ok((judging, ask)) => {
                    &&& judging.wf(*terms)
                    &&& judging.pass == pass
                    &&& judging.begins(job, *terms, now, ask)
                },
                Err(e) => {
                    &&& e == SemanticError::Undigestible
                    &&& runtime::entry_of(job, now, terms.config.limits) == PageEntry::Work
                    &&& job.ticket is None
                    &&& nexus::digest_of(
                        runtime::preparation_value(
                            terms.native.scope,
                            terms.pin,
                            job.watch@,
                            job.version,
                            job.generation,
                        ),
                    ) is None
                },
            },
    {
        let mut job = job;
        let entry = runtime::enter_page(&mut job, now, &terms.config.limits);
        let mut judging = Judging {
            stage: Stage::Over,
            job,
            pass,
            page: None,
            request: Json::Null,
            tokens: 0,
        };
        match entry {
            PageEntry::Work => {},
            _ => return Ok((judging, Ask::Stop)),
        }
        let known = crate::runtime::optional_copy(&judging.job.ticket);
        match known {
            Some(ticket) => {
                judging.stage = Stage::Page;
                Ok((judging, Ask::ReadPage(ticket)))
            },
            None => match runtime::preparation_key(
                &terms.native.scope,
                &terms.pin,
                &judging.job,
            ) {
                Ok(key) => {
                    judging.stage = Stage::Prepare;
                    Ok((judging, Ask::Prepare(key)))
                },
                Err(e) => Err(e),
            },
        }
    }

    /// How a judgment starts: one that was accepted, that is too early or whose
    /// attempts are used up ends at once; a page that was prepared is read again.
    pub open spec fn begins(self, job: SemanticJob, terms: Terms, now: u64, ask: Ask) -> bool {
        match runtime::entry_of(job, now, terms.config.limits) {
            PageEntry::Done => self.job == job && self.stage == Stage::Over && ask == Ask::Stop,
            PageEntry::Wait => {
                &&& runtime::explained(
                    job,
                    self.job,
                    runtime::kept_reason(
                        job.progress.reason,
                        "semantic_attempt_budget_exhausted"@,
                    ),
                )
                &&& self.stage == Stage::Over
                &&& ask == Ask::Stop
            },
            PageEntry::Work => {
                &&& self.job == job
                &&& match job.ticket {
                    Some(ticket) => self.stage == Stage::Page && (ask matches Ask::ReadPage(id)
                        && id@ == ticket@),
                    None => self.stage == Stage::Prepare && (ask matches Ask::Prepare(key)
                        && nexus::digest_of(
                        runtime::preparation_value(
                            terms.native.scope,
                            terms.pin,
                            job.watch@,
                            job.version,
                            job.generation,
                        ),
                    ) == Some(key@)),
                }
            },
        }
    }

    /// The ticket of the page is written before the page is read.
    pub open spec fn prepared_moves(
        self,
        after: Judging,
        result: Datum,
        r: Result<Ask, SemanticError>,
    ) -> bool {
        match result.text_at("ticket_ref"@) {
            Some(ticket) => {
                &&& after == (Judging { stage: Stage::Ticket, job: after.job, ..self })
                &&& runtime::ticketed(self.job, after.job, ticket)
                &&& proceeds(r, Ask::SaveJob)
            },
            None => fails(r, SemanticError::PageMissing),
        }
    }

    fn on_prepared(&mut self, result: &Json) -> (r: Result<Ask, SemanticError>)
        ensures
            old(self).prepared_moves(*final(self), result@, r),
    {
        if let Err(e) = runtime::page_prepared(&mut self.job, result) {
            return Err(e);
        }
        self.stage = Stage::Ticket;
        Ok(Ask::SaveJob)
    }

    pub open spec fn ticket_moves(self, after: Judging, r: Result<Ask, SemanticError>) -> bool {
        &&& after == (Judging { stage: Stage::Page, ..self })
        &&& r matches Ok(Ask::ReadPage(id)) && id@ == self.job.ticket->0@
    }

    fn on_ticket(&mut self) -> (r: Result<Ask, SemanticError>)
        requires
            old(self).job.ticket is Some,
        ensures
            old(self).ticket_moves(*final(self), r),
    {
        match &self.job.ticket {
            Some(ticket) => {
                let id = ticket.clone();
                self.stage = Stage::Page;
                Ok(Ask::ReadPage(id))
            },
            None => Err(SemanticError::OutOfTurn),
        }
    }

    /// A page for another Watch, version, generation or evaluator is refused. An
    /// evaluation that was stored is not made again.
    pub open spec fn page_moves(
        self,
        after: Judging,
        page: WatchPage,
        terms: Terms,
        r: Result<Ask, SemanticError>,
    ) -> bool {
        if !runtime::is_own_page(page, self.job, terms.pin) {
            fails(r, SemanticError::PageMismatch)
        } else if self.job.evaluation is Some {
            after == (Judging { stage: Stage::Evaluation, page: Some(page), ..self }) && proceeds(
                r,
                Ask::ReadEvaluation,
            )
        } else {
            after == (Judging { stage: Stage::Watch, page: Some(page), ..self }) && proceeds(
                r,
                Ask::ReadWatch,
            )
        }
    }

    fn on_page(&mut self, page: WatchPage, terms: &Terms) -> (r: Result<Ask, SemanticError>)
        ensures
            old(self).page_moves(*final(self), page, *terms, r),
    {
        if let Err(e) = runtime::check_page(&page, &self.job, &terms.pin) {
            return Err(e);
        }
        self.page = Some(page);
        if self.job.evaluation.is_some() {
            self.stage = Stage::Evaluation;
            Ok(Ask::ReadEvaluation)
        } else {
            self.stage = Stage::Watch;
            Ok(Ask::ReadWatch)
        }
    }

    /// The outcome is written, and the judgment is over.
    pub open spec fn writes(self, after: Judging, r: Result<Ask, SemanticError>) -> bool {
        &&& after == (Judging { stage: Stage::Written, job: after.job, ..self })
        &&& proceeds(r, Ask::SaveJob)
    }

    /// A definite refusal of the engine gives the page up; after any other failure
    /// everything is left as it is, to be found again.
    pub open spec fn refused_moves(
        self,
        after: Judging,
        failure: NativeFailure,
        terms: Terms,
        r: Result<Ask, SemanticError>,
    ) -> bool {
        if failure == NativeFailure::Ambiguous {
            fails(r, SemanticError::Unresolved) && after == self
        } else {
            self.writes(after, r) && runtime::gives_up(self.job, after.job, terms.config.limits)
        }
    }

    fn on_refused(&mut self, failure: NativeFailure, terms: &Terms) -> (r: Result<
        Ask,
        SemanticError,
    >)
        ensures
            old(self).refused_moves(*final(self), failure, *terms, r),
    {
        if !runtime::refused(&mut self.job, failure, &terms.config.limits) {
            return Err(SemanticError::Unresolved);
        }
        self.stage = Stage::Written;
        Ok(Ask::SaveJob)
    }

    /// No event data reaches an evaluator for a Watch that changed meanwhile, and
    /// none of a page with too many candidates.
    pub open spec fn watch_moves(
        self,
        after: Judging,
        rows: Datum,
        terms: Terms,
        r: Result<Ask, SemanticError>,
    ) -> bool {
        let page = self.page->0;
        let limits = terms.config.limits;
        if !runtime::still_armed(rows, self.job) {
            self.refused_moves(after, NativeFailure::VersionConflict, terms, r)
        } else if page.candidates@.len() > limits.candidates_per_page {
            self.writes(after, r) && runtime::weighed(
                self.job,
                after.job,
                PageCost::TooLarge,
                limits,
            )
        } else {
            match nexus::digest_of(page.condition@) {
                Some(digest) => {
                    &&& after == (Judging { stage: Stage::Count, request: after.request, ..self })
                    &&& after.request@ == super::request_value(terms.config, page, digest)
                    &&& proceeds(r, Ask::Count)
                },
                None => fails(r, SemanticError::Undigestible),
            }
        }
    }

    fn on_watch(&mut self, rows: &Json, terms: &Terms) -> (r: Result<Ask, SemanticError>)
        requires
            old(self).wf(*terms),
            old(self).stage == Stage::Watch,
        ensures
            old(self).watch_moves(*final(self), rows@, *terms, r),
    {
        if runtime::check_armed(rows, &self.job).is_err() {
            return self.on_refused(NativeFailure::VersionConflict, terms);
        }
        let page = match &self.page {
            Some(page) => page,
            None => return Err(SemanticError::OutOfTurn),
        };
        if page.candidates.len() > terms.config.limits.candidates_per_page {
            let _cost = runtime::weigh_page(
                &mut self.job,
                page,
                0,
                &self.pass,
                &terms.config.limits,
                true,
            );
            self.stage = Stage::Written;
            return Ok(Ask::SaveJob);
        }
        match super::request(&terms.config, page) {
            Ok(request) => {
                self.request = request;
                self.stage = Stage::Count;
                Ok(Ask::Count)
            },
            Err(e) => Err(e),
        }
    }

    /// What the page costs in this pass.
    pub open spec fn cost(self, weight: usize, in_time: bool, terms: Terms) -> PageCost {
        runtime::page_cost(
            self.page->0.candidates@.len(),
            weight,
            self.pass,
            terms.config.limits,
            in_time,
        )
    }

    /// The attempt is written before anything is spent on it.
    pub open spec fn count_moves(
        self,
        after: Judging,
        weight: usize,
        in_time: bool,
        terms: Terms,
        r: Result<Ask, SemanticError>,
    ) -> bool {
        let cost = self.cost(weight, in_time, terms);
        &&& runtime::weighed(self.job, after.job, cost, terms.config.limits)
        &&& if cost == PageCost::Fits {
            after == (Judging {
                stage: Stage::Reserved,
                job: after.job,
                tokens: weight,
                ..self
            }) && proceeds(r, Ask::SaveJob)
        } else {
            self.writes(after, r)
        }
    }

    fn on_count(&mut self, bytes: usize, tokens: usize, in_time: bool, terms: &Terms) -> (r: Result<
        Ask,
        SemanticError,
    >)
        requires
            old(self).wf(*terms),
            old(self).stage == Stage::Count,
        ensures
            old(self).count_moves(*final(self), weight_of(bytes, tokens), in_time, *terms, r),
            final(self).wf(*terms),
    {
        let weight: usize = if bytes <= MAX_REQUEST_BYTES {
            tokens
        } else {
            usize::MAX
        };
        let cost = match &self.page {
            Some(page) => runtime::weigh_page(
                &mut self.job,
                page,
                weight,
                &self.pass,
                &terms.config.limits,
                in_time,
            ),
            None => {
                assert(false);
                return Err(SemanticError::OutOfTurn);
            },
        };
        match cost {
            PageCost::Fits => {
                self.tokens = weight;
                self.stage = Stage::Reserved;
            },
            _ => {
                self.stage = Stage::Written;
            },
        }
        Ok(Ask::SaveJob)
    }

    /// The evaluation is stored under the key of its attempt, bound to the Watch
    /// and everything that changed.
    pub open spec fn stores(
        self,
        after: Judging,
        judgments: Seq<WatchJudgment>,
        terms: Terms,
        r: Result<Ask, SemanticError>,
    ) -> bool {
        let job = self.job;
        if job.epoch > MAX_SAFE_INTEGER {
            fails(r, SemanticError::Undigestible)
        } else {
            &&& after == (Judging { stage: Stage::Store, ..self })
            &&& r matches Ok(Ask::Store { key, judgments: list, sources }) && list@ == judgments
                && nexus::digest_of(
                runtime::evaluation_value(
                    job.ticket->0@,
                    terms.pin,
                    job.epoch,
                    job.attempts,
                ),
            ) == Some(key@) && text::views(sources@) == seq![job.watch@] + runtime::changed(
                self.page->0.candidates@,
            )
        }
    }

    fn store(&mut self, judgments: Vec<WatchJudgment>, terms: &Terms) -> (r: Result<
        Ask,
        SemanticError,
    >)
        requires
            old(self).job.ticket is Some,
            old(self).page is Some,
        ensures
            old(self).stores(*final(self), judgments@, *terms, r),
    {
        if self.job.epoch > MAX_SAFE_INTEGER {
            return Err(SemanticError::Undigestible);
        }
        match (&self.job.ticket, &self.page) {
            (Some(ticket), Some(page)) => {
                let key = runtime::evaluation_key(
                    ticket.as_str(),
                    &terms.pin,
                    self.job.epoch,
                    self.job.attempts,
                );
                let sources = runtime::sources(self.job.watch.as_str(), page);
                self.stage = Stage::Store;
                Ok(Ask::Store { key, judgments, sources })
            },
            _ => Err(SemanticError::OutOfTurn),
        }
    }

    /// The evaluator is called only once the attempt is written and its tokens are
    /// charged; a page without candidates needs no call.
    pub open spec fn reserved_moves(
        self,
        after: Judging,
        terms: Terms,
        r: Result<Ask, SemanticError>,
    ) -> bool {
        if self.page->0.candidates@.len() == 0 {
            self.stores(after, Seq::empty(), terms, r)
        } else {
            &&& after == (Judging {
                stage: Stage::Reply,
                pass: (SemanticPass {
                    calls: (self.pass.calls + 1) as usize,
                    input_tokens: (self.pass.input_tokens + self.tokens) as usize,
                    ..self.pass
                }),
                ..self
            })
            &&& proceeds(r, Ask::Evaluate)
        }
    }

    fn on_reserved(&mut self, terms: &Terms) -> (r: Result<Ask, SemanticError>)
        requires
            old(self).wf(*terms),
            old(self).stage == Stage::Reserved,
        ensures
            old(self).reserved_moves(*final(self), *terms, r),
            r is Ok ==> final(self).wf(*terms),
    {
        let empty = match &self.page {
            Some(page) => page.candidates.len() == 0,
            None => return Err(SemanticError::OutOfTurn),
        };
        if empty {
            let none: Vec<WatchJudgment> = Vec::new();
            assert(none@ =~= Seq::empty());
            return self.store(none, terms);
        }
        runtime::charge_call(&mut self.pass, self.tokens, &terms.config.limits);
        self.stage = Stage::Reply;
        Ok(Ask::Evaluate)
    }

    /// Whatever the evaluator did, a judgment of every candidate is stored; where
    /// it failed, one that claims no coverage.
    pub open spec fn reply_moves(
        self,
        after: Judging,
        evaluated: Evaluated,
        terms: Terms,
        r: Result<Ask, SemanticError>,
    ) -> bool {
        exists|settled: Judging, judgments: Vec<WatchJudgment>|
            settled == (Judging { job: settled.job, ..self }) && #[trigger] runtime::settled(
                self.job,
                settled.job,
                self.page->0,
                evaluated,
                judgments,
            ) && settled.stores(after, judgments@, terms, r)
    }

    fn on_reply(&mut self, evaluated: Evaluated, terms: &Terms) -> (r: Result<Ask, SemanticError>)
        requires
            old(self).wf(*terms),
            old(self).stage == Stage::Reply,
        ensures
            old(self).reply_moves(*final(self), evaluated, *terms, r),
            r is Ok ==> final(self).wf(*terms),
    {
        let judgments = match &self.page {
            Some(page) => runtime::settle_judgments(&mut self.job, page, evaluated),
            None => return Err(SemanticError::OutOfTurn),
        };
        let ghost settled = *self;
        assert(runtime::settled(
            old(self).job,
            settled.job,
            old(self).page->0,
            evaluated,
            judgments,
        ));
        let r = self.store(judgments, terms);
        assert(settled.stores(*self, judgments@, *terms, r));
        r
    }

    /// The configuration is read once more before the commit.
    pub open spec fn configuration_moves(
        self,
        after: Judging,
        config: AttentionConfig,
        terms: Terms,
        r: Result<Ask, SemanticError>,
    ) -> bool {
        if terms.native.scope.same_as(config.scope) && terms.native.pins.same_as(config.pins) {
            &&& after == (Judging { stage: Stage::Commit, ..self })
            &&& r matches Ok(Ask::Commit(id)) && id@ == self.job.ticket->0@
        } else {
            fails(r, SemanticError::ConfigurationChanged)
        }
    }

    fn on_configuration(&mut self, config: &AttentionConfig, terms: &Terms) -> (r: Result<
        Ask,
        SemanticError,
    >)
        requires
            old(self).job.ticket is Some,
        ensures
            old(self).configuration_moves(*final(self), *config, *terms, r),
    {
        if let Err(e) = runtime::check_unchanged(&terms.native, config) {
            return Err(e);
        }
        match &self.job.ticket {
            Some(ticket) => {
                let id = ticket.clone();
                self.stage = Stage::Commit;
                Ok(Ask::Commit(id))
            },
            None => Err(SemanticError::OutOfTurn),
        }
    }

    /// What the evaluator was heard to do.
    pub open spec fn heard(self, told: Told, terms: Terms) -> Option<Evaluated> {
        match told {
            Told::Reply { raw, tokens, reply } => Some(
                if reply_taken(
                    raw@,
                    tokens,
                    reply,
                    self.page->0,
                    terms.config.limits.output_tokens,
                ) {
                    Evaluated::Judged(reply->0.judgments)
                } else {
                    Evaluated::Invalid
                },
            ),
            Told::Unavailable => Some(Evaluated::Unavailable),
            Told::Panicked => Some(Evaluated::Panicked),
            Told::TimedOut => Some(Evaluated::TimedOut),
            _ => None,
        }
    }

    /// The engine was asked for something.
    pub open spec fn asked_engine(self) -> bool {
        self.stage == Stage::Prepare || self.stage == Stage::Page || self.stage
            == Stage::Evaluation || self.stage == Stage::Store || self.stage
            == Stage::Configuration || self.stage == Stage::Commit
    }

    /// What one report leads to.
    pub open spec fn moves(
        self,
        after: Judging,
        told: Told,
        terms: Terms,
        now: u64,
        r: Result<Ask, SemanticError>,
    ) -> bool {
        if self.asked_engine() && told is Refused {
            self.refused_moves(after, told->Refused_0, terms, r)
        } else if self.stage == Stage::Reply && self.heard(told, terms) is Some {
            self.reply_moves(after, self.heard(told, terms)->0, terms, r)
        } else {
            match (self.stage, told) {
                (Stage::Prepare, Told::Prepared(result)) => self.prepared_moves(after, result@, r),
                (Stage::Ticket, Told::Saved) => self.ticket_moves(after, r),
                (Stage::Page, Told::Page(page)) => self.page_moves(after, page, terms, r),
                (Stage::Evaluation, Told::Evaluation) => after == (Judging {
                    stage: Stage::Configuration,
                    ..self
                }) && proceeds(r, Ask::ReadConfiguration),
                (Stage::Watch, Told::Watch(rows)) => self.watch_moves(after, rows@, terms, r),
                (Stage::Count, Told::Counted { bytes, tokens, in_time }) => self.count_moves(
                    after,
                    weight_of(bytes, tokens),
                    in_time,
                    terms,
                    r,
                ),
                (Stage::Reserved, Told::Saved) => self.reserved_moves(after, terms, r),
                (Stage::Store, Told::Stored(pin)) => after == (Judging {
                    stage: Stage::Stored,
                    job: (SemanticJob { evaluation: Some(pin), ..self.job }),
                    ..self
                }) && proceeds(r, Ask::SaveJob),
                (Stage::Stored, Told::Saved) => after == (Judging {
                    stage: Stage::Configuration,
                    ..self
                }) && proceeds(r, Ask::ReadConfiguration),
                (Stage::Configuration, Told::Configuration(config)) => self.configuration_moves(
                    after,
                    config,
                    terms,
                    r,
                ),
                (Stage::Commit, Told::Committed(result)) => self.writes(after, r)
                    && runtime::commit_taken(
                    self.job,
                    after.job,
                    result@,
                    now,
                    terms.config.limits,
                ),
                (Stage::Written, Told::Saved) => after == (Judging { stage: Stage::Over, ..self })
                    && proceeds(r, Ask::Stop),
                _ => after == self && fails(r, SemanticError::OutOfTurn),
            }
        }
    }

    /// Takes a report over, and says what the host does next.
    pub fn step(&mut self, told: Told, terms: &Terms, now: u64) -> (r: Result<Ask, SemanticError>)
        requires
            old(self).wf(*terms),
            now <= u64::MAX - MAX_DELAY_MS,
        ensures
            old(self).moves(*final(self), told, *terms, now, r),
            r is Ok ==> final(self).wf(*terms),
    {
        let asked = match self.stage {
            Stage::Prepare | Stage::Page | Stage::Evaluation | Stage::Store | Stage::Configuration
            | Stage::Commit => true,
            _ => false,
        };
        match (self.stage, told) {
            (Stage::Prepare, Told::Prepared(result)) => self.on_prepared(&result),
            (Stage::Ticket, Told::Saved) => self.on_ticket(),
            (Stage::Page, Told::Page(page)) => self.on_page(page, terms),
            (Stage::Evaluation, Told::Evaluation) => {
                self.stage = Stage::Configuration;
                Ok(Ask::ReadConfiguration)
            },
            (Stage::Watch, Told::Watch(rows)) => self.on_watch(&rows, terms),
            (Stage::Count, Told::Counted { bytes, tokens, in_time }) => self.on_count(
                bytes,
                tokens,
                in_time,
                terms,
            ),
            (Stage::Reserved, Told::Saved) => self.on_reserved(terms),
            (Stage::Reply, Told::Reply { raw, tokens, reply }) => {
                let evaluated = match &self.page {
                    Some(page) => read_reply(
                        raw.as_str(),
                        tokens,
                        reply,
                        page,
                        terms.config.limits.output_tokens,
                    ),
                    None => return Err(SemanticError::OutOfTurn),
                };
                self.on_reply(evaluated, terms)
            },
            (Stage::Reply, Told::Unavailable) => self.on_reply(Evaluated::Unavailable, terms),
            (Stage::Reply, Told::Panicked) => self.on_reply(Evaluated::Panicked, terms),
            (Stage::Reply, Told::TimedOut) => self.on_reply(Evaluated::TimedOut, terms),
            (Stage::Store, Told::Stored(pin)) => {
                self.job.evaluation = Some(pin);
                self.stage = Stage::Stored;
                Ok(Ask::SaveJob)
            },
            (Stage::Stored, Told::Saved) => {
                self.stage = Stage::Configuration;
                Ok(Ask::ReadConfiguration)
            },
            (Stage::Configuration, Told::Configuration(config)) => self.on_configuration(
                &config,
                terms,
            ),
            (Stage::Commit, Told::Committed(result)) => {
                runtime::committed(&mut self.job, &result, now, &terms.config.limits);
                self.stage = Stage::Written;
                Ok(Ask::SaveJob)
            },
            (Stage::Written, Told::Saved) => {
                self.stage = Stage::Over;
                Ok(Ask::Stop)
            },
            (_, Told::Refused(failure)) => if asked {
                self.on_refused(failure, terms)
            } else {
                Err(SemanticError::OutOfTurn)
            },
            _ => Err(SemanticError::OutOfTurn),
        }
    }
}

// ---------------------------------------------------------------------------
// Laws
// ---------------------------------------------------------------------------

impl Stage {
    /// How far the end is, at most.
    pub open spec fn rank(self) -> nat {
        match self {
            Stage::Prepare => 12,
            Stage::Ticket => 11,
            Stage::Page => 10,
            Stage::Watch => 9,
            Stage::Count => 8,
            Stage::Reserved => 7,
            Stage::Reply => 6,
            Stage::Store => 5,
            Stage::Stored => 4,
            Stage::Evaluation => 4,
            Stage::Configuration => 3,
            Stage::Commit => 2,
            Stage::Written => 1,
            Stage::Over => 0,
        }
    }
}

/// Every judgment comes to an end, after at most twelve reports.
pub proof fn judgments_come_to_an_end(
    before: Judging,
    after: Judging,
    told: Told,
    terms: Terms,
    now: u64,
    r: Result<Ask, SemanticError>,
)
    requires
        before.moves(after, told, terms, now, r),
        r is Ok,
    ensures
        after.stage.rank() < before.stage.rank() <= 12,
{
}

/// The way to an evaluator is the same for every page: its Watch is still armed
/// as the page has it, the page fits what is left of the pass, and the attempt is
/// written first. What is charged stays within the pass's tokens.
pub proof fn evaluators_are_called_last(
    before: Judging,
    after: Judging,
    told: Told,
    terms: Terms,
    now: u64,
    r: Result<Ask, SemanticError>,
)
    requires
        before.wf(terms),
        before.moves(after, told, terms, now, r),
        r is Ok,
    ensures
        after.stage == Stage::Count ==> before.stage == Stage::Watch && (told matches Told::Watch(
            rows,
        ) && runtime::still_armed(rows@, before.job)),
        after.stage == Stage::Reserved ==> before.stage == Stage::Count && (told
            matches Told::Counted { bytes, tokens, in_time } && before.cost(
            weight_of(bytes, tokens),
            in_time,
            terms,
        ) == PageCost::Fits) && after.job.attempts == before.job.attempts + 1,
        proceeds(r, Ask::Evaluate) ==> before.stage == Stage::Reserved && told is Saved
            && after.pass.input_tokens == before.pass.input_tokens + before.tokens
            && after.pass.input_tokens <= terms.config.limits.pass_input_tokens,
        after.pass == before.pass || proceeds(r, Ask::Evaluate),
{
}

/// Nothing is committed that was not stored before, and nothing once the
/// configuration has changed.
pub proof fn commits_follow_the_store(
    before: Judging,
    after: Judging,
    told: Told,
    terms: Terms,
    now: u64,
    r: Result<Ask, SemanticError>,
)
    requires
        before.wf(terms),
        before.moves(after, told, terms, now, r),
        r matches Ok(Ask::Commit(_)),
    ensures
        before.job.evaluation is Some,
        after.job.evaluation == before.job.evaluation,
        told matches Told::Configuration(config) && terms.native.scope.same_as(config.scope)
            && terms.native.pins.same_as(config.pins),
{
}

/// As long as it is not known what the engine did, the stored evaluation and all
/// else of the work is left as it is.
pub proof fn unresolved_work_is_kept(
    before: Judging,
    after: Judging,
    terms: Terms,
    now: u64,
    r: Result<Ask, SemanticError>,
)
    requires
        before.moves(after, Told::Refused(NativeFailure::Ambiguous), terms, now, r),
    ensures
        r is Err,
        after == before,
{
}

} // verus!
