//! Typed read observations. Retrieval, the existence of records and projected
//! belief are different questions; no count of rows stands in for belief.

use vstd::prelude::*;

use crate::json::{Datum, Json};
use crate::kip::{self, ClauseShape, CommandShape, EnvelopeStatus, FindShape, ProjectionShape, QueryShape, ReadEnvelope, Standing};
use crate::text;

verus! {

/// Why a read is not an observation.
#[derive(Clone, Copy, Debug, PartialEq, Eq, Structural)]
pub enum ProbeError {
    EnvelopeFailed,
    OperationFailed,
    NoResult,
    NoHits,
    NoSearchContext,
    HitWithoutElement,
    CoverageNotBoolean,
    InvalidRequest,
    NotOneOperation,
    Unparsed,
    NotFullProjection,
    NotDirectProjection,
    AmbiguousProjection,
    BeliefWithoutRows,
    NotOneProjection,
    InvalidProjection,
    InconsistentProjection,
    FindWithoutRows,
    NotOneCount,
    CountNotInteger,
    /// The count does not fit the machine.
    CountTooLarge,
    WrongOperation,
}

impl ProbeError {
    /// The words of the error, before what it quotes.
    pub open spec fn words(self) -> Seq<char> {
        match self {
            ProbeError::EnvelopeFailed => "read envelope did not succeed: "@,
            ProbeError::OperationFailed => "read operation did not succeed: "@,
            ProbeError::NoResult => "read operation returned no result"@,
            ProbeError::NoHits => "SEARCH result is missing its hits array"@,
            ProbeError::NoSearchContext => "SEARCH result is missing its search_context"@,
            ProbeError::HitWithoutElement => "SEARCH hit is missing its matching element"@,
            ProbeError::CoverageNotBoolean => "SEARCH exhaustive coverage must be a boolean"@,
            ProbeError::InvalidRequest => ""@,
            ProbeError::NotOneOperation => "one expectation requires exactly one read operation"@,
            ProbeError::Unparsed => ""@,
            ProbeError::NotFullProjection =>
                "a belief expectation must return one full BELIEF projection"@,
            ProbeError::NotDirectProjection =>
                "a belief expectation must directly project its BELIEF variable"@,
            ProbeError::AmbiguousProjection =>
                "BELIEF probe has additional candidate rows; its target is ambiguous"@,
            ProbeError::BeliefWithoutRows => "BELIEF query did not return rows"@,
            ProbeError::NotOneProjection =>
                "BELIEF query did not return one unambiguous projection; state is unknown"@,
            ProbeError::InvalidProjection => ""@,
            ProbeError::InconsistentProjection =>
                "BELIEF projection is missing its basis or carries inconsistent final status"@,
            ProbeError::FindWithoutRows => "raw FIND query did not return rows"@,
            ProbeError::NotOneCount => "COUNT query did not return one count"@,
            ProbeError::CountNotInteger => "COUNT query did not return a nonnegative integer"@,
            ProbeError::CountTooLarge => "out of range integral type conversion attempted"@,
            ProbeError::WrongOperation =>
                "an existence expectation requires raw FIND; a truth expectation requires BELIEF"@,
        }
    }

    fn text(&self) -> (r: &'static str)
        ensures
            r@ == self.words(),
    {
        match self {
            ProbeError::EnvelopeFailed => "read envelope did not succeed: ",
            ProbeError::OperationFailed => "read operation did not succeed: ",
            ProbeError::NoResult => "read operation returned no result",
            ProbeError::NoHits => "SEARCH result is missing its hits array",
            ProbeError::NoSearchContext => "SEARCH result is missing its search_context",
            ProbeError::HitWithoutElement => "SEARCH hit is missing its matching element",
            ProbeError::CoverageNotBoolean => "SEARCH exhaustive coverage must be a boolean",
            ProbeError::InvalidRequest => "",
            ProbeError::NotOneOperation => "one expectation requires exactly one read operation",
            ProbeError::Unparsed => "",
            ProbeError::NotFullProjection =>
                "a belief expectation must return one full BELIEF projection",
            ProbeError::NotDirectProjection =>
                "a belief expectation must directly project its BELIEF variable",
            ProbeError::AmbiguousProjection =>
                "BELIEF probe has additional candidate rows; its target is ambiguous",
            ProbeError::BeliefWithoutRows => "BELIEF query did not return rows",
            ProbeError::NotOneProjection =>
                "BELIEF query did not return one unambiguous projection; state is unknown",
            ProbeError::InvalidProjection => "",
            ProbeError::InconsistentProjection =>
                "BELIEF projection is missing its basis or carries inconsistent final status",
            ProbeError::FindWithoutRows => "raw FIND query did not return rows",
            ProbeError::NotOneCount => "COUNT query did not return one count",
            ProbeError::CountNotInteger => "COUNT query did not return a nonnegative integer",
            ProbeError::CountTooLarge => "out of range integral type conversion attempted",
            ProbeError::WrongOperation =>
                "an existence expectation requires raw FIND; a truth expectation requires BELIEF",
        }
    }

    /// What the error quotes: the response or the operation that failed, or the
    /// engine's own error on the request, on the operation or on the row.
    pub open spec fn quoted(self, request: Seq<char>, response: ReadEnvelope) -> Seq<char> {
        match self {
            ProbeError::EnvelopeFailed => response.shown@,
            ProbeError::OperationFailed => if response.results@.len() > 0 {
                response.results@[0].shown@
            } else {
                Seq::empty()
            },
            ProbeError::InvalidRequest => match kip::request_read(request) {
                Err(why) => why,
                Ok(_) => Seq::empty(),
            },
            ProbeError::Unparsed => match kip::request_read(request) {
                Ok(list) => if list.len() > 0 && list[0] is Err {
                    list[0]->Err_0
                } else {
                    Seq::empty()
                },
                Err(_) => Seq::empty(),
            },
            ProbeError::InvalidProjection => match single_result(response) {
                Ok(Datum::Array(rows)) => if rows.len() > 0 && kip::projection_read(
                    rows[0],
                ) is Err {
                    kip::projection_read(rows[0])->Err_0
                } else {
                    Seq::empty()
                },
                _ => Seq::empty(),
            },
            _ => Seq::empty(),
        }
    }

    fn quote(&self, request: &str, response: &ReadEnvelope) -> (r: String)
        ensures
            r@ == self.quoted(request@, *response),
    {
        match self {
            ProbeError::EnvelopeFailed => response.shown.clone(),
            ProbeError::OperationFailed => if response.results.len() > 0 {
                response.results[0].shown.clone()
            } else {
                String::new()
            },
            ProbeError::InvalidRequest => match kip::parse_request(request) {
                Err(why) => why,
                Ok(_) => String::new(),
            },
            ProbeError::Unparsed => match kip::parse_request(request) {
                Ok(list) => {
                    if list.len() > 0 {
                        assert(kip::parsed_view(list@)[0] == match list@[0] {
                            Ok(shape) => Ok::<kip::Operation, Seq<char>>(shape@),
                            Err(why) => Err::<kip::Operation, Seq<char>>(why@),
                        });
                        if let Err(why) = &list[0] {
                            return why.clone();
                        }
                    }
                    String::new()
                },
                Err(_) => String::new(),
            },
            ProbeError::InvalidProjection => {
                if let Ok(result) = single_read_result(response) {
                    if let Some(rows) = result.as_array() {
                        if rows.len() > 0 {
                            assert(result@->Array_0[0] == rows@[0]@);
                            if let Err(why) = kip::parse_projection(&rows[0]) {
                                return why;
                            }
                        }
                    }
                }
                String::new()
            },
            _ => String::new(),
        }
    }

    /// What is said of the error, of that request and that response.
    pub fn message(&self, request: &str, response: &ReadEnvelope) -> (r: String)
        ensures
            r@ == self.words() + self.quoted(request@, *response),
    {
        let mut out = self.text().to_owned();
        let quote = self.quote(request, response);
        out.append(quote.as_str());
        out
    }
}

/// The value of the one operation of a read that succeeded in full.
pub open spec fn single_result(response: ReadEnvelope) -> Result<Datum, ProbeError> {
    if !response.succeeded() || response.results@.len() != 1 {
        Err(ProbeError::EnvelopeFailed)
    } else if response.results@[0].status != EnvelopeStatus::Succeeded
        || response.results@[0].error {
        Err(ProbeError::OperationFailed)
    } else {
        match response.results@[0].result {
            Some(value) => Ok(value@),
            None => Err(ProbeError::NoResult),
        }
    }
}

/// The successful value of one read operation. Partial envelopes and failed
/// operations are not empty successful reads.
pub fn single_read_result(response: &ReadEnvelope) -> (r: Result<&Json, ProbeError>)
    ensures
        match r {
            Ok(value) => single_result(*response) == Ok::<Datum, ProbeError>(value@),
            Err(e) => single_result(*response) == Err::<Datum, ProbeError>(e),
        },
{
    if !text::same(response.kip.as_str(), "2.0") || response.status != EnvelopeStatus::Succeeded
        || response.error || response.results.len() != 1 {
        return Err(ProbeError::EnvelopeFailed);
    }
    let operation = &response.results[0];
    if operation.status != EnvelopeStatus::Succeeded || operation.error {
        return Err(ProbeError::OperationFailed);
    }
    match &operation.result {
        Some(value) => Ok(value),
        None => Err(ProbeError::NoResult),
    }
}

/// What a search returned, without any epistemic meaning.
#[derive(Debug)]
pub struct SearchObservation<'a> {
    pub hits: &'a Vec<Json>,
    /// Missing coverage is unknown, not a claim that the index was complete. A
    /// page that remains always makes the observation non-exhaustive.
    pub exhaustive: Option<bool>,
}

/// The hit names the element that it holds.
pub open spec fn hit_matches(hit: Datum) -> bool {
    &&& hit.text_at("id"@) is Some
    &&& hit.at("element"@) is Object
    &&& hit.at("element"@).text_at("id"@) == hit.text_at("id"@)
}

/// The hits of a search result and its coverage, or what is wrong with it.
pub open spec fn search_of(response: ReadEnvelope) -> Result<
    (Seq<Datum>, Option<bool>),
    ProbeError,
> {
    match single_result(response) {
        Err(e) => Err(e),
        Ok(result) => if !(result.at("hits"@) is Array) {
            Err(ProbeError::NoHits)
        } else if !(result.at("search_context"@) is Object) {
            Err(ProbeError::NoSearchContext)
        } else if exists|i: int|
            0 <= i < result.at("hits"@)->Array_0.len() && !hit_matches(
                #[trigger] result.at("hits"@)->Array_0[i],
            ) {
            Err(ProbeError::HitWithoutElement)
        } else {
            match result.get("exhaustive"@) {
                None => Ok(
                    (
                        result.at("hits"@)->Array_0,
                        if response.more() {
                            Some(false)
                        } else {
                            None
                        },
                    ),
                ),
                Some(Datum::Bool(b)) => Ok(
                    (
                        result.at("hits"@)->Array_0,
                        if response.more() {
                            Some(false)
                        } else {
                            Some(b)
                        },
                    ),
                ),
                Some(_) => Err(ProbeError::CoverageNotBoolean),
            }
        },
    }
}

fn check_hit(hit: &Json) -> (r: bool)
    ensures
        r == hit_matches(hit@),
{
    let id = match hit.text_at("id") {
        Some(id) => id,
        None => return false,
    };
    match hit.get("element") {
        Some(element) => element.is_object() && match element.text_at("id") {
            Some(own) => text::same(own, id),
            None => false,
        },
        None => false,
    }
}

/// Reads the container of a search, retaining unknown coverage. Even an
/// exhaustive empty search says nothing about the truth of a claim.
pub fn search_observation(response: &ReadEnvelope) -> (r: Result<
    SearchObservation<'_>,
    ProbeError,
>)
    ensures
        match r {
            Ok(o) => search_of(*response) == Ok::<(Seq<Datum>, Option<bool>), ProbeError>(
                (crate::json::items_view(o.hits@), o.exhaustive),
            ),
            Err(e) => search_of(*response) == Err::<(Seq<Datum>, Option<bool>), ProbeError>(e),
        },
{
    let result = match single_read_result(response) {
        Ok(result) => result,
        Err(e) => return Err(e),
    };
    let hits = match result.get("hits") {
        Some(hits) => match hits.as_array() {
            Some(hits) => hits,
            None => return Err(ProbeError::NoHits),
        },
        None => return Err(ProbeError::NoHits),
    };
    let in_context = match result.get("search_context") {
        Some(context) => context.is_object(),
        None => false,
    };
    if !in_context {
        return Err(ProbeError::NoSearchContext);
    }
    let ghost all = result@.at("hits"@)->Array_0;
    let mut i: usize = 0;
    while i < hits.len()
        invariant
            i <= hits.len(),
            all == crate::json::items_view(hits@),
            single_result(*response) == Ok::<Datum, ProbeError>(result@),
            all == result@.at("hits"@)->Array_0,
            result@.at("hits"@) is Array,
            result@.at("search_context"@) is Object,
            forall|k: int| 0 <= k < i ==> hit_matches(#[trigger] all[k]),
        decreases hits.len() - i,
    {
        assert(all[i as int] == hits@[i as int]@);
        if !check_hit(&hits[i]) {
            return Err(ProbeError::HitWithoutElement);
        }
        i = i + 1;
    }
    let exhaustive = match result.get("exhaustive") {
        None => None,
        Some(Json::Bool(b)) => Some(*b),
        Some(_) => return Err(ProbeError::CoverageNotBoolean),
    };
    Ok(
        SearchObservation {
            hits,
            exhaustive: if response.has_cursor() {
                Some(false)
            } else {
                exhaustive
            },
        },
    )
}

/// What one read observed.
#[derive(Debug)]
pub enum ProbeObservation {
    /// An explicit raw read: rows of records, never accepted belief.
    Rows { count: usize, complete: bool },
    /// A search has no verdict on truth, even when it returns one match.
    Search { hit_count: usize },
    /// The engine's full projection of one Proposition: the row that holds all of
    /// it, and what the library reads there.
    Belief { projection: ProjectionShape, row: Json },
}

impl ProbeObservation {
    pub fn hit_count(&self) -> (n: usize)
        ensures
            n == match *self {
                ProbeObservation::Rows { count, .. } => count,
                ProbeObservation::Search { hit_count } => hit_count,
                ProbeObservation::Belief { .. } => 1,
            },
    {
        match self {
            ProbeObservation::Rows { count, .. } => *count,
            ProbeObservation::Search { hit_count } => *hit_count,
            ProbeObservation::Belief { .. } => 1,
        }
    }

    /// Whether an explicitly raw read returned records.
    pub open spec fn presence(self) -> Option<bool> {
        match self {
            ProbeObservation::Rows { count, complete } => if count > 0 {
                Some(true)
            } else if complete {
                Some(false)
            } else {
                None
            },
            _ => None,
        }
    }

    /// Whether an explicitly raw read returned records. This is no claim about
    /// the accepted truth of any Proposition.
    pub fn raw_presence(&self) -> (r: Option<bool>)
        ensures
            r == self.presence(),
    {
        match self {
            ProbeObservation::Rows { count, complete } => if *count > 0 || *complete {
                Some(*count > 0)
            } else {
                None
            },
            _ => None,
        }
    }

    /// The verdict of a projection, where it has one.
    pub open spec fn verdict(self) -> Option<bool> {
        match self {
            ProbeObservation::Belief { projection, .. } => match projection.status {
                Standing::Accepted => Some(true),
                Standing::Rejected => Some(false),
                _ => None,
            },
            _ => None,
        }
    }

    /// Only the engine's final status decides this. Neither the existence of a
    /// record nor a search supplies a verdict.
    pub fn belief_holds(&self) -> (r: Option<bool>)
        ensures
            r == self.verdict(),
    {
        match self {
            ProbeObservation::Belief { projection, .. } => match projection.status {
                Standing::Accepted => Some(true),
                Standing::Rejected => Some(false),
                _ => None,
            },
            _ => None,
        }
    }
}

// ---------------------------------------------------------------------------
// Which question an operation asks
// ---------------------------------------------------------------------------

/// The clause, or one inside it, projects belief.
pub open spec fn projects_belief(clause: kip::Clause) -> bool
    decreases clause,
{
    match clause {
        kip::Clause::Belief(_) => true,
        kip::Clause::BeliefSlot => true,
        kip::Clause::Group(clauses) => exists|i: int|
            0 <= i < clauses.len() && projects_belief(#[trigger] clauses[i]),
        kip::Clause::Other => false,
    }
}

pub open spec fn any_belief(clauses: Seq<kip::Clause>) -> bool {
    exists|i: int| 0 <= i < clauses.len() && projects_belief(#[trigger] clauses[i])
}

/// A clause of its own binds that variable to a projection of belief.
pub open spec fn binds_belief(clauses: Seq<kip::Clause>, variable: Seq<char>) -> bool {
    exists|i: int|
        0 <= i < clauses.len() && #[trigger] clauses[i] == kip::Clause::Belief(variable)
}

fn has_belief(clause: &ClauseShape) -> (r: bool)
    ensures
        r == projects_belief(clause@),
    decreases clause,
{
    match clause {
        ClauseShape::Belief(_) => true,
        ClauseShape::BeliefSlot => true,
        ClauseShape::Group(clauses) => {
            let ghost all = clause@->Group_0;
            let mut i: usize = 0;
            while i < clauses.len()
                invariant
                    i <= clauses.len(),
                    *clause == ClauseShape::Group(*clauses),
                    all == clause@->Group_0,
                    forall|k: int| 0 <= k < i ==> !projects_belief(#[trigger] all[k]),
                decreases clauses.len() - i,
            {
                proof {
                    assert(decreases_to!(*clause => clause->Group_0));
                    assert(decreases_to!(clause->Group_0 => clause->Group_0@));
                    assert(decreases_to!(clause->Group_0@ => clause->Group_0@[i as int]));
                }
                assert(all[i as int] == clauses@[i as int]@);
                if has_belief(&clauses[i]) {
                    return true;
                }
                i = i + 1;
            }
            false
        },
        ClauseShape::Other => false,
    }
}

fn has_any_belief(clauses: &Vec<ClauseShape>) -> (r: bool)
    ensures
        r == any_belief(kip::clauses_view(clauses@)),
{
    let ghost all = kip::clauses_view(clauses@);
    let mut i: usize = 0;
    while i < clauses.len()
        invariant
            i <= clauses.len(),
            all == kip::clauses_view(clauses@),
            forall|k: int| 0 <= k < i ==> !projects_belief(#[trigger] all[k]),
        decreases clauses.len() - i,
    {
        assert(all[i as int] == clauses@[i as int]@);
        if has_belief(&clauses[i]) {
            return true;
        }
        i = i + 1;
    }
    false
}

/// Whether a clause of its own binds that variable to a projection of belief.
pub fn belief_bound(clauses: &Vec<ClauseShape>, variable: &str) -> (r: bool)
    ensures
        r == binds_belief(kip::clauses_view(clauses@), variable@),
{
    let ghost all = kip::clauses_view(clauses@);
    let mut i: usize = 0;
    while i < clauses.len()
        invariant
            i <= clauses.len(),
            all == kip::clauses_view(clauses@),
            forall|k: int| 0 <= k < i ==> #[trigger] all[k] != kip::Clause::Belief(variable@),
        decreases clauses.len() - i,
    {
        assert(all[i as int] == clauses@[i as int]@);
        if let ClauseShape::Belief(own) = &clauses[i] {
            if text::same(own.as_str(), variable) {
                return true;
            }
        }
        i = i + 1;
    }
    false
}

/// What an observation says, through views.
pub enum Observed {
    Rows(nat, bool),
    Search(nat),
    Belief(kip::Projection, Datum),
}

impl View for ProbeObservation {
    type V = Observed;

    open spec fn view(&self) -> Observed {
        match self {
            ProbeObservation::Rows { count, complete } => Observed::Rows(*count as nat, *complete),
            ProbeObservation::Search { hit_count } => Observed::Search(*hit_count as nat),
            ProbeObservation::Belief { projection, row } => Observed::Belief(projection@, row@),
        }
    }
}

/// The observation of a belief: one row, a full projection with its basis, and a
/// final status that is consistent.
pub open spec fn belief_observed(
    find: Seq<kip::Find>,
    clauses: Seq<kip::Clause>,
    result: Datum,
    more: bool,
) -> Result<Observed, ProbeError> {
    if !(find.len() == 1 && find[0] is Variable) {
        Err(ProbeError::NotFullProjection)
    } else if find[0]->Variable_1 != 0 || !binds_belief(clauses, find[0]->Variable_0) {
        Err(ProbeError::NotDirectProjection)
    } else if more {
        Err(ProbeError::AmbiguousProjection)
    } else if !(result is Array) {
        Err(ProbeError::BeliefWithoutRows)
    } else if result->Array_0.len() != 1 {
        Err(ProbeError::NotOneProjection)
    } else {
        match kip::projection_of(result->Array_0[0]) {
            None => Err(ProbeError::InvalidProjection),
            Some(p) => if p.basis is None || (p.slot_status is Some
                && p.slot_status->Some_0 != p.status) {
                Err(ProbeError::InconsistentProjection)
            } else {
                Ok(Observed::Belief(p, result->Array_0[0]))
            },
        }
    }
}

/// The observation of a raw query: its rows, or the one count that it returned.
pub open spec fn rows_observed(find: Seq<kip::Find>, result: Datum, more: bool) -> Result<
    Observed,
    ProbeError,
> {
    if !(result is Array) {
        Err(ProbeError::FindWithoutRows)
    } else if find.len() == 1 && find[0] is Count {
        if result->Array_0.len() != 1 {
            Err(ProbeError::NotOneCount)
        } else {
            match result->Array_0[0].as_u64() {
                Some(n) => if n <= usize::MAX {
                    Ok(Observed::Rows(n as nat, !more))
                } else {
                    Err(ProbeError::CountTooLarge)
                },
                None => Err(ProbeError::CountNotInteger),
            }
        }
    } else {
        Ok(Observed::Rows(result->Array_0.len(), !more))
    }
}

/// What one operation and the response to it observe.
pub open spec fn observed(operation: kip::Operation, response: ReadEnvelope) -> Result<
    Observed,
    ProbeError,
> {
    match single_result(response) {
        Err(e) => Err(e),
        Ok(result) => match operation {
            kip::Operation::Search(_) => match search_of(response) {
                Ok((hits, _)) => Ok(Observed::Search(hits.len())),
                Err(e) => Err(e),
            },
            kip::Operation::Query(find, clauses, _, _) => if any_belief(clauses) {
                belief_observed(find, clauses, result, response.more())
            } else {
                rows_observed(find, result, response.more())
            },
            _ => Err(ProbeError::WrongOperation),
        },
    }
}

fn observe_belief(query: &QueryShape, result: &Json, more: bool) -> (r: Result<
    ProbeObservation,
    ProbeError,
>)
    ensures
        match r {
            Ok(o) => belief_observed(
                kip::find_view(query.find@),
                kip::clauses_view(query.clauses@),
                result@,
                more,
            ) == Ok::<Observed, ProbeError>(o@),
            Err(e) => belief_observed(
                kip::find_view(query.find@),
                kip::clauses_view(query.clauses@),
                result@,
                more,
            ) == Err::<Observed, ProbeError>(e),
        },
{
    if query.find.len() != 1 {
        return Err(ProbeError::NotFullProjection);
    }
    assert(kip::find_view(query.find@)[0] == query.find@[0]@);
    match &query.find[0] {
        FindShape::Variable { name, path } => {
            if *path != 0 || !belief_bound(&query.clauses, name.as_str()) {
                return Err(ProbeError::NotDirectProjection);
            }
        },
        _ => return Err(ProbeError::NotFullProjection),
    }
    if more {
        return Err(ProbeError::AmbiguousProjection);
    }
    let rows = match result.as_array() {
        Some(rows) => rows,
        None => return Err(ProbeError::BeliefWithoutRows),
    };
    if rows.len() != 1 {
        return Err(ProbeError::NotOneProjection);
    }
    assert(result@->Array_0[0] == rows@[0]@);
    let projection = match kip::read_projection(&rows[0]) {
        Some(projection) => projection,
        None => return Err(ProbeError::InvalidProjection),
    };
    let consistent = match projection.slot_status {
        Some(status) => status == projection.status,
        None => true,
    };
    if projection.basis.is_none() || !consistent {
        return Err(ProbeError::InconsistentProjection);
    }
    Ok(ProbeObservation::Belief { projection, row: rows[0].copy() })
}

fn observe_rows(query: &QueryShape, result: &Json, more: bool) -> (r: Result<
    ProbeObservation,
    ProbeError,
>)
    ensures
        match r {
            Ok(o) => rows_observed(kip::find_view(query.find@), result@, more) == Ok::<
                Observed,
                ProbeError,
            >(o@),
            Err(e) => rows_observed(kip::find_view(query.find@), result@, more) == Err::<
                Observed,
                ProbeError,
            >(e),
        },
{
    let rows = match result.as_array() {
        Some(rows) => rows,
        None => return Err(ProbeError::FindWithoutRows),
    };
    let counts = if query.find.len() == 1 {
        assert(kip::find_view(query.find@)[0] == query.find@[0]@);
        match &query.find[0] {
            FindShape::Count => true,
            _ => false,
        }
    } else {
        false
    };
    let count: usize = if counts {
        if rows.len() != 1 {
            return Err(ProbeError::NotOneCount);
        }
        assert(result@->Array_0[0] == rows@[0]@);
        match rows[0].as_u64() {
            Some(n) => if n <= usize::MAX as u64 {
                n as usize
            } else {
                return Err(ProbeError::CountTooLarge);
            },
            None => return Err(ProbeError::CountNotInteger),
        }
    } else {
        rows.len()
    };
    Ok(ProbeObservation::Rows { count, complete: !more })
}

/// What a parsed operation and the response to it observe. A field named
/// `status` in a record cannot pass for a projection of the engine.
pub fn observe(operation: &CommandShape, response: &ReadEnvelope) -> (r: Result<
    ProbeObservation,
    ProbeError,
>)
    ensures
        match r {
            Ok(o) => observed(operation@, *response) == Ok::<Observed, ProbeError>(o@),
            Err(e) => observed(operation@, *response) == Err::<Observed, ProbeError>(e),
        },
{
    let result = match single_read_result(response) {
        Ok(result) => result,
        Err(e) => return Err(e),
    };
    match operation {
        CommandShape::Search(_) => match search_observation(response) {
            Ok(o) => Ok(ProbeObservation::Search { hit_count: o.hits.len() }),
            Err(e) => Err(e),
        },
        CommandShape::Query(query) => if has_any_belief(&query.clauses) {
            observe_belief(query, result, response.has_cursor())
        } else {
            observe_rows(query, result, response.has_cursor())
        },
        _ => Err(ProbeError::WrongOperation),
    }
}

/// What a request, given as its JSON text, and the response to it observe.
pub open spec fn probed(request: Seq<char>, response: ReadEnvelope) -> Result<
    Observed,
    ProbeError,
> {
    match kip::request_of(request) {
        None => Err(ProbeError::InvalidRequest),
        Some(operations) => if operations.len() != 1 {
            Err(ProbeError::NotOneOperation)
        } else {
            match single_result(response) {
                Err(e) => Err(e),
                Ok(_) => match operations[0] {
                    None => Err(ProbeError::Unparsed),
                    Some(operation) => observed(operation, response),
                },
            }
        },
    }
}

/// Interprets the response to a request by the operation that was asked for.
pub fn probe_observation(request: &str, response: &ReadEnvelope) -> (r: Result<
    ProbeObservation,
    ProbeError,
>)
    ensures
        match r {
            Ok(o) => probed(request@, *response) == Ok::<Observed, ProbeError>(o@),
            Err(e) => probed(request@, *response) == Err::<Observed, ProbeError>(e),
        },
{
    let operations = match kip::read_request(request) {
        Some(operations) => operations,
        None => return Err(ProbeError::InvalidRequest),
    };
    if operations.len() != 1 {
        return Err(ProbeError::NotOneOperation);
    }
    if let Err(e) = single_read_result(response) {
        return Err(e);
    }
    match &operations[0] {
        None => Err(ProbeError::Unparsed),
        Some(operation) => observe(operation, response),
    }
}

// ---------------------------------------------------------------------------
// Laws
// ---------------------------------------------------------------------------

/// Neither the rows of a raw read nor the hits of a search ever decide belief,
/// and a projection never passes for the presence of records.
pub proof fn records_never_decide_belief(o: ProbeObservation)
    ensures
        o is Rows ==> o.verdict() is None,
        o is Search ==> o.verdict() is None && o.presence() is None,
        o is Belief ==> o.presence() is None,
        o.verdict() is Some ==> o is Belief && (o->projection.status == Standing::Accepted
            || o->projection.status == Standing::Rejected),
{
}

/// A belief is only ever observed where the operation projects one directly,
/// and then with its basis; a search or a raw query gives none.
pub proof fn belief_needs_a_projection(operation: kip::Operation, response: ReadEnvelope)
    ensures
        observed(operation, response) matches Ok(Observed::Belief(p, _)) ==> operation is Query
            && any_belief(operation->Query_1) && p.basis is Some && !response.more(),
        operation is Search && observed(operation, response) is Ok ==> observed(
            operation,
            response,
        )->Ok_0 is Search,
{
}

/// Absence is only ever reported by a read that was complete.
pub proof fn absence_needs_a_complete_read(o: ProbeObservation)
    ensures
        o.presence() == Some(false) ==> (o matches ProbeObservation::Rows { count, complete }
            && count == 0 && complete),
{
}

/// A response that is partial, failed or empty observes nothing.
pub proof fn failed_reads_observe_nothing(operation: kip::Operation, response: ReadEnvelope)
    requires
        !response.succeeded() || response.results@.len() != 1 || response.results@[0].status
            != EnvelopeStatus::Succeeded || response.results@[0].error
            || response.results@[0].result is None,
    ensures
        observed(operation, response) is Err,
{
}

} // verus!
