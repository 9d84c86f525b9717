//! The shapes of knowledge requests and of what comes back, as far as the
//! library decides anything by them.

use vstd::prelude::*;

use crate::json::{Datum, Json};

verus! {

// ---------------------------------------------------------------------------
// Requests
// ---------------------------------------------------------------------------

/// One clause of a query.
#[derive(Debug)]
pub enum ClauseShape {
    /// A projection of belief, bound to that variable.
    Belief(String),
    BeliefSlot,
    /// The clauses inside a negated, optional or united group.
    Group(Vec<ClauseShape>),
    Other,
}

/// One expression of a query's projection.
#[derive(Debug)]
pub enum FindShape {
    /// A variable, and the length of the path that follows it.
    Variable { name: String, path: usize },
    Count,
    Other,
}

/// The number of rows that an operation asks for.
#[derive(Debug)]
pub enum Limit {
    Absent,
    /// A number literal, where it is a nonnegative integer.
    Number(Option<u64>),
    Parameter(String),
    Other,
}

/// What a limit is.
pub enum Rows {
    Absent,
    Number(Option<u64>),
    Parameter(Seq<char>),
    Other,
}

/// A parsed query.
#[derive(Debug)]
pub struct QueryShape {
    pub find: Vec<FindShape>,
    pub clauses: Vec<ClauseShape>,
    /// The query reads an earlier state of the memory.
    pub as_of: Option<()>,
    /// The query asks what holds at a given time.
    pub for_time: Option<()>,
    pub limit: Limit,
}

/// One parsed operation of a request.
#[derive(Debug)]
pub enum CommandShape {
    Search(Limit),
    Query(QueryShape),
    /// An inspection other than a search.
    Meta,
    /// A change.
    Write,
}

/// What a clause is.
pub enum Clause {
    Belief(Seq<char>),
    BeliefSlot,
    Group(Seq<Clause>),
    Other,
}

/// What an expression is.
pub enum Find {
    Variable(Seq<char>, usize),
    Count,
    Other,
}

/// What an operation is.
pub enum Operation {
    Search(Rows),
    /// The projection, the clauses, whether another time than the present is
    /// asked about, and the limit.
    Query(Seq<Find>, Seq<Clause>, bool, Rows),
    Meta,
    Write,
}

impl View for Limit {
    type V = Rows;

    open spec fn view(&self) -> Rows {
        match self {
            Limit::Absent => Rows::Absent,
            Limit::Number(n) => Rows::Number(*n),
            Limit::Parameter(name) => Rows::Parameter(name@),
            Limit::Other => Rows::Other,
        }
    }
}

impl ClauseShape {
    pub open spec fn clause(self) -> Clause
        decreases self,
    {
        match self {
            ClauseShape::Belief(variable) => Clause::Belief(variable@),
            ClauseShape::BeliefSlot => Clause::BeliefSlot,
            ClauseShape::Group(clauses) => Clause::Group(
                Seq::new(
                    clauses@.len(),
                    |i: int|
                        if 0 <= i < clauses@.len() {
                            clauses@[i].clause()
                        } else {
                            Clause::Other
                        },
                ),
            ),
            ClauseShape::Other => Clause::Other,
        }
    }
}

impl View for ClauseShape {
    type V = Clause;

    open spec fn view(&self) -> Clause {
        self.clause()
    }
}

impl View for FindShape {
    type V = Find;

    open spec fn view(&self) -> Find {
        match self {
            FindShape::Variable { name, path } => Find::Variable(name@, *path),
            FindShape::Count => Find::Count,
            FindShape::Other => Find::Other,
        }
    }
}

pub open spec fn clauses_view(clauses: Seq<ClauseShape>) -> Seq<Clause> {
    clauses.map_values(|c: ClauseShape| c@)
}

pub open spec fn find_view(find: Seq<FindShape>) -> Seq<Find> {
    find.map_values(|f: FindShape| f@)
}

impl View for CommandShape {
    type V = Operation;

    open spec fn view(&self) -> Operation {
        match self {
            CommandShape::Search(limit) => Operation::Search(limit@),
            CommandShape::Query(q) => Operation::Query(
                find_view(q.find@),
                clauses_view(q.clauses@),
                q.as_of is Some || q.for_time is Some,
                q.limit@,
            ),
            CommandShape::Meta => Operation::Meta,
            CommandShape::Write => Operation::Write,
        }
    }
}

pub open spec fn operations_view(list: Seq<Option<CommandShape>>) -> Seq<Option<Operation>> {
    list.map_values(
        |c: Option<CommandShape>|
            match c {
                Some(shape) => Some(shape@),
                None => None,
            },
    )
}

pub open spec fn parsed_view(list: Seq<Result<CommandShape, String>>) -> Seq<
    Result<Operation, Seq<char>>,
> {
    list.map_values(
        |c: Result<CommandShape, String>|
            match c {
                Ok(shape) => Ok(shape@),
                Err(why) => Err(why@),
            },
    )
}

/// The operations of the request that a JSON text writes, or the words of the error
/// that it writes none; and so for each operation.
pub uninterp spec fn request_read(json: Seq<char>) -> Result<
    Seq<Result<Operation, Seq<char>>>,
    Seq<char>,
>;

/// The operations of the request that a JSON text writes, where it is a valid
/// request; an operation that does not parse is none.
pub open spec fn request_of(json: Seq<char>) -> Option<Seq<Option<Operation>>> {
    match request_read(json) {
        Ok(list) => Some(list.map_values(|o: Result<Operation, Seq<char>>| parsed(o))),
        Err(_) => None,
    }
}

/// The operation, where it parses.
pub open spec fn parsed(operation: Result<Operation, Seq<char>>) -> Option<Operation> {
    match operation {
        Ok(own) => Some(own),
        Err(_) => None,
    }
}

/// `anda_kip::Request::from_json`, then `Operation::parse` of each operation: a valid
/// request and its operations, or the words of the error, as a function of the text.
#[verifier::external_body]
pub(crate) fn parse_request(json: &str) -> (r: Result<Vec<Result<CommandShape, String>>, String>)
    ensures
        match r {
            Ok(list) => request_read(json@) == Ok::<
                Seq<Result<Operation, Seq<char>>>,
                Seq<char>,
            >(parsed_view(list@)),
            Err(why) => request_read(json@) == Err::<
                Seq<Result<Operation, Seq<char>>>,
                Seq<char>,
            >(why@),
        },
{
    let request = anda_kip::Request::from_json(json).map_err(|e| e.to_string())?;
    let operations = request.operations.iter();
    Ok(operations.map(|op| op.parse().map(command_shape).map_err(|e| e.to_string())).collect())
}

/// The operations that parse.
fn shapes(list: Vec<Result<CommandShape, String>>) -> (r: Vec<Option<CommandShape>>)
    ensures
        operations_view(r@) == parsed_view(list@).map_values(
            |o: Result<Operation, Seq<char>>| parsed(o),
        ),
    decreases list.len(),
{
    let ghost all = parsed_view(list@).map_values(|o: Result<Operation, Seq<char>>| parsed(o));
    let mut rest = list;
    match rest.pop() {
        None => {
            let out: Vec<Option<CommandShape>> = Vec::new();
            assert(operations_view(out@) =~= all);
            out
        },
        Some(last) => {
            let mut out = shapes(rest);
            let ghost before = operations_view(out@);
            let shape = match last {
                Ok(shape) => Some(shape),
                Err(_) => None,
            };
            out.push(shape);
            proof {
                assert(operations_view(out@) =~= before.push(all.last()));
                assert(before =~= all.drop_last());
                assert(operations_view(out@) =~= all);
            }
            out
        },
    }
}

/// The operations of the request that a JSON text writes.
pub(crate) fn read_request(json: &str) -> (r: Option<Vec<Option<CommandShape>>>)
    ensures
        match r {
            Some(list) => request_of(json@) == Some(operations_view(list@)),
            None => request_of(json@) is None,
        },
{
    match parse_request(json) {
        Ok(list) => Some(shapes(list)),
        Err(_) => None,
    }
}

/// Converts an `anda_kip::Command` to its shape.
#[verifier::external_body]
fn command_shape(command: anda_kip::Command) -> CommandShape {
    match command {
        anda_kip::Command::Meta(anda_kip::MetaCommand::Search(search)) =>
            CommandShape::Search(limit_shape(search.limit)),
        anda_kip::Command::Kql(query) => CommandShape::Query(QueryShape {
            find: query.find_clause.expressions.into_iter().map(find_shape).collect(),
            clauses: query.where_clauses.into_iter().map(clause_shape).collect(),
            as_of: query.as_of.map(|_| ()),
            for_time: query.for_time.map(|_| ()),
            limit: limit_shape(query.limit),
        }),
        anda_kip::Command::Meta(_) => CommandShape::Meta,
        anda_kip::Command::Kml(_) => CommandShape::Write,
    }
}

/// Converts the `anda_kip::Scalar` of a limit to its shape.
#[verifier::external_body]
fn limit_shape(limit: Option<anda_kip::Scalar>) -> Limit {
    match limit {
        None => Limit::Absent,
        Some(anda_kip::Scalar::Literal(anda_kip::KipValue::Number(n))) => Limit::Number(n.as_u64()),
        Some(anda_kip::Scalar::Literal(_)) => Limit::Other,
        Some(anda_kip::Scalar::Param(name)) => Limit::Parameter(name),
    }
}

/// Converts an `anda_kip::FindExpression` to its shape.
#[verifier::external_body]
fn find_shape(expression: anda_kip::FindExpression) -> FindShape {
    match expression {
        anda_kip::FindExpression::Variable(v) => FindShape::Variable {
            name: v.var,
            path: v.path.len(),
        },
        anda_kip::FindExpression::Aggregation {
            func: anda_kip::AggregationFunction::Count,
            ..
        } => FindShape::Count,
        _ => FindShape::Other,
    }
}

/// Converts an `anda_kip::WhereClause` to its shape.
#[verifier::external_body]
fn clause_shape(clause: anda_kip::WhereClause) -> ClauseShape {
    match clause {
        anda_kip::WhereClause::Belief { variable, .. } => ClauseShape::Belief(variable),
        anda_kip::WhereClause::BeliefSlot { .. } => ClauseShape::BeliefSlot,
        anda_kip::WhereClause::Not(inner)
        | anda_kip::WhereClause::Optional(inner)
        | anda_kip::WhereClause::Union(inner) =>
            ClauseShape::Group(inner.into_iter().map(clause_shape).collect()),
        _ => ClauseShape::Other,
    }
}

#[verifier::external_type_specification]
#[verifier::external_body]
pub struct ExCommand(anda_kip::Command);

#[verifier::external_type_specification]
#[verifier::external_body]
pub struct ExFindExpression(anda_kip::FindExpression);

#[verifier::external_type_specification]
#[verifier::external_body]
pub struct ExWhereClause(anda_kip::WhereClause);

#[verifier::external_type_specification]
#[verifier::external_body]
pub struct ExScalar(anda_kip::Scalar);

// ---------------------------------------------------------------------------
// Projections of belief
// ---------------------------------------------------------------------------

/// How far the memory believes a Proposition.
#[derive(Clone, Copy, Debug, PartialEq, Eq, Structural)]
pub enum Standing {
    Accepted,
    Rejected,
    Contested,
    Uncertain,
    Insufficient,
}

/// The part of a projection's basis that the library reads. The basis is where
/// the engine states the policy and the time that a projection holds under.
#[derive(Debug)]
pub struct BasisShape {
    pub space_id: String,
    pub next_invalid_at: Option<String>,
}

/// The part of a projection of belief that the library reads.
#[derive(Debug)]
pub struct ProjectionShape {
    pub status: Standing,
    pub slot_status: Option<Standing>,
    pub basis: Option<BasisShape>,
}

/// What a projection of belief says.
pub struct Projection {
    pub status: Standing,
    pub slot_status: Option<Standing>,
    pub basis: Option<(Seq<char>, Option<Seq<char>>)>,
}

impl View for ProjectionShape {
    type V = Projection;

    open spec fn view(&self) -> Projection {
        Projection {
            status: self.status,
            slot_status: self.slot_status,
            basis: match self.basis {
                Some(basis) => Some(
                    (
                        basis.space_id@,
                        match basis.next_invalid_at {
                            Some(at) => Some(at@),
                            None => None,
                        },
                    ),
                ),
                None => None,
            },
        }
    }
}

/// The projection that a value is, or the words of the error that it is none.
pub uninterp spec fn projection_read(v: Datum) -> Result<Projection, Seq<char>>;

/// The projection that a value is, where it is one.
pub open spec fn projection_of(v: Datum) -> Option<Projection> {
    match projection_read(v) {
        Ok(projection) => Some(projection),
        Err(_) => None,
    }
}

/// `serde_json::from_value` of an `anda_kip::Projection`: the projection that the
/// value is, or the words of the error, as a function of the value.
#[verifier::external_body]
pub(crate) fn parse_projection(row: &Json) -> (r: Result<ProjectionShape, String>)
    ensures
        match r {
            Ok(p) => projection_read(row@) == Ok::<Projection, Seq<char>>(p@),
            Err(why) => projection_read(row@) == Err::<Projection, Seq<char>>(why@),
        },
{
    let p: anda_kip::Projection =
        serde_json::from_value(crate::nexus::outside(row)?).map_err(|e| e.to_string())?;
    Ok(ProjectionShape {
        status: belief_status(p.status),
        slot_status: p.slot_status.map(belief_status),
        basis: p.basis.map(|b| BasisShape {
            space_id: b.space_id,
            next_invalid_at: b.next_invalid_at,
        }),
    })
}

/// Converts an `anda_kip::BeliefStatus`.
#[verifier::external_body]
fn belief_status(status: anda_kip::BeliefStatus) -> Standing {
    match status {
        anda_kip::BeliefStatus::Accepted => Standing::Accepted,
        anda_kip::BeliefStatus::Rejected => Standing::Rejected,
        anda_kip::BeliefStatus::Contested => Standing::Contested,
        anda_kip::BeliefStatus::Uncertain => Standing::Uncertain,
        anda_kip::BeliefStatus::Insufficient => Standing::Insufficient,
    }
}

#[verifier::external_type_specification]
#[verifier::external_body]
pub struct ExBeliefStatus(anda_kip::BeliefStatus);

/// The projection that a returned row is.
pub fn read_projection(row: &Json) -> (r: Option<ProjectionShape>)
    ensures
        match r {
            Some(p) => projection_of(row@) == Some(p@),
            None => projection_of(row@) is None,
        },
{
    match parse_projection(row) {
        Ok(projection) => Some(projection),
        Err(_) => None,
    }
}

// ---------------------------------------------------------------------------
// Responses
// ---------------------------------------------------------------------------

#[derive(Clone, Copy, Debug, PartialEq, Eq, Structural)]
pub enum EnvelopeStatus {
    Succeeded,
    Other,
}

/// One operation's outcome.
#[derive(Debug)]
pub struct OperationOutcome {
    pub status: EnvelopeStatus,
    pub error: bool,
    pub result: Option<Json>,
    pub next_cursor: bool,
    /// The outcome as the engine shows it.
    pub shown: String,
}

/// A response, as far as it is read.
#[derive(Debug)]
pub struct ReadEnvelope {
    pub kip: String,
    pub status: EnvelopeStatus,
    pub error: bool,
    pub results: Vec<OperationOutcome>,
    pub next_cursor: bool,
    /// The response as the engine shows it.
    pub shown: String,
}

impl ReadEnvelope {
    /// The whole read succeeded.
    pub open spec fn succeeded(self) -> bool {
        self.kip@ == "2.0"@ && self.status == EnvelopeStatus::Succeeded && !self.error
    }

    /// Another page follows, of the whole or of one operation.
    pub open spec fn more(self) -> bool {
        self.next_cursor || exists|i: int|
            0 <= i < self.results@.len() && (#[trigger] self.results@[i]).next_cursor
    }

    pub fn has_cursor(&self) -> (r: bool)
        ensures
            r == self.more(),
    {
        if self.next_cursor {
            return true;
        }
        let mut i: usize = 0;
        while i < self.results.len()
            invariant
                i <= self.results.len(),
                !self.next_cursor,
                forall|k: int| 0 <= k < i ==> !(#[trigger] self.results@[k]).next_cursor,
            decreases self.results.len() - i,
        {
            if self.results[i].next_cursor {
                return true;
            }
            i = i + 1;
        }
        false
    }
}

} // verus!
