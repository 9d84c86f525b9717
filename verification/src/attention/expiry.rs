//! Recognises only directly returned, present-time projections of belief.
//! Stored JSON or historical queries cannot create timers.

use vstd::prelude::*;

use crate::assess::probe::belief_bound;
use crate::json::{Datum, Json};
use crate::kip::{self, BasisShape, CommandShape, EnvelopeStatus, FindShape, QueryShape, ReadEnvelope};
use crate::nexus;
use crate::text;

verus! {

/// At most this many operations of a request are looked at.
pub const MAX_OPERATIONS: usize = 16;

/// At most this many columns of a query are looked at.
pub const MAX_COLUMNS: usize = 32;

/// At most this many rows of a result are looked at.
pub const MAX_ROWS: usize = 200;

/// The Space of a basis and the time at which it becomes invalid.
pub type Basis = (Seq<char>, Option<Seq<char>>);

/// When a value, as a projection with a basis, becomes invalid after `now`.
pub open spec fn expiry_of(v: Datum, now: u64) -> Option<(u64, Basis)> {
    match kip::projection_of(v) {
        Some(p) => match p.basis {
            Some((space, Some(at))) => match nexus::millis_of(at) {
                Some(due) => if due > now {
                    Some((due, (space, Some(at))))
                } else {
                    None
                },
                None => None,
            },
            _ => None,
        },
        None => None,
    }
}

/// The earlier of two; the first one where they are equal.
pub open spec fn sooner(a: Option<(u64, Basis)>, b: Option<(u64, Basis)>) -> Option<(u64, Basis)> {
    match (a, b) {
        (Some(x), Some(y)) => if y.0 < x.0 {
            Some(y)
        } else {
            Some(x)
        },
        (None, _) => b,
        (_, None) => a,
    }
}

/// The value in that column of a row; a row of one column is the value itself.
pub open spec fn cell(row: Datum, columns: nat, column: int) -> Datum {
    if columns == 1 {
        row
    } else {
        match row {
            Datum::Array(items) => if 0 <= column < items.len() {
                items[column]
            } else {
                Datum::Null
            },
            _ => Datum::Null,
        }
    }
}

/// The earliest expiry in one column of these rows.
pub open spec fn column_expiry(
    rows: Seq<Datum>,
    columns: nat,
    column: int,
    now: u64,
) -> Option<(u64, Basis)>
    decreases rows.len(),
{
    if rows.len() == 0 {
        None
    } else {
        sooner(
            column_expiry(rows.drop_last(), columns, column, now),
            expiry_of(cell(rows.last(), columns, column), now),
        )
    }
}

/// The column is a variable of its own that is bound to a projection of belief.
pub open spec fn is_belief_column(find: kip::Find, clauses: Seq<kip::Clause>) -> bool {
    find matches kip::Find::Variable(name, path) && path == 0
        && crate::assess::probe::binds_belief(clauses, name)
}

pub open spec fn at_most(n: nat, most: usize) -> int {
    if n <= most {
        n as int
    } else {
        most as int
    }
}

/// The earliest expiry in the first columns of these rows.
pub open spec fn columns_expiry(
    find: Seq<kip::Find>,
    clauses: Seq<kip::Clause>,
    rows: Seq<Datum>,
    upto: int,
    now: u64,
) -> Option<(u64, Basis)>
    decreases upto,
{
    if upto <= 0 {
        None
    } else {
        let before = columns_expiry(find, clauses, rows, upto - 1, now);
        if is_belief_column(find[upto - 1], clauses) {
            sooner(before, column_expiry(rows, find.len(), upto - 1, now))
        } else {
            before
        }
    }
}

/// The earliest expiry that one operation returned.
pub open spec fn operation_expiry(
    operation: Option<kip::Operation>,
    result: Option<Datum>,
    now: u64,
) -> Option<(u64, Basis)> {
    match (operation, result) {
        (Some(kip::Operation::Query(find, clauses, historical, _)), Some(Datum::Array(rows))) =>
            if historical {
                None
            } else {
                columns_expiry(
                    find,
                    clauses,
                    rows.take(at_most(rows.len(), MAX_ROWS)),
                    at_most(find.len(), MAX_COLUMNS),
                    now,
                )
            },
        _ => None,
    }
}

pub open spec fn result_at(response: ReadEnvelope, i: int) -> Option<Datum> {
    match response.results@[i].result {
        Some(value) => Some(value@),
        None => None,
    }
}

/// The earliest expiry of the first operations.
pub open spec fn operations_expiry(
    operations: Seq<Option<kip::Operation>>,
    response: ReadEnvelope,
    upto: int,
    now: u64,
) -> Option<(u64, Basis)>
    decreases upto,
{
    if upto <= 0 {
        None
    } else {
        sooner(
            operations_expiry(operations, response, upto - 1, now),
            operation_expiry(operations[upto - 1], result_at(response, upto - 1), now),
        )
    }
}

pub open spec fn pairs(operations: nat, results: nat) -> int {
    at_most(
        if operations <= results {
            operations
        } else {
            results
        },
        MAX_OPERATIONS,
    )
}

/// The basis that expires first, of all that a successful read returned.
pub open spec fn earliest(
    operations: Seq<Option<kip::Operation>>,
    response: ReadEnvelope,
    now: u64,
) -> Option<(u64, Basis)> {
    if response.succeeded() {
        operations_expiry(
            operations,
            response,
            pairs(operations.len(), response.results@.len()),
            now,
        )
    } else {
        None
    }
}

pub open spec fn basis_view(b: BasisShape) -> Basis {
    (
        b.space_id@,
        match b.next_invalid_at {
            Some(at) => Some(at@),
            None => None,
        },
    )
}

pub open spec fn found_view(found: Option<(u64, BasisShape)>) -> Option<(u64, Basis)> {
    match found {
        Some((due, basis)) => Some((due, basis_view(basis))),
        None => None,
    }
}

fn keep_sooner(
    a: Option<(u64, BasisShape)>,
    b: Option<(u64, BasisShape)>,
) -> (r: Option<(u64, BasisShape)>)
    ensures
        found_view(r) == sooner(found_view(a), found_view(b)),
{
    match (a, b) {
        (Some(x), Some(y)) => if y.0 < x.0 {
            Some(y)
        } else {
            Some(x)
        },
        (None, b) => b,
        (a, None) => a,
    }
}

fn value_expiry(value: &Json, now: u64) -> (r: Option<(u64, BasisShape)>)
    ensures
        found_view(r) == expiry_of(value@, now),
{
    let projection = match kip::read_projection(value) {
        Some(projection) => projection,
        None => return None,
    };
    let basis = match projection.basis {
        Some(basis) => basis,
        None => return None,
    };
    let due: Option<u64> = match &basis.next_invalid_at {
        Some(at) => nexus::time_ms(at.as_str()),
        None => None,
    };
    match due {
        Some(due) => if due > now {
            Some((due, basis))
        } else {
            None
        },
        None => None,
    }
}

fn find_in_column(
    rows: &Vec<Json>,
    most: usize,
    columns: usize,
    column: usize,
    now: u64,
) -> (r: Option<(u64, BasisShape)>)
    requires
        most <= rows.len(),
    ensures
        found_view(r) == column_expiry(
            crate::json::items_view(rows@).take(most as int),
            columns as nat,
            column as int,
            now,
        ),
{
    let ghost all = crate::json::items_view(rows@);
    let mut found: Option<(u64, BasisShape)> = None;
    let mut i: usize = 0;
    proof {
        assert(all.take(0) =~= Seq::empty());
    }
    while i < most
        invariant
            i <= most <= rows.len(),
            all == crate::json::items_view(rows@),
            found_view(found) == column_expiry(
                all.take(i as int),
                columns as nat,
                column as int,
                now,
            ),
        decreases most - i,
    {
        let row = &rows[i];
        proof {
            assert(all.take(i + 1).drop_last() =~= all.take(i as int));
            assert(all.take(i + 1).last() == row@);
            row.view_of_parts();
        }
        let next = if columns == 1 {
            value_expiry(row, now)
        } else {
            match row {
                Json::Array(items) => if column < items.len() {
                    value_expiry(&items[column], now)
                } else {
                    value_expiry(&Json::Null, now)
                },
                _ => value_expiry(&Json::Null, now),
            }
        };
        found = keep_sooner(found, next);
        i = i + 1;
    }
    found
}

fn least(n: usize, most: usize) -> (r: usize)
    ensures
        r == at_most(n as nat, most),
{
    if n <= most {
        n
    } else {
        most
    }
}

fn find_in_rows(query: &QueryShape, rows: &Vec<Json>, now: u64) -> (r: Option<(u64, BasisShape)>)
    ensures
        found_view(r) == columns_expiry(
            kip::find_view(query.find@),
            kip::clauses_view(query.clauses@),
            crate::json::items_view(rows@).take(at_most(rows@.len(), MAX_ROWS)),
            at_most(query.find@.len(), MAX_COLUMNS),
            now,
        ),
{
    let most: usize = least(rows.len(), MAX_ROWS);
    let columns: usize = least(query.find.len(), MAX_COLUMNS);
    let mut found: Option<(u64, BasisShape)> = None;
    let mut column: usize = 0;
    while column < columns
        invariant
            column <= columns <= query.find.len(),
            most <= rows.len(),
            found_view(found) == columns_expiry(
                kip::find_view(query.find@),
                kip::clauses_view(query.clauses@),
                crate::json::items_view(rows@).take(most as int),
                column as int,
                now,
            ),
        decreases columns - column,
    {
        assert(kip::find_view(query.find@)[column as int] == query.find@[column as int]@);
        let belief = match &query.find[column] {
            FindShape::Variable { name, path } => *path == 0 && belief_bound(
                &query.clauses,
                name.as_str(),
            ),
            _ => false,
        };
        if belief {
            let next = find_in_column(rows, most, query.find.len(), column, now);
            found = keep_sooner(found, next);
        }
        column = column + 1;
    }
    found
}

fn find_in_operation(
    operation: &Option<CommandShape>,
    result: &Option<Json>,
    now: u64,
) -> (r: Option<(u64, BasisShape)>)
    ensures
        found_view(r) == operation_expiry(
            match operation {
                Some(shape) => Some(shape@),
                None => None,
            },
            match result {
                Some(value) => Some(value@),
                None => None,
            },
            now,
        ),
{
    if let Some(CommandShape::Query(query)) = operation {
        if let Some(value) = result {
            if let Some(rows) = value.as_array() {
                if query.as_of.is_none() && query.for_time.is_none() {
                    return find_in_rows(query, rows, now);
                }
            }
        }
    }
    None
}

/// The basis that expires first, of the operations of a request and the results
/// that answer them.
pub fn earliest_of(
    operations: &Vec<Option<CommandShape>>,
    response: &ReadEnvelope,
    now: u64,
) -> (r: Option<(u64, BasisShape)>)
    ensures
        found_view(r) == earliest(kip::operations_view(operations@), *response, now),
{
    if !text::same(response.kip.as_str(), "2.0") || response.status != EnvelopeStatus::Succeeded
        || response.error {
        return None;
    }
    let both: usize = least(operations.len(), response.results.len());
    let most: usize = least(both, MAX_OPERATIONS);
    let mut found: Option<(u64, BasisShape)> = None;
    let mut i: usize = 0;
    while i < most
        invariant
            i <= most <= operations.len(),
            most <= response.results.len(),
            found_view(found) == operations_expiry(
                kip::operations_view(operations@),
                *response,
                i as int,
                now,
            ),
        decreases most - i,
    {
        let next = find_in_operation(&operations[i], &response.results[i].result, now);
        found = keep_sooner(found, next);
        i = i + 1;
    }
    found
}

/// When the earliest of the projections expires that a read returned, and the
/// basis that does. The request is given as its JSON text.
pub fn earliest_basis(request: &str, response: &ReadEnvelope, now: u64) -> (r: Option<
    (u64, BasisShape),
>)
    ensures
        found_view(r) == match kip::request_of(request@) {
            Some(operations) => earliest(operations, *response, now),
            None => None,
        },
{
    match kip::read_request(request) {
        Some(operations) => earliest_of(&operations, response, now),
        None => None,
    }
}

// ---------------------------------------------------------------------------
// Laws
// ---------------------------------------------------------------------------

/// A timer is only ever set for a time that has not come, and never by a
/// historical query.
pub proof fn timers_lie_ahead(
    operation: Option<kip::Operation>,
    result: Option<Datum>,
    now: u64,
)
    ensures
        operation_expiry(operation, result, now) matches Some((due, _)) ==> due > now && (
        operation matches Some(kip::Operation::Query(_, _, historical, _)) && !historical),
{
    if let (Some(kip::Operation::Query(find, clauses, _, _)), Some(Datum::Array(rows))) = (
        operation,
        result,
    ) {
        columns_lie_ahead(
            find,
            clauses,
            rows.take(at_most(rows.len(), MAX_ROWS)),
            at_most(find.len(), MAX_COLUMNS),
            now,
        );
    }
}

proof fn columns_lie_ahead(
    find: Seq<kip::Find>,
    clauses: Seq<kip::Clause>,
    rows: Seq<Datum>,
    upto: int,
    now: u64,
)
    ensures
        columns_expiry(find, clauses, rows, upto, now) matches Some((due, _)) ==> due > now,
    decreases upto,
{
    if upto > 0 {
        columns_lie_ahead(find, clauses, rows, upto - 1, now);
        rows_lie_ahead(rows, find.len(), upto - 1, now);
    }
}

proof fn rows_lie_ahead(rows: Seq<Datum>, columns: nat, column: int, now: u64)
    ensures
        column_expiry(rows, columns, column, now) matches Some((due, _)) ==> due > now,
    decreases rows.len(),
{
    if rows.len() > 0 {
        rows_lie_ahead(rows.drop_last(), columns, column, now);
    }
}

/// That cell of a read holds a projection which becomes invalid at that time, after
/// `now`, and rests on that basis: the operation queries the present, the column is a
/// variable that the query binds to a belief, and the row is among those looked at.
pub open spec fn expires(
    operations: Seq<Option<kip::Operation>>,
    response: ReadEnvelope,
    now: u64,
    at: (int, int, int),
    found: (u64, Basis),
) -> bool {
    &&& 0 <= at.0 < 16 && at.0 < operations.len() && at.0 < response.results@.len()
    &&& 0 <= at.1 < 32
    &&& 0 <= at.2 < 200
    &&& operations[at.0] is Some && operations[at.0]->0 is Query
    &&& response.results@[at.0].result is Some && response.results@[at.0].result->0@ is Array
    &&& query_expires(
        (operations[at.0]->0)->Query_0,
        (operations[at.0]->0)->Query_1,
        (operations[at.0]->0)->Query_2,
        response.results@[at.0].result->0@->Array_0,
        now,
        at.1,
        at.2,
        found,
    )
}

/// The same of one query and the rows that it returned.
pub open spec fn query_expires(
    find: Seq<kip::Find>,
    clauses: Seq<kip::Clause>,
    past: bool,
    rows: Seq<Datum>,
    now: u64,
    column: int,
    row: int,
    found: (u64, Basis),
) -> bool {
    &&& !past
    &&& 0 <= column < find.len()
    &&& 0 <= row < rows.len()
    &&& find[column] matches kip::Find::Variable(name, path) && path == 0 && clauses.contains(
        kip::Clause::Belief(name),
    )
    &&& states_expiry(
        if find.len() == 1 {
            rows[row]
        } else if rows[row] is Array && column < rows[row]->Array_0.len() {
            rows[row]->Array_0[column]
        } else {
            Datum::Null
        },
        now,
        found,
    )
}

/// The value is a projection with that basis, whose validity ends at that time.
pub open spec fn states_expiry(v: Datum, now: u64, found: (u64, Basis)) -> bool {
    &&& kip::projection_of(v) matches Some(projection) && projection.basis == Some(found.1)
    &&& (found.1).1 matches Some(moment) && nexus::millis_of(moment) == Some(found.0)
    &&& now < found.0
}

/// One cell is looked at before another: by operation, then column, then row.
pub open spec fn comes_before(a: (int, int, int), b: (int, int, int)) -> bool {
    a.0 < b.0 || (a.0 == b.0 && (a.1 < b.1 || (a.1 == b.1 && a.2 < b.2)))
}

proof fn values_state(v: Datum, now: u64, found: (u64, Basis))
    ensures
        states_expiry(v, now, found) <==> expiry_of(v, now) == Some(found),
{
}

/// The least of a column, and the first row that has it.
proof fn least_of_column(rows: Seq<Datum>, columns: nat, column: int, now: u64) -> (at: int)
    ensures
        match column_expiry(rows, columns, column, now) {
            Some(found) => 0 <= at < rows.len() && expiry_of(
                cell(rows[at], columns, column),
                now,
            ) == Some(found) && forall|r: int|
                0 <= r < rows.len() ==> (#[trigger] expiry_of(
                    cell(rows[r], columns, column),
                    now,
                ) matches Some(other) ==> found.0 <= other.0 && (r < at ==> found.0 < other.0)),
            None => forall|r: int|
                0 <= r < rows.len() ==> #[trigger] expiry_of(
                    cell(rows[r], columns, column),
                    now,
                ) is None,
        },
    decreases rows.len(),
{
    if rows.len() == 0 {
        0
    } else {
        let rest = rows.drop_last();
        let before = least_of_column(rest, columns, column, now);
        let last = rows.len() - 1;
        assert forall|r: int| 0 <= r < rest.len() implies #[trigger] expiry_of(
            cell(rows[r], columns, column),
            now,
        ) == expiry_of(cell(rest[r], columns, column), now) by {
            assert(rest[r] == rows[r]);
        }
        assert(rows.last() == rows[last]);
        match (
            column_expiry(rest, columns, column, now),
            expiry_of(cell(rows[last], columns, column), now),
        ) {
            (Some(x), Some(y)) => if y.0 < x.0 {
                last
            } else {
                before
            },
            (None, Some(_)) => last,
            _ => before,
        }
    }
}

/// The least of the first columns, and the first column and row that have it.
proof fn least_of_columns(
    find: Seq<kip::Find>,
    clauses: Seq<kip::Clause>,
    rows: Seq<Datum>,
    upto: int,
    now: u64,
) -> (at: (int, int))
    requires
        0 <= upto <= find.len(),
    ensures
        match columns_expiry(find, clauses, rows, upto, now) {
            Some(found) => 0 <= at.0 < upto && query_expires(
                find,
                clauses,
                false,
                rows,
                now,
                at.0,
                at.1,
                found,
            ) && forall|c: int, r: int, other: (u64, Basis)|
                c < upto && #[trigger] query_expires(find, clauses, false, rows, now, c, r, other)
                    ==> found.0 <= other.0 && (comes_before((0, c, r), (0, at.0, at.1))
                    ==> found.0 < other.0),
            None => forall|c: int, r: int, other: (u64, Basis)|
                c < upto ==> !#[trigger] query_expires(
                    find,
                    clauses,
                    false,
                    rows,
                    now,
                    c,
                    r,
                    other,
                ),
        },
    decreases upto,
{
    if upto <= 0 {
        (0, 0)
    } else {
        let c = upto - 1;
        let before = least_of_columns(find, clauses, rows, c, now);
        let first = least_of_column(rows, find.len(), c, now);
        if is_belief_column(find[c], clauses) {
            assert(find[c] matches kip::Find::Variable(name, path) && path == 0
                && clauses.contains(kip::Clause::Belief(name))) by {
                let name = find[c]->Variable_0;
                let i = choose|i: int|
                    0 <= i < clauses.len() && #[trigger] clauses[i] == kip::Clause::Belief(name);
                assert(clauses[i] == kip::Clause::Belief(name));
            }
            assert forall|r: int, other: (u64, Basis)| #[trigger]
                query_expires(find, clauses, false, rows, now, c, r, other) <==> 0 <= r < rows.len()
                    && expiry_of(cell(rows[r], find.len(), c), now) == Some(other) by {
                if 0 <= r < rows.len() {
                    values_state(cell(rows[r], find.len(), c), now, other);
                }
            }
            match (
                columns_expiry(find, clauses, rows, c, now),
                column_expiry(rows, find.len(), c, now),
            ) {
                (Some(x), Some(y)) => if y.0 < x.0 {
                    assert(query_expires(find, clauses, false, rows, now, c, first, y));
                    (c, first)
                } else {
                    before
                },
                (None, Some(y)) => {
                    assert(query_expires(find, clauses, false, rows, now, c, first, y));
                    (c, first)
                },
                _ => before,
            }
        } else {
            assert forall|r: int, other: (u64, Basis)| !#[trigger] query_expires(
                find,
                clauses,
                false,
                rows,
                now,
                c,
                r,
                other,
            ) by {
                if let kip::Find::Variable(name, path) = find[c] {
                    if path == 0 && clauses.contains(kip::Clause::Belief(name)) {
                        let i = choose|i: int|
                            0 <= i < clauses.len() && clauses[i] == kip::Clause::Belief(name);
                        assert(clauses[i] == kip::Clause::Belief(name));
                    }
                }
            }
            before
        }
    }
}

/// The least of one operation.
proof fn least_of_operation(
    operations: Seq<Option<kip::Operation>>,
    response: ReadEnvelope,
    k: int,
    now: u64,
) -> (at: (int, int, int))
    requires
        0 <= k < operations.len(),
        k < response.results@.len(),
        k < 16,
    ensures
        at.0 == k,
        match operation_expiry(operations[k], result_at(response, k), now) {
            Some(found) => expires(operations, response, now, at, found) && forall|
                c: (int, int, int),
                other: (u64, Basis),
            |
                c.0 == k && #[trigger] expires(operations, response, now, c, other) ==> found.0
                    <= other.0 && (comes_before(c, at) ==> found.0 < other.0),
            None => forall|c: (int, int, int), other: (u64, Basis)|
                c.0 == k ==> !#[trigger] expires(operations, response, now, c, other),
        },
{
    if let (Some(kip::Operation::Query(find, clauses, past, limit)), Some(Datum::Array(rows))) = (
        operations[k],
        result_at(response, k),
    ) {
        if !past {
            let shown = rows.take(at_most(rows.len(), MAX_ROWS));
            let columns = at_most(find.len(), MAX_COLUMNS);
            let at = least_of_columns(find, clauses, shown, columns, now);
            assert forall|c: (int, int, int), other: (u64, Basis)| c.0 == k implies (
            #[trigger] expires(operations, response, now, c, other) <==> c.1 < columns
                && query_expires(find, clauses, false, shown, now, c.1, c.2, other)) by {
                if 0 <= c.2 < shown.len() {
                    assert(shown[c.2] == rows[c.2]);
                }
            }
            (k, at.0, at.1)
        } else {
            (k, 0, 0)
        }
    } else {
        (k, 0, 0)
    }
}

proof fn least_of_operations(
    operations: Seq<Option<kip::Operation>>,
    response: ReadEnvelope,
    upto: int,
    now: u64,
) -> (at: (int, int, int))
    requires
        0 <= upto <= operations.len(),
        upto <= response.results@.len(),
        upto <= 16,
    ensures
        match operations_expiry(operations, response, upto, now) {
            Some(found) => at.0 < upto && expires(operations, response, now, at, found) && forall|
                c: (int, int, int),
                other: (u64, Basis),
            |
                c.0 < upto && #[trigger] expires(operations, response, now, c, other) ==> found.0
                    <= other.0 && (comes_before(c, at) ==> found.0 < other.0),
            None => forall|c: (int, int, int), other: (u64, Basis)|
                c.0 < upto ==> !#[trigger] expires(operations, response, now, c, other),
        },
    decreases upto,
{
    if upto <= 0 {
        (0, 0, 0)
    } else {
        let k = upto - 1;
        let before = least_of_operations(operations, response, k, now);
        let here = least_of_operation(operations, response, k, now);
        match (
            operations_expiry(operations, response, k, now),
            operation_expiry(operations[k], result_at(response, k), now),
        ) {
            (Some(x), Some(y)) => if y.0 < x.0 {
                here
            } else {
                before
            },
            (None, Some(_)) => here,
            _ => before,
        }
    }
}

/// The expiry that a successful read gives is the earliest of all that its cells
/// state, and of equal ones the first; none is given only where no cell states one.
/// A read that failed gives none.
pub proof fn the_earliest_expiry_is_found(
    operations: Seq<Option<kip::Operation>>,
    response: ReadEnvelope,
    now: u64,
) -> (at: (int, int, int))
    ensures
        !(response.kip@ == "2.0"@ && response.status == EnvelopeStatus::Succeeded
            && !response.error) ==> earliest(operations, response, now) is None,
        response.kip@ == "2.0"@ && response.status == EnvelopeStatus::Succeeded && !response.error
            ==> match earliest(operations, response, now) {
            Some(found) => expires(operations, response, now, at, found) && forall|
                c: (int, int, int),
                other: (u64, Basis),
            | #[trigger]
                expires(operations, response, now, c, other) ==> found.0 <= other.0 && (
                comes_before(c, at) ==> found.0 < other.0),
            None => forall|c: (int, int, int), other: (u64, Basis)|
                !#[trigger] expires(operations, response, now, c, other),
        },
{
    if response.succeeded() {
        let upto = pairs(operations.len(), response.results@.len());
        let at = least_of_operations(operations, response, upto, now);
        assert forall|c: (int, int, int), other: (u64, Basis)| #[trigger]
            expires(operations, response, now, c, other) implies c.0 < upto by {}
        at
    } else {
        (0, 0, 0)
    }
}

} // verus!
