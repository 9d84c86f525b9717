//! The delivery of a recall: procedures are checked once more, and no permission
//! outlives its time.

use vstd::prelude::*;

use super::material::{Failure, Material, Stock};
use super::passes::ToolResult;
use super::{Channel, Item, MemoryItem, Priority};
use crate::json::{self, Datum, Json};
use crate::kip::{self, CommandShape, Limit, Operation, Rows};
use crate::spelling;
use crate::text;

verus! {

/// The most procedures that a delivery checks.
pub const MAX_PROCEDURES: usize = 8;

// ---------------------------------------------------------------------------
// Procedures
// ---------------------------------------------------------------------------

/// The skills with those of the checked procedures.
pub open spec fn with_procedures(
    skills: Seq<Seq<char>>,
    procedures: Seq<super::material::Procedure>,
) -> Seq<Seq<char>>
    decreases procedures.len(),
{
    if procedures.len() == 0 {
        skills
    } else {
        text::inserted(
            with_procedures(skills, procedures.drop_last()),
            procedures.last().skill@,
        )
    }
}

/// One of the items is the check of a procedure.
pub open spec fn is_check(procedures: Seq<super::material::Procedure>, id: Seq<char>) -> bool {
    exists|k: int| 0 <= k < procedures.len() && (#[trigger] procedures[k]).item@ == id
}

/// Admits the items that are no check of a procedure.
pub open spec fn no_check(procedures: Seq<super::material::Procedure>) -> spec_fn(Item) -> bool {
    |i: Item| !is_check(procedures, i.id)
}

fn checks(procedures: &Vec<super::material::Procedure>, id: &str) -> (r: bool)
    ensures
        r == is_check(procedures@, id@),
{
    let mut i: usize = 0;
    while i < procedures.len()
        invariant
            i <= procedures.len(),
            forall|k: int| 0 <= k < i ==> (#[trigger] procedures@[k]).item@ != id@,
        decreases procedures.len() - i,
    {
        if text::same(procedures[i].item.as_str(), id) {
            return true;
        }
        i = i + 1;
    }
    false
}

fn all_skills(material: &Material) -> (r: Vec<String>)
    requires
        material.wf(),
    ensures
        text::is_sorted_set(text::views(r@)),
        text::views(r@) == with_procedures(text::views(material.skills@), material.procedures@),
{
    let mut skills = text::copy_list(&material.skills);
    let mut i: usize = 0;
    proof {
        assert(material.procedures@.take(0) =~= Seq::empty());
    }
    while i < material.procedures.len()
        invariant
            i <= material.procedures.len(),
            text::is_sorted_set(text::views(skills@)),
            text::views(skills@) == with_procedures(
                text::views(material.skills@),
                material.procedures@.take(i as int),
            ),
        decreases material.procedures.len() - i,
    {
        proof {
            assert(material.procedures@.take(i + 1).drop_last() =~= material.procedures@.take(
                i as int,
            ));
            assert(material.procedures@.take(i + 1).last() == material.procedures@[i as int]);
        }
        let _new = text::insert_sorted(&mut skills, material.procedures[i].skill.as_str());
        i = i + 1;
    }
    proof {
        assert(material.procedures@.take(i as int) =~= material.procedures@);
    }
    skills
}

/// The skills whose current state has to be checked before delivery. Every
/// earlier check is dropped: none of its permissions survives. With too many
/// skills something required is missing.
pub fn plan_refresh(material: &mut Material, can_check: bool) -> (r: Option<Vec<String>>)
    requires
        old(material).wf(),
    ensures
        final(material).wf(),
        ({
            let all = with_procedures(text::views(old(material).skills@), old(material).procedures@);
            if !can_check {
                r is None && *final(material) == *old(material)
            } else if all.len() > MAX_PROCEDURES {
                &&& r is None
                &&& final(material).stock() == old(material).stock().missing().left_out(
                    Channel::Procedures,
                )
                &&& final(material).failure == Some(Failure::ProcedureWindow)
                &&& final(material).max_items == old(material).max_items
                &&& final(material).skills == old(material).skills
                &&& final(material).procedures == old(material).procedures
            } else {
                &&& r matches Some(skills) && text::views(skills@) == all
                &&& final(material).same_aside(*old(material))
                &&& final(material).stock() == (Stock {
                    items: old(material).stock().items.filter(
                        no_check(old(material).procedures@),
                    ),
                    ..old(material).stock()
                })
            }
        }),
{
    if !can_check {
        return None;
    }
    let skills = all_skills(material);
    assert(text::views(skills@).len() == skills@.len());
    if skills.len() > MAX_PROCEDURES {
        material.critical_missing = true;
        material.failure = Some(Failure::ProcedureWindow);
        material.omit(Channel::Procedures);
        return None;
    }
    let ghost all = super::items(material.items@);
    let ghost keep = no_check(material.procedures@);
    let mut out: Vec<MemoryItem> = Vec::new();
    let mut i: usize = 0;
    proof {
        reveal(Seq::filter);
        assert(all.take(0) =~= Seq::empty());
        assert(super::items(out@) =~= all.take(0).filter(keep));
    }
    while i < material.items.len()
        invariant
            i <= material.items.len(),
            *material == *old(material),
            all == super::items(material.items@),
            keep == no_check(material.procedures@),
            super::items(out@) == all.take(i as int).filter(keep),
        decreases material.items.len() - i,
    {
        let ghost before = super::items(out@);
        proof {
            reveal(Seq::filter);
            assert(all.take(i + 1).drop_last() =~= all.take(i as int));
            assert(all.take(i + 1).last() == material.items@[i as int]@);
        }
        if !checks(&material.procedures, material.items[i].id.as_str()) {
            out.push(material.items[i].copy());
            assert(super::items(out@) =~= before.push(material.items@[i as int]@));
        }
        i = i + 1;
    }
    proof {
        assert(all.take(i as int) =~= all);
    }
    material.items = out;
    Some(skills)
}

/// The check allows a recommendation, and neither its context nor its review is
/// out of time.
pub open spec fn is_current(v: Datum, now_ms: u64, now: Seq<char>) -> bool {
    &&& v.at("recommendation_allowed"@) == Datum::Bool(true)
    &&& v.at("context_expires_at_ms"@).as_u64() matches Some(t) && t > now_ms
    &&& v.text_at("review_due_at"@) matches Some(t) && text::less(now, t)
}

pub const EXPIRED_NOTE: &'static str =
    "current applicability was not established or expired before delivery";

pub const REVALIDATE_NOTE: &'static str =
    "procedure check expired before delivery; revalidation required";

/// The value with a member set; a missing value becomes an object.
pub open spec fn assigned(v: Datum, name: Seq<char>, member: Datum) -> Datum {
    if v is Null {
        Datum::empty().with(name, member)
    } else {
        v.with(name, member)
    }
}

fn assign(value: Json, name: &str, member: Json) -> (r: Json)
    ensures
        r@ == assigned(value@, name@, member@),
{
    if value.is_null() {
        Json::object().with(name, member)
    } else {
        value.with(name, member)
    }
}

/// The check without its permission, and the reason for that.
pub open spec fn downgraded(v: Datum, note: Seq<char>) -> Datum {
    assigned(
        assigned(v, "recommendation_allowed"@, Datum::Bool(false)),
        "host_delivery_warning"@,
        Datum::Text(note),
    )
}

fn downgrade(value: Json, note: &str) -> (r: Json)
    ensures
        r@ == downgraded(value@, note@),
{
    assign(
        assign(value, "recommendation_allowed", Json::Bool(false)),
        "host_delivery_warning",
        Json::text(note),
    )
}

pub open spec fn unverified_value(skill: Seq<char>) -> Datum {
    Datum::empty().with("skill_ref"@, Datum::Text(skill)).with(
        "recommendation_allowed"@,
        Datum::Bool(false),
    ).with("reason"@, Datum::Text("current procedure verification unavailable"@))
}

/// What the check of a skill says at delivery.
pub open spec fn checked_content(
    skill: Seq<char>,
    result: Option<(Datum, bool)>,
    now_ms: u64,
    now: Seq<char>,
) -> Datum {
    match result {
        Some((value, false)) => if is_current(value, now_ms, now) {
            value
        } else {
            downgraded(value, EXPIRED_NOTE@)
        },
        _ => unverified_value(skill),
    }
}

pub open spec fn checked_priority(
    result: Option<(Datum, bool)>,
    now_ms: u64,
    now: Seq<char>,
) -> Priority {
    match result {
        Some((value, false)) => if is_current(value, now_ms, now) {
            Priority::Required
        } else {
            Priority::Warning
        },
        _ => Priority::Warning,
    }
}

fn current(value: &Json, now_ms: u64, now: &str) -> (r: bool)
    ensures
        r == is_current(value@, now_ms, now@),
{
    let allowed = match value.get("recommendation_allowed") {
        Some(flag) => flag.is_true(),
        None => false,
    };
    let in_context = match value.u64_at("context_expires_at_ms") {
        Some(t) => t > now_ms,
        None => false,
    };
    let in_review = match value.text_at("review_due_at") {
        Some(t) => text::text_less(now, t),
        None => false,
    };
    allowed && in_context && in_review
}

/// Takes over the current check of a skill. It is delivered whether or not the
/// model asked for it.
pub fn procedure_checked(
    material: &mut Material,
    skill: &str,
    result: Option<ToolResult>,
    now_ms: u64,
    now: &str,
)
    requires
        old(material).next_id < usize::MAX,
    ensures
        final(material).same_aside(*old(material)),
        final(material).stock() == old(material).stock().offered(
            old(material).max_items,
            Channel::Procedures,
            checked_priority(super::passes::result_view(result), now_ms, now@),
            checked_content(skill@, super::passes::result_view(result), now_ms, now@),
        ),
{
    let missing = Json::object().with("skill_ref", Json::text(skill)).with(
        "recommendation_allowed",
        Json::Bool(false),
    ).with("reason", Json::text("current procedure verification unavailable"));
    let (content, priority) = match result {
        Some(r) => {
            if r.error {
                (missing, Priority::Warning)
            } else if current(&r.value, now_ms, now) {
                (r.value, Priority::Required)
            } else {
                (downgrade(r.value, EXPIRED_NOTE), Priority::Warning)
            }
        },
        None => (missing, Priority::Warning),
    };
    let _id = material.add(Channel::Procedures, priority, content);
}

// ---------------------------------------------------------------------------
// Expiry at delivery
// ---------------------------------------------------------------------------

/// The item is a procedure that is still recommended.
pub open spec fn is_permit(item: Item) -> bool {
    item.channel == Channel::Procedures && item.content.at("recommendation_allowed"@)
        == Datum::Bool(true)
}

/// The permission is out of time.
pub open spec fn is_stale(v: Datum, now_ms: u64, now: Seq<char>) -> bool {
    ||| !(v.at("context_expires_at_ms"@).as_u64() matches Some(t) && t > now_ms)
    ||| !(v.text_at("review_due_at"@) matches Some(t) && text::less(now, t))
}

/// The item loses its permission.
pub open spec fn expires(item: Item, now_ms: u64, now: Seq<char>, all: bool) -> bool {
    is_permit(item) && (all || is_stale(item.content, now_ms, now))
}

/// The item as it is delivered.
pub open spec fn expired(item: Item, now_ms: u64, now: Seq<char>, all: bool) -> Item {
    if expires(item, now_ms, now, all) {
        Item {
            content: downgraded(item.content, REVALIDATE_NOTE@),
            priority: Priority::Warning,
            ..item
        }
    } else {
        item
    }
}

fn stale(value: &Json, now_ms: u64, now: &str) -> (r: bool)
    ensures
        r == is_stale(value@, now_ms, now@),
{
    let in_context = match value.u64_at("context_expires_at_ms") {
        Some(t) => t > now_ms,
        None => false,
    };
    let in_review = match value.text_at("review_due_at") {
        Some(t) => text::text_less(now, t),
        None => false,
    };
    !in_context || !in_review
}

/// Takes the permissions away that are out of time, or all of them.
pub fn expire_procedure_checks(
    items: &mut Vec<MemoryItem>,
    now_ms: u64,
    now: &str,
    all: bool,
) -> (changed: bool)
    ensures
        final(items)@.len() == old(items)@.len(),
        forall|i: int|
            0 <= i < old(items)@.len() ==> (#[trigger] final(items)@[i])@ == expired(
                old(items)@[i]@,
                now_ms,
                now@,
                all,
            ),
        changed == exists|i: int|
            0 <= i < old(items)@.len() && expires(#[trigger] old(items)@[i]@, now_ms, now@, all),
{
    let ghost before = items@;
    let mut changed = false;
    let mut i: usize = 0;
    while i < items.len()
        invariant
            i <= items.len(),
            items@.len() == before.len(),
            forall|k: int|
                0 <= k < i ==> (#[trigger] items@[k])@ == expired(before[k]@, now_ms, now@, all),
            forall|k: int| i <= k < before.len() ==> items@[k] == #[trigger] before[k],
            changed == exists|k: int|
                0 <= k < i && expires(#[trigger] before[k]@, now_ms, now@, all),
        decreases items.len() - i,
    {
        assert(items@[i as int] == before[i as int]);
        let permit = items[i].channel == Channel::Procedures && match items[i].content.get(
            "recommendation_allowed",
        ) {
            Some(flag) => flag.is_true(),
            None => false,
        };
        if permit && (all || stale(&items[i].content, now_ms, now)) {
            let item = MemoryItem {
                id: items[i].id.clone(),
                channel: items[i].channel,
                priority: Priority::Warning,
                content: downgrade(items[i].content.copy(), REVALIDATE_NOTE),
            };
            items.set(i, item);
            changed = true;
        }
        i = i + 1;
    }
    changed
}

/// Whether a packet has to be made anew because a permission ran out while it was
/// written; if so, every permission is taken away.
pub fn expired_while_packing(
    items: &mut Vec<MemoryItem>,
    now_ms: u64,
    now: &str,
    failed: bool,
    critical_missing: bool,
) -> (again: bool)
    ensures
        again == (!failed && !critical_missing && exists|i: int|
            0 <= i < old(items)@.len() && expires(
                (#[trigger] old(items)@[i])@,
                now_ms,
                now@,
                false,
            )),
        again ==> final(items)@.len() == old(items)@.len() && forall|i: int|
            0 <= i < final(items)@.len() ==> (#[trigger] final(items)@[i])@ == expired(
                expired(old(items)@[i]@, now_ms, now@, false),
                now_ms,
                now@,
                true,
            ) && !is_permit(final(items)@[i]@),
        !again ==> super::items(final(items)@) == super::items(old(items)@),
{
    if failed || critical_missing {
        return false;
    }
    if expire_procedure_checks(items, now_ms, now, false) {
        let ghost middle = items@;
        let _all = expire_procedure_checks(items, now_ms, now, true);
        proof {
            assert forall|i: int| 0 <= i < items@.len() implies !is_permit(
                (#[trigger] items@[i])@,
            ) by {
                downgraded_is_no_permit(middle[i]@, now_ms, now@);
            }
        }
        true
    } else {
        proof {
            assert forall|i: int| 0 <= i < items@.len() implies items@[i]@ == old(items)@[i]@ by {
                assert(!expires(old(items)@[i]@, now_ms, now@, false));
            }
            assert(super::items(items@) =~= super::items(old(items)@));
        }
        false
    }
}

/// An item whose permission was taken away is no permit.
proof fn downgraded_is_no_permit(item: Item, now_ms: u64, now: Seq<char>)
    ensures
        !is_permit(expired(item, now_ms, now, true)),
{
    if is_permit(item) {
        reveal_strlit("recommendation_allowed");
        reveal_strlit("host_delivery_warning");
        assert("recommendation_allowed"@.len() != "host_delivery_warning"@.len());
        let first = item.content.with("recommendation_allowed"@, Datum::Bool(false));
        crate::json::set_is_found(
            item.content->Object_0,
            "recommendation_allowed"@,
            Datum::Bool(false),
        );
        crate::json::set_keeps_others(
            first->Object_0,
            "host_delivery_warning"@,
            Datum::Text(REVALIDATE_NOTE@),
            "recommendation_allowed"@,
        );
    }
}

/// No permission survives its time: whatever is delivered after the expiry check
/// is either no permit, or in time.
pub proof fn no_permission_outlives_its_time(item: Item, now_ms: u64, now: Seq<char>)
    ensures
        is_permit(expired(item, now_ms, now, false)) ==> !is_stale(
            expired(item, now_ms, now, false).content,
            now_ms,
            now,
        ),
        !is_permit(expired(item, now_ms, now, true)),
{
    downgraded_is_no_permit(item, now_ms, now);
    if expires(item, now_ms, now, false) {
        assert(expired(item, now_ms, now, false) == expired(item, now_ms, now, true));
    }
}

// ---------------------------------------------------------------------------
// The outcome
// ---------------------------------------------------------------------------

/// Whether an ordinary packet may be made at all.
pub fn may_pack(failed: bool, critical_missing: bool) -> (r: bool)
    ensures
        r == (!failed && !critical_missing),
{
    !failed && !critical_missing
}

/// Why a recall delivers no ordinary packet, if it does not.
pub fn delivery_failure(insufficient: bool, failure: Option<Failure>) -> (r: Option<Failure>)
    ensures
        r == if insufficient {
            match failure {
                Some(f) => Some(f),
                None => Some(Failure::OutputBudget),
            }
        } else {
            None
        },
{
    if insufficient {
        match failure {
            Some(f) => Some(f),
            None => Some(Failure::OutputBudget),
        }
    } else {
        None
    }
}

// ---------------------------------------------------------------------------
// Limits of the model's own reads
// ---------------------------------------------------------------------------

#[derive(Clone, Copy, Debug, PartialEq, Eq, Structural)]
pub enum LimitError {
    NotInteger,
    Unresolved,
}

impl LimitError {
    /// The words of the error.
    pub open spec fn words(self) -> Seq<char> {
        match self {
            LimitError::NotInteger => "Recall LIMIT must be a nonnegative integer"@,
            LimitError::Unresolved =>
                "Recall LIMIT parameter must resolve to a nonnegative integer"@,
        }
    }

    pub fn message(&self) -> (r: &'static str)
        ensures
            r@ == self.words(),
    {
        match self {
            LimitError::NotInteger => "Recall LIMIT must be a nonnegative integer",
            LimitError::Unresolved =>
                "Recall LIMIT parameter must resolve to a nonnegative integer",
        }
    }
}

/// The value that a parameter is bound to: its own operation comes first.
pub open spec fn bound(name: Seq<char>, local: Option<Datum>, global: Option<Datum>) -> Option<
    Datum,
> {
    let own = match local {
        Some(parameters) => parameters.get(name),
        None => None,
    };
    match own {
        Some(value) => Some(value),
        None => match global {
            Some(parameters) => parameters.get(name),
            None => None,
        },
    }
}

/// The number of rows that a query asks for.
pub open spec fn requested_rows(
    limit: Rows,
    local: Option<Datum>,
    global: Option<Datum>,
) -> Result<u64, LimitError> {
    match limit {
        Rows::Absent => Ok(super::material::MAX_ROWS as u64),
        Rows::Number(Some(n)) => Ok(n),
        Rows::Number(None) => Err(LimitError::NotInteger),
        Rows::Parameter(name) => match bound(name, local, global) {
            Some(value) => match value.as_u64() {
                Some(n) => Ok(n),
                None => Err(LimitError::Unresolved),
            },
            None => Err(LimitError::Unresolved),
        },
        Rows::Other => Err(LimitError::NotInteger),
    }
}

/// The rows that a query may return: never more than it asks for, and never more
/// than the host allows.
pub open spec fn allowed_rows(
    limit: Rows,
    local: Option<Datum>,
    global: Option<Datum>,
) -> Result<u64, LimitError> {
    match requested_rows(limit, local, global) {
        Ok(n) => Ok(
            if n <= super::material::MAX_ROWS {
                n
            } else {
                super::material::MAX_ROWS as u64
            },
        ),
        Err(e) => Err(e),
    }
}

pub open spec fn json_of(value: Option<&Json>) -> Option<Datum> {
    match value {
        Some(own) => Some(own@),
        None => None,
    }
}

/// Caps the limit that a query asks for.
pub fn capped_limit(limit: &Limit, local: Option<&Json>, global: Option<&Json>) -> (r: Result<
    u64,
    LimitError,
>)
    ensures
        r == allowed_rows(limit@, json_of(local), json_of(global)),
        r matches Ok(n) ==> n <= super::material::MAX_ROWS,
{
    let requested: u64 = match limit {
        Limit::Absent => super::material::MAX_ROWS as u64,
        Limit::Number(Some(n)) => *n,
        Limit::Number(None) => return Err(LimitError::NotInteger),
        Limit::Parameter(name) => {
            let own = match local {
                Some(parameters) => parameters.get(name.as_str()),
                None => None,
            };
            let value = match own {
                Some(value) => Some(value),
                None => match global {
                    Some(parameters) => parameters.get(name.as_str()),
                    None => None,
                },
            };
            match value {
                Some(value) => match value.as_u64() {
                    Some(n) => n,
                    None => return Err(LimitError::Unresolved),
                },
                None => return Err(LimitError::Unresolved),
            }
        },
        Limit::Other => return Err(LimitError::NotInteger),
    };
    let most: u64 = super::material::MAX_ROWS as u64;
    Ok(
        if requested <= most {
            requested
        } else {
            most
        },
    )
}

#[derive(Clone, Copy, Debug, PartialEq, Eq, Structural)]
pub enum BudgetError {
    /// The request is none, or one of its operations does not parse.
    InvalidRequest,
    TooManyOperations,
    MetaUnavailable,
    ReadOnly,
    Limit(LimitError),
}

impl BudgetError {
    /// The words of the error.
    pub open spec fn words(self) -> Seq<char> {
        match self {
            BudgetError::InvalidRequest => "the KIP request is invalid"@,
            BudgetError::TooManyOperations =>
                "bounded Recall allows at most four KIP operations per read"@,
            BudgetError::MetaUnavailable =>
                "bounded Recall supports KQL and SEARCH; broad metadata expansion is unavailable"@,
            BudgetError::ReadOnly => "Recall is read-only"@,
            BudgetError::Limit(e) => e.words(),
        }
    }

    pub fn message(&self) -> (r: &'static str)
        ensures
            r@ == self.words(),
    {
        match self {
            BudgetError::InvalidRequest => "the KIP request is invalid",
            BudgetError::TooManyOperations =>
                "bounded Recall allows at most four KIP operations per read",
            BudgetError::MetaUnavailable =>
                "bounded Recall supports KQL and SEARCH; broad metadata expansion is unavailable",
            BudgetError::ReadOnly => "Recall is read-only",
            BudgetError::Limit(e) => e.message(),
        }
    }
}

/// The most operations of one read.
pub const MAX_READ_OPERATIONS: usize = 4;

/// The parameters that one operation of a request binds itself.
pub open spec fn own_parameters(request: Datum, i: int) -> Option<Datum> {
    match request.at("operations"@) {
        Datum::Array(operations) => if 0 <= i < operations.len() {
            operations[i].get("parameters"@)
        } else {
            None
        },
        _ => None,
    }
}

/// The rows that one operation may return, or why it is refused.
pub open spec fn operation_rows(operation: Option<Operation>, request: Datum, i: int) -> Result<
    u64,
    BudgetError,
> {
    let rows = match operation {
        Some(Operation::Search(limit)) => Ok(limit),
        Some(Operation::Query(_, _, _, limit)) => Ok(limit),
        Some(Operation::Meta) => Err(BudgetError::MetaUnavailable),
        Some(Operation::Write) => Err(BudgetError::ReadOnly),
        None => Err(BudgetError::InvalidRequest),
    };
    match rows {
        Ok(limit) => match allowed_rows(limit, own_parameters(request, i), request.get("parameters"@)) {
            Ok(n) => Ok(n),
            Err(e) => Err(BudgetError::Limit(e)),
        },
        Err(e) => Err(e),
    }
}

/// What becomes of a read with these operations: each gets a limit of its own, or
/// the first that gets none refuses the whole.
pub open spec fn bounded(
    operations: Seq<Option<Operation>>,
    request: Datum,
    r: Result<Seq<u64>, BudgetError>,
) -> bool {
    if operations.len() > MAX_READ_OPERATIONS {
        r == Err::<Seq<u64>, BudgetError>(BudgetError::TooManyOperations)
    } else if operations.contains(None) {
        r == Err::<Seq<u64>, BudgetError>(BudgetError::InvalidRequest)
    } else {
        match r {
            Ok(limits) => limits.len() == operations.len() && forall|i: int|
                0 <= i < limits.len() ==> operation_rows(operations[i], request, i) == Ok::<
                    u64,
                    BudgetError,
                >(#[trigger] limits[i]),
            Err(e) => exists|i: int|
                0 <= i < operations.len() && #[trigger] operation_rows(operations[i], request, i)
                    == Err::<u64, BudgetError>(e) && forall|k: int|
                    0 <= k < i ==> #[trigger] operation_rows(operations[k], request, k) is Ok,
        }
    }
}

pub open spec fn limits_view(r: Result<Vec<u64>, BudgetError>) -> Result<Seq<u64>, BudgetError> {
    match r {
        Ok(limits) => Ok(limits@),
        Err(e) => Err(e),
    }
}

fn find_parameters<'a>(request: &'a Json, i: usize) -> (r: Option<&'a Json>)
    ensures
        json_of(r) == own_parameters(request@, i as int),
{
    match request.get("operations") {
        Some(operations) => match operations.as_array() {
            Some(list) => if i < list.len() {
                list[i].get("parameters")
            } else {
                None
            },
            None => None,
        },
        None => None,
    }
}

fn limit_operation(operation: &Option<CommandShape>, request: &Json, i: usize) -> (r: Result<
    u64,
    BudgetError,
>)
    ensures
        r == operation_rows(
            match operation {
                Some(shape) => Some(shape@),
                None => None,
            },
            request@,
            i as int,
        ),
{
    let limit = match operation {
        Some(CommandShape::Search(limit)) => limit,
        Some(CommandShape::Query(query)) => &query.limit,
        Some(CommandShape::Meta) => return Err(BudgetError::MetaUnavailable),
        Some(CommandShape::Write) => return Err(BudgetError::ReadOnly),
        None => return Err(BudgetError::InvalidRequest),
    };
    match capped_limit(limit, find_parameters(request, i), request.get("parameters")) {
        Ok(n) => Ok(n),
        Err(e) => Err(BudgetError::Limit(e)),
    }
}

/// The limits of a read, by its parsed operations: each must be a query or a
/// search, and each gets a limit of its own.
pub fn bound_operations(operations: &Vec<Option<CommandShape>>, request: &Json) -> (r: Result<
    Vec<u64>,
    BudgetError,
>)
    ensures
        bounded(kip::operations_view(operations@), request@, limits_view(r)),
        r matches Ok(limits) ==> forall|i: int|
            0 <= i < limits@.len() ==> #[trigger] limits@[i] <= super::material::MAX_ROWS,
{
    let ghost all = kip::operations_view(operations@);
    if operations.len() > MAX_READ_OPERATIONS {
        return Err(BudgetError::TooManyOperations);
    }
    let mut n: usize = 0;
    while n < operations.len()
        invariant
            n <= operations.len(),
            all == kip::operations_view(operations@),
            operations.len() <= MAX_READ_OPERATIONS,
            forall|k: int| 0 <= k < n ==> #[trigger] all[k] is Some,
        decreases operations.len() - n,
    {
        if operations[n].is_none() {
            assert(all[n as int] is None);
            return Err(BudgetError::InvalidRequest);
        }
        n = n + 1;
    }
    assert(!all.contains(None));
    let mut limits: Vec<u64> = Vec::new();
    let mut i: usize = 0;
    while i < operations.len()
        invariant
            i <= operations.len() <= MAX_READ_OPERATIONS,
            all == kip::operations_view(operations@),
            !all.contains(None),
            limits@.len() == i,
            forall|k: int|
                0 <= k < i ==> operation_rows(all[k], request@, k) == Ok::<u64, BudgetError>(
                    #[trigger] limits@[k],
                ),
            forall|k: int| 0 <= k < i ==> #[trigger] operation_rows(all[k], request@, k) is Ok,
            forall|k: int| 0 <= k < i ==> #[trigger] limits@[k] <= super::material::MAX_ROWS,
        decreases operations.len() - i,
    {
        match limit_operation(&operations[i], request, i) {
            Ok(rows) => limits.push(rows),
            Err(e) => {
                assert(operation_rows(all[i as int], request@, i as int) == Err::<u64, BudgetError>(e));
                return Err(e);
            },
        }
        i = i + 1;
    }
    Ok(limits)
}

/// The operations that a request lists.
pub open spec fn listed(request: Datum) -> nat {
    match request.at("operations"@) {
        Datum::Array(operations) => operations.len(),
        _ => 0,
    }
}

/// What becomes of a read: too many operations refuse it, and so does what is no
/// request; otherwise its operations decide.
pub open spec fn read_bounded(request: Datum, r: Result<Seq<u64>, BudgetError>) -> bool {
    if listed(request) > MAX_READ_OPERATIONS {
        r == Err::<Seq<u64>, BudgetError>(BudgetError::TooManyOperations)
    } else {
        match kip::request_of(request.written()) {
            Some(operations) => bounded(operations, request, r),
            None => r == Err::<Seq<u64>, BudgetError>(BudgetError::InvalidRequest),
        }
    }
}

/// The limits of a read that the model asked for, by the request itself.
pub fn bound_read(request: &Json) -> (r: Result<Vec<u64>, BudgetError>)
    ensures
        read_bounded(request@, limits_view(r)),
        r matches Ok(limits) ==> limits@.len() <= MAX_READ_OPERATIONS,
        r matches Ok(limits) ==> forall|i: int|
            0 <= i < limits@.len() ==> #[trigger] limits@[i] <= super::material::MAX_ROWS,
{
    if let Some(operations) = request.get("operations") {
        if let Some(list) = operations.as_array() {
            if list.len() > MAX_READ_OPERATIONS {
                return Err(BudgetError::TooManyOperations);
            }
        }
    }
    match kip::read_request(request.to_text().as_str()) {
        Some(operations) => bound_operations(&operations, request),
        None => Err(BudgetError::InvalidRequest),
    }
}

/// The arguments of a wiki search, cut down: no more than eight hits, and none of
/// what stands beside them.
pub open spec fn searched(args: Datum) -> Datum {
    assigned(
        assigned(
            args,
            "top_k"@,
            Datum::Unsigned(
                match args.at("top_k"@).as_u64() {
                    Some(n) => if n <= 8 {
                        n
                    } else {
                        8
                    },
                    None => 8,
                },
            ),
        ),
        "expand"@,
        Datum::Unsigned(0),
    )
}

/// The most hits that a wiki search returns, and how far it expands.
pub fn bound_wiki_search(args: Json) -> (r: Json)
    requires
        args@ is Object || args@ is Null,
    ensures
        r@ == searched(args@),
{
    let top: u64 = match args.u64_at("top_k") {
        Some(n) => if n <= 8 {
            n
        } else {
            8
        },
        None => 8,
    };
    assign(assign(args, "top_k", Json::unsigned(top)), "expand", Json::unsigned(0))
}

/// Whatever a wiki search asks for, it returns at most eight hits and expands none.
pub proof fn searches_are_cut_down(args: Datum)
    requires
        args is Object || args is Null,
    ensures
        searched(args).at("top_k"@) matches Datum::Unsigned(n) && n <= 8,
        searched(args).at("expand"@) == Datum::Unsigned(0),
{
    broadcast use json::with_is_read_back;

    reveal_strlit("top_k");
    reveal_strlit("expand");
    assert("top_k"@.len() != "expand"@.len());
    let first = assigned(
        args,
        "top_k"@,
        Datum::Unsigned(
            match args.at("top_k"@).as_u64() {
                Some(n) => if n <= 8 {
                    n
                } else {
                    8
                },
                None => 8,
            },
        ),
    );
    assert(first is Object);
    assert(searched(args).get("top_k"@) == first.get("top_k"@));
    assert(first.get("top_k"@) is Some);
}

// ---------------------------------------------------------------------------
// Requests to the planner
// ---------------------------------------------------------------------------

/// A fresh request to the planner.
#[derive(Debug)]
pub struct PlannerRequest {
    pub instructions: String,
    pub prompt: String,
    pub tools: Json,
    pub max_output_tokens: Option<u64>,
    pub tool_choice_required: bool,
    pub effort: Option<String>,
    /// How many messages of a chat history are attached.
    pub chat_history: usize,
    /// How many messages of a raw history are attached.
    pub raw_history: usize,
    /// How many documents are attached.
    pub documents: usize,
    /// How many pieces of content are attached.
    pub content: usize,
    /// An output schema is attached.
    pub output_schema: bool,
}

impl PlannerRequest {
    /// A history, a document, content or an output schema is attached.
    pub open spec fn carries_more(self) -> bool {
        self.chat_history > 0 || self.raw_history > 0 || self.documents > 0 || self.content > 0
            || self.output_schema
    }

    /// The two requests agree in every field that is counted.
    pub open spec fn asks_as(self, other: PlannerRequest) -> bool {
        &&& self.instructions@ == other.instructions@
        &&& self.prompt@ == other.prompt@
        &&& self.tools@ == other.tools@
        &&& self.max_output_tokens == other.max_output_tokens
        &&& self.tool_choice_required == other.tool_choice_required
        &&& match (self.effort, other.effort) {
            (Some(a), Some(b)) => a@ == b@,
            (None, None) => true,
            _ => false,
        }
    }
}

pub const INPUT_FORMAT: &'static str = "anda-brain-recall-input/1";

/// Every field of a request that carries data.
pub open spec fn request_value(r: PlannerRequest) -> Datum {
    Datum::empty().with("format"@, Datum::Text(INPUT_FORMAT@)).with(
        "instructions"@,
        Datum::Text(r.instructions@),
    ).with("prompt"@, Datum::Text(r.prompt@)).with("tools"@, r.tools@).with(
        "max_output_tokens"@,
        match r.max_output_tokens {
            Some(n) => Datum::Unsigned(n),
            None => Datum::Null,
        },
    ).with("tool_choice_required"@, Datum::Bool(r.tool_choice_required)).with(
        "effort"@,
        match r.effort {
            Some(e) => Datum::Text(e@),
            None => Datum::Null,
        },
    )
}

/// The text that a request is counted by; a request with any other material is
/// refused, so nothing bypasses the count.
pub fn normalized_request(request: &PlannerRequest) -> (r: Option<String>)
    ensures
        match r {
            Some(encoded) => !request.carries_more() && encoded@ == request_value(
                *request,
            ).written(),
            None => request.carries_more(),
        },
{
    if request.chat_history > 0 || request.raw_history > 0 || request.documents > 0
        || request.content > 0 || request.output_schema {
        return None;
    }
    let tokens = match request.max_output_tokens {
        Some(n) => Json::unsigned(n),
        None => Json::Null,
    };
    let value = Json::object().with("format", Json::text(INPUT_FORMAT)).with(
        "instructions",
        Json::text(request.instructions.as_str()),
    ).with("prompt", Json::text(request.prompt.as_str())).with("tools", request.tools.copy()).with(
        "max_output_tokens",
        tokens,
    ).with("tool_choice_required", Json::Bool(request.tool_choice_required)).with(
        "effort",
        Json::text_or_null(&request.effort),
    );
    Some(value.to_text())
}

/// The text that a request is counted by tells the request: two requests have the
/// same text only where they agree in every field that is counted.
pub proof fn counted_texts_tell_requests_apart(a: PlannerRequest, b: PlannerRequest)
    requires
        spelling::legible(a.tools@),
        spelling::legible(b.tools@),
    ensures
        request_value(a).written() == request_value(b).written() <==> a.asks_as(b),
{
    broadcast use {json::with_is_read_back, spelling::a_member_keeps_legible};

    reveal_strlit("format");
    reveal_strlit("instructions");
    reveal_strlit("prompt");
    reveal_strlit("tools");
    reveal_strlit("max_output_tokens");
    reveal_strlit("tool_choice_required");
    reveal_strlit("effort");
    let v = request_value(a);
    let w = request_value(b);
    spelling::written_tells_apart(v, w);
    assert(v.get("instructions"@) == Some(Datum::Text(a.instructions@)));
    assert(w.get("instructions"@) == Some(Datum::Text(b.instructions@)));
    assert(v.get("prompt"@) == Some(Datum::Text(a.prompt@)));
    assert(w.get("prompt"@) == Some(Datum::Text(b.prompt@)));
    assert(v.get("tools"@) == Some(a.tools@));
    assert(w.get("tools"@) == Some(b.tools@));
    assert(v.get("max_output_tokens"@) == w.get("max_output_tokens"@) <==> a.max_output_tokens
        == b.max_output_tokens);
    assert(v.get("tool_choice_required"@) == Some(Datum::Bool(a.tool_choice_required)));
    assert(w.get("tool_choice_required"@) == Some(Datum::Bool(b.tool_choice_required)));
    assert(v.get("effort"@) == w.get("effort"@) ==> a.effort.is_some() == b.effort.is_some());
}

} // verus!
