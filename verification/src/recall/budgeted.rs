//! A budgeted recall, step by step. The host reads, counts, packs and calls the
//! model; which of these comes next, and what becomes of the answer, is decided
//! here.

use vstd::prelude::*;

use super::delivery;
use super::material::{Coverage, Failure, Material, Stock, MAX_BYTES, MAX_CALLS, MAX_CALLS_PER_TURN};
use super::passes::{self, Admission, CallStep, ModelReply, Planner, ReplyStep, ToolCall, ToolResult};
use super::planner::{self, Discovery};
use super::{copy_items, Channel, Item, MemoryItem, Priority, RecallBudget};
use crate::json::{Datum, Json};
use crate::text;

verus! {

/// The tool that checks a procedure.
pub const CHECK: &'static str = "check_procedure_status";

/// The query for the unresolved commitments: one more than a read returns, so that
/// a full page is seen.
pub const CONSTRAINTS_QUERY: &'static str =
    "FIND(?c) WHERE {?c CONCEPT {type:\"Commitment\"} FILTER(?c.attributes.status == \"pending\" || ?c.attributes.status == \"blocked\")} LIMIT 33";

/// The search for the question.
pub const DISCOVERY_QUERY: &'static str = "SEARCH CONCEPT :query LIMIT 8";

/// What the host is waited for.
#[derive(Clone, Copy, Debug, PartialEq, Eq, Structural)]
pub enum Stage {
    /// Whether the host's own note fits the packet.
    Note,
    Context,
    Constraints,
    /// Whether all that is required fits the packet.
    Required,
    Search,
    Weight,
    Clock,
    Model,
    Reference,
    Read(Channel),
    Check,
    Packet,
    /// The packet that was made anew because a permission ran out.
    Again,
    Over,
}

impl Stage {
    /// How far along it is.
    pub open spec fn order(self) -> nat {
        match self {
            Stage::Note => 0,
            Stage::Context => 1,
            Stage::Constraints => 2,
            Stage::Required => 3,
            Stage::Search => 4,
            Stage::Weight => 4,
            Stage::Clock => 5,
            Stage::Model => 6,
            Stage::Reference => 7,
            Stage::Read(_) => 7,
            Stage::Check => 8,
            Stage::Packet => 9,
            Stage::Again => 10,
            Stage::Over => 11,
        }
    }
}

/// What the host does next.
#[derive(Debug, PartialEq, Eq)]
pub enum Ask {
    /// Pack all items, to see whether they fit.
    TryPacket,
    ReadContext,
    /// Run that query for the unresolved commitments.
    ReadConstraints(&'static str),
    /// Run that search for the question itself, which is its parameter.
    Search(&'static str),
    /// Write the request of this pass, and count it.
    CountRequest,
    ReadClock,
    /// Call the model with the request that was counted.
    Complete,
    /// Run the call, which explains the memory language.
    Explain,
    /// Run the call within its bounds; it reads that channel.
    Read(Channel),
    /// Check the current state of that skill.
    CheckProcedure(String),
    /// Make the packet; an empty one where no ordinary one may be made.
    Pack { empty: bool },
    /// The recall is over, and failed where a failure is given.
    Close(Option<Failure>),
}

/// What the search for the question returned.
#[derive(Debug)]
pub enum Hits {
    Found(Vec<Json>),
    Unreadable,
    Unavailable,
}

/// What the host reports.
#[derive(Debug)]
pub enum Told {
    Tried { insufficient: bool },
    Context {
        primer: Json,
        /// Nothing, where they were not read in time.
        notes: Option<Json>,
        profile: Option<Json>,
        /// The question names a counterparty.
        asked: bool,
        history: Json,
    },
    /// The unresolved commitments, where they were read.
    Constraints(Option<Vec<Json>>),
    Hits(Hits),
    Counted { bytes: usize, tokens: usize },
    Time { left: bool },
    Reply(Option<ModelReply>),
    Tool(Option<ToolResult>),
    Packed { insufficient: bool },
}

#[derive(Clone, Copy, Debug, PartialEq, Eq, Structural)]
pub struct OutOfTurn;

/// Why a recall does not start.
#[derive(Clone, Copy, Debug, PartialEq, Eq, Structural)]
pub enum StartError {
    Budget,
    Input(planner::InputError),
}

/// How far a recall has come.
#[derive(Debug)]
pub struct Recall {
    pub stage: Stage,
    /// The question.
    pub query: String,
    pub material: Material,
    pub planner: Planner,
    /// The most tokens that all requests together may take.
    pub limit: usize,
    pub passes_left: usize,
    /// The tools that the host lists.
    pub tools: Vec<String>,
    /// What the planner sees in this pass.
    pub visible: Vec<MemoryItem>,
    /// What was there when the pass began.
    pub candidates: Vec<MemoryItem>,
    pub before: Coverage,
    /// What the planner is told beside the items.
    pub observations: Vec<Json>,
    /// The calls of the last reply, and which of them comes next.
    pub calls: Vec<ToolCall>,
    pub next: usize,
    /// The skills that are checked before delivery.
    pub skills: Vec<String>,
    pub notes: Option<Json>,
    pub history: Json,
    /// What is delivered.
    pub delivered: Vec<MemoryItem>,
}

/// The moment of a step: the host's clock, and the time that memory goes by.
#[derive(Debug)]
pub struct Moment {
    pub ms: u64,
    pub timestamp: String,
}

pub open spec fn proceeds(r: Result<Ask, OutOfTurn>, ask: Ask) -> bool {
    r == Ok::<Ask, OutOfTurn>(ask)
}

pub open spec fn optional_value(value: Option<Json>) -> Option<Datum> {
    match value {
        Some(own) => Some(own@),
        None => None,
    }
}

// ---------------------------------------------------------------------------
// What the planner is told
// ---------------------------------------------------------------------------

pub open spec fn primer_told(primer: Datum) -> Datum {
    Datum::empty().with("primer"@, primer)
}

pub open spec fn search_told(ids: Seq<Seq<char>>) -> Datum {
    Datum::empty().with(
        "query_search"@,
        Datum::empty().with("item_ids"@, crate::json::text_list(ids)).with(
            "partial"@,
            Datum::Bool(true),
        ),
    )
}

pub const REFERENCE_HINT: &'static str =
    "Use document=index, or section=index for exact headings, with offset=0.";

pub open spec fn reference_missing() -> Datum {
    Datum::empty().with("status"@, Datum::Text("unavailable"@)).with(
        "hint"@,
        Datum::Text(REFERENCE_HINT@),
    )
}

/// What a look into the reference says. It is no memory, and covers no channel.
pub open spec fn reference_told(name: Seq<char>, result: Option<(Datum, bool)>) -> Datum {
    let (value, error) = match result {
        Some(r) => r,
        None => (reference_missing(), true),
    };
    Datum::empty().with("tool"@, Datum::Text(name)).with("reference"@, value).with(
        "is_error"@,
        Datum::Bool(error),
    )
}

fn tell_reference(name: &str, result: Option<ToolResult>) -> (r: Json)
    ensures
        r@ == reference_told(name@, passes::result_view(result)),
{
    let (value, error) = match result {
        Some(r) => (r.value, r.error),
        None => (
            Json::object().with("status", Json::text("unavailable")).with(
                "hint",
                Json::text(REFERENCE_HINT),
            ),
            true,
        ),
    };
    Json::object().with("tool", Json::text(name)).with("reference", value).with(
        "is_error",
        Json::Bool(error),
    )
}

/// What the planner is asked with: the question, what is visible, and what was
/// observed.
pub open spec fn prompt_value(
    query: Seq<char>,
    context: Datum,
    items: Datum,
    observations: Seq<Datum>,
    coverage: Datum,
) -> Datum {
    Datum::empty().with("query"@, Datum::Text(query)).with("context"@, context).with(
        "memory_items"@,
        items,
    ).with("observations"@, Datum::Array(observations)).with("coverage"@, coverage)
}

fn copy_values(list: &Vec<Json>) -> (r: Vec<Json>)
    ensures
        crate::json::items_view(r@) == crate::json::items_view(list@),
{
    let mut out: Vec<Json> = Vec::new();
    let mut i: usize = 0;
    while i < list.len()
        invariant
            i <= list.len(),
            out@.len() == i,
            forall|k: int| 0 <= k < i ==> (#[trigger] out@[k])@ == list@[k]@,
        decreases list.len() - i,
    {
        out.push(list[i].copy());
        i = i + 1;
    }
    assert(crate::json::items_view(out@) =~= crate::json::items_view(list@));
    out
}

/// The text that the planner is asked with.
pub fn planner_prompt(
    query: &str,
    context: Json,
    items: Json,
    observations: &Vec<Json>,
    coverage: Json,
) -> (r: String)
    ensures
        r@ == prompt_value(
            query@,
            context@,
            items@,
            crate::json::items_view(observations@),
            coverage@,
        ).written(),
{
    let told = Json::Array(copy_values(observations));
    proof {
        told.view_of_parts();
    }
    Json::object().with("query", Json::text(query)).with("context", context).with(
        "memory_items",
        items,
    ).with("observations", told).with("coverage", coverage).to_text()
}

/// How the model is told that it only selects.
pub const BUDGET_MODE: &'static str =
    "\n\n# Host budget mode\nYou are selecting an authorized memory packet for another agent. Read only through the listed tools, then call select_recall_items with existing memory item IDs. Initial query_search IDs are question-matched candidates, not proof of relevance. Select items that answer the question; use further reads when these candidates and the profile do not cover it. Compact views explicitly name omitted fields; project the original attributes or facet through KQL for details. The KIP tool supports only KQL and SEARCH in this mode (up to 4 operations, LIMIT at most 32); other META commands are unavailable and the current Primer is already supplied. Wiki search uses at most 8 hits without neighbor expansion. At most 4 tool calls per pass and 16 per Recall are allowed. You cannot add content or choose priorities. No free-form answer, grades or completeness claims will be delivered. Preserve native uncertainty, conflicts and warnings. Unchecked channels are unknown, not absent. Each pass receives the entire currently admitted snapshot; previous provider history is intentionally not replayed.";

/// The instructions of a planner.
pub fn planner_instructions(system: &str) -> (r: String)
    ensures
        r@ == system@ + BUDGET_MODE@,
{
    let mut out = system.to_owned();
    out.append(BUDGET_MODE);
    out
}

/// What a request weighs: one that is too long to be counted weighs more than any
/// budget.
pub open spec fn weight_of(bytes: usize, tokens: usize) -> usize {
    if bytes <= 4 * MAX_BYTES {
        tokens
    } else {
        usize::MAX
    }
}

// ---------------------------------------------------------------------------
// The state
// ---------------------------------------------------------------------------

impl Recall {
    pub open spec fn can_check(self) -> bool {
        text::views(self.tools@).contains(CHECK@)
    }

    /// How many items can have been admitted by now.
    pub open spec fn admitted_at_most(self) -> int {
        match self.stage {
            Stage::Note => 1,
            Stage::Context => 1,
            Stage::Constraints => 3,
            Stage::Required => 35,
            Stage::Search => 35,
            Stage::Weight => 45 + self.planner.calls,
            Stage::Clock => 45 + self.planner.calls,
            Stage::Model => 45 + self.planner.calls,
            Stage::Reference => 44 + self.planner.calls,
            Stage::Read(_) => 44 + self.planner.calls,
            Stage::Check => 62 + self.next,
            _ => 70,
        }
    }

    /// A call was counted, and those behind it fit what is left of the recall.
    pub open spec fn calls_fit(self) -> bool {
        &&& self.next < self.calls@.len() <= MAX_CALLS_PER_TURN
        &&& self.planner.calls >= 1
        &&& self.planner.calls + self.calls@.len() - self.next - 1 <= MAX_CALLS
    }

    /// Whatever was spent is within the limits.
    pub open spec fn wf(self) -> bool {
        &&& self.material.wf()
        &&& self.planner.context_spent <= self.limit
        &&& self.planner.calls <= MAX_CALLS
        &&& self.material.next_id <= self.admitted_at_most()
        &&& self.stage == Stage::Reference || self.stage is Read ==> self.calls_fit()
        &&& self.stage == Stage::Check ==> self.next < self.skills@.len()
            <= delivery::MAX_PROCEDURES
    }

    /// Only these parts of the state may differ.
    pub open spec fn only_material_and_planner(self, after: Recall) -> bool {
        after == (Recall { material: after.material, planner: after.planner, ..self })
    }
}

// ---------------------------------------------------------------------------
// Delivery
// ---------------------------------------------------------------------------

impl Recall {
    /// What is delivered loses every permission that is out of time.
    pub open spec fn delivers(
        self,
        after: Recall,
        now: Moment,
        r: Result<Ask, OutOfTurn>,
    ) -> bool {
        &&& after == (Recall { stage: Stage::Packet, delivered: after.delivered, ..self })
        &&& super::items(after.delivered@) == super::items(self.material.items@).map_values(
            |i: Item| delivery::expired(i, now.ms, now.timestamp@, false),
        )
        &&& proceeds(
            r,
            Ask::Pack { empty: self.planner.failed || self.material.critical_missing },
        )
    }

    fn deliver(&mut self, now: &Moment) -> (r: Result<Ask, OutOfTurn>)
        ensures
            old(self).delivers(*final(self), *now, r),
    {
        let mut items = copy_items(&self.material.items);
        let ghost before = items@;
        let _changed = delivery::expire_procedure_checks(
            &mut items,
            now.ms,
            now.timestamp.as_str(),
            false,
        );
        proof {
            let expiring = |i: Item| delivery::expired(i, now.ms, now.timestamp@, false);
            assert forall|k: int| 0 <= k < items@.len() implies (#[trigger] super::items(
                items@,
            )[k]) == super::items(self.material.items@).map_values(expiring)[k] by {
                assert(super::items(before)[k] == super::items(self.material.items@)[k]);
                assert(super::items(items@)[k] == items@[k]@);
                assert(super::items(before)[k] == before[k]@);
            }
            assert(super::items(items@).len() == super::items(self.material.items@).len()) by {
                assert(super::items(before).len() == before.len());
            }
            assert(super::items(items@) =~= super::items(self.material.items@).map_values(
                expiring,
            ));
        }
        self.delivered = items;
        self.stage = Stage::Packet;
        Ok(
            Ask::Pack {
                empty: !delivery::may_pack(self.planner.failed, self.material.critical_missing),
            },
        )
    }

    /// The recall failed: nothing but that is delivered.
    pub open spec fn gives_up(
        self,
        after: Recall,
        failure: Failure,
        now: Moment,
        r: Result<Ask, OutOfTurn>,
    ) -> bool {
        (Recall {
            material: Material { failure: Some(failure), ..self.material },
            planner: Planner { failed: true, ..self.planner },
            ..self
        }).delivers(after, now, r)
    }

    fn give_up(&mut self, failure: Failure, now: &Moment) -> (r: Result<Ask, OutOfTurn>)
        ensures
            old(self).gives_up(*final(self), failure, *now, r),
    {
        self.material.failure = Some(failure);
        self.planner.failed = true;
        self.deliver(now)
    }

    /// The next skill is checked; after the last one the recall is delivered.
    pub open spec fn checks_next(
        self,
        after: Recall,
        now: Moment,
        r: Result<Ask, OutOfTurn>,
    ) -> bool {
        if self.next < self.skills@.len() {
            &&& after == (Recall { stage: Stage::Check, ..self })
            &&& r matches Ok(Ask::CheckProcedure(skill)) && skill@
                == self.skills@[self.next as int]@
        } else {
            self.delivers(after, now, r)
        }
    }

    fn check_next(&mut self, now: &Moment) -> (r: Result<Ask, OutOfTurn>)
        ensures
            old(self).checks_next(*final(self), *now, r),
    {
        if self.next < self.skills.len() {
            let skill = self.skills[self.next].clone();
            self.stage = Stage::Check;
            Ok(Ask::CheckProcedure(skill))
        } else {
            self.deliver(now)
        }
    }

    /// The material before the skills are checked: no earlier permission is left.
    pub open spec fn drops_checks(self, after: Recall) -> bool {
        &&& after == (Recall {
            material: after.material,
            skills: after.skills,
            next: 0,
            ..self
        })
        &&& after.material.same_aside(self.material)
        &&& after.material.stock() == (Stock {
            items: self.material.stock().items.filter(
                delivery::no_check(self.material.procedures@),
            ),
            ..self.material.stock()
        })
        &&& text::views(after.skills@) == delivery::with_procedures(
            text::views(self.material.skills@),
            self.material.procedures@,
        )
    }

    /// There are more skills than are checked: something required is missing.
    pub open spec fn misses_checks(self, after: Recall) -> bool {
        &&& after == (Recall { material: after.material, ..self })
        &&& after.material.stock() == self.material.stock().missing().left_out(
            Channel::Procedures,
        )
        &&& after.material.failure == Some(Failure::ProcedureWindow)
        &&& after.material.max_items == self.material.max_items
        &&& after.material.skills == self.material.skills
        &&& after.material.procedures == self.material.procedures
    }

    /// Every procedure is checked once more before it is delivered.
    pub open spec fn refreshes(
        self,
        after: Recall,
        now: Moment,
        r: Result<Ask, OutOfTurn>,
    ) -> bool {
        if self.planner.failed || !self.can_check() {
            self.delivers(after, now, r)
        } else if delivery::with_procedures(
            text::views(self.material.skills@),
            self.material.procedures@,
        ).len() > delivery::MAX_PROCEDURES {
            exists|short: Recall| #[trigger]
                self.misses_checks(short) && short.delivers(after, now, r)
        } else {
            exists|ready: Recall| #[trigger]
                self.drops_checks(ready) && ready.checks_next(after, now, r)
        }
    }

    fn refresh(&mut self, now: &Moment) -> (r: Result<Ask, OutOfTurn>)
        requires
            old(self).material.wf(),
            old(self).material.next_id <= 62,
        ensures
            old(self).refreshes(*final(self), *now, r),
            final(self).material.wf(),
            final(self).material.next_id == old(self).material.next_id,
            final(self).stage == Stage::Check ==> final(self).next == 0 < final(self).skills@.len()
                <= delivery::MAX_PROCEDURES,
    {
        let can_check = text::contains(&self.tools, CHECK);
        if self.planner.failed || !can_check {
            return self.deliver(now);
        }
        match delivery::plan_refresh(&mut self.material, can_check) {
            Some(skills) => {
                self.skills = skills;
                self.next = 0;
                proof {
                    assert(text::views(self.skills@).len() == self.skills@.len());
                    assert(old(self).drops_checks(*self));
                }
                self.check_next(now)
            },
            None => {
                assert(old(self).misses_checks(*self));
                self.deliver(now)
            },
        }
    }
}

// ---------------------------------------------------------------------------
// The end of planning
// ---------------------------------------------------------------------------

impl Recall {
    /// The budget for planning ran out, and everything required is there.
    pub open spec fn falls_back(self) -> bool {
        self.material.failure == Some(Failure::ContextBudget) && !self.material.critical_missing
    }

    /// What is there when the planning is over.
    pub open spec fn settled_stock(self) -> Stock {
        if self.falls_back() {
            passes::fallen_back(
                self.material.stock(),
                self.material.max_items,
                super::items(self.candidates@),
                self.before.reach(),
            )
        } else {
            self.material.stock()
        }
    }

    /// The identities that are selected when the planning is over.
    pub open spec fn settled_selection(self) -> Seq<Seq<char>> {
        let chosen = if self.falls_back() {
            self.settled_stock().items.map_values(|i: Item| i.id)
        } else {
            text::views(self.planner.selected@)
        };
        chosen.filter(passes::of_items(self.settled_stock().items))
    }

    /// The planning is over: where its budget ran out, the candidates that the
    /// host read are delivered; else without a selection it failed.
    pub open spec fn settles(self, after: Recall) -> bool {
        &&& self.only_material_and_planner(after)
        &&& after.material.stock() == self.settled_stock()
        &&& after.material.max_items == self.material.max_items
        &&& after.material.skills == self.material.skills
        &&& after.material.procedures == self.material.procedures
        &&& after.planner.finished == (self.falls_back() || self.planner.finished)
        &&& after.planner.failed == (!self.falls_back() && (self.planner.failed
            || !self.planner.finished))
        &&& after.planner.calls == self.planner.calls
        &&& after.planner.context_spent == self.planner.context_spent
        &&& text::views(after.planner.selected@) == self.settled_selection()
        &&& after.material.failure == if self.falls_back() {
            None
        } else if after.planner.failed && self.material.failure is None {
            Some(Failure::PlannerIncomplete)
        } else {
            self.material.failure
        }
    }

    fn settle(&mut self)
        requires
            old(self).material.wf(),
            old(self).material.next_id < usize::MAX,
        ensures
            old(self).settles(*final(self)),
            final(self).material.wf(),
            final(self).material.next_id <= old(self).material.next_id + 1,
    {
        if passes::falls_back(&self.material) {
            let candidates = copy_items(&self.candidates);
            let coverage = self.before.copy();
            passes::fall_back(&mut self.material, &mut self.planner, candidates, coverage);
        }
        passes::conclude(&mut self.material, &mut self.planner);
    }

    /// What follows the end of planning.
    pub open spec fn ends(self, after: Recall, now: Moment, r: Result<Ask, OutOfTurn>) -> bool {
        exists|settled: Recall| #[trigger]
            self.settles(settled) && settled.refreshes(after, now, r)
    }

    fn end(&mut self, now: &Moment) -> (r: Result<Ask, OutOfTurn>)
        requires
            old(self).material.wf(),
            old(self).material.next_id <= 61,
            old(self).planner.context_spent <= old(self).limit,
            old(self).planner.calls <= MAX_CALLS,
        ensures
            old(self).ends(*final(self), *now, r),
            final(self).wf(),
    {
        self.settle();
        let ghost settled = *self;
        let r = self.refresh(now);
        assert(old(self).settles(settled) && settled.refreshes(*self, *now, r));
        r
    }

    /// Another pass begins with all that is there; without one the planning is
    /// over.
    pub open spec fn starts_pass(
        self,
        after: Recall,
        now: Moment,
        r: Result<Ask, OutOfTurn>,
    ) -> bool {
        if self.passes_left == 0 {
            self.ends(after, now, r)
        } else {
            &&& after == (Recall {
                stage: Stage::Weight,
                passes_left: (self.passes_left - 1) as usize,
                visible: after.visible,
                candidates: after.candidates,
                before: after.before,
                ..self
            })
            &&& super::items(after.visible@) == super::items(self.material.items@)
            &&& super::items(after.candidates@) == super::items(self.material.items@)
            &&& after.before.reach() == self.material.coverage.reach()
            &&& proceeds(r, Ask::CountRequest)
        }
    }

    fn start_pass(&mut self, now: &Moment) -> (r: Result<Ask, OutOfTurn>)
        requires
            old(self).material.wf(),
            old(self).material.next_id <= 45 + old(self).planner.calls,
            old(self).planner.context_spent <= old(self).limit,
            old(self).planner.calls <= MAX_CALLS,
        ensures
            old(self).starts_pass(*final(self), *now, r),
            final(self).wf(),
    {
        if self.passes_left == 0 {
            return self.end(now);
        }
        self.passes_left = self.passes_left - 1;
        self.visible = copy_items(&self.material.items);
        self.candidates = copy_items(&self.material.items);
        self.before = self.material.coverage.copy();
        self.stage = Stage::Weight;
        Ok(Ask::CountRequest)
    }
}

// ---------------------------------------------------------------------------
// The calls of a reply
// ---------------------------------------------------------------------------

impl Recall {
    /// The next call, which was counted and judged.
    pub open spec fn judges(self, after: Recall) -> bool {
        let call = self.calls@[self.next as int];
        &&& after == (Recall { planner: after.planner, ..self })
        &&& after.planner == (Planner {
            calls: (self.planner.calls + 1) as usize,
            selected: after.planner.selected,
            finished: after.planner.finished,
            failed: after.planner.failed,
            ..self.planner
        })
        &&& match passes::call_step(call, text::views(self.tools@)) {
            CallStep::Stop => match passes::call_selection(call) {
                Some(ids) => text::views(after.planner.selected@) == ids && after.planner.finished
                    && after.planner.failed == self.planner.failed,
                None => after.planner.selected == self.planner.selected && after.planner.finished
                    == self.planner.finished && after.planner.failed,
            },
            _ => after.planner.selected == self.planner.selected && after.planner.finished
                == self.planner.finished && after.planner.failed == self.planner.failed,
        }
    }

    /// The next call is made; after the last one another pass begins.
    pub open spec fn calls_next(
        self,
        after: Recall,
        now: Moment,
        r: Result<Ask, OutOfTurn>,
    ) -> bool {
        if self.next < self.calls@.len() {
            exists|judged: Recall| #[trigger]
                self.judges(judged) && match passes::call_step(
                    self.calls@[self.next as int],
                    text::views(self.tools@),
                ) {
                    CallStep::Stop => judged.ends(after, now, r),
                    CallStep::Reference => after == (Recall { stage: Stage::Reference, ..judged })
                        && proceeds(r, Ask::Explain),
                    CallStep::Read(channel) => after == (Recall {
                        stage: Stage::Read(channel),
                        ..judged
                    }) && proceeds(r, Ask::Read(channel)),
                }
        } else {
            self.starts_pass(after, now, r)
        }
    }

    fn call_next(&mut self, now: &Moment) -> (r: Result<Ask, OutOfTurn>)
        requires
            old(self).material.wf(),
            old(self).material.next_id <= 45 + old(self).planner.calls,
            old(self).planner.context_spent <= old(self).limit,
            old(self).next <= old(self).calls@.len() <= MAX_CALLS_PER_TURN,
            old(self).planner.calls + old(self).calls@.len() - old(self).next <= MAX_CALLS,
        ensures
            old(self).calls_next(*final(self), *now, r),
            final(self).wf(),
    {
        if self.next >= self.calls.len() {
            return self.start_pass(now);
        }
        let step = passes::judge_call(&mut self.planner, &self.calls[self.next], &self.tools);
        assert(old(self).judges(*self));
        match step {
            CallStep::Stop => self.end(now),
            CallStep::Reference => {
                self.stage = Stage::Reference;
                Ok(Ask::Explain)
            },
            CallStep::Read(channel) => {
                self.stage = Stage::Read(channel);
                Ok(Ask::Read(channel))
            },
        }
    }
}

// ---------------------------------------------------------------------------
// The reports
// ---------------------------------------------------------------------------

/// The stock of a recall before anything was read.
pub open spec fn blank_stock() -> Stock {
    Stock {
        next_id: 0,
        items: Seq::empty(),
        reach: super::material::Reach {
            queried: Seq::empty(),
            partial: Seq::empty(),
            omitted: Seq::empty(),
        },
        critical: false,
    }
}

impl Recall {
    /// Starts a recall: its budget is valid, its question is one, and the host's
    /// note on how to read the packet is its first item.
    pub fn begin(
        budget: &RecallBudget,
        query: &str,
        prompt: &str,
        max_items: usize,
        max_turns: usize,
        tools: Vec<String>,
    ) -> (r: Result<(Recall, Ask), StartError>)
        ensures
            match r {
                Ok((recall, ask)) => {
                    &&& budget.valid()
                    &&& text::trimmed(query@).len() > 0
                    &&& text::utf8_len(prompt@) <= MAX_BYTES
                    &&& ask == Ask::TryPacket
                    &&& recall.stage == Stage::Note
                    &&& recall.query@ == query@
                    &&& recall.wf()
                    &&& recall.limit == budget.context_tokens
                    &&& recall.passes_left == if max_turns < passes::MAX_PASSES {
                        max_turns
                    } else {
                        passes::MAX_PASSES
                    }
                    &&& recall.tools == tools
                    &&& recall.material.stock() == blank_stock().offered(
                        max_items,
                        Channel::Primer,
                        Priority::Required,
                        planner::host_note_value(),
                    )
                    &&& recall.material.max_items == max_items
                    &&& recall.material.failure is None
                    &&& recall.material.skills@.len() == 0
                    &&& recall.material.procedures@.len() == 0
                    &&& recall.planner.calls == 0
                    &&& recall.planner.selected@.len() == 0
                    &&& recall.planner.context_spent == 0
                    &&& !recall.planner.failed
                    &&& !recall.planner.finished
                    &&& recall.visible@.len() == 0
                    &&& recall.candidates@.len() == 0
                    &&& recall.before.reach() == recall.material.coverage.reach()
                    &&& recall.before.unchecked@ == recall.material.coverage.unchecked@
                    &&& recall.observations@.len() == 0
                    &&& recall.calls@.len() == 0
                    &&& recall.next == 0
                    &&& recall.skills@.len() == 0
                    &&& recall.notes is None
                    &&& recall.history@ == Datum::Null
                    &&& recall.delivered@.len() == 0
                },
                Err(StartError::Budget) => !budget.valid(),
                Err(StartError::Input(planner::InputError::EmptyQuery)) => budget.valid()
                    && text::trimmed(query@).len() == 0,
                Err(StartError::Input(planner::InputError::TooLarge)) => budget.valid()
                    && text::trimmed(query@).len() > 0 && text::utf8_len(prompt@) > MAX_BYTES,
            },
    {
        if budget.validate().is_err() {
            return Err(StartError::Budget);
        }
        if let Err(e) = planner::check_input(query, prompt) {
            return Err(StartError::Input(e));
        }
        let mut material = Material::new(max_items);
        assert(text::views(material.skills@) =~= Seq::empty());
        let _id = material.add(Channel::Primer, Priority::Required, planner::host_note());
        let before = material.coverage.copy();
        let recall = Recall {
            stage: Stage::Note,
            query: query.to_owned(),
            material,
            planner: Planner::new(),
            limit: budget.context_tokens as usize,
            passes_left: passes::passes(max_turns),
            tools,
            visible: Vec::new(),
            candidates: Vec::new(),
            before,
            observations: Vec::new(),
            calls: Vec::new(),
            next: 0,
            skills: Vec::new(),
            notes: None,
            history: Json::Null,
            delivered: Vec::new(),
        };
        Ok((recall, Ask::TryPacket))
    }

    /// A packet too small for the host's note is not filled.
    pub open spec fn note_moves(
        self,
        after: Recall,
        insufficient: bool,
        now: Moment,
        r: Result<Ask, OutOfTurn>,
    ) -> bool {
        if insufficient {
            self.gives_up(after, Failure::OutputBudget, now, r)
        } else {
            after == (Recall { stage: Stage::Context, ..self }) && proceeds(r, Ask::ReadContext)
        }
    }

    fn on_note(&mut self, insufficient: bool, now: &Moment) -> (r: Result<Ask, OutOfTurn>)
        requires
            old(self).wf(),
            old(self).stage == Stage::Note,
        ensures
            old(self).note_moves(*final(self), insufficient, *now, r),
            final(self).wf(),
    {
        if insufficient {
            return self.give_up(Failure::OutputBudget, now);
        }
        self.stage = Stage::Context;
        Ok(Ask::ReadContext)
    }

    /// What surrounds the question is taken over; notes and history wait until the
    /// question's own candidates are there.
    pub open spec fn context_moves(
        self,
        after: Recall,
        primer: Datum,
        notes: Option<Json>,
        profile: Option<Json>,
        asked: bool,
        history: Json,
        r: Result<Ask, OutOfTurn>,
    ) -> bool {
        &&& after == (Recall {
            stage: Stage::Constraints,
            material: after.material,
            notes,
            history,
            observations: after.observations,
            ..self
        })
        &&& after.material.same_aside(self.material)
        &&& after.material.stock() == planner::contextual(
            self.material.stock(),
            self.material.max_items,
            primer,
            notes is Some,
            optional_value(profile),
            asked,
        )
        &&& crate::json::items_view(after.observations@) == seq![primer_told(primer)]
        &&& proceeds(r, Ask::ReadConstraints(CONSTRAINTS_QUERY))
    }

    fn on_context(
        &mut self,
        primer: Json,
        notes: Option<Json>,
        profile: Option<Json>,
        asked: bool,
        history: Json,
    ) -> (r: Result<Ask, OutOfTurn>)
        requires
            old(self).wf(),
            old(self).stage == Stage::Context,
        ensures
            old(self).context_moves(*final(self), primer@, notes, profile, asked, history, r),
            final(self).wf(),
    {
        planner::context_read(&mut self.material, &primer, notes.is_some(), profile, asked);
        self.notes = notes;
        self.history = history;
        let mut told: Vec<Json> = Vec::new();
        told.push(Json::object().with("primer", primer));
        assert(crate::json::items_view(told@) =~= seq![primer_told(primer@)]);
        self.observations = told;
        self.stage = Stage::Constraints;
        Ok(Ask::ReadConstraints(CONSTRAINTS_QUERY))
    }

    pub open spec fn constrains(self, after: Recall, rows: Option<Seq<Datum>>) -> bool {
        &&& after == (Recall { stage: after.stage, material: after.material, ..self })
        &&& after.material.same_aside(self.material)
        &&& after.material.stock() == planner::constrained(
            self.material.stock(),
            self.material.max_items,
            rows,
        )
    }

    /// Without all unresolved commitments a recall fails.
    pub open spec fn constraints_move(
        self,
        after: Recall,
        rows: Option<Seq<Datum>>,
        now: Moment,
        r: Result<Ask, OutOfTurn>,
    ) -> bool {
        exists|read: Recall| #[trigger]
            self.constrains(read, rows) && read.stage == self.stage && if read.material.critical_missing {
                read.gives_up(after, Failure::RequiredRead, now, r)
            } else {
                after == (Recall { stage: Stage::Required, ..read }) && proceeds(r, Ask::TryPacket)
            }
    }

    fn on_constraints(&mut self, rows: Option<Vec<Json>>, now: &Moment) -> (r: Result<
        Ask,
        OutOfTurn,
    >)
        requires
            old(self).wf(),
            old(self).stage == Stage::Constraints,
        ensures
            old(self).constraints_move(
                *final(self),
                match rows {
                    Some(list) => Some(crate::json::items_view(list@)),
                    None => None,
                },
                *now,
                r,
            ),
            final(self).wf(),
    {
        let list = match &rows {
            Some(list) => Some(list),
            None => None,
        };
        planner::constraints_read(&mut self.material, list);
        assert(old(self).constrains(
            *self,
            match rows {
                Some(list) => Some(crate::json::items_view(list@)),
                None => None,
            },
        ));
        if self.material.critical_missing {
            return self.give_up(Failure::RequiredRead, now);
        }
        self.stage = Stage::Required;
        Ok(Ask::TryPacket)
    }

    /// A packet too small for all that is required is not filled.
    pub open spec fn required_moves(
        self,
        after: Recall,
        insufficient: bool,
        now: Moment,
        r: Result<Ask, OutOfTurn>,
    ) -> bool {
        if self.material.critical_missing {
            self.gives_up(after, Failure::RequiredRead, now, r)
        } else if insufficient {
            self.gives_up(after, Failure::OutputBudget, now, r)
        } else {
            after == (Recall { stage: Stage::Search, ..self }) && proceeds(r, Ask::Search(DISCOVERY_QUERY))
        }
    }

    fn on_required(&mut self, insufficient: bool, now: &Moment) -> (r: Result<Ask, OutOfTurn>)
        requires
            old(self).wf(),
            old(self).stage == Stage::Required,
        ensures
            old(self).required_moves(*final(self), insufficient, *now, r),
            final(self).wf(),
    {
        if planner::required_verdict(&mut self.material, insufficient) {
            self.planner.failed = true;
            return self.deliver(now);
        }
        self.stage = Stage::Search;
        Ok(Ask::Search(DISCOVERY_QUERY))
    }

    /// The stock after notes and history were offered behind the candidates of the
    /// question.
    pub open spec fn narrated(self, stock: Stock) -> Stock {
        let noted = match self.notes {
            Some(notes) => stock.offered(
                self.material.max_items,
                Channel::Notes,
                Priority::Relevant,
                notes@,
            ),
            None => stock,
        };
        noted.offered(
            self.material.max_items,
            Channel::History,
            Priority::Relevant,
            self.history@,
        )
    }

    /// What the search for the question adds.
    pub open spec fn grounds(self, after: Recall, hits: Hits) -> bool {
        let found = planner::discovered(
            self.material.found(Seq::empty()),
            self.material.max_items,
            match hits {
                Hits::Found(list) => Discovery::Hits(&list),
                Hits::Unreadable => Discovery::NoHits,
                Hits::Unavailable => Discovery::Unavailable,
            },
        );
        &&& after == (Recall {
            material: after.material,
            observations: after.observations,
            ..self
        })
        &&& after.material.same_beside_skills(self.material)
        &&& after.material.stock() == self.narrated(found.stock)
        &&& text::views(after.material.skills@) == found.skills
        &&& crate::json::items_view(after.observations@) == crate::json::items_view(
            self.observations@,
        ).push(search_told(found.ids))
    }

    pub open spec fn search_moves(
        self,
        after: Recall,
        hits: Hits,
        now: Moment,
        r: Result<Ask, OutOfTurn>,
    ) -> bool {
        exists|grounded: Recall| #[trigger]
            self.grounds(grounded, hits) && grounded.starts_pass(after, now, r)
    }

    fn on_search(&mut self, hits: Hits, now: &Moment) -> (r: Result<Ask, OutOfTurn>)
        requires
            old(self).wf(),
            old(self).stage == Stage::Search,
        ensures
            old(self).search_moves(*final(self), hits, *now, r),
            final(self).wf(),
    {
        let outcome = match &hits {
            Hits::Found(list) => Discovery::Hits(list),
            Hits::Unreadable => Discovery::NoHits,
            Hits::Unavailable => Discovery::Unavailable,
        };
        let ids = planner::discovery_read(&mut self.material, outcome);
        let told = Json::object().with(
            "query_search",
            Json::object().with("item_ids", Json::texts(&ids)).with("partial", Json::Bool(true)),
        );
        let ghost said = crate::json::items_view(self.observations@);
        let ghost news = told@;
        self.observations.push(told);
        assert(crate::json::items_view(self.observations@) =~= said.push(news));
        if let Some(notes) = &self.notes {
            let notes = notes.copy();
            let _id = self.material.add(Channel::Notes, Priority::Relevant, notes);
        }
        let history = self.history.copy();
        let _id = self.material.add(Channel::History, Priority::Relevant, history);
        assert(old(self).grounds(*self, hits));
        self.start_pass(now)
    }
}

// ---------------------------------------------------------------------------
// The passes
// ---------------------------------------------------------------------------

impl Recall {
    /// The request fits: it is paid for.
    pub open spec fn pays(self, after: Recall, weight: usize) -> bool {
        &&& self.planner.context_spent + weight <= self.limit
        &&& after == (Recall {
            planner: Planner {
                context_spent: (self.planner.context_spent + weight) as usize,
                ..self.planner
            },
            stage: Stage::Clock,
            material: after.material,
            visible: after.visible,
            ..self
        })
        &&& after.material == self.material
        &&& after.visible@ == self.visible@
    }

    /// The request does not fit: an optional item gave way.
    pub open spec fn evicts(self, after: Recall, weight: usize) -> bool {
        &&& self.planner.context_spent + weight > self.limit
        &&& after == (Recall {
            stage: Stage::Weight,
            material: after.material,
            visible: after.visible,
            ..self
        })
        &&& after.material.same_aside(self.material)
        &&& exists|at: int| #[trigger]
            passes::is_eviction(super::items(self.visible@), at) && super::items(after.visible@)
                == super::items(self.visible@).remove(at) && passes::given_way(
                self.material.stock(),
                after.material.stock(),
                super::items(self.visible@)[at],
            )
    }

    /// The request does not fit, and nothing may give way.
    pub open spec fn runs_out(self, after: Recall, weight: usize) -> bool {
        &&& self.planner.context_spent + weight > self.limit
        &&& passes::all_mandatory(super::items(self.visible@))
        &&& after == (Recall {
            planner: Planner { failed: true, ..self.planner },
            material: Material { failure: Some(Failure::ContextBudget), ..self.material },
            visible: after.visible,
            ..self
        })
        &&& after.visible@ == self.visible@
    }

    pub open spec fn weight_moves(
        self,
        after: Recall,
        weight: usize,
        now: Moment,
        r: Result<Ask, OutOfTurn>,
    ) -> bool {
        ||| self.pays(after, weight) && proceeds(r, Ask::ReadClock)
        ||| self.evicts(after, weight) && proceeds(r, Ask::CountRequest)
        ||| exists|out: Recall| #[trigger] self.runs_out(out, weight) && out.ends(after, now, r)
    }

    fn on_weight(&mut self, bytes: usize, tokens: usize, now: &Moment) -> (r: Result<
        Ask,
        OutOfTurn,
    >)
        requires
            old(self).wf(),
            old(self).stage == Stage::Weight,
        ensures
            old(self).weight_moves(*final(self), weight_of(bytes, tokens), *now, r),
            final(self).wf(),
    {
        let weight: usize = if bytes <= 4 * MAX_BYTES {
            tokens
        } else {
            usize::MAX
        };
        let admission = passes::weigh(
            &mut self.material,
            &mut self.planner,
            &mut self.visible,
            weight,
            self.limit,
        );
        match admission {
            Admission::Admitted => {
                self.stage = Stage::Clock;
                Ok(Ask::ReadClock)
            },
            Admission::Evicted => {
                self.stage = Stage::Weight;
                Ok(Ask::CountRequest)
            },
            Admission::Exhausted => {
                assert(old(self).runs_out(*self, weight));
                self.end(now)
            },
        }
    }

    /// The model may be called.
    pub open spec fn may_call(self, left: bool) -> bool {
        !self.planner.failed && !self.material.critical_missing && left
    }

    /// The recall without a call of the model.
    pub open spec fn stalls(self, left: bool) -> Recall {
        Recall {
            planner: Planner { failed: true, ..self.planner },
            material: Material {
                failure: if !self.planner.failed && !self.material.critical_missing && !left {
                    Some(Failure::Deadline)
                } else {
                    self.material.failure
                },
                ..self.material
            },
            ..self
        }
    }

    pub open spec fn clock_moves(
        self,
        after: Recall,
        left: bool,
        now: Moment,
        r: Result<Ask, OutOfTurn>,
    ) -> bool {
        if self.may_call(left) {
            after == (Recall { stage: Stage::Model, ..self }) && proceeds(r, Ask::Complete)
        } else {
            self.stalls(left).ends(after, now, r)
        }
    }

    fn on_clock(&mut self, left: bool, now: &Moment) -> (r: Result<Ask, OutOfTurn>)
        requires
            old(self).wf(),
            old(self).stage == Stage::Clock,
        ensures
            old(self).clock_moves(*final(self), left, *now, r),
            final(self).wf(),
    {
        if passes::may_call(&mut self.material, &mut self.planner, left) {
            self.stage = Stage::Model;
            Ok(Ask::Complete)
        } else {
            self.end(now)
        }
    }

    /// The reply ends the planning, one way or the other.
    pub open spec fn heeds(self, after: Recall, reply: Option<ModelReply>) -> bool {
        &&& self.only_material_and_planner(after)
        &&& match reply {
            Some(said) => if said.failed {
                &&& after.planner == (Planner { failed: true, ..self.planner })
                &&& after.material == (Material {
                    failure: Some(Failure::ModelUnavailable),
                    ..self.material
                })
            } else if said.calls@.len() == 0 {
                &&& after.material == self.material
                &&& match passes::reply_selection(said) {
                    Some(ids) => after.planner == (Planner {
                        selected: after.planner.selected,
                        finished: true,
                        ..self.planner
                    }) && text::views(after.planner.selected@) == ids,
                    None => after.planner == (Planner { failed: true, ..self.planner }),
                }
            } else {
                &&& passes::too_many_calls(self.planner.calls, said)
                &&& after.planner == (Planner { failed: true, ..self.planner })
                &&& after.material == self.material
            },
            None => {
                &&& after.planner == (Planner { failed: true, ..self.planner })
                &&& after.material == (Material {
                    failure: Some(Failure::ModelUnavailable),
                    ..self.material
                })
            },
        }
    }

    /// The reply asks for calls that may be made.
    pub open spec fn asks_for_calls(self, reply: Option<ModelReply>) -> bool {
        reply matches Some(said) && !said.failed && said.calls@.len() > 0
            && !passes::too_many_calls(self.planner.calls, said)
    }

    pub open spec fn model_moves(
        self,
        after: Recall,
        reply: Option<ModelReply>,
        now: Moment,
        r: Result<Ask, OutOfTurn>,
    ) -> bool {
        if self.asks_for_calls(reply) {
            (Recall { calls: reply->0.calls, next: 0, ..self }).calls_next(after, now, r)
        } else {
            exists|heeded: Recall| #[trigger]
                self.heeds(heeded, reply) && heeded.ends(after, now, r)
        }
    }

    fn on_model(&mut self, reply: Option<ModelReply>, now: &Moment) -> (r: Result<Ask, OutOfTurn>)
        requires
            old(self).wf(),
            old(self).stage == Stage::Model,
        ensures
            old(self).model_moves(*final(self), reply, *now, r),
            final(self).wf(),
    {
        let said = match &reply {
            Some(said) => Some(said),
            None => None,
        };
        let step = passes::judge_reply(&mut self.material, &mut self.planner, said);
        match (step, reply) {
            (ReplyStep::Calls, Some(said)) => {
                self.calls = said.calls;
                self.next = 0;
                self.call_next(now)
            },
            _ => {
                assert(old(self).heeds(*self, reply));
                self.end(now)
            },
        }
    }

    /// What a look into the reference leaves: one more observation.
    pub open spec fn learns(self, after: Recall, result: Option<(Datum, bool)>) -> bool {
        &&& after == (Recall {
            observations: after.observations,
            next: (self.next + 1) as usize,
            ..self
        })
        &&& crate::json::items_view(after.observations@) == crate::json::items_view(
            self.observations@,
        ).push(reference_told(self.calls@[self.next as int].name@, result))
    }

    pub open spec fn reference_moves(
        self,
        after: Recall,
        result: Option<(Datum, bool)>,
        now: Moment,
        r: Result<Ask, OutOfTurn>,
    ) -> bool {
        exists|learned: Recall| #[trigger]
            self.learns(learned, result) && learned.calls_next(after, now, r)
    }

    fn on_reference(&mut self, result: Option<ToolResult>, now: &Moment) -> (r: Result<
        Ask,
        OutOfTurn,
    >)
        requires
            old(self).wf(),
            old(self).stage == Stage::Reference,
        ensures
            old(self).reference_moves(*final(self), passes::result_view(result), *now, r),
            final(self).wf(),
    {
        let ghost given = passes::result_view(result);
        let told = tell_reference(self.calls[self.next].name.as_str(), result);
        let ghost said = crate::json::items_view(self.observations@);
        let ghost news = told@;
        self.observations.push(told);
        assert(crate::json::items_view(self.observations@) =~= said.push(news));
        self.next = self.next + 1;
        assert(old(self).learns(*self, given));
        self.call_next(now)
    }

    /// The identity of the item that a read became.
    pub open spec fn item_read(self, channel: Channel, result: Option<(Datum, bool)>) -> Option<
        Seq<char>,
    > {
        passes::read_id(self.material.stock(), self.material.max_items, channel, result)
    }

    /// What a read leaves.
    pub open spec fn takes_over(
        self,
        after: Recall,
        channel: Channel,
        result: Option<(Datum, bool)>,
    ) -> bool {
        let call = self.calls@[self.next as int];
        let id = self.item_read(channel, result);
        &&& after == (Recall {
            material: after.material,
            observations: after.observations,
            next: (self.next + 1) as usize,
            ..self
        })
        &&& after.material.max_items == self.material.max_items
        &&& after.material.failure == self.material.failure
        &&& after.material.stock() == passes::read_stock(
            self.material.stock(),
            self.material.max_items,
            call.name@,
            channel,
            result,
        )
        &&& text::views(after.material.skills@) == match result {
            Some((value, _)) => super::material::skills_found(
                seq![value],
                0,
                text::views(self.material.skills@),
            ),
            None => text::views(self.material.skills@),
        }
        &&& passes::procedures_after(
            self.material.procedures@,
            after.material.procedures@,
            channel,
            id,
            call.args@.text_at("skill_ref"@),
        )
        &&& crate::json::items_view(after.observations@) == match passes::observation(
            call.name@,
            id,
            result,
        ) {
            Some(told) => crate::json::items_view(self.observations@).push(told),
            None => crate::json::items_view(self.observations@),
        }
    }

    pub open spec fn read_moves(
        self,
        after: Recall,
        channel: Channel,
        result: Option<(Datum, bool)>,
        now: Moment,
        r: Result<Ask, OutOfTurn>,
    ) -> bool {
        exists|richer: Recall| #[trigger]
            self.takes_over(richer, channel, result) && richer.calls_next(after, now, r)
    }

    fn on_read(&mut self, channel: Channel, result: Option<ToolResult>, now: &Moment) -> (r: Result<
        Ask,
        OutOfTurn,
    >)
        requires
            old(self).wf(),
            old(self).stage == Stage::Read(channel),
        ensures
            old(self).read_moves(*final(self), channel, passes::result_view(result), *now, r),
            final(self).wf(),
    {
        let ghost given = passes::result_view(result);
        let ghost said = crate::json::items_view(self.observations@);
        let call = &self.calls[self.next];
        let told = passes::read_done(
            &mut self.material,
            call.name.as_str(),
            channel,
            result,
            call.args.text_at("skill_ref"),
        );
        if let Some(told) = told {
            let ghost news = told@;
            self.observations.push(told);
            assert(crate::json::items_view(self.observations@) =~= said.push(news));
        }
        self.next = self.next + 1;
        assert(old(self).takes_over(*self, channel, given));
        self.call_next(now)
    }
}

// ---------------------------------------------------------------------------
// Checks and packets
// ---------------------------------------------------------------------------

impl Recall {
    /// The current check of a skill becomes an item that cannot be left out.
    pub open spec fn confirms(
        self,
        after: Recall,
        result: Option<(Datum, bool)>,
        now: Moment,
    ) -> bool {
        &&& after == (Recall { material: after.material, next: (self.next + 1) as usize, ..self })
        &&& after.material.same_aside(self.material)
        &&& after.material.stock() == self.material.stock().offered(
            self.material.max_items,
            Channel::Procedures,
            delivery::checked_priority(result, now.ms, now.timestamp@),
            delivery::checked_content(
                self.skills@[self.next as int]@,
                result,
                now.ms,
                now.timestamp@,
            ),
        )
    }

    pub open spec fn check_moves(
        self,
        after: Recall,
        result: Option<(Datum, bool)>,
        now: Moment,
        r: Result<Ask, OutOfTurn>,
    ) -> bool {
        exists|confirmed: Recall| #[trigger]
            self.confirms(confirmed, result, now) && confirmed.checks_next(after, now, r)
    }

    fn on_check(&mut self, result: Option<ToolResult>, now: &Moment) -> (r: Result<Ask, OutOfTurn>)
        requires
            old(self).wf(),
            old(self).stage == Stage::Check,
        ensures
            old(self).check_moves(*final(self), passes::result_view(result), *now, r),
            final(self).wf(),
    {
        let ghost given = passes::result_view(result);
        delivery::procedure_checked(
            &mut self.material,
            self.skills[self.next].as_str(),
            result,
            now.ms,
            now.timestamp.as_str(),
        );
        self.next = self.next + 1;
        assert(old(self).confirms(*self, given, *now));
        self.check_next(now)
    }

    /// The recall is over.
    pub open spec fn closes(
        self,
        after: Recall,
        insufficient: bool,
        r: Result<Ask, OutOfTurn>,
    ) -> bool {
        &&& after == (Recall { stage: Stage::Over, delivered: after.delivered, ..self })
        &&& super::items(after.delivered@) == super::items(self.delivered@)
        &&& proceeds(
            r,
            Ask::Close(
                if insufficient {
                    match self.material.failure {
                        Some(failure) => Some(failure),
                        None => Some(Failure::OutputBudget),
                    }
                } else {
                    None
                },
            ),
        )
    }

    /// A permission ran out while the packet was made.
    pub open spec fn ran_out_meanwhile(self, now: Moment) -> bool {
        &&& !self.planner.failed
        &&& !self.material.critical_missing
        &&& exists|i: int|
            0 <= i < self.delivered@.len() && delivery::expires(
                (#[trigger] self.delivered@[i])@,
                now.ms,
                now.timestamp@,
                false,
            )
    }

    pub open spec fn packet_moves(
        self,
        after: Recall,
        insufficient: bool,
        now: Moment,
        r: Result<Ask, OutOfTurn>,
    ) -> bool {
        if self.ran_out_meanwhile(now) {
            &&& after == (Recall { stage: Stage::Again, delivered: after.delivered, ..self })
            &&& super::items(after.delivered@).len() == super::items(self.delivered@).len()
            &&& forall|i: int|
                0 <= i < after.delivered@.len() ==> (#[trigger] after.delivered@[i])@
                    == delivery::expired(
                    delivery::expired(self.delivered@[i]@, now.ms, now.timestamp@, false),
                    now.ms,
                    now.timestamp@,
                    true,
                )
            &&& proceeds(r, Ask::Pack { empty: false })
        } else {
            self.closes(after, insufficient, r)
        }
    }

    fn on_packet(&mut self, insufficient: bool, now: &Moment) -> (r: Result<Ask, OutOfTurn>)
        requires
            old(self).wf(),
            old(self).stage == Stage::Packet,
        ensures
            old(self).packet_moves(*final(self), insufficient, *now, r),
            final(self).wf(),
    {
        if delivery::expired_while_packing(
            &mut self.delivered,
            now.ms,
            now.timestamp.as_str(),
            self.planner.failed,
            self.material.critical_missing,
        ) {
            self.stage = Stage::Again;
            Ok(Ask::Pack { empty: false })
        } else {
            self.close(insufficient)
        }
    }

    fn close(&mut self, insufficient: bool) -> (r: Result<Ask, OutOfTurn>)
        ensures
            old(self).closes(*final(self), insufficient, r),
    {
        self.stage = Stage::Over;
        Ok(Ask::Close(delivery::delivery_failure(insufficient, self.material.failure)))
    }

    /// What one report leads to.
    pub open spec fn moves(
        self,
        after: Recall,
        told: Told,
        now: Moment,
        r: Result<Ask, OutOfTurn>,
    ) -> bool {
        match (self.stage, told) {
            (Stage::Note, Told::Tried { insufficient }) => self.note_moves(
                after,
                insufficient,
                now,
                r,
            ),
            (
                Stage::Context,
                Told::Context { primer, notes, profile, asked, history },
            ) => self.context_moves(after, primer@, notes, profile, asked, history, r),
            (Stage::Constraints, Told::Constraints(rows)) => self.constraints_move(
                after,
                match rows {
                    Some(list) => Some(crate::json::items_view(list@)),
                    None => None,
                },
                now,
                r,
            ),
            (Stage::Required, Told::Tried { insufficient }) => self.required_moves(
                after,
                insufficient,
                now,
                r,
            ),
            (Stage::Search, Told::Hits(hits)) => self.search_moves(after, hits, now, r),
            (Stage::Weight, Told::Counted { bytes, tokens }) => self.weight_moves(
                after,
                weight_of(bytes, tokens),
                now,
                r,
            ),
            (Stage::Clock, Told::Time { left }) => self.clock_moves(after, left, now, r),
            (Stage::Model, Told::Reply(reply)) => self.model_moves(after, reply, now, r),
            (Stage::Reference, Told::Tool(result)) => self.reference_moves(
                after,
                passes::result_view(result),
                now,
                r,
            ),
            (Stage::Read(channel), Told::Tool(result)) => self.read_moves(
                after,
                channel,
                passes::result_view(result),
                now,
                r,
            ),
            (Stage::Check, Told::Tool(result)) => self.check_moves(
                after,
                passes::result_view(result),
                now,
                r,
            ),
            (Stage::Packet, Told::Packed { insufficient }) => self.packet_moves(
                after,
                insufficient,
                now,
                r,
            ),
            (Stage::Again, Told::Packed { insufficient }) => self.closes(after, insufficient, r),
            _ => after == self && r == Err::<Ask, OutOfTurn>(OutOfTurn),
        }
    }

    /// Takes a report over, and says what the host does next.
    pub fn step(&mut self, told: Told, now: &Moment) -> (r: Result<Ask, OutOfTurn>)
        requires
            old(self).wf(),
        ensures
            old(self).moves(*final(self), told, *now, r),
            final(self).wf(),
    {
        match (self.stage, told) {
            (Stage::Note, Told::Tried { insufficient }) => self.on_note(insufficient, now),
            (
                Stage::Context,
                Told::Context { primer, notes, profile, asked, history },
            ) => self.on_context(primer, notes, profile, asked, history),
            (Stage::Constraints, Told::Constraints(rows)) => self.on_constraints(rows, now),
            (Stage::Required, Told::Tried { insufficient }) => self.on_required(insufficient, now),
            (Stage::Search, Told::Hits(hits)) => self.on_search(hits, now),
            (Stage::Weight, Told::Counted { bytes, tokens }) => self.on_weight(bytes, tokens, now),
            (Stage::Clock, Told::Time { left }) => self.on_clock(left, now),
            (Stage::Model, Told::Reply(reply)) => self.on_model(reply, now),
            (Stage::Reference, Told::Tool(result)) => self.on_reference(result, now),
            (Stage::Read(channel), Told::Tool(result)) => self.on_read(channel, result, now),
            (Stage::Check, Told::Tool(result)) => self.on_check(result, now),
            (Stage::Packet, Told::Packed { insufficient }) => self.on_packet(insufficient, now),
            (Stage::Again, Told::Packed { insufficient }) => self.close(insufficient),
            _ => Err(OutOfTurn),
        }
    }
}

// ---------------------------------------------------------------------------
// Laws
// ---------------------------------------------------------------------------

impl Recall {
    /// No permission that is delivered is out of time.
    pub open spec fn in_time(self, now: Moment) -> bool {
        forall|i: int|
            0 <= i < self.delivered@.len() && delivery::is_permit((#[trigger] self.delivered@[i])@)
                ==> !delivery::is_stale(self.delivered@[i]@.content, now.ms, now.timestamp@)
    }

    /// What was spent is the same.
    pub open spec fn spent_as(self, other: Recall) -> bool {
        &&& self.passes_left == other.passes_left
        &&& self.limit == other.limit
        &&& self.planner.context_spent == other.planner.context_spent
    }

    /// Nothing is left but to check skills and to deliver.
    pub open spec fn hands_over(self, now: Moment, r: Result<Ask, OutOfTurn>) -> bool {
        ||| self.stage == Stage::Check && r matches Ok(Ask::CheckProcedure(_))
        ||| self.stage == Stage::Packet && self.in_time(now) && proceeds(
            r,
            Ask::Pack { empty: self.planner.failed || self.material.critical_missing },
        )
    }

    proof fn delivering_hands_over(self, after: Recall, now: Moment, r: Result<Ask, OutOfTurn>)
        requires
            self.delivers(after, now, r),
        ensures
            after.hands_over(now, r),
            after.stage == Stage::Packet,
    {
        assert forall|i: int|
            0 <= i < after.delivered@.len() && delivery::is_permit(
                (#[trigger] after.delivered@[i])@,
            ) implies !delivery::is_stale(
            after.delivered@[i]@.content,
            now.ms,
            now.timestamp@,
        ) by {
            let all = super::items(self.material.items@);
            assert(super::items(after.delivered@)[i] == after.delivered@[i]@);
            assert(super::items(after.delivered@).len() == all.len());
            assert(super::items(after.delivered@)[i] == delivery::expired(
                all[i],
                now.ms,
                now.timestamp@,
                false,
            ));
            delivery::no_permission_outlives_its_time(
                all[i],
                now.ms,
                now.timestamp@,
            );
        }
    }

    proof fn checking_hands_over(self, after: Recall, now: Moment, r: Result<Ask, OutOfTurn>)
        requires
            self.checks_next(after, now, r),
        ensures
            after.hands_over(now, r),
            after.spent_as(self),
            after.planner.calls == self.planner.calls,
            after.next == self.next,
    {
        if self.next >= self.skills@.len() {
            self.delivering_hands_over(after, now, r);
        }
    }

    proof fn refreshing_hands_over(self, after: Recall, now: Moment, r: Result<Ask, OutOfTurn>)
        requires
            self.refreshes(after, now, r),
        ensures
            after.hands_over(now, r),
            after.spent_as(self),
            after.planner.calls == self.planner.calls,
    {
        if self.planner.failed || !self.can_check() {
            self.delivering_hands_over(after, now, r);
        } else if delivery::with_procedures(
            text::views(self.material.skills@),
            self.material.procedures@,
        ).len() > delivery::MAX_PROCEDURES {
            let short = choose|short: Recall| #[trigger]
                self.misses_checks(short) && short.delivers(after, now, r);
            short.delivering_hands_over(after, now, r);
        } else {
            let ready = choose|ready: Recall| #[trigger]
                self.drops_checks(ready) && ready.checks_next(after, now, r);
            ready.checking_hands_over(after, now, r);
        }
    }

    proof fn ending_hands_over(self, after: Recall, now: Moment, r: Result<Ask, OutOfTurn>)
        requires
            self.ends(after, now, r),
        ensures
            after.hands_over(now, r),
            after.spent_as(self),
            after.planner.calls == self.planner.calls,
    {
        let settled = choose|settled: Recall| #[trigger]
            self.settles(settled) && settled.refreshes(after, now, r);
        settled.refreshing_hands_over(after, now, r);
    }

    /// Another pass began.
    pub open spec fn began_pass(self, before: Recall, r: Result<Ask, OutOfTurn>) -> bool {
        &&& self.stage == Stage::Weight
        &&& self.passes_left + 1 == before.passes_left
        &&& self.limit == before.limit
        &&& self.planner.context_spent == before.planner.context_spent
        &&& proceeds(r, Ask::CountRequest)
    }

    proof fn passing_leads_on(self, after: Recall, now: Moment, r: Result<Ask, OutOfTurn>)
        requires
            self.starts_pass(after, now, r),
        ensures
            after.began_pass(self, r) || (after.hands_over(now, r) && after.spent_as(self)),
            after.planner.calls == self.planner.calls,
    {
        if self.passes_left == 0 {
            self.ending_hands_over(after, now, r);
        }
    }

    proof fn calling_leads_on(self, after: Recall, now: Moment, r: Result<Ask, OutOfTurn>)
        requires
            self.calls_next(after, now, r),
            self.planner.calls <= MAX_CALLS,
        ensures
            ({
                ||| after.began_pass(self, r)
                ||| after.hands_over(now, r) && after.spent_as(self)
                ||| (after.stage == Stage::Reference && proceeds(r, Ask::Explain) || after.stage
                    is Read && r matches Ok(Ask::Read(_))) && after.spent_as(self) && after.next
                    == self.next
            }),
            self.planner.calls <= after.planner.calls,
    {
        if self.next < self.calls@.len() {
            let call = self.calls@[self.next as int];
            let judged = choose|judged: Recall| #[trigger]
                self.judges(judged) && match passes::call_step(call, text::views(self.tools@)) {
                    CallStep::Stop => judged.ends(after, now, r),
                    CallStep::Reference => after == (Recall { stage: Stage::Reference, ..judged })
                        && proceeds(r, Ask::Explain),
                    CallStep::Read(channel) => after == (Recall {
                        stage: Stage::Read(channel),
                        ..judged
                    }) && proceeds(r, Ask::Read(channel)),
                };
            if passes::call_step(call, text::views(self.tools@)) is Stop {
                judged.ending_hands_over(after, now, r);
            }
        } else {
            self.passing_leads_on(after, now, r);
        }
    }

    /// Where a report leads.
    pub open spec fn leads_on(
        self,
        after: Recall,
        told: Told,
        now: Moment,
        r: Result<Ask, OutOfTurn>,
    ) -> bool {
        ||| after.began_pass(self, r) && (self.stage == Stage::Search || self.stage == Stage::Model
            || self.stage == Stage::Reference || self.stage is Read)
        ||| after.hands_over(now, r) && after.spent_as(self) && (self.stage == Stage::Check
            ==> after.stage == Stage::Check ==> after.next > self.next) && self.stage
            != Stage::Packet && self.stage != Stage::Again && self.stage != Stage::Over
        ||| (after.stage == Stage::Reference && proceeds(r, Ask::Explain) || after.stage is Read
            && r matches Ok(Ask::Read(_))) && after.spent_as(self) && (self.stage == Stage::Model
            || ((self.stage == Stage::Reference || self.stage is Read) && after.next > self.next))
        ||| self.stage == Stage::Note && after.stage == Stage::Context && after.spent_as(self)
            && proceeds(r, Ask::ReadContext)
        ||| self.stage == Stage::Context && after.stage == Stage::Constraints && after.spent_as(
            self,
        ) && proceeds(r, Ask::ReadConstraints(CONSTRAINTS_QUERY))
        ||| self.stage == Stage::Constraints && after.stage == Stage::Required && after.spent_as(
            self,
        ) && proceeds(r, Ask::TryPacket)
        ||| self.stage == Stage::Required && after.stage == Stage::Search && after.spent_as(self)
            && proceeds(r, Ask::Search(DISCOVERY_QUERY))
        ||| self.stage == Stage::Weight && told is Counted && self.pays(
            after,
            weight_of(told->bytes, told->tokens),
        ) && proceeds(r, Ask::ReadClock)
        ||| self.stage == Stage::Weight && told is Counted && self.evicts(
            after,
            weight_of(told->bytes, told->tokens),
        ) && proceeds(r, Ask::CountRequest)
        ||| self.stage == Stage::Clock && told == (Told::Time { left: true }) && self.may_call(
            true,
        ) && after == (Recall { stage: Stage::Model, ..self }) && proceeds(r, Ask::Complete)
        ||| self.stage == Stage::Packet && after.stage == Stage::Again && after.spent_as(self)
            && proceeds(r, Ask::Pack { empty: false }) && !after.planner.failed
            && !after.material.critical_missing
        ||| (self.stage == Stage::Packet || self.stage == Stage::Again) && after.stage
            == Stage::Over && after.spent_as(self) && r matches Ok(Ask::Close(_))
        ||| after == self && r is Err
    }

    #[verifier::rlimit(60)]
    proof fn moving_leads_on(
        self,
        after: Recall,
        told: Told,
        now: Moment,
        r: Result<Ask, OutOfTurn>,
    )
        requires
            self.wf(),
            self.moves(after, told, now, r),
        ensures
            self.leads_on(after, told, now, r),
            self.planner.calls <= after.planner.calls,
    {
        match (self.stage, told) {
            (Stage::Note, Told::Tried { insufficient }) => {
                if insufficient {
                    (Recall {
                        material: Material {
                            failure: Some(Failure::OutputBudget),
                            ..self.material
                        },
                        planner: Planner { failed: true, ..self.planner },
                        ..self
                    }).delivering_hands_over(after, now, r);
                }
            },
            (Stage::Constraints, Told::Constraints(rows)) => {
                let list = match rows {
                    Some(list) => Some(crate::json::items_view(list@)),
                    None => None,
                };
                let read = choose|read: Recall| #[trigger]
                    self.constrains(read, list) && read.stage == self.stage
                        && if read.material.critical_missing {
                        read.gives_up(after, Failure::RequiredRead, now, r)
                    } else {
                        after == (Recall { stage: Stage::Required, ..read }) && proceeds(
                            r,
                            Ask::TryPacket,
                        )
                    };
                if read.material.critical_missing {
                    (Recall {
                        material: Material {
                            failure: Some(Failure::RequiredRead),
                            ..read.material
                        },
                        planner: Planner { failed: true, ..read.planner },
                        ..read
                    }).delivering_hands_over(after, now, r);
                }
            },
            (Stage::Required, Told::Tried { insufficient }) => {
                if self.material.critical_missing || insufficient {
                    let failure = if self.material.critical_missing {
                        Failure::RequiredRead
                    } else {
                        Failure::OutputBudget
                    };
                    (Recall {
                        material: Material { failure: Some(failure), ..self.material },
                        planner: Planner { failed: true, ..self.planner },
                        ..self
                    }).delivering_hands_over(after, now, r);
                }
            },
            (Stage::Search, Told::Hits(hits)) => {
                let grounded = choose|grounded: Recall| #[trigger]
                    self.grounds(grounded, hits) && grounded.starts_pass(after, now, r);
                grounded.passing_leads_on(after, now, r);
            },
            (Stage::Weight, Told::Counted { bytes, tokens }) => {
                let weight = weight_of(bytes, tokens);
                if exists|out: Recall| #[trigger]
                    self.runs_out(out, weight) && out.ends(after, now, r) {
                    let out = choose|out: Recall| #[trigger]
                        self.runs_out(out, weight) && out.ends(after, now, r);
                    out.ending_hands_over(after, now, r);
                }
            },
            (Stage::Clock, Told::Time { left }) => {
                if !self.may_call(left) {
                    self.stalls(left).ending_hands_over(after, now, r);
                }
            },
            (Stage::Model, Told::Reply(reply)) => {
                if self.asks_for_calls(reply) {
                    (Recall { calls: reply->0.calls, next: 0, ..self }).calling_leads_on(
                        after,
                        now,
                        r,
                    );
                } else {
                    let heeded = choose|heeded: Recall| #[trigger]
                        self.heeds(heeded, reply) && heeded.ends(after, now, r);
                    heeded.ending_hands_over(after, now, r);
                }
            },
            (Stage::Reference, Told::Tool(result)) => {
                let given = passes::result_view(result);
                let learned = choose|learned: Recall| #[trigger]
                    self.learns(learned, given) && learned.calls_next(after, now, r);
                learned.calling_leads_on(after, now, r);
            },
            (Stage::Read(channel), Told::Tool(result)) => {
                let given = passes::result_view(result);
                let richer = choose|richer: Recall| #[trigger]
                    self.takes_over(richer, channel, given) && richer.calls_next(after, now, r);
                richer.calling_leads_on(after, now, r);
            },
            (Stage::Check, Told::Tool(result)) => {
                let given = passes::result_view(result);
                let confirmed = choose|confirmed: Recall| #[trigger]
                    self.confirms(confirmed, given, now) && confirmed.checks_next(after, now, r);
                confirmed.checking_hands_over(after, now, r);
            },
            _ => {},
        }
    }
}

/// The model is called only with a request that the budget has paid for, in time,
/// and with everything that is required at hand. No recall spends more tokens
/// than its budget has, and none makes more calls than it may.
pub proof fn model_calls_are_paid_for(
    before: Recall,
    after: Recall,
    told: Told,
    now: Moment,
    r: Result<Ask, OutOfTurn>,
)
    requires
        before.wf(),
        before.moves(after, told, now, r),
        after.wf(),
    ensures
        proceeds(r, Ask::Complete) ==> before.stage == Stage::Clock && told == (Told::Time {
            left: true,
        }) && !after.planner.failed && !after.material.critical_missing,
        after.stage == Stage::Clock && before.stage != Stage::Clock ==> (told
            matches Told::Counted { bytes, tokens } && before.planner.context_spent + weight_of(
            bytes,
            tokens,
        ) <= before.limit && after.planner.context_spent == before.planner.context_spent
            + weight_of(bytes, tokens)),
        after.planner.context_spent <= after.limit == before.limit,
        after.planner.calls <= MAX_CALLS,
        before.planner.calls <= after.planner.calls,
{
    before.moving_leads_on(after, told, now, r);
}

/// Passes run out, so every recall comes to an end: with no pass begun, a report
/// leads to a later stage, to the next call or the next skill, or to one visible
/// item less.
pub proof fn recalls_come_to_an_end(
    before: Recall,
    after: Recall,
    told: Told,
    now: Moment,
    r: Result<Ask, OutOfTurn>,
)
    requires
        before.wf(),
        before.moves(after, told, now, r),
        r is Ok,
    ensures
        after.passes_left <= before.passes_left,
        after.passes_left == before.passes_left ==> after.stage.order() > before.stage.order() || (
        after.stage.order() == before.stage.order() && (after.next > before.next || super::items(
            after.visible@,
        ).len() < super::items(before.visible@).len())),
{
    before.moving_leads_on(after, told, now, r);
}

/// No earlier permission survives the check before delivery: none of the items
/// that are left is a check that was made before.
pub proof fn earlier_checks_are_dropped(before: Recall, after: Recall, i: int)
    requires
        before.drops_checks(after),
        0 <= i < after.material.stock().items.len(),
    ensures
        !delivery::is_check(before.material.procedures@, after.material.stock().items[i].id),
{
    let keep = delivery::no_check(before.material.procedures@);
    passes::filter_holds(before.material.stock().items, keep);
    assert(after.material.stock().items.contains(after.material.stock().items[i]));
    assert(keep(after.material.stock().items[i]));
}

/// What is delivered is in time: in the first packet no permission is out of time,
/// and in the one that is made anew there is none at all.
pub proof fn deliveries_are_in_time(
    before: Recall,
    after: Recall,
    told: Told,
    now: Moment,
    r: Result<Ask, OutOfTurn>,
    i: int,
)
    requires
        before.wf(),
        before.moves(after, told, now, r),
        r is Ok,
        0 <= i < after.delivered@.len(),
    ensures
        after.stage == Stage::Packet && delivery::is_permit(after.delivered@[i]@)
            ==> !delivery::is_stale(after.delivered@[i]@.content, now.ms, now.timestamp@),
        after.stage == Stage::Again ==> !delivery::is_permit(after.delivered@[i]@),
{
    before.moving_leads_on(after, told, now, r);
    if after.stage == Stage::Again {
        assert(super::items(after.delivered@).len() == after.delivered@.len());
        assert(super::items(before.delivered@).len() == before.delivered@.len());
        delivery::no_permission_outlives_its_time(
            delivery::expired(before.delivered@[i]@, now.ms, now.timestamp@, false),
            now.ms,
            now.timestamp@,
        );
    }
}

/// A recall that failed, or that misses something required, is never packed as an
/// ordinary one.
pub proof fn failures_are_not_packed(
    before: Recall,
    after: Recall,
    told: Told,
    now: Moment,
    r: Result<Ask, OutOfTurn>,
)
    requires
        before.wf(),
        before.moves(after, told, now, r),
        proceeds(r, Ask::Pack { empty: false }),
    ensures
        !after.planner.failed,
        !after.material.critical_missing,
{
    before.moving_leads_on(after, told, now, r);
}

} // verus!
