//! What a budgeted recall asks of the model and of the memory: the planner's
//! request, and the reads that the planner asked for, within their bounds.

use vstd::prelude::*;

use super::budgeted::{
    planner_instructions, planner_prompt, Ask, Moment, OutOfTurn, Recall,
    Stage, Told, BUDGET_MODE,
};
use super::delivery::{self, bound_read, bound_wiki_search, BudgetError, PlannerRequest};
use super::material::MAX_ROWS;
use super::packet::PacketFormat;
use super::passes::{self, ToolCall};
use crate::json::{self, Datum, Json};
use crate::text;

verus! {

// ---------------------------------------------------------------------------
// The planner's request
// ---------------------------------------------------------------------------

pub const SELECT_DESCRIPTION: &'static str =
    "Finish Recall by selecting existing memory item IDs. The host retains all required constraints and warnings regardless of this selection. Do not generate new content or invent IDs.";

/// The definition of the tool that ends a recall.
pub open spec fn selector_value() -> Datum {
    Datum::empty().with("name"@, Datum::Text(passes::SELECT@)).with(
        "description"@,
        Datum::Text(SELECT_DESCRIPTION@),
    ).with("strict"@, Datum::Bool(true)).with(
        "parameters"@,
        Datum::empty().with("type"@, Datum::Text("object"@)).with(
            "properties"@,
            Datum::empty().with(
                "selected_ids"@,
                Datum::empty().with("type"@, Datum::Text("array"@)).with(
                    "items"@,
                    Datum::empty().with("type"@, Datum::Text("string"@)),
                ),
            ),
        ).with("required"@, json::text_list(seq!["selected_ids"@])).with(
            "additionalProperties"@,
            Datum::Bool(false),
        ),
    )
}

/// The definition of the tool that ends a recall.
pub fn selector() -> (r: Json)
    ensures
        r@ == selector_value(),
{
    let mut required: Vec<String> = Vec::new();
    required.push("selected_ids".to_owned());
    assert(text::views(required@) =~= seq!["selected_ids"@]);
    let list = Json::object().with("type", Json::text("array")).with(
        "items",
        Json::object().with("type", Json::text("string")),
    );
    let parameters = Json::object().with("type", Json::text("object")).with(
        "properties",
        Json::object().with("selected_ids", list),
    ).with("required", Json::texts(&required)).with("additionalProperties", Json::Bool(false));
    Json::object().with("name", Json::text(passes::SELECT)).with(
        "description",
        Json::text(SELECT_DESCRIPTION),
    ).with("strict", Json::Bool(true)).with("parameters", parameters)
}

/// What stands beside the question, the same in every pass of a recall.
#[derive(Debug)]
pub struct Terms {
    /// The context that the caller gave, or null.
    pub context: Json,
    /// The system prompt of a recall.
    pub system: String,
    /// The definitions of the tools that read.
    pub tools: Vec<Json>,
    /// What the model's medium effort is called.
    pub effort: String,
    pub format: PacketFormat,
}

impl Recall {
    /// What the planner is asked with in this pass.
    pub open spec fn asked(self, terms: Terms) -> Datum {
        super::budgeted::prompt_value(
            self.query@,
            terms.context@,
            terms.format.items_value(super::items(self.visible@)),
            json::items_view(self.observations@),
            terms.format.coverage_value(
                self.material.coverage.reach(),
                super::material::unread(
                    super::material::all_channels(),
                    self.material.coverage.queried@,
                ),
            ),
        )
    }

    /// The request of this pass: the question, what is visible, what was observed
    /// and what was covered, with the tools that read and the one that selects.
    pub open spec fn requests(self, request: PlannerRequest, terms: Terms) -> bool {
        &&& request.instructions@ == terms.system@ + BUDGET_MODE@
        &&& request.prompt@ == self.asked(terms).written()
        &&& request.tools@ == Datum::Array(json::items_view(terms.tools@).push(selector_value()))
        &&& request.max_output_tokens is None
        &&& request.tool_choice_required
        &&& request.effort matches Some(effort) && effort@ == terms.effort@
        &&& !request.carries_more()
    }

    /// The request that is counted in this pass, and sent where it fits.
    pub fn request(&self, terms: &Terms) -> (r: PlannerRequest)
        ensures
            self.requests(r, *terms),
    {
        let mut tools: Vec<Json> = Vec::new();
        let ghost all = json::items_view(terms.tools@);
        let mut i: usize = 0;
        while i < terms.tools.len()
            invariant
                i <= terms.tools.len(),
                all == json::items_view(terms.tools@),
                json::items_view(tools@) =~= all.take(i as int),
            decreases terms.tools.len() - i,
        {
            let ghost before = json::items_view(tools@);
            tools.push(terms.tools[i].copy());
            assert(json::items_view(tools@) =~= before.push(all[i as int]));
            i = i + 1;
            assert(all.take(i as int) =~= all.take(i - 1).push(all[i - 1]));
        }
        assert(all.take(i as int) =~= all);
        tools.push(selector());
        assert(json::items_view(tools@) =~= all.push(selector_value()));
        let definitions = Json::Array(tools);
        proof {
            definitions.view_of_parts();
        }
        let coverage = self.material.coverage();
        let prompt = planner_prompt(
            self.query.as_str(),
            terms.context.copy(),
            terms.format.write_items(&self.visible),
            &self.observations,
            terms.format.write_coverage(&coverage),
        );
        PlannerRequest {
            instructions: planner_instructions(terms.system.as_str()),
            prompt,
            tools: definitions,
            max_output_tokens: None,
            tool_choice_required: true,
            effort: Some(terms.effort.clone()),
            chat_history: 0,
            raw_history: 0,
            documents: 0,
            content: 0,
            output_schema: false,
        }
    }
}

/// What the model is called with is what was counted: nothing that the request is
/// made of changes between the count and the call.
pub proof fn the_counted_request_is_sent(
    counted: Recall,
    bytes: usize,
    tokens: usize,
    admitted: Recall,
    left: bool,
    called: Recall,
    first: Moment,
    second: Moment,
    terms: Terms,
    request: PlannerRequest,
)
    requires
        counted.stage == Stage::Weight,
        counted.moves(
            admitted,
            Told::Counted { bytes, tokens },
            first,
            Ok::<Ask, OutOfTurn>(Ask::ReadClock),
        ),
        admitted.stage == Stage::Clock,
        admitted.moves(
            called,
            Told::Time { left },
            second,
            Ok::<Ask, OutOfTurn>(Ask::Complete),
        ),
    ensures
        counted.requests(request, terms) <==> called.requests(request, terms),
{
}

// ---------------------------------------------------------------------------
// The reads that a planner asks for
// ---------------------------------------------------------------------------

/// The tool that reads the memory, and the one that searches the wiki.
pub const READ_TOOL: &'static str = "execute_kip_readonly";

pub const WIKI_SEARCH_TOOL: &'static str = "wiki_search";

/// A call as it is run.
#[derive(Debug)]
pub enum BoundedCall {
    /// The request, with that limit for each of its operations.
    Kip { request: Json, limits: Vec<u64> },
    Tool { name: String, args: Json },
}

/// What becomes of a call: a read of the memory runs within its limits or not at
/// all, a search of the wiki is cut down, and every other call runs as it is.
pub open spec fn is_bounded(
    call: ToolCall,
    request: Option<Datum>,
    r: Result<BoundedCall, BudgetError>,
) -> bool {
    if call.name@ == READ_TOOL@ {
        match request {
            None => r matches Err(e) && e == BudgetError::InvalidRequest,
            Some(own) => match r {
                Ok(BoundedCall::Kip { request, limits }) => request@ == own
                    && delivery::read_bounded(own, Ok::<Seq<u64>, BudgetError>(limits@)),
                Ok(_) => false,
                Err(e) => delivery::read_bounded(own, Err::<Seq<u64>, BudgetError>(e)),
            },
        }
    } else {
        r matches Ok(BoundedCall::Tool { name, args }) && name@ == call.name@ && args@ == if call.name@
            == WIKI_SEARCH_TOOL@ {
            delivery::searched(call.args@)
        } else {
            call.args@
        }
    }
}

impl Recall {
    /// The call that the planner waits for.
    pub open spec fn current(self) -> ToolCall {
        self.calls@[self.next as int]
    }

    /// The call that the planner waits for, within its bounds. For a read of the
    /// memory, `request` is the request that its arguments write, if they do.
    pub fn bounded_call(&self, request: Option<Json>) -> (r: Result<BoundedCall, BudgetError>)
        requires
            self.wf(),
            self.stage == Stage::Reference || self.stage is Read,
            self.current().name@ == WIKI_SEARCH_TOOL@ ==> self.current().args@ is Object
                || self.current().args@ is Null,
        ensures
            is_bounded(self.current(), super::budgeted::optional_value(request), r),
            r matches Ok(BoundedCall::Kip { limits, .. }) ==> limits@.len()
                <= delivery::MAX_READ_OPERATIONS && forall|i: int|
                0 <= i < limits@.len() ==> #[trigger] limits@[i] <= MAX_ROWS,
            r matches Ok(BoundedCall::Tool { name, args }) ==> name@ == WIKI_SEARCH_TOOL@ ==> (
            args@.at("top_k"@) matches Datum::Unsigned(n) && n <= 8) && args@.at("expand"@)
                == Datum::Unsigned(0),
    {
        let call = &self.calls[self.next];
        if text::same(call.name.as_str(), READ_TOOL) {
            let request = match request {
                Some(request) => request,
                None => return Err(BudgetError::InvalidRequest),
            };
            return match bound_read(&request) {
                Ok(limits) => Ok(BoundedCall::Kip { request, limits }),
                Err(e) => Err(e),
            };
        }
        if text::same(call.name.as_str(), WIKI_SEARCH_TOOL) {
            let args = bound_wiki_search(call.args.copy());
            proof {
                delivery::searches_are_cut_down(call.args@);
            }
            return Ok(BoundedCall::Tool { name: call.name.clone(), args });
        }
        Ok(BoundedCall::Tool { name: call.name.clone(), args: call.args.copy() })
    }
}

// ---------------------------------------------------------------------------
// The search for the question
// ---------------------------------------------------------------------------

impl Recall {
    /// The parameters of the search for the question.
    pub fn search_parameters(&self) -> (r: Json)
        ensures
            r@ == Datum::empty().with("query"@, Datum::Text(self.query@)),
    {
        Json::object().with("query", Json::text(self.query.as_str()))
    }
}

} // verus!
