//! Recall: the bounded selection of authorised memories.

use vstd::prelude::*;

use crate::json::{Datum, Json};
use crate::text;

pub mod budgeted;
pub mod compact;
pub mod delivery;
pub mod laws;
pub mod machine;
pub mod material;
pub mod packet;
pub mod passes;
pub mod planner;
pub mod planning;
pub mod ranks;
pub mod prose;
pub mod requests;
pub mod session;
pub mod sessions;

verus! {

/// Where a memory item comes from.
#[derive(Clone, Copy, Debug, PartialEq, Eq, Structural)]
pub enum Channel {
    Primer,
    Notes,
    Counterparty,
    History,
    Kip,
    Wiki,
    Procedures,
}

/// How much a memory item matters; the first come first.
#[derive(Clone, Copy, Debug, PartialEq, Eq, Structural)]
pub enum Priority {
    Required,
    Warning,
    VerifiedProcedure,
    Relevant,
    UnprovenProcedure,
}

impl Priority {
    pub open spec fn rank(self) -> int {
        match self {
            Priority::Required => 0,
            Priority::Warning => 1,
            Priority::VerifiedProcedure => 2,
            Priority::Relevant => 3,
            Priority::UnprovenProcedure => 4,
        }
    }

    /// Required items and warnings: nothing may take them out.
    pub open spec fn mandatory(self) -> bool {
        self == Priority::Required || self == Priority::Warning
    }

    pub fn order(&self) -> (r: u8)
        ensures
            r == self.rank(),
    {
        match self {
            Priority::Required => 0,
            Priority::Warning => 1,
            Priority::VerifiedProcedure => 2,
            Priority::Relevant => 3,
            Priority::UnprovenProcedure => 4,
        }
    }

    pub fn is_mandatory(&self) -> (r: bool)
        ensures
            r == self.mandatory(),
    {
        match self {
            Priority::Required => true,
            Priority::Warning => true,
            _ => false,
        }
    }
}

/// One piece of memory that a planner may select.
#[derive(Debug)]
pub struct MemoryItem {
    pub id: String,
    pub channel: Channel,
    pub priority: Priority,
    pub content: Json,
}

/// A memory item, through views.
pub struct Item {
    pub id: Seq<char>,
    pub channel: Channel,
    pub priority: Priority,
    pub content: Datum,
}

impl View for MemoryItem {
    type V = Item;

    open spec fn view(&self) -> Item {
        Item {
            id: self.id@,
            channel: self.channel,
            priority: self.priority,
            content: self.content@,
        }
    }
}

pub open spec fn items(list: Seq<MemoryItem>) -> Seq<Item> {
    list.map_values(|i: MemoryItem| i@)
}

impl MemoryItem {
    pub fn copy(&self) -> (r: MemoryItem)
        ensures
            r@ == self@,
    {
        MemoryItem {
            id: self.id.clone(),
            channel: self.channel,
            priority: self.priority,
            content: self.content.copy(),
        }
    }
}

/// A copy of a list of items.
pub fn copy_items(list: &Vec<MemoryItem>) -> (r: Vec<MemoryItem>)
    ensures
        items(r@) == items(list@),
{
    let mut out: Vec<MemoryItem> = Vec::new();
    let mut i: usize = 0;
    while i < list.len()
        invariant
            i <= list.len(),
            items(out@) =~= items(list@).take(i as int),
        decreases list.len() - i,
    {
        let ghost before = items(out@);
        out.push(list[i].copy());
        assert(items(out@) =~= before.push(list@[i as int]@));
        i = i + 1;
        assert(items(list@).take(i as int) =~= items(list@).take(i - 1).push(items(list@)[i - 1]));
    }
    assert(items(list@).take(i as int) =~= items(list@));
    out
}

/// The tokenizer that budgets are counted with: the only one that the schema of
/// the `recall_memory` tool lists.
pub const TOKENIZER: &'static str = "o200k_base@tiktoken-rs-0.12.0";

/// The hard limits of a recall.
#[derive(Debug)]
pub struct RecallBudget {
    pub tokenizer: String,
    pub max_tokens: u32,
    pub context_tokens: u32,
}

#[derive(Clone, Copy, Debug, PartialEq, Eq, Structural)]
pub struct InvalidBudget;

impl RecallBudget {
    /// The budget is one that the schema of the `recall_memory` tool admits.
    pub open spec fn valid(self) -> bool {
        &&& self.tokenizer@ == TOKENIZER@
        &&& 1 <= self.max_tokens <= 65_536
        &&& 1 <= self.context_tokens <= 131_072
    }

    pub open spec fn value(self) -> Datum {
        Datum::empty().with("tokenizer"@, Datum::Text(self.tokenizer@)).with(
            "max_tokens"@,
            Datum::Unsigned(self.max_tokens as u64),
        ).with("context_tokens"@, Datum::Unsigned(self.context_tokens as u64))
    }

    pub fn to_json(&self) -> (r: Json)
        ensures
            r@ == self.value(),
            crate::nexus::portable(r@, 1),
    {
        let base = crate::nexus::put(
            Json::object(),
            "tokenizer",
            Json::text(self.tokenizer.as_str()),
            Ghost(1),
        );
        let bounded = crate::nexus::put(
            base,
            "max_tokens",
            Json::unsigned(self.max_tokens as u64),
            Ghost(1),
        );
        crate::nexus::put(
            bounded,
            "context_tokens",
            Json::unsigned(self.context_tokens as u64),
            Ghost(1),
        )
    }

    pub fn validate(&self) -> (r: Result<(), InvalidBudget>)
        ensures
            r is Ok <==> self.valid(),
    {
        if text::same(self.tokenizer.as_str(), TOKENIZER) && 1 <= self.max_tokens
            && self.max_tokens <= 65_536 && 1 <= self.context_tokens && self.context_tokens
            <= 131_072 {
            Ok(())
        } else {
            Err(InvalidBudget)
        }
    }
}

} // verus!
