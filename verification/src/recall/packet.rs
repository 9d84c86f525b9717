//! How memory items and coverage are written for a planner or into a packet. The
//! names of the channels and priorities are those of the packet's format.

use vstd::prelude::*;

use super::material::{Coverage, Reach};
use super::{Channel, Item, MemoryItem, Priority, RecallBudget};
use crate::json::{self, Datum, Json};
use crate::text;

verus! {

/// A format of packets: its own name, and what it calls channels and priorities.
#[derive(Debug)]
pub struct PacketFormat {
    pub name: String,
    pub primer: String,
    pub notes: String,
    pub counterparty: String,
    pub history: String,
    pub kip: String,
    pub wiki: String,
    pub procedures: String,
    pub required: String,
    pub warning: String,
    pub verified_procedure: String,
    pub relevant: String,
    pub unproven_procedure: String,
}

impl PacketFormat {
    /// What the channel is called.
    pub open spec fn channel(self, channel: Channel) -> Seq<char> {
        match channel {
            Channel::Primer => self.primer@,
            Channel::Notes => self.notes@,
            Channel::Counterparty => self.counterparty@,
            Channel::History => self.history@,
            Channel::Kip => self.kip@,
            Channel::Wiki => self.wiki@,
            Channel::Procedures => self.procedures@,
        }
    }

    /// What the priority is called.
    pub open spec fn priority(self, priority: Priority) -> Seq<char> {
        match priority {
            Priority::Required => self.required@,
            Priority::Warning => self.warning@,
            Priority::VerifiedProcedure => self.verified_procedure@,
            Priority::Relevant => self.relevant@,
            Priority::UnprovenProcedure => self.unproven_procedure@,
        }
    }

    fn channel_name(&self, channel: Channel) -> (r: &String)
        ensures
            r@ == self.channel(channel),
    {
        match channel {
            Channel::Primer => &self.primer,
            Channel::Notes => &self.notes,
            Channel::Counterparty => &self.counterparty,
            Channel::History => &self.history,
            Channel::Kip => &self.kip,
            Channel::Wiki => &self.wiki,
            Channel::Procedures => &self.procedures,
        }
    }

    fn priority_name(&self, priority: Priority) -> (r: &String)
        ensures
            r@ == self.priority(priority),
    {
        match priority {
            Priority::Required => &self.required,
            Priority::Warning => &self.warning,
            Priority::VerifiedProcedure => &self.verified_procedure,
            Priority::Relevant => &self.relevant,
            Priority::UnprovenProcedure => &self.unproven_procedure,
        }
    }

    /// How an item is written.
    pub open spec fn item_value(self, item: Item) -> Datum {
        Datum::empty().with("id"@, Datum::Text(item.id)).with(
            "channel"@,
            Datum::Text(self.channel(item.channel)),
        ).with("priority"@, Datum::Text(self.priority(item.priority))).with(
            "content"@,
            item.content,
        )
    }

    /// How a list of items is written.
    pub open spec fn items_value(self, items: Seq<Item>) -> Datum {
        Datum::Array(items.map_values(|i: Item| self.item_value(i)))
    }

    /// How a list of channels is written.
    pub open spec fn channels_value(self, channels: Seq<Channel>) -> Datum {
        json::text_list(channels.map_values(|c: Channel| self.channel(c)))
    }

    /// How coverage is written.
    pub open spec fn coverage_value(self, reach: Reach, unchecked: Seq<Channel>) -> Datum {
        Datum::empty().with("queried"@, self.channels_value(reach.queried)).with(
            "partial"@,
            self.channels_value(reach.partial),
        ).with("omitted"@, self.channels_value(reach.omitted)).with(
            "unchecked"@,
            self.channels_value(unchecked),
        )
    }

    fn write_channels(&self, channels: &Vec<Channel>) -> (r: Json)
        ensures
            r@ == self.channels_value(channels@),
    {
        let ghost all = channels@.map_values(|c: Channel| self.channel(c));
        let mut out: Vec<String> = Vec::new();
        let mut i: usize = 0;
        while i < channels.len()
            invariant
                i <= channels.len(),
                all == channels@.map_values(|c: Channel| self.channel(c)),
                text::views(out@) =~= all.take(i as int),
            decreases channels.len() - i,
        {
            let ghost before = text::views(out@);
            out.push(self.channel_name(channels[i]).clone());
            assert(text::views(out@) =~= before.push(all[i as int]));
            i = i + 1;
            assert(all.take(i as int) =~= all.take(i - 1).push(all[i - 1]));
        }
        assert(all.take(i as int) =~= all);
        Json::texts(&out)
    }

    pub fn write_coverage(&self, coverage: &Coverage) -> (r: Json)
        ensures
            r@ == self.coverage_value(coverage.reach(), coverage.unchecked@),
    {
        Json::object().with("queried", self.write_channels(&coverage.queried)).with(
            "partial",
            self.write_channels(&coverage.partial),
        ).with("omitted", self.write_channels(&coverage.omitted)).with(
            "unchecked",
            self.write_channels(&coverage.unchecked),
        )
    }

    pub fn write_items(&self, items: &Vec<MemoryItem>) -> (r: Json)
        ensures
            r@ == self.items_value(super::items(items@)),
    {
        let ghost all = super::items(items@).map_values(|i: Item| self.item_value(i));
        let mut out: Vec<Json> = Vec::new();
        let mut i: usize = 0;
        while i < items.len()
            invariant
                i <= items.len(),
                all == super::items(items@).map_values(|i: Item| self.item_value(i)),
                json::items_view(out@) =~= all.take(i as int),
            decreases items.len() - i,
        {
            let ghost before = json::items_view(out@);
            let item = &items[i];
            let written = Json::object().with("id", Json::text(item.id.as_str())).with(
                "channel",
                Json::text(self.channel_name(item.channel).as_str()),
            ).with("priority", Json::text(self.priority_name(item.priority).as_str())).with(
                "content",
                item.content.copy(),
            );
            assert(super::items(items@)[i as int] == item@);
            assert(written@ == all[i as int]);
            out.push(written);
            assert(json::items_view(out@) =~= before.push(all[i as int]));
            i = i + 1;
            assert(all.take(i as int) =~= all.take(i - 1).push(all[i - 1]));
        }
        assert(all.take(i as int) =~= all);
        let r = Json::Array(out);
        proof {
            r.view_of_parts();
        }
        r
    }
}

/// The packet that stands for a delivery without one: the budget did not suffice,
/// and what was read from memory is left out.
pub open spec fn insufficient_packet(format: PacketFormat, budget: RecallBudget) -> Datum {
    Datum::empty().with("format"@, Datum::Text(format.name@)).with(
        "status"@,
        Datum::Text("budget_insufficient"@),
    ).with("failed_reason"@, Datum::Null).with("tokenizer"@, Datum::Text(budget.tokenizer@)).with(
        "token_limit"@,
        Datum::Unsigned(budget.max_tokens as u64),
    ).with("items"@, Datum::Array(Seq::empty())).with(
        "coverage"@,
        format.coverage_value(
            (Reach {
                queried: Seq::empty(),
                partial: Seq::empty(),
                omitted: seq![Channel::Kip],
            }),
            Seq::empty(),
        ),
    ).with("semantic_complete"@, Datum::Bool(false)).with("action_ready"@, Datum::Bool(false))
}

/// The packet behind what a packer delivered.
pub open spec fn packet_of(delivered: Datum, format: PacketFormat, budget: RecallBudget) -> Datum {
    if delivered is Null {
        insufficient_packet(format, budget)
    } else {
        delivered
    }
}

/// The packet behind what a packer delivered: a null delivery still retains that it
/// was insufficient.
pub fn read_packet(delivered: Json, format: &PacketFormat, budget: &RecallBudget) -> (r: Json)
    ensures
        r@ == packet_of(delivered@, *format, *budget),
        !(delivered@ is Null) ==> r == delivered,
{
    proof {
        delivered.view_of_parts();
    }
    if !delivered.is_null() {
        return delivered;
    }
    let mut omitted: Vec<Channel> = Vec::new();
    omitted.push(Channel::Kip);
    let coverage = Coverage {
        queried: Vec::new(),
        partial: Vec::new(),
        omitted,
        unchecked: Vec::new(),
    };
    let none = Json::Array(Vec::new());
    proof {
        none.view_of_parts();
        assert(none@ == Datum::Array(Seq::empty())) by {
            assert(none@->Array_0 =~= Seq::empty());
        }
        assert(coverage.omitted@ =~= seq![Channel::Kip]);
        assert(coverage.queried@ =~= Seq::empty());
        assert(coverage.partial@ =~= Seq::empty());
        assert(coverage.unchecked@ =~= Seq::empty());
    }
    Json::object().with("format", Json::text(format.name.as_str())).with(
        "status",
        Json::text("budget_insufficient"),
    ).with("failed_reason", Json::Null).with(
        "tokenizer",
        Json::text(budget.tokenizer.as_str()),
    ).with("token_limit", Json::unsigned(budget.max_tokens as u64)).with("items", none).with(
        "coverage",
        format.write_coverage(&coverage),
    ).with("semantic_complete", Json::Bool(false)).with("action_ready", Json::Bool(false))
}

/// A packet of an insufficient budget says so, and holds no items.
pub proof fn insufficient_packets_hold_nothing(format: PacketFormat, budget: RecallBudget)
    ensures
        insufficient_packet(format, budget).at("status"@) == Datum::Text("budget_insufficient"@),
        insufficient_packet(format, budget).at("items"@) == Datum::Array(Seq::empty()),
        insufficient_packet(format, budget).at("action_ready"@) == Datum::Bool(false),
{
    broadcast use json::with_is_read_back;

    reveal_strlit("format");
    reveal_strlit("status");
    reveal_strlit("failed_reason");
    reveal_strlit("tokenizer");
    reveal_strlit("token_limit");
    reveal_strlit("items");
    reveal_strlit("coverage");
    reveal_strlit("semantic_complete");
    reveal_strlit("action_ready");
    let v = insufficient_packet(format, budget);
    assert("status"@[0] == 's' && "format"@[0] == 'f');
    assert(v.get("status"@) == Some(Datum::Text("budget_insufficient"@)));
    assert(v.get("items"@) == Some(Datum::Array(Seq::empty())));
    assert(v.get("action_ready"@) == Some(Datum::Bool(false)));
}

} // verus!
