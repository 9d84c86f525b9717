//! The reads behind an action, step by step: the projection of the anchor fixes
//! the coordinate, and everything else is read at that coordinate.

use vstd::prelude::*;

use super::context::{self, Capture, ContextRow, Gathered, ProjectionSource};
use super::request::ContextRequest;
use super::ActionError;
use crate::json::{Datum, Json};
use crate::nexus;
use crate::recall::packet::{self, PacketFormat};
use crate::recall::{MemoryItem, RecallBudget};
use crate::text;
use crate::wake::WakeRecord;

verus! {

/// What the host is waited for.
#[derive(Clone, Copy, Debug, PartialEq, Eq, Structural)]
pub enum Stage {
    Anchor,
    Commitments,
    Element,
    /// The projection of the element that was read.
    Belief,
    Packet,
    Over,
}

/// What the host does next.
#[derive(Debug)]
pub enum Ask {
    /// Run the query, with the identity as its parameter where one is given.
    Read { query: String, id: Option<String> },
    /// Make a packet of these required items.
    Pack(Vec<MemoryItem>),
    Stop,
}

/// What the host reports.
#[derive(Debug)]
pub enum Told {
    /// What a query returned, and whether there is more of it.
    Rows { result: Json, more: bool },
    /// What the packer delivered: a packet, or null where there is none.
    Packed { packet: Json, insufficient: bool },
}

/// How far the reads have come.
#[derive(Debug)]
pub struct Reading {
    pub stage: Stage,
    pub request: ContextRequest,
    pub anchor: Json,
    pub basis: Json,
    /// The coordinate of every read behind the anchor's.
    pub seq: u64,
    pub refs: Vec<String>,
    pub rows: Vec<ContextRow>,
    pub problem: Option<String>,
    /// The element whose projection is read.
    pub element: Option<(Json, u64)>,
    pub gathered: Option<Gathered>,
    pub capture: Option<Capture>,
}

pub open spec fn fails(r: Result<Ask, ActionError>, e: ActionError) -> bool {
    r matches Err(own) && own == e
}

/// The host is asked for that query.
pub open spec fn reads(
    r: Result<Ask, ActionError>,
    query: Seq<char>,
    id: Option<Seq<char>>,
) -> bool {
    r matches Ok(Ask::Read { query: own, id: name }) && own@ == query && super::request::opt_view(
        name,
    ) == id
}

/// A read that counts for nothing: it is incomplete or too large.
pub open spec fn unread(result: Datum, more: bool) -> Option<ActionError> {
    if more {
        Some(ActionError::IncompletePage)
    } else if text::utf8_len(result.written()) > context::MAX_READ_BYTES {
        Some(ActionError::ByteBudget)
    } else {
        None
    }
}

/// The projection that a read returned.
pub open spec fn belief_read(result: Datum) -> Option<Datum> {
    match result {
        Datum::Array(list) => if list.len() > 0 {
            Some(list[0])
        } else {
            None
        },
        _ => None,
    }
}

impl Reading {
    pub open spec fn wf(self) -> bool {
        &&& self.rows@.len() <= self.refs@.len()
        &&& self.stage == Stage::Element || self.stage == Stage::Belief ==> self.rows@.len()
            < self.refs@.len()
        &&& self.stage == Stage::Belief ==> self.element is Some
        &&& self.stage == Stage::Packet ==> self.gathered is Some
    }

    /// Starts the reads of a request.
    pub fn begin(request: ContextRequest) -> (r: Result<(Reading, Ask), ActionError>)
        ensures
            match r {
                Ok((reading, ask)) => {
                    &&& request.bounded()
                    &&& text::is_prefix("P-"@, request.anchor@)
                    &&& reading.wf()
                    &&& reading.stage == Stage::Anchor
                    &&& reading.request == request
                    &&& reading.anchor@ == Datum::Null
                    &&& reading.basis@ == Datum::Null
                    &&& reading.seq == 0
                    &&& reading.refs@.len() == 0
                    &&& reading.rows@.len() == 0
                    &&& reading.problem is None
                    &&& reading.element is None
                    &&& reading.gathered is None
                    &&& reading.capture is None
                    &&& reads(
                        Ok(ask),
                        context::belief_query_of(None),
                        Some(request.anchor@),
                    )
                },
                Err(e) => e == if !request.bounded() {
                    ActionError::InvalidContext
                } else {
                    ActionError::BeliefNeedsProposition
                } && !(request.bounded() && text::is_prefix("P-"@, request.anchor@)),
            },
    {
        if let Err(e) = context::check_context(&request) {
            return Err(e);
        }
        let query = match context::belief_query(request.anchor.as_str(), None) {
            Ok(query) => query,
            Err(e) => return Err(e),
        };
        let id = Some(request.anchor.clone());
        let reading = Reading {
            stage: Stage::Anchor,
            request,
            anchor: Json::Null,
            basis: Json::Null,
            seq: 0,
            refs: Vec::new(),
            rows: Vec::new(),
            problem: None,
            element: None,
            gathered: None,
            capture: None,
        };
        Ok((reading, Ask::Read { query, id }))
    }

    /// The anchor's projection fixes the coordinate.
    pub open spec fn anchor_moves(
        self,
        after: Reading,
        result: Datum,
        more: bool,
        r: Result<Ask, ActionError>,
    ) -> bool {
        if unread(result, more) is Some {
            fails(r, unread(result, more)->0)
        } else {
            match belief_read(result) {
                None => fails(r, ActionError::BeliefUnavailable),
                Some(anchor) => match anchor.at("basis"@).at("snapshot_seq"@).as_u64() {
                    None => fails(r, ActionError::BasisSequenceMissing),
                    Some(seq) => {
                        &&& after == (Reading {
                            stage: Stage::Commitments,
                            anchor: after.anchor,
                            basis: after.basis,
                            seq,
                            ..self
                        })
                        &&& after.anchor@ == anchor
                        &&& after.basis@ == anchor.at("basis"@)
                        &&& reads(r, context::commitment_query_of(seq), None)
                    },
                },
            }
        }
    }

    fn on_anchor(&mut self, result: &Json, more: bool) -> (r: Result<Ask, ActionError>)
        ensures
            old(self).anchor_moves(*final(self), result@, more, r),
    {
        if let Err(e) = context::check_read(result, more) {
            return Err(e);
        }
        let anchor = match context::read_belief(result) {
            Ok(anchor) => anchor,
            Err(e) => return Err(e),
        };
        match context::anchor_basis(&anchor) {
            Ok((basis, seq)) => {
                self.anchor = anchor;
                self.basis = basis;
                self.seq = seq;
                self.stage = Stage::Commitments;
                Ok(Ask::Read { query: context::commitment_query(seq), id: None })
            },
            Err(e) => Err(e),
        }
    }

    /// The references come to this.
    pub open spec fn gathers(self, gathered: Gathered) -> bool {
        &&& gathered.items@.len() == self.refs@.len()
        &&& gathered.pins@.len() == self.refs@.len()
        &&& forall|i: int|
            0 <= i < self.refs@.len() ==> (#[trigger] gathered.items@[i])@ == context::context_item(
                self.refs@[i]@,
                self.rows@[i],
            )
        &&& forall|i: int|
            0 <= i < self.refs@.len() ==> (#[trigger] gathered.pins@[i]).id@ == self.refs@[i]@
                && gathered.pins@[i].version == self.rows@[i].version
        &&& super::request::opt_view(gathered.insufficient) == context::rows_problem(
            self.request,
            text::views(self.refs@),
            self.rows@,
            super::request::opt_view(self.problem),
        )
    }

    /// The next reference is read at the coordinate; behind the last one a packet
    /// is made of all.
    pub open spec fn turns_to_next(self, after: Reading, r: Result<Ask, ActionError>) -> bool {
        if self.rows@.len() >= self.refs@.len() {
            &&& after == (Reading { stage: Stage::Packet, gathered: after.gathered, ..self })
            &&& after.gathered matches Some(own) && self.gathers(own) && (r matches Ok(
                Ask::Pack(items),
            ) && crate::recall::items(items@) == crate::recall::items(own.items@))
        } else {
            let id = self.refs@[self.rows@.len() as int]@;
            if nexus::is_element(id) {
                &&& after == (Reading { stage: Stage::Element, ..self })
                &&& reads(r, context::element_query_of(id, Some(self.seq)), Some(id))
            } else {
                fails(r, ActionError::InvalidReferenceIdentity)
            }
        }
    }

    fn turn_to_next(&mut self) -> (r: Result<Ask, ActionError>)
        requires
            old(self).rows@.len() <= old(self).refs@.len(),
        ensures
            old(self).turns_to_next(*final(self), r),
            r is Ok ==> final(self).wf(),
    {
        let i: usize = self.rows.len();
        if i >= self.refs.len() {
            let problem = crate::runtime::optional_copy(&self.problem);
            let gathered = context::gather(&self.request, &self.refs, &self.rows, problem);
            let items = crate::recall::copy_items(&gathered.items);
            self.gathered = Some(gathered);
            self.stage = Stage::Packet;
            return Ok(Ask::Pack(items));
        }
        match context::element_query(self.refs[i].as_str(), Some(self.seq)) {
            Ok(query) => {
                let id = Some(self.refs[i].clone());
                self.stage = Stage::Element;
                Ok(Ask::Read { query, id })
            },
            Err(e) => Err(e),
        }
    }

    /// What has to be read is known.
    pub open spec fn plans(self, after: Reading, wake: WakeRecord, rows: Seq<Datum>) -> bool {
        &&& after == (Reading {
            refs: after.refs,
            rows: after.rows,
            problem: after.problem,
            ..self
        })
        &&& text::views(after.refs@) == context::context_refs(self.request, wake, rows)
        &&& after.rows@.len() == 0
        &&& super::request::opt_view(after.problem) == if rows.len() > context::MAX_COMMITMENTS {
            Some(context::COVERAGE_INCOMPLETE@)
        } else {
            None
        }
    }

    /// All unresolved commitments belong to what is read; a full page of them is
    /// never taken for all.
    pub open spec fn commitments_move(
        self,
        after: Reading,
        result: Datum,
        more: bool,
        wake: WakeRecord,
        r: Result<Ask, ActionError>,
    ) -> bool {
        if unread(result, more) is Some {
            fails(r, unread(result, more)->0)
        } else {
            match result {
                Datum::Array(rows) => if context::commitments_named(rows) {
                    exists|planned: Reading| #[trigger]
                        self.plans(planned, wake, rows) && planned.turns_to_next(after, r)
                } else {
                    fails(r, ActionError::CommitmentReferenceMissing)
                },
                _ => fails(r, ActionError::InvalidCommitmentPage),
            }
        }
    }

    fn on_commitments(&mut self, result: &Json, more: bool, wake: &WakeRecord) -> (r: Result<
        Ask,
        ActionError,
    >)
        ensures
            old(self).commitments_move(*final(self), result@, more, *wake, r),
            r is Ok ==> final(self).wf(),
    {
        if let Err(e) = context::check_read(result, more) {
            return Err(e);
        }
        match context::plan_reads(&self.request, wake, result) {
            Ok((refs, problem)) => {
                self.refs = refs;
                self.problem = problem;
                self.rows = Vec::new();
                let ghost planned = *self;
                let r = self.turn_to_next();
                assert(old(self).plans(planned, *wake, result@->Array_0)
                    && planned.turns_to_next(*self, r));
                r
            },
            Err(e) => Err(e),
        }
    }

    /// One more reference was read.
    pub open spec fn takes_row(
        self,
        after: Reading,
        row: Datum,
        version: u64,
        belief: Option<Datum>,
    ) -> bool {
        &&& after == (Reading { rows: after.rows, element: None, ..self })
        &&& after.rows@.len() == self.rows@.len() + 1
        &&& after.rows@.drop_last() == self.rows@
        &&& after.rows@.last().row@ == row
        &&& after.rows@.last().version == version
        &&& match after.rows@.last().belief {
            Some(own) => belief == Some(own@),
            None => belief is None,
        }
    }

    pub open spec fn goes_on(
        self,
        after: Reading,
        row: Datum,
        version: u64,
        belief: Option<Datum>,
        r: Result<Ask, ActionError>,
    ) -> bool {
        exists|taken: Reading| #[trigger]
            self.takes_row(taken, row, version, belief) && taken.turns_to_next(after, r)
    }

    fn go_on(&mut self, row: Json, version: u64, belief: Option<Json>) -> (r: Result<
        Ask,
        ActionError,
    >)
        requires
            old(self).rows@.len() < old(self).refs@.len(),
        ensures
            old(self).goes_on(
                *final(self),
                row@,
                version,
                match belief {
                    Some(own) => Some(own@),
                    None => None,
                },
                r,
            ),
            r is Ok ==> final(self).wf(),
    {
        let ghost given = if belief is Some {
            Some(belief->0@)
        } else {
            None
        };
        let ghost content = row@;
        self.rows.push(ContextRow { row, version, belief });
        self.element = None;
        let ghost taken = *self;
        proof {
            assert(taken.rows@.drop_last() =~= old(self).rows@);
            assert(old(self).takes_row(taken, content, version, given));
        }
        self.turn_to_next()
    }

    /// An element counts only as the one that was asked for, with its version. A
    /// Proposition is read together with its whole projection.
    pub open spec fn element_moves(
        self,
        after: Reading,
        result: Datum,
        more: bool,
        r: Result<Ask, ActionError>,
    ) -> bool {
        let id = self.refs@[self.rows@.len() as int]@;
        if unread(result, more) is Some {
            fails(r, unread(result, more)->0)
        } else {
            match context::element_of(result, id) {
                Err(e) => fails(r, e),
                Ok((row, version)) => if id == self.request.anchor@ {
                    self.goes_on(after, row, version, Some(self.anchor@), r)
                } else if text::is_prefix("P-"@, id) {
                    &&& after == (Reading {
                        stage: Stage::Belief,
                        element: after.element,
                        ..self
                    })
                    &&& after.element matches Some((own, n)) && own@ == row && n == version
                    &&& reads(r, context::belief_query_of(Some(self.seq)), Some(id))
                } else {
                    self.goes_on(after, row, version, None, r)
                },
            }
        }
    }

    fn on_element(&mut self, result: &Json, more: bool) -> (r: Result<Ask, ActionError>)
        requires
            old(self).wf(),
            old(self).stage == Stage::Element,
        ensures
            old(self).element_moves(*final(self), result@, more, r),
            r is Ok ==> final(self).wf(),
    {
        if let Err(e) = context::check_read(result, more) {
            return Err(e);
        }
        let i: usize = self.rows.len();
        let (row, version) = match context::read_element(result, self.refs[i].as_str()) {
            Ok(found) => found,
            Err(e) => return Err(e),
        };
        match context::projection_source(self.refs[i].as_str(), self.request.anchor.as_str()) {
            ProjectionSource::Anchor => {
                let anchor = self.anchor.copy();
                self.go_on(row, version, Some(anchor))
            },
            ProjectionSource::Absent => self.go_on(row, version, None),
            ProjectionSource::Native => {
                let query = match context::belief_query(self.refs[i].as_str(), Some(self.seq)) {
                    Ok(query) => query,
                    Err(e) => return Err(e),
                };
                let id = Some(self.refs[i].clone());
                self.element = Some((row, version));
                self.stage = Stage::Belief;
                Ok(Ask::Read { query, id })
            },
        }
    }

    pub open spec fn belief_moves(
        self,
        after: Reading,
        result: Datum,
        more: bool,
        r: Result<Ask, ActionError>,
    ) -> bool {
        if unread(result, more) is Some {
            fails(r, unread(result, more)->0)
        } else {
            match belief_read(result) {
                None => fails(r, ActionError::BeliefUnavailable),
                Some(belief) => self.goes_on(
                    after,
                    (self.element->0).0@,
                    (self.element->0).1,
                    Some(belief),
                    r,
                ),
            }
        }
    }

    fn on_belief(&mut self, result: &Json, more: bool) -> (r: Result<Ask, ActionError>)
        requires
            old(self).wf(),
            old(self).stage == Stage::Belief,
        ensures
            old(self).belief_moves(*final(self), result@, more, r),
            r is Ok ==> final(self).wf(),
    {
        if let Err(e) = context::check_read(result, more) {
            return Err(e);
        }
        let belief = match context::read_belief(result) {
            Ok(belief) => belief,
            Err(e) => return Err(e),
        };
        let (row, version) = match &self.element {
            Some((row, version)) => (row.copy(), *version),
            None => return Err(ActionError::OutOfTurn),
        };
        self.go_on(row, version, Some(belief))
    }

    /// The capture is complete.
    pub open spec fn captured(
        self,
        capture: Capture,
        packet: Datum,
        insufficient: bool,
    ) -> bool {
        let gathered = self.gathered->0;
        &&& capture.receipt is None
        &&& capture.request.same_as(self.request)
        &&& capture.basis@ == self.basis@
        &&& capture.pins == gathered.pins
        &&& text::views(capture.retrieved@) == text::views(self.refs@)
        &&& capture.packet@ == packet
        &&& super::request::opt_view(capture.insufficient) == context::first_problem(
            super::request::opt_view(gathered.insufficient),
            if insufficient {
                Some(context::CONTEXT_TOO_LARGE@)
            } else {
                None
            },
        )
    }

    pub open spec fn packet_moves(
        self,
        after: Reading,
        packet: Datum,
        insufficient: bool,
        r: Result<Ask, ActionError>,
    ) -> bool {
        &&& after == (Reading {
            stage: Stage::Over,
            gathered: None,
            capture: after.capture,
            ..self
        })
        &&& after.capture matches Some(own) && self.captured(own, packet, insufficient)
        &&& r == Ok::<Ask, ActionError>(Ask::Stop)
    }

    fn on_packet(&mut self, packet: Json, insufficient: bool) -> (r: Result<Ask, ActionError>)
        requires
            old(self).wf(),
            old(self).stage == Stage::Packet,
        ensures
            old(self).packet_moves(*final(self), packet@, insufficient, r),
            r is Ok ==> final(self).wf(),
    {
        let gathered = match self.gathered.take() {
            Some(gathered) => gathered,
            None => {
                assert(false);
                return Err(ActionError::OutOfTurn);
            },
        };
        let capture = Capture::packed(
            self.request.copy(),
            self.basis.copy(),
            text::copy_list(&self.refs),
            gathered,
            packet,
            insufficient,
        );
        self.capture = Some(capture);
        self.stage = Stage::Over;
        Ok(Ask::Stop)
    }

    /// What one report leads to.
    pub open spec fn moves(
        self,
        after: Reading,
        told: Told,
        wake: WakeRecord,
        format: PacketFormat,
        budget: RecallBudget,
        r: Result<Ask, ActionError>,
    ) -> bool {
        match (self.stage, told) {
            (Stage::Anchor, Told::Rows { result, more }) => self.anchor_moves(
                after,
                result@,
                more,
                r,
            ),
            (Stage::Commitments, Told::Rows { result, more }) => self.commitments_move(
                after,
                result@,
                more,
                wake,
                r,
            ),
            (Stage::Element, Told::Rows { result, more }) => self.element_moves(
                after,
                result@,
                more,
                r,
            ),
            (Stage::Belief, Told::Rows { result, more }) => self.belief_moves(
                after,
                result@,
                more,
                r,
            ),
            (Stage::Packet, Told::Packed { packet: delivered, insufficient }) => self.packet_moves(
                after,
                packet::packet_of(delivered@, format, budget),
                insufficient,
                r,
            ),
            _ => after == self && fails(r, ActionError::OutOfTurn),
        }
    }

    /// Takes a report over, and says what the host does next.
    pub fn step(
        &mut self,
        told: Told,
        wake: &WakeRecord,
        format: &PacketFormat,
        budget: &RecallBudget,
    ) -> (r: Result<Ask, ActionError>)
        requires
            old(self).wf(),
        ensures
            old(self).moves(*final(self), told, *wake, *format, *budget, r),
            r is Ok ==> final(self).wf(),
    {
        match (self.stage, told) {
            (Stage::Anchor, Told::Rows { result, more }) => self.on_anchor(&result, more),
            (Stage::Commitments, Told::Rows { result, more }) => self.on_commitments(
                &result,
                more,
                wake,
            ),
            (Stage::Element, Told::Rows { result, more }) => self.on_element(&result, more),
            (Stage::Belief, Told::Rows { result, more }) => self.on_belief(&result, more),
            (Stage::Packet, Told::Packed { packet: delivered, insufficient }) => self.on_packet(
                packet::read_packet(delivered, format, budget),
                insufficient,
            ),
            _ => Err(ActionError::OutOfTurn),
        }
    }
}

// ---------------------------------------------------------------------------
// Laws
// ---------------------------------------------------------------------------

/// Once the anchor was read, no read leaves its coordinate, and the coordinate
/// never changes.
pub proof fn reads_share_one_coordinate(
    before: Reading,
    after: Reading,
    told: Told,
    wake: WakeRecord,
    format: PacketFormat,
    budget: RecallBudget,
    r: Result<Ask, ActionError>,
)
    requires
        before.wf(),
        before.moves(after, told, wake, format, budget, r),
        r is Ok,
    ensures
        before.stage != Stage::Anchor ==> after.seq == before.seq && after.anchor == before.anchor,
        r->Ok_0 matches Ask::Read { query, id } ==> query@ == context::commitment_query_of(
            after.seq,
        ) || query@ == context::belief_query_of(Some(after.seq)) || (id matches Some(own) && query@
            == context::element_query_of(own@, Some(after.seq))),
{
}

/// A packet is made only of everything: each reference was read before.
pub proof fn packets_hold_every_reference(
    before: Reading,
    after: Reading,
    told: Told,
    wake: WakeRecord,
    format: PacketFormat,
    budget: RecallBudget,
    r: Result<Ask, ActionError>,
)
    requires
        before.wf(),
        before.moves(after, told, wake, format, budget, r),
        r is Ok,
        after.stage == Stage::Packet,
    ensures
        after.rows@.len() == after.refs@.len(),
        after.gathered matches Some(own) && own.pins@.len() == after.refs@.len(),
{
}

/// A packet that the packer could not make is never taken for one: the capture then
/// holds a packet without items that says so, and leaves what was read out of it.
pub proof fn missing_packets_are_told(
    before: Reading,
    after: Reading,
    delivered: Json,
    insufficient: bool,
    wake: WakeRecord,
    format: PacketFormat,
    budget: RecallBudget,
    r: Result<Ask, ActionError>,
)
    requires
        before.wf(),
        before.stage == Stage::Packet,
        delivered@ is Null,
        before.moves(
            after,
            Told::Packed { packet: delivered, insufficient },
            wake,
            format,
            budget,
            r,
        ),
    ensures
        after.capture matches Some(capture) && capture.packet@ == packet::insufficient_packet(
            format,
            budget,
        ),
        packet::insufficient_packet(format, budget).at("status"@) == Datum::Text(
            "budget_insufficient"@,
        ),
        packet::insufficient_packet(format, budget).at("items"@) == Datum::Array(Seq::empty()),
{
    packet::insufficient_packets_hold_nothing(format, budget);
}

} // verus!
