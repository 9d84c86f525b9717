//! What the action gate takes, what it puts off, and why.

use vstd::prelude::*;

use super::context::Capture;
use super::gate;
use super::journal::PreparedGate;
use super::request::Proposal;
use super::{ActionBindings, ActionLimits};
use crate::json::Datum;
use crate::text;

verus! {

// ---------------------------------------------------------------------------
// Suggestions
// ---------------------------------------------------------------------------

/// Something besides white space is in the text.
pub open spec fn says_something(s: Seq<char>) -> bool {
    exists|k: int| 0 <= k < s.len() && !text::is_white_space(#[trigger] s[k])
}

pub(crate) proof fn something_is_said(s: Seq<char>)
    ensures
        text::trimmed(s).len() > 0 <==> says_something(s),
{
    text::trimming_keeps_the_text_between(s);
    let (a, b) = choose|a: int, b: int|
        0 <= a <= b <= s.len() && text::trimmed(s) == s.subrange(a, b) && (forall|k: int|
            (0 <= k < a || b <= k < s.len()) ==> text::is_white_space(#[trigger] s[k]));
    if text::trimmed(s).len() > 0 {
        assert(text::trimmed(s).first() == s[a]);
    }
}

/// The packet that was delivered has an item of that identity.
pub open spec fn in_packet(packet: Datum, id: Seq<char>) -> bool {
    packet.at("items"@) is Array && exists|i: int|
        0 <= i < packet.at("items"@)->Array_0.len() && (
        #[trigger] packet.at("items"@)->Array_0[i]).at("id"@) == Datum::Text(id)
}

/// At most sixty-four memories are named as used, each of them an item of the packet.
pub open spec fn uses_the_packet(used: Seq<String>, packet: Datum) -> bool {
    used.len() < 65 && forall|i: int|
        0 <= i < used.len() ==> in_packet(packet, (#[trigger] used[i])@)
}

/// One of the texts is that identity.
pub open spec fn names(list: Seq<String>, id: Seq<char>) -> bool {
    exists|k: int| 0 <= k < list.len() && (#[trigger] list[k])@ == id
}

/// Every revision that is applied is among those that are named as used.
pub open spec fn uses_revisions(revisions: Seq<String>, used: Seq<String>) -> bool {
    forall|i: int| 0 <= i < revisions.len() ==> names(used, (#[trigger] revisions[i])@)
}

proof fn used_is_delivered(capture: Capture, used: Seq<String>)
    ensures
        uses_the_packet(used, capture.packet@) <==> text::views(used).len() <= 64
            && gate::all_delivered(capture, text::views(used)),
{
    let all = text::views(used);
    assert(all.len() == used.len());
    if uses_the_packet(used, capture.packet@) {
        assert forall|i: int| 0 <= i < all.len() implies capture.delivers(#[trigger] all[i]) by {
            assert(in_packet(capture.packet@, used[i]@));
        }
    }
    if all.len() <= 64 && gate::all_delivered(capture, all) {
        assert forall|i: int| 0 <= i < used.len() implies in_packet(
            capture.packet@,
            (#[trigger] used[i])@,
        ) by {
            assert(capture.delivers(all[i]));
        }
    }
}

proof fn applied_is_used(revisions: Seq<String>, used: Seq<String>)
    ensures
        uses_revisions(revisions, used) <==> gate::all_applied(
            text::views(revisions),
            text::views(used),
        ),
{
    let all = text::views(revisions);
    let named = text::views(used);
    if uses_revisions(revisions, used) {
        assert forall|i: int| 0 <= i < all.len() implies named.contains(#[trigger] all[i]) by {
            assert(names(used, revisions[i]@));
            let k = choose|k: int|
                0 <= k < used.len() && (#[trigger] used[k])@ == revisions[i]@;
            assert(named[k] == all[i]);
        }
    }
    if gate::all_applied(all, named) {
        assert forall|i: int| 0 <= i < revisions.len() implies names(
            used,
            (#[trigger] revisions[i])@,
        ) by {
            assert(named.contains(all[i]));
            let k = choose|k: int| 0 <= k < named.len() && named[k] == all[i];
            assert(used[k]@ == revisions[i]@);
        }
    }
}

/// Nothing speaks against a suggestion exactly where it is short enough, says why, and
/// uses what was delivered; a question must then be one and have a way out, whatever the
/// context lacks; an action must use every revision that it applies, in a context that
/// lacks nothing, and have an adapter; silence and deferral need nothing more.
pub proof fn suggestions_are_taken(
    proposal: Proposal,
    tokens: usize,
    bindings: ActionBindings,
    capture: Capture,
)
    ensures
        gate::objection(proposal, tokens, bindings, capture) is None <==> {
            &&& tokens <= bindings.limits.proposal_tokens
            &&& match proposal {
                Proposal::Act { rationale, used_refs, payload } => {
                    &&& says_something(rationale@)
                    &&& uses_the_packet(used_refs@, capture.packet@)
                    &&& uses_revisions(capture.request.applied_revisions@, used_refs@)
                    &&& capture.insufficient is None
                    &&& bindings.business is Some
                },
                Proposal::Ask { rationale, used_refs, question } => {
                    &&& says_something(rationale@)
                    &&& uses_the_packet(used_refs@, capture.packet@)
                    &&& says_something(question@)
                    &&& bindings.clarification is Some
                },
                Proposal::Silence { rationale, used_refs } => {
                    &&& says_something(rationale@)
                    &&& uses_the_packet(used_refs@, capture.packet@)
                },
                Proposal::Defer { reason } => says_something(reason@),
            }
        },
{
    something_is_said(proposal.why());
    match proposal {
        Proposal::Act { rationale, used_refs, payload } => {
            used_is_delivered(capture, used_refs@);
            applied_is_used(capture.request.applied_revisions@, used_refs@);
        },
        Proposal::Ask { rationale, used_refs, question } => {
            used_is_delivered(capture, used_refs@);
            something_is_said(question@);
        },
        Proposal::Silence { rationale, used_refs } => {
            used_is_delivered(capture, used_refs@);
        },
        Proposal::Defer { reason } => {},
    }
}

/// What is put off says which of its faults came first: it is too long, gives no reason,
/// or uses what was not delivered; an action then applies what it does not use, lacks a
/// premise, or has no adapter; a question is none, or has no way out.
pub proof fn objections_name_the_fault(
    proposal: Proposal,
    tokens: usize,
    bindings: ActionBindings,
    capture: Capture,
)
    ensures
        ({
            let r = gate::objection(proposal, tokens, bindings, capture);
            let long = tokens > bindings.limits.proposal_tokens;
            let mute = match proposal {
                Proposal::Act { rationale, .. } => !says_something(rationale@),
                Proposal::Ask { rationale, .. } => !says_something(rationale@),
                Proposal::Silence { rationale, .. } => !says_something(rationale@),
                Proposal::Defer { reason } => !says_something(reason@),
            };
            let foreign = match proposal {
                Proposal::Act { used_refs, .. } => !uses_the_packet(used_refs@, capture.packet@),
                Proposal::Ask { used_refs, .. } => !uses_the_packet(used_refs@, capture.packet@),
                Proposal::Silence { used_refs, .. } => !uses_the_packet(
                    used_refs@,
                    capture.packet@,
                ),
                Proposal::Defer { .. } => false,
            };
            &&& long ==> r == Some("proposal_budget_exhausted"@)
            &&& !long && mute ==> r == Some("proposal_rationale_missing"@)
            &&& !long && !mute && foreign ==> r == Some("used_reference_not_delivered"@)
            &&& !long && !mute && !foreign ==> match proposal {
                Proposal::Act { used_refs, .. } => {
                    let applied = uses_revisions(
                        capture.request.applied_revisions@,
                        used_refs@,
                    );
                    &&& !applied ==> r == Some("applied_revision_not_used"@)
                    &&& applied && capture.insufficient is Some ==> r == Some(
                        capture.insufficient->0@,
                    )
                    &&& applied && capture.insufficient is None && bindings.business is None
                        ==> r == Some("business_binding_unavailable"@)
                },
                Proposal::Ask { question, .. } => bindings.clarification is None
                    || !says_something(question@) ==> r == Some(
                    "clarification_binding_or_question_unavailable"@,
                ),
                _ => r is None,
            }
        }),
{
    something_is_said(proposal.why());
    match proposal {
        Proposal::Act { rationale, used_refs, payload } => {
            used_is_delivered(capture, used_refs@);
            applied_is_used(capture.request.applied_revisions@, used_refs@);
        },
        Proposal::Ask { rationale, used_refs, question } => {
            used_is_delivered(capture, used_refs@);
            something_is_said(question@);
        },
        Proposal::Silence { rationale, used_refs } => {
            used_is_delivered(capture, used_refs@);
        },
        Proposal::Defer { reason } => {},
    }
}

/// The policy is asked exactly where the question to it is short enough, no answer is
/// overdue, and the context lacks nothing but a premise; where it is not asked, the
/// first of these is the reason.
pub proof fn policies_are_asked(
    input_tokens: usize,
    limits: ActionLimits,
    timed_out: bool,
    capture: Capture,
)
    ensures
        ({
            let r = gate::early_reason(input_tokens, limits, timed_out, capture);
            let long = input_tokens > limits.recall.context_tokens;
            let lacks = capture.insufficient is Some && capture.insufficient->0@
                != "premise_unknown_or_not_accepted"@;
            &&& r is None <==> !long && !timed_out && !lacks
            &&& long ==> r == Some("gate_input_budget_exhausted"@)
            &&& !long && timed_out ==> r == Some("clarification_timeout_no_consent"@)
            &&& !long && !timed_out && lacks ==> r == Some(capture.insufficient->0@)
        }),
{
}

// ---------------------------------------------------------------------------
// Questions
// ---------------------------------------------------------------------------

/// A question goes out exactly where it was not answered, its time has not run out, its
/// context lacks nothing and it is there: as it was stored, and resting on the decision
/// to ask alone. One that was answered is not asked again; any other is put off.
pub proof fn questions_go_out_in_time(
    proposal: Proposal,
    prepared: PreparedGate,
    decision_ref: Seq<char>,
    answered: bool,
    now: u64,
    capture: Capture,
)
    requires
        gate::delivers_as(proposal, prepared, decision_ref, answered, now, capture),
    ensures
        ({
            let open = prepared.reply_deadline_ms is Some && prepared.reply_deadline_ms->0 > now;
            &&& proposal is Act <==> !answered && open && capture.insufficient is None
            &&& proposal is Silence <==> answered
            &&& !(proposal is Ask)
            &&& proposal matches Proposal::Act { used_refs, payload, .. } ==> {
                &&& prepared.clarification_payload is Some
                &&& payload@ == prepared.clarification_payload->0@
                &&& used_refs@.len() == 1
                &&& used_refs@[0]@ == decision_ref
            }
            &&& proposal matches Proposal::Silence { rationale, used_refs } ==> {
                &&& rationale@ == "clarification_already_answered"@
                &&& used_refs@.len() == 1
                &&& used_refs@[0]@ == decision_ref
            }
            &&& proposal matches Proposal::Defer { reason } ==> {
                &&& !open ==> reason@ == "clarification_expired_before_delivery"@
                &&& open ==> capture.insufficient is Some && reason@ == capture.insufficient->0@
            }
        }),
{
    if proposal.used().len() == 1 {
        assert(proposal.used()[0] == seq![decision_ref][0]);
        match proposal {
            Proposal::Act { used_refs, .. } => {
                assert(text::views(used_refs@).len() == used_refs@.len());
                assert(text::views(used_refs@)[0] == used_refs@[0]@);
            },
            Proposal::Silence { used_refs, .. } => {
                assert(text::views(used_refs@).len() == used_refs@.len());
                assert(text::views(used_refs@)[0] == used_refs@[0]@);
            },
            _ => {},
        }
    }
}

} // verus!
