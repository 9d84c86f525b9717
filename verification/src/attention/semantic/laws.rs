//! What an evaluator is told, and what is taken from its replies.

use vstd::prelude::*;

use super::{SemanticConfig, SemanticLimits, SemanticReply, WatchJudgment, WatchPage};
use crate::json::Datum;
use crate::nexus;
use crate::spelling;
use crate::text;

verus! {

// ---------------------------------------------------------------------------
// What is sent
// ---------------------------------------------------------------------------

/// The value tells the whole page: its ticket, its digest, the digest of its condition,
/// its evaluator, the condition itself, and each candidate's material in its place.
pub open spec fn tells_page(v: Datum, page: WatchPage, digest: Seq<char>) -> bool {
    &&& v.at("ticket_ref"@) == Datum::Text(page.ticket_ref@)
    &&& v.at("page_digest"@) == Datum::Text(page.page_digest@)
    &&& v.at("condition_digest"@) == Datum::Text(digest)
    &&& page.evaluator matches Some(own) ==> v.at("evaluator"@).at("id"@) == Datum::Text(own.id@)
        && v.at("evaluator"@).at("digest"@) == Datum::Text(own.digest@)
    &&& page.evaluator is None ==> v.at("evaluator"@) == Datum::Null
    &&& v.at("condition"@) == page.condition@
    &&& v.at("candidates"@) matches Datum::Array(list) && list.len() == page.candidates@.len()
        && forall|i: int|
        0 <= i < list.len() ==> #[trigger] list[i] == page.candidates@[i].material@
}

/// The material that an evaluator is sent reads back as the page: no part of it is
/// left out or exchanged.
pub proof fn material_reads_back(page: WatchPage, digest: Seq<char>)
    ensures
        tells_page(super::material_value(page, digest), page, digest),
{
    broadcast use crate::json::with_is_read_back;

    reveal_strlit("format");
    reveal_strlit("ticket_ref");
    reveal_strlit("page_digest");
    reveal_strlit("condition_digest");
    reveal_strlit("evaluator");
    reveal_strlit("condition");
    reveal_strlit("candidates");
    reveal_strlit("id");
    reveal_strlit("digest");
    assert("format"@.len() == 6 && "ticket_ref"@.len() == 10 && "page_digest"@.len() == 11
        && "condition_digest"@.len() == 16 && "evaluator"@.len() == 9 && "condition"@.len() == 9
        && "candidates"@.len() == 10);
    assert("evaluator"@[0] == 'e' && "condition"@[0] == 'c' && "ticket_ref"@[0] == 't'
        && "candidates"@[0] == 'c');
    let v = super::material_value(page, digest);
    assert(v.get("ticket_ref"@) == Some(Datum::Text(page.ticket_ref@)));
    assert(v.get("page_digest"@) == Some(Datum::Text(page.page_digest@)));
    assert(v.get("condition_digest"@) == Some(Datum::Text(digest)));
    assert(v.get("evaluator"@) == Some(super::pin_or_null(page.evaluator)));
    assert(v.get("condition"@) == Some(page.condition@));
    assert(v.get("candidates"@) == Some(super::materials_value(page.candidates@)));
}

/// The request asks the configured model, under the fixed prompt, for one JSON object
/// that is no longer than permitted; its second message is the material of the page,
/// and there is no third.
pub proof fn requests_hold_the_material(
    config: SemanticConfig,
    page: WatchPage,
    digest: Seq<char>,
) -> (material: Datum)
    ensures
        tells_page(material, page, digest),
        material == super::material_value(page, digest),
        ({
            let r = super::request_value(config, page, digest);
            &&& r.at("model"@) == Datum::Text(config.model@)
            &&& r.at("temperature"@) == Datum::Unsigned(0)
            &&& r.at("stream"@) == Datum::Bool(false)
            &&& r.at("max_tokens"@) == Datum::Unsigned(config.limits.output_tokens as u64)
            &&& r.at("response_format"@).at("type"@) == Datum::Text("json_object"@)
            &&& r.at("messages"@) matches Datum::Array(messages) && messages.len() == 2
                && messages[0].at("role"@) == Datum::Text("system"@) && messages[0].at("content"@)
                == Datum::Text(super::PROMPT@) && messages[1].at("role"@) == Datum::Text("user"@)
                && messages[1].at("content"@) == Datum::Text(material.written())
        }),
{
    broadcast use crate::json::with_is_read_back;

    material_reads_back(page, digest);
    reveal_strlit("model");
    reveal_strlit("temperature");
    reveal_strlit("stream");
    reveal_strlit("max_tokens");
    reveal_strlit("response_format");
    reveal_strlit("messages");
    reveal_strlit("role");
    reveal_strlit("content");
    assert("model"@.len() == 5 && "temperature"@.len() == 11 && "stream"@.len() == 6
        && "max_tokens"@.len() == 10 && "response_format"@.len() == 15 && "messages"@.len() == 8
        && "role"@.len() == 4 && "content"@.len() == 7);
    let material = super::material_value(page, digest);
    let r = super::request_value(config, page, digest);
    assert(r.get("model"@) == Some(Datum::Text(config.model@)));
    assert(r.get("temperature"@) == Some(Datum::Unsigned(0)));
    assert(r.get("stream"@) == Some(Datum::Bool(false)));
    assert(r.get("max_tokens"@) == Some(Datum::Unsigned(config.limits.output_tokens as u64)));
    assert(r.get("response_format"@) is Some);
    assert(r.get("messages"@) is Some);
    let messages = r.at("messages"@)->Array_0;
    assert(messages[0].get("role"@) == Some(Datum::Text("system"@)));
    assert(messages[0].get("content"@) == Some(Datum::Text(super::PROMPT@)));
    assert(messages[1].get("role"@) == Some(Datum::Text("user"@)));
    assert(messages[1].get("content"@) == Some(Datum::Text(material.written())));
    material
}

/// What the page holds can be written down.
pub open spec fn legible_page(page: WatchPage) -> bool {
    spelling::legible(page.condition@) && forall|i: int|
        0 <= i < page.candidates@.len() ==> spelling::legible(
            (#[trigger] page.candidates@[i]).material@,
        )
}

proof fn material_is_legible(page: WatchPage, digest: Seq<char>)
    requires
        legible_page(page),
    ensures
        spelling::legible(super::material_value(page, digest)),
{
    broadcast use spelling::a_member_keeps_legible;

    let list = super::materials_value(page.candidates@)->Array_0;
    assert forall|i: int| 0 <= i < list.len() implies spelling::legible(#[trigger] list[i]) by {
        assert(list[i] == page.candidates@[i].material@);
    }
    assert(spelling::legible(Datum::empty()));
    if let Some(own) = page.evaluator {
        assert(spelling::legible(own.value()));
    }
}

/// The same request is never sent for two different pages: whoever asks an evaluator
/// about another condition, or about other candidates, sends another request.
pub proof fn requests_tell_pages_apart(
    config: SemanticConfig,
    p: WatchPage,
    p_digest: Seq<char>,
    other: SemanticConfig,
    q: WatchPage,
    q_digest: Seq<char>,
)
    requires
        legible_page(p),
        legible_page(q),
        super::request_value(config, p, p_digest) == super::request_value(other, q, q_digest),
    ensures
        p.condition@ == q.condition@,
        p_digest == q_digest,
        p.ticket_ref@ == q.ticket_ref@,
        p.page_digest@ == q.page_digest@,
        p.candidates@.len() == q.candidates@.len(),
        forall|i: int|
            0 <= i < p.candidates@.len() ==> (#[trigger] p.candidates@[i]).material@
                == q.candidates@[i].material@,
        config.model@ == other.model@,
        config.limits.output_tokens as u64 == other.limits.output_tokens as u64,
{
    let a = requests_hold_the_material(config, p, p_digest);
    let b = requests_hold_the_material(other, q, q_digest);
    material_is_legible(p, p_digest);
    material_is_legible(q, q_digest);
    spelling::written_tells_apart(a, b);
    let list = a.at("candidates"@)->Array_0;
    assert forall|i: int| 0 <= i < p.candidates@.len() implies (
    #[trigger] p.candidates@[i]).material@ == q.candidates@[i].material@ by {
        assert(list[i] == p.candidates@[i].material@);
    }
}

// ---------------------------------------------------------------------------
// What is taken
// ---------------------------------------------------------------------------

/// The judgment is of that candidate, and says why in at most four kibibytes.
pub open spec fn judges(judgment: WatchJudgment, id: Seq<char>) -> bool {
    &&& judgment.candidate_id@ == id
    &&& exists|k: int|
        0 <= k < judgment.rationale@.len() && !text::is_white_space(
            #[trigger] judgment.rationale@[k],
        )
    &&& text::utf8_len(judgment.rationale@) <= 4096
}

/// Something besides white space is in the text.
proof fn something_is_said(s: Seq<char>)
    ensures
        text::trimmed(s).len() > 0 <==> exists|k: int|
            0 <= k < s.len() && !text::is_white_space(#[trigger] s[k]),
{
    text::trimming_keeps_the_text_between(s);
    let (a, b) = choose|a: int, b: int|
        0 <= a <= b <= s.len() && text::trimmed(s) == s.subrange(a, b) && (forall|k: int|
            (0 <= k < a || b <= k < s.len()) ==> text::is_white_space(#[trigger] s[k]));
    if text::trimmed(s).len() > 0 {
        assert(text::trimmed(s).first() == s[a]);
    }
}

/// The judgment is of one of the candidates.
pub open spec fn judges_a_candidate(judgment: WatchJudgment, page: WatchPage) -> bool {
    exists|c: int| 0 <= c < page.candidates@.len() && judges(judgment, (#[trigger] page.candidates@[c]).id@)
}

/// Every judgment is of one of the candidates, and no two are of the same.
pub open spec fn judged_once_each(list: Seq<WatchJudgment>, page: WatchPage) -> bool {
    &&& list.len() == page.candidates@.len()
    &&& forall|i: int| 0 <= i < list.len() ==> judges_a_candidate(#[trigger] list[i], page)
    &&& forall|i: int, k: int|
        0 <= k < i < list.len() ==> (#[trigger] list[i]).candidate_id@ != (
        #[trigger] list[k]).candidate_id@
}

proof fn valid_judgments(list: Seq<WatchJudgment>, page: WatchPage)
    requires
        list.len() == page.candidates@.len(),
    ensures
        super::judgments_valid(list, page) <==> judged_once_each(list, page),
{
    let ids = super::judged_ids(list);
    let all = super::candidate_ids(page);
    if super::judgments_valid(list, page) {
        assert forall|i: int| 0 <= i < list.len() implies judges_a_candidate(
            #[trigger] list[i],
            page,
        ) by {
            assert(super::judgment_valid(list, page, i));
            something_is_said(list[i].rationale@);
            let c = choose|c: int| 0 <= c < all.len() && all[c] == ids[i];
            assert(page.candidates@[c].id@ == list[i].candidate_id@);
        }
        assert forall|i: int, k: int| 0 <= k < i < list.len() implies (
        #[trigger] list[i]).candidate_id@ != (#[trigger] list[k]).candidate_id@ by {
            assert(super::judgment_valid(list, page, i));
            assert(ids[k] == list[k].candidate_id@ && ids[i] == list[i].candidate_id@);
        }
    }
    if judged_once_each(list, page) {
        assert forall|i: int| 0 <= i < list.len() implies super::judgment_valid(list, page, i) by {
            assert(judges_a_candidate(list[i], page));
            let c = choose|c: int|
                0 <= c < page.candidates@.len() && judges(
                    list[i],
                    (#[trigger] page.candidates@[c]).id@,
                );
            assert(ids[i] == list[i].candidate_id@);
            assert(all[c] == page.candidates@[c].id@);
            something_is_said(list[i].rationale@);
            assert forall|k: int| 0 <= k < i implies ids[k] != ids[i] by {
                assert(list[k].candidate_id@ != list[i].candidate_id@);
            }
        }
    }
}

/// A reply is taken exactly where it names the ticket, the page, the condition and the
/// evaluator that it was asked under, and judges every candidate once, each time with a
/// reason. Nothing less is taken, and nothing of it is refused.
pub proof fn replies_are_taken_whole(reply: SemanticReply, page: WatchPage)
    ensures
        super::receipt_taken(reply, page) && super::judgments_valid(reply.judgments@, page) <==> {
            &&& reply.ticket_ref@ == page.ticket_ref@
            &&& reply.page_digest@ == page.page_digest@
            &&& nexus::digest_of(page.condition@) == Some(reply.condition_digest@)
            &&& page.evaluator is Some
            &&& page.evaluator->0.id@ == reply.evaluator.id@
            &&& page.evaluator->0.digest@ == reply.evaluator.digest@
            &&& judged_once_each(reply.judgments@, page)
        },
{
    if reply.judgments@.len() == page.candidates@.len() {
        valid_judgments(reply.judgments@, page);
    }
}

// ---------------------------------------------------------------------------
// Configuration
// ---------------------------------------------------------------------------

/// A pass has room for at least one page and one callback, a page for at least one
/// change and one candidate, and no limit exceeds its bound.
pub proof fn limits_are_bounded(limits: SemanticLimits)
    ensures
        limits.valid() <==> {
            &&& 0 < limits.watches_per_pass < 5
            &&& 0 < limits.changes_per_page < 201
            &&& 0 < limits.candidates_per_page < 65
            &&& 511 < limits.input_tokens < 65_537
            &&& 127 < limits.output_tokens < 16_385
            &&& limits.input_tokens <= limits.pass_input_tokens < 262_145
            &&& 0 < limits.callback_ms <= limits.pass_ms < 60_001
            &&& 0 < limits.retry_ms < 3_600_001
            &&& 0 < limits.attempts_per_page < 5
        },
{
}

} // verus!
