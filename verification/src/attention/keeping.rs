//! What holds of what the directory keeps and shows.

use vstd::prelude::*;

use super::scan;
use super::semantic::runtime::SemanticPass;
use super::status;
use super::work;
use super::{AttentionReport, Entry, Recheck};
use crate::json::{self, Datum};
use crate::runtime::{AttentionConfig, RuntimePin};
use crate::text;
use crate::wake::WakeState;

verus! {

/// A recheck has a key of at most two hundred and fifty-six bytes, and a time that a counter
/// holds.
pub proof fn rechecks_are_bounded(recheck: Recheck)
    ensures
        work::recheck_valid(recheck) <==> 0 < recheck.key@.len() && text::utf8_len(recheck.key@)
            < 257 && recheck.due_at_ms < 9_007_199_254_740_992,
{
}

/// A recheck is scheduled already only where one of its key, source and time is there.
pub proof fn rechecks_are_scheduled_once(rechecks: Seq<Recheck>, recheck: Recheck, i: int)
    ensures
        0 <= i < rechecks.len() && rechecks[i].key@ == recheck.key@ && rechecks[i].source
            == recheck.source && rechecks[i].due_at_ms == recheck.due_at_ms
            ==> work::already_scheduled(rechecks, recheck),
        work::already_scheduled(rechecks, recheck) ==> exists|k: int|
            0 <= k < rechecks.len() && (#[trigger] rechecks[k]).key@ == recheck.key@
                && rechecks[k].source == recheck.source && rechecks[k].due_at_ms
                == recheck.due_at_ms,
{
}

/// What is acknowledged is the first recheck of that key and time.
pub proof fn the_first_recheck_is_acknowledged(
    rechecks: Seq<Recheck>,
    key: Seq<char>,
    due_at_ms: u64,
    at: int,
    other: int,
)
    requires
        work::is_acknowledged(rechecks, key, due_at_ms, at),
        work::is_acknowledged(rechecks, key, due_at_ms, other),
    ensures
        at == other,
        rechecks[at].key@ == key,
        rechecks[at].due_at_ms == due_at_ms,
        forall|k: int|
            0 <= k < at ==> (#[trigger] rechecks[k]).key@ != key || rechecks[k].due_at_ms
                != due_at_ms,
{
}

/// A new entry is of its Space and instance, under the configuration that the engine knows;
/// nothing was counted, scanned or put off, and nothing waits.
pub proof fn new_entries_are_blank(
    e: Entry,
    id: Seq<char>,
    native: AttentionConfig,
    enabled: bool,
    shard: u32,
    slot: u64,
)
    requires
        e.is_blank(id, native, enabled, shard, slot),
    ensures
        e.registration.scope.space_id@ == id,
        e.registration.scope.space_instance@ == native.scope.space_instance@,
        e.registration.pins == native.pins,
        e.registration.shard == shard,
        e.registration.enabled == enabled,
        e.slot == slot,
        e.registration.version == 0,
        e.registration.dirty_generation == 0,
        e.registration.reconciled_generation == 0,
        e.registration.next_check_ms == 0,
        e.failures == 0,
        e.rechecks@.len() == 0,
        e.checkpoint.wake_pending@.len() == 0,
        !e.checkpoint.runnable_done && !e.checkpoint.all_done && !e.checkpoint.wakes_done,
        e.last_report.error is None && e.last_report.watches_scanned == 0,
{
}

/// A scan that is written counts a version; it reconciles the generation that it saw exactly
/// where it was complete.
pub proof fn written_scans_reconcile(before: Entry, after: Entry)
    requires
        before.finished(after),
        before.registration.version < u64::MAX,
    ensures
        after.registration.version == before.registration.version + 1,
        before.last_report.scan_complete ==> after.registration.reconciled_generation
            == before.registration.dirty_generation,
        !before.last_report.scan_complete ==> after.registration.reconciled_generation
            == before.registration.reconciled_generation,
        after.registration.dirty_generation == before.registration.dirty_generation,
        after.checkpoint == before.checkpoint,
        after.rechecks == before.rechecks,
        after.registration.next_check_ms == before.registration.next_check_ms,
{
}

/// What was scanned is current while neither version nor generation has moved on.
pub proof fn scans_are_current_by_version_and_generation(e: Entry, stored: Entry)
    ensures
        e.current_with(stored) <==> e.registration.version == stored.registration.version
            && e.registration.dirty_generation == stored.registration.dirty_generation,
{
}

/// Once as many actions ran as a pass may run, no more do; without bindings there is no such
/// bound.
pub proof fn actions_are_bounded_by_the_pass(report: AttentionReport, most: usize)
    ensures
        scan::actions_exhausted(report, Some(most)) <==> report.actions_processed >= most,
        !scan::actions_exhausted(report, None),
{
}

/// A wake that runs keeps the Space busy until its lease expires; any other changes nothing.
pub proof fn running_wakes_keep_the_space_busy(entry: Entry, state: WakeState)
    ensures
        ({
            let after = scan::reread_entry(entry, state);
            &&& state is Running ==> after.checkpoint.running_until_ms
                >= state->lease.expires_at_ms && after.checkpoint.running_until_ms
                >= entry.checkpoint.running_until_ms && (after.checkpoint.running_until_ms
                == state->lease.expires_at_ms || after.checkpoint.running_until_ms
                == entry.checkpoint.running_until_ms)
            &&& !(state is Running) ==> after == entry
            &&& after.checkpoint.next_due_ms == entry.checkpoint.next_due_ms
            &&& after.registration == entry.registration
        }),
{
}

/// One state is counted once more, and no other.
pub proof fn states_are_counted_apart(
    before: AttentionReport,
    after: AttentionReport,
    state: Seq<char>,
    other: Seq<char>,
)
    requires
        scan::state_counted(before, after, state),
        other != state,
    ensures
        after.action_states.of(state) == before.action_states.of(state) + 1,
        after.action_states.of(other) == before.action_states.of(other),
        after.blocked == before.blocked && after.actions_processed == before.actions_processed,
{
}

/// Two cancellations are written alike only where Watch and principal agree.
pub proof fn cancellations_tell_apart(
    a: Seq<char>,
    p: Seq<char>,
    b: Seq<char>,
    q: Seq<char>,
)
    ensures
        work::cancellation_value(a, p) == work::cancellation_value(b, q) ==> a == b && p == q,
        work::cancellation_value(a, p).at("watch"@) == Datum::Text(a),
        work::cancellation_value(a, p).at("principal"@) == Datum::Text(p),
{
    broadcast use json::with_is_read_back;

    reveal_strlit("watch");
    reveal_strlit("principal");
    assert("watch"@.len() == 5 && "principal"@.len() == 9);
    let v = work::cancellation_value(a, p);
    let w = work::cancellation_value(b, q);
    assert(v.get("watch"@) == Some(Datum::Text(a)));
    assert(w.get("watch"@) == Some(Datum::Text(b)));
    assert(v.get("principal"@) == Some(Datum::Text(p)));
    assert(w.get("principal"@) == Some(Datum::Text(q)));
}

/// The structured policy is the engine's own, by name and by the digest of what it names.
pub proof fn the_structured_policy_is_the_engines(pin: RuntimePin)
    ensures
        work::is_structured_policy(pin) ==> pin.id@ == "nexus:structured-watch-v1"@,
        work::engine_value().at("engine"@) == Datum::Text("nexus:structured-watch-v1"@),
{
    broadcast use json::with_is_read_back;

    assert(work::engine_value().get("engine"@) is Some);
}

/// A nonce is written byte by byte.
pub proof fn nonces_are_written_byte_by_byte(nonce: Seq<u8>, i: int)
    requires
        0 <= i < nonce.len(),
    ensures
        work::nonce_value(nonce).at("nonce"@) is Array,
        work::nonce_value(nonce).at("nonce"@)->Array_0.len() == nonce.len(),
        work::nonce_value(nonce).at("nonce"@)->Array_0[i] == Datum::Unsigned(nonce[i] as u64),
{
    broadcast use json::with_is_read_back;

    assert(work::nonce_value(nonce).get("nonce"@) is Some);
}

/// Every count of a pass is shown under its name.
pub proof fn passes_read_back(pass: SemanticPass)
    ensures
        ({
            let v = status::pass_value(pass);
            &&& v.at("scanned"@) == Datum::Unsigned(pass.scanned as u64)
            &&& v.at("calls"@) == Datum::Unsigned(pass.calls as u64)
            &&& v.at("input_tokens"@) == Datum::Unsigned(pass.input_tokens as u64)
            &&& v.at("advanced"@) == Datum::Unsigned(pass.advanced as u64)
            &&& v.at("fired"@) == Datum::Unsigned(pass.fired as u64)
            &&& v.at("expired"@) == Datum::Unsigned(pass.expired as u64)
            &&& v.at("deferred"@) == Datum::Unsigned(pass.deferred as u64)
            &&& pass.reason is Some ==> v.at("reason"@) == Datum::Text(pass.reason->0@)
            &&& pass.reason is None ==> v.at("reason"@) is Null
        }),
{
    broadcast use json::with_is_read_back;

    reveal_strlit("scanned");
    reveal_strlit("calls");
    reveal_strlit("input_tokens");
    reveal_strlit("advanced");
    reveal_strlit("fired");
    reveal_strlit("expired");
    reveal_strlit("deferred");
    reveal_strlit("reason");
    assert("scanned"@.len() == 7 && "calls"@.len() == 5 && "input_tokens"@.len() == 12 && "advanced"@.len() == 8);
    assert("fired"@.len() == 5 && "expired"@.len() == 7 && "deferred"@.len() == 8 && "reason"@.len() == 6);
    assert("advanced"@[0] == 'a' && "calls"@[0] == 'c' && "deferred"@[0] == 'd' && "expired"@[0] == 'e');
    assert("fired"@[0] == 'f' && "scanned"@[0] == 's');
    let v = status::pass_value(pass);
    assert(v.get("scanned"@) is Some);
    assert(v.get("calls"@) is Some);
    assert(v.get("input_tokens"@) is Some);
    assert(v.get("advanced"@) is Some);
    assert(v.get("fired"@) is Some);
    assert(v.get("expired"@) is Some);
    assert(v.get("deferred"@) is Some);
    assert(v.get("reason"@) is Some);
}

/// An empty report has counted nothing, found no error and claims nothing.
pub proof fn empty_reports_count_nothing(r: AttentionReport)
    requires
        r.is_empty(),
    ensures
        r.watches_scanned == 0 && r.advanced == 0 && r.fired == 0 && r.expired == 0,
        r.blocked == 0 && r.blocked_wakes == 0 && r.conflicted == 0,
        r.wakes_scanned == 0 && r.pending == 0 && r.resumed == 0 && r.rechecks_due == 0,
        r.actions_processed == 0,
        !r.scan_complete && !r.budget_exhausted,
        r.error is None,
        r.action_states.counts@.len() == 0 && r.blocked_reasons.counts@.len() == 0,
{
}

/// A scan that starts has done nothing yet, and is of its generation.
pub proof fn starting_scans_have_done_nothing(c: super::Checkpoint, generation: u64)
    requires
        c.is_start(generation),
    ensures
        c.generation == generation,
        c.runnable_after@.len() == 0 && c.all_after@.len() == 0,
        c.wake_cursor is None && c.wake_page_cursor is None,
        c.wake_pending@.len() == 0,
        !c.runnable_done && !c.all_done && !c.wakes_done && !c.wake_page_complete,
        c.next_due_ms is None,
        c.running_until_ms == 0,
{
}

} // verus!
