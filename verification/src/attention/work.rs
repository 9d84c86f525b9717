//! Registration of work, rechecks and the evaluator's migration: the decisions
//! between the reads and writes of the engine and the directory.

use vstd::prelude::*;

use super::{AttentionError, Entry, Recheck, RecheckSource, MAX_COUNTER, MAX_RECHECKS};
use crate::json::{Datum, Json};
use crate::nexus;
use crate::runtime::{optional_pin_same, AttentionConfig, RuntimePin, RuntimePins, RuntimeScope};
use crate::text;
use crate::wake::DEFAULT_SPACE;

verus! {

// ---------------------------------------------------------------------------
// Rechecks
// ---------------------------------------------------------------------------

pub open spec fn recheck_valid(recheck: Recheck) -> bool {
    &&& recheck.key@.len() > 0
    &&& text::utf8_len(recheck.key@) <= 256
    &&& recheck.due_at_ms <= MAX_COUNTER
}

/// The place of the first recheck with that key.
pub open spec fn is_place(rechecks: Seq<Recheck>, key: Seq<char>, at: int) -> bool {
    &&& 0 <= at < rechecks.len()
    &&& rechecks[at].key@ == key
    &&& forall|k: int| 0 <= k < at ==> (#[trigger] rechecks[k]).key@ != key
}

pub open spec fn has_key(rechecks: Seq<Recheck>, key: Seq<char>) -> bool {
    exists|k: int| 0 <= k < rechecks.len() && (#[trigger] rechecks[k]).key@ == key
}

fn find_recheck(rechecks: &Vec<Recheck>, key: &str) -> (r: Option<usize>)
    ensures
        match r {
            Some(at) => is_place(rechecks@, key@, at as int),
            None => !has_key(rechecks@, key@),
        },
{
    let mut i: usize = 0;
    while i < rechecks.len()
        invariant
            i <= rechecks.len(),
            forall|k: int| 0 <= k < i ==> (#[trigger] rechecks@[k]).key@ != key@,
        decreases rechecks.len() - i,
    {
        if text::same(rechecks[i].key.as_str(), key) {
            return Some(i);
        }
        i = i + 1;
    }
    None
}

/// The rechecks after one was put: it replaces the first of its key, or it is
/// added to a queue that is not full.
pub open spec fn recheck_put(before: Seq<Recheck>, after: Seq<Recheck>, recheck: Recheck) -> bool {
    if has_key(before, recheck.key@) {
        exists|at: int| #[trigger]
            is_place(before, recheck.key@, at) && after == before.update(at, recheck)
    } else {
        before.len() < MAX_RECHECKS && after == before.push(recheck)
    }
}

fn put_recheck(entry: &mut Entry, recheck: Recheck) -> (r: Result<(), AttentionError>)
    ensures
        match r {
            Ok(_) => {
                &&& *final(entry) == (Entry { rechecks: final(entry).rechecks, ..*old(entry) })
                &&& recheck_put(old(entry).rechecks@, final(entry).rechecks@, recheck)
            },
            Err(e) => {
                &&& *final(entry) == *old(entry)
                &&& !has_key(old(entry).rechecks@, recheck.key@)
                &&& old(entry).rechecks@.len() >= MAX_RECHECKS
                &&& e == AttentionError::RecheckQueueFull
            },
        },
{
    match find_recheck(&entry.rechecks, recheck.key.as_str()) {
        Some(at) => {
            let ghost before = entry.rechecks@;
            let ghost key = recheck.key@;
            entry.rechecks.set(at, recheck);
            assert(is_place(before, key, at as int) && entry.rechecks@ == before.update(
                at as int,
                recheck,
            ));
            assert(before[at as int].key@ == key);
            Ok(())
        },
        None => {
            if entry.rechecks.len() >= MAX_RECHECKS {
                return Err(AttentionError::RecheckQueueFull);
            }
            entry.rechecks.push(recheck);
            Ok(())
        },
    }
}

/// The very same obligation is already kept.
pub open spec fn already_scheduled(rechecks: Seq<Recheck>, recheck: Recheck) -> bool {
    exists|k: int|
        0 <= k < rechecks.len() && (#[trigger] rechecks[k]).key@ == recheck.key@
            && rechecks[k].source == recheck.source && rechecks[k].due_at_ms == recheck.due_at_ms
}

fn is_scheduled(rechecks: &Vec<Recheck>, recheck: &Recheck) -> (r: bool)
    ensures
        r == already_scheduled(rechecks@, *recheck),
{
    let mut i: usize = 0;
    while i < rechecks.len()
        invariant
            i <= rechecks.len(),
            forall|k: int|
                0 <= k < i ==> !((#[trigger] rechecks@[k]).key@ == recheck.key@
                    && rechecks@[k].source == recheck.source && rechecks@[k].due_at_ms
                    == recheck.due_at_ms),
        decreases rechecks.len() - i,
    {
        if text::same(rechecks[i].key.as_str(), recheck.key.as_str()) && rechecks[i].source
            == recheck.source && rechecks[i].due_at_ms == recheck.due_at_ms {
            return true;
        }
        i = i + 1;
    }
    false
}

/// What scheduling a recheck does to the entry.
#[derive(Clone, Copy, Debug, PartialEq, Eq, Structural)]
pub enum Scheduling {
    /// The obligation is kept already; nothing is written.
    Kept,
    /// The entry holds the new obligation and has to be written.
    Changed,
}

/// Schedules a recheck: a due time asks for another look, it decides nothing.
pub fn schedule_recheck(entry: &mut Entry, recheck: Recheck) -> (r: Result<
    Scheduling,
    AttentionError,
>)
    ensures
        match r {
            Ok(Scheduling::Kept) => recheck_valid(recheck) && already_scheduled(
                old(entry).rechecks@,
                recheck,
            ) && *final(entry) == *old(entry),
            Ok(Scheduling::Changed) => {
                &&& recheck_valid(recheck)
                &&& !already_scheduled(old(entry).rechecks@, recheck)
                &&& *final(entry) == (Entry { rechecks: final(entry).rechecks, ..*old(entry) })
                &&& recheck_put(
                    old(entry).rechecks@,
                    final(entry).rechecks@,
                    Recheck { notified: false, ..recheck },
                )
            },
            Err(e) => *final(entry) == *old(entry) && if !recheck_valid(recheck) {
                e == AttentionError::InvalidRecheck
            } else {
                !already_scheduled(old(entry).rechecks@, recheck) && !has_key(
                    old(entry).rechecks@,
                    recheck.key@,
                ) && old(entry).rechecks@.len() >= MAX_RECHECKS && e
                    == AttentionError::RecheckQueueFull
            },
        },
{
    if recheck.key.as_str().is_empty() || text::byte_len(recheck.key.as_str()) > 256
        || recheck.due_at_ms > MAX_COUNTER {
        return Err(AttentionError::InvalidRecheck);
    }
    if is_scheduled(&entry.rechecks, &recheck) {
        return Ok(Scheduling::Kept);
    }
    let mut recheck = recheck;
    recheck.notified = false;
    match put_recheck(entry, recheck) {
        Ok(_) => Ok(Scheduling::Changed),
        Err(e) => Err(e),
    }
}

/// The place of the recheck that is acknowledged.
pub open spec fn is_acknowledged(
    rechecks: Seq<Recheck>,
    key: Seq<char>,
    due_at_ms: u64,
    at: int,
) -> bool {
    &&& 0 <= at < rechecks.len()
    &&& rechecks[at].key@ == key && rechecks[at].due_at_ms == due_at_ms
    &&& forall|k: int|
        0 <= k < at ==> !((#[trigger] rechecks[k]).key@ == key && rechecks[k].due_at_ms
            == due_at_ms)
}

/// Takes an obligation away that its consumer has dealt with.
pub fn acknowledge_recheck(entry: &mut Entry, key: &str, due_at_ms: u64) -> (r: Result<
    (),
    AttentionError,
>)
    ensures
        match r {
            Ok(_) => {
                &&& *final(entry) == (Entry { rechecks: final(entry).rechecks, ..*old(entry) })
                &&& exists|at: int| #[trigger]
                    is_acknowledged(old(entry).rechecks@, key@, due_at_ms, at)
                        && final(entry).rechecks@ == old(entry).rechecks@.remove(at)
            },
            Err(e) => {
                &&& *final(entry) == *old(entry)
                &&& forall|k: int|
                    0 <= k < old(entry).rechecks@.len() ==> !((#[trigger] old(
                        entry,
                    ).rechecks@[k]).key@ == key@ && old(entry).rechecks@[k].due_at_ms == due_at_ms)
                &&& e == AttentionError::RecheckUnavailable
            },
        },
{
    let mut i: usize = 0;
    while i < entry.rechecks.len()
        invariant
            i <= entry.rechecks.len(),
            *entry == *old(entry),
            forall|k: int|
                0 <= k < i ==> !((#[trigger] entry.rechecks@[k]).key@ == key@
                    && entry.rechecks@[k].due_at_ms == due_at_ms),
        decreases entry.rechecks.len() - i,
    {
        if text::same(entry.rechecks[i].key.as_str(), key) && entry.rechecks[i].due_at_ms
            == due_at_ms {
            assert(is_acknowledged(old(entry).rechecks@, key@, due_at_ms, i as int));
            let _taken = entry.rechecks.remove(i);
            return Ok(());
        }
        i = i + 1;
    }
    Err(AttentionError::RecheckUnavailable)
}

/// The key of the one obligation that native projections leave.
pub const EXPIRY_KEY: &'static str = "native_projection_expiry";

/// An earlier expiry is already awaited.
pub open spec fn expiry_awaited(rechecks: Seq<Recheck>, due: u64) -> bool {
    exists|k: int|
        0 <= k < rechecks.len() && (#[trigger] rechecks[k]).key@ == EXPIRY_KEY@
            && !rechecks[k].notified && rechecks[k].due_at_ms <= due
}

fn is_expiry_awaited(rechecks: &Vec<Recheck>, due: u64) -> (r: bool)
    ensures
        r == expiry_awaited(rechecks@, due),
{
    let mut i: usize = 0;
    while i < rechecks.len()
        invariant
            i <= rechecks.len(),
            forall|k: int|
                0 <= k < i ==> !((#[trigger] rechecks@[k]).key@ == EXPIRY_KEY@
                    && !rechecks@[k].notified && rechecks@[k].due_at_ms <= due),
        decreases rechecks.len() - i,
    {
        if text::same(rechecks[i].key.as_str(), EXPIRY_KEY) && !rechecks[i].notified
            && rechecks[i].due_at_ms <= due {
            return true;
        }
        i = i + 1;
    }
    false
}

/// The obligation that an expiring projection leaves.
pub open spec fn is_expiry(recheck: Recheck, due: u64) -> bool {
    &&& recheck.key@ == EXPIRY_KEY@
    &&& recheck.source == RecheckSource::DependencyInvalidation
    &&& recheck.due_at_ms == due
    &&& !recheck.notified
}

/// When the basis of a native projection expires, if it does.
pub fn basis_due(space_id: &str, next_invalid_at: Option<&str>) -> (r: Result<
    Option<u64>,
    AttentionError,
>)
    ensures
        r == if space_id@ != DEFAULT_SPACE@ {
            Err::<Option<u64>, AttentionError>(AttentionError::BasisSpaceMismatch)
        } else {
            match next_invalid_at {
                None => Ok(None),
                Some(at) => match nexus::millis_of(at@) {
                    Some(due) => Ok(Some(due)),
                    None => Err::<Option<u64>, AttentionError>(AttentionError::InvalidTimestamp),
                },
            }
        },
{
    if !text::same(space_id, DEFAULT_SPACE) {
        return Err(AttentionError::BasisSpaceMismatch);
    }
    match next_invalid_at {
        None => Ok(None),
        Some(at) => match nexus::time_ms(at) {
            Some(due) => Ok(Some(due)),
            None => Err(AttentionError::InvalidTimestamp),
        },
    }
}

/// How an expiry changes an entry.
pub open spec fn expiry_noted(
    before: Entry,
    after: Entry,
    due: u64,
    r: Result<Scheduling, AttentionError>,
) -> bool {
    if expiry_awaited(before.rechecks@, due) {
        r == Ok::<Scheduling, AttentionError>(Scheduling::Kept) && after == before
    } else if !has_key(before.rechecks@, EXPIRY_KEY@) && before.rechecks@.len() >= MAX_RECHECKS {
        r == Err::<Scheduling, AttentionError>(AttentionError::RecheckQueueFull) && after == before
    } else {
        &&& r == Ok::<Scheduling, AttentionError>(Scheduling::Changed)
        &&& after == (Entry { rechecks: after.rechecks, ..before })
        &&& exists|recheck: Recheck| #[trigger]
            is_expiry(recheck, due) && recheck_put(before.rechecks@, after.rechecks@, recheck)
    }
}

/// Notes when a native projection expires: one conservative obligation, the
/// earliest that is still awaited.
pub fn observe_basis(entry: &mut Entry, due: u64) -> (r: Result<Scheduling, AttentionError>)
    ensures
        expiry_noted(*old(entry), *final(entry), due, r),
{
    if is_expiry_awaited(&entry.rechecks, due) {
        return Ok(Scheduling::Kept);
    }
    let recheck = Recheck {
        key: EXPIRY_KEY.to_owned(),
        source: RecheckSource::DependencyInvalidation,
        due_at_ms: due,
        notified: false,
    };
    assert(is_expiry(recheck, due));
    match put_recheck(entry, recheck) {
        Ok(_) => Ok(Scheduling::Changed),
        Err(e) => Err(e),
    }
}

/// However often an expiry is observed, the earliest one that is still awaited
/// stays awaited.
pub proof fn the_earliest_expiry_stays_awaited(
    before: Entry,
    after: Entry,
    due: u64,
    awaited: u64,
    r: Result<Scheduling, AttentionError>,
)
    requires
        expiry_noted(before, after, due, r),
        r is Ok,
    ensures
        expiry_awaited(after.rechecks@, due),
        expiry_awaited(before.rechecks@, awaited) ==> expiry_awaited(after.rechecks@, awaited),
{
    if !expiry_awaited(before.rechecks@, due) {
        let recheck = choose|recheck: Recheck| #[trigger]
            is_expiry(recheck, due) && recheck_put(before.rechecks@, after.rechecks@, recheck);
        if has_key(before.rechecks@, EXPIRY_KEY@) {
            let at = choose|at: int| #[trigger]
                is_place(before.rechecks@, recheck.key@, at) && after.rechecks@
                    == before.rechecks@.update(at, recheck);
            assert(after.rechecks@[at] == recheck);
        } else {
            assert(after.rechecks@[before.rechecks@.len() as int] == recheck);
        }
        if expiry_awaited(before.rechecks@, awaited) {
            let k = choose|k: int|
                0 <= k < before.rechecks@.len() && (#[trigger] before.rechecks@[k]).key@
                    == EXPIRY_KEY@ && !before.rechecks@[k].notified
                    && before.rechecks@[k].due_at_ms <= awaited;
            assert(due < before.rechecks@[k].due_at_ms);
        }
    }
}

// ---------------------------------------------------------------------------
// Registration
// ---------------------------------------------------------------------------

/// The identity of a database whose Space was never registered, from a random
/// nonce.
pub open spec fn nonce_value(nonce: Seq<u8>) -> Datum {
    Datum::empty().with(
        "nonce"@,
        Datum::Array(nonce.map_values(|b: u8| Datum::Unsigned(b as u64))),
    )
}

pub fn fresh_instance(nonce: &Vec<u8>) -> (r: String)
    ensures
        nexus::digest_of(nonce_value(nonce@)) == Some(r@),
        nexus::is_digest(r@),
{
    let mut bytes: Vec<Json> = Vec::new();
    let mut i: usize = 0;
    while i < nonce.len()
        invariant
            i <= nonce.len(),
            bytes@.len() == i,
            forall|k: int| 0 <= k < i ==> (#[trigger] bytes@[k])@ == Datum::Unsigned(nonce@[k] as u64),
        decreases nonce.len() - i,
    {
        bytes.push(Json::unsigned(nonce[i] as u64));
        i = i + 1;
    }
    let list = Json::Array(bytes);
    proof {
        list.view_of_parts();
        assert(list@->Array_0 =~= nonce@.map_values(|b: u8| Datum::Unsigned(b as u64)));
    }
    let value = Json::object().with("nonce", list);
    proof {
        let items = nonce@.map_values(|b: u8| Datum::Unsigned(b as u64));
        assert forall|k: int| 0 <= k < items.len() implies nexus::portable(
            #[trigger] items[k],
            98,
        ) by {
            assert(items[k] == Datum::Unsigned(nonce@[k] as u64));
        }
        assert(nexus::portable(Datum::Array(items), 99));
        nexus::a_member_keeps_portable(Datum::empty(), "nonce"@, Datum::Array(items), 100);
    }
    nexus::json_digest(&value)
}

pub const STRUCTURED_POLICY: &'static str = "nexus:structured-watch-v1";

pub open spec fn engine_value() -> Datum {
    Datum::empty().with("engine"@, Datum::Text(STRUCTURED_POLICY@))
}

/// The policy of a Space without action bindings.
pub open spec fn is_structured_policy(pin: RuntimePin) -> bool {
    &&& pin.id@ == STRUCTURED_POLICY@
    &&& nexus::digest_of(engine_value()) == Some(pin.digest@)
}

fn structured_policy() -> (pin: RuntimePin)
    ensures
        is_structured_policy(pin),
{
    let value = Json::object().with("engine", Json::text(STRUCTURED_POLICY));
    proof {
        nexus::a_member_keeps_portable(
            Datum::empty(),
            "engine"@,
            Datum::Text(STRUCTURED_POLICY@),
            100,
        );
    }
    RuntimePin { id: STRUCTURED_POLICY.to_owned(), digest: nexus::json_digest(&value) }
}

/// What trusted code installed for a Space.
#[derive(Debug)]
pub struct Installed {
    /// The pins of the action bindings.
    pub actions: Option<RuntimePins>,
    /// The principal that the action bindings authenticate as.
    pub action_principal: String,
    /// The pin of the semantic evaluator.
    pub evaluator: Option<RuntimePin>,
    pub semantic_principal: String,
}

/// How a Space is registered.
#[derive(Debug)]
pub struct RegistrationPlan {
    pub config: AttentionConfig,
    /// The database does not know its instance yet.
    pub save_instance: bool,
    /// The engine does not hold the configuration yet.
    pub install_native: bool,
}

/// The instance that a registration is for: the engine's, else the one that the
/// database kept, else a fresh one.
pub open spec fn instance_of(
    native: Option<AttentionConfig>,
    saved: Option<String>,
    fresh: Seq<char>,
) -> Seq<char> {
    match native {
        Some(config) => config.scope.space_instance@,
        None => match saved {
            Some(instance) => instance@,
            None => fresh,
        },
    }
}

/// The pins that a Space without a native configuration starts with.
pub open spec fn starts_with_pins(pins: RuntimePins, installed: Installed) -> bool {
    &&& match installed.actions {
        Some(actions) => pins.policy.same_as(actions.policy) && crate::runtime::same_pin(
            pins.binding,
            actions.binding,
        ),
        None => is_structured_policy(pins.policy) && pins.binding is None,
    }
    &&& match installed.evaluator {
        Some(evaluator) => pins.evaluator == Some(evaluator),
        None => match installed.actions {
            Some(actions) => crate::runtime::same_pin(pins.evaluator, actions.evaluator),
            None => pins.evaluator is None,
        },
    }
}

/// The pins under which the action bindings and the evaluator are compared.
pub open spec fn evaluator_differs(pins: RuntimePins, installed: Installed) -> bool {
    installed.evaluator is Some && !crate::runtime::same_pin(pins.evaluator, installed.evaluator)
}

/// Why a registration is refused.
pub open spec fn registration_refused(
    native: Option<AttentionConfig>,
    saved: Option<String>,
    installed: Installed,
) -> Option<AttentionError> {
    if native is Some && saved is Some && saved->Some_0@ != native->Some_0.scope.space_instance@ {
        Some(AttentionError::DatabaseInstanceMismatch)
    } else if installed.actions is Some && native is Some && !native->Some_0.pins.same_as(
        installed.actions->Some_0,
    ) {
        Some(AttentionError::ActionConfigurationChanged)
    } else if installed.actions is Some && installed.evaluator is Some
        && installed.action_principal@ != installed.semantic_principal@ {
        Some(AttentionError::ControllerMismatch)
    } else if native is Some && evaluator_differs(native->Some_0.pins, installed) {
        Some(AttentionError::EvaluatorChanged)
    } else {
        None
    }
}

/// Plans the registration of a Space: an existing native configuration has to
/// match what is installed; a new one is made from it.
pub fn plan_registration(
    id: &str,
    native: Option<AttentionConfig>,
    saved: Option<String>,
    fresh: String,
    installed: &Installed,
) -> (r: Result<RegistrationPlan, AttentionError>)
    ensures
        match r {
            Ok(plan) => {
                &&& registration_refused(native, saved, *installed) is None
                &&& plan.save_instance == (saved is None)
                &&& plan.install_native == (native is None)
                &&& plan.config.scope.space_instance@ == instance_of(native, saved, fresh@)
                &&& match native {
                    Some(config) => plan.config == config,
                    None => plan.config.scope.space_id@ == id@ && starts_with_pins(
                        plan.config.pins,
                        *installed,
                    ),
                }
            },
            Err(e) => registration_refused(native, saved, *installed) == Some(e),
        },
{
    let save_instance = saved.is_none();
    let install_native = native.is_none();
    let config = match native {
        Some(config) => {
            if let Some(instance) = &saved {
                if !text::same(instance.as_str(), config.scope.space_instance.as_str()) {
                    return Err(AttentionError::DatabaseInstanceMismatch);
                }
            }
            if let Some(actions) = &installed.actions {
                if !config.pins.same(actions) {
                    return Err(AttentionError::ActionConfigurationChanged);
                }
            }
            config
        },
        None => {
            let instance = match saved {
                Some(instance) => instance,
                None => fresh,
            };
            let mut pins = match &installed.actions {
                Some(actions) => actions.copy(),
                None => RuntimePins {
                    policy: structured_policy(),
                    evaluator: None,
                    binding: None,
                },
            };
            if let Some(evaluator) = &installed.evaluator {
                pins.evaluator = Some(evaluator.copy());
            }
            AttentionConfig {
                scope: RuntimeScope { space_id: id.to_owned(), space_instance: instance },
                pins,
            }
        },
    };
    if installed.actions.is_some() && installed.evaluator.is_some() && !text::same(
        installed.action_principal.as_str(),
        installed.semantic_principal.as_str(),
    ) {
        return Err(AttentionError::ControllerMismatch);
    }
    if installed.evaluator.is_some() && !optional_pin_same(
        &config.pins.evaluator,
        &installed.evaluator,
    ) {
        return Err(AttentionError::EvaluatorChanged);
    }
    Ok(RegistrationPlan { config, save_instance, install_native })
}

// ---------------------------------------------------------------------------
// The evaluator's migration
// ---------------------------------------------------------------------------

/// How the evaluator's pin is replaced.
#[derive(Debug)]
pub struct Migration {
    pub config: AttentionConfig,
    /// Whether the native configuration has to be written.
    pub changed: bool,
}

/// The version is the expected one, or the migration was already done.
pub open spec fn migration_current(
    version: u64,
    expected: u64,
    config: AttentionConfig,
    pin: Option<RuntimePin>,
) -> bool {
    version == expected || (expected < u64::MAX && version == expected + 1 || expected == u64::MAX
        && version == u64::MAX) && crate::runtime::same_pin(config.pins.evaluator, pin)
}

/// Replaces the evaluator's pin, and nothing else, of the expected version.
pub fn plan_migration(
    version: u64,
    expected: u64,
    config: AttentionConfig,
    pin: Option<RuntimePin>,
    actions: Option<&RuntimePins>,
) -> (r: Result<Migration, AttentionError>)
    ensures
        match r {
            Ok(m) => {
                &&& migration_current(version, expected, config, pin)
                &&& m.changed == !crate::runtime::same_pin(config.pins.evaluator, pin)
                &&& m.config == (AttentionConfig {
                    pins: RuntimePins { evaluator: pin, ..config.pins },
                    ..config
                })
                &&& actions matches Some(a) ==> a.same_as(m.config.pins)
            },
            Err(e) => if !migration_current(version, expected, config, pin) {
                e == AttentionError::ConfigurationConflict
            } else {
                e == AttentionError::MigrationChangesActions && (actions matches Some(a)
                    && !a.same_as(RuntimePins { evaluator: pin, ..config.pins }))
            },
        },
{
    let unchanged = optional_pin_same(&config.pins.evaluator, &pin);
    if version != expected && !(version == expected.saturating_add(1) && unchanged) {
        return Err(AttentionError::ConfigurationConflict);
    }
    let mut config = config;
    config.pins.evaluator = pin;
    if let Some(actions) = actions {
        if !actions.same(&config.pins) {
            return Err(AttentionError::MigrationChangesActions);
        }
    }
    Ok(Migration { config, changed: !unchanged })
}

/// Whether the engine holds the migrated configuration.
pub fn migration_confirmed(
    actual: u64,
    saved: &AttentionConfig,
    expected: u64,
    config: &AttentionConfig,
) -> (r: bool)
    ensures
        r == ((if expected < u64::MAX {
            actual == expected + 1
        } else {
            actual == u64::MAX
        }) && saved.scope.same_as(config.scope) && saved.pins.same_as(config.pins)),
{
    actual == expected.saturating_add(1) && saved.scope.same(&config.scope) && saved.pins.same(
        &config.pins,
    )
}

// ---------------------------------------------------------------------------
// Cancellation of a Watch
// ---------------------------------------------------------------------------

pub open spec fn cancellation_value(watch: Seq<char>, principal: Seq<char>) -> Datum {
    Datum::empty().with("watch"@, Datum::Text(watch)).with("principal"@, Datum::Text(principal))
}

pub open spec fn cancellation_key_of(watch: Seq<char>, principal: Seq<char>) -> Option<Seq<char>> {
    match nexus::digits_of(cancellation_value(watch, principal)) {
        Some(digits) => Some("watch-cancellation/"@ + digits),
        None => None,
    }
}

/// The storage key of the marker that a cancellation right was provisioned.
pub fn cancellation_key(watch: &str, principal: &str) -> (key: String)
    ensures
        cancellation_key_of(watch@, principal@) == Some(key@),
{
    let value = Json::object().with("watch", Json::text(watch)).with(
        "principal",
        Json::text(principal),
    );
    proof {
        crate::nexus::two_texts_are_portable("watch"@, watch@, "principal"@, principal@);
    }
    let mut key = "watch-cancellation/".to_owned();
    key.append(nexus::json_digits(&value).as_str());
    key
}

/// What is to be done to provision the right to cancel one Watch.
#[derive(Clone, Copy, Debug, PartialEq, Eq, Structural)]
pub enum Provision {
    /// It was done before; a revoked right is not granted again.
    Done,
    /// The grant is there, only the marker is not up to date.
    Mark,
    /// A marker without a grant: someone has to look at it.
    Refuse,
    /// Mark, grant, and mark again.
    Grant,
}

/// Decides from the durable marker and the present grants.
pub fn provision_step(marker: Option<bool>, granted: bool) -> (r: Provision)
    ensures
        r == match marker {
            Some(true) => Provision::Done,
            Some(false) => if granted {
                Provision::Mark
            } else {
                Provision::Refuse
            },
            None => Provision::Grant,
        },
{
    match marker {
        Some(done) => if done {
            Provision::Done
        } else if granted {
            Provision::Mark
        } else {
            Provision::Refuse
        },
        None => Provision::Grant,
    }
}

/// An isolated host cannot switch automatic attention on.
pub fn may_enable(enabled: bool, automatic: bool) -> (r: Result<(), AttentionError>)
    ensures
        r == if enabled && !automatic {
            Err::<(), AttentionError>(AttentionError::IsolatedHost)
        } else {
            Ok(())
        },
{
    if enabled && !automatic {
        Err(AttentionError::IsolatedHost)
    } else {
        Ok(())
    }
}

} // verus!
