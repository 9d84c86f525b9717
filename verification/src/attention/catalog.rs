//! The directory of registered Spaces: its transitions, without its storage.

use vstd::prelude::*;

use super::{next, valid_id, AttentionError, AttentionReport, Checkpoint, Entry, Registration, DIRECTORY_FORMAT, FORMAT, MAX_COUNTER, MAX_SLOTS};
use crate::json::Json;
use crate::nexus;
use crate::runtime::{AttentionConfig, RuntimePins, RuntimeScope};
use crate::text;

verus! {

/// The root of a directory: how many slots are allocated, and the slot that
/// was visited last.
#[derive(Debug)]
pub struct Root {
    pub format: String,
    pub allocated: u64,
    pub cursor: u64,
}

/// What a slot points to.
#[derive(Debug)]
pub struct Index {
    pub format: String,
    pub scope: RuntimeScope,
    pub shard: u32,
}

impl Root {
    pub open spec fn valid(self) -> bool {
        &&& self.format@ == DIRECTORY_FORMAT@
        &&& self.allocated <= MAX_SLOTS
        &&& self.cursor <= self.allocated
    }

    /// A directory without slots.
    pub fn new() -> (r: Root)
        ensures
            r.valid(),
            r.allocated == 0,
            r.cursor == 0,
    {
        Root { format: DIRECTORY_FORMAT.to_owned(), allocated: 0, cursor: 0 }
    }

    pub fn validate(&self) -> (r: Result<(), AttentionError>)
        ensures
            r == if self.valid() {
                Ok(())
            } else {
                Err::<(), AttentionError>(AttentionError::InvalidRoot)
            },
    {
        if !text::same(self.format.as_str(), DIRECTORY_FORMAT) || self.allocated > MAX_SLOTS
            || self.cursor > self.allocated {
            return Err(AttentionError::InvalidRoot);
        }
        Ok(())
    }

    /// Allocates one more slot.
    pub fn allocate(&mut self) -> (r: Result<u64, AttentionError>)
        requires
            old(self).valid(),
        ensures
            final(self).valid(),
            match r {
                Ok(slot) => old(self).allocated < MAX_SLOTS && slot == old(self).allocated + 1
                    && *final(self) == (Root { allocated: slot, ..*old(self) }),
                Err(e) => old(self).allocated >= MAX_SLOTS && e == AttentionError::DirectoryFull
                    && *final(self) == *old(self),
            },
    {
        if self.allocated >= MAX_SLOTS {
            return Err(AttentionError::DirectoryFull);
        }
        self.allocated = self.allocated + 1;
        Ok(self.allocated)
    }

    /// The slot that the next page starts with.
    pub open spec fn page_start(self) -> int {
        if self.cursor == self.allocated {
            1
        } else {
            self.cursor + 1
        }
    }

    /// The last slot of the next page.
    pub open spec fn page_end(self, limit: int) -> int {
        if self.page_start() + limit - 1 <= self.allocated {
            self.page_start() + limit - 1
        } else {
            self.allocated as int
        }
    }

    /// The slots of the next page, in order.
    pub fn page(&self, limit: usize) -> (slots: Vec<u64>)
        requires
            self.valid(),
        ensures
            slots@.len() == if self.page_end(limit as int) >= self.page_start() {
                self.page_end(limit as int) - self.page_start() + 1
            } else {
                0
            },
            forall|i: int| 0 <= i < slots@.len() ==> slots@[i] == self.page_start() + i,
            slots@.len() <= limit,
    {
        let start: u64 = if self.cursor == self.allocated {
            1
        } else {
            self.cursor + 1
        };
        let last: u64 = start.saturating_add(limit as u64).saturating_sub(1);
        let end: u64 = if last < self.allocated {
            last
        } else {
            self.allocated
        };
        let mut slots: Vec<u64> = Vec::new();
        let mut slot: u64 = start;
        while slot <= end
            invariant
                start <= slot,
                start >= 1,
                end <= self.allocated,
                self.allocated <= MAX_SLOTS,
                slot <= end + 1 || slot == start,
                slots@.len() == slot - start,
                forall|i: int| 0 <= i < slots@.len() ==> slots@[i] == start + i,
            decreases end + 1 - slot,
        {
            slots.push(slot);
            slot = slot + 1;
        }
        slots
    }

    /// Records that the slot was visited.
    pub fn advance_cursor(&mut self, slot: u64) -> (r: Result<(), AttentionError>)
        requires
            old(self).valid(),
        ensures
            final(self).valid(),
            match r {
                Ok(_) => 0 < slot <= old(self).allocated && *final(self) == (Root {
                    cursor: slot,
                    ..*old(self)
                }),
                Err(e) => !(0 < slot <= old(self).allocated) && e
                    == AttentionError::InvalidCoordinate && *final(self) == *old(self),
            },
    {
        if slot == 0 || slot > self.allocated {
            return Err(AttentionError::InvalidCoordinate);
        }
        self.cursor = slot;
        Ok(())
    }

    /// The root after a page of that size has been visited to its end.
    pub open spec fn after_page(self, limit: int) -> Root {
        Root { cursor: self.page_end(limit) as u64, ..self }
    }

    /// The root after that many pages have been visited to their ends.
    pub open spec fn after_pages(self, limit: int, pages: nat) -> Root
        decreases pages,
    {
        if pages == 0 {
            self
        } else {
            self.after_page(limit).after_pages(limit, (pages - 1) as nat)
        }
    }

    /// The slot belongs to the next page.
    pub open spec fn page_holds(self, limit: int, slot: int) -> bool {
        self.page_start() <= slot <= self.page_end(limit)
    }
}

proof fn slot_ahead_is_reached(root: Root, limit: int, slot: int) -> (pages: nat)
    requires
        root.valid(),
        1 <= limit,
        root.page_start() <= slot <= root.allocated,
    ensures
        root.after_pages(limit, pages).page_holds(limit, slot),
    decreases root.allocated - root.page_start(),
{
    if slot <= root.page_end(limit) {
        0
    } else {
        let after = root.after_page(limit);
        let more = slot_ahead_is_reached(after, limit, slot);
        more + 1
    }
}

/// Visiting page after page, every allocated slot is reached, wherever the
/// cursor stands.
pub proof fn every_slot_is_visited(root: Root, limit: int, slot: int)
    requires
        root.valid(),
        1 <= limit,
        1 <= slot <= root.allocated,
    ensures
        exists|pages: nat| #[trigger] root.after_pages(limit, pages).page_holds(limit, slot),
{
    if root.page_start() <= slot {
        let pages = slot_ahead_is_reached(root, limit, slot);
    } else {
        let to_end = slot_ahead_is_reached(root, limit, root.allocated as int);
        let last = root.after_pages(limit, to_end);
        pages_keep_the_slots(root, limit, to_end);
        let wrapped = last.after_page(limit);
        let more = slot_ahead_is_reached(wrapped, limit, slot);
        pages_compose(root, limit, to_end, 1);
        assert(last.after_pages(limit, 1) == wrapped) by {
            reveal_with_fuel(Root::after_pages, 2);
        }
        pages_compose(root, limit, to_end + 1, more);
    }
}

proof fn pages_keep_the_slots(root: Root, limit: int, pages: nat)
    requires
        root.valid(),
        1 <= limit,
        root.allocated > 0,
    ensures
        root.after_pages(limit, pages).valid(),
        root.after_pages(limit, pages).allocated == root.allocated,
    decreases pages,
{
    if pages > 0 {
        pages_keep_the_slots(root.after_page(limit), limit, (pages - 1) as nat);
    }
}

proof fn pages_compose(root: Root, limit: int, first: nat, second: nat)
    ensures
        root.after_pages(limit, first).after_pages(limit, second) == root.after_pages(
            limit,
            first + second,
        ),
    decreases first,
{
    if first > 0 {
        pages_compose(root.after_page(limit), limit, (first - 1) as nat, second);
    }
}

// ---------------------------------------------------------------------------
// Entries
// ---------------------------------------------------------------------------

/// The storage key of the entry of a Space.
pub open spec fn entry_key_of(id: Seq<char>) -> Option<Seq<char>> {
    match nexus::digits_of(crate::json::Datum::Text(id)) {
        Some(digits) => Some("spaces/"@ + digits),
        None => None,
    }
}

pub fn entry_key(id: &str) -> (r: Result<String, AttentionError>)
    ensures
        match r {
            Ok(key) => super::id_valid(id@) && entry_key_of(id@) == Some(key@),
            Err(e) => !super::id_valid(id@) && e == AttentionError::InvalidSpaceId,
        },
{
    if let Err(e) = valid_id(id) {
        return Err(e);
    }
    let mut key = "spaces/".to_owned();
    key.append(nexus::json_digits(&Json::text(id)).as_str());
    Ok(key)
}

impl Entry {
    /// The entry that a new Space starts from, before it is renewed.
    pub open spec fn is_blank(
        self,
        id: Seq<char>,
        native: AttentionConfig,
        enabled: bool,
        shard: u32,
        slot: u64,
    ) -> bool {
        &&& self.format@ == DIRECTORY_FORMAT@
        &&& self.slot == slot
        &&& self.registration.format@ == FORMAT@
        &&& self.registration.scope.space_id@ == id
        &&& self.registration.scope.space_instance == native.scope.space_instance
        &&& self.registration.pins == native.pins
        &&& self.registration.version == 0
        &&& self.registration.shard == shard
        &&& self.registration.enabled == enabled
        &&& self.registration.dirty_generation == 0
        &&& self.registration.reconciled_generation == 0
        &&& self.registration.next_check_ms == 0
        &&& self.native_scope == native.scope
        &&& self.checkpoint.is_start(0)
        &&& self.last_scan_ms == 0
        &&& self.failures == 0
        &&& self.last_report.is_empty()
        &&& self.last_report.wf()
        &&& self.rechecks@.len() == 0
    }

    fn blank(id: &str, native: &AttentionConfig, enabled: bool, shard: u32, slot: u64) -> (r: Entry)
        ensures
            r.is_blank(id@, *native, enabled, shard, slot),
    {
        Entry {
            format: DIRECTORY_FORMAT.to_owned(),
            slot,
            registration: Registration {
                format: FORMAT.to_owned(),
                scope: RuntimeScope {
                    space_id: id.to_owned(),
                    space_instance: native.scope.space_instance.clone(),
                },
                pins: native.pins.copy(),
                version: 0,
                shard,
                enabled,
                dirty_generation: 0,
                reconciled_generation: 0,
                next_check_ms: 0,
            },
            native_scope: native.scope.copy(),
            checkpoint: Checkpoint::start(0),
            last_scan_ms: 0,
            failures: 0,
            last_report: AttentionReport::new(),
            rechecks: Vec::new(),
        }
    }

    /// Registered again: new version, new dirty generation, current pins, and
    /// everything to be scanned from the start. All else is kept.
    pub open spec fn renewed(self, after: Entry, pins: RuntimePins) -> bool {
        &&& after == (Entry {
            registration: Registration {
                version: (self.registration.version + 1) as u64,
                dirty_generation: (self.registration.dirty_generation + 1) as u64,
                pins,
                next_check_ms: 0,
                ..self.registration
            },
            failures: 0,
            checkpoint: after.checkpoint,
            ..self
        })
        &&& after.checkpoint.is_start(0)
    }

    /// Both counters can go on.
    pub open spec fn can_count(self) -> bool {
        self.registration.version < MAX_COUNTER && self.registration.dirty_generation < MAX_COUNTER
    }

    fn renew(self, pins: &RuntimePins) -> (r: Result<Entry, AttentionError>)
        ensures
            match r {
                Ok(after) => self.can_count() && self.renewed(after, *pins),
                Err(e) => !self.can_count() && e == AttentionError::CounterExhausted,
            },
    {
        let mut entry = self;
        entry.registration.version = match next(entry.registration.version) {
            Ok(n) => n,
            Err(e) => return Err(e),
        };
        entry.registration.dirty_generation = match next(entry.registration.dirty_generation) {
            Ok(n) => n,
            Err(e) => return Err(e),
        };
        entry.registration.pins = pins.copy();
        entry.registration.next_check_ms = 0;
        entry.failures = 0;
        entry.checkpoint = Checkpoint::start(0);
        Ok(entry)
    }

    /// Registers a Space that the directory already knows.
    pub fn register_again(self, native: &AttentionConfig) -> (r: Result<Entry, AttentionError>)
        ensures
            match r {
                Ok(after) => self.native_scope.same_as(native.scope) && self.can_count()
                    && self.renewed(after, native.pins),
                Err(e) => if !self.native_scope.same_as(native.scope) {
                    e == AttentionError::InstanceMismatch
                } else {
                    !self.can_count() && e == AttentionError::CounterExhausted
                },
            },
    {
        if !self.native_scope.same(&native.scope) {
            return Err(AttentionError::InstanceMismatch);
        }
        self.renew(&native.pins)
    }

    /// Registers a Space in a slot that was just allocated.
    pub fn register_new(
        id: &str,
        native: &AttentionConfig,
        enabled: bool,
        shard: u32,
        slot: u64,
    ) -> (r: Entry)
        ensures
            exists|blank: Entry| #[trigger]
                blank.is_blank(id@, *native, enabled, shard, slot) && blank.renewed(
                    r,
                    native.pins,
                ),
            super::id_valid(id@) && 0 < slot <= MAX_SLOTS && 0
                < native.scope.space_instance@.len() && text::utf8_len(
                native.scope.space_instance@,
            ) <= 256 ==> r.valid(id@, shard),
    {
        let blank = Entry::blank(id, native, enabled, shard, slot);
        let ghost start = blank;
        match blank.renew(&native.pins) {
            Ok(entry) => {
                assert(start.is_blank(id@, *native, enabled, shard, slot) && start.renewed(
                    entry,
                    native.pins,
                ));
                entry
            },
            Err(_) => {
                assert(false);
                Entry::blank(id, native, enabled, shard, slot)
            },
        }
    }

    /// What the end of a scan leaves in the directory, if the entry that was
    /// scanned is still the current one.
    pub open spec fn finished(self, after: Entry) -> bool {
        after == (Entry {
            registration: Registration {
                version: (self.registration.version + 1) as u64,
                reconciled_generation: if self.last_report.scan_complete {
                    self.registration.dirty_generation
                } else {
                    self.registration.reconciled_generation
                },
                ..self.registration
            },
            ..self
        })
    }

    /// The two entries carry the same version and the same dirty generation.
    pub open spec fn current_with(self, stored: Entry) -> bool {
        stored.registration.version == self.registration.version
            && stored.registration.dirty_generation == self.registration.dirty_generation
    }

    /// Ends a scan: a stale one changes nothing.
    pub fn finish(self, stored: &Entry) -> (r: Result<Option<Entry>, AttentionError>)
        ensures
            match r {
                Ok(Some(after)) => self.current_with(*stored) && self.registration.version
                    < MAX_COUNTER && self.finished(after),
                Ok(None) => !self.current_with(*stored),
                Err(e) => self.current_with(*stored) && self.registration.version >= MAX_COUNTER
                    && e == AttentionError::CounterExhausted,
            },
    {
        if stored.registration.version != self.registration.version
            || stored.registration.dirty_generation != self.registration.dirty_generation {
            return Ok(None);
        }
        let mut entry = self;
        entry.registration.version = match next(entry.registration.version) {
            Ok(n) => n,
            Err(e) => return Err(e),
        };
        if entry.last_report.scan_complete {
            entry.registration.reconciled_generation = entry.registration.dirty_generation;
        }
        Ok(Some(entry))
    }

    /// Edited: new version and new dirty generation, to be checked at once.
    pub open spec fn touched(self, after: Entry) -> bool {
        after == (Entry {
            registration: Registration {
                version: (self.registration.version + 1) as u64,
                dirty_generation: (self.registration.dirty_generation + 1) as u64,
                next_check_ms: 0,
                ..self.registration
            },
            failures: 0,
            ..self
        })
    }

    /// Counts an edit.
    pub fn touch(self) -> (r: Result<Entry, AttentionError>)
        ensures
            match r {
                Ok(after) => self.can_count() && self.touched(after),
                Err(e) => !self.can_count() && e == AttentionError::CounterExhausted,
            },
    {
        let mut entry = self;
        entry.registration.version = match next(entry.registration.version) {
            Ok(n) => n,
            Err(e) => return Err(e),
        };
        entry.registration.dirty_generation = match next(entry.registration.dirty_generation) {
            Ok(n) => n,
            Err(e) => return Err(e),
        };
        entry.registration.next_check_ms = 0;
        entry.failures = 0;
        Ok(entry)
    }
}

/// Whether a slot, what it points to and the entry found there belong together.
pub fn check_slot(slot: u64, index: &Index, entry: Option<&Entry>, shard: u32) -> (r: Result<
    (),
    AttentionError,
>)
    ensures
        r == if index.format@ != DIRECTORY_FORMAT@ || index.shard != shard {
            Err::<(), AttentionError>(AttentionError::InvalidSlot)
        } else {
            match entry {
                None => Err::<(), AttentionError>(AttentionError::RegistrationMissing),
                Some(e) => if e.slot == slot && e.registration.scope.same_as(index.scope) {
                    Ok(())
                } else {
                    Err::<(), AttentionError>(AttentionError::SlotMismatch)
                },
            }
        },
{
    if !text::same(index.format.as_str(), DIRECTORY_FORMAT) || index.shard != shard {
        return Err(AttentionError::InvalidSlot);
    }
    match entry {
        None => Err(AttentionError::RegistrationMissing),
        Some(e) => {
            if e.slot != slot || !e.registration.scope.same(&index.scope) {
                Err(AttentionError::SlotMismatch)
            } else {
                Ok(())
            }
        },
    }
}

// ---------------------------------------------------------------------------
// Laws
// ---------------------------------------------------------------------------

/// A scan that ended after newer work was registered or edited acknowledges
/// nothing: the stored entry is no longer the one that was scanned.
pub proof fn a_stale_scan_acknowledges_nothing(scanned: Entry, newer: Entry, pins: RuntimePins)
    requires
        scanned.can_count(),
        scanned.renewed(newer, pins) || scanned.touched(newer),
    ensures
        !scanned.current_with(newer),
        newer.registration.reconciled_generation == scanned.registration.reconciled_generation,
{
}

/// Registering, finishing and editing keep an entry valid; in particular the
/// reconciled generation never passes the dirty one and no counter passes its
/// greatest value.
pub proof fn transitions_keep_an_entry_valid(
    before: Entry,
    after: Entry,
    id: Seq<char>,
    shard: u32,
    pins: RuntimePins,
)
    requires
        before.valid(id, shard),
        (before.can_count() && before.renewed(after, pins)) || (before.registration.version
            < MAX_COUNTER && before.finished(after)) || (before.can_count() && before.touched(
            after,
        )),
    ensures
        after.valid(id, shard),
        after.registration.version == before.registration.version + 1,
{
}

/// What is acknowledged is what was dirty when the scan was read, never more;
/// an incomplete scan acknowledges nothing new.
pub proof fn a_finish_acknowledges_what_was_scanned(scanned: Entry, after: Entry)
    requires
        scanned.finished(after),
    ensures
        after.registration.dirty_generation == scanned.registration.dirty_generation,
        after.registration.reconciled_generation == scanned.registration.dirty_generation
            || after.registration.reconciled_generation
            == scanned.registration.reconciled_generation,
        scanned.last_report.scan_complete ==> after.registration.reconciled_generation
            == after.registration.dirty_generation,
        !scanned.last_report.scan_complete ==> after.registration.reconciled_generation
            == scanned.registration.reconciled_generation,
{
}

} // verus!
