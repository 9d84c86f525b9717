//! The counterparty of a conversation: it is looked up under its key, created
//! where nobody has it, and renamed only on request.

use vstd::prelude::*;

use super::{person_write, PersonWrite, CREATE_PERSON, UPSERT_PERSON};
use crate::json::{Datum, Json};

verus! {

/// How far the work on a counterparty has come.
#[derive(Clone, Copy, Debug, PartialEq, Eq, Structural)]
pub enum Stage {
    Looking,
    Writing,
    ReadingBack,
    Ended,
}

/// What the host is asked to do.
#[derive(Debug)]
pub enum Ask {
    /// Read the person of that key.
    Read { key: String },
    Write(PersonWrite),
    /// The person as it now stands; null where none is found.
    Give(Json),
    Fail(String),
}

/// What the host tells.
#[derive(Debug)]
pub enum Told {
    Found(Json),
    NotFound,
    Written,
    /// The key belongs to a person already.
    Conflict(String),
    Failed(String),
}

/// The host told something that was not asked for.
#[derive(Clone, Copy, Debug, PartialEq, Eq, Structural)]
pub struct OutOfTurn;

/// The work on one counterparty.
#[derive(Debug)]
pub struct Counterparty {
    pub key: String,
    /// The caller gave a name, so the person is renamed.
    pub named: bool,
    pub stage: Stage,
}

/// The host found nobody.
pub open spec fn finds_nobody(told: Told) -> bool {
    told is NotFound || (told matches Told::Found(person) && person@ == Datum::Null)
}

/// The person of that key is created under it, and nobody is renamed.
pub open spec fn creates(write: PersonWrite, key: Seq<char>) -> bool {
    write.command@ == CREATE_PERSON@ && write.key@ == key && write.name@ == key
        && write.tolerates_conflict
}

/// The person of that key is created or renamed.
pub open spec fn renames(write: PersonWrite, key: Seq<char>, name: Seq<char>) -> bool {
    write.command@ == UPSERT_PERSON@ && write.key@ == key && write.name@ == name
        && !write.tolerates_conflict
}

impl Counterparty {
    pub open spec fn reads(self, ask: Ask) -> bool {
        ask matches Ask::Read { key } && key@ == self.key@
    }

    /// What follows from what the host told.
    pub open spec fn moves(
        self,
        told: Told,
        after: Counterparty,
        r: Result<Ask, OutOfTurn>,
    ) -> bool {
        &&& after.key@ == self.key@
        &&& after.named == self.named
        &&& match (self.stage, told) {
            (Stage::Looking, Told::Found(_)) | (Stage::Looking, Told::NotFound) => if finds_nobody(
                told,
            ) {
                after.stage == Stage::Writing && (r matches Ok(Ask::Write(write)) && creates(
                    write,
                    self.key@,
                ))
            } else {
                after.stage == Stage::Ended && r == Ok::<Ask, OutOfTurn>(
                    Ask::Give(told->Found_0),
                )
            },
            (Stage::Writing, Told::Written) => after.stage == Stage::ReadingBack && (
            r matches Ok(ask) && self.reads(ask)),
            (Stage::Writing, Told::Conflict(error)) => if self.named {
                after.stage == Stage::Ended && r == Ok::<Ask, OutOfTurn>(Ask::Fail(error))
            } else {
                after.stage == Stage::ReadingBack && (r matches Ok(ask) && self.reads(ask))
            },
            (Stage::ReadingBack, Told::Found(person)) => after.stage == Stage::Ended && r
                == Ok::<Ask, OutOfTurn>(Ask::Give(person)),
            (Stage::ReadingBack, Told::NotFound) => after.stage == Stage::Ended && r
                == Ok::<Ask, OutOfTurn>(Ask::Give(Json::Null)),
            (Stage::Looking, Told::Failed(error))
            | (Stage::Writing, Told::Failed(error))
            | (Stage::ReadingBack, Told::Failed(error)) => after.stage == Stage::Ended && r
                == Ok::<Ask, OutOfTurn>(Ask::Fail(error)),
            _ => after.stage == self.stage && r == Err::<Ask, OutOfTurn>(OutOfTurn),
        }
    }

    /// Starts the work: without a name the person is looked up first, and with
    /// one it is written at once.
    pub fn begin(counterparty: &str, name: Option<String>) -> (r: (Counterparty, Ask))
        ensures
            r.0.key@ == counterparty@,
            r.0.named == (name is Some),
            match name {
                None => r.0.stage == Stage::Looking && r.0.reads(r.1),
                Some(n) => r.0.stage == Stage::Writing && (r.1 matches Ask::Write(write)
                    && renames(write, counterparty@, n@)),
            },
    {
        match name {
            None => {
                (
                    Counterparty {
                        key: counterparty.to_owned(),
                        named: false,
                        stage: Stage::Looking,
                    },
                    Ask::Read { key: counterparty.to_owned() },
                )
            },
            Some(n) => {
                let write = person_write(counterparty, Some(n));
                (
                    Counterparty {
                        key: counterparty.to_owned(),
                        named: true,
                        stage: Stage::Writing,
                    },
                    Ask::Write(write),
                )
            },
        }
    }

    fn end(&mut self, ask: Ask) -> (r: Result<Ask, OutOfTurn>)
        ensures
            r == Ok::<Ask, OutOfTurn>(ask),
            *final(self) == (Counterparty { stage: Stage::Ended, ..*old(self) }),
    {
        self.stage = Stage::Ended;
        Ok(ask)
    }

    /// Takes what the host told, and says what it is asked next.
    pub fn step(&mut self, told: Told) -> (r: Result<Ask, OutOfTurn>)
        ensures
            old(self).moves(told, *final(self), r),
    {
        match (self.stage, told) {
            (Stage::Looking, Told::Found(Json::Null)) | (Stage::Looking, Told::NotFound) => {
                self.stage = Stage::Writing;
                Ok(Ask::Write(person_write(self.key.as_str(), None)))
            },
            (Stage::Looking, Told::Found(person)) => self.end(Ask::Give(person)),
            (Stage::Writing, Told::Written) => {
                self.stage = Stage::ReadingBack;
                Ok(Ask::Read { key: self.key.clone() })
            },
            (Stage::Writing, Told::Conflict(error)) => {
                if self.named {
                    self.end(Ask::Fail(error))
                } else {
                    self.stage = Stage::ReadingBack;
                    Ok(Ask::Read { key: self.key.clone() })
                }
            },
            (Stage::ReadingBack, Told::Found(person)) => self.end(Ask::Give(person)),
            (Stage::ReadingBack, Told::NotFound) => self.end(Ask::Give(Json::Null)),
            (Stage::Looking, Told::Failed(error))
            | (Stage::Writing, Told::Failed(error))
            | (Stage::ReadingBack, Told::Failed(error)) => self.end(Ask::Fail(error)),
            _ => Err(OutOfTurn),
        }
    }
}

// ---------------------------------------------------------------------------
// Laws
// ---------------------------------------------------------------------------

/// The states are those of one run, in which the host told that and was asked that.
pub open spec fn is_run(states: Seq<Counterparty>, told: Seq<Told>, asked: Seq<Ask>) -> bool {
    &&& states.len() == told.len() + 1
    &&& asked.len() == told.len()
    &&& forall|i: int|
        0 <= i < told.len() ==> (#[trigger] states[i]).moves(
            told[i],
            states[i + 1],
            Ok(asked[i]),
        )
}

/// Without a name nothing that exists is written: a run that begins with the
/// lookup writes only where the lookup found nobody, only once, and only to create
/// the person under its key.
pub proof fn unnamed_lookups_write_nothing_existing(
    states: Seq<Counterparty>,
    told: Seq<Told>,
    asked: Seq<Ask>,
    i: int,
)
    requires
        is_run(states, told, asked),
        states[0].stage == Stage::Looking,
        0 <= i < asked.len(),
        asked[i] is Write,
    ensures
        i == 0,
        finds_nobody(told[0]),
        creates(asked[i]->Write_0, states[0].key@),
{
    assert(states[i].moves(told[i], states[i + 1], Ok(asked[i])));
    if i > 0 {
        assert(states[i - 1].moves(told[i - 1], states[i], Ok(asked[i - 1])));
    }
}

/// A person that the lookup finds is given as it is, and the run has ended.
pub proof fn found_counterparties_are_given(
    states: Seq<Counterparty>,
    told: Seq<Told>,
    asked: Seq<Ask>,
)
    requires
        is_run(states, told, asked),
        states[0].stage == Stage::Looking,
        told.len() > 0,
        told[0] is Found,
        !finds_nobody(told[0]),
    ensures
        told.len() == 1,
        asked[0] == Ask::Give(told[0]->Found_0),
{
    assert(states[0].moves(told[0], states[1], Ok(asked[0])));
    if told.len() > 1 {
        assert(states[1].moves(told[1], states[2], Ok(asked[1])));
    }
}

// ---------------------------------------------------------------------------
// Calls against a storage that works
// ---------------------------------------------------------------------------

/// What a storage holds: the person of each key.
pub type People = Map<Seq<char>, Datum>;

/// Each key has one person, who has that key.
pub open spec fn is_people(people: People) -> bool {
    forall|key: Seq<char>| #[trigger]
        people.contains_key(key) ==> people[key] is Object && people[key].text_at("key"@) == Some(
            key,
        )
}

/// Nobody goes away, and nobody gets another identity.
pub open spec fn keeps(before: People, after: People) -> bool {
    forall|key: Seq<char>| #[trigger]
        before.contains_key(key) ==> after.contains_key(key) && after[key].at("id"@)
            == before[key].at("id"@)
}

/// The person of that key has that name now, and nobody else changed.
pub open spec fn writes(
    before: People,
    after: People,
    key: Seq<char>,
    name: Seq<char>,
) -> bool {
    &&& is_people(after)
    &&& after.contains_key(key)
    &&& after[key].text_at("name"@) == Some(name)
    &&& before.contains_key(key) ==> after[key].at("id"@) == before[key].at("id"@)
    &&& after.remove(key) == before.remove(key)
}

/// A storage that works: a read gives the person of the key, a creation makes one
/// where there is none and conflicts where there is one, and an explicit name is
/// written in either case.
pub open spec fn works(ask: Ask, before: People, told: Told, after: People) -> bool {
    match ask {
        Ask::Read { key } => after == before && if before.contains_key(key@) {
            told matches Told::Found(person) && person@ == before[key@]
        } else {
            told is NotFound
        },
        Ask::Write(write) => if write.command@ == CREATE_PERSON@ && before.contains_key(
            write.key@,
        ) {
            told is Conflict && after == before
        } else {
            told is Written && writes(before, after, write.key@, write.name@)
        },
        _ => after == before,
    }
}

/// One call: what was asked for, what the storage told, and what it held before and
/// after each of its answers.
pub struct Call {
    pub states: Seq<Counterparty>,
    pub asked: Seq<Ask>,
    pub told: Seq<Told>,
    pub held: Seq<(People, People)>,
}

impl Call {
    /// A call for that key, with a name or without one, that the storage answered.
    pub open spec fn is_for(self, key: Seq<char>, name: Option<Seq<char>>) -> bool {
        &&& self.told.len() > 0
        &&& self.states.len() == self.told.len() + 1
        &&& self.asked.len() == self.told.len() + 1
        &&& self.held.len() == self.told.len()
        &&& self.states[0].key@ == key
        &&& self.states[0].named == (name is Some)
        &&& match name {
            None => self.states[0].stage == Stage::Looking && self.states[0].reads(self.asked[0]),
            Some(n) => self.states[0].stage == Stage::Writing && (
            self.asked[0] matches Ask::Write(write) && renames(write, key, n)),
        }
        &&& forall|i: int| 0 <= i < self.told.len() ==> #[trigger] self.goes(i)
        &&& self.asked.last() is Give
    }

    /// The storage answered one ask, and the next one follows from that.
    pub open spec fn goes(self, i: int) -> bool {
        &&& self.states[i].moves(self.told[i], self.states[i + 1], Ok(self.asked[i + 1]))
        &&& works(self.asked[i], self.held[i].0, self.told[i], self.held[i].1)
        &&& is_people(self.held[i].0)
    }

    /// Nobody else wrote between the answers.
    pub open spec fn alone(self) -> bool {
        forall|i: int, j: int|
            0 <= i && j == i + 1 && j < self.held.len() ==> (#[trigger] self.held[i]).1 == (
            #[trigger] self.held[j]).0
    }

    /// Whoever else wrote between the answers took nobody away and changed no
    /// identity.
    pub open spec fn shared(self) -> bool {
        forall|i: int, j: int|
            0 <= i && j == i + 1 && j < self.held.len() ==> keeps(
                (#[trigger] self.held[i]).1,
                (#[trigger] self.held[j]).0,
            )
    }

    pub open spec fn before(self) -> People {
        self.held[0].0
    }

    pub open spec fn after(self) -> People {
        self.held.last().1
    }

    /// The person that the call gave.
    pub open spec fn given(self) -> Datum {
        self.asked.last()->Give_0@
    }

    /// Something was written.
    pub open spec fn wrote(self) -> bool {
        exists|i: int| 0 <= i < self.told.len() && #[trigger] self.asked[i] is Write
    }
}

proof fn commands_differ()
    ensures
        CREATE_PERSON@ != UPSERT_PERSON@,
{
    reveal_strlit("CREATE CONCEPT ?person { TYPE \"Person\" NAME :name SET FIELDS { key: :key } }");
    reveal_strlit(
        "UPSERT CONCEPT ?person {\n  MATCH { type: \"Person\", key: :key }\n  SET FIELDS { name: :name }\n}",
    );
    assert(CREATE_PERSON@[0] == 'C');
    assert(UPSERT_PERSON@[0] == 'U');
}

/// A person who is there is given without a write.
proof fn lookups_find(call: Call, key: Seq<char>)
    requires
        call.is_for(key, None),
        call.before().contains_key(key),
    ensures
        call.told.len() == 1,
        !call.wrote(),
        call.given() == call.before()[key],
        call.after() == call.before(),
{
    assert(call.goes(0));
    assert(call.states[1].stage == Stage::Ended);
    if call.told.len() > 1 {
        assert(call.goes(1));
    }
}

/// Where nobody is there, the person is created, or another caller's stands; either
/// way it is read back.
proof fn lookups_create(call: Call, key: Seq<char>)
    requires
        call.is_for(key, None),
        call.shared(),
        !call.before().contains_key(key),
    ensures
        call.told.len() == 3,
        call.asked[1] is Write,
        creates(call.asked[1]->Write_0, key),
        call.held[2].0.contains_key(key),
        call.given() == call.held[2].0[key],
        call.after() == call.held[2].0,
{
    assert(call.goes(0));
    assert(call.told[0] is NotFound);
    assert(call.states[1].stage == Stage::Writing);
    assert(call.asked.len() > 2) by {
        assert(call.asked[1] is Write);
    }
    assert(call.goes(1));
    assert(call.states[2].stage == Stage::ReadingBack);
    assert(call.held[1].1.contains_key(key));
    assert(call.asked[2] is Read);
    assert(call.goes(2));
    assert(keeps(call.held[1].1, call.held[2].0));
    assert(call.held[2].0.contains_key(key));
    assert(call.states[3].stage == Stage::Ended);
    if call.told.len() > 3 {
        assert(call.goes(3));
    }
}

/// An explicit name is written, and the person is read back.
proof fn names_are_written(call: Call, key: Seq<char>, name: Seq<char>)
    requires
        call.is_for(key, Some(name)),
        call.alone(),
    ensures
        call.told.len() == 2,
        writes(call.before(), call.after(), key, name),
        call.given() == call.after()[key],
{
    commands_differ();
    assert(call.goes(0));
    assert(call.told[0] is Written);
    assert(call.states[1].stage == Stage::ReadingBack);
    assert(call.asked[1] is Read);
    assert(call.goes(1));
    assert(call.held[0].1 == call.held[1].0);
    assert(call.states[2].stage == Stage::Ended);
    if call.told.len() > 2 {
        assert(call.goes(2));
    }
}

/// A person is found again under its key: after a call with a name has given it, a
/// call without one gives the same person, writes nothing and keeps the name; another
/// name is then given to the same identity.
pub proof fn counterparties_are_found_again(
    key: Seq<char>,
    name: Seq<char>,
    other: Seq<char>,
    first: Call,
    second: Call,
    third: Call,
)
    requires
        first.is_for(key, Some(name)),
        first.alone(),
        second.is_for(key, None),
        second.before() == first.after(),
        third.is_for(key, Some(other)),
        third.alone(),
        third.before() == second.after(),
    ensures
        first.given().text_at("name"@) == Some(name),
        first.given().text_at("key"@) == Some(key),
        second.given() == first.given(),
        !second.wrote(),
        second.after() == first.after(),
        third.given().at("id"@) == first.given().at("id"@),
        third.given().text_at("name"@) == Some(other),
{
    names_are_written(first, key, name);
    lookups_find(second, key);
    names_are_written(third, key, other);
}

/// A new counterparty is created once, under its key and named by it; nobody else
/// changes.
pub proof fn new_counterparties_are_named_by_their_key(key: Seq<char>, call: Call)
    requires
        call.is_for(key, None),
        call.alone(),
        !call.before().contains_key(key),
    ensures
        call.given().text_at("key"@) == Some(key),
        call.given().text_at("name"@) == Some(key),
        writes(call.before(), call.after(), key, key),
        call.given() == call.after()[key],
{
    assert(call.shared());
    lookups_create(call, key);
    assert(call.goes(0));
    assert(call.goes(1));
    assert(call.held[0].1 == call.held[1].0);
    assert(call.held[1].1 == call.held[2].0);
}

/// What one storage held, over time: each state keeps the people of the one before.
pub open spec fn is_history(history: Seq<People>) -> bool {
    forall|i: int, j: int|
        0 <= i && j == i + 1 && j < history.len() ==> keeps(
            #[trigger] history[i],
            #[trigger] history[j],
        )
}

/// The call met the storage at those moments of its history, one after the other.
pub open spec fn met(call: Call, history: Seq<People>, moments: Seq<int>) -> bool {
    &&& moments.len() == call.held.len()
    &&& forall|i: int|
        0 <= i < moments.len() ==> 0 <= #[trigger] moments[i] && moments[i] + 1 < history.len()
            && call.held[i] == (history[moments[i]], history[moments[i] + 1])
    &&& forall|i: int, j: int|
        0 <= i < j < moments.len() ==> #[trigger] moments[i] < #[trigger] moments[j]
}

proof fn history_keeps(history: Seq<People>, i: int, j: int)
    requires
        is_history(history),
        0 <= i <= j < history.len(),
    ensures
        keeps(history[i], history[j]),
    decreases j - i,
{
    if i < j {
        history_keeps(history, i, j - 1);
        assert(keeps(history[j - 1], history[j]));
    }
}

proof fn given_is_held(call: Call, history: Seq<People>, moments: Seq<int>, key: Seq<char>) -> (at:
    int)
    requires
        call.is_for(key, None),
        is_history(history),
        met(call, history, moments),
    ensures
        0 <= at < history.len(),
        history[at].contains_key(key),
        call.given() == history[at][key],
{
    assert forall|i: int, j: int| 0 <= i && j == i + 1 && j < call.held.len() implies keeps(
        (#[trigger] call.held[i]).1,
        (#[trigger] call.held[j]).0,
    ) by {
        assert(moments[i] < moments[j]);
        history_keeps(history, moments[i] + 1, moments[j]);
    }
    if call.before().contains_key(key) {
        lookups_find(call, key);
        moments[0]
    } else {
        lookups_create(call, key);
        moments[2]
    }
}

/// Calls without a name that run at the same time against one storage all give the
/// same identity, whoever creates the person.
pub proof fn concurrent_lookups_agree(
    key: Seq<char>,
    history: Seq<People>,
    first: Call,
    first_moments: Seq<int>,
    second: Call,
    second_moments: Seq<int>,
)
    requires
        is_history(history),
        first.is_for(key, None),
        second.is_for(key, None),
        met(first, history, first_moments),
        met(second, history, second_moments),
    ensures
        first.given().at("id"@) == second.given().at("id"@),
{
    let a = given_is_held(first, history, first_moments, key);
    let b = given_is_held(second, history, second_moments, key);
    if a <= b {
        history_keeps(history, a, b);
    } else {
        history_keeps(history, b, a);
    }
}

} // verus!
