//! JSON values: what they hold, how a member is read, and how they are written.

use vstd::prelude::*;

use crate::text;

verus! {

/// A JSON number. A number that is no 64-bit integer keeps its own spelling.
#[derive(Debug)]
pub enum Number {
    Unsigned(u64),
    /// Less than zero.
    Negative(i64),
    Decimal(String),
}

/// A JSON value.
#[derive(Debug)]
pub enum Json {
    Null,
    Bool(bool),
    Number(Number),
    Text(String),
    Array(Vec<Json>),
    Object(Vec<Member>),
}

/// One member of a JSON object.
#[derive(Debug)]
pub struct Member {
    pub name: String,
    pub value: Json,
}

/// What a JSON value holds.
pub enum Datum {
    Null,
    Bool(bool),
    Unsigned(u64),
    Negative(i64),
    Decimal(Seq<char>),
    Text(Seq<char>),
    Array(Seq<Datum>),
    Object(Seq<(Seq<char>, Datum)>),
}

impl Json {
    pub open spec fn value(self) -> Datum
        decreases self,
    {
        match self {
            Json::Null => Datum::Null,
            Json::Bool(b) => Datum::Bool(b),
            Json::Number(Number::Unsigned(n)) => Datum::Unsigned(n),
            Json::Number(Number::Negative(n)) => Datum::Negative(n),
            Json::Number(Number::Decimal(s)) => Datum::Decimal(s@),
            Json::Text(s) => Datum::Text(s@),
            Json::Array(items) => Datum::Array(
                Seq::new(
                    items@.len(),
                    |i: int|
                        if 0 <= i < items@.len() {
                            items@[i].value()
                        } else {
                            Datum::Null
                        },
                ),
            ),
            Json::Object(members) => Datum::Object(
                Seq::new(
                    members@.len(),
                    |i: int|
                        if 0 <= i < members@.len() {
                            (members@[i].name@, members@[i].value.value())
                        } else {
                            (Seq::empty(), Datum::Null)
                        },
                ),
            ),
        }
    }
}

impl View for Json {
    type V = Datum;

    open spec fn view(&self) -> Datum {
        self.value()
    }
}

// ---------------------------------------------------------------------------
// Equality
// ---------------------------------------------------------------------------

/// The two spellings are of numbers that are equal.
pub uninterp spec fn numbers_equal(a: Seq<char>, b: Seq<char>) -> bool;

/// `serde_json::Number`: whether both spellings are read as numbers, and these are
/// equal, as a function of the spellings.
#[verifier::external_body]
fn equal_numbers(a: &str, b: &str) -> (r: bool)
    ensures
        r == numbers_equal(a@, b@),
{
    match (a.parse::<serde_json::Number>(), b.parse::<serde_json::Number>()) {
        (Ok(x), Ok(y)) => x == y,
        _ => false,
    }
}

/// Two values are equal, but for the spelling of numbers that are no 64-bit
/// integers.
pub open spec fn alike(v: Datum, w: Datum) -> bool
    decreases v,
{
    match v {
        Datum::Decimal(a) => w matches Datum::Decimal(b) && (a == b || numbers_equal(a, b)),
        Datum::Array(a) => w matches Datum::Array(b) && a.len() == b.len() && forall|i: int|
            0 <= i < a.len() ==> alike(#[trigger] a[i], b[i]),
        Datum::Object(a) => w matches Datum::Object(b) && a.len() == b.len() && forall|i: int|
            0 <= i < a.len() ==> (#[trigger] a[i]).0 == b[i].0 && alike(a[i].1, b[i].1),
        _ => v == w,
    }
}

/// No number in the value is other than a 64-bit integer.
pub open spec fn integral(v: Datum) -> bool
    decreases v,
{
    match v {
        Datum::Decimal(_) => false,
        Datum::Array(items) => forall|i: int| 0 <= i < items.len() ==> integral(#[trigger] items[i]),
        Datum::Object(members) => forall|i: int|
            0 <= i < members.len() ==> integral((#[trigger] members[i]).1),
        _ => true,
    }
}

/// Equal values are alike.
pub proof fn equal_is_alike(v: Datum)
    ensures
        alike(v, v),
    decreases v,
{
    match v {
        Datum::Array(items) => {
            assert forall|i: int| 0 <= i < items.len() implies alike(#[trigger] items[i], items[i]) by {
                equal_is_alike(items[i]);
            }
        },
        Datum::Object(members) => {
            assert forall|i: int| 0 <= i < members.len() implies alike(
                (#[trigger] members[i]).1,
                members[i].1,
            ) by {
                assert(decreases_to!(members => members[i]));
                assert(decreases_to!(members[i] => members[i].1));
                equal_is_alike(members[i].1);
            }
        },
        _ => {},
    }
}

/// Without such a number, alike means equal.
pub proof fn alike_integral_is_equal(v: Datum, w: Datum)
    requires
        integral(w),
    ensures
        alike(v, w) <==> v == w,
    decreases v,
{
    if v == w {
        equal_is_alike(v);
    } else if alike(v, w) {
        match (v, w) {
            (Datum::Array(a), Datum::Array(b)) => {
                assert forall|i: int| 0 <= i < a.len() implies a[i] == b[i] by {
                    alike_integral_is_equal(a[i], b[i]);
                }
                assert(a =~= b);
            },
            (Datum::Object(a), Datum::Object(b)) => {
                assert forall|i: int| 0 <= i < a.len() implies a[i] == b[i] by {
                    assert(decreases_to!(a => a[i]));
                    assert(decreases_to!(a[i] => a[i].1));
                    assert(alike(a[i].1, b[i].1));
                    alike_integral_is_equal(a[i].1, b[i].1);
                }
                assert(a =~= b);
            },
            _ => {},
        }
    }
}

// ---------------------------------------------------------------------------
// Reading
// ---------------------------------------------------------------------------

/// The members of a JSON object as they are seen through their views.
pub open spec fn members_view(members: Seq<Member>) -> Seq<(Seq<char>, Datum)> {
    members.map_values(|m: Member| (m.name@, m.value@))
}

/// The items of a JSON array as they are seen through their views.
pub open spec fn items_view(items: Seq<Json>) -> Seq<Datum> {
    items.map_values(|j: Json| j@)
}

/// The value of the member of that name.
pub open spec fn lookup(members: Seq<(Seq<char>, Datum)>, name: Seq<char>) -> Option<Datum>
    decreases members.len(),
{
    if members.len() == 0 {
        None
    } else if members.first().0 == name {
        Some(members.first().1)
    } else {
        lookup(members.drop_first(), name)
    }
}

/// The names stand in increasing order, each one once.
pub open spec fn names_ordered(members: Seq<(Seq<char>, Datum)>) -> bool {
    forall|i: int, j: int|
        0 <= i < j < members.len() ==> text::less((#[trigger] members[i]).0, (#[trigger] members[j]).0)
}

/// What is found under a name is one of the members.
pub proof fn lookup_is_a_member(members: Seq<(Seq<char>, Datum)>, name: Seq<char>)
    ensures
        lookup(members, name) matches Some(value) ==> exists|i: int|
            0 <= i < members.len() && #[trigger] members[i] == (name, value),
    decreases members.len(),
{
    if members.len() > 0 {
        if members.first().0 == name {
            assert(members[0] == (name, members[0].1));
        } else {
            lookup_is_a_member(members.drop_first(), name);
            if let Some(value) = lookup(members, name) {
                let i = choose|i: int|
                    0 <= i < members.drop_first().len() && #[trigger] members.drop_first()[i] == (
                        name,
                        value,
                    );
                assert(members[i + 1] == (name, value));
            }
        }
    }
}

impl Datum {
    /// A member is smaller than the object that holds it.
    pub proof fn member_is_smaller(self, name: Seq<char>)
        ensures
            self.get(name) matches Some(value) ==> decreases_to!(self => value),
    {
        if let Datum::Object(members) = self {
            lookup_is_a_member(members, name);
            if let Some(value) = lookup(members, name) {
                let i = choose|i: int|
                    0 <= i < members.len() && #[trigger] members[i] == (name, value);
                assert(decreases_to!(self => self->Object_0));
                assert(decreases_to!(members => members[i]));
                assert(decreases_to!(members[i] => members[i].1));
            }
        }
    }

    /// The members are in order, here and in every value inside.
    pub open spec fn ordered(self) -> bool
        decreases self,
    {
        match self {
            Datum::Array(items) => forall|i: int|
                0 <= i < items.len() ==> (#[trigger] items[i]).ordered(),
            Datum::Object(members) => names_ordered(members) && forall|i: int|
                0 <= i < members.len() ==> (#[trigger] members[i]).1.ordered(),
            _ => true,
        }
    }

    /// The member of that name, of an object that has one.
    pub open spec fn get(self, name: Seq<char>) -> Option<Datum> {
        match self {
            Datum::Object(members) => lookup(members, name),
            _ => None,
        }
    }

    /// The member of that name; null where there is none.
    pub open spec fn at(self, name: Seq<char>) -> Datum {
        match self.get(name) {
            Some(value) => value,
            None => Datum::Null,
        }
    }

    pub open spec fn has(self, name: Seq<char>) -> bool {
        self.get(name) is Some
    }

    pub open spec fn as_text(self) -> Option<Seq<char>> {
        match self {
            Datum::Text(s) => Some(s),
            _ => None,
        }
    }

    pub open spec fn as_u64(self) -> Option<u64> {
        match self {
            Datum::Unsigned(n) => Some(n),
            _ => None,
        }
    }

    pub open spec fn is_number(self) -> bool {
        self is Unsigned || self is Negative || self is Decimal
    }

    /// The text of the member of that name.
    pub open spec fn text_at(self, name: Seq<char>) -> Option<Seq<char>> {
        self.at(name).as_text()
    }
}

/// The position of the member of that name.
fn find_member(members: &Vec<Member>, name: &str) -> (r: Option<usize>)
    ensures
        match r {
            Some(i) => i < members.len() && members@[i as int].name@ == name@ && lookup(
                members_view(members@),
                name@,
            ) == Some(members@[i as int].value@) && forall|k: int|
                0 <= k < i ==> (#[trigger] members@[k]).name@ != name@,
            None => lookup(members_view(members@), name@) is None && forall|k: int|
                0 <= k < members.len() ==> (#[trigger] members@[k]).name@ != name@,
        },
{
    let ghost all = members_view(members@);
    let mut i: usize = 0;
    proof {
        assert(all.skip(0) =~= all);
    }
    while i < members.len()
        invariant
            i <= members.len(),
            all == members_view(members@),
            lookup(all.skip(i as int), name@) == lookup(all, name@),
            forall|k: int| 0 <= k < i ==> (#[trigger] members@[k]).name@ != name@,
        decreases members.len() - i,
    {
        assert(all.skip(i as int).first() == all[i as int]);
        assert(all.skip(i as int).drop_first() =~= all.skip(i + 1));
        if text::same(members[i].name.as_str(), name) {
            return Some(i);
        }
        i = i + 1;
    }
    None
}

impl Json {
    /// Sees an array or an object through the views of what it holds.
    pub proof fn view_of_parts(&self)
        ensures
            self matches Json::Array(items) ==> self@ == Datum::Array(items_view(items@)),
            self matches Json::Object(members) ==> self@ == Datum::Object(members_view(members@)),
    {
        match self {
            Json::Array(items) => {
                assert(self@->Array_0 =~= items_view(items@));
            },
            Json::Object(members) => {
                assert(self@->Object_0 =~= members_view(members@));
            },
            _ => {},
        }
    }

    pub fn get(&self, name: &str) -> (r: Option<&Json>)
        ensures
            match r {
                Some(value) => self@.get(name@) == Some(value@),
                None => self@.get(name@) is None,
            },
            r matches Some(value) ==> decreases_to!(*self => *value),
    {
        proof {
            self.view_of_parts();
        }
        match self {
            Json::Object(members) => match find_member(members, name) {
                Some(i) => {
                    assert(decreases_to!(members@ => members@[i as int]));
                    Some(&members[i].value)
                },
                None => None,
            },
            _ => None,
        }
    }

    pub fn has(&self, name: &str) -> (r: bool)
        ensures
            r == self@.has(name@),
    {
        self.get(name).is_some()
    }

    /// Whether the member of that name is there and is not null.
    pub fn has_value(&self, name: &str) -> (r: bool)
        ensures
            r == !(self@.at(name@) is Null),
    {
        match self.get(name) {
            Some(Json::Null) => false,
            Some(_) => true,
            None => false,
        }
    }

    pub fn as_text(&self) -> (r: Option<&str>)
        ensures
            match r {
                Some(s) => self@.as_text() == Some(s@),
                None => self@.as_text() is None,
            },
    {
        match self {
            Json::Text(s) => Some(s.as_str()),
            _ => None,
        }
    }

    pub fn as_u64(&self) -> (r: Option<u64>)
        ensures
            r == self@.as_u64(),
    {
        match self {
            Json::Number(Number::Unsigned(n)) => Some(*n),
            _ => None,
        }
    }

    pub fn as_array(&self) -> (r: Option<&Vec<Json>>)
        ensures
            match r {
                Some(items) => self@ == Datum::Array(items_view(items@)),
                None => !(self@ is Array),
            },
    {
        proof {
            self.view_of_parts();
        }
        match self {
            Json::Array(items) => Some(items),
            _ => None,
        }
    }

    pub fn is_null(&self) -> (r: bool)
        ensures
            r == (self@ is Null),
    {
        match self {
            Json::Null => true,
            _ => false,
        }
    }

    pub fn is_object(&self) -> (r: bool)
        ensures
            r == (self@ is Object),
    {
        match self {
            Json::Object(_) => true,
            _ => false,
        }
    }

    pub fn is_true(&self) -> (r: bool)
        ensures
            r == (self@ == Datum::Bool(true)),
    {
        match self {
            Json::Bool(b) => *b,
            _ => false,
        }
    }

    /// Whether this is exactly that text.
    pub fn is_text(&self, s: &str) -> (r: bool)
        ensures
            r == (self@ == Datum::Text(s@)),
    {
        match self {
            Json::Text(own) => text::same(own.as_str(), s),
            _ => false,
        }
    }

    /// A copy of the member of that name; null where there is none.
    pub fn copy_at(&self, name: &str) -> (r: Json)
        ensures
            r@ == self@.at(name@),
    {
        match self.get(name) {
            Some(value) => value.copy(),
            None => Json::Null,
        }
    }

    /// The text of the member of that name.
    pub fn text_at(&self, name: &str) -> (r: Option<&str>)
        ensures
            match r {
                Some(s) => self@.text_at(name@) == Some(s@),
                None => self@.text_at(name@) is None,
            },
    {
        match self.get(name) {
            Some(value) => value.as_text(),
            None => None,
        }
    }

    /// Whether the member of that name is exactly that text.
    pub fn member_is(&self, name: &str, s: &str) -> (r: bool)
        ensures
            r == (self@.at(name@) == Datum::Text(s@)),
    {
        match self.get(name) {
            Some(value) => value.is_text(s),
            None => false,
        }
    }

    pub fn u64_at(&self, name: &str) -> (r: Option<u64>)
        ensures
            r == self@.at(name@).as_u64(),
    {
        match self.get(name) {
            Some(value) => value.as_u64(),
            None => None,
        }
    }
}

// ---------------------------------------------------------------------------
// Copies and equality
// ---------------------------------------------------------------------------

impl Json {
    pub proof fn item_is_smaller(self, i: int)
        requires
            self is Array,
            0 <= i < self->Array_0@.len(),
        ensures
            decreases_to!(self => self->Array_0@[i]),
    {
        assert(decreases_to!(self => self->Array_0));
        assert(decreases_to!(self->Array_0 => self->Array_0@));
        assert(decreases_to!(self->Array_0@ => self->Array_0@[i]));
    }

    pub proof fn member_is_smaller(self, i: int)
        requires
            self is Object,
            0 <= i < self->Object_0@.len(),
        ensures
            decreases_to!(self => self->Object_0@[i].value),
    {
        assert(decreases_to!(self => self->Object_0));
        assert(decreases_to!(self->Object_0 => self->Object_0@));
        assert(decreases_to!(self->Object_0@ => self->Object_0@[i]));
        assert(decreases_to!(self->Object_0@[i] => self->Object_0@[i].value));
    }

    /// The same value once more.
    pub fn copy(&self) -> (r: Json)
        ensures
            r@ == self@,
        decreases self,
    {
        proof {
            self.view_of_parts();
        }
        match self {
            Json::Null => Json::Null,
            Json::Bool(b) => Json::Bool(*b),
            Json::Number(Number::Unsigned(n)) => Json::Number(Number::Unsigned(*n)),
            Json::Number(Number::Negative(n)) => Json::Number(Number::Negative(*n)),
            Json::Number(Number::Decimal(s)) => Json::Number(Number::Decimal(s.clone())),
            Json::Text(s) => Json::Text(s.clone()),
            Json::Array(items) => {
                let mut out: Vec<Json> = Vec::new();
                let mut i: usize = 0;
                while i < items.len()
                    invariant
                        i <= items.len(),
                        *self == Json::Array(*items),
                        items_view(out@) == items_view(items@).take(i as int),
                    decreases items.len() - i,
                {
                    proof {
                        self.item_is_smaller(i as int);
                    }
                    let ghost before = out@;
                    out.push(items[i].copy());
                    assert(items_view(out@) =~= items_view(before).push(items@[i as int]@));
                    i = i + 1;
                    assert(items_view(items@).take(i as int) =~= items_view(items@).take(
                        i - 1,
                    ).push(items@[i - 1]@));
                }
                assert(items_view(items@).take(i as int) =~= items_view(items@));
                let r = Json::Array(out);
                proof {
                    r.view_of_parts();
                }
                r
            },
            Json::Object(members) => {
                let mut out: Vec<Member> = Vec::new();
                let mut i: usize = 0;
                while i < members.len()
                    invariant
                        i <= members.len(),
                        *self == Json::Object(*members),
                        members_view(out@) == members_view(members@).take(i as int),
                    decreases members.len() - i,
                {
                    proof {
                        self.member_is_smaller(i as int);
                    }
                    let ghost before = out@;
                    out.push(
                        Member { name: members[i].name.clone(), value: members[i].value.copy() },
                    );
                    assert(members_view(out@) =~= members_view(before).push(
                        (members@[i as int].name@, members@[i as int].value@),
                    ));
                    i = i + 1;
                    assert(members_view(members@).take(i as int) =~= members_view(members@).take(
                        i - 1,
                    ).push((members@[i - 1].name@, members@[i - 1].value@)));
                }
                assert(members_view(members@).take(i as int) =~= members_view(members@));
                let r = Json::Object(out);
                proof {
                    r.view_of_parts();
                }
                r
            },
        }
    }

    /// Whether two values are alike.
    pub fn same(&self, other: &Json) -> (r: bool)
        ensures
            r == alike(self@, other@),
        decreases self,
    {
        proof {
            self.view_of_parts();
            other.view_of_parts();
        }
        match (self, other) {
            (Json::Null, Json::Null) => true,
            (Json::Bool(a), Json::Bool(b)) => *a == *b,
            (Json::Number(Number::Unsigned(a)), Json::Number(Number::Unsigned(b))) => *a == *b,
            (Json::Number(Number::Negative(a)), Json::Number(Number::Negative(b))) => *a == *b,
            (Json::Number(Number::Decimal(a)), Json::Number(Number::Decimal(b))) => text::same(
                a.as_str(),
                b.as_str(),
            ) || equal_numbers(a.as_str(), b.as_str()),
            (Json::Text(a), Json::Text(b)) => text::same(a.as_str(), b.as_str()),
            (Json::Array(a), Json::Array(b)) => {
                if a.len() != b.len() {
                    assert(items_view(a@).len() != items_view(b@).len());
                    return false;
                }
                let mut i: usize = 0;
                while i < a.len()
                    invariant
                        i <= a.len(),
                        a.len() == b.len(),
                        *self == Json::Array(*a),
                        *other == Json::Array(*b),
                        self@ == Datum::Array(items_view(a@)),
                        other@ == Datum::Array(items_view(b@)),
                        forall|k: int|
                            0 <= k < i ==> alike(#[trigger] items_view(a@)[k], items_view(b@)[k]),
                    decreases a.len() - i,
                {
                    proof {
                        self.item_is_smaller(i as int);
                    }
                    if !a[i].same(&b[i]) {
                        assert(!alike(items_view(a@)[i as int], items_view(b@)[i as int]));
                        return false;
                    }
                    i = i + 1;
                }
                true
            },
            (Json::Object(a), Json::Object(b)) => {
                if a.len() != b.len() {
                    assert(members_view(a@).len() != members_view(b@).len());
                    return false;
                }
                let mut i: usize = 0;
                while i < a.len()
                    invariant
                        i <= a.len(),
                        a.len() == b.len(),
                        *self == Json::Object(*a),
                        *other == Json::Object(*b),
                        self@ == Datum::Object(members_view(a@)),
                        other@ == Datum::Object(members_view(b@)),
                        forall|k: int|
                            0 <= k < i ==> (#[trigger] members_view(a@)[k]).0 == members_view(b@)[k].0
                                && alike(members_view(a@)[k].1, members_view(b@)[k].1),
                    decreases a.len() - i,
                {
                    proof {
                        self.member_is_smaller(i as int);
                    }
                    if !text::same(a[i].name.as_str(), b[i].name.as_str()) || !a[i].value.same(
                        &b[i].value,
                    ) {
                        assert(members_view(a@)[i as int] == (a@[i as int].name@, a@[i as int].value@));
                        assert(members_view(b@)[i as int] == (b@[i as int].name@, b@[i as int].value@));
                        return false;
                    }
                    i = i + 1;
                }
                true
            },
            _ => false,
        }
    }
}

// ---------------------------------------------------------------------------
// Building and changing objects
// ---------------------------------------------------------------------------

/// The members with that one set: replaced where the name is there, put in its
/// place in the order where it is not.
pub open spec fn set(
    members: Seq<(Seq<char>, Datum)>,
    name: Seq<char>,
    value: Datum,
) -> Seq<(Seq<char>, Datum)>
    decreases members.len(),
{
    if members.len() == 0 {
        seq![(name, value)]
    } else if members.first().0 == name {
        seq![(name, value)] + members.drop_first()
    } else if text::less(name, members.first().0) {
        seq![(name, value)] + members
    } else {
        seq![members.first()] + set(members.drop_first(), name, value)
    }
}

/// Admits the members of every other name.
pub open spec fn other_than(name: Seq<char>) -> spec_fn((Seq<char>, Datum)) -> bool {
    |m: (Seq<char>, Datum)| m.0 != name
}

/// The members without the one of that name.
pub open spec fn unset(
    members: Seq<(Seq<char>, Datum)>,
    name: Seq<char>,
) -> Seq<(Seq<char>, Datum)> {
    members.filter(other_than(name))
}

impl Datum {
    /// The object with that member set.
    pub open spec fn with(self, name: Seq<char>, value: Datum) -> Datum {
        match self {
            Datum::Object(members) => Datum::Object(set(members, name, value)),
            other => other,
        }
    }

    /// The object without that member.
    pub open spec fn without(self, name: Seq<char>) -> Datum {
        match self {
            Datum::Object(members) => Datum::Object(unset(members, name)),
            other => other,
        }
    }

    pub open spec fn empty() -> Datum {
        Datum::Object(Seq::empty())
    }
}

proof fn ordered_tail(members: Seq<(Seq<char>, Datum)>)
    requires
        names_ordered(members),
        members.len() > 0,
    ensures
        names_ordered(members.drop_first()),
{
    let rest = members.drop_first();
    assert forall|i: int, j: int| 0 <= i < j < rest.len() implies text::less(
        (#[trigger] rest[i]).0,
        (#[trigger] rest[j]).0,
    ) by {
        assert(rest[i] == members[i + 1]);
        assert(rest[j] == members[j + 1]);
    }
}

/// What is set is what is read, and every other member stays as it was; the
/// order is kept.
pub proof fn set_is_read_back(
    members: Seq<(Seq<char>, Datum)>,
    name: Seq<char>,
    value: Datum,
    other: Seq<char>,
)
    requires
        names_ordered(members),
    ensures
        lookup(set(members, name, value), name) == Some(value),
        other != name ==> lookup(set(members, name, value), other) == lookup(members, other),
        names_ordered(set(members, name, value)),
    decreases members.len(),
{
    let after = set(members, name, value);
    if members.len() == 0 {
        assert(after.drop_first() =~= Seq::empty());
        assert(lookup(after.drop_first(), other) is None);
        assert(lookup(members, other) is None);
    } else if members.first().0 == name {
        assert(after.drop_first() =~= members.drop_first());
        assert forall|i: int, j: int| 0 <= i < j < after.len() implies text::less(
            (#[trigger] after[i]).0,
            (#[trigger] after[j]).0,
        ) by {
            assert(after[j] == members[j]);
            assert(members[i].0 == after[i].0);
        }
    } else if text::less(name, members.first().0) {
        assert(after.drop_first() =~= members);
        assert forall|i: int, j: int| 0 <= i < j < after.len() implies text::less(
            (#[trigger] after[i]).0,
            (#[trigger] after[j]).0,
        ) by {
            assert(after[j] == members[j - 1]);
            if i > 0 {
                assert(after[i] == members[i - 1]);
            } else if j > 1 {
                text::less_is_transitive(name, members[0].0, members[j - 1].0);
            }
        }
    } else {
        ordered_tail(members);
        set_is_read_back(members.drop_first(), name, value, other);
        set_names(members.drop_first(), name, value);
        let rest = set(members.drop_first(), name, value);
        assert(after.drop_first() =~= rest);
        text::less_is_total(name, members.first().0);
        assert forall|i: int, j: int| 0 <= i < j < after.len() implies text::less(
            (#[trigger] after[i]).0,
            (#[trigger] after[j]).0,
        ) by {
            assert(after[j] == rest[j - 1]);
            if i > 0 {
                assert(after[i] == rest[i - 1]);
            } else if rest[j - 1].0 != name {
                let k = choose|k: int|
                    0 <= k < members.drop_first().len() && members.drop_first()[k].0 == rest[j
                        - 1].0;
                assert(members.drop_first()[k] == members[k + 1]);
            }
        }
    }
}

/// What is set is what is read, whatever the order.
pub proof fn set_is_found(members: Seq<(Seq<char>, Datum)>, name: Seq<char>, value: Datum)
    ensures
        lookup(set(members, name, value), name) == Some(value),
    decreases members.len(),
{
    if members.len() > 0 && members.first().0 != name && !text::less(name, members.first().0) {
        set_is_found(members.drop_first(), name, value);
        assert(set(members, name, value).drop_first() =~= set(
            members.drop_first(),
            name,
            value,
        ));
    }
}

/// Setting one member leaves what is found under another name, whatever the
/// order.
pub proof fn set_keeps_others(
    members: Seq<(Seq<char>, Datum)>,
    name: Seq<char>,
    value: Datum,
    other: Seq<char>,
)
    requires
        other != name,
    ensures
        lookup(set(members, name, value), other) == lookup(members, other),
    decreases members.len(),
{
    let after = set(members, name, value);
    if members.len() == 0 {
        assert(after.drop_first() =~= Seq::empty());
        assert(lookup(after.drop_first(), other) is None);
    } else if members.first().0 == name {
        assert(after.drop_first() =~= members.drop_first());
    } else if text::less(name, members.first().0) {
        assert(after.drop_first() =~= members);
    } else {
        set_keeps_others(members.drop_first(), name, value, other);
        assert(after.drop_first() =~= set(members.drop_first(), name, value));
    }
}

/// An object reads back each member that was set last, and every other one as it
/// was.
pub broadcast proof fn with_is_read_back(
    v: Datum,
    name: Seq<char>,
    value: Datum,
    other: Seq<char>,
)
    requires
        v is Object,
    ensures
        (#[trigger] v.with(name, value).get(other)) == if other == name {
            Some(value)
        } else {
            v.get(other)
        },
        v.with(name, value) is Object,
{
    let members = v->Object_0;
    if other == name {
        set_is_found(members, name, value);
    } else {
        set_keeps_others(members, name, value, other);
    }
}

/// Every name after setting a member is its name or one that was there.
proof fn set_names(members: Seq<(Seq<char>, Datum)>, name: Seq<char>, value: Datum)
    ensures
        forall|j: int|
            0 <= j < set(members, name, value).len() ==> {
                let n = (#[trigger] set(members, name, value)[j]).0;
                n == name || exists|k: int| 0 <= k < members.len() && members[k].0 == n
            },
    decreases members.len(),
{
    let after = set(members, name, value);
    if members.len() == 0 {
    } else if members.first().0 == name || text::less(name, members.first().0) {
        assert forall|j: int| 0 <= j < after.len() implies {
            let n = (#[trigger] after[j]).0;
            n == name || exists|k: int| 0 <= k < members.len() && members[k].0 == n
        } by {
            if j > 0 {
                let k = if members.first().0 == name {
                    j
                } else {
                    j - 1
                };
                assert(after[j] == members[k]);
            }
        }
    } else {
        let tail = members.drop_first();
        set_names(tail, name, value);
        assert forall|j: int| 0 <= j < after.len() implies {
            let n = (#[trigger] after[j]).0;
            n == name || exists|k: int| 0 <= k < members.len() && members[k].0 == n
        } by {
            if j == 0 {
                assert(members[0].0 == after[0].0);
            } else {
                assert(after[j] == set(tail, name, value)[j - 1]);
                if after[j].0 != name {
                    let k = choose|k: int| 0 <= k < tail.len() && tail[k].0 == after[j].0;
                    assert(members[k + 1].0 == after[j].0);
                }
            }
        }
    }
}

/// Sets a member of an object.
pub fn set_member(members: &mut Vec<Member>, name: &str, value: Json)
    ensures
        members_view(final(members)@) == set(members_view(old(members)@), name@, value@),
{
    let ghost all = members_view(members@);
    let ghost v = value@;
    let mut i: usize = 0;
    proof {
        assert(all.take(0) + set(all.skip(0), name@, v) =~= set(all, name@, v)) by {
            assert(all.skip(0) =~= all);
        }
    }
    while i < members.len() && !text::same(members[i].name.as_str(), name) && !text::text_less(
        name,
        members[i].name.as_str(),
    )
        invariant
            i <= members.len(),
            members@ == old(members)@,
            all == members_view(members@),
            all.take(i as int) + set(all.skip(i as int), name@, v) == set(all, name@, v),
        decreases members.len() - i,
    {
        assert(all.skip(i as int).first() == all[i as int]);
        assert(all.skip(i as int).drop_first() =~= all.skip(i + 1));
        assert(all.take(i + 1) + set(all.skip(i + 1), name@, v) =~= all.take(i as int) + (
        seq![all[i as int]] + set(all.skip(i + 1), name@, v)));
        i = i + 1;
    }
    if i < members.len() && text::same(members[i].name.as_str(), name) {
        proof {
            assert(all.skip(i as int).first() == all[i as int]);
            assert(all.take(i as int) + (seq![(name@, v)] + all.skip(i as int).drop_first())
                =~= all.update(i as int, (name@, v)));
        }
        members.set(i, Member { name: name.to_owned(), value });
        assert(members_view(members@) =~= all.update(i as int, (name@, v)));
    } else {
        proof {
            if i < members.len() {
                assert(all.skip(i as int).first() == all[i as int]);
                assert(all.take(i as int) + (seq![(name@, v)] + all.skip(i as int))
                    =~= all.insert(i as int, (name@, v)));
            } else {
                assert(all.skip(i as int) =~= Seq::empty());
                assert(all.take(i as int) + seq![(name@, v)] =~= all.insert(i as int, (name@, v)));
            }
        }
        members.insert(i, Member { name: name.to_owned(), value });
        assert(members_view(members@) =~= all.insert(i as int, (name@, v)));
    }
}

/// The list of these texts.
pub open spec fn text_list(list: Seq<Seq<char>>) -> Datum {
    Datum::Array(list.map_values(|s: Seq<char>| Datum::Text(s)))
}

impl Json {
    pub fn text(s: &str) -> (r: Json)
        ensures
            r@ == Datum::Text(s@),
    {
        Json::Text(s.to_owned())
    }

    pub fn unsigned(n: u64) -> (r: Json)
        ensures
            r@ == Datum::Unsigned(n),
    {
        Json::Number(Number::Unsigned(n))
    }

    /// An object without members.
    pub fn object() -> (r: Json)
        ensures
            r@ == Datum::empty(),
    {
        let r = Json::Object(Vec::new());
        proof {
            r.view_of_parts();
            assert(members_view(r->Object_0@) =~= Seq::empty());
        }
        r
    }

    /// The object with that member set.
    pub fn with(self, name: &str, value: Json) -> (r: Json)
        ensures
            r@ == self@.with(name@, value@),
    {
        proof {
            self.view_of_parts();
        }
        match self {
            Json::Object(members) => {
                let mut members = members;
                set_member(&mut members, name, value);
                let r = Json::Object(members);
                proof {
                    r.view_of_parts();
                }
                r
            },
            other => other,
        }
    }

    /// The list of these texts.
    pub fn texts(list: &Vec<String>) -> (r: Json)
        ensures
            r@ == text_list(text::views(list@)),
    {
        let mut out: Vec<Json> = Vec::new();
        let mut i: usize = 0;
        while i < list.len()
            invariant
                i <= list.len(),
                out.len() == i,
                forall|k: int| 0 <= k < i ==> (#[trigger] out@[k])@ == Datum::Text(list@[k]@),
            decreases list.len() - i,
        {
            out.push(Json::Text(list[i].clone()));
            i = i + 1;
        }
        let r = Json::Array(out);
        proof {
            r.view_of_parts();
            assert(items_view(out@) =~= text::views(list@).map_values(
                |s: Seq<char>| Datum::Text(s),
            ));
        }
        r
    }

    /// The text, or null where there is none.
    pub fn text_or_null(s: &Option<String>) -> (r: Json)
        ensures
            r@ == match s {
                Some(own) => Datum::Text(own@),
                None => Datum::Null,
            },
    {
        match s {
            Some(own) => Json::Text(own.clone()),
            None => Json::Null,
        }
    }
}

// ---------------------------------------------------------------------------
// Writing
// ---------------------------------------------------------------------------

pub open spec fn hex_digit(n: nat) -> char {
    if n < 10 {
        (('0' as u32 + n) as u32) as char
    } else {
        (('a' as u32 + (n - 10)) as u32) as char
    }
}

/// A character as it stands inside a JSON string.
pub open spec fn escaped(c: char) -> Seq<char> {
    let n = c as u32;
    if c == '"' {
        seq!['\\', '"']
    } else if c == '\\' {
        seq!['\\', '\\']
    } else if n == 0x08 {
        seq!['\\', 'b']
    } else if n == 0x09 {
        seq!['\\', 't']
    } else if n == 0x0a {
        seq!['\\', 'n']
    } else if n == 0x0c {
        seq!['\\', 'f']
    } else if n == 0x0d {
        seq!['\\', 'r']
    } else if n < 0x20 {
        seq!['\\', 'u', '0', '0', hex_digit((n / 16) as nat), hex_digit((n % 16) as nat)]
    } else {
        seq![c]
    }
}

pub open spec fn escaped_text(s: Seq<char>) -> Seq<char>
    decreases s.len(),
{
    if s.len() == 0 {
        Seq::empty()
    } else {
        escaped_text(s.drop_last()) + escaped(s.last())
    }
}

/// The JSON string literal of a text.
pub open spec fn quoted(s: Seq<char>) -> Seq<char> {
    seq!['"'] + escaped_text(s) + seq!['"']
}

impl Datum {
    /// The compact JSON text of a value.
    pub open spec fn written(self) -> Seq<char>
        decreases self,
    {
        match self {
            Datum::Null => seq!['n', 'u', 'l', 'l'],
            Datum::Bool(true) => seq!['t', 'r', 'u', 'e'],
            Datum::Bool(false) => seq!['f', 'a', 'l', 's', 'e'],
            Datum::Unsigned(n) => text::decimal(n as nat),
            Datum::Negative(n) => seq!['-'] + text::decimal(if n < 0 {
                (-n) as nat
            } else {
                0
            }),
            Datum::Decimal(s) => s,
            Datum::Text(s) => quoted(s),
            Datum::Array(items) => seq!['['] + written_items(items) + seq![']'],
            Datum::Object(members) => seq!['{'] + written_members(members) + seq!['}'],
        }
    }
}

/// The items of an array, with commas between them.
pub open spec fn written_items(items: Seq<Datum>) -> Seq<char>
    decreases items,
{
    if items.len() == 0 {
        Seq::empty()
    } else if items.len() == 1 {
        items[0].written()
    } else {
        written_items(items.drop_last()) + seq![','] + items.last().written()
    }
}

pub open spec fn written_member(member: (Seq<char>, Datum)) -> Seq<char>
    decreases member,
{
    quoted(member.0) + seq![':'] + member.1.written()
}

/// The members of an object, with commas between them.
pub open spec fn written_members(members: Seq<(Seq<char>, Datum)>) -> Seq<char>
    decreases members,
{
    if members.len() == 0 {
        Seq::empty()
    } else if members.len() == 1 {
        written_member(members[0])
    } else {
        written_members(members.drop_last()) + seq![','] + written_member(members.last())
    }
}

fn hex_char(n: u32) -> (c: char)
    requires
        n < 16,
    ensures
        c == hex_digit(n as nat),
{
    if n == 0 {
        '0'
    } else if n == 1 {
        '1'
    } else if n == 2 {
        '2'
    } else if n == 3 {
        '3'
    } else if n == 4 {
        '4'
    } else if n == 5 {
        '5'
    } else if n == 6 {
        '6'
    } else if n == 7 {
        '7'
    } else if n == 8 {
        '8'
    } else if n == 9 {
        '9'
    } else if n == 10 {
        'a'
    } else if n == 11 {
        'b'
    } else if n == 12 {
        'c'
    } else if n == 13 {
        'd'
    } else if n == 14 {
        'e'
    } else {
        'f'
    }
}

fn write_char(c: char, out: &mut String)
    ensures
        final(out)@ == old(out)@ + escaped(c),
{
    let n: u32 = c as u32;
    let ghost before = out@;
    if c == '"' {
        out.push('\\');
        out.push('"');
    } else if c == '\\' {
        out.push('\\');
        out.push('\\');
    } else if n == 0x08 {
        out.push('\\');
        out.push('b');
    } else if n == 0x09 {
        out.push('\\');
        out.push('t');
    } else if n == 0x0a {
        out.push('\\');
        out.push('n');
    } else if n == 0x0c {
        out.push('\\');
        out.push('f');
    } else if n == 0x0d {
        out.push('\\');
        out.push('r');
    } else if n < 0x20 {
        out.push('\\');
        out.push('u');
        out.push('0');
        out.push('0');
        out.push(hex_char(n / 16));
        out.push(hex_char(n % 16));
    } else {
        out.push(c);
    }
    assert(out@ =~= before + escaped(c));
}

/// Writes the JSON string literal of a text.
pub fn write_quoted(s: &str, out: &mut String)
    ensures
        final(out)@ == old(out)@ + quoted(s@),
{
    let v = text::chars_of(s);
    let ghost before = out@;
    out.push('"');
    let mut i: usize = 0;
    proof {
        assert(s@.take(0) =~= Seq::empty());
        assert(out@ =~= before + (seq!['"'] + escaped_text(s@.take(0))));
    }
    while i < v.len()
        invariant
            i <= v.len(),
            v@ == s@,
            out@ == before + (seq!['"'] + escaped_text(s@.take(i as int))),
        decreases v.len() - i,
    {
        write_char(v[i], out);
        i = i + 1;
        proof {
            assert(s@.take(i as int).drop_last() =~= s@.take(i - 1));
            assert(s@.take(i as int).last() == s@[i - 1]);
            assert(out@ =~= before + (seq!['"'] + escaped_text(s@.take(i as int))));
        }
    }
    out.push('"');
    proof {
        assert(s@.take(i as int) =~= s@);
        assert(out@ =~= before + quoted(s@));
    }
}

impl Json {
    /// Writes the compact JSON text of this value.
    pub fn write(&self, out: &mut String)
        ensures
            final(out)@ == old(out)@ + self@.written(),
        decreases self,
    {
        let ghost before = out@;
        proof {
            self.view_of_parts();
        }
        match self {
            Json::Null => {
                out.push('n');
                out.push('u');
                out.push('l');
                out.push('l');
                assert(out@ =~= before + self@.written());
            },
            Json::Bool(b) => {
                if *b {
                    out.push('t');
                    out.push('r');
                    out.push('u');
                    out.push('e');
                } else {
                    out.push('f');
                    out.push('a');
                    out.push('l');
                    out.push('s');
                    out.push('e');
                }
                assert(out@ =~= before + self@.written());
            },
            Json::Number(Number::Unsigned(n)) => {
                let numeral = text::decimal_text(*n);
                out.append(numeral.as_str());
            },
            Json::Number(Number::Negative(n)) => {
                out.push('-');
                let numeral = text::decimal_text(magnitude(*n));
                out.append(numeral.as_str());
                assert(out@ =~= before + self@.written());
            },
            Json::Number(Number::Decimal(s)) => {
                out.append(s.as_str());
            },
            Json::Text(s) => {
                write_quoted(s.as_str(), out);
            },
            Json::Array(items) => {
                out.push('[');
                let mut i: usize = 0;
                let ghost all = items_view(items@);
                proof {
                    assert(all.take(0) =~= Seq::empty());
                    assert(out@ =~= before + (seq!['['] + written_items(all.take(0))));
                }
                while i < items.len()
                    invariant
                        i <= items.len(),
                        *self == Json::Array(*items),
                        all == items_view(items@),
                        out@ == before + (seq!['['] + written_items(all.take(i as int))),
                    decreases items.len() - i,
                {
                    if i > 0 {
                        out.push(',');
                    }
                    proof {
                        self.item_is_smaller(i as int);
                    }
                    items[i].write(out);
                    i = i + 1;
                    proof {
                        let now = all.take(i as int);
                        assert(now.drop_last() =~= all.take(i - 1));
                        assert(now.last() == items@[i - 1]@);
                        if i == 1 {
                            assert(written_items(all.take(0)) =~= Seq::empty());
                        }
                        assert(out@ =~= before + (seq!['['] + written_items(now)));
                    }
                }
                out.push(']');
                proof {
                    assert(all.take(i as int) =~= all);
                    assert(out@ =~= before + self@.written());
                }
            },
            Json::Object(members) => {
                out.push('{');
                let mut i: usize = 0;
                let ghost all = members_view(members@);
                proof {
                    assert(all.take(0) =~= Seq::empty());
                    assert(out@ =~= before + (seq!['{'] + written_members(all.take(0))));
                }
                while i < members.len()
                    invariant
                        i <= members.len(),
                        *self == Json::Object(*members),
                        all == members_view(members@),
                        out@ == before + (seq!['{'] + written_members(all.take(i as int))),
                    decreases members.len() - i,
                {
                    if i > 0 {
                        out.push(',');
                    }
                    write_quoted(members[i].name.as_str(), out);
                    out.push(':');
                    proof {
                        self.member_is_smaller(i as int);
                    }
                    members[i].value.write(out);
                    i = i + 1;
                    proof {
                        let now = all.take(i as int);
                        assert(now.drop_last() =~= all.take(i - 1));
                        assert(now.last() == (members@[i - 1].name@, members@[i - 1].value@));
                        assert(written_member(now.last()) == quoted(now.last().0) + seq![':']
                            + now.last().1.written());
                        if i == 1 {
                            assert(written_members(all.take(0)) =~= Seq::empty());
                            assert(now[0] == now.last());
                        }
                        assert(out@ =~= before + (seq!['{'] + written_members(now)));
                    }
                }
                out.push('}');
                proof {
                    assert(all.take(i as int) =~= all);
                    assert(out@ =~= before + self@.written());
                }
            },
        }
    }

    /// The compact JSON text of this value.
    pub fn to_text(&self) -> (s: String)
        ensures
            s@ == self@.written(),
    {
        let mut s = String::new();
        self.write(&mut s);
        assert(s@ =~= self@.written());
        s
    }
}

/// The distance of a number below zero from zero.
fn magnitude(n: i64) -> (m: u64)
    ensures
        m == if n < 0 {
            -n
        } else {
            0
        },
{
    if n == i64::MIN {
        0x8000_0000_0000_0000
    } else if n < 0 {
        (-n) as u64
    } else {
        0
    }
}

// ---------------------------------------------------------------------------
// What values come to
// ---------------------------------------------------------------------------

/// A name is found exactly where a member has it, and the first such member is.
pub proof fn the_first_member_is_found(members: Seq<(Seq<char>, Datum)>, name: Seq<char>, i: int)
    requires
        0 <= i < members.len(),
        members[i].0 == name,
        forall|k: int| 0 <= k < i ==> (#[trigger] members[k]).0 != name,
    ensures
        Datum::Object(members).get(name) == Some(members[i].1),
        Datum::Object(members).at(name) == members[i].1,
        Datum::Object(members).has(name),
    decreases members.len(),
{
    if i > 0 {
        let rest = members.drop_first();
        assert(members[0] == members.first());
        assert forall|k: int| 0 <= k < i - 1 implies (#[trigger] rest[k]).0 != name by {
            assert(rest[k] == members[k + 1]);
        }
        the_first_member_is_found(rest, name, i - 1);
    }
}

/// What is read as a text or as a number is one, and nothing else is.
pub proof fn readings_keep_the_value(v: Datum, s: Seq<char>, n: u64)
    ensures
        v.as_text() == Some(s) <==> v == Datum::Text(s),
        v.as_u64() == Some(n) <==> v == Datum::Unsigned(n),
        v.as_text() is None <==> !(v is Text),
        v.as_u64() is None <==> !(v is Unsigned),
{
    if v is Text {
        assert(v == Datum::Text(v->Text_0));
    }
}

/// An escape holds no control character, and no quote or backslash that is not escaped.
pub proof fn escapes_are_safe(c: char)
    ensures
        forall|i: int| 0 <= i < escaped(c).len() ==> (#[trigger] escaped(c)[i]) as u32 >= 0x20,
        escaped(c).len() == 1 ==> escaped(c)[0] == c && c != '"' && c != '\\' && c as u32 >= 0x20,
        escaped(c).len() > 1 ==> escaped(c)[0] == '\\' && (escaped(c).len() == 2 || (
        escaped(c).len() == 6 && escaped(c)[1] == 'u')),
        c == '"' || c == '\\' ==> escaped(c).len() == 2 && escaped(c)[1] == c,
        c == '\n' ==> escaped(c)[1] == 'n' && escaped(c).len() == 2,
        c == '\t' ==> escaped(c)[1] == 't' && escaped(c).len() == 2,
        c == '\r' ==> escaped(c)[1] == 'r' && escaped(c).len() == 2,
{
}

/// Values are written as JSON: lists in brackets, objects in braces, with a comma between
/// two and a colon behind a name; texts in quotes, numbers in digits.
pub proof fn values_are_written_as_json(
    items: Seq<Datum>,
    item: Datum,
    members: Seq<(Seq<char>, Datum)>,
    name: Seq<char>,
    n: u64,
)
    ensures
        Datum::Null.written() == seq!['n', 'u', 'l', 'l'],
        Datum::Bool(true).written() == seq!['t', 'r', 'u', 'e'],
        Datum::Bool(false).written() == seq!['f', 'a', 'l', 's', 'e'],
        Datum::Unsigned(n).written() == text::decimal(n as nat),
        Datum::Array(items).written() == seq!['['] + written_items(items) + seq![']'],
        Datum::Object(members).written() == seq!['{'] + written_members(members) + seq!['}'],
        items.len() > 0 ==> written_items(items.push(item)) == written_items(items) + seq![',']
            + item.written(),
        members.len() > 0 ==> written_members(members.push((name, item))) == written_members(
            members,
        ) + seq![','] + quoted(name) + seq![':'] + item.written(),
        quoted(name)[0] == '"' && quoted(name).last() == '"',
{
    reveal_with_fuel(Datum::written, 2);
    reveal_with_fuel(written_items, 2);
    reveal_with_fuel(written_members, 2);
    reveal_with_fuel(written_member, 2);
    assert(items.push(item).drop_last() =~= items);
    assert(members.push((name, item)).drop_last() =~= members);
    if members.len() > 0 {
        assert(written_members(members) + seq![','] + (quoted(name) + seq![':'] + item.written())
            =~= written_members(members) + seq![','] + quoted(name) + seq![':'] + item.written());
    }
}

/// Texts, whole numbers and truth values are alike only where they are equal; lists only
/// where they are as long and alike item by item.
pub proof fn alike_values_agree(v: Datum, w: Datum, i: int)
    requires
        alike(v, w),
    ensures
        v is Text || v is Unsigned || v is Negative || v is Bool || v is Null ==> w == v,
        v is Array ==> w is Array && v->Array_0.len() == w->Array_0.len(),
        v is Array && 0 <= i < v->Array_0.len() ==> alike(v->Array_0[i], w->Array_0[i]),
        v is Object ==> w is Object && v->Object_0.len() == w->Object_0.len(),
        v is Object && 0 <= i < v->Object_0.len() ==> v->Object_0[i].0 == w->Object_0[i].0
            && alike(v->Object_0[i].1, w->Object_0[i].1),
{
    reveal_with_fuel(alike, 2);
    if v is Array && 0 <= i < v->Array_0.len() {
        let a = v->Array_0;
        assert(alike(a[i], w->Array_0[i]));
    }
    if v is Object && 0 <= i < v->Object_0.len() {
        let a = v->Object_0;
        assert(a[i].0 == w->Object_0[i].0);
    }
}

} // verus!
