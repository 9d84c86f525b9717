//! What the library takes from the cognitive memory engine: digests of JSON
//! values, instants, element identities and the engine's own principals.

use vstd::prelude::*;

use crate::json::{Datum, Json, Number};
use crate::text;

verus! {

/// The greatest integer that every JSON reader keeps exactly.
pub const MAX_SAFE_INTEGER: u64 = 9_007_199_254_740_991;

// ---------------------------------------------------------------------------
// Digests
// ---------------------------------------------------------------------------

pub open spec fn is_lower_hex(c: char) -> bool {
    '0' <= c <= '9' || 'a' <= c <= 'f'
}

/// Sixty-four lower-case hexadecimal digits.
pub open spec fn is_hex64(s: Seq<char>) -> bool {
    s.len() == 64 && forall|i: int| 0 <= i < 64 ==> is_lower_hex(#[trigger] s[i])
}

/// A digest: the algorithm's name and its hexadecimal digits.
pub open spec fn is_digest(s: Seq<char>) -> bool {
    text::is_prefix("sha256:"@, s) && is_hex64(s.skip("sha256:"@.len() as int))
}

/// A value whose digest exists: only integers that every reader keeps, and no
/// more than `depth` levels of nesting.
pub open spec fn portable(v: Datum, depth: nat) -> bool
    decreases v,
{
    match v {
        Datum::Null => true,
        Datum::Bool(_) => true,
        Datum::Text(_) => true,
        Datum::Unsigned(n) => n <= MAX_SAFE_INTEGER,
        Datum::Array(items) => depth > 0 && forall|i: int|
            0 <= i < items.len() ==> portable(#[trigger] items[i], (depth - 1) as nat),
        Datum::Object(members) => depth > 0 && forall|i: int|
            0 <= i < members.len() ==> portable((#[trigger] members[i]).1, (depth - 1) as nat),
        _ => false,
    }
}

/// The digest of a value, or the words of the error that there is none.
pub uninterp spec fn digested(v: Datum) -> Result<Seq<char>, Seq<char>>;

/// The digest of a value, where it has one.
pub open spec fn digest_of(v: Datum) -> Option<Seq<char>> {
    match digested(v) {
        Ok(digest) => Some(digest),
        Err(_) => None,
    }
}

/// `anda_cognitive_nexus::content_digest`. The digest, or the words of the error, is
/// a function of the value; a digest is the name of the algorithm and sixty-four
/// lower-case hexadecimal digits; there is one for every portable value of at most a
/// hundred levels.
#[verifier::external_body]
pub(crate) fn content_digest(value: &Json) -> (r: Result<String, String>)
    ensures
        match r {
            Ok(d) => digested(value@) == Ok::<Seq<char>, Seq<char>>(d@) && is_digest(d@),
            Err(e) => digested(value@) == Err::<Seq<char>, Seq<char>>(e@),
        },
        portable(value@, 100) ==> r is Ok,
{
    anda_cognitive_nexus::content_digest(&outside(value)?).map_err(|e| e.to_string())
}

/// Converts a number to a `serde_json::Value`, or gives the words of the error where
/// it has a spelling that `serde_json::Number` does not read.
#[verifier::external_body]
fn outside_number(number: &Number) -> Result<serde_json::Value, String> {
    Ok(match number {
        Number::Unsigned(n) => (*n).into(),
        Number::Negative(n) => (*n).into(),
        Number::Decimal(s) => s.parse::<serde_json::Number>().map_err(|e| e.to_string())?.into(),
    })
}

/// Converts a value to a `serde_json::Value`, member by member, or gives the error of
/// the first number that is not converted.
#[verifier::external_body]
pub(crate) fn outside(value: &Json) -> Result<serde_json::Value, String> {
    Ok(match value {
        Json::Null => serde_json::Value::Null,
        Json::Bool(b) => (*b).into(),
        Json::Number(n) => outside_number(n)?,
        Json::Text(s) => s.clone().into(),
        Json::Array(items) => items.iter().map(outside).collect::<Result<Vec<_>, String>>()?.into(),
        Json::Object(members) => members.iter()
            .map(|m| Ok((m.name.clone(), outside(&m.value)?)))
            .collect::<Result<serde_json::Map<_, _>, String>>()?.into(),
    })
}

#[verifier::external_type_specification]
#[verifier::external_body]
pub struct ExJsonValue(serde_json::Value);

/// The hexadecimal digits of a digest.
pub open spec fn digest_digits(digest: Seq<char>) -> Seq<char> {
    digest.skip("sha256:"@.len() as int)
}

/// The digits of the digest of a value.
pub open spec fn digits_of(v: Datum) -> Option<Seq<char>> {
    match digest_of(v) {
        Some(d) => Some(digest_digits(d)),
        None => None,
    }
}

/// Setting a portable member keeps an object portable.
pub proof fn a_member_keeps_portable(v: Datum, name: Seq<char>, member: Datum, depth: nat)
    requires
        v is Object,
        portable(v, depth),
        depth > 0,
        portable(member, (depth - 1) as nat),
    ensures
        portable(v.with(name, member), depth),
        v.with(name, member) is Object,
{
    let members = v->Object_0;
    set_keeps_portable(members, name, member, (depth - 1) as nat);
}

proof fn set_keeps_portable(
    members: Seq<(Seq<char>, Datum)>,
    name: Seq<char>,
    member: Datum,
    depth: nat,
)
    requires
        portable(member, depth),
        forall|i: int| 0 <= i < members.len() ==> portable((#[trigger] members[i]).1, depth),
    ensures
        forall|i: int|
            0 <= i < crate::json::set(members, name, member).len() ==> portable(
                (#[trigger] crate::json::set(members, name, member)[i]).1,
                depth,
            ),
    decreases members.len(),
{
    let after = crate::json::set(members, name, member);
    if members.len() == 0 {
    } else if members.first().0 == name {
        assert forall|i: int| 0 <= i < after.len() implies portable((#[trigger] after[i]).1, depth) by {
            if i > 0 {
                assert(after[i] == members[i]);
            }
        }
    } else if text::less(name, members.first().0) {
        assert forall|i: int| 0 <= i < after.len() implies portable((#[trigger] after[i]).1, depth) by {
            if i > 0 {
                assert(after[i] == members[i - 1]);
            }
        }
    } else {
        let rest = members.drop_first();
        assert forall|i: int| 0 <= i < rest.len() implies portable((#[trigger] rest[i]).1, depth) by {
            assert(rest[i] == members[i + 1]);
        }
        set_keeps_portable(rest, name, member, depth);
        assert forall|i: int| 0 <= i < after.len() implies portable((#[trigger] after[i]).1, depth) by {
            if i > 0 {
                assert(after[i] == crate::json::set(rest, name, member)[i - 1]);
            } else {
                assert(after[0] == members[0]);
            }
        }
    }
}

/// An object of two texts is portable.
pub proof fn two_texts_are_portable(a: Seq<char>, x: Seq<char>, b: Seq<char>, y: Seq<char>)
    ensures
        portable(Datum::empty().with(a, Datum::Text(x)).with(b, Datum::Text(y)), 100),
{
    a_member_keeps_portable(Datum::empty(), a, Datum::Text(x), 100);
    a_member_keeps_portable(Datum::empty().with(a, Datum::Text(x)), b, Datum::Text(y), 100);
}

/// What is portable with little nesting is portable with more.
pub proof fn portable_with_more_room(v: Datum, depth: nat, more: nat)
    requires
        portable(v, depth),
        depth <= more,
    ensures
        portable(v, more),
    decreases v,
{
    match v {
        Datum::Array(items) => {
            assert forall|i: int| 0 <= i < items.len() implies portable(
                #[trigger] items[i],
                (more - 1) as nat,
            ) by {
                portable_with_more_room(items[i], (depth - 1) as nat, (more - 1) as nat);
            }
        },
        Datum::Object(members) => {
            assert forall|i: int| 0 <= i < members.len() implies portable(
                (#[trigger] members[i]).1,
                (more - 1) as nat,
            ) by {
                portable_with_more_room(members[i].1, (depth - 1) as nat, (more - 1) as nat);
            }
        },
        _ => {},
    }
}

/// A portable value is equal to whatever is alike.
pub proof fn alike_portable_is_equal(v: Datum, w: Datum, depth: nat)
    requires
        portable(w, depth),
    ensures
        crate::json::alike(v, w) <==> v == w,
{
    portable_is_integral(w, depth);
    crate::json::alike_integral_is_equal(v, w);
}

proof fn portable_is_integral(v: Datum, depth: nat)
    requires
        portable(v, depth),
    ensures
        crate::json::integral(v),
    decreases v,
{
    match v {
        Datum::Array(items) => {
            assert forall|i: int| 0 <= i < items.len() implies crate::json::integral(
                #[trigger] items[i],
            ) by {
                portable_is_integral(items[i], (depth - 1) as nat);
            }
        },
        Datum::Object(members) => {
            assert forall|i: int| 0 <= i < members.len() implies crate::json::integral(
                (#[trigger] members[i]).1,
            ) by {
                portable_is_integral(members[i].1, (depth - 1) as nat);
            }
        },
        _ => {},
    }
}

/// Sets a portable member of a portable object.
pub(crate) fn put(object: Json, name: &str, member: Json, Ghost(depth): Ghost<nat>) -> (r: Json)
    requires
        object@ is Object,
        depth > 0,
        portable(object@, depth),
        portable(member@, (depth - 1) as nat),
    ensures
        r@ == object@.with(name@, member@),
        r@ is Object,
        portable(r@, depth),
{
    proof {
        a_member_keeps_portable(object@, name@, member@, depth);
    }
    object.with(name, member)
}

/// The digest of a portable value.
pub fn json_digest(value: &Json) -> (d: String)
    requires
        portable(value@, 100),
    ensures
        digest_of(value@) == Some(d@),
        is_digest(d@),
{
    match content_digest(value) {
        Ok(d) => d,
        Err(_) => {
            assert(false);
            String::new()
        },
    }
}

/// The digits of the digest of a portable value.
pub fn json_digits(value: &Json) -> (d: String)
    requires
        portable(value@, 100),
    ensures
        digits_of(value@) == Some(d@),
        is_hex64(d@),
{
    let digest = json_digest(value);
    match text::strip_prefix(digest.as_str(), "sha256:") {
        Some(rest) => rest.to_owned(),
        None => {
            assert(false);
            String::new()
        },
    }
}

/// Whether a text is a digest.
pub fn digest_valid(value: &str) -> (r: bool)
    ensures
        r == is_digest(value@),
{
    let rest = match text::strip_prefix(value, "sha256:") {
        Some(rest) => rest,
        None => return false,
    };
    let v = text::chars_of(rest);
    if v.len() != 64 {
        return false;
    }
    let mut i: usize = 0;
    while i < v.len()
        invariant
            i <= v.len(),
            v@ == rest@,
            v.len() == 64,
            text::is_prefix("sha256:"@, value@),
            rest@ == value@.skip("sha256:"@.len() as int),
            forall|k: int| 0 <= k < i ==> is_lower_hex(#[trigger] rest@[k]),
        decreases v.len() - i,
    {
        let c = v[i];
        if !(('0' <= c && c <= '9') || ('a' <= c && c <= 'f')) {
            assert(!is_lower_hex(rest@[i as int]));
            return false;
        }
        i = i + 1;
    }
    true
}

// ---------------------------------------------------------------------------
// Instants
// ---------------------------------------------------------------------------

/// The Unix milliseconds of a canonical timestamp, where the text is one.
pub uninterp spec fn instant_of(timestamp: Seq<char>) -> Option<i64>;

/// `anda_cognitive_nexus::time::parse`: reads a canonical UTC timestamp with
/// exactly three fractional digits; the result is a function of the text.
#[verifier::external_body]
fn parse_instant(timestamp: &str) -> (r: Option<i64>)
    ensures
        r == instant_of(timestamp@),
{
    anda_cognitive_nexus::time::parse(timestamp).ok().map(|at| at.timestamp_millis())
}

/// The Unix milliseconds of a timestamp that does not lie before 1970.
pub open spec fn millis_of(timestamp: Seq<char>) -> Option<u64> {
    match instant_of(timestamp) {
        Some(ms) => if ms >= 0 {
            Some(ms as u64)
        } else {
            None
        },
        None => None,
    }
}

pub fn time_ms(value: &str) -> (r: Option<u64>)
    ensures
        r == millis_of(value@),
{
    match parse_instant(value) {
        Some(ms) => if ms >= 0 {
            Some(ms as u64)
        } else {
            None
        },
        None => None,
    }
}

// ---------------------------------------------------------------------------
// Identities
// ---------------------------------------------------------------------------

pub open spec fn is_kind_tag(c: char) -> bool {
    c == 'C' || c == 'P' || c == 'A' || c == 'E' || c == 'X'
}

/// An element identity: a kind tag, a hyphen and a 64-bit decimal number in
/// its only spelling.
pub open spec fn is_element(id: Seq<char>) -> bool {
    &&& id.len() > 2
    &&& is_kind_tag(id[0])
    &&& id[1] == '-'
    &&& text::all_digits(id.skip(2))
    &&& id.len() > 3 ==> id[2] != '0'
    &&& text::numeral_value(id.skip(2)) <= u64::MAX
}

/// `anda_cognitive_nexus::ElementId::from_str` accepts exactly the element
/// identities: a kind tag, a hyphen and a decimal number that fits 64 bits and
/// has no leading zero.
#[verifier::external_body]
pub(crate) fn element_id_valid(id: &str) -> (r: bool)
    ensures
        r == is_element(id@),
{
    id.parse::<anda_cognitive_nexus::ElementId>().is_ok()
}

/// The principal that the engine itself acts as.
pub const SYSTEM_PRINCIPAL: &'static str = "kip:principal:system";

/// The principal of a caller that has not authenticated.
pub const ANONYMOUS_PRINCIPAL: &'static str = "kip:principal:anonymous";

/// A bounded principal that names an authenticated party.
pub open spec fn is_principal(value: Seq<char>) -> bool {
    &&& text::is_prefix("kip:principal:"@, value)
    &&& text::utf8_len(value) <= 256
    &&& value != SYSTEM_PRINCIPAL@
    &&& value != ANONYMOUS_PRINCIPAL@
}

pub fn principal_valid(value: &str) -> (r: bool)
    ensures
        r == is_principal(value@),
{
    text::starts_with(value, "kip:principal:") && text::byte_len(value) <= 256 && !text::same(
        value,
        SYSTEM_PRINCIPAL,
    ) && !text::same(value, ANONYMOUS_PRINCIPAL)
}

/// An element is known by its kind's letter, a dash and a number without leading zeros.
pub proof fn elements_are_known_by_their_identity(id: Seq<char>)
    ensures
        is_element(id) ==> {
            &&& id.len() > 2
            &&& id[0] == 'C' || id[0] == 'P' || id[0] == 'A' || id[0] == 'E' || id[0] == 'X'
            &&& id[1] == '-'
            &&& forall|i: int| 2 <= i < id.len() ==> '0' <= #[trigger] id[i] <= '9'
            &&& id[2] == '0' ==> id.len() == 3
        },
{
    if is_element(id) {
        assert forall|i: int| 2 <= i < id.len() implies '0' <= #[trigger] id[i] <= '9' by {
            assert(id.skip(2)[i - 2] == id[i]);
        }
    }
}

/// A digest is `sha256:` and sixty-four lower hexadecimal digits.
pub proof fn digests_are_sixty_four_digits(s: Seq<char>)
    ensures
        is_digest(s) ==> s.len() == 71 && s.take(7) == "sha256:"@ && forall|i: int|
            7 <= i < 71 ==> '0' <= #[trigger] s[i] <= '9' || 'a' <= s[i] <= 'f',
{
    reveal_strlit("sha256:");
    if is_digest(s) {
        assert("sha256:"@.len() == 7);
        assert(s.take(7) =~= "sha256:"@);
        let digits = s.skip(7);
        assert forall|i: int| 7 <= i < 71 implies '0' <= #[trigger] s[i] <= '9' || 'a' <= s[i]
            <= 'f' by {
            assert(is_lower_hex(digits[i - 7]));
        }
    }
}

/// A principal is named under its prefix, within two hundred and fifty-six bytes, and is
/// neither the system nor nobody.
pub proof fn principals_are_somebody(value: Seq<char>)
    ensures
        is_principal(value) <==> {
            &&& text::is_prefix("kip:principal:"@, value)
            &&& text::utf8_len(value) < 257
            &&& value != "kip:principal:system"@
            &&& value != "kip:principal:anonymous"@
        },
{
}

/// A time counts from the epoch on; an earlier one, or what is no time, is none.
pub proof fn times_count_from_the_epoch(timestamp: Seq<char>)
    ensures
        millis_of(timestamp) matches Some(ms) ==> instant_of(timestamp) is Some && instant_of(
            timestamp,
        )->0 == ms,
        instant_of(timestamp) is None || instant_of(timestamp)->0 < 0 <==> millis_of(timestamp)
            is None,
{
}

/// What is portable has whole numbers only, within what a double holds exactly, and is no
/// deeper than permitted.
pub proof fn portable_values_are_exact(v: Datum, depth: nat, n: u64)
    ensures
        portable(Datum::Unsigned(n), depth) <==> n <= 9_007_199_254_740_991,
        v is Negative || v is Decimal ==> !portable(v, depth),
        v is Array || v is Object ==> !portable(v, 0),
        v is Text || v is Bool || v is Null ==> portable(v, depth),
{
}

} // verus!
