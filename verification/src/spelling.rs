//! No two JSON values are written alike: the compact text of a value tells which
//! value it is, and where it ends.

use vstd::prelude::*;

use crate::json::{self, Datum};
use crate::text;

verus! {

/// A character of a number.
pub open spec fn is_number_char(c: char) -> bool {
    text::is_digit(c) || c == '-' || c == '+' || c == '.' || c == 'e' || c == 'E'
}

/// The spelling of a number that is no 64-bit integer.
pub open spec fn spells_other_number(s: Seq<char>) -> bool {
    &&& s.len() > 0
    &&& text::is_digit(s[0]) || s[0] == '-'
    &&& forall|i: int| 0 <= i < s.len() ==> is_number_char(#[trigger] s[i])
    &&& forall|n: u64| s != #[trigger] Datum::Unsigned(n).written()
    &&& forall|n: i64| n < 0 ==> s != #[trigger] Datum::Negative(n).written()
}

/// Each number is held in the one form that it has, here and in every value
/// inside.
pub open spec fn legible(v: Datum) -> bool
    decreases v,
{
    match v {
        Datum::Negative(n) => n < 0,
        Datum::Decimal(s) => spells_other_number(s),
        Datum::Array(items) => forall|i: int| 0 <= i < items.len() ==> legible(#[trigger] items[i]),
        Datum::Object(members) => forall|i: int|
            0 <= i < members.len() ==> legible((#[trigger] members[i]).1),
        _ => true,
    }
}

/// Setting a legible member keeps an object legible.
pub broadcast proof fn a_member_keeps_legible(v: Datum, name: Seq<char>, member: Datum)
    requires
        legible(v),
        legible(member),
    ensures
        legible(#[trigger] v.with(name, member)),
{
    if let Datum::Object(members) = v {
        set_keeps_legible(members, name, member);
    }
}

proof fn set_keeps_legible(members: Seq<(Seq<char>, Datum)>, name: Seq<char>, member: Datum)
    requires
        legible(member),
        forall|i: int| 0 <= i < members.len() ==> legible((#[trigger] members[i]).1),
    ensures
        forall|i: int|
            0 <= i < json::set(members, name, member).len() ==> legible(
                (#[trigger] json::set(members, name, member)[i]).1,
            ),
    decreases members.len(),
{
    let after = json::set(members, name, member);
    let rest = members.drop_first();
    if members.len() > 0 {
        assert forall|i: int| 0 <= i < rest.len() implies legible((#[trigger] rest[i]).1) by {
            assert(rest[i] == members[i + 1]);
        }
        set_keeps_legible(rest, name, member);
    }
    assert forall|i: int| 0 <= i < after.len() implies legible((#[trigger] after[i]).1) by {
        if members.len() == 0 {
        } else if members.first().0 == name {
            if i > 0 {
                assert(after[i] == members[i]);
            }
        } else if text::less(name, members.first().0) {
            if i > 0 {
                assert(after[i] == members[i - 1]);
            }
        } else if i > 0 {
            assert(after[i] == json::set(rest, name, member)[i - 1]);
        } else {
            assert(after[0] == members[0]);
        }
    }
}

/// Nothing, or what stands behind a value inside another one.
pub open spec fn is_behind(x: Seq<char>) -> bool {
    x.len() == 0 || x[0] == ',' || x[0] == ']' || x[0] == '}'
}

proof fn cut(s: Seq<char>, x: Seq<char>, t: Seq<char>, y: Seq<char>)
    requires
        s + x == t + y,
        s.len() == t.len(),
    ensures
        s == t,
        x == y,
{
    assert(s =~= (s + x).take(s.len() as int));
    assert(t =~= (t + y).take(s.len() as int));
    assert(x =~= (s + x).skip(s.len() as int));
    assert(y =~= (t + y).skip(s.len() as int));
}

// ---------------------------------------------------------------------------
// Numbers
// ---------------------------------------------------------------------------

proof fn numbers_end(s: Seq<char>, x: Seq<char>, t: Seq<char>, y: Seq<char>)
    requires
        forall|i: int| 0 <= i < s.len() ==> is_number_char(#[trigger] s[i]),
        forall|i: int| 0 <= i < t.len() ==> is_number_char(#[trigger] t[i]),
        is_behind(x),
        is_behind(y),
        s + x == t + y,
    ensures
        s == t,
        x == y,
{
    assert((s + x).len() == (t + y).len());
    if s.len() < t.len() {
        assert((s + x)[s.len() as int] == x[0]);
        assert((t + y)[s.len() as int] == t[s.len() as int]);
    }
    if t.len() < s.len() {
        assert((t + y)[t.len() as int] == y[0]);
        assert((s + x)[t.len() as int] == s[t.len() as int]);
    }
    cut(s, x, t, y);
}

spec fn is_number(v: Datum) -> bool {
    v is Unsigned || v is Negative || v is Decimal
}

proof fn number_chars(v: Datum)
    requires
        legible(v),
        is_number(v),
    ensures
        v.written().len() > 0,
        text::is_digit(v.written()[0]) || v.written()[0] == '-',
        forall|i: int| 0 <= i < v.written().len() ==> is_number_char(#[trigger] v.written()[i]),
        v is Unsigned ==> text::is_digit(v.written()[0]),
        v is Negative ==> v.written()[0] == '-',
{
    match v {
        Datum::Unsigned(n) => {
            text::decimal_reads_back(n as nat);
        },
        Datum::Negative(n) => {
            text::decimal_reads_back((-n) as nat);
            let digits = text::decimal((-n) as nat);
            assert forall|i: int| 0 <= i < v.written().len() implies is_number_char(
                #[trigger] v.written()[i],
            ) by {
                if i > 0 {
                    assert(v.written()[i] == digits[i - 1]);
                }
            }
        },
        _ => {},
    }
}

proof fn numbers_differ(v: Datum, w: Datum)
    requires
        legible(v),
        legible(w),
        is_number(v),
        is_number(w),
        v.written() == w.written(),
    ensures
        v == w,
{
    number_chars(v);
    number_chars(w);
    match (v, w) {
        (Datum::Unsigned(n), Datum::Unsigned(m)) => {
            text::decimal_reads_back(n as nat);
            text::decimal_reads_back(m as nat);
        },
        (Datum::Negative(n), Datum::Negative(m)) => {
            text::decimal_reads_back((-n) as nat);
            text::decimal_reads_back((-m) as nat);
            assert(v.written().skip(1) =~= text::decimal((-n) as nat));
            assert(w.written().skip(1) =~= text::decimal((-m) as nat));
        },
        (Datum::Decimal(s), Datum::Unsigned(m)) => {
            assert(s != Datum::Unsigned(m).written());
        },
        (Datum::Decimal(s), Datum::Negative(m)) => {
            assert(s != Datum::Negative(m).written());
        },
        (Datum::Unsigned(n), Datum::Decimal(t)) => {
            assert(t != Datum::Unsigned(n).written());
        },
        (Datum::Negative(n), Datum::Decimal(t)) => {
            assert(t != Datum::Negative(n).written());
        },
        _ => {},
    }
}

// ---------------------------------------------------------------------------
// Strings
// ---------------------------------------------------------------------------

proof fn escaped_head(s: Seq<char>)
    requires
        s.len() > 0,
    ensures
        json::escaped_text(s) == json::escaped(s[0]) + json::escaped_text(s.drop_first()),
    decreases s.len(),
{
    if s.len() == 1 {
        assert(s.drop_last() =~= Seq::empty());
        assert(s.drop_first() =~= Seq::empty());
        assert(json::escaped_text(s.drop_last()) =~= Seq::empty());
        assert(json::escaped_text(s.drop_first()) =~= Seq::empty());
        assert(json::escaped_text(s) =~= json::escaped(s[0]));
    } else {
        escaped_head(s.drop_last());
        assert(s.drop_last().drop_first() =~= s.drop_first().drop_last());
        assert(s.drop_first().last() == s.last());
        assert(json::escaped_text(s) =~= json::escaped(s[0]) + json::escaped_text(s.drop_first()));
    }
}

proof fn hex_digits_differ(n: nat, m: nat)
    requires
        n < 16,
        m < 16,
        json::hex_digit(n) == json::hex_digit(m),
    ensures
        n == m,
{
}

proof fn escapes_differ(c: char, x: Seq<char>, d: char, y: Seq<char>)
    requires
        json::escaped(c) + x == json::escaped(d) + y,
    ensures
        c == d,
        x == y,
{
    let e = json::escaped(c);
    let f = json::escaped(d);
    assert((e + x)[0] == e[0]);
    assert((f + y)[0] == f[0]);
    if e.len() > 1 && f.len() > 1 {
        assert((e + x)[1] == e[1]);
        assert((f + y)[1] == f[1]);
        if e.len() > 2 && f.len() > 2 {
            assert((e + x)[4] == e[4]);
            assert((f + y)[4] == f[4]);
            assert((e + x)[5] == e[5]);
            assert((f + y)[5] == f[5]);
            let n = c as u32;
            let m = d as u32;
            hex_digits_differ((n / 16) as nat, (m / 16) as nat);
            hex_digits_differ((n % 16) as nat, (m % 16) as nat);
            assert(n == m);
        }
    }
    assert(c == d);
    cut(e, x, f, y);
}

proof fn an_escape_begins_otherwise(c: char)
    ensures
        json::escaped(c).len() > 0,
        json::escaped(c)[0] != '"',
{
}

proof fn texts_end(s: Seq<char>, x: Seq<char>, t: Seq<char>, y: Seq<char>)
    requires
        json::escaped_text(s) + (seq!['"'] + x) == json::escaped_text(t) + (seq!['"'] + y),
    ensures
        s == t,
        x == y,
    decreases s.len(),
{
    let p = json::escaped_text(s) + (seq!['"'] + x);
    let q = json::escaped_text(t) + (seq!['"'] + y);
    if s.len() > 0 {
        escaped_head(s);
        an_escape_begins_otherwise(s[0]);
        assert(p =~= json::escaped(s[0]) + (json::escaped_text(s.drop_first()) + (seq!['"'] + x)));
        assert(p[0] == json::escaped(s[0])[0]);
    } else {
        assert(p =~= seq!['"'] + x);
        assert(p[0] == '"');
    }
    if t.len() > 0 {
        escaped_head(t);
        an_escape_begins_otherwise(t[0]);
        assert(q =~= json::escaped(t[0]) + (json::escaped_text(t.drop_first()) + (seq!['"'] + y)));
        assert(q[0] == json::escaped(t[0])[0]);
    } else {
        assert(q =~= seq!['"'] + y);
        assert(q[0] == '"');
    }
    if s.len() > 0 {
        escapes_differ(
            s[0],
            json::escaped_text(s.drop_first()) + (seq!['"'] + x),
            t[0],
            json::escaped_text(t.drop_first()) + (seq!['"'] + y),
        );
        texts_end(s.drop_first(), x, t.drop_first(), y);
        assert(s =~= seq![s[0]] + s.drop_first());
        assert(t =~= seq![t[0]] + t.drop_first());
    } else {
        cut(seq!['"'], x, seq!['"'], y);
        assert(s =~= t);
    }
}

proof fn quoted_texts_end(s: Seq<char>, x: Seq<char>, t: Seq<char>, y: Seq<char>)
    requires
        json::quoted(s) + x == json::quoted(t) + y,
    ensures
        s == t,
        x == y,
{
    assert(json::quoted(s) + x =~= seq!['"'] + (json::escaped_text(s) + (seq!['"'] + x)));
    assert(json::quoted(t) + y =~= seq!['"'] + (json::escaped_text(t) + (seq!['"'] + y)));
    cut(
        seq!['"'],
        json::escaped_text(s) + (seq!['"'] + x),
        seq!['"'],
        json::escaped_text(t) + (seq!['"'] + y),
    );
    texts_end(s, x, t, y);
}

// ---------------------------------------------------------------------------
// Values
// ---------------------------------------------------------------------------

/// What stands behind the first item.
spec fn items_behind(items: Seq<Datum>) -> Seq<char> {
    if items.len() == 1 {
        Seq::empty()
    } else {
        seq![','] + json::written_items(items.drop_first())
    }
}

proof fn items_head(items: Seq<Datum>)
    requires
        items.len() > 0,
    ensures
        json::written_items(items) == items[0].written() + items_behind(items),
    decreases items.len(),
{
    if items.len() == 1 {
        assert(json::written_items(items) =~= items[0].written() + items_behind(items));
    } else if items.len() == 2 {
        assert(items.drop_last() =~= seq![items[0]]);
        assert(items.drop_first() =~= seq![items[1]]);
        assert(json::written_items(seq![items[0]]) == items[0].written());
        assert(json::written_items(seq![items[1]]) == items[1].written());
        assert(json::written_items(items) =~= items[0].written() + items_behind(items));
    } else {
        items_head(items.drop_last());
        assert(items.drop_last().drop_first() =~= items.drop_first().drop_last());
        assert(items.drop_first().last() == items.last());
        assert(json::written_items(items.drop_first()) == json::written_items(
            items.drop_first().drop_last(),
        ) + seq![','] + items.last().written());
        assert(json::written_items(items) =~= items[0].written() + items_behind(items));
    }
}

/// What stands behind the first member.
spec fn members_behind(members: Seq<(Seq<char>, Datum)>) -> Seq<char> {
    if members.len() == 1 {
        Seq::empty()
    } else {
        seq![','] + json::written_members(members.drop_first())
    }
}

proof fn members_head(members: Seq<(Seq<char>, Datum)>)
    requires
        members.len() > 0,
    ensures
        json::written_members(members) == json::written_member(members[0]) + members_behind(
            members,
        ),
    decreases members.len(),
{
    if members.len() == 1 {
        assert(json::written_members(members) =~= json::written_member(members[0])
            + members_behind(members));
    } else if members.len() == 2 {
        assert(members.drop_last() =~= seq![members[0]]);
        assert(members.drop_first() =~= seq![members[1]]);
        assert(json::written_members(seq![members[0]]) == json::written_member(members[0]));
        assert(json::written_members(seq![members[1]]) == json::written_member(members[1]));
        assert(json::written_members(members) =~= json::written_member(members[0])
            + members_behind(members));
    } else {
        members_head(members.drop_last());
        assert(members.drop_last().drop_first() =~= members.drop_first().drop_last());
        assert(members.drop_first().last() == members.last());
        assert(json::written_members(members.drop_first()) == json::written_members(
            members.drop_first().drop_last(),
        ) + seq![','] + json::written_member(members.last()));
        assert(json::written_members(members) =~= json::written_member(members[0])
            + members_behind(members));
    }
}

/// The character that a value begins with.
spec fn opening(v: Datum) -> char {
    v.written()[0]
}

proof fn values_begin(v: Datum)
    requires
        legible(v),
    ensures
        v.written().len() > 0,
        match v {
            Datum::Null => opening(v) == 'n',
            Datum::Bool(true) => opening(v) == 't',
            Datum::Bool(false) => opening(v) == 'f',
            Datum::Text(_) => opening(v) == '"',
            Datum::Array(_) => opening(v) == '[',
            Datum::Object(_) => opening(v) == '{',
            _ => text::is_digit(opening(v)) || opening(v) == '-',
        },
{
    if is_number(v) {
        number_chars(v);
    }
}

proof fn items_end(a: Seq<Datum>, x: Seq<char>, b: Seq<Datum>, y: Seq<char>)
    requires
        forall|i: int| 0 <= i < a.len() ==> legible(#[trigger] a[i]),
        forall|i: int| 0 <= i < b.len() ==> legible(#[trigger] b[i]),
        json::written_items(a) + (seq![']'] + x) == json::written_items(b) + (seq![']'] + y),
    ensures
        a == b,
        x == y,
    decreases a,
{
    let p = json::written_items(a) + (seq![']'] + x);
    let q = json::written_items(b) + (seq![']'] + y);
    if a.len() > 0 {
        items_head(a);
        values_begin(a[0]);
        assert(p =~= a[0].written() + (items_behind(a) + (seq![']'] + x)));
        assert(p[0] == opening(a[0]));
    } else {
        assert(p =~= seq![']'] + x);
        assert(p[0] == ']');
    }
    if b.len() > 0 {
        items_head(b);
        values_begin(b[0]);
        assert(q =~= b[0].written() + (items_behind(b) + (seq![']'] + y)));
        assert(q[0] == opening(b[0]));
    } else {
        assert(q =~= seq![']'] + y);
        assert(q[0] == ']');
    }
    if a.len() > 0 {
        let c = items_behind(a) + (seq![']'] + x);
        let d = items_behind(b) + (seq![']'] + y);
        assert(c[0] == if a.len() == 1 { ']' } else { ',' });
        assert(d[0] == if b.len() == 1 { ']' } else { ',' });
        values_end(a[0], c, b[0], d);
        if a.len() == 1 {
            assert(c =~= seq![']'] + x);
            assert(d =~= seq![']'] + y);
            cut(seq![']'], x, seq![']'], y);
            assert(a =~= b);
        } else {
            let m = json::written_items(a.drop_first()) + (seq![']'] + x);
            let n = json::written_items(b.drop_first()) + (seq![']'] + y);
            assert(c =~= seq![','] + m);
            assert(d =~= seq![','] + n);
            cut(seq![','], m, seq![','], n);
            items_end(a.drop_first(), x, b.drop_first(), y);
            assert(a =~= seq![a[0]] + a.drop_first());
            assert(b =~= seq![b[0]] + b.drop_first());
        }
    } else {
        cut(seq![']'], x, seq![']'], y);
        assert(a =~= b);
    }
}

proof fn members_end(
    a: Seq<(Seq<char>, Datum)>,
    x: Seq<char>,
    b: Seq<(Seq<char>, Datum)>,
    y: Seq<char>,
)
    requires
        forall|i: int| 0 <= i < a.len() ==> legible((#[trigger] a[i]).1),
        forall|i: int| 0 <= i < b.len() ==> legible((#[trigger] b[i]).1),
        json::written_members(a) + (seq!['}'] + x) == json::written_members(b) + (seq!['}'] + y),
    ensures
        a == b,
        x == y,
    decreases a,
{
    let p = json::written_members(a) + (seq!['}'] + x);
    let q = json::written_members(b) + (seq!['}'] + y);
    let c = members_behind(a) + (seq!['}'] + x);
    let d = members_behind(b) + (seq!['}'] + y);
    if a.len() > 0 {
        members_head(a);
        assert(p =~= json::quoted(a[0].0) + (seq![':'] + (a[0].1.written() + c)));
        assert(p[0] == '"');
    } else {
        assert(p =~= seq!['}'] + x);
        assert(p[0] == '}');
    }
    if b.len() > 0 {
        members_head(b);
        assert(q =~= json::quoted(b[0].0) + (seq![':'] + (b[0].1.written() + d)));
        assert(q[0] == '"');
    } else {
        assert(q =~= seq!['}'] + y);
        assert(q[0] == '}');
    }
    if a.len() > 0 {
        quoted_texts_end(
            a[0].0,
            seq![':'] + (a[0].1.written() + c),
            b[0].0,
            seq![':'] + (b[0].1.written() + d),
        );
        cut(seq![':'], a[0].1.written() + c, seq![':'], b[0].1.written() + d);
        assert(c[0] == if a.len() == 1 { '}' } else { ',' });
        assert(d[0] == if b.len() == 1 { '}' } else { ',' });
        assert(decreases_to!(a => a[0]));
        assert(decreases_to!(a[0] => a[0].1));
        values_end(a[0].1, c, b[0].1, d);
        if a.len() == 1 {
            assert(c =~= seq!['}'] + x);
            assert(d =~= seq!['}'] + y);
            cut(seq!['}'], x, seq!['}'], y);
            assert(a =~= b);
        } else {
            let m = json::written_members(a.drop_first()) + (seq!['}'] + x);
            let n = json::written_members(b.drop_first()) + (seq!['}'] + y);
            assert(c =~= seq![','] + m);
            assert(d =~= seq![','] + n);
            cut(seq![','], m, seq![','], n);
            members_end(a.drop_first(), x, b.drop_first(), y);
            assert(a =~= seq![a[0]] + a.drop_first());
            assert(b =~= seq![b[0]] + b.drop_first());
        }
    } else {
        cut(seq!['}'], x, seq!['}'], y);
        assert(a =~= b);
    }
}

/// The text of a value tells which value it is and where it ends, also inside
/// an array or an object.
pub proof fn values_end(v: Datum, x: Seq<char>, w: Datum, y: Seq<char>)
    requires
        legible(v),
        legible(w),
        is_behind(x),
        is_behind(y),
        v.written() + x == w.written() + y,
    ensures
        v == w,
        x == y,
    decreases v,
{
    values_begin(v);
    values_begin(w);
    assert((v.written() + x)[0] == opening(v));
    assert((w.written() + y)[0] == opening(w));
    match (v, w) {
        (Datum::Text(s), Datum::Text(t)) => {
            quoted_texts_end(s, x, t, y);
        },
        (Datum::Array(a), Datum::Array(b)) => {
            let m = json::written_items(a) + (seq![']'] + x);
            let n = json::written_items(b) + (seq![']'] + y);
            assert(v.written() + x =~= seq!['['] + m);
            assert(w.written() + y =~= seq!['['] + n);
            cut(seq!['['], m, seq!['['], n);
            items_end(a, x, b, y);
        },
        (Datum::Object(a), Datum::Object(b)) => {
            let m = json::written_members(a) + (seq!['}'] + x);
            let n = json::written_members(b) + (seq!['}'] + y);
            assert(v.written() + x =~= seq!['{'] + m);
            assert(w.written() + y =~= seq!['{'] + n);
            cut(seq!['{'], m, seq!['{'], n);
            members_end(a, x, b, y);
        },
        _ => {
            if is_number(v) {
                assert(is_number(w));
                number_chars(v);
                number_chars(w);
                numbers_end(v.written(), x, w.written(), y);
                numbers_differ(v, w);
            } else {
                assert(v == w);
                cut(v.written(), x, w.written(), y);
            }
        },
    }
}

/// Two values are written alike only where they are the same.
pub proof fn written_tells_apart(v: Datum, w: Datum)
    requires
        legible(v),
        legible(w),
    ensures
        v.written() == w.written() <==> v == w,
{
    if v.written() == w.written() {
        assert(v.written() + Seq::empty() =~= v.written());
        assert(w.written() + Seq::empty() =~= w.written());
        values_end(v, Seq::empty(), w, Seq::empty());
    }
}

} // verus!
