//! Walking through a JSON value: what it holds at any depth, how much that is, and
//! what a list of values holds that is taken apart from its end.

use vstd::prelude::*;

use crate::json::Datum;
use crate::recall::material;

verus! {

/// The value is the other one, or holds it at some depth.
pub open spec fn holds(v: Datum, x: Datum) -> bool
    decreases v,
{
    v == x || match v {
        Datum::Array(items) => exists|i: int| 0 <= i < items.len() && holds(#[trigger] items[i], x),
        Datum::Object(members) => exists|i: int|
            0 <= i < members.len() && holds((#[trigger] members[i]).1, x),
        _ => false,
    }
}

/// One of the values is the other one, or holds it.
pub open spec fn some_holds(values: Seq<Datum>, x: Datum) -> bool {
    exists|i: int| 0 <= i < values.len() && holds(#[trigger] values[i], x)
}

/// How many values there are in a value, itself counted.
pub open spec fn size(v: Datum) -> nat
    decreases v,
{
    match v {
        Datum::Array(items) => 1 + total(items),
        Datum::Object(members) => 1 + members_total(members),
        _ => 1,
    }
}

/// How many values there are in all of them.
pub open spec fn total(values: Seq<Datum>) -> nat
    decreases values,
{
    if values.len() == 0 {
        0
    } else {
        total(values.drop_last()) + size(values.last())
    }
}

pub open spec fn members_total(members: Seq<(Seq<char>, Datum)>) -> nat
    decreases members,
{
    if members.len() == 0 {
        0
    } else {
        members_total(members.drop_last()) + size(members.last().1)
    }
}

proof fn total_of_members(members: Seq<(Seq<char>, Datum)>)
    ensures
        members_total(members) == total(members.map_values(|m: (Seq<char>, Datum)| m.1)),
    decreases members.len(),
{
    let values = members.map_values(|m: (Seq<char>, Datum)| m.1);
    if members.len() > 0 {
        total_of_members(members.drop_last());
        assert(values.drop_last() =~= members.drop_last().map_values(
            |m: (Seq<char>, Datum)| m.1,
        ));
        assert(values.last() == members.last().1);
    }
}

proof fn total_of_both(a: Seq<Datum>, b: Seq<Datum>)
    ensures
        total(a + b) == total(a) + total(b),
    decreases b.len(),
{
    if b.len() == 0 {
        assert(a + b =~= a);
    } else {
        total_of_both(a, b.drop_last());
        assert((a + b).drop_last() =~= a + b.drop_last());
        assert((a + b).last() == b.last());
    }
}

/// Taking the last value apart: one value less is left to look at, and what is
/// held is that value or held by what is left.
pub proof fn taking_apart(stack: Seq<Datum>, x: Datum)
    requires
        stack.len() > 0,
    ensures
        total(stack) == 1 + total(stack.drop_last() + material::inside(stack.last())),
        some_holds(stack, x) <==> stack.last() == x || some_holds(
            stack.drop_last() + material::inside(stack.last()),
            x,
        ),
{
    let top = stack.last();
    let more = material::inside(top);
    let next = stack.drop_last() + more;
    total_of_both(stack.drop_last(), more);
    reveal_with_fuel(size, 2);
    reveal_with_fuel(total, 2);
    match top {
        Datum::Array(_) => {},
        Datum::Object(members) => {
            total_of_members(members);
        },
        _ => {
            assert(total(more) == 0);
        },
    }
    if some_holds(stack, x) && top != x {
        let i = choose|i: int| 0 <= i < stack.len() && holds(#[trigger] stack[i], x);
        if i < stack.len() - 1 {
            assert(next[i] == stack[i]);
        } else {
            match top {
                Datum::Array(items) => {
                    let k = choose|k: int| 0 <= k < items.len() && holds(#[trigger] items[k], x);
                    assert(next[stack.len() - 1 + k] == items[k]);
                },
                Datum::Object(members) => {
                    let k = choose|k: int|
                        0 <= k < members.len() && holds((#[trigger] members[k]).1, x);
                    assert(more[k] == members[k].1);
                    assert(next[stack.len() - 1 + k] == more[k]);
                },
                _ => {},
            }
        }
    }
    if top == x {
        assert(holds(stack[stack.len() - 1], x));
    }
    if some_holds(next, x) {
        let i = choose|i: int| 0 <= i < next.len() && holds(#[trigger] next[i], x);
        if i < stack.len() - 1 {
            assert(next[i] == stack[i]);
        } else {
            let k = i - (stack.len() - 1);
            assert(next[i] == more[k]);
            match top {
                Datum::Array(items) => {
                    assert(holds(items[k], x));
                },
                Datum::Object(members) => {
                    assert(more[k] == members[k].1);
                    assert(holds(members[k].1, x));
                },
                _ => {},
            }
            assert(holds(stack[stack.len() - 1], x));
        }
    }
}

/// There is at least one value in each value.
pub proof fn nothing_is_empty(stack: Seq<Datum>)
    ensures
        stack.len() > 0 ==> total(stack) > 0,
        stack.len() == 0 ==> total(stack) == 0,
{
    reveal_with_fuel(size, 2);
    reveal_with_fuel(total, 2);
}

/// A list of one value holds what the value holds.
pub proof fn one_value(v: Datum, x: Datum)
    ensures
        some_holds(seq![v], x) <==> holds(v, x),
        total(seq![v]) == size(v),
{
    assert(seq![v][0] == v);
    assert(seq![v].drop_last() =~= Seq::empty());
    assert(total(Seq::<Datum>::empty()) == 0);
}

} // verus!
