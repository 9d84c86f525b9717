//! Text as sequences of characters: searching, trimming, splitting, decimal
//! numerals and the order of names.

use vstd::prelude::*;
use vstd::string::*;

verus! {

/// `String::push` appends one character.
pub assume_specification[ String::push ](buffer: &mut String, c: char)
    ensures
        final(buffer)@ == old(buffer)@.push(c),
;

// ---------------------------------------------------------------------------
// Equality and affixes
// ---------------------------------------------------------------------------

/// `part` stands at position `at` of `whole`.
pub open spec fn occurs_at(whole: Seq<char>, part: Seq<char>, at: int) -> bool {
    &&& 0 <= at
    &&& at + part.len() <= whole.len()
    &&& whole.subrange(at, at + part.len()) == part
}

pub open spec fn is_prefix(part: Seq<char>, whole: Seq<char>) -> bool {
    occurs_at(whole, part, 0)
}

pub open spec fn is_suffix(part: Seq<char>, whole: Seq<char>) -> bool {
    occurs_at(whole, part, whole.len() - part.len())
}

/// The length of a text in UTF-8.
pub open spec fn utf8_len(s: Seq<char>) -> nat {
    vstd::utf8::encode_utf8(s).len()
}

pub fn byte_len(s: &str) -> (n: usize)
    ensures
        n == utf8_len(s@),
{
    s.as_bytes().len()
}

/// The characters of a text.
pub fn chars_of(s: &str) -> (v: Vec<char>)
    ensures
        v@ == s@,
{
    let mut v: Vec<char> = Vec::new();
    for c in it: s.chars()
        invariant
            it.seq() == s@,
            v@ == s@.take(it.index()),
    {
        v.push(c);
        proof {
            assert(s@.take(it.index() + 1) =~= s@.take(it.index()).push(c));
        }
    }
    assert(s@.take(s@.len() as int) =~= s@);
    v
}

/// The text made of these characters.
pub fn text_of(v: &Vec<char>) -> (s: String)
    ensures
        s@ == v@,
{
    let mut s = String::new();
    let mut i: usize = 0;
    while i < v.len()
        invariant
            i <= v.len(),
            s@ == v@.take(i as int),
        decreases v.len() - i,
    {
        s.push(v[i]);
        i = i + 1;
        assert(v@.take(i as int) =~= v@.take(i - 1).push(v@[i - 1]));
    }
    assert(v@.take(v@.len() as int) =~= v@);
    s
}

/// Whether `part` stands at position `at`.
pub fn chars_at(whole: &Vec<char>, part: &Vec<char>, at: usize) -> (r: bool)
    ensures
        r == occurs_at(whole@, part@, at as int),
{
    if part.len() > whole.len() || at > whole.len() - part.len() {
        return false;
    }
    let mut i: usize = 0;
    while i < part.len()
        invariant
            i <= part.len(),
            at + part.len() <= whole.len(),
            forall|k: int| 0 <= k < i ==> whole@[at + k] == part@[k],
        decreases part.len() - i,
    {
        if whole[at + i] != part[i] {
            assert(whole@.subrange(at as int, at + part@.len())[i as int] != part@[i as int]);
            return false;
        }
        i = i + 1;
    }
    assert(whole@.subrange(at as int, at + part@.len()) =~= part@);
    true
}

/// Whether two texts hold the same characters.
pub fn same(a: &str, b: &str) -> (r: bool)
    ensures
        r == (a@ == b@),
{
    let whole = chars_of(a);
    let part = chars_of(b);
    if whole.len() != part.len() {
        return false;
    }
    let r = chars_at(&whole, &part, 0);
    assert(a@.subrange(0, a@.len() as int) =~= a@);
    r
}

pub fn starts_with(s: &str, prefix: &str) -> (r: bool)
    ensures
        r == is_prefix(prefix@, s@),
{
    chars_at(&chars_of(s), &chars_of(prefix), 0)
}

pub fn ends_with(s: &str, suffix: &str) -> (r: bool)
    ensures
        r == is_suffix(suffix@, s@),
{
    let whole = chars_of(s);
    let part = chars_of(suffix);
    if part.len() > whole.len() {
        return false;
    }
    chars_at(&whole, &part, whole.len() - part.len())
}

/// What follows `prefix`, where the text starts with it.
pub fn strip_prefix<'a>(s: &'a str, prefix: &str) -> (r: Option<&'a str>)
    ensures
        match r {
            Some(rest) => is_prefix(prefix@, s@) && rest@ == s@.skip(prefix@.len() as int)
                && s@ == prefix@ + rest@,
            None => !is_prefix(prefix@, s@),
        },
{
    if starts_with(s, prefix) {
        let rest = s.substring_char(prefix.unicode_len(), s.unicode_len());
        assert(rest@ =~= s@.skip(prefix@.len() as int));
        assert(s@ =~= prefix@ + rest@);
        Some(rest)
    } else {
        None
    }
}

/// The views of a list of texts.
pub open spec fn views(list: Seq<String>) -> Seq<Seq<char>> {
    list.map_values(|s: String| s@)
}

/// Whether a list holds this text.
pub fn contains(list: &Vec<String>, s: &str) -> (r: bool)
    ensures
        r == views(list@).contains(s@),
{
    let mut i: usize = 0;
    while i < list.len()
        invariant
            i <= list.len(),
            forall|k: int| 0 <= k < i ==> views(list@)[k] != s@,
        decreases list.len() - i,
    {
        if same(list[i].as_str(), s) {
            assert(views(list@)[i as int] == s@);
            return true;
        }
        i = i + 1;
    }
    false
}

/// A copy of a list of texts.
pub fn copy_list(list: &Vec<String>) -> (r: Vec<String>)
    ensures
        r@ == list@,
{
    let mut r: Vec<String> = Vec::new();
    let mut i: usize = 0;
    while i < list.len()
        invariant
            i <= list.len(),
            r@ == list@.take(i as int),
        decreases list.len() - i,
    {
        r.push(list[i].clone());
        i = i + 1;
        assert(list@.take(i as int) =~= list@.take(i - 1).push(list@[i - 1]));
    }
    assert(list@.take(list@.len() as int) =~= list@);
    r
}

// ---------------------------------------------------------------------------
// Trimming
// ---------------------------------------------------------------------------

/// The Unicode property `White_Space`.
pub open spec fn is_white_space(c: char) -> bool {
    let n = c as u32;
    ||| 0x09 <= n <= 0x0d
    ||| n == 0x20
    ||| n == 0x85
    ||| n == 0xa0
    ||| n == 0x1680
    ||| 0x2000 <= n <= 0x200a
    ||| n == 0x2028
    ||| n == 0x2029
    ||| n == 0x202f
    ||| n == 0x205f
    ||| n == 0x3000
}

pub fn white_space(c: char) -> (r: bool)
    ensures
        r == is_white_space(c),
{
    let n: u32 = c as u32;
    (0x09 <= n && n <= 0x0d) || n == 0x20 || n == 0x85 || n == 0xa0 || n == 0x1680
        || (0x2000 <= n && n <= 0x200a) || n == 0x2028 || n == 0x2029 || n == 0x202f
        || n == 0x205f || n == 0x3000
}

/// The text without the white space at its start.
pub open spec fn trimmed_start(s: Seq<char>) -> Seq<char>
    decreases s.len(),
{
    if s.len() > 0 && is_white_space(s.first()) {
        trimmed_start(s.drop_first())
    } else {
        s
    }
}

/// The text without the white space at its end.
pub open spec fn trimmed_end(s: Seq<char>) -> Seq<char>
    decreases s.len(),
{
    if s.len() > 0 && is_white_space(s.last()) {
        trimmed_end(s.drop_last())
    } else {
        s
    }
}

pub open spec fn trimmed(s: Seq<char>) -> Seq<char> {
    trimmed_end(trimmed_start(s))
}

/// The text without the given character at its end.
pub open spec fn trimmed_end_of(s: Seq<char>, c: char) -> Seq<char>
    decreases s.len(),
{
    if s.len() > 0 && s.last() == c {
        trimmed_end_of(s.drop_last(), c)
    } else {
        s
    }
}

pub fn trim_end(s: &str) -> (r: &str)
    ensures
        r@ == trimmed_end(s@),
{
    let v = chars_of(s);
    let mut n: usize = v.len();
    proof {
        assert(s@.take(n as int) =~= s@);
    }
    while n > 0 && white_space(v[n - 1])
        invariant
            n <= v.len(),
            v@ == s@,
            trimmed_end(s@.take(n as int)) == trimmed_end(s@),
        decreases n,
    {
        assert(s@.take(n as int).drop_last() =~= s@.take(n - 1));
        assert(s@.take(n as int).last() == s@[n - 1]);
        n = n - 1;
    }
    proof {
        if n > 0 {
            assert(s@.take(n as int).last() == s@[n - 1]);
        }
        assert(s@.subrange(0, n as int) =~= s@.take(n as int));
    }
    s.substring_char(0, n)
}

pub fn trim_start(s: &str) -> (r: &str)
    ensures
        r@ == trimmed_start(s@),
{
    let v = chars_of(s);
    let mut n: usize = 0;
    proof {
        assert(s@.skip(0) =~= s@);
    }
    while n < v.len() && white_space(v[n])
        invariant
            n <= v.len(),
            v@ == s@,
            trimmed_start(s@.skip(n as int)) == trimmed_start(s@),
        decreases v.len() - n,
    {
        assert(s@.skip(n as int).drop_first() =~= s@.skip(n + 1));
        assert(s@.skip(n as int).first() == s@[n as int]);
        n = n + 1;
    }
    proof {
        if n < v.len() {
            assert(s@.skip(n as int).first() == s@[n as int]);
        }
        assert(s@.subrange(n as int, s@.len() as int) =~= s@.skip(n as int));
    }
    s.substring_char(n, v.len())
}

pub fn trim(s: &str) -> (r: &str)
    ensures
        r@ == trimmed(s@),
{
    trim_end(trim_start(s))
}

pub fn trim_end_of(s: &str, c: char) -> (r: &str)
    ensures
        r@ == trimmed_end_of(s@, c),
{
    let v = chars_of(s);
    let mut n: usize = v.len();
    proof {
        assert(s@.take(n as int) =~= s@);
    }
    while n > 0 && v[n - 1] == c
        invariant
            n <= v.len(),
            v@ == s@,
            trimmed_end_of(s@.take(n as int), c) == trimmed_end_of(s@, c),
        decreases n,
    {
        assert(s@.take(n as int).drop_last() =~= s@.take(n - 1));
        assert(s@.take(n as int).last() == s@[n - 1]);
        n = n - 1;
    }
    proof {
        if n > 0 {
            assert(s@.take(n as int).last() == s@[n - 1]);
        }
        assert(s@.subrange(0, n as int) =~= s@.take(n as int));
    }
    s.substring_char(0, n)
}

/// Trimming only ever removes white space, and leaves none at either end.
pub proof fn trimming_keeps_the_text_between(s: Seq<char>)
    ensures
        exists|a: int, b: int|
            0 <= a <= b <= s.len() && trimmed(s) == s.subrange(a, b) && (forall|k: int|
                (0 <= k < a || b <= k < s.len()) ==> is_white_space(#[trigger] s[k])),
        trimmed(s).len() > 0 ==> !is_white_space(trimmed(s).first()) && !is_white_space(
            trimmed(s).last(),
        ),
{
    trimmed_start_is_suffix(s);
    let t = trimmed_start(s);
    trimmed_end_is_prefix(t);
    let a = s.len() - t.len();
    let b = a + trimmed(s).len();
    assert(trimmed(s) =~= s.subrange(a, b));
    assert forall|k: int| (0 <= k < a || b <= k < s.len()) implies is_white_space(
        #[trigger] s[k],
    ) by {
        if b <= k {
            assert(t[k - a] == s[k]);
        }
    }
}

proof fn trimmed_start_is_suffix(s: Seq<char>)
    ensures
        trimmed_start(s).len() <= s.len(),
        trimmed_start(s) == s.skip(s.len() - trimmed_start(s).len()),
        trimmed_start(s).len() > 0 ==> !is_white_space(trimmed_start(s).first()),
        forall|k: int|
            0 <= k < s.len() - trimmed_start(s).len() ==> is_white_space(#[trigger] s[k]),
    decreases s.len(),
{
    if s.len() > 0 && is_white_space(s.first()) {
        trimmed_start_is_suffix(s.drop_first());
        let t = trimmed_start(s);
        assert(s.skip(s.len() - t.len()) =~= s.drop_first().skip(s.len() - 1 - t.len()));
        assert forall|k: int| 0 <= k < s.len() - t.len() implies is_white_space(#[trigger] s[k]) by {
            if k > 0 {
                assert(s.drop_first()[k - 1] == s[k]);
            }
        }
    } else {
        assert(s.skip(0) =~= s);
    }
}

proof fn trimmed_end_is_prefix(s: Seq<char>)
    ensures
        trimmed_end(s).len() <= s.len(),
        trimmed_end(s) == s.take(trimmed_end(s).len() as int),
        trimmed_end(s).len() > 0 ==> !is_white_space(trimmed_end(s).last()),
        forall|k: int| trimmed_end(s).len() <= k < s.len() ==> is_white_space(#[trigger] s[k]),
    decreases s.len(),
{
    if s.len() > 0 && is_white_space(s.last()) {
        trimmed_end_is_prefix(s.drop_last());
        let t = trimmed_end(s);
        assert(s.take(t.len() as int) =~= s.drop_last().take(t.len() as int));
        assert forall|k: int| t.len() <= k < s.len() implies is_white_space(#[trigger] s[k]) by {
            if k < s.len() - 1 {
                assert(s.drop_last()[k] == s[k]);
            }
        }
    } else {
        assert(s.take(s.len() as int) =~= s);
    }
}

// ---------------------------------------------------------------------------
// Searching and splitting
// ---------------------------------------------------------------------------

/// The position of the last occurrence of `part`.
pub fn rfind(s: &str, part: &str) -> (r: Option<usize>)
    ensures
        match r {
            Some(at) => occurs_at(s@, part@, at as int) && forall|k: int|
                k > at ==> !occurs_at(s@, part@, k),
            None => forall|k: int| !occurs_at(s@, part@, k),
        },
{
    let whole = chars_of(s);
    let needle = chars_of(part);
    if needle.len() > whole.len() {
        return None;
    }
    let mut at: usize = whole.len() - needle.len();
    loop
        invariant
            whole@ == s@,
            needle@ == part@,
            at + needle.len() <= whole.len(),
            forall|k: int| k > at ==> !occurs_at(s@, part@, k),
        decreases at,
    {
        if chars_at(&whole, &needle, at) {
            return Some(at);
        }
        if at == 0 {
            assert forall|k: int| !occurs_at(s@, part@, k) by {
                if k < 0 {
                } else if k > 0 {
                }
            }
            return None;
        }
        at = at - 1;
    }
}

/// The position of the first occurrence of `part`.
pub open spec fn is_first(s: Seq<char>, part: Seq<char>, at: int) -> bool {
    occurs_at(s, part, at) && forall|k: int| k < at ==> !occurs_at(s, part, k)
}

pub open spec fn holds(s: Seq<char>, part: Seq<char>) -> bool {
    exists|k: int| occurs_at(s, part, k)
}

pub fn find(s: &str, part: &str) -> (r: Option<usize>)
    ensures
        match r {
            Some(at) => is_first(s@, part@, at as int),
            None => !holds(s@, part@),
        },
{
    let whole = chars_of(s);
    let needle = chars_of(part);
    let mut at: usize = 0;
    while at < whole.len()
        invariant
            whole@ == s@,
            needle@ == part@,
            at <= whole.len(),
            forall|k: int| k < at ==> !occurs_at(s@, part@, k),
        decreases whole.len() - at,
    {
        if chars_at(&whole, &needle, at) {
            return Some(at);
        }
        at = at + 1;
    }
    if chars_at(&whole, &needle, at) {
        return Some(at);
    }
    assert forall|k: int| !occurs_at(s@, part@, k) by {
        if k < at {
        } else if k > at {
            assert(k > s@.len());
        }
    }
    None
}

/// What stands before the first occurrence of `part`, and what stands after it.
pub fn split_once<'a>(s: &'a str, part: &str) -> (r: Option<(&'a str, &'a str)>)
    ensures
        match r {
            Some((before, after)) => is_first(s@, part@, before@.len() as int) && s@ == before@
                + part@ + after@,
            None => !holds(s@, part@),
        },
{
    match find(s, part) {
        Some(at) => {
            let len: usize = s.unicode_len();
            let part_len: usize = part.unicode_len();
            let before = s.substring_char(0, at);
            let after = s.substring_char(at + part_len, len);
            assert(s@ =~= before@ + part@ + after@);
            Some((before, after))
        },
        None => None,
    }
}

/// The position of the first occurrence of a character.
pub fn find_char(s: &str, c: char) -> (r: Option<usize>)
    ensures
        match r {
            Some(at) => at < s@.len() && s@[at as int] == c && forall|k: int|
                0 <= k < at ==> s@[k] != c,
            None => !s@.contains(c),
        },
{
    let v = chars_of(s);
    let mut i: usize = 0;
    while i < v.len()
        invariant
            i <= v.len(),
            v@ == s@,
            forall|k: int| 0 <= k < i ==> s@[k] != c,
        decreases v.len() - i,
    {
        if v[i] == c {
            return Some(i);
        }
        i = i + 1;
    }
    None
}

/// The position of the last occurrence of a character.
pub fn rfind_char(s: &str, c: char) -> (r: Option<usize>)
    ensures
        match r {
            Some(at) => at < s@.len() && s@[at as int] == c && forall|k: int|
                at < k < s@.len() ==> s@[k] != c,
            None => !s@.contains(c),
        },
{
    let v = chars_of(s);
    let mut i: usize = v.len();
    while i > 0
        invariant
            i <= v.len(),
            v@ == s@,
            forall|k: int| i <= k < s@.len() ==> s@[k] != c,
        decreases i,
    {
        if v[i - 1] == c {
            return Some(i - 1);
        }
        i = i - 1;
    }
    None
}

/// The pieces between the separators, in order; there is always one more
/// piece than there are separators.
pub open spec fn split(s: Seq<char>, separator: char) -> Seq<Seq<char>>
    decreases s.len(),
{
    if s.len() == 0 {
        seq![Seq::empty()]
    } else {
        let rest = split(s.drop_last(), separator);
        if s.last() == separator {
            rest.push(Seq::empty())
        } else {
            rest.update(rest.len() - 1, rest.last().push(s.last()))
        }
    }
}

/// The pieces that are not blank, without their surrounding white space.
pub open spec fn values(pieces: Seq<Seq<char>>) -> Seq<Seq<char>>
    decreases pieces.len(),
{
    if pieces.len() == 0 {
        Seq::empty()
    } else {
        let rest = values(pieces.drop_last());
        let last = trimmed(pieces.last());
        if last.len() == 0 {
            rest
        } else {
            rest.push(last)
        }
    }
}

/// The pieces with the separator between them.
pub open spec fn joined(pieces: Seq<Seq<char>>, separator: char) -> Seq<char>
    decreases pieces.len(),
{
    if pieces.len() == 0 {
        Seq::empty()
    } else if pieces.len() == 1 {
        pieces[0]
    } else {
        joined(pieces.drop_last(), separator).push(separator) + pieces.last()
    }
}

/// A value as a separated list gives it: not blank, without the separator and
/// without white space around it.
pub open spec fn is_listed(value: Seq<char>, separator: char) -> bool {
    value.len() > 0 && !value.contains(separator) && trimmed(value) == value
}

proof fn a_clean_text_stays(s: Seq<char>)
    requires
        s.len() > 0,
        !is_white_space(s.first()),
        !is_white_space(s.last()),
    ensures
        trimmed(s) == s,
{
}

proof fn pieces_hold_no_separator(s: Seq<char>, separator: char)
    ensures
        split(s, separator).len() > 0,
        forall|i: int|
            0 <= i < split(s, separator).len() ==> !(#[trigger] split(s, separator)[i]).contains(
                separator,
            ),
    decreases s.len(),
{
    if s.len() > 0 {
        pieces_hold_no_separator(s.drop_last(), separator);
        let rest = split(s.drop_last(), separator);
        let all = split(s, separator);
        assert forall|i: int| 0 <= i < all.len() implies !(#[trigger] all[i]).contains(
            separator,
        ) by {
            if s.last() == separator {
                if i < rest.len() {
                    assert(all[i] == rest[i]);
                }
            } else if i < rest.len() - 1 {
                assert(all[i] == rest[i]);
            } else {
                let last = rest[rest.len() - 1];
                assert(all[i] == last.push(s.last()));
                if all[i].contains(separator) {
                    let k = choose|k: int| 0 <= k < all[i].len() && all[i][k] == separator;
                    assert(last[k] == separator);
                    assert(last.contains(separator));
                }
            }
        }
    }
}

proof fn values_are_listed(pieces: Seq<Seq<char>>, separator: char)
    requires
        forall|i: int| 0 <= i < pieces.len() ==> !(#[trigger] pieces[i]).contains(separator),
    ensures
        forall|i: int| 0 <= i < values(pieces).len() ==> is_listed(#[trigger] values(pieces)[i], separator),
    decreases pieces.len(),
{
    if pieces.len() > 0 {
        let head = pieces.drop_last();
        assert forall|i: int| 0 <= i < head.len() implies !(#[trigger] head[i]).contains(
            separator,
        ) by {
            assert(head[i] == pieces[i]);
        }
        values_are_listed(head, separator);
        let piece = pieces.last();
        let last = trimmed(piece);
        trimming_keeps_the_text_between(piece);
        if last.len() > 0 {
            a_clean_text_stays(last);
            assert(!last.contains(separator)) by {
                if last.contains(separator) {
                    let k = choose|k: int| 0 <= k < last.len() && last[k] == separator;
                    let (a, b) = choose|a: int, b: int|
                        0 <= a <= b <= piece.len() && trimmed(piece) == piece.subrange(a, b)
                            && (forall|j: int|
                            (0 <= j < a || b <= j < piece.len()) ==> is_white_space(
                                #[trigger] piece[j],
                            ));
                    assert(piece[a + k] == separator);
                    assert(pieces[pieces.len() - 1].contains(separator));
                }
            }
            let rest = values(head);
            assert forall|i: int| 0 <= i < values(pieces).len() implies is_listed(
                #[trigger] values(pieces)[i],
                separator,
            ) by {
                if i < rest.len() {
                    assert(values(pieces)[i] == rest[i]);
                }
            }
        }
    }
}

proof fn split_behind(s: Seq<char>, t: Seq<char>, separator: char)
    requires
        !t.contains(separator),
    ensures
        split(s, separator).len() > 0,
        split(s + t, separator) == split(s, separator).update(
            split(s, separator).len() - 1,
            split(s, separator).last() + t,
        ),
    decreases t.len(),
{
    pieces_hold_no_separator(s, separator);
    let all = split(s, separator);
    if t.len() == 0 {
        assert(s + t =~= s);
        assert(all.last() + t =~= all.last());
        assert(all.update(all.len() - 1, all.last()) =~= all);
    } else {
        let head = t.drop_last();
        assert(!head.contains(separator)) by {
            if head.contains(separator) {
                let k = choose|k: int| 0 <= k < head.len() && head[k] == separator;
                assert(t[k] == separator);
            }
        }
        split_behind(s, head, separator);
        assert((s + t).drop_last() =~= s + head);
        assert((s + t).last() == t.last());
        assert(t[t.len() - 1] != separator);
        assert((all.last() + head).push(t.last()) =~= all.last() + t);
        assert(split(s + t, separator) =~= all.update(all.len() - 1, all.last() + t));
    }
}

proof fn splitting_undoes_joining(pieces: Seq<Seq<char>>, separator: char)
    requires
        pieces.len() > 0,
        forall|i: int| 0 <= i < pieces.len() ==> !(#[trigger] pieces[i]).contains(separator),
    ensures
        split(joined(pieces, separator), separator) == pieces,
    decreases pieces.len(),
{
    let last = pieces[pieces.len() - 1];
    if pieces.len() == 1 {
        split_behind(Seq::empty(), last, separator);
        assert(Seq::<char>::empty() + last =~= last);
        assert(split(last, separator) =~= pieces);
    } else {
        let head = pieces.drop_last();
        assert forall|i: int| 0 <= i < head.len() implies !(#[trigger] head[i]).contains(
            separator,
        ) by {
            assert(head[i] == pieces[i]);
        }
        splitting_undoes_joining(head, separator);
        let opened = joined(head, separator).push(separator);
        assert(opened.drop_last() =~= joined(head, separator));
        assert(split(opened, separator) == head.push(Seq::empty()));
        split_behind(opened, last, separator);
        assert(Seq::<char>::empty() + last =~= last);
        assert(split(opened + last, separator) =~= pieces);
    }
}

proof fn listed_values_stay(pieces: Seq<Seq<char>>, separator: char)
    requires
        forall|i: int| 0 <= i < pieces.len() ==> is_listed(#[trigger] pieces[i], separator),
    ensures
        values(pieces) == pieces,
    decreases pieces.len(),
{
    if pieces.len() > 0 {
        let head = pieces.drop_last();
        assert forall|i: int| 0 <= i < head.len() implies is_listed(
            #[trigger] head[i],
            separator,
        ) by {
            assert(head[i] == pieces[i]);
        }
        listed_values_stay(head, separator);
        assert(is_listed(pieces[pieces.len() - 1], separator));
        assert(head.push(pieces.last()) =~= pieces);
    } else {
        assert(values(pieces) =~= pieces);
    }
}

/// The values of a separated list are not blank, hold no separator and no white
/// space around them; written as a list again they are the same values.
pub proof fn values_survive_joining(s: Seq<char>, separator: char)
    ensures
        forall|i: int|
            0 <= i < values(split(s, separator)).len() ==> is_listed(
                #[trigger] values(split(s, separator))[i],
                separator,
            ),
        values(split(joined(values(split(s, separator)), separator), separator)) == values(
            split(s, separator),
        ),
{
    let all = values(split(s, separator));
    pieces_hold_no_separator(s, separator);
    values_are_listed(split(s, separator), separator);
    if all.len() == 0 {
        reveal_with_fuel(values, 2);
        let blank = split(Seq::empty(), separator);
        assert(blank =~= seq![Seq::<char>::empty()]);
        assert(blank.drop_last() =~= Seq::empty());
        assert(trimmed(Seq::<char>::empty()) =~= Seq::empty());
        assert(values(blank) =~= all);
    } else {
        splitting_undoes_joining(all, separator);
        listed_values_stay(all, separator);
    }
}

/// The values of a separated list: trimmed, without the blank ones.
pub fn split_values(s: &str, separator: char) -> (r: Vec<String>)
    ensures
        views(r@) == values(split(s@, separator)),
{
    let v = chars_of(s);
    let mut r: Vec<String> = Vec::new();
    let mut piece = String::new();
    let mut i: usize = 0;
    proof {
        assert(s@.take(0) =~= Seq::empty());
        assert(split(s@.take(0), separator).drop_last() =~= Seq::empty());
        assert(views(r@) =~= Seq::empty());
    }
    while i < v.len()
        invariant
            i <= v.len(),
            v@ == s@,
            split(s@.take(i as int), separator).len() > 0,
            piece@ == split(s@.take(i as int), separator).last(),
            views(r@) == values(split(s@.take(i as int), separator).drop_last()),
        decreases v.len() - i,
    {
        let c = v[i];
        let ghost before = split(s@.take(i as int), separator);
        let ghost after = split(s@.take(i + 1), separator);
        proof {
            assert(s@.take(i + 1).drop_last() =~= s@.take(i as int));
            assert(s@.take(i + 1).last() == c);
        }
        if c == separator {
            proof {
                assert(after.drop_last() =~= before);
            }
            let value = trim(piece.as_str());
            if !value.is_empty() {
                let ghost old_r = r@;
                r.push(value.to_owned());
                assert(views(r@) =~= views(old_r).push(value@));
            }
            piece = String::new();
            assert(piece@ =~= after.last());
        } else {
            piece.push(c);
            proof {
                assert(after.drop_last() =~= before.drop_last());
            }
        }
        i = i + 1;
    }
    proof {
        assert(s@.take(i as int) =~= s@);
    }
    let value = trim(piece.as_str());
    if !value.is_empty() {
        let ghost old_r = r@;
        r.push(value.to_owned());
        assert(views(r@) =~= views(old_r).push(value@));
    }
    r
}

// ---------------------------------------------------------------------------
// Decimal numerals
// ---------------------------------------------------------------------------

pub open spec fn digit(n: nat) -> char {
    (('0' as u32 + n) as u32) as char
}

/// The decimal numeral of a number, without leading zeros.
pub open spec fn decimal(n: nat) -> Seq<char>
    decreases n,
{
    if n < 10 {
        seq![digit(n)]
    } else {
        decimal(n / 10).push(digit(n % 10))
    }
}

pub open spec fn is_digit(c: char) -> bool {
    '0' <= c <= '9'
}

/// A non-empty text of decimal digits.
pub open spec fn all_digits(s: Seq<char>) -> bool {
    s.len() > 0 && forall|i: int| 0 <= i < s.len() ==> is_digit(#[trigger] s[i])
}

/// The number that a text of decimal digits writes.
pub open spec fn numeral_value(s: Seq<char>) -> nat
    decreases s.len(),
{
    if s.len() == 0 {
        0
    } else {
        numeral_value(s.drop_last()) * 10 + (s.last() as u32 - '0' as u32) as nat
    }
}

fn digit_char(n: u64) -> (c: char)
    requires
        n < 10,
    ensures
        c == digit(n as nat),
{
    if n == 0 {
        '0'
    } else if n == 1 {
        '1'
    } else if n == 2 {
        '2'
    } else if n == 3 {
        '3'
    } else if n == 4 {
        '4'
    } else if n == 5 {
        '5'
    } else if n == 6 {
        '6'
    } else if n == 7 {
        '7'
    } else if n == 8 {
        '8'
    } else {
        '9'
    }
}

pub fn decimal_text(n: u64) -> (s: String)
    ensures
        s@ == decimal(n as nat),
    decreases n,
{
    if n < 10 {
        let mut s = String::new();
        s.push(digit_char(n));
        assert(s@ =~= seq![digit(n as nat)]);
        s
    } else {
        let mut s = decimal_text(n / 10);
        s.push(digit_char(n % 10));
        s
    }
}

/// A numeral reads back as the number that it writes.
pub proof fn decimal_reads_back(n: nat)
    ensures
        numeral_value(decimal(n)) == n,
        all_digits(decimal(n)),
        decimal(n).len() > 1 ==> decimal(n).first() != '0',
    decreases n,
{
    reveal_with_fuel(numeral_value, 2);
    if n < 10 {
        assert(decimal(n).drop_last() =~= Seq::empty());
        assert(numeral_value(decimal(n)) == (digit(n) as u32 - '0' as u32) as nat);
    } else {
        decimal_reads_back(n / 10);
        let head = decimal(n / 10);
        assert(decimal(n).drop_last() =~= head);
        assert(decimal(n).first() == head.first());
        if head.len() == 1 {
            assert(head.drop_last() =~= Seq::empty());
            if head.first() == '0' {
                assert(numeral_value(head) == 0);
            }
        }
        assert forall|i: int| 0 <= i < decimal(n).len() implies is_digit(
            #[trigger] decimal(n)[i],
        ) by {
            if i < head.len() {
                assert(decimal(n)[i] == head[i]);
            }
        }
    }
}

/// Whether a text holds decimal digits alone, and at least one.
pub fn digits_only(s: &str) -> (r: bool)
    ensures
        r == all_digits(s@),
{
    let v = chars_of(s);
    if v.len() == 0 {
        return false;
    }
    let mut i: usize = 0;
    while i < v.len()
        invariant
            i <= v.len(),
            v@ == s@,
            forall|k: int| 0 <= k < i ==> is_digit(#[trigger] s@[k]),
        decreases v.len() - i,
    {
        if !('0' <= v[i] && v[i] <= '9') {
            assert(!is_digit(s@[i as int]));
            return false;
        }
        i = i + 1;
    }
    true
}

/// The digits of an unsigned number: a plus sign may stand before them.
pub open spec fn unsigned_digits(s: Seq<char>) -> Seq<char> {
    if s.len() > 0 && s[0] == '+' {
        s.skip(1)
    } else {
        s
    }
}

/// The unsigned number that a text writes, where it writes one that fits.
pub open spec fn unsigned_of(s: Seq<char>) -> Option<u64> {
    let digits = unsigned_digits(s);
    if all_digits(digits) && numeral_value(digits) <= u64::MAX {
        Some(numeral_value(digits) as u64)
    } else {
        None
    }
}

proof fn longer_numerals_are_greater(s: Seq<char>, n: int)
    requires
        0 <= n <= s.len(),
    ensures
        numeral_value(s.take(n)) <= numeral_value(s),
    decreases s.len(),
{
    if n == s.len() {
        assert(s.take(n) =~= s);
    } else {
        longer_numerals_are_greater(s.drop_last(), n);
        assert(s.drop_last().take(n) =~= s.take(n));
    }
}

/// Reads an unsigned number.
pub fn parse_unsigned(s: &str) -> (r: Option<u64>)
    ensures
        r == unsigned_of(s@),
{
    let v = chars_of(s);
    let start: usize = if v.len() > 0 && v[0] == '+' {
        1
    } else {
        0
    };
    let ghost digits = unsigned_digits(s@);
    assert(digits =~= s@.skip(start as int));
    if start >= v.len() {
        return None;
    }
    let mut n: u64 = 0;
    let mut i: usize = start;
    assert(digits.take(0) =~= Seq::empty());
    while i < v.len()
        invariant
            start <= i <= v.len(),
            start < v.len(),
            v@ == s@,
            digits == unsigned_digits(s@),
            digits == s@.skip(start as int),
            forall|k: int| 0 <= k < i - start ==> is_digit(#[trigger] digits[k]),
            n == numeral_value(digits.take(i - start)),
        decreases v.len() - i,
    {
        let c = v[i];
        assert(digits[i - start] == c);
        if !('0' <= c && c <= '9') {
            assert(!is_digit(digits[i - start]));
            return None;
        }
        let d: u64 = (c as u32 - '0' as u32) as u64;
        proof {
            assert(digits.take(i - start + 1).drop_last() =~= digits.take(i - start));
            assert(digits.take(i - start + 1).last() == c);
            longer_numerals_are_greater(digits, i - start + 1);
        }
        if n > (u64::MAX - d) / 10 {
            assert(n * 10 + d > u64::MAX);
            return None;
        }
        n = n * 10 + d;
        i = i + 1;
    }
    assert(digits.take(i - start) =~= digits);
    Some(n)
}

// ---------------------------------------------------------------------------
// Order
// ---------------------------------------------------------------------------

/// The order of texts by their characters, which is that of their UTF-8 bytes.
pub open spec fn less(a: Seq<char>, b: Seq<char>) -> bool
    decreases a.len(),
{
    if b.len() == 0 {
        false
    } else if a.len() == 0 {
        true
    } else if a.first() == b.first() {
        less(a.drop_first(), b.drop_first())
    } else {
        a.first() < b.first()
    }
}

pub fn text_less(a: &str, b: &str) -> (r: bool)
    ensures
        r == less(a@, b@),
{
    let x = chars_of(a);
    let y = chars_of(b);
    let mut i: usize = 0;
    proof {
        assert(a@.skip(0) =~= a@);
        assert(b@.skip(0) =~= b@);
    }
    while i < x.len() && i < y.len() && x[i] == y[i]
        invariant
            x@ == a@,
            y@ == b@,
            i <= x.len(),
            i <= y.len(),
            less(a@.skip(i as int), b@.skip(i as int)) == less(a@, b@),
        decreases x.len() - i,
    {
        assert(a@.skip(i as int).drop_first() =~= a@.skip(i + 1));
        assert(b@.skip(i as int).drop_first() =~= b@.skip(i + 1));
        i = i + 1;
    }
    proof {
        if i < x.len() {
            assert(a@.skip(i as int).first() == a@[i as int]);
        }
        if i < y.len() {
            assert(b@.skip(i as int).first() == b@[i as int]);
        }
    }
    if i >= y.len() {
        false
    } else if i >= x.len() {
        true
    } else {
        x[i] < y[i]
    }
}

pub proof fn less_is_transitive(a: Seq<char>, b: Seq<char>, c: Seq<char>)
    requires
        less(a, b),
        less(b, c),
    ensures
        less(a, c),
    decreases a.len(),
{
    if a.len() > 0 && b.len() > 0 && c.len() > 0 && a.first() == b.first() && b.first()
        == c.first() {
        less_is_transitive(a.drop_first(), b.drop_first(), c.drop_first());
    }
}

pub proof fn less_is_irreflexive(a: Seq<char>)
    ensures
        !less(a, a),
    decreases a.len(),
{
    if a.len() > 0 {
        less_is_irreflexive(a.drop_first());
    }
}

pub proof fn less_is_total(a: Seq<char>, b: Seq<char>)
    ensures
        a == b || less(a, b) || less(b, a),
    decreases a.len(),
{
    if a.len() > 0 && b.len() > 0 {
        if a.first() == b.first() {
            less_is_total(a.drop_first(), b.drop_first());
            if a.drop_first() == b.drop_first() {
                assert(a =~= seq![a.first()] + a.drop_first());
                assert(b =~= seq![b.first()] + b.drop_first());
            }
        }
    } else if a.len() == 0 && b.len() == 0 {
        assert(a =~= b);
    }
}

/// Strictly increasing, and so without repetition.
pub open spec fn is_sorted_set(names: Seq<Seq<char>>) -> bool {
    forall|i: int, j: int| 0 <= i < j < names.len() ==> less(#[trigger] names[i], #[trigger] names[j])
}

/// The list with a text in its place, unless it is there already.
pub open spec fn inserted(names: Seq<Seq<char>>, s: Seq<char>) -> Seq<Seq<char>>
    decreases names.len(),
{
    if names.len() == 0 {
        seq![s]
    } else if names.first() == s {
        names
    } else if less(s, names.first()) {
        seq![s] + names
    } else {
        seq![names.first()] + inserted(names.drop_first(), s)
    }
}

/// Putting a text in its place adds that text, and nothing else.
pub proof fn inserted_holds(names: Seq<Seq<char>>, s: Seq<char>, x: Seq<char>)
    ensures
        inserted(names, s).contains(x) <==> names.contains(x) || x == s,
    decreases names.len(),
{
    let after = inserted(names, s);
    if names.len() == 0 {
        assert(after[0] == s);
    } else if names.first() == s {
        assert(names[0] == s);
    } else if less(s, names.first()) {
        assert(after[0] == s);
        if names.contains(x) {
            let k = choose|k: int| 0 <= k < names.len() && names[k] == x;
            assert(after[k + 1] == x);
        }
        if after.contains(x) {
            let k = choose|k: int| 0 <= k < after.len() && after[k] == x;
            if k > 0 {
                assert(names[k - 1] == x);
            }
        }
    } else {
        let rest = names.drop_first();
        inserted_holds(rest, s, x);
        let more = inserted(rest, s);
        if names.contains(x) {
            let k = choose|k: int| 0 <= k < names.len() && names[k] == x;
            if k > 0 {
                assert(rest[k - 1] == x);
            } else {
                assert(after[0] == x);
            }
        }
        if more.contains(x) {
            let k = choose|k: int| 0 <= k < more.len() && more[k] == x;
            assert(after[k + 1] == x);
        }
        if after.contains(x) {
            let k = choose|k: int| 0 <= k < after.len() && after[k] == x;
            if k > 0 {
                assert(more[k - 1] == x);
            } else {
                assert(names[0] == x);
            }
        }
        if rest.contains(x) {
            let k = choose|k: int| 0 <= k < rest.len() && rest[k] == x;
            assert(names[k + 1] == x);
        }
    }
}

/// Putting a text in its place keeps the order.
pub proof fn inserted_is_sorted(names: Seq<Seq<char>>, s: Seq<char>)
    requires
        is_sorted_set(names),
    ensures
        is_sorted_set(inserted(names, s)),
    decreases names.len(),
{
    let after = inserted(names, s);
    if names.len() > 0 && names.first() != s {
        let first = names.first();
        if less(s, first) {
            assert forall|i: int, j: int| 0 <= i < j < after.len() implies less(
                #[trigger] after[i],
                #[trigger] after[j],
            ) by {
                assert(after[j] == names[j - 1]);
                if i > 0 {
                    assert(after[i] == names[i - 1]);
                } else if j > 1 {
                    less_is_transitive(s, first, names[j - 1]);
                }
            }
        } else {
            let rest = names.drop_first();
            assert forall|i: int, j: int| 0 <= i < j < rest.len() implies less(
                #[trigger] rest[i],
                #[trigger] rest[j],
            ) by {
                assert(rest[i] == names[i + 1]);
                assert(rest[j] == names[j + 1]);
            }
            inserted_is_sorted(rest, s);
            less_is_total(s, first);
            let more = inserted(rest, s);
            assert forall|i: int, j: int| 0 <= i < j < after.len() implies less(
                #[trigger] after[i],
                #[trigger] after[j],
            ) by {
                assert(after[j] == more[j - 1]);
                if i > 0 {
                    assert(after[i] == more[i - 1]);
                } else {
                    inserted_holds(rest, s, more[j - 1]);
                    assert(more.contains(more[j - 1]));
                    if more[j - 1] != s {
                        let k = choose|k: int| 0 <= k < rest.len() && rest[k] == more[j - 1];
                        assert(names[k + 1] == more[j - 1]);
                    }
                }
            }
        }
    }
}

proof fn less_is_asymmetric(a: Seq<char>, b: Seq<char>)
    requires
        less(a, b),
    ensures
        !less(b, a),
        a != b,
{
    less_is_irreflexive(a);
    if less(b, a) {
        less_is_transitive(a, b, a);
    }
}

/// Adds a text to an increasing list, unless it is there already.
pub fn insert_sorted(list: &mut Vec<String>, s: &str) -> (added: bool)
    requires
        is_sorted_set(views(old(list)@)),
    ensures
        views(final(list)@) == inserted(views(old(list)@), s@),
        is_sorted_set(views(final(list)@)),
        added == !views(old(list)@).contains(s@),
        !added ==> final(list)@ == old(list)@,
        forall|x: Seq<char>| #[trigger]
            views(final(list)@).contains(x) <==> views(old(list)@).contains(x) || x == s@,
        final(list)@.len() == old(list)@.len() + if added { 1int } else { 0 },
{
    let ghost before = views(list@);
    let mut at: usize = 0;
    proof {
        assert(before.skip(0) =~= before);
        assert(before.take(0) + inserted(before.skip(0), s@) =~= inserted(before, s@));
    }
    while at < list.len() && text_less(list[at].as_str(), s)
        invariant
            at <= list.len(),
            before == views(list@),
            is_sorted_set(before),
            list@ == old(list)@,
            forall|k: int| 0 <= k < at ==> less(#[trigger] before[k], s@),
            before.take(at as int) + inserted(before.skip(at as int), s@) == inserted(before, s@),
        decreases list.len() - at,
    {
        assert(before[at as int] == list@[at as int]@);
        proof {
            less_is_asymmetric(before[at as int], s@);
            assert(before.skip(at as int).first() == before[at as int]);
            assert(before.skip(at as int).drop_first() =~= before.skip(at + 1));
            assert(before.take(at + 1) + inserted(before.skip(at + 1), s@) =~= before.take(
                at as int,
            ) + (seq![before[at as int]] + inserted(before.skip(at + 1), s@)));
        }
        at = at + 1;
    }
    if at < list.len() && same(list[at].as_str(), s) {
        assert(before[at as int] == s@);
        assert(before.skip(at as int).first() == before[at as int]);
        assert(before.take(at as int) + before.skip(at as int) =~= before);
        return false;
    }
    proof {
        if at < list.len() {
            assert(before.skip(at as int).first() == before[at as int]);
            assert(before[at as int] == list@[at as int]@);
            less_is_total(before[at as int], s@);
            assert(before.take(at as int) + (seq![s@] + before.skip(at as int)) =~= before.insert(
                at as int,
                s@,
            ));
        } else {
            assert(before.skip(at as int) =~= Seq::empty());
            assert(before.take(at as int) + seq![s@] =~= before.insert(at as int, s@));
        }
        if at < list.len() {
            assert(before[at as int] == list@[at as int]@);
            less_is_total(before[at as int], s@);
        }
        assert forall|k: int| at <= k < before.len() implies less(s@, #[trigger] before[k]) by {
            if k > at {
                less_is_transitive(s@, before[at as int], before[k]);
            }
        }
        assert(!before.contains(s@)) by {
            if before.contains(s@) {
                let k = choose|k: int| 0 <= k < before.len() && before[k] == s@;
                less_is_irreflexive(s@);
            }
        }
    }
    list.insert(at, s.to_owned());
    proof {
        let after = views(list@);
        assert(after =~= before.insert(at as int, s@));
        assert forall|i: int, j: int| 0 <= i < j < after.len() implies less(
            #[trigger] after[i],
            #[trigger] after[j],
        ) by {
            let p = if i < at { i } else { i - 1 };
            let q = if j < at { j } else { j - 1 };
            if i == at {
                assert(after[j] == before[q]);
            } else if j == at {
                assert(after[i] == before[p]);
            } else {
                assert(after[i] == before[p]);
                assert(after[j] == before[q]);
            }
        }
        assert forall|x: Seq<char>| #[trigger] after.contains(x) <==> before.contains(x) || x
            == s@ by {
            if before.contains(x) {
                let k = choose|k: int| 0 <= k < before.len() && before[k] == x;
                let m = if k < at { k } else { k + 1 };
                assert(after[m] == x);
            }
            if x == s@ {
                assert(after[at as int] == x);
            }
            if after.contains(x) {
                let m = choose|m: int| 0 <= m < after.len() && after[m] == x;
                if m != at {
                    let k = if m < at { m } else { m - 1 };
                    assert(before[k] == x);
                }
            }
        }
    }
    true
}

/// The list with every one of these texts in its place.
pub open spec fn gathered(names: Seq<Seq<char>>, more: Seq<Seq<char>>) -> Seq<Seq<char>>
    decreases more.len(),
{
    if more.len() == 0 {
        names
    } else {
        inserted(gathered(names, more.drop_last()), more.last())
    }
}

/// Adds every text of a list to an increasing list.
pub fn insert_all(list: &mut Vec<String>, more: &Vec<String>)
    requires
        is_sorted_set(views(old(list)@)),
    ensures
        views(final(list)@) == gathered(views(old(list)@), views(more@)),
        is_sorted_set(views(final(list)@)),
        forall|x: Seq<char>| #[trigger]
            views(final(list)@).contains(x) <==> views(old(list)@).contains(x) || views(
                more@,
            ).contains(x),
{
    let ghost before = views(list@);
    let ghost all = views(more@);
    let mut i: usize = 0;
    assert(all.take(0) =~= Seq::empty());
    while i < more.len()
        invariant
            i <= more.len(),
            all == views(more@),
            before == views(old(list)@),
            is_sorted_set(views(list@)),
            views(list@) == gathered(before, all.take(i as int)),
            forall|x: Seq<char>| #[trigger]
                views(list@).contains(x) <==> before.contains(x) || all.take(i as int).contains(x),
        decreases more.len() - i,
    {
        let ghost old_list = views(list@);
        proof {
            assert(all.take(i + 1).drop_last() =~= all.take(i as int));
            assert(all.take(i + 1).last() == more@[i as int]@);
        }
        let _new = insert_sorted(list, more[i].as_str());
        proof {
            assert forall|x: Seq<char>| #[trigger] views(list@).contains(x) <==> before.contains(x)
                || all.take(i + 1).contains(x) by {
                if all.take(i as int).contains(x) {
                    let k = choose|k: int| 0 <= k < i && all.take(i as int)[k] == x;
                    assert(all.take(i + 1)[k] == x);
                }
                if x == more@[i as int]@ {
                    assert(all.take(i + 1)[i as int] == x);
                }
                if all.take(i + 1).contains(x) {
                    let next = all.take(i + 1);
                    let k = choose|k: int| 0 <= k < next.len() && next[k] == x;
                    if k < i {
                        assert(all.take(i as int)[k] == x);
                    }
                }
                assert(views(list@).contains(x) <==> old_list.contains(x) || x == more@[i as int]@);
            }
        }
        i = i + 1;
    }
    assert(all.take(i as int) =~= all);
}

// ---------------------------------------------------------------------------
// What texts come to
// ---------------------------------------------------------------------------

/// Of the plain characters exactly the space and those from the tab to the carriage return
/// are white space.
pub proof fn plain_white_space(c: char)
    requires
        (c as u32) < 128,
    ensures
        is_white_space(c) <==> c == ' ' || '\t' <= c <= '\r',
{
}

/// Trimming one end takes white space off that end, all of it, and nothing else.
pub proof fn one_end_is_trimmed(s: Seq<char>)
    ensures
        ({
            let t = trimmed_start(s);
            let cut = s.len() - t.len();
            &&& 0 <= cut && t == s.skip(cut)
            &&& forall|i: int| 0 <= i < cut ==> is_white_space(#[trigger] s[i])
            &&& t.len() > 0 ==> !is_white_space(t[0])
        }),
        ({
            let t = trimmed_end(s);
            &&& t.len() <= s.len() && t == s.take(t.len() as int)
            &&& forall|i: int| t.len() <= i < s.len() ==> is_white_space(#[trigger] s[i])
            &&& t.len() > 0 ==> !is_white_space(t[t.len() - 1])
        }),
    decreases s.len(),
{
    if s.len() > 0 {
        if is_white_space(s.first()) {
            let rest = s.drop_first();
            one_end_is_trimmed(rest);
            let t = trimmed_start(s);
            assert(t =~= s.skip(s.len() - t.len()));
            assert forall|i: int| 0 <= i < s.len() - t.len() implies is_white_space(
                #[trigger] s[i],
            ) by {
                if i > 0 {
                    assert(rest[i - 1] == s[i]);
                }
            }
        } else {
            assert(trimmed_start(s) =~= s.skip(0));
        }
        if is_white_space(s.last()) {
            let rest = s.drop_last();
            one_end_is_trimmed(rest);
            let t = trimmed_end(s);
            assert(t =~= s.take(t.len() as int));
            assert forall|i: int| t.len() <= i < s.len() implies is_white_space(#[trigger] s[i]) by {
                if i < rest.len() {
                    assert(rest[i] == s[i]);
                }
            }
        } else {
            assert(trimmed_end(s) =~= s.take(s.len() as int));
        }
    } else {
        assert(trimmed_start(s) =~= s.skip(0));
        assert(trimmed_end(s) =~= s.take(0));
    }
}

/// Taking a character off the end takes all of it off, and nothing else.
pub proof fn a_character_is_trimmed(s: Seq<char>, c: char)
    ensures
        ({
            let t = trimmed_end_of(s, c);
            &&& t.len() <= s.len() && t == s.take(t.len() as int)
            &&& forall|i: int| t.len() <= i < s.len() ==> #[trigger] s[i] == c
            &&& t.len() > 0 ==> t[t.len() - 1] != c
        }),
    decreases s.len(),
{
    if s.len() > 0 && s.last() == c {
        let rest = s.drop_last();
        a_character_is_trimmed(rest, c);
        let t = trimmed_end_of(s, c);
        assert(t =~= s.take(t.len() as int));
        assert forall|i: int| t.len() <= i < s.len() implies #[trigger] s[i] == c by {
            if i < rest.len() {
                assert(rest[i] == s[i]);
            }
        }
    } else {
        assert(trimmed_end_of(s, c) =~= s.take(s.len() as int));
    }
}

/// The first difference decides which of two texts comes first; a text comes before every
/// longer one that begins with it.
pub proof fn the_first_difference_decides(
    head: Seq<char>,
    x: char,
    a: Seq<char>,
    y: char,
    b: Seq<char>,
)
    ensures
        x != y ==> (less(head + seq![x] + a, head + seq![y] + b) <==> x < y),
        less(head, head + seq![y] + b),
        !less(head + seq![y] + b, head),
    decreases head.len(),
{
    let left = head + seq![x] + a;
    let right = head + seq![y] + b;
    if head.len() > 0 {
        let rest = head.drop_first();
        the_first_difference_decides(rest, x, a, y, b);
        assert(left.drop_first() =~= rest + seq![x] + a);
        assert(right.drop_first() =~= rest + seq![y] + b);
        assert(left.first() == head.first());
        assert(right.first() == head.first());
    } else {
        assert(left.first() == x);
        assert(right.first() == y);
    }
}

/// A numeral is read in base ten, from its last digit on.
pub proof fn numerals_are_in_base_ten(s: Seq<char>, n: nat)
    requires
        n < 10,
    ensures
        numeral_value(s.push(('0' as u32 + n) as u32 as char)) == 10 * numeral_value(s) + n,
        numeral_value(Seq::empty()) == 0,
        all_digits(s) ==> forall|i: int| 0 <= i < s.len() ==> '0' <= #[trigger] s[i] <= '9',
{
    let c = ('0' as u32 + n) as u32 as char;
    assert(s.push(c).drop_last() =~= s);
    assert(s.push(c).last() == c);
    assert(c as u32 == '0' as u32 + n);
}

/// An unsigned number is written in digits, with or without a plus sign before them.
pub proof fn unsigned_numbers_are_digits(s: Seq<char>)
    ensures
        unsigned_of(s) matches Some(n) ==> {
            let digits = if s[0] == '+' {
                s.skip(1)
            } else {
                s
            };
            s.len() > 0 && all_digits(digits) && numeral_value(digits) == n
        },
        all_digits(s) && numeral_value(s) <= u64::MAX ==> unsigned_of(s) == Some(
            numeral_value(s) as u64,
        ),
        s.len() == 0 ==> unsigned_of(s) is None,
{
    if all_digits(s) {
        assert(is_digit(s[0]));
    }
}

/// What is found first is nowhere earlier.
pub proof fn the_first_is_found(s: Seq<char>, part: Seq<char>, at: int, other: int)
    requires
        is_first(s, part, at),
        0 <= other,
        other + part.len() <= s.len(),
        s.subrange(other, other + part.len()) == part,
    ensures
        at <= other,
        s.subrange(at, at + part.len()) == part,
        holds(s, part),
{
    assert(occurs_at(s, part, other));
}

/// The pieces of a text, joined again, are the text; none holds the separator.
pub proof fn pieces_make_the_text(s: Seq<char>, separator: char)
    ensures
        joined(split(s, separator), separator) == s,
        split(s, separator).len() > 0,
        forall|i: int|
            0 <= i < split(s, separator).len() ==> !(#[trigger] split(s, separator)[i]).contains(
                separator,
            ),
    decreases s.len(),
{
    pieces_hold_no_separator(s, separator);
    let pieces = split(s, separator);
    if s.len() > 0 {
        let rest = split(s.drop_last(), separator);
        pieces_make_the_text(s.drop_last(), separator);
        if s.last() == separator {
            assert(pieces.drop_last() =~= rest);
            assert(joined(pieces, separator) =~= s.drop_last().push(separator));
            assert(s =~= s.drop_last().push(s.last()));
        } else {
            assert(pieces.drop_last() =~= rest.drop_last());
            assert(s =~= s.drop_last().push(s.last()));
            if pieces.len() == 1 {
                assert(rest.len() == 1);
                assert(pieces[0] =~= rest[0].push(s.last()));
            } else {
                let before = joined(rest.drop_last(), separator).push(separator);
                assert(before + rest.last().push(s.last()) =~= (before + rest.last()).push(
                    s.last(),
                ));
            }
        }
    } else {
        assert(pieces[0] =~= s);
    }
}

} // verus!
