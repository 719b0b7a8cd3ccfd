//! Strings as sequences of characters: equality, prefixes, order, whitespace.

use vstd::prelude::*;

verus! {

/// `String::push` appends one character.
pub assume_specification[ String::push ](text: &mut String, c: char)
    ensures
        final(text)@ == old(text)@.push(c),
;

/// `prefix` is an initial part of `text`.
pub open spec fn has_prefix(text: Seq<char>, prefix: Seq<char>) -> bool {
    prefix.len() <= text.len() && text.take(prefix.len() as int) == prefix
}

/// The order of strings: the first character in which they differ decides, by its
/// code point; a proper prefix comes first.
pub open spec fn text_lt(a: Seq<char>, b: Seq<char>) -> bool
    decreases a.len(),
{
    if b.len() == 0 {
        false
    } else if a.len() == 0 {
        true
    } else if a[0] == b[0] {
        text_lt(a.drop_first(), b.drop_first())
    } else {
        a[0] < b[0]
    }
}

/// No string comes before itself.
pub proof fn text_order_is_irreflexive(a: Seq<char>)
    ensures
        !text_lt(a, a),
    decreases a.len(),
{
    if a.len() > 0 {
        text_order_is_irreflexive(a.drop_first());
    }
}

/// If `a` comes before `b` and `b` before `c`, `a` comes before `c`.
pub proof fn text_order_is_transitive(a: Seq<char>, b: Seq<char>, c: Seq<char>)
    requires
        text_lt(a, b),
        text_lt(b, c),
    ensures
        text_lt(a, c),
    decreases a.len(),
{
    if a.len() > 0 && a[0] == b[0] && b[0] == c[0] {
        text_order_is_transitive(a.drop_first(), b.drop_first(), c.drop_first());
    }
}

/// Of two different strings one comes before the other.
pub proof fn text_order_is_total(a: Seq<char>, b: Seq<char>)
    ensures
        text_lt(a, b) || a == b || text_lt(b, a),
    decreases a.len(),
{
    if a.len() > 0 && b.len() > 0 && a[0] == b[0] {
        text_order_is_total(a.drop_first(), b.drop_first());
        if a.drop_first() == b.drop_first() {
            assert(a == seq![a[0]] + a.drop_first());
            assert(b == seq![b[0]] + b.drop_first());
        }
    } else if a.len() == 0 && b.len() == 0 {
        assert(a == b);
    }
}

/// A character of the Unicode property `White_Space`.
pub open spec fn is_white_space(c: char) -> bool {
    let code = c as u32;
    ||| 0x9 <= code <= 0xd
    ||| code == 0x20
    ||| code == 0x85
    ||| code == 0xa0
    ||| code == 0x1680
    ||| 0x2000 <= code <= 0x200a
    ||| code == 0x2028
    ||| code == 0x2029
    ||| code == 0x202f
    ||| code == 0x205f
    ||| code == 0x3000
}

/// `text` without its leading and trailing whitespace.
pub open spec fn trimmed(text: Seq<char>) -> Seq<char>
    decreases text.len(),
{
    if text.len() > 0 && is_white_space(text[0]) {
        trimmed(text.drop_first())
    } else if text.len() > 0 && is_white_space(text.last()) {
        trimmed(text.drop_last())
    } else {
        text
    }
}

/// The characters of a string.
pub fn text_chars(text: &str) -> (chars: Vec<char>)
    ensures
        chars@ == text@,
{
    let mut chars: Vec<char> = Vec::new();
    for c in it: text.chars()
        invariant
            it.seq() == text@,
            chars@ == text@.take(it.index() as int),
    {
        chars.push(c);
    }
    assert(text@.take(text@.len() as int) == text@);
    chars
}

/// Whether two strings hold the same characters.
pub fn same_text(a: &str, b: &str) -> (same: bool)
    ensures
        same == (a@ == b@),
{
    let left = text_chars(a);
    let right = text_chars(b);
    if left.len() != right.len() {
        return false;
    }
    for i in 0..left.len()
        invariant
            left@ == a@,
            right@ == b@,
            left@.len() == right@.len(),
            forall|j: int| 0 <= j < i ==> left@[j] == right@[j],
    {
        if left[i] != right[i] {
            return false;
        }
    }
    assert(a@ == b@);
    true
}

/// Whether `text` begins with `prefix`.
pub fn starts_with(text: &str, prefix: &str) -> (starts: bool)
    ensures
        starts == has_prefix(text@, prefix@),
{
    let whole = text_chars(text);
    let start = text_chars(prefix);
    if start.len() > whole.len() {
        return false;
    }
    for i in 0..start.len()
        invariant
            whole@ == text@,
            start@ == prefix@,
            start@.len() <= whole@.len(),
            forall|j: int| 0 <= j < i ==> whole@[j] == start@[j],
    {
        if whole[i] != start[i] {
            assert(text@.take(prefix@.len() as int)[i as int] != prefix@[i as int]);
            return false;
        }
    }
    assert(text@.take(prefix@.len() as int) == prefix@);
    true
}

/// Whether `a` comes before `b`.
pub fn precedes(a: &str, b: &str) -> (before: bool)
    ensures
        before == text_lt(a@, b@),
{
    let left = text_chars(a);
    let right = text_chars(b);
    let mut i: usize = 0;
    assert(a@.skip(0) == a@);
    assert(b@.skip(0) == b@);
    while i < left.len() && i < right.len()
        invariant
            left@ == a@,
            right@ == b@,
            i <= left@.len(),
            i <= right@.len(),
            text_lt(a@, b@) == text_lt(a@.skip(i as int), b@.skip(i as int)),
        decreases left@.len() - i,
    {
        if left[i] != right[i] {
            return left[i] < right[i];
        }
        assert(a@.skip(i as int).drop_first() == a@.skip(i + 1));
        assert(b@.skip(i as int).drop_first() == b@.skip(i + 1));
        i += 1;
    }
    i < right.len()
}

/// The string without leading and trailing whitespace.
pub fn trim_text(text: &str) -> (inner: String)
    ensures
        inner@ == trimmed(text@),
{
    let chars = text_chars(text);
    let mut start: usize = 0;
    let mut end: usize = chars.len();
    assert(text@.subrange(0, text@.len() as int) == text@);
    while start < end && white_space(chars[start])
        invariant
            chars@ == text@,
            start <= end <= chars@.len(),
            trimmed(text@) == trimmed(text@.subrange(start as int, end as int)),
        decreases end - start,
    {
        assert(text@.subrange(start as int, end as int).drop_first() == text@.subrange(
            start + 1,
            end as int,
        ));
        start += 1;
    }
    while start < end && white_space(chars[end - 1])
        invariant
            chars@ == text@,
            start <= end <= chars@.len(),
            start < end ==> !is_white_space(chars@[start as int]),
            trimmed(text@) == trimmed(text@.subrange(start as int, end as int)),
        decreases end - start,
    {
        assert(text@.subrange(start as int, end as int).drop_last() == text@.subrange(
            start as int,
            end - 1,
        ));
        end -= 1;
    }
    let mut inner = String::new();
    let mut i: usize = start;
    while i < end
        invariant
            chars@ == text@,
            start <= i <= end <= chars@.len(),
            inner@ == text@.subrange(start as int, i as int),
        decreases end - i,
    {
        inner.push(chars[i]);
        i += 1;
    }
    inner
}

/// Whether a character is whitespace.
fn white_space(c: char) -> (white: bool)
    ensures
        white == is_white_space(c),
{
    let code: u32 = c as u32;
    (0x9 <= code && code <= 0xd) || code == 0x20 || code == 0x85 || code == 0xa0 || code == 0x1680
        || (0x2000 <= code && code <= 0x200a) || code == 0x2028 || code == 0x2029 || code == 0x202f
        || code == 0x205f || code == 0x3000
}

/// A string begins with a prefix if and only if it is the prefix with something behind it.
pub proof fn starting_with_is_having_a_rest(text: &str, prefix: &str, starts: bool)
    requires
        call_ensures(starts_with, (text, prefix), starts),
    ensures
        starts <==> prefix@.is_prefix_of(text@),
        starts <==> exists|rest: Seq<char>| text@ == #[trigger] (prefix@ + rest),
{
    let count = prefix@.len() as int;
    if count <= text@.len() {
        assert(text@.take(count) == text@.subrange(0, count));
    }
    if starts {
        assert(text@ == prefix@ + text@.skip(count));
    }
    assert forall|rest: Seq<char>| text@ == #[trigger] (prefix@ + rest) implies starts by {
        assert(text@.take(count) == prefix@);
    }
}

proof fn text_order_by_first_difference(a: Seq<char>, b: Seq<char>, place: int)
    requires
        0 <= place <= a.len(),
        place <= b.len(),
        a.take(place) == b.take(place),
    ensures
        place == a.len() ==> (text_lt(a, b) <==> place < b.len()),
        place == b.len() ==> !text_lt(a, b),
        place < a.len() && place < b.len() && a[place] != b[place] ==> (text_lt(a, b) <==> a[place]
            < b[place]),
    decreases place,
{
    if place > 0 {
        assert(a[0] == a.take(place)[0] && b[0] == b.take(place)[0]);
        assert(a.drop_first().take(place - 1) == a.take(place).drop_first());
        assert(b.drop_first().take(place - 1) == b.take(place).drop_first());
        text_order_by_first_difference(a.drop_first(), b.drop_first(), place - 1);
    }
}

proof fn first_difference(a: Seq<char>, b: Seq<char>) -> (place: int)
    ensures
        0 <= place <= a.len(),
        place <= b.len(),
        a.take(place) == b.take(place),
        place == a.len() || place == b.len() || a[place] != b[place],
    decreases a.len(),
{
    if a.len() > 0 && b.len() > 0 && a[0] == b[0] {
        let rest = first_difference(a.drop_first(), b.drop_first());
        assert(a.take(rest + 1) == seq![a[0]] + a.drop_first().take(rest));
        assert(b.take(rest + 1) == seq![b[0]] + b.drop_first().take(rest));
        rest + 1
    } else {
        assert(a.take(0) == b.take(0));
        0
    }
}

/// One string comes before another if and only if they agree up to some place at which the
/// one ends and the other does not, or has the smaller character.
pub proof fn first_difference_decides_the_order(a: &str, b: &str, before: bool)
    requires
        call_ensures(precedes, (a, b), before),
    ensures
        before <==> exists|place: int|
            0 <= place <= a@.len() && place < b@.len() && #[trigger] a@.take(place) == b@.take(place)
                && (place < a@.len() ==> a@[place] < b@[place]),
{
    let place = first_difference(a@, b@);
    text_order_by_first_difference(a@, b@, place);
    assert forall|other: int|
        0 <= other <= a@.len() && other < b@.len() && #[trigger] a@.take(other) == b@.take(other)
            && (other < a@.len() ==> a@[other] < b@[other]) implies before by {
        text_order_by_first_difference(a@, b@, other);
    }
}

proof fn trimmed_is_a_part(text: Seq<char>) -> (bounds: (int, int))
    ensures
        0 <= bounds.0 <= bounds.1 <= text.len(),
        trimmed(text) == text.subrange(bounds.0, bounds.1),
        forall|i: int| 0 <= i < bounds.0 ==> is_white_space(#[trigger] text[i]),
        forall|i: int| bounds.1 <= i < text.len() ==> is_white_space(#[trigger] text[i]),
        bounds.0 < bounds.1 ==> !is_white_space(text[bounds.0]) && !is_white_space(
            text[bounds.1 - 1],
        ),
    decreases text.len(),
{
    if text.len() > 0 && is_white_space(text[0]) {
        let inner = text.drop_first();
        let (start, end) = trimmed_is_a_part(inner);
        assert(text.subrange(start + 1, end + 1) == inner.subrange(start, end));
        assert forall|i: int| 0 <= i < start + 1 implies is_white_space(#[trigger] text[i]) by {
            if i > 0 {
                assert(inner[i - 1] == text[i]);
            }
        }
        assert forall|i: int| end + 1 <= i < text.len() implies is_white_space(
            #[trigger] text[i],
        ) by {
            assert(inner[i - 1] == text[i]);
        }
        (start + 1, end + 1)
    } else if text.len() > 0 && is_white_space(text.last()) {
        let inner = text.drop_last();
        let (start, end) = trimmed_is_a_part(inner);
        assert(text.subrange(start, end) == inner.subrange(start, end));
        assert forall|i: int| 0 <= i < start implies is_white_space(#[trigger] text[i]) by {
            assert(inner[i] == text[i]);
        }
        assert forall|i: int| end <= i < text.len() implies is_white_space(#[trigger] text[i]) by {
            if i < inner.len() {
                assert(inner[i] == text[i]);
            }
        }
        (start, end)
    } else {
        assert(text.subrange(0, text.len() as int) == text);
        (0, text.len() as int)
    }
}

/// Trimming takes whitespace, and nothing else, from both ends, and leaves none there.
pub proof fn trimming_takes_all_whitespace_at_the_ends(
    text: &str,
    inner: String,
    white: spec_fn(char) -> bool,
)
    requires
        call_ensures(trim_text, (text,), inner),
        forall|c: char| #[trigger]
            white(c) <==> {
                ||| 0x9 <= c as u32 <= 0xd
                ||| c as u32 == 0x20
                ||| c as u32 == 0x85
                ||| c as u32 == 0xa0
                ||| c as u32 == 0x1680
                ||| 0x2000 <= c as u32 <= 0x200a
                ||| c as u32 == 0x2028
                ||| c as u32 == 0x2029
                ||| c as u32 == 0x202f
                ||| c as u32 == 0x205f
                ||| c as u32 == 0x3000
            },
    ensures
        inner@.len() > 0 ==> !white(inner@[0]) && !white(inner@.last()),
        exists|start: int, end: int|
            {
                &&& 0 <= start <= end <= text@.len()
                &&& inner@ == #[trigger] text@.subrange(start, end)
                &&& forall|i: int| 0 <= i < start ==> white(#[trigger] text@[i])
                &&& forall|i: int| end <= i < text@.len() ==> white(#[trigger] text@[i])
            },
{
    let (start, end) = trimmed_is_a_part(text@);
    assert(inner@ == text@.subrange(start, end));
}

/// Two strings are the same if and only if they have the same characters at the same places.
pub proof fn same_strings_have_the_same_characters(a: &str, b: &str, same: bool)
    requires
        call_ensures(same_text, (a, b), same),
    ensures
        same <==> a@.len() == b@.len() && forall|i: int|
            0 <= i < a@.len() ==> #[trigger] a@[i] == b@[i],
{
    if a@.len() == b@.len() && (forall|i: int| 0 <= i < a@.len() ==> #[trigger] a@[i] == b@[i]) {
        assert(a@ == b@);
    }
}

} // verus!
