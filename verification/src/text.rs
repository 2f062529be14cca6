//! Text helpers on top of `str` and `String`, specified over sequences of characters.

use vstd::prelude::*;

verus! {

/// Whether a character from 128 on has the Unicode `White_Space` property, as
/// `char::is_whitespace` reports it.
pub uninterp spec fn wide_white_space(c: char) -> bool;

/// The white space of the ASCII range: tab, line feed, vertical tab, form feed, carriage
/// return and the space character.
pub open spec fn ascii_white_space(c: char) -> bool {
    9 <= c as u32 <= 13 || c as u32 == 32
}

/// Whether `c` is white space.
pub open spec fn white_space(c: char) -> bool {
    if (c as u32) < 128 {
        ascii_white_space(c)
    } else {
        wide_white_space(c)
    }
}

/// `char::is_whitespace`: the answer depends on the character alone. Of the characters below
/// 128 exactly the six listed by `ascii_white_space` have the property; of each of the others
/// no more is stated than that the answer is always the same.
pub assume_specification[ char::is_whitespace ](c: char) -> (r: bool)
    ensures
        (c as u32) < 128 ==> r == ascii_white_space(c),
        (c as u32) >= 128 ==> r == wide_white_space(c),
;

/// `String::push` appends one character.
pub assume_specification[ String::push ](s: &mut String, c: char)
    ensures
        final(s)@ == old(s)@.push(c),
;

/// `text` without its leading white space.
pub open spec fn trimmed_start(text: Seq<char>) -> Seq<char>
    decreases text.len(),
{
    if text.len() > 0 && white_space(text[0]) {
        trimmed_start(text.skip(1))
    } else {
        text
    }
}

/// `text` without its trailing white space.
pub open spec fn trimmed_end(text: Seq<char>) -> Seq<char>
    decreases text.len(),
{
    if text.len() > 0 && white_space(text.last()) {
        trimmed_end(text.drop_last())
    } else {
        text
    }
}

/// `text` without leading and trailing white space.
pub open spec fn trimmed(text: Seq<char>) -> Seq<char> {
    trimmed_end(trimmed_start(text))
}

/// The characters of a string.
pub fn chars_of(text: &str) -> (r: Vec<char>)
    ensures
        r@ == text@,
{
    let mut out: Vec<char> = Vec::new();
    for c in it: text.chars()
        invariant
            out@ == it.seq().take(it.index() as int),
            it.seq() == text@,
    {
        out.push(c);
    }
    out
}

/// Whether two strings hold the same characters.
pub fn same_text(a: &str, b: &str) -> (r: bool)
    ensures
        r == (a@ == b@),
{
    let x: &[u8] = a.as_bytes();
    let y: &[u8] = b.as_bytes();
    proof {
        vstd::utf8::encode_utf8_decode_utf8(a@);
        vstd::utf8::encode_utf8_decode_utf8(b@);
    }
    if x.len() != y.len() {
        return false;
    }
    let mut i: usize = 0;
    while i < x.len()
        invariant
            i <= x.len(),
            x.len() == y.len(),
            x@ == vstd::utf8::encode_utf8(a@),
            y@ == vstd::utf8::encode_utf8(b@),
            forall|j: int| 0 <= j < i ==> x@[j] == y@[j],
        decreases x.len() - i,
    {
        if x[i] != y[i] {
            return false;
        }
        i = i + 1;
    }
    assert(x@ =~= y@);
    true
}

/// `text` without leading and trailing white space.
pub fn trim(text: &str) -> (r: &str)
    ensures
        r@ == trimmed(text@),
{
    let chars: Vec<char> = chars_of(text);
    let mut start: usize = 0;
    assert(text@.skip(0) =~= text@);
    while start < chars.len() && chars[start].is_whitespace()
        invariant
            start <= chars.len(),
            chars@ == text@,
            trimmed_start(text@) == trimmed_start(text@.skip(start as int)),
        decreases chars.len() - start,
    {
        assert(text@.skip(start as int).skip(1) =~= text@.skip(start + 1));
        start = start + 1;
    }
    let ghost rest = text@.skip(start as int);
    assert(trimmed_start(text@) == rest) by {
        assert(start < text@.len() ==> rest[0] == text@[start as int]);
    }
    let mut end: usize = chars.len();
    assert(rest.take(rest.len() as int) =~= rest);
    while start < end && chars[end - 1].is_whitespace()
        invariant
            start <= end <= chars.len(),
            chars@ == text@,
            rest == text@.skip(start as int),
            trimmed_end(rest) == trimmed_end(rest.take(end - start)),
        decreases end,
    {
        assert(rest.take(end - start).drop_last() =~= rest.take(end - start - 1));
        assert(rest.take(end - start).last() == text@[end - 1]);
        end = end - 1;
    }
    let ghost kept = rest.take(end - start);
    assert(trimmed_end(rest) == kept) by {
        assert(kept.len() > 0 ==> kept.last() == text@[end - 1]);
    }
    assert(kept =~= text@.subrange(start as int, end as int));
    text.substring_char(start, end)
}

/// Whether `text` starts with `prefix`.
pub open spec fn has_prefix(text: Seq<char>, prefix: Seq<char>) -> bool {
    prefix.len() <= text.len() && text.take(prefix.len() as int) == prefix
}

/// Whether `text` ends with `suffix`.
pub open spec fn has_suffix(text: Seq<char>, suffix: Seq<char>) -> bool {
    suffix.len() <= text.len() && text.skip(text.len() - suffix.len()) == suffix
}

/// Whether `part` stands in `chars` at position `at`.
fn stands_at(chars: &Vec<char>, at: usize, part: &Vec<char>) -> (r: bool)
    requires
        at <= chars@.len(),
    ensures
        r == has_prefix(chars@.skip(at as int), part@),
{
    if part.len() > chars.len() - at {
        return false;
    }
    let mut i: usize = 0;
    while i < part.len()
        invariant
            i <= part.len(),
            at + part.len() <= chars.len(),
            forall|j: int| 0 <= j < i ==> part@[j] == chars@[at + j],
        decreases part.len() - i,
    {
        if part[i] != chars[at + i] {
            assert(chars@.skip(at as int).take(part@.len() as int)[i as int] != part@[i as int]);
            return false;
        }
        i = i + 1;
    }
    assert(chars@.skip(at as int).take(part@.len() as int) =~= part@);
    true
}

/// The rest of `text` behind `prefix`, or `None` if `text` does not start with it.
pub fn strip_prefix<'a>(text: &'a str, prefix: &str) -> (r: Option<&'a str>)
    ensures
        has_prefix(text@, prefix@) <==> r is Some,
        r matches Some(rest) ==> rest@ == text@.skip(prefix@.len() as int),
{
    let chars: Vec<char> = chars_of(text);
    let part: Vec<char> = chars_of(prefix);
    assert(chars@.skip(0) =~= text@);
    if stands_at(&chars, 0, &part) {
        assert(text@.skip(prefix@.len() as int) =~= text@.subrange(prefix@.len() as int, text@.len() as int));
        Some(text.substring_char(part.len(), chars.len()))
    } else {
        None
    }
}

/// `text` with every leading repetition of `part` removed.
pub open spec fn without_leading(text: Seq<char>, part: Seq<char>) -> Seq<char>
    decreases text.len(),
{
    if part.len() > 0 && has_prefix(text, part) {
        without_leading(text.skip(part.len() as int), part)
    } else {
        text
    }
}

/// `text` with every trailing repetition of `part` removed.
pub open spec fn without_trailing(text: Seq<char>, part: Seq<char>) -> Seq<char>
    decreases text.len(),
{
    if part.len() > 0 && has_suffix(text, part) {
        without_trailing(text.take(text.len() - part.len()), part)
    } else {
        text
    }
}

/// `text` with every leading repetition of `part` removed.
pub fn trim_start_matches<'a>(text: &'a str, part: &str) -> (r: &'a str)
    ensures
        r@ == without_leading(text@, part@),
{
    let chars: Vec<char> = chars_of(text);
    let piece: Vec<char> = chars_of(part);
    let mut start: usize = 0;
    assert(text@.skip(0) =~= text@);
    while piece.len() > 0 && stands_at(&chars, start, &piece)
        invariant
            start <= chars.len(),
            chars@ == text@,
            piece@ == part@,
            without_leading(text@, part@) == without_leading(text@.skip(start as int), part@),
        decreases chars.len() - start,
    {
        assert(text@.skip(start as int).skip(part@.len() as int) =~= text@.skip(
            start + part@.len(),
        ));
        start = start + piece.len();
    }
    assert(text@.skip(start as int) =~= text@.subrange(start as int, text@.len() as int));
    text.substring_char(start, chars.len())
}

/// `text` with every trailing repetition of `part` removed.
pub fn trim_end_matches<'a>(text: &'a str, part: &str) -> (r: &'a str)
    ensures
        r@ == without_trailing(text@, part@),
{
    let mut chars: Vec<char> = chars_of(text);
    let piece: Vec<char> = chars_of(part);
    assert(text@.take(text@.len() as int) =~= text@);
    while piece.len() > 0 && piece.len() <= chars.len() && stands_at(
        &chars,
        chars.len() - piece.len(),
        &piece,
    )
        invariant
            chars@.len() <= text@.len(),
            chars@ == text@.take(chars@.len() as int),
            piece@ == part@,
            without_trailing(text@, part@) == without_trailing(chars@, part@),
        decreases chars.len(),
    {
        let keep: usize = chars.len() - piece.len();
        let ghost before = chars@;
        assert(before.skip(keep as int).take(part@.len() as int) =~= before.skip(keep as int));
        chars.truncate(keep);
        assert(chars@ =~= before.take(before.len() - part@.len()));
        assert(chars@ =~= text@.take(keep as int));
    }
    assert(without_trailing(chars@, part@) == chars@) by {
        if part@.len() > 0 && has_suffix(chars@, part@) {
            let tail = chars@.skip(chars@.len() - part@.len());
            assert(tail.take(part@.len() as int) =~= tail);
        }
    }
    assert(chars@ =~= text@.subrange(0, chars@.len() as int));
    text.substring_char(0, chars.len())
}

/// The pieces of `items` with `sep` between neighbours.
pub open spec fn joined(items: Seq<Seq<char>>, sep: Seq<char>) -> Seq<char>
    decreases items.len(),
{
    if items.len() == 0 {
        Seq::empty()
    } else if items.len() == 1 {
        items[0]
    } else {
        joined(items.drop_last(), sep) + sep + items.last()
    }
}

/// The character sequences of a list of strings.
pub open spec fn texts(items: Seq<String>) -> Seq<Seq<char>> {
    items.map_values(|s: String| s@)
}

/// The characters of an optional string.
pub open spec fn optional_text(text: Option<String>) -> Option<Seq<char>> {
    match text {
        Some(s) => Some(s@),
        None => None,
    }
}

/// A copy of an optional string.
pub fn copy_optional(text: &Option<String>) -> (r: Option<String>)
    ensures
        optional_text(r) == optional_text(*text),
{
    match text {
        Some(s) => Some(s.clone()),
        None => None,
    }
}

/// The strings of `items` with `sep` between neighbours.
pub fn join(items: &[String], sep: &str) -> (r: String)
    ensures
        r@ == joined(texts(items@), sep@),
{
    let mut out: String = String::new();
    let ghost all = texts(items@);
    let mut i: usize = 0;
    assert(all.take(0) =~= Seq::<Seq<char>>::empty());
    while i < items.len()
        invariant
            i <= items.len(),
            all == texts(items@),
            out@ == joined(all.take(i as int), sep@),
        decreases items.len() - i,
    {
        proof {
            assert(all.take(i + 1).drop_last() =~= all.take(i as int));
            assert(all.take(i + 1).last() == items@[i as int]@);
        }
        if i > 0 {
            out.append(sep);
        }
        out.append(items[i].as_str());
        i = i + 1;
    }
    assert(all.take(i as int) =~= all);
    out
}

/// `text` with every `from` replaced by `to`.
pub open spec fn replaced(text: Seq<char>, from: char, to: char) -> Seq<char> {
    text.map_values(|c: char| if c == from { to } else { c })
}

/// `text` with every `from` replaced by `to`.
pub fn replace_char(text: &str, from: char, to: char) -> (r: String)
    ensures
        r@ == replaced(text@, from, to),
{
    let mut out: String = String::new();
    for c in it: text.chars()
        invariant
            it.seq() == text@,
            out@ == replaced(text@.take(it.index() as int), from, to),
    {
        let ghost done = text@.take(it.index() as int);
        assert(text@.take(it.index() + 1) =~= done.push(c));
        let next: char = if c == from { to } else { c };
        out.push(next);
        assert(out@ =~= replaced(done.push(c), from, to));
    }
    assert(text@.take(text@.len() as int) =~= text@);
    out
}

/// The decimal digit `d`.
pub open spec fn digit(d: nat) -> char {
    ('0' as u32 + d) as char
}

/// `n` in decimal, without leading zeros.
pub open spec fn decimal(n: nat) -> Seq<char>
    decreases n,
{
    if n < 10 {
        seq![digit(n)]
    } else {
        decimal(n / 10).push(digit(n % 10))
    }
}

/// `n` in decimal, without leading zeros.
pub fn decimal_text(n: u64) -> (r: String)
    ensures
        r@ == decimal(n as nat),
    decreases n,
{
    let mut out: String = if n < 10 {
        String::new()
    } else {
        decimal_text(n / 10)
    };
    let low: u8 = (n % 10) as u8;
    out.push((48 + low) as char);
    assert(out@ =~= decimal(n as nat));
    out
}

/// Whether `a` comes before `b` in the order of their code points, which is also the order of
/// their UTF-8 bytes.
pub open spec fn text_less(a: Seq<char>, b: Seq<char>) -> bool
    decreases a.len(),
{
    if b.len() == 0 {
        false
    } else if a.len() == 0 {
        true
    } else if a[0] != b[0] {
        a[0] < b[0]
    } else {
        text_less(a.skip(1), b.skip(1))
    }
}

/// Whether `a` comes before `b` in the order of their code points.
pub fn text_before(a: &str, b: &str) -> (r: bool)
    ensures
        r == text_less(a@, b@),
{
    let x: Vec<char> = chars_of(a);
    let y: Vec<char> = chars_of(b);
    assert(x@.skip(0) =~= a@);
    assert(y@.skip(0) =~= b@);
    let mut i: usize = 0;
    while i < x.len() && i < y.len()
        invariant
            i <= x.len(),
            i <= y.len(),
            text_less(a@, b@) == text_less(x@.skip(i as int), y@.skip(i as int)),
        decreases x.len() - i,
    {
        assert(x@.skip(i as int)[0] == x@[i as int]);
        assert(y@.skip(i as int)[0] == y@[i as int]);
        if x[i] != y[i] {
            return x[i] < y[i];
        }
        assert(x@.skip(i as int).skip(1) =~= x@.skip(i + 1));
        assert(y@.skip(i as int).skip(1) =~= y@.skip(i + 1));
        i = i + 1;
    }
    i < y.len()
}

/// Of two texts at most one comes before the other, and if neither does they are equal.
pub proof fn text_order_is_total(a: Seq<char>, b: Seq<char>)
    ensures
        !(text_less(a, b) && text_less(b, a)),
        text_less(a, b) || text_less(b, a) || a == b,
    decreases a.len(),
{
    if a.len() > 0 && b.len() > 0 && a[0] == b[0] {
        text_order_is_total(a.skip(1), b.skip(1));
        if a.skip(1) == b.skip(1) {
            assert forall|i: int| 0 <= i < a.len() implies a[i] == b[i] by {
                if i > 0 {
                    assert(a[i] == a.skip(1)[i - 1]);
                    assert(b[i] == b.skip(1)[i - 1]);
                }
            }
            assert(a.len() == b.len()) by {
                assert(a.skip(1).len() == b.skip(1).len());
            }
            assert(a =~= b);
        }
    } else if a.len() == 0 && b.len() == 0 {
        assert(a =~= b);
    }
}

/// A text that comes before a second one, which comes before a third one, comes before the third.
pub proof fn text_order_is_transitive(a: Seq<char>, b: Seq<char>, c: Seq<char>)
    requires
        text_less(a, b),
        text_less(b, c),
    ensures
        text_less(a, c),
    decreases a.len(),
{
    if a.len() > 0 && a[0] == b[0] && b[0] == c[0] {
        text_order_is_transitive(a.skip(1), b.skip(1), c.skip(1));
    }
}

/// Whether a text is all white space.
pub open spec fn is_blank(text: Seq<char>) -> bool {
    forall|i: int| 0 <= i < text.len() ==> white_space(#[trigger] text[i])
}

/// Leading white space goes, and nothing else does.
proof fn lemma_trimmed_start(space: Seq<char>, rest: Seq<char>)
    requires
        is_blank(space),
        rest.len() > 0 ==> !white_space(rest[0]),
    ensures
        trimmed_start(space + rest) == rest,
    decreases space.len(),
{
    if space.len() > 0 {
        assert((space + rest)[0] == space[0]);
        assert((space + rest).skip(1) =~= space.skip(1) + rest);
        lemma_trimmed_start(space.skip(1), rest);
    } else {
        assert(space + rest =~= rest);
    }
}

/// Trailing white space goes, and nothing else does.
proof fn lemma_trimmed_end(rest: Seq<char>, space: Seq<char>)
    requires
        is_blank(space),
        rest.len() > 0 ==> !white_space(rest.last()),
    ensures
        trimmed_end(rest + space) == rest,
    decreases space.len(),
{
    if space.len() > 0 {
        assert((rest + space).last() == space[space.len() - 1]);
        assert((rest + space).drop_last() =~= rest + space.drop_last());
        lemma_trimmed_end(rest, space.drop_last());
    } else {
        assert(rest + space =~= rest);
    }
}

/// Trimming takes the white space from both ends of a text and leaves the rest as it is.
pub proof fn trimming_strips_white_space(before: Seq<char>, text: Seq<char>, after: Seq<char>)
    requires
        is_blank(before),
        is_blank(after),
        text.len() > 0 ==> !white_space(text[0]) && !white_space(text.last()),
    ensures
        trimmed(before + text + after) == text,
{
    if text.len() == 0 {
        let all = before + text + after;
        assert forall|i: int| 0 <= i < all.len() implies white_space(#[trigger] all[i]) by {
            if i < before.len() {
                assert(all[i] == before[i]);
            } else {
                assert(all[i] == after[i - before.len()]);
            }
        }
        assert(all =~= all + text);
        lemma_trimmed_start(all, text);
        assert(trimmed_end(text) == text);
    } else {
        assert(before + text + after =~= before + (text + after));
        assert((text + after)[0] == text[0]);
        lemma_trimmed_start(before, text + after);
        lemma_trimmed_end(text, after);
    }
}

/// Joining puts the separator between the items and nowhere else: one item stays as it is, and
/// every further one follows a separator.
pub proof fn joining_separates(items: Seq<Seq<char>>, item: Seq<char>, sep: Seq<char>)
    ensures
        joined(seq![item], sep) == item,
        items.len() > 0 ==> joined(items.push(item), sep) == joined(items, sep) + sep + item,
{
    if items.len() > 0 {
        assert(items.push(item).drop_last() =~= items);
    }
}

/// Texts are ordered like words in a dictionary: a text comes before every longer one that
/// begins with it, and otherwise the first character that differs decides.
pub proof fn texts_are_ordered_like_words(
    common: Seq<char>,
    a: char,
    b: char,
    rest_a: Seq<char>,
    rest_b: Seq<char>,
)
    requires
        a != b,
    ensures
        text_less(common, common.push(a) + rest_a),
        !text_less(common.push(a) + rest_a, common),
        !text_less(common, common),
        text_less(common.push(a) + rest_a, common.push(b) + rest_b) == (a < b),
    decreases common.len(),
{
    let x = common.push(a) + rest_a;
    let y = common.push(b) + rest_b;
    if common.len() == 0 {
        assert(x[0] == a && y[0] == b);
    } else {
        assert(x[0] == common[0] && y[0] == common[0]);
        assert(x.skip(1) =~= common.skip(1).push(a) + rest_a);
        assert(y.skip(1) =~= common.skip(1).push(b) + rest_b);
        texts_are_ordered_like_words(common.skip(1), a, b, rest_a, rest_b);
    }
}

/// Appending a digit to a number appends it to its decimal form.
pub proof fn decimal_grows_by_digits(n: nat, d: nat)
    requires
        d < 10,
    ensures
        decimal(d) == seq![(48 + d) as char],
        n > 0 ==> decimal(10 * n + d) == decimal(n).push((48 + d) as char),
{
    assert((10 * n + d) / 10 == n && (10 * n + d) % 10 == d) by (nonlinear_arith)
        requires
            d < 10,
    ;
}

/// Repetitions of a part at an end go, and the rest stays: a part in front of a text that does not
/// begin with it is taken away, and so is one behind a text that does not end with it.
pub proof fn parts_are_stripped(text: Seq<char>, part: Seq<char>)
    requires
        part.len() > 0,
    ensures
        !has_prefix(text, part) ==> without_leading(text, part) == text && without_leading(
            part + text,
            part,
        ) == text,
        !has_suffix(text, part) ==> without_trailing(text, part) == text && without_trailing(
            text + part,
            part,
        ) == text,
{
    assert((part + text).take(part.len() as int) =~= part);
    assert((part + text).skip(part.len() as int) =~= text);
    assert((text + part).skip(text.len() as int) =~= part);
    assert((text + part).take(text.len() as int) =~= text);
    reveal_with_fuel(without_leading, 2);
    reveal_with_fuel(without_trailing, 2);
}

/// Strings are taken by their characters: a list of them one by one, and an optional one if it is
/// there.
pub proof fn strings_are_their_characters(items: Seq<String>, text: Option<String>)
    ensures
        texts(items).len() == items.len(),
        forall|i: int| 0 <= i < items.len() ==> #[trigger] texts(items)[i] == items[i]@,
        match text {
            Some(s) => optional_text(text) == Some(s@),
            None => optional_text(text) is None,
        },
{
}

/// Replacing a character puts the other in each of its places, and leaves the rest as it is.
pub proof fn every_occurrence_is_replaced(text: Seq<char>, from: char, to: char)
    ensures
        replaced(text, from, to).len() == text.len(),
        forall|i: int|
            0 <= i < text.len() ==> #[trigger] replaced(text, from, to)[i] == (if text[i] == from {
                to
            } else {
                text[i]
            }),
{
}

} // verus!
