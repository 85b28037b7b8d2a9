//! Text as sequences of characters: what the operator's strings are made of.

use vstd::prelude::*;
use vstd::string::*;

verus! {

/// `String::push` appends the character to the string.
pub assume_specification[ String::push ](text: &mut String, c: char)
    ensures
        final(text)@ == old(text)@.push(c),
;

/// Whether a character is whitespace: whether it has Unicode's `White_Space`
/// property.
pub open spec fn whitespace(c: char) -> bool {
    ||| '\u{9}' <= c && c <= '\u{d}'
    ||| c == ' '
    ||| c == '\u{85}'
    ||| c == '\u{a0}'
    ||| c == '\u{1680}'
    ||| '\u{2000}' <= c && c <= '\u{200a}'
    ||| c == '\u{2028}'
    ||| c == '\u{2029}'
    ||| c == '\u{202f}'
    ||| c == '\u{205f}'
    ||| c == '\u{3000}'
}

/// `char::is_whitespace` says which characters have Unicode's `White_Space`
/// property.
pub assume_specification[ char::is_whitespace ](c: char) -> (r: bool)
    ensures
        r == whitespace(c),
;

/// What `{:?}` prints for a string: the string in double quotes, escaped.
pub uninterp spec fn quoted_text(text: Seq<char>) -> Seq<char>;

/// The `Debug` formatting of `str`, through `format!("{:?}")`; the result is
/// a function of the string.
#[verifier::external_body]
pub(crate) fn quoted(text: &str) -> (r: String)
    ensures
        r@ == quoted_text(text@),
{
    format!("{:?}", text)
}

// --- Views

/// The characters of an optional string.
pub open spec fn opt_view(text: Option<String>) -> Option<Seq<char>> {
    match text {
        Some(s) => Some(s@),
        None => None,
    }
}

/// The characters of every string of a list.
pub open spec fn views(list: Seq<String>) -> Seq<Seq<char>> {
    list.map_values(|s: String| s@)
}

/// An optional string that counts as absent when it is empty.
pub open spec fn non_empty(text: Option<Seq<char>>) -> Option<Seq<char>> {
    match text {
        Some(t) => if t.len() == 0 { None } else { Some(t) },
        None => None,
    }
}

// --- Properties of text

/// Whether `text` ends in `c`.
pub open spec fn ends_in(text: Seq<char>, c: char) -> bool {
    text.len() > 0 && text.last() == c
}

/// `text` without the run of `c` at its end.
pub open spec fn without_trailing(text: Seq<char>, c: char) -> Seq<char>
    decreases text.len(),
{
    if ends_in(text, c) {
        without_trailing(text.drop_last(), c)
    } else {
        text
    }
}

/// `text` without the whitespace at its start.
pub open spec fn without_leading_space(text: Seq<char>) -> Seq<char>
    decreases text.len(),
{
    if text.len() > 0 && whitespace(text.first()) {
        without_leading_space(text.drop_first())
    } else {
        text
    }
}

/// `text` without the whitespace at its end.
pub open spec fn without_trailing_space(text: Seq<char>) -> Seq<char>
    decreases text.len(),
{
    if text.len() > 0 && whitespace(text.last()) {
        without_trailing_space(text.drop_last())
    } else {
        text
    }
}

/// `text` without the whitespace around it.
pub open spec fn trimmed(text: Seq<char>) -> Seq<char> {
    without_trailing_space(without_leading_space(text))
}

/// Whether `part` stands in `text` at position `at`.
pub open spec fn stands_at(text: Seq<char>, part: Seq<char>, at: int) -> bool {
    0 <= at && at + part.len() <= text.len() && text.subrange(at, at + part.len()) == part
}

/// Whether `part` stands somewhere in `text`.
pub open spec fn holds(text: Seq<char>, part: Seq<char>) -> bool {
    exists|at: int| stands_at(text, part, at)
}

/// The first `limit` characters of `text`, or all of it if it is shorter.
pub open spec fn capped(text: Seq<char>, limit: nat) -> Seq<char> {
    if text.len() <= limit {
        text
    } else {
        text.take(limit as int)
    }
}

/// The decimal digit for a value below ten.
pub open spec fn digit(value: nat) -> char {
    (48 + value) as char
}

/// The decimal notation of a number, without leading zeros.
pub open spec fn decimal(n: nat) -> Seq<char>
    decreases n,
{
    if n < 10 {
        seq![digit(n)]
    } else {
        decimal(n / 10).push(digit(n % 10))
    }
}

/// The parts in order, with `separator` between neighbours.
pub open spec fn joined(parts: Seq<Seq<char>>, separator: Seq<char>) -> Seq<char>
    decreases parts.len(),
{
    if parts.len() == 0 {
        Seq::empty()
    } else if parts.len() == 1 {
        parts[0]
    } else {
        joined(parts.drop_last(), separator) + separator + parts.last()
    }
}

// --- Functions on text

/// Compares two strings.
pub fn same(a: &str, b: &str) -> (r: bool)
    ensures
        r == (a@ == b@),
{
    a.to_owned() == b.to_owned()
}

/// Whether an optional string is present and equal to `text`.
pub fn is_text(option: &Option<String>, text: &str) -> (r: bool)
    ensures
        r == (opt_view(*option) == Some(text@)),
{
    match option {
        Some(s) => same(s.as_str(), text),
        None => false,
    }
}

/// Whether two optional strings are equal, an empty one being an absent one.
pub fn same_non_empty(a: &Option<String>, b: &Option<String>) -> (r: bool)
    ensures
        r == (non_empty(opt_view(*a)) == non_empty(opt_view(*b))),
{
    match (a, b) {
        (Some(a), Some(b)) => {
            proof {
                if a@.len() == 0 && b@.len() == 0 {
                    assert(a@ =~= b@);
                }
            }
            same(a.as_str(), b.as_str())
        },
        (Some(a), None) => a.as_str().unicode_len() == 0,
        (None, Some(b)) => b.as_str().unicode_len() == 0,
        (None, None) => true,
    }
}

/// Whether `text` ends in `c`.
pub fn ends_with(text: &str, c: char) -> (r: bool)
    ensures
        r == ends_in(text@, c),
{
    let n: usize = text.unicode_len();
    n > 0 && text.get_char(n - 1) == c
}

/// `text` without the run of `c` at its end.
pub fn trim_end(text: &str, c: char) -> (r: String)
    ensures
        r@ == without_trailing(text@, c),
{
    let mut n: usize = text.unicode_len();
    proof {
        assert(text@.take(n as int) =~= text@);
    }
    while n > 0 && text.get_char(n - 1) == c
        invariant
            n <= text@.len(),
            without_trailing(text@.take(n as int), c) == without_trailing(text@, c),
        decreases n,
    {
        proof {
            assert(text@.take(n as int).drop_last() =~= text@.take(n - 1));
        }
        n = n - 1;
    }
    proof {
        assert(text@.subrange(0, n as int) =~= text@.take(n as int));
    }
    text.substring_char(0, n).to_owned()
}

/// `text` without the whitespace around it.
pub fn trim(text: &str) -> (r: String)
    ensures
        r@ == trimmed(text@),
{
    let n: usize = text.unicode_len();
    let mut from: usize = 0;
    proof {
        assert(text@.subrange(0, n as int) =~= text@);
    }
    while from < n && text.get_char(from).is_whitespace()
        invariant
            from <= n,
            n == text@.len(),
            without_leading_space(text@.subrange(from as int, n as int)) == without_leading_space(
                text@,
            ),
        decreases n - from,
    {
        proof {
            assert(text@.subrange(from as int, n as int).drop_first() =~= text@.subrange(
                from + 1,
                n as int,
            ));
        }
        from = from + 1;
    }
    let mut to: usize = n;
    while to > from && text.get_char(to - 1).is_whitespace()
        invariant
            from <= to <= n,
            n == text@.len(),
            without_trailing_space(text@.subrange(from as int, to as int)) == trimmed(text@),
        decreases to,
    {
        proof {
            assert(text@.subrange(from as int, to as int).drop_last() =~= text@.subrange(
                from as int,
                to - 1,
            ));
        }
        to = to - 1;
    }
    text.substring_char(from, to).to_owned()
}

/// Whether `part` stands somewhere in `text`.
pub fn contains(text: &str, part: &str) -> (r: bool)
    ensures
        r == holds(text@, part@),
{
    let n: usize = text.unicode_len();
    let m: usize = part.unicode_len();
    if m > n {
        return false;
    }
    let mut at: usize = 0;
    while at <= n - m
        invariant
            m <= n,
            n == text@.len(),
            m == part@.len(),
            at <= n - m + 1,
            forall|i: int| 0 <= i < at ==> !stands_at(text@, part@, i),
        decreases n - m + 1 - at,
    {
        if same(text.substring_char(at, at + m), part) {
            assert(stands_at(text@, part@, at as int));
            return true;
        }
        assert(!stands_at(text@, part@, at as int));
        if at == n - m {
            assert forall|i: int| !stands_at(text@, part@, i) by {}
            return false;
        }
        at = at + 1;
    }
    false
}

/// The first `limit` characters of `text`.
pub fn cap(text: &str, limit: usize) -> (r: String)
    ensures
        r@ == capped(text@, limit as nat),
{
    let n: usize = text.unicode_len();
    if n <= limit {
        text.to_owned()
    } else {
        proof {
            assert(text@.subrange(0, limit as int) =~= text@.take(limit as int));
        }
        text.substring_char(0, limit).to_owned()
    }
}

fn digit_char(value: u64) -> (r: char)
    requires
        value < 10,
    ensures
        r == digit(value as nat),
{
    match value {
        0 => '0',
        1 => '1',
        2 => '2',
        3 => '3',
        4 => '4',
        5 => '5',
        6 => '6',
        7 => '7',
        8 => '8',
        _ => '9',
    }
}

/// The decimal notation of `n`.
pub fn decimal_text(n: u64) -> (r: String)
    ensures
        r@ == decimal(n as nat),
    decreases n,
{
    if n < 10 {
        let mut r = String::new();
        r.push(digit_char(n));
        proof {
            assert(r@ =~= seq![digit(n as nat)]);
        }
        r
    } else {
        let mut r = decimal_text(n / 10);
        r.push(digit_char(n % 10));
        r
    }
}

/// The strings of a list with `separator` between neighbours.
pub fn join(parts: &Vec<String>, separator: &str) -> (r: String)
    ensures
        r@ == joined(views(parts@), separator@),
{
    let mut r = String::new();
    let mut i: usize = 0;
    let ghost all = views(parts@);
    proof {
        assert(r@ =~= joined(all.take(0), separator@));
    }
    while i < parts.len()
        invariant
            i <= parts@.len(),
            all == views(parts@),
            r@ == joined(all.take(i as int), separator@),
        decreases parts@.len() - i,
    {
        proof {
            assert(all.take(i + 1).drop_last() =~= all.take(i as int));
            assert(all.take(i + 1).last() == parts@[i as int]@);
        }
        if i > 0 {
            r.append(separator);
        }
        let ghost before = r@;
        r.append(parts[i].as_str());
        proof {
            if i == 0 {
                assert(before =~= Seq::<char>::empty());
                assert(r@ =~= parts@[0]@);
                assert(all.take(1)[0] == parts@[0]@);
            }
        }
        i = i + 1;
    }
    proof {
        assert(all.take(i as int) =~= all);
    }
    r
}

/// A copy of a list of strings.
pub fn copy_list(list: &Vec<String>) -> (r: Vec<String>)
    ensures
        r@ == list@,
{
    let mut r: Vec<String> = Vec::new();
    let mut i: usize = 0;
    while i < list.len()
        invariant
            i <= list@.len(),
            r@ == list@.take(i as int),
        decreases list@.len() - i,
    {
        r.push(list[i].clone());
        proof {
            assert(list@.take(i + 1) =~= list@.take(i as int).push(list@[i as int]));
        }
        i = i + 1;
    }
    proof {
        assert(list@.take(i as int) =~= list@);
    }
    r
}

/// Whether `text` is among the strings of a list.
pub fn lists(list: &Vec<String>, text: &str) -> (r: bool)
    ensures
        r == views(list@).contains(text@),
{
    let mut i: usize = 0;
    while i < list.len()
        invariant
            i <= list@.len(),
            forall|j: int| 0 <= j < i ==> views(list@)[j] != text@,
        decreases list@.len() - i,
    {
        if same(list[i].as_str(), text) {
            assert(views(list@)[i as int] == text@);
            return true;
        }
        i = i + 1;
    }
    false
}

// --- Facts about text

/// What is left when a trailing run of `c` is removed does not end in `c`,
/// and putting the run back gives the text again.
pub proof fn without_trailing_is_the_rest(text: Seq<char>, c: char)
    ensures
        !ends_in(without_trailing(text, c), c),
        without_trailing(text, c).len() <= text.len(),
        without_trailing(text, c) == text.take(without_trailing(text, c).len() as int),
        forall|i: int|
            without_trailing(text, c).len() <= i < text.len() ==> text[i] == c,
    decreases text.len(),
{
    if ends_in(text, c) {
        let shorter = text.drop_last();
        without_trailing_is_the_rest(shorter, c);
        let rest = without_trailing(shorter, c);
        assert(rest =~= text.take(rest.len() as int));
        assert forall|i: int| rest.len() <= i < text.len() implies text[i] == c by {
            if i < shorter.len() {
                assert(shorter[i] == text[i]);
            }
        }
    } else {
        assert(text =~= text.take(text.len() as int));
    }
}

/// Whitespace is never lost sight of: trimming takes away whitespace alone, as
/// much of it as there is at either end.
pub proof fn trimming_takes_whitespace_alone(text: Seq<char>)
    ensures
        exists|from: int, to: int|
            {
                &&& 0 <= from <= to <= text.len()
                &&& trimmed(text) == #[trigger] text.subrange(from, to)
                &&& forall|i: int|
                    0 <= i < from || to <= i < text.len() ==> whitespace(#[trigger] text[i])
            },
        trimmed(text).len() > 0 ==> !whitespace(trimmed(text).first()) && !whitespace(
            trimmed(text).last(),
        ),
{
    leading_space_is_white(text);
    let rest = without_leading_space(text);
    let from = (text.len() - rest.len()) as int;
    trailing_space_is_white(rest);
    let kept = without_trailing_space(rest);
    let to = (from + kept.len()) as int;
    assert(kept =~= text.subrange(from, to));
    assert forall|i: int| 0 <= i < from || to <= i < text.len() implies whitespace(
        #[trigger] text[i],
    ) by {
        if to <= i {
            assert(text[i] == rest[i - from]);
        }
    }
    if kept.len() > 0 {
        assert(kept.first() == rest.first());
    }
}

proof fn leading_space_is_white(text: Seq<char>)
    ensures
        ({
            let rest = without_leading_space(text);
            &&& rest.len() <= text.len()
            &&& rest == text.skip(text.len() - rest.len())
            &&& forall|i: int| 0 <= i < text.len() - rest.len() ==> whitespace(#[trigger] text[i])
            &&& rest.len() > 0 ==> !whitespace(rest.first())
        }),
    decreases text.len(),
{
    if text.len() > 0 && whitespace(text.first()) {
        let shorter = text.drop_first();
        leading_space_is_white(shorter);
        let rest = without_leading_space(shorter);
        assert(rest =~= text.skip(text.len() - rest.len()));
        assert forall|i: int| 0 <= i < text.len() - rest.len() implies whitespace(
            #[trigger] text[i],
        ) by {
            if i > 0 {
                assert(text[i] == shorter[i - 1]);
            }
        }
    } else {
        assert(text =~= text.skip(0));
    }
}

proof fn trailing_space_is_white(text: Seq<char>)
    ensures
        ({
            let rest = without_trailing_space(text);
            &&& rest.len() <= text.len()
            &&& rest == text.take(rest.len() as int)
            &&& forall|i: int| rest.len() <= i < text.len() ==> whitespace(#[trigger] text[i])
            &&& rest.len() > 0 ==> !whitespace(rest.last())
        }),
    decreases text.len(),
{
    if text.len() > 0 && whitespace(text.last()) {
        let shorter = text.drop_last();
        trailing_space_is_white(shorter);
        let rest = without_trailing_space(shorter);
        assert(rest =~= text.take(rest.len() as int));
        assert forall|i: int| rest.len() <= i < text.len() implies whitespace(
            #[trigger] text[i],
        ) by {
            if i < shorter.len() {
                assert(text[i] == shorter[i]);
            }
        }
    } else {
        assert(text =~= text.take(text.len() as int));
    }
}

/// A text is blank exactly if there is nothing but whitespace in it.
pub proof fn blank_means_white(text: Seq<char>)
    ensures
        trimmed(text).len() == 0 <==> (forall|i: int|
            0 <= i < text.len() ==> whitespace(#[trigger] text[i])),
{
    leading_space_is_white(text);
    let rest = without_leading_space(text);
    trailing_space_is_white(rest);
    if rest.len() > 0 {
        assert(text[text.len() - rest.len()] == rest.first());
        assert(without_trailing_space(rest).len() > 0) by {
            if without_trailing_space(rest).len() == 0 {
                assert(whitespace(rest[0]));
            }
        }
    }
}

/// Among the characters of ASCII, whitespace is what one types as such: no
/// character that prints is whitespace.
pub proof fn what_prints_is_no_whitespace(c: char)
    ensures
        whitespace(' ') && whitespace('\n') && whitespace('\t') && whitespace('\r'),
        '!' <= c && c <= '~' ==> !whitespace(c),
{
}

/// The number that a decimal notation stands for.
pub open spec fn number_of(text: Seq<char>) -> int
    decreases text.len(),
{
    if text.len() == 0 {
        0
    } else {
        number_of(text.drop_last()) * 10 + (text.last() as int - '0' as int)
    }
}

/// A number can be read back from its decimal notation, which is made of
/// digits and has no leading zero.
pub proof fn decimals_can_be_read_back(n: nat)
    ensures
        number_of(decimal(n)) == n,
        decimal(n).len() > 0,
        forall|i: int|
            0 <= i < decimal(n).len() ==> '0' <= #[trigger] decimal(n)[i] && decimal(n)[i] <= '9',
        n > 0 ==> decimal(n)[0] != '0',
    decreases n,
{
    if n < 10 {
        reveal_with_fuel(number_of, 2);
        assert(decimal(n).drop_last().len() == 0);
    } else {
        decimals_can_be_read_back(n / 10);
        assert(decimal(n).drop_last() =~= decimal(n / 10));
        assert(decimal(n)[0] == decimal(n / 10)[0]);
    }
}

/// A text is capped to its beginning, and no shorter than it has to be.
pub proof fn capping_keeps_the_beginning(text: Seq<char>, limit: nat)
    ensures
        capped(text, limit).len() == if text.len() < limit {
            text.len()
        } else {
            limit
        },
        forall|i: int|
            0 <= i < capped(text, limit).len() ==> #[trigger] capped(text, limit)[i] == text[i],
{
}

/// Texts are joined in order, with the separator between neighbours and
/// nowhere else.
pub proof fn joining_goes_on(parts: Seq<Seq<char>>, part: Seq<char>, separator: Seq<char>)
    ensures
        joined(Seq::<Seq<char>>::empty(), separator).len() == 0,
        joined(seq![part], separator) == part,
        parts.len() > 0 ==> joined(parts.push(part), separator) == joined(parts, separator)
            + separator + part,
{
    assert(parts.push(part).drop_last() =~= parts);
}

/// A text with something put in front of its parts begins with that.
pub proof fn joining_in_front(parts: Seq<Seq<char>>, part: Seq<char>, separator: Seq<char>)
    requires
        parts.len() > 0,
    ensures
        joined(seq![part] + parts, separator) == part + separator + joined(parts, separator),
    decreases parts.len(),
{
    let all = seq![part] + parts;
    assert(all.drop_last() =~= seq![part] + parts.drop_last());
    assert(all.last() == parts.last());
    if parts.len() == 1 {
        assert(all.drop_last() =~= seq![part]);
        assert(joined(all.drop_last(), separator) == part);
    } else {
        joining_in_front(parts.drop_last(), part, separator);
    }
    assert(joined(all, separator) =~= part + separator + joined(parts, separator));
}

/// A text holds another exactly if it is made of something, the other, and
/// something more.
pub proof fn holding_is_being_in_between(text: Seq<char>, part: Seq<char>)
    ensures
        holds(text, part) <==> exists|before: Seq<char>, after: Seq<char>|
            text == #[trigger] (before + part + after),
{
    if holds(text, part) {
        let at = choose|at: int| stands_at(text, part, at);
        let before = text.take(at);
        let after = text.skip(at + part.len());
        assert(text =~= before + part + after);
    }
    if exists|before: Seq<char>, after: Seq<char>| text == #[trigger] (before + part + after) {
        let (before, after) = choose|before: Seq<char>, after: Seq<char>|
            text == #[trigger] (before + part + after);
        let at = before.len() as int;
        assert(text.subrange(at, at + part.len()) =~= part);
        assert(stands_at(text, part, at));
    }
}

/// An empty text is an absent one, and no other is.
pub proof fn only_empty_texts_count_as_absent(text: Option<Seq<char>>, s: Seq<char>)
    ensures
        non_empty(text) == Some(s) <==> text == Some(s) && s.len() > 0,
        non_empty(text) is None <==> text is None || text->0.len() == 0,
{
}

} // verus!
