//! Text as a sequence of characters: numbers, columns, lists, fields and blanks.

use vstd::prelude::*;
use vstd::string::*;

verus! {

/// The character of a decimal digit.
pub open spec fn digit(d: nat) -> char {
    (48 + d) as char
}

/// The decimal numeral of `n`, without leading zeros.
pub open spec fn decimal(n: nat) -> Seq<char>
    decreases n,
{
    if n < 10 {
        seq![digit(n)]
    } else {
        decimal(n / 10).push(digit(n % 10))
    }
}

/// The decimal numeral of an integer, with a minus sign in front of a negative one.
pub open spec fn signed_decimal(n: int) -> Seq<char> {
    if n < 0 {
        "-"@ + decimal((-n) as nat)
    } else {
        decimal(n as nat)
    }
}

/// `n` copies of one character.
pub open spec fn fill(c: char, n: nat) -> Seq<char> {
    Seq::new(n, |i: int| c)
}

/// The blanks that `t` lacks to be `width` characters wide.
pub open spec fn padding(t: Seq<char>, width: nat) -> Seq<char> {
    fill(' ', if t.len() < width { (width - t.len()) as nat } else { 0 })
}

/// `t` at the left of a column of the given width; a longer text stays whole.
pub open spec fn left_aligned(t: Seq<char>, width: nat) -> Seq<char> {
    t + padding(t, width)
}

/// `t` at the right of a column of the given width; a longer text stays whole.
pub open spec fn right_aligned(t: Seq<char>, width: nat) -> Seq<char> {
    padding(t, width) + t
}

/// The parts one after the other, with `separator` between each two.
pub open spec fn joined(parts: Seq<Seq<char>>, separator: Seq<char>) -> Seq<char>
    decreases parts.len(),
{
    if parts.len() == 0 {
        Seq::empty()
    } else if parts.len() == 1 {
        parts[0]
    } else {
        joined(parts.drop_last(), separator) + separator + parts.last()
    }
}

/// The characters of each string of a list.
pub open spec fn texts(strings: Seq<String>) -> Seq<Seq<char>> {
    Seq::new(strings.len(), |i: int| strings[i]@)
}

/// How many characters stand before the first `c`: all of them, where there is none.
pub open spec fn position(t: Seq<char>, c: char) -> nat
    decreases t.len(),
{
    if t.len() == 0 || t[0] == c {
        0
    } else {
        1 + position(t.drop_first(), c)
    }
}

/// The part of `t` before the first `c`: the whole text, where there is none.
pub open spec fn before(t: Seq<char>, c: char) -> Seq<char> {
    t.take(position(t, c) as int)
}

/// The part of `t` behind the first `c`.
pub open spec fn behind(t: Seq<char>, c: char) -> Seq<char>
    recommends
        t.contains(c),
{
    t.skip(position(t, c) as int + 1)
}

/// Whether a character has the Unicode property White_Space.
pub open spec fn white_space(c: char) -> bool {
    ||| '\t' <= c <= '\r'
    ||| c == ' ' || c == '\u{85}' || c == '\u{a0}' || c == '\u{1680}'
    ||| '\u{2000}' <= c <= '\u{200a}'
    ||| c == '\u{2028}' || c == '\u{2029}' || c == '\u{202f}' || c == '\u{205f}' || c == '\u{3000}'
}

/// `t` without the white space at its end.
pub open spec fn trimmed_end(t: Seq<char>) -> Seq<char>
    decreases t.len(),
{
    if t.len() > 0 && white_space(t.last()) {
        trimmed_end(t.drop_last())
    } else {
        t
    }
}

/// `t` without the white space at its start.
pub open spec fn trimmed_start(t: Seq<char>) -> Seq<char>
    decreases t.len(),
{
    if t.len() > 0 && white_space(t[0]) {
        trimmed_start(t.drop_first())
    } else {
        t
    }
}

/// `t` without the white space at its start and at its end.
pub open spec fn trimmed(t: Seq<char>) -> Seq<char> {
    trimmed_end(trimmed_start(t))
}

/// `position` is the only index before which there is no `c` and at which there is one, or
/// the text ends.
pub proof fn lemma_position(t: Seq<char>, c: char, i: int)
    requires
        0 <= i <= t.len(),
        forall|j: int| 0 <= j < i ==> t[j] != c,
        i < t.len() ==> t[i] == c,
    ensures
        position(t, c) == i,
    decreases t.len(),
{
    if i > 0 {
        assert(t[0] != c);
        let rest = t.drop_first();
        assert forall|j: int| 0 <= j < i - 1 implies rest[j] != c by {
            assert(rest[j] == t[j + 1]);
        }
        lemma_position(rest, c, i - 1);
    }
}

/// What `position` finds: no `c` before it, and `c` at it unless the text has none.
pub proof fn lemma_position_finds(t: Seq<char>, c: char)
    ensures
        position(t, c) <= t.len(),
        forall|j: int| 0 <= j < position(t, c) ==> t[j] != c,
        position(t, c) < t.len() ==> t[position(t, c) as int] == c,
        position(t, c) < t.len() <==> t.contains(c),
    decreases t.len(),
{
    if t.len() > 0 && t[0] != c {
        let rest = t.drop_first();
        lemma_position_finds(rest, c);
        assert forall|j: int| 0 <= j < position(t, c) implies t[j] != c by {
            if j > 0 {
                assert(rest[j - 1] == t[j]);
            }
        }
        if t.contains(c) {
            let k = choose|k: int| 0 <= k < t.len() && t[k] == c;
            assert(rest[k - 1] == c);
        }
    }
}

/// What is left of a text without the white space at its end is the start of it, and does not
/// end with white space.
proof fn lemma_trimmed_end(t: Seq<char>)
    ensures
        trimmed_end(t).len() <= t.len(),
        trimmed_end(t) == t.take(trimmed_end(t).len() as int),
        trimmed_end(t).len() > 0 ==> !white_space(trimmed_end(t).last()),
    decreases t.len(),
{
    if t.len() > 0 && white_space(t.last()) {
        lemma_trimmed_end(t.drop_last());
    }
    assert(trimmed_end(t) =~= t.take(trimmed_end(t).len() as int));
}

/// What is left of a text without the white space at its start does not start with white space.
proof fn lemma_trimmed_start(t: Seq<char>)
    ensures
        trimmed_start(t).len() > 0 ==> !white_space(trimmed_start(t)[0]),
    decreases t.len(),
{
    if t.len() > 0 && white_space(t[0]) {
        lemma_trimmed_start(t.drop_first());
    }
}

/// A trimmed text neither starts nor ends with white space, and trimming it again changes
/// nothing.
pub proof fn law_trimmed_is_clean(t: Seq<char>)
    ensures
        trimmed(t).len() > 0 ==> !white_space(trimmed(t)[0]) && !white_space(trimmed(t).last()),
        trimmed(trimmed(t)) == trimmed(t),
{
    lemma_trimmed_start(t);
    lemma_trimmed_end(trimmed_start(t));
}

/// The numeral of one digit.
fn digit_text(d: u64) -> (r: &'static str)
    requires
        d < 10,
    ensures
        r@ == seq![digit(d as nat)],
{
    proof {
        reveal_strlit("0");
        reveal_strlit("1");
        reveal_strlit("2");
        reveal_strlit("3");
        reveal_strlit("4");
        reveal_strlit("5");
        reveal_strlit("6");
        reveal_strlit("7");
        reveal_strlit("8");
        reveal_strlit("9");
    }
    match d {
        0 => "0",
        1 => "1",
        2 => "2",
        3 => "3",
        4 => "4",
        5 => "5",
        6 => "6",
        7 => "7",
        8 => "8",
        _ => "9",
    }
}

/// Writes `n` in decimal.
pub fn decimal_text(n: u64) -> (r: String)
    ensures
        r@ == decimal(n as nat),
    decreases n,
{
    if n < 10 {
        String::from_str(digit_text(n))
    } else {
        let mut r = decimal_text(n / 10);
        r.append(digit_text(n % 10));
        r
    }
}

/// `n` copies of the one character of `unit`.
pub fn filled(unit: &str, n: usize) -> (r: String)
    requires
        unit@.len() == 1,
    ensures
        r@ == fill(unit@[0], n as nat),
{
    let mut r = String::new();
    let mut i: usize = 0;
    while i < n
        invariant
            i <= n,
            unit@.len() == 1,
            r@ == fill(unit@[0], i as nat),
        decreases n - i,
    {
        r.append(unit);
        i = i + 1;
    }
    r
}

/// The blanks that `t` lacks to be `width` characters wide.
fn padding_text(t: &str, width: usize) -> (r: String)
    ensures
        r@ == padding(t@, width as nat),
{
    proof {
        reveal_strlit(" ");
    }
    let len = t.unicode_len();
    if len < width {
        filled(" ", width - len)
    } else {
        filled(" ", 0)
    }
}

/// `t` at the left of a column of the given width.
pub fn align_left(t: &str, width: usize) -> (r: String)
    ensures
        r@ == left_aligned(t@, width as nat),
{
    let blanks = padding_text(t, width);
    String::from_str(t).concat(blanks.as_str())
}

/// `t` at the right of a column of the given width.
pub fn align_right(t: &str, width: usize) -> (r: String)
    ensures
        r@ == right_aligned(t@, width as nat),
{
    padding_text(t, width).concat(t)
}

/// The strings one after the other, with `separator` between each two.
pub fn join(parts: &Vec<String>, separator: &str) -> (r: String)
    ensures
        r@ == joined(texts(parts@), separator@),
{
    let mut r = String::new();
    let mut i: usize = 0;
    while i < parts.len()
        invariant
            i <= parts.len(),
            r@ == joined(texts(parts@).take(i as int), separator@),
        decreases parts.len() - i,
    {
        let ghost done = texts(parts@).take(i as int);
        if i > 0 {
            r.append(separator);
        }
        r.append(parts[i].as_str());
        i = i + 1;
        assert(texts(parts@).take(i as int).drop_last() =~= done);
    }
    assert(texts(parts@).take(parts@.len() as int) =~= texts(parts@));
    r
}

/// Adds a string to a list.
pub fn push_line(lines: &mut Vec<String>, line: String)
    ensures
        texts(final(lines)@) == texts(old(lines)@).push(line@),
{
    lines.push(line);
    assert(texts(lines@) =~= texts(old(lines)@).push(line@));
}

/// Finds how many characters stand before the first `c`.
pub fn find(t: &str, c: char) -> (r: usize)
    ensures
        r == position(t@, c),
{
    let len = t.unicode_len();
    let mut i: usize = 0;
    while i < len
        invariant
            i <= len,
            len == t@.len(),
            forall|j: int| 0 <= j < i ==> t@[j] != c,
        ensures
            i <= len,
            forall|j: int| 0 <= j < i ==> t@[j] != c,
            i < len ==> t@[i as int] == c,
        decreases len - i,
    {
        if t.get_char(i) == c {
            break;
        }
        i = i + 1;
    }
    proof {
        lemma_position(t@, c, i as int);
    }
    i
}

/// Says whether a character has the Unicode property White_Space.
pub fn is_white_space(c: char) -> (r: bool)
    ensures
        r == white_space(c),
{
    ('\t' <= c && c <= '\r') || c == ' ' || c == '\u{85}' || c == '\u{a0}' || c == '\u{1680}' || (
    '\u{2000}' <= c && c <= '\u{200a}') || c == '\u{2028}' || c == '\u{2029}' || c == '\u{202f}' || c
        == '\u{205f}' || c == '\u{3000}'
}

/// Takes the white space from both ends of `t`.
pub fn trim(t: &str) -> (r: String)
    ensures
        r@ == trimmed(t@),
{
    let len = t.unicode_len();
    let mut from: usize = 0;
    assert(t@.skip(0) =~= t@);
    while from < len && is_white_space(t.get_char(from))
        invariant
            from <= len,
            len == t@.len(),
            trimmed_start(t@.skip(from as int)) == trimmed_start(t@),
        ensures
            trimmed_start(t@) == t@.skip(from as int),
        decreases len - from,
    {
        assert(t@.skip(from as int).drop_first() =~= t@.skip(from + 1));
        from = from + 1;
    }
    let ghost rest = t@.skip(from as int);
    let mut to: usize = len;
    assert(rest =~= t@.subrange(from as int, to as int));
    while from < to && is_white_space(t.get_char(to - 1))
        invariant
            from <= to <= len,
            len == t@.len(),
            rest == t@.skip(from as int),
            trimmed_end(t@.subrange(from as int, to as int)) == trimmed_end(rest),
        ensures
            trimmed_end(rest) == t@.subrange(from as int, to as int),
        decreases to - from,
    {
        assert(t@.subrange(from as int, to as int).drop_last() =~= t@.subrange(
            from as int,
            to - 1,
        ));
        to = to - 1;
    }
    String::from_str(t.substring_char(from, to))
}

// ── Laws ────────────────────────────────────────────────────────────────

/// The number that a decimal numeral stands for.
pub open spec fn numeral_value(t: Seq<char>) -> int
    decreases t.len(),
{
    if t.len() == 0 {
        0
    } else {
        numeral_value(t.drop_last()) * 10 + (t.last() as int - '0' as int)
    }
}

/// A number is read back from its numeral, which has digits only and no leading zero.
pub proof fn law_decimal_reads_back(n: nat)
    ensures
        numeral_value(decimal(n)) == n,
        decimal(n).len() > 0,
        forall|i: int| 0 <= i < decimal(n).len() ==> '0' <= #[trigger] decimal(n)[i] <= '9',
        n > 0 ==> decimal(n)[0] != '0',
        n == 0 ==> decimal(n).len() == 1,
    decreases n,
{
    if n < 10 {
        assert(decimal(n).drop_last() =~= Seq::<char>::empty());
        assert(numeral_value(Seq::<char>::empty()) == 0);
    } else {
        law_decimal_reads_back(n / 10);
        assert(decimal(n).drop_last() =~= decimal(n / 10));
    }
}

/// A signed number is its numeral, behind a minus sign where it is negative.
pub proof fn law_signed_decimal_has_its_sign(n: nat)
    ensures
        signed_decimal(n as int) == decimal(n),
        n > 0 ==> signed_decimal(-n) == seq!['-'] + decimal(n),
{
    reveal_strlit("-");
    assert("-"@ =~= seq!['-']);
}

/// A text that is aligned stays whole, at the one end of its column, and blanks fill the column
/// at the other. A text that is too long stands alone.
pub proof fn law_aligned_texts_fill_their_column(t: Seq<char>, width: nat)
    ensures
        left_aligned(t, width).len() == if t.len() < width {
            width
        } else {
            t.len()
        },
        right_aligned(t, width).len() == left_aligned(t, width).len(),
        left_aligned(t, width).take(t.len() as int) == t,
        forall|i: int|
            t.len() <= i < left_aligned(t, width).len() ==> #[trigger] left_aligned(t, width)[i]
                == ' ',
        right_aligned(t, width).skip(right_aligned(t, width).len() - t.len()) == t,
        forall|i: int|
            0 <= i < right_aligned(t, width).len() - t.len() ==> #[trigger] right_aligned(
                t,
                width,
            )[i] == ' ',
{
    assert(left_aligned(t, width).take(t.len() as int) =~= t);
    assert(right_aligned(t, width).skip(right_aligned(t, width).len() - t.len()) =~= t);
}

/// A filling has the length asked for, and one character throughout.
pub proof fn law_fill_repeats(c: char, n: nat)
    ensures
        fill(c, n).len() == n,
        forall|i: int| 0 <= i < n ==> #[trigger] fill(c, n)[i] == c,
{
}

/// Joining two lists of parts and then the results is joining all parts at once. Nothing comes
/// of no parts, and a single part stands alone.
pub proof fn law_joined_in_order(a: Seq<Seq<char>>, b: Seq<Seq<char>>, separator: Seq<char>)
    ensures
        joined(Seq::empty(), separator) == Seq::<char>::empty(),
        forall|part: Seq<char>| #[trigger] joined(seq![part], separator) == part,
        a.len() > 0 && b.len() > 0 ==> joined(a + b, separator) == joined(a, separator) + separator
            + joined(b, separator),
    decreases b.len(),
{
    if a.len() > 0 && b.len() > 0 {
        assert((a + b).last() == b.last());
        assert((a + b).drop_last() =~= a + b.drop_last());
        if b.len() == 1 {
            assert(a + b.drop_last() =~= a);
            assert(joined(b, separator) == b.last());
        } else {
            law_joined_in_order(a, b.drop_last(), separator);
            assert(joined(a + b, separator) =~= joined(a, separator) + separator + joined(
                b,
                separator,
            ));
        }
    }
}

/// A text that holds `c` is what stands before the first one, that one, and what stands behind
/// it. A text that does not is all before it.
pub proof fn law_split_at_the_first(t: Seq<char>, c: char)
    ensures
        !before(t, c).contains(c),
        t.contains(c) ==> t == before(t, c).push(c) + behind(t, c),
        !t.contains(c) ==> before(t, c) == t,
{
    lemma_position_finds(t, c);
    if t.contains(c) {
        assert(t =~= before(t, c).push(c) + behind(t, c));
    } else {
        assert(before(t, c) =~= t);
    }
}

/// Where the white space at the start of a text ends.
proof fn lemma_trimmed_start_is_rest(t: Seq<char>) -> (a: int)
    ensures
        0 <= a <= t.len(),
        trimmed_start(t) == t.skip(a),
        forall|i: int| 0 <= i < a ==> white_space(#[trigger] t[i]),
    decreases t.len(),
{
    if t.len() > 0 && white_space(t[0]) {
        let a = lemma_trimmed_start_is_rest(t.drop_first());
        assert(t.drop_first().skip(a) =~= t.skip(a + 1));
        assert forall|i: int| 0 <= i < a + 1 implies white_space(#[trigger] t[i]) by {
            if i > 0 {
                assert(t.drop_first()[i - 1] == t[i]);
            }
        }
        a + 1
    } else {
        assert(t.skip(0) =~= t);
        0
    }
}

/// What is cut off at the end of a text is white space.
proof fn lemma_trimmed_end_cuts_blanks(t: Seq<char>)
    ensures
        forall|i: int| trimmed_end(t).len() <= i < t.len() ==> white_space(#[trigger] t[i]),
    decreases t.len(),
{
    if t.len() > 0 && white_space(t.last()) {
        lemma_trimmed_end_cuts_blanks(t.drop_last());
        assert forall|i: int| trimmed_end(t).len() <= i < t.len() implies white_space(
            #[trigger] t[i],
        ) by {
            if i < t.len() - 1 {
                assert(t.drop_last()[i] == t[i]);
            }
        }
    }
}

/// A trimmed text is a stretch of the text, and only white space stands around it.
pub proof fn law_trimmed_cuts_white_space_only(t: Seq<char>)
    ensures
        exists|a: int, b: int|
            #![trigger t.subrange(a, b)]
            0 <= a <= b <= t.len() && trimmed(t) == t.subrange(a, b) && (forall|i: int|
                0 <= i < a || b <= i < t.len() ==> white_space(#[trigger] t[i])),
{
    let a = lemma_trimmed_start_is_rest(t);
    let start = trimmed_start(t);
    lemma_trimmed_end(start);
    lemma_trimmed_end_cuts_blanks(start);
    let b = a + trimmed_end(start).len();
    assert(trimmed(t) =~= t.subrange(a, b));
    assert forall|i: int| 0 <= i < a || b <= i < t.len() implies white_space(#[trigger] t[i]) by {
        if b <= i {
            assert(start[i - a] == t[i]);
        }
    }
}

/// The texts of strings are those of the strings, one for one and in their order.
pub proof fn law_texts_follow_strings(strings: Seq<String>, i: int)
    requires
        0 <= i < strings.len(),
    ensures
        texts(strings).len() == strings.len(),
        texts(strings)[i] == strings[i]@,
{
}

/// The white space characters are those with these code points, and no others.
pub proof fn law_white_space_by_code_point(c: char)
    ensures
        white_space(c) <==> {
            let point = c as int;
            9 <= point <= 13 || point == 32 || point == 133 || point == 160 || point == 5760 || 8192
                <= point <= 8202 || point == 8232 || point == 8233 || point == 8239 || point == 8287
                || point == 12288
        },
{
}

} // verus!
