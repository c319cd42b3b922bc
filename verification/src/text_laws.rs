//! What the operations on texts do: trimming, splitting, joining, replacing,
//! and reading and writing numbers.
use vstd::prelude::*;
use crate::crash::{ends_the_program, hex};
use crate::csv::{escaped, fields_from, fields_of};
use crate::double::Double;
use crate::number::{
    IntFault, decimal, decimal_signed, digit, digit_char, digits_end, float_literal,
    law_decimal_reads_back, lemma_decimal_signed_chars, lowered, past_sign, read_digits, read_int,
};
use crate::text::{
    before_last, blank, joined, last_index_of, lemma_pieces_extend, lemma_pieces_nonempty, lines_of,
    occurs, occurs_at, pieces, replaced, trimmed, trimmed_end, trimmed_start, white, without_cr,
    words_of,
};
use crate::wide::{narrow, narrow_list, text_of_units, units_of};

verus! {

// ---------------------------------------------------------------------------
// White space
// ---------------------------------------------------------------------------

/// Among the ASCII characters, those from the tab to the carriage return and
/// the space are white, and no others; beyond them, those that Unicode calls
/// white space.
pub proof fn law_white_space(c: char)
    ensures
        (c as int) < 128 ==> (white(c) <==> c == ' ' || c == '\t' || c == '\n' || c == '\u{B}' || c
            == '\u{C}' || c == '\r'),
        c as int >= 128 ==> (white(c) <==> c == '\u{85}' || c == '\u{A0}' || c == '\u{1680}'
            || '\u{2000}' <= c <= '\u{200A}' || c == '\u{2028}' || c == '\u{2029}' || c
            == '\u{202F}' || c == '\u{205F}' || c == '\u{3000}'),
{
}

proof fn lemma_trimmed_start(s: Seq<char>) -> (n: int)
    ensures
        0 <= n <= s.len(),
        trimmed_start(s) == s.skip(n),
        blank(s.take(n)),
        n < s.len() ==> !white(s[n]),
    decreases s.len(),
{
    if s.len() > 0 && white(s[0]) {
        let m = lemma_trimmed_start(s.drop_first());
        assert(s.drop_first().skip(m) =~= s.skip(m + 1));
        assert forall|i: int| 0 <= i < m + 1 implies white(#[trigger] s.take(m + 1)[i]) by {
            if i > 0 {
                assert(s.drop_first().take(m)[i - 1] == s[i]);
            }
        }
        m + 1
    } else {
        assert(s.skip(0) =~= s);
        0
    }
}

proof fn lemma_trimmed_end(s: Seq<char>) -> (n: int)
    ensures
        0 <= n <= s.len(),
        trimmed_end(s) == s.take(n),
        blank(s.skip(n)),
        n > 0 ==> !white(s[n - 1]),
    decreases s.len(),
{
    if s.len() > 0 && white(s.last()) {
        let m = lemma_trimmed_end(s.drop_last());
        assert(s.drop_last().take(m) =~= s.take(m));
        assert forall|i: int| 0 <= i < s.len() - m implies white(#[trigger] s.skip(m)[i]) by {
            if i < s.len() - m - 1 {
                assert(s.drop_last().skip(m)[i] == s[m + i]);
            }
        }
        m
    } else {
        assert(s.take(s.len() as int) =~= s);
        s.len() as int
    }
}

/// Trimming takes white space off both ends, and all of it, and leaves what is
/// between as it was.
pub proof fn law_trimming_takes_white_space_off_the_ends(s: Seq<char>)
    ensures
        exists|before: Seq<char>, after: Seq<char>|
            blank(before) && blank(after) && s == #[trigger] (before + trimmed(s) + after),
        trimmed(s).len() > 0 ==> !white(trimmed(s)[0]) && !white(trimmed(s).last()),
{
    let n = lemma_trimmed_start(s);
    let t = s.skip(n);
    let m = lemma_trimmed_end(t);
    assert(s =~= s.take(n) + t.take(m) + t.skip(m));
    assert(s == s.take(n) + trimmed(s) + t.skip(m));
}

/// A text is blank where it holds nothing but white space.
pub proof fn law_blank_texts_hold_white_space_only(s: Seq<char>, i: int)
    requires
        0 <= i < s.len(),
    ensures
        !white(s[i]) ==> !blank(s),
        (forall|j: int| 0 <= j < s.len() ==> white(#[trigger] s[j])) ==> blank(s),
        blank(Seq::empty()),
{
}

// ---------------------------------------------------------------------------
// Splitting and joining
// ---------------------------------------------------------------------------

pub proof fn lemma_joined_push(v: Seq<Seq<char>>, last: Seq<char>, sep: Seq<char>)
    requires
        v.len() > 0,
    ensures
        joined(v.push(last), sep) == joined(v, sep) + sep + last,
{
    assert(v.push(last).drop_last() =~= v);
}

/// The pieces of a text, with the separator between them, are the text again,
/// and none of them holds the separator.
pub proof fn law_pieces_join_to_the_text(s: Seq<char>, sep: char)
    ensures
        joined(pieces(s, sep), seq![sep]) == s,
        forall|i: int|
            0 <= i < pieces(s, sep).len() ==> !(#[trigger] pieces(s, sep)[i]).contains(sep),
    decreases s.len(),
{
    if s.len() == 0 {
        assert(s =~= Seq::<char>::empty());
    } else {
        let p = pieces(s.drop_last(), sep);
        lemma_pieces_nonempty(s.drop_last(), sep);
        law_pieces_join_to_the_text(s.drop_last(), sep);
        if s.last() == sep {
            lemma_joined_push(p, Seq::empty(), seq![sep]);
            assert(s.drop_last() + seq![sep] + Seq::<char>::empty() =~= s);
        } else {
            let q = p.drop_last();
            let grown = p.last().push(s.last());
            assert(!p[p.len() - 1].contains(sep));
            assert(!grown.contains(sep)) by {
                if grown.contains(sep) {
                    let k = choose|k: int| 0 <= k < grown.len() && grown[k] == sep;
                    assert(p.last()[k] == sep);
                }
            }
            assert(q.push(p.last()) =~= p);
            if q.len() > 0 {
                lemma_joined_push(q, p.last(), seq![sep]);
                lemma_joined_push(q, grown, seq![sep]);
            }
            if q.len() == 0 {
                assert(q.push(grown) =~= seq![grown]);
                assert(p =~= seq![p.last()]);
            }
            assert(s.drop_last().push(s.last()) =~= s);
            assert(joined(q.push(grown), seq![sep]) =~= s.drop_last().push(s.last()));
            assert forall|i: int| 0 <= i < pieces(s, sep).len() implies !(#[trigger] pieces(
                s,
                sep,
            )[i]).contains(sep) by {
                if i < q.len() {
                    assert(q[i] == p[i]);
                }
            }
        }
    }
}

/// Joined texts stand one behind the other with the separator between them.
pub proof fn law_joined_texts_stand_in_order(
    v: Seq<Seq<char>>,
    last: Seq<char>,
    sep: Seq<char>,
)
    ensures
        joined(Seq::empty(), sep) == Seq::<char>::empty(),
        joined(seq![last], sep) == last,
        v.len() > 0 ==> joined(v.push(last), sep) == joined(v, sep) + sep + last,
{
    if v.len() > 0 {
        lemma_joined_push(v, last, sep);
    }
}

pub proof fn lemma_pieces_front(line: Seq<char>, rest: Seq<char>, sep: char)
    requires
        !line.contains(sep),
    ensures
        pieces(line.push(sep) + rest, sep) == seq![line] + pieces(rest, sep),
        pieces(line, sep) == seq![line],
    decreases rest.len(),
{
    let none = Seq::<char>::empty();
    lemma_pieces_extend(none, line, sep);
    assert(none + line =~= line);
    assert(pieces(none, sep).drop_last() =~= Seq::<Seq<char>>::empty());
    assert(pieces(line, sep) =~= seq![line]);
    let all = line.push(sep) + rest;
    if rest.len() == 0 {
        assert(all =~= line.push(sep));
        assert(all.drop_last() =~= line);
        assert(pieces(all, sep) =~= seq![line] + pieces(rest, sep));
    } else {
        let init = rest.drop_last();
        lemma_pieces_front(line, init, sep);
        lemma_pieces_nonempty(init, sep);
        assert(all.drop_last() =~= line.push(sep) + init);
        assert(pieces(all, sep) =~= seq![line] + pieces(rest, sep));
    }
}

/// A text is read line by line: what stands before the first line feed is the
/// first line, without a carriage return at its end; the lines of what follows
/// come behind it. What stands behind the last line feed is a line as it is,
/// unless it is empty.
pub proof fn law_lines_end_at_line_feeds(line: Seq<char>, rest: Seq<char>)
    requires
        !line.contains('\n'),
    ensures
        lines_of(line.push('\n') + rest) == seq![without_cr(line)] + lines_of(rest),
        line.len() > 0 ==> lines_of(line) == seq![line],
        lines_of(Seq::empty()) == Seq::<Seq<char>>::empty(),
        without_cr(line.push('\r')) == line,
        line.len() > 0 && line.last() != '\r' ==> without_cr(line) == line,
{
    lemma_pieces_front(line, rest, '\n');
    lemma_pieces_nonempty(rest, '\n');
    let p = pieces(rest, '\n');
    let q = seq![line] + p;
    assert(q.drop_last() =~= seq![line] + p.drop_last());
    assert(q.last() == p.last());
    assert(lines_of(line.push('\n') + rest) =~= seq![without_cr(line)] + lines_of(rest));
    assert(seq![line].drop_last() =~= Seq::<Seq<char>>::empty());
    if line.len() > 0 {
        assert(lines_of(line) =~= seq![line]);
    }
    let none = Seq::<char>::empty();
    assert(pieces(none, '\n').drop_last() =~= Seq::<Seq<char>>::empty());
    assert(lines_of(none) =~= Seq::<Seq<char>>::empty());
    assert(line.push('\r').drop_last() =~= line);
}

proof fn lemma_words_end(s: Seq<char>)
    requires
        s.len() > 0,
        !white(s.last()),
    ensures
        words_of(s).len() > 0,
        words_of(s).last().len() > 0,
        words_of(s).last().last() == s.last(),
    decreases s.len(),
{
    if s.len() > 1 && !white(s[s.len() - 2]) {
        assert(s.drop_last().last() == s[s.len() - 2]);
        lemma_words_end(s.drop_last());
    }
}

/// The characters of a text that are not white, in order.
pub open spec fn solid_chars(s: Seq<char>) -> Seq<char>
    decreases s.len(),
{
    if s.len() == 0 {
        Seq::empty()
    } else if white(s.last()) {
        solid_chars(s.drop_last())
    } else {
        solid_chars(s.drop_last()).push(s.last())
    }
}

/// The words of a text hold its characters, in order, but for the white space,
/// and no word is empty or holds white space.
pub proof fn law_words_hold_what_is_not_white(s: Seq<char>)
    ensures
        joined(words_of(s), Seq::empty()) == solid_chars(s),
        forall|i: int|
            0 <= i < words_of(s).len() ==> (#[trigger] words_of(s)[i]).len() > 0 && forall|j: int|
                0 <= j < words_of(s)[i].len() ==> !white(#[trigger] words_of(s)[i][j]),
    decreases s.len(),
{
    let none = Seq::<char>::empty();
    if s.len() > 0 {
        let init = s.drop_last();
        let p = words_of(init);
        let c = s.last();
        law_words_hold_what_is_not_white(init);
        if white(c) {
        } else if s.len() == 1 || white(s[s.len() - 2]) {
            if p.len() > 0 {
                lemma_joined_push(p, seq![c], none);
            } else {
                assert(p.push(seq![c]) =~= seq![seq![c]]);
                assert(solid_chars(init) =~= none);
            }
            assert(joined(words_of(s), none) =~= solid_chars(s));
        } else {
            assert(init.last() == s[s.len() - 2]);
            lemma_words_end(init);
            let q = p.drop_last();
            let grown = p.last().push(c);
            assert(q.push(p.last()) =~= p);
            if q.len() > 0 {
                lemma_joined_push(q, p.last(), none);
                lemma_joined_push(q, grown, none);
            }
            assert(joined(words_of(s), none) =~= solid_chars(s));
            assert forall|i: int| 0 <= i < words_of(s).len() implies (#[trigger] words_of(
                s,
            )[i]).len() > 0 && forall|j: int|
                0 <= j < words_of(s)[i].len() ==> !white(#[trigger] words_of(s)[i][j]) by {
                assert(p[p.len() - 1].len() > 0);
                if i < q.len() {
                    assert(words_of(s)[i] == p[i]);
                } else {
                    assert forall|j: int| 0 <= j < grown.len() implies !white(
                        #[trigger] grown[j],
                    ) by {
                        if j < p.last().len() {
                            assert(p[p.len() - 1][j] == grown[j]);
                        }
                    }
                }
            }
        }
    }
}

// ---------------------------------------------------------------------------
// Searching and replacing
// ---------------------------------------------------------------------------

/// A text occurs in another where that one is it with something before and
/// behind it, and not otherwise.
pub proof fn law_texts_occur_between_others(before: Seq<char>, key: Seq<char>, after: Seq<char>)
    ensures
        occurs(before + key + after, key),
        forall|s: Seq<char>| #[trigger]
            occurs(s, key) ==> exists|b: Seq<char>, a: Seq<char>| s == #[trigger] (b + key + a),
{
    let all = before + key + after;
    assert(all.subrange(before.len() as int, before.len() as int + key.len()) =~= key);
    assert(occurs_at(all, key, before.len() as int));
    assert forall|s: Seq<char>| #[trigger] occurs(s, key) implies exists|b: Seq<char>, a: Seq<char>|
        s == #[trigger] (b + key + a) by {
        let i = choose|i: int| occurs_at(s, key, i);
        assert(s =~= s.take(i) + s.subrange(i, i + key.len()) + s.skip(i + key.len()));
        assert(s == s.take(i) + key + s.skip(i + key.len()));
    }
}

proof fn lemma_last_index(s: Seq<char>, c: char)
    ensures
        -1 <= last_index_of(s, c) < s.len(),
        last_index_of(s, c) >= 0 ==> s[last_index_of(s, c)] == c,
        forall|j: int| last_index_of(s, c) < j < s.len() ==> s[j] != c,
    decreases s.len(),
{
    if s.len() > 0 && s.last() != c {
        lemma_last_index(s.drop_last(), c);
        assert forall|j: int| last_index_of(s, c) < j < s.len() implies s[j] != c by {
            if j < s.len() - 1 {
                assert(s.drop_last()[j] == s[j]);
            }
        }
    }
}

/// Whether `c` splits `s` into `b` and `a`, with no other behind it.
pub open spec fn cut(s: Seq<char>, c: char, b: Seq<char>, a: Seq<char>) -> bool {
    !a.contains(c) && s == b.push(c) + a
}

/// A text is cut at the last of a character: behind what is left of it stand
/// that character and no other of its kind.
pub proof fn law_texts_are_cut_at_the_last(s: Seq<char>, c: char)
    ensures
        before_last(s, c) is None <==> !s.contains(c),
        before_last(s, c) matches Some(b) ==> cut(s, c, b, s.skip(b.len() as int + 1)),
{
    lemma_last_index(s, c);
    let i = last_index_of(s, c);
    if i >= 0 {
        let a = s.skip(i + 1);
        let b = s.take(i);
        assert(s =~= b.push(c) + a);
        assert(!a.contains(c)) by {
            if a.contains(c) {
                let k = choose|k: int| 0 <= k < a.len() && a[k] == c;
                assert(s[i + 1 + k] == c);
            }
        }
        assert(before_last(s, c) == Some(b));
        assert(cut(s, c, b, a));
    }
}

/// Replacing goes character by character: one that is looked for becomes the
/// other text, and any other stays.
pub proof fn law_replacing_goes_by_characters(
    a: Seq<char>,
    b: Seq<char>,
    c: char,
    from: char,
    to: Seq<char>,
)
    ensures
        replaced(a + b, from, to) == replaced(a, from, to) + replaced(b, from, to),
        replaced(seq![from], from, to) == to,
        c != from ==> replaced(seq![c], from, to) == seq![c],
        replaced(Seq::empty(), from, to) == Seq::<char>::empty(),
    decreases b.len(),
{
    let none = Seq::<char>::empty();
    assert(replaced(none, from, to) =~= none);
    assert(seq![from].drop_last() =~= none);
    assert(seq![c].drop_last() =~= none);
    assert(none + to =~= to);
    assert(none + seq![c] =~= seq![c]);
    if b.len() == 0 {
        assert(a + b =~= a);
        assert(b =~= none);
        assert(replaced(a, from, to) + none =~= replaced(a, from, to));
    } else {
        law_replacing_goes_by_characters(a, b.drop_last(), c, from, to);
        assert((a + b).drop_last() =~= a + b.drop_last());
        assert(replaced(a + b, from, to) =~= replaced(a, from, to) + replaced(b, from, to));
    }
}

// ---------------------------------------------------------------------------
// Rows
// ---------------------------------------------------------------------------

proof fn lemma_fields_of_plain(s: Seq<char>, rest: Seq<char>, open: Seq<char>)
    requires
        !s.contains(','),
        !s.contains('"'),
    ensures
        fields_from(s + rest, false, open) == fields_from(rest, false, open + s),
    decreases s.len(),
{
    if s.len() == 0 {
        assert(s + rest =~= rest);
        assert(open + s =~= open);
    } else {
        assert(s.contains(s[0]));
        assert((s + rest).skip(1) =~= s.skip(1) + rest);
        assert forall|c: char| s.skip(1).contains(c) implies s.contains(c) by {
            let k = choose|k: int| 0 <= k < s.skip(1).len() && s.skip(1)[k] == c;
            assert(s[k + 1] == c);
        }
        lemma_fields_of_plain(s.skip(1), rest, open.push(s[0]));
        assert(open.push(s[0]) + s.skip(1) =~= open + s);
    }
}

/// A field without commas and quotes is what stands before the next comma; the
/// last field is what stands behind the last. A field that holds a comma, a
/// quote or a line feed is written between quotes, any other as it is.
pub proof fn law_fields_end_at_commas(field: Seq<char>, rest: Seq<char>)
    ensures
        !field.contains(',') && !field.contains('"') ==> fields_of(field.push(',') + rest)
            == seq![field] + fields_of(rest),
        !field.contains(',') && !field.contains('"') ==> fields_of(field) == seq![field],
        field.contains(',') || field.contains('"') || field.contains('\n') ==> escaped(
            field,
        ).len() >= 2 && escaped(field)[0] == '"' && escaped(field).last() == '"',
        !(field.contains(',') || field.contains('"') || field.contains('\n')) ==> escaped(field)
            == field,
{
    let none = Seq::<char>::empty();
    if !field.contains(',') && !field.contains('"') {
        let tail = seq![','] + rest;
        assert(field.push(',') + rest =~= field + tail);
        assert(none + field =~= field);
        lemma_fields_of_plain(field, tail, none);
        assert(tail.skip(1) =~= rest);
        lemma_fields_of_plain(field, none, none);
        assert(field + none =~= field);
    }
}

// ---------------------------------------------------------------------------
// Numbers
// ---------------------------------------------------------------------------

/// A digit's text is the digit; a longer number's is that of its tenth part
/// and its last digit; a negative number's begins with a minus sign.
pub proof fn law_numbers_are_written_in_decimal(n: nat)
    ensures
        decimal(0) == "0"@,
        decimal(1) == "1"@,
        decimal(2) == "2"@,
        decimal(3) == "3"@,
        decimal(4) == "4"@,
        decimal(5) == "5"@,
        decimal(6) == "6"@,
        decimal(7) == "7"@,
        decimal(8) == "8"@,
        decimal(9) == "9"@,
        n > 0 ==> forall|d: nat|
            d < 10 ==> #[trigger] decimal(10 * n + d) == decimal(n) + decimal(d),
        n > 0 ==> decimal_signed(-n) == "-"@ + decimal(n),
        decimal_signed(n as int) == decimal(n),
{
    reveal_strlit("0");
    reveal_strlit("1");
    reveal_strlit("2");
    reveal_strlit("3");
    reveal_strlit("4");
    reveal_strlit("5");
    reveal_strlit("6");
    reveal_strlit("7");
    reveal_strlit("8");
    reveal_strlit("9");
    reveal_strlit("-");
    assert("0"@ =~= seq!['0']);
    assert(decimal(0) =~= "0"@);
    assert(decimal(1) =~= "1"@);
    assert(decimal(2) =~= "2"@);
    assert(decimal(3) =~= "3"@);
    assert(decimal(4) =~= "4"@);
    assert(decimal(5) =~= "5"@);
    assert(decimal(6) =~= "6"@);
    assert(decimal(7) =~= "7"@);
    assert(decimal(8) =~= "8"@);
    assert(decimal(9) =~= "9"@);
    assert("-"@ =~= seq!['-']);
    if n > 0 {
        assert forall|d: nat| d < 10 implies #[trigger] decimal(10 * n + d) == decimal(n)
            + decimal(d) by {
            let m: nat = 10 * n + d;
            assert(m / 10 == n && m % 10 == d);
            assert(decimal(m) =~= decimal(n) + decimal(d));
        }
    }
}

proof fn lemma_digits_only(s: Seq<char>, negative: bool, lo: int, hi: int)
    ensures
        read_digits(s, negative, lo, hi) is Ok ==> forall|i: int|
            0 <= i < s.len() ==> digit(#[trigger] s[i]),
    decreases s.len(),
{
    if s.len() > 0 {
        lemma_digits_only(s.drop_last(), negative, lo, hi);
        if read_digits(s, negative, lo, hi) is Ok {
            assert forall|i: int| 0 <= i < s.len() implies digit(#[trigger] s[i]) by {
                if i < s.len() - 1 {
                    assert(s.drop_last()[i] == s[i]);
                }
            }
        }
    }
}

proof fn lemma_beyond(n: nat, negative: bool, lo: int, hi: int)
    requires
        lo <= 0 <= hi,
        negative ==> lo > -n,
        !negative ==> n > hi,
    ensures
        read_digits(decimal(n), negative, lo, hi) == Err::<int, IntFault>(
            if negative { IntFault::TooSmall } else { IntFault::TooLarge },
        ),
    decreases n,
{
    let s = decimal(n);
    if n < 10 {
        assert(s.drop_last() =~= Seq::<char>::empty());
        assert(read_digits(s.drop_last(), negative, lo, hi) == Ok::<int, IntFault>(0));
    } else {
        assert(s.drop_last() =~= decimal(n / 10));
        let m: nat = n / 10;
        let fits = if negative { lo <= -m } else { m <= hi };
        if fits {
            law_decimal_reads_back(if negative { -m } else { m as int }, lo, hi);
            lemma_signless(m, negative, lo, hi);
        } else {
            lemma_beyond(m, negative, lo, hi);
        }
    }
}

/// What the digits of a number that is in the range are read as.
proof fn lemma_signless(n: nat, negative: bool, lo: int, hi: int)
    requires
        lo <= 0 <= hi,
        negative ==> lo <= -n,
        !negative ==> n <= hi,
    ensures
        read_digits(decimal(n), negative, lo, hi) == Ok::<int, IntFault>(
            if negative { -n } else { n as int },
        ),
    decreases n,
{
    let s = decimal(n);
    if n < 10 {
        assert(s.drop_last() =~= Seq::<char>::empty());
        assert(read_digits(s.drop_last(), negative, lo, hi) == Ok::<int, IntFault>(0));
        assert(s.last() == digit_char(n as int));
    } else {
        assert(s.drop_last() =~= decimal(n / 10));
        lemma_signless(n / 10, negative, lo, hi);
    }
}

/// Integers are read from digits behind a sign that may be missing. A number
/// outside the range is refused as too large or too small, an empty text and
/// any other character as what they are. A minus sign is no sign where the
/// range has no negative numbers.
pub proof fn law_integers_are_read_within_their_range(n: nat, s: Seq<char>, lo: int, hi: int)
    requires
        lo <= 0 <= hi,
    ensures
        n <= hi ==> read_int(decimal(n), lo, hi) == Ok::<int, IntFault>(n as int),
        n <= hi ==> read_int("+"@ + decimal(n), lo, hi) == Ok::<int, IntFault>(n as int),
        n > hi ==> read_int(decimal(n), lo, hi) == Err::<int, IntFault>(IntFault::TooLarge),
        lo < 0 && -n >= lo ==> read_int("-"@ + decimal(n), lo, hi) == Ok::<int, IntFault>(-n),
        lo < 0 && -n < lo ==> read_int("-"@ + decimal(n), lo, hi) == Err::<int, IntFault>(
            IntFault::TooSmall,
        ),
        lo == 0 ==> read_int("-"@ + decimal(n), lo, hi) == Err::<int, IntFault>(
            IntFault::InvalidDigit,
        ),
        read_int(Seq::empty(), lo, hi) == Err::<int, IntFault>(IntFault::Empty),
        read_int("+"@, lo, hi) == Err::<int, IntFault>(IntFault::InvalidDigit),
        read_int("-"@, lo, hi) == Err::<int, IntFault>(IntFault::InvalidDigit),
        read_int(s, lo, hi) is Ok ==> {
            &&& s.len() > 0
            &&& digit(s[0]) || s[0] == '+' || s[0] == '-'
            &&& forall|i: int| 1 <= i < s.len() ==> digit(#[trigger] s[i])
        },
{
    reveal_strlit("+");
    reveal_strlit("-");
    let d = decimal(n);
    lemma_decimal_signed_chars(n as int);
    assert(decimal_signed(n as int) == d);
    let plus = "+"@ + d;
    let minus = "-"@ + d;
    assert(plus.skip(1) =~= d);
    assert(minus.skip(1) =~= d);
    assert(plus[0] == '+' && minus[0] == '-');
    assert(decimal_signed(n as int)[0] != '+');
    if d[0] == '-' {
        lemma_first_digit(n);
    }
    if n <= hi {
        lemma_signless(n, false, lo, hi);
    } else {
        lemma_beyond(n, false, lo, hi);
    }
    if -n >= lo {
        lemma_signless(n, true, lo, hi);
    } else {
        lemma_beyond(n, true, lo, hi);
    }
    lemma_first_digit(n);
    if lo == 0 {
        lemma_stops_at_minus(minus, lo, hi);
    }
    lemma_digits_only(s, false, lo, hi);
    if s.len() > 0 {
        lemma_digits_only(s.skip(1), false, lo, hi);
        lemma_digits_only(s.skip(1), true, lo, hi);
        assert forall|i: int| read_int(s, lo, hi) is Ok && 1 <= i < s.len() implies digit(
            #[trigger] s[i],
        ) by {
            assert(s.skip(1)[i - 1] == s[i]);
        }
    }
}

proof fn lemma_first_digit(n: nat)
    ensures
        decimal(n).len() > 0,
        digit(decimal(n)[0]),
    decreases n,
{
    if n >= 10 {
        lemma_first_digit(n / 10);
        assert(decimal(n)[0] == decimal(n / 10)[0]);
    }
}

proof fn lemma_stops_at_minus(s: Seq<char>, lo: int, hi: int)
    requires
        s.len() > 0,
        s[0] == '-',
    ensures
        read_digits(s, false, lo, hi) == Err::<int, IntFault>(IntFault::InvalidDigit),
    decreases s.len(),
{
    if s.len() > 1 {
        assert(s.drop_last()[0] == s[0]);
        lemma_stops_at_minus(s.drop_last(), lo, hi);
    } else {
        assert(s.last() == '-');
        assert(read_digits(s.drop_last(), false, lo, hi) == Ok::<int, IntFault>(0));
    }
}

// ---------------------------------------------------------------------------
// Floating-point literals
// ---------------------------------------------------------------------------

/// Whether a text is digits only.
pub open spec fn all_digits(s: Seq<char>) -> bool {
    forall|i: int| 0 <= i < s.len() ==> digit(#[trigger] s[i])
}

proof fn lemma_digits_to(s: Seq<char>, i: int, j: int)
    requires
        0 <= i <= j <= s.len(),
        forall|k: int| i <= k < j ==> digit(#[trigger] s[k]),
        j < s.len() ==> !digit(s[j]),
    ensures
        digits_end(s, i) == j,
    decreases j - i,
{
    if i < j {
        assert(digit(s[i]));
        lemma_digits_to(s, i + 1, j);
    }
}

/// The sign that stands before a number, where one does.
pub open spec fn sign(s: Seq<char>) -> bool {
    s.len() == 0 || s == "+"@ || s == "-"@
}

/// A literal is a sign that may be missing and digits, at least one of them,
/// that a point may stand among, before or behind, and an exponent that may be
/// missing: `e` or `E`, a sign that may be missing, and digits.
pub proof fn law_digits_points_and_exponents_are_literals(
    before: Seq<char>,
    whole: Seq<char>,
    part: Seq<char>,
    e: char,
    power: Seq<char>,
    digits: Seq<char>,
)
    requires
        sign(before),
        all_digits(whole),
        all_digits(part),
        e == 'e' || e == 'E',
        sign(power),
        all_digits(digits),
        digits.len() > 0,
    ensures
        whole.len() > 0 ==> float_literal(before + whole),
        whole.len() > 0 || part.len() > 0 ==> float_literal(before + whole.push('.') + part),
        whole.len() > 0 ==> float_literal(before + whole.push(e) + power + digits),
        whole.len() > 0 || part.len() > 0 ==> float_literal(
            before + whole.push('.') + part.push(e) + power + digits,
        ),
        !float_literal(before + "."@),
        !float_literal(before),
{
    reveal_strlit("+");
    reveal_strlit("-");
    reveal_strlit(".");
    let b = before.len() as int;
    let w = whole.len() as int;
    let p = part.len() as int;
    let q = power.len() as int;
    let d = digits.len() as int;
    {
        let s = before + whole;
        if w > 0 {
            assert(digit(whole[0]));
            assert(s[b] == whole[0]);
            assert(past_sign(s, 0) == b);
            assert forall|k: int| b <= k < s.len() implies digit(#[trigger] s[k]) by {
                assert(s[k] == whole[k - b]);
            }
            lemma_digits_to(s, b, b + w);
        }
    }
    {
        let s = before + whole.push('.') + part;
        if w > 0 || p > 0 {
            assert(s[b + w] == '.');
            if w > 0 {
                assert(digit(whole[0]));
                assert(s[b] == whole[0]);
            }
            assert(past_sign(s, 0) == b);
            assert forall|k: int| b <= k < b + w implies digit(#[trigger] s[k]) by {
                assert(s[k] == whole[k - b]);
            }
            lemma_digits_to(s, b, b + w);
            assert forall|k: int| b + w + 1 <= k < s.len() implies digit(#[trigger] s[k]) by {
                assert(s[k] == part[k - b - w - 1]);
            }
            lemma_digits_to(s, b + w + 1, b + w + 1 + p);
        }
    }
    {
        let s = before + whole.push(e) + power + digits;
        if w > 0 {
            assert(digit(whole[0]));
            assert(s[b] == whole[0]);
            assert(past_sign(s, 0) == b);
            assert(s[b + w] == e);
            assert forall|k: int| b <= k < b + w implies digit(#[trigger] s[k]) by {
                assert(s[k] == whole[k - b]);
            }
            lemma_digits_to(s, b, b + w);
            assert(s.skip(b + w + 1) =~= power + digits);
            lemma_power(s, b + w + 1, power, digits);
        }
    }
    {
        let s = before + whole.push('.') + part.push(e) + power + digits;
        if w > 0 || p > 0 {
            assert(s[b + w] == '.');
            if w > 0 {
                assert(digit(whole[0]));
                assert(s[b] == whole[0]);
            }
            assert(past_sign(s, 0) == b);
            assert forall|k: int| b <= k < b + w implies digit(#[trigger] s[k]) by {
                assert(s[k] == whole[k - b]);
            }
            lemma_digits_to(s, b, b + w);
            assert forall|k: int| b + w + 1 <= k < b + w + 1 + p implies digit(
                #[trigger] s[k],
            ) by {
                assert(s[k] == part[k - b - w - 1]);
            }
            assert(s[b + w + 1 + p] == e);
            lemma_digits_to(s, b + w + 1, b + w + 1 + p);
            assert(s.skip(b + w + p + 2) =~= power + digits);
            lemma_power(s, b + w + p + 2, power, digits);
        }
    }
    reveal_strlit("inf");
    reveal_strlit("infinity");
    reveal_strlit("nan");
    {
        let s = before + "."@;
        assert(s[b] == '.');
        assert(past_sign(s, 0) == b);
        assert(s.skip(b) =~= "."@);
        assert(lowered(s.skip(b)).len() == 1);
    }
    {
        let s = before;
        assert(past_sign(s, 0) == b);
        assert(s.skip(b).len() == 0);
        assert(lowered(s.skip(b)).len() == 0);
    }
}

proof fn lemma_power(s: Seq<char>, i: int, power: Seq<char>, digits: Seq<char>)
    requires
        sign(power),
        all_digits(digits),
        digits.len() > 0,
        0 <= i,
        s.len() == i + power.len() + digits.len(),
        s.skip(i) == power + digits,
    ensures
        past_sign(s, i) == i + power.len(),
        digits_end(s, i + power.len()) == s.len(),
{
    reveal_strlit("+");
    reveal_strlit("-");
    let q = power.len() as int;
    let t = power + digits;
    assert(digit(digits[0]));
    assert(t[q] == digits[0]);
    assert(s.skip(i)[0] == s[i]);
    assert(t[0] == s[i]);
    assert forall|k: int| i + q <= k < s.len() implies digit(#[trigger] s[k]) by {
        assert(s.skip(i)[k - i] == s[k]);
        assert(t[k - i] == digits[k - i - q]);
    }
    lemma_digits_to(s, i + q, s.len() as int);
}

/// The words for what is no finite number are literals, in letters of either
/// case and behind a sign that may be missing.
pub proof fn law_words_for_numbers_are_literals(before: Seq<char>, word: Seq<char>)
    requires
        sign(before),
        lowered(word) == "inf"@ || lowered(word) == "infinity"@ || lowered(word) == "nan"@,
    ensures
        float_literal(before + word),
{
    reveal_strlit("+");
    reveal_strlit("-");
    reveal_strlit("inf");
    reveal_strlit("infinity");
    reveal_strlit("nan");
    let s = before + word;
    let b = before.len() as int;
    assert(word.len() > 0) by {
        assert(lowered(word).len() == word.len());
    }
    let c = lowered(word)[0];
    assert(c == 'i' || c == 'n');
    assert(s[b] == word[0]);
    assert(word[0] != '+' && word[0] != '-');
    assert(past_sign(s, 0) == b);
    assert(s.skip(b) =~= word);
}

/// Upper-case ASCII letters are lowered to their own lower-case letters, and
/// no other character changes.
pub proof fn law_letters_are_lowered_in_place(s: Seq<char>, i: int)
    requires
        0 <= i < s.len(),
    ensures
        lowered(s).len() == s.len(),
        'A' <= s[i] <= 'Z' ==> lowered(s)[i] as int == s[i] as int + 32,
        !('A' <= s[i] <= 'Z') ==> lowered(s)[i] == s[i],
{
}

// ---------------------------------------------------------------------------
// Bit patterns and wide texts
// ---------------------------------------------------------------------------

/// Zero and one have the bit patterns of IEEE 754. A value is finite and above
/// zero where its sign is clear, it is not zero, and its exponent, the eleven
/// bits behind the sign, is not all ones.
pub proof fn law_values_have_their_bit_patterns(v: Double)
    ensures
        Double::nought().bits == 0,
        Double::unit().bits == 0x3FF0_0000_0000_0000,
        v.zero_of_either_sign() <==> v.bits == 0 || v.bits == 0x8000_0000_0000_0000,
        v.finite_positive() <==> v.bits / 0x8000_0000_0000_0000 == 0 && v.bits != 0 && v.bits
            / 0x10_0000_0000_0000 % 0x800 != 0x7FF,
{
}

/// A character of the basic plane is one unit, its own number; any other is
/// two, the first of them a high surrogate with the upper ten bits, the second
/// a low one with the lower ten. Units that stand alone where a pair belongs
/// are read as the replacement character.
pub proof fn law_characters_are_one_unit_or_two(c: char, s: Seq<char>, u: u16, rest: Seq<u16>)
    ensures
        (c as int) < 0x1_0000 ==> units_of(seq![c] + s) == seq![c as u16] + units_of(s),
        c as int >= 0x1_0000 ==> {
            &&& units_of(seq![c] + s).len() == 2 + units_of(s).len()
            &&& 0xD800 <= units_of(seq![c] + s)[0] < 0xDC00
            &&& 0xDC00 <= units_of(seq![c] + s)[1] < 0xE000
            &&& c as int == 0x1_0000 + (units_of(seq![c] + s)[0] - 0xD800) * 0x400 + (units_of(
                seq![c] + s,
            )[1] - 0xDC00)
            &&& units_of(seq![c] + s).skip(2) == units_of(s)
        },
        u < 0xD800 || u >= 0xE000 ==> text_of_units(seq![u] + rest) == seq![u as char]
            + text_of_units(rest),
        0xDC00 <= u < 0xE000 ==> text_of_units(seq![u] + rest) == seq!['\u{FFFD}']
            + text_of_units(rest),
        0xD800 <= u < 0xDC00 && (rest.len() == 0 || !(0xDC00 <= rest[0] < 0xE000))
            ==> text_of_units(seq![u] + rest) == seq!['\u{FFFD}'] + text_of_units(rest),
{
    assert((seq![c] + s).skip(1) =~= s);
    assert((seq![u] + rest).skip(1) =~= rest);
    let t = units_of(seq![c] + s);
    if c as int >= 0x1_0000 {
        assert(t.skip(2) =~= units_of(s));
    }
}

/// The texts of a list come in order, without the empty and the missing ones.
pub proof fn law_lists_leave_out_empty_texts(w: Seq<Option<Seq<u16>>>, last: Option<Seq<u16>>)
    ensures
        narrow_list(Seq::empty()) == Seq::<Seq<char>>::empty(),
        narrow(None) == Seq::<char>::empty(),
        narrow(last).len() == 0 ==> narrow_list(w.push(last)) == narrow_list(w),
        narrow(last).len() > 0 ==> narrow_list(w.push(last)) == narrow_list(w).push(narrow(last)),
{
    assert(w.push(last).drop_last() =~= w);
}

// ---------------------------------------------------------------------------
// The crash log
// ---------------------------------------------------------------------------

/// The exceptions that are logged, by their codes.
pub proof fn law_logged_exceptions_have_their_codes(code: u32)
    ensures
        ends_the_program(code) <==> code == 0xC000_0094 || code == 0xC000_0005 || code
            == 0xC000_0409 || code == 0xC000_001D || code == 0xC000_00FD || code == 0x8000_0003,
{
}

/// The value of a hexadecimal digit.
pub open spec fn hex_value(c: char) -> int {
    if '0' <= c <= '9' {
        c as int - '0' as int
    } else {
        c as int - 'A' as int + 10
    }
}

/// The number that hexadecimal digits stand for.
pub open spec fn hex_number(s: Seq<char>) -> int
    decreases s.len(),
{
    if s.len() == 0 {
        0
    } else {
        16 * hex_number(s.drop_last()) + hex_value(s.last())
    }
}

/// Sixteen to the given power.
pub open spec fn sixteen(width: nat) -> nat
    decreases width,
{
    if width == 0 {
        1
    } else {
        16 * sixteen((width - 1) as nat)
    }
}

/// A number that has room reads back from its hexadecimal digits, which are as
/// many as were asked for, the letters among them in upper case.
pub proof fn law_hexadecimal_digits_read_back(n: nat, width: nat)
    requires
        n < sixteen(width),
    ensures
        hex(n, width).len() == width,
        hex_number(hex(n, width)) == n,
        forall|i: int|
            0 <= i < width ==> '0' <= #[trigger] hex(n, width)[i] <= '9' || 'A' <= hex(n, width)[i]
                <= 'F',
    decreases width,
{
    if width > 0 {
        let less = (width - 1) as nat;
        assert(sixteen(width) == 16 * sixteen(less));
        law_hexadecimal_digits_read_back(n / 16, less);
        assert(hex(n, width).drop_last() =~= hex(n / 16, less));
    }
}

} // verus!
