//! What writing the voltages of a name in millivolts comes to.
use vstd::prelude::*;
use crate::daq::config::{in_millivolts, name_volts, replaced_from, volt_parts, volts_of};
use crate::number::{
    decimal_signed, lemma_decimal_signed_chars, lemma_float_literal_chars, literal_char,
};
use crate::text::{lemma_pieces_extend, lemma_pieces_nonempty, occurs_at, pieces};

verus! {

/// How many underscores a name has.
pub open spec fn underscores(name: Seq<char>) -> nat {
    name.filter(|c: char| c == '_').len()
}

/// Whether a text can be found and replaced within the parts of a name.
spec fn within_part(key: Seq<char>) -> bool {
    key.len() > 0 && !key.contains('_')
}

proof fn lemma_replaced_tail(s: Seq<char>, key: Seq<char>, to: Seq<char>, i: int, j: int)
    requires
        0 <= i,
        0 <= j,
        i + j <= s.len(),
    ensures
        replaced_from(s, key, to, i + j) == replaced_from(s.skip(i), key, to, j),
    decreases s.len() - i - j,
{
    let t = s.skip(i);
    if i + j < s.len() {
        if key.len() > 0 && i + j + key.len() <= s.len() {
            assert(s.subrange(i + j, i + j + key.len()) =~= t.subrange(j, j + key.len()));
            if occurs_at(s, key, i + j) {
                lemma_replaced_tail(s, key, to, i, j + key.len() as int);
            }
        }
        lemma_replaced_tail(s, key, to, i, j + 1);
    }
}

/// What is replaced on one side of an underscore does not touch the other.
proof fn lemma_replaced_join(a: Seq<char>, b: Seq<char>, key: Seq<char>, to: Seq<char>, i: int)
    requires
        within_part(key),
        0 <= i <= a.len(),
    ensures
        replaced_from(a.push('_') + b, key, to, i) == replaced_from(a, key, to, i).push('_')
            + replaced_from(b, key, to, 0),
    decreases a.len() - i,
{
    let s = a.push('_') + b;
    let after = replaced_from(b, key, to, 0);
    assert(s[a.len() as int] == '_');
    assert(key.contains(key[0]));
    if occurs_at(s, key, i) {
        assert(i + key.len() <= a.len()) by {
            if i + key.len() > a.len() {
                let k = a.len() - i;
                assert(s.subrange(i, i + key.len())[k] == s[a.len() as int]);
                assert(key.contains(key[k]));
            }
        }
        assert(s.subrange(i, i + key.len()) =~= a.subrange(i, i + key.len()));
        lemma_replaced_join(a, b, key, to, i + key.len() as int);
        assert(to + (replaced_from(a, key, to, i + key.len()).push('_') + after) =~= (to
            + replaced_from(a, key, to, i + key.len())).push('_') + after);
    } else if i < a.len() {
        if occurs_at(a, key, i) {
            assert(s.subrange(i, i + key.len()) =~= a.subrange(i, i + key.len()));
        }
        lemma_replaced_join(a, b, key, to, i + 1);
        assert(seq![s[i]] + (replaced_from(a, key, to, i + 1).push('_') + after) =~= (seq![a[i]]
            + replaced_from(a, key, to, i + 1)).push('_') + after);
    } else {
        lemma_replaced_tail(s, key, to, i + 1, 0);
        assert(s.skip(i + 1) =~= b);
        assert(seq!['_'] + after =~= Seq::<char>::empty().push('_') + after);
    }
}

proof fn lemma_replaced_lacks(s: Seq<char>, key: Seq<char>, to: Seq<char>, i: int, c: char)
    requires
        !s.contains(c),
        !to.contains(c),
        0 <= i,
    ensures
        !replaced_from(s, key, to, i).contains(c),
    decreases s.len() - i,
{
    if i < s.len() {
        let found = key.len() > 0 && occurs_at(s, key, i);
        let next: int = if found { i + key.len() } else { i + 1 };
        let head = if found { to } else { seq![s[i]] };
        lemma_replaced_lacks(s, key, to, next, c);
        let tail = replaced_from(s, key, to, next);
        assert(s.contains(s[i]));
        assert forall|k: int| 0 <= k < (head + tail).len() implies (head + tail)[k] != c by {
            if k < head.len() {
                assert(head.contains(head[k]));
            } else {
                assert(tail.contains(tail[k - head.len()]));
            }
        }
    }
}

/// A character that `key` lacks stays where it stood.
proof fn lemma_replaced_keeps(
    s: Seq<char>,
    key: Seq<char>,
    to: Seq<char>,
    i: int,
    k: int,
    c: char,
)
    requires
        0 <= i <= k < s.len(),
        s[k] == c,
        !key.contains(c),
    ensures
        replaced_from(s, key, to, i).contains(c),
    decreases s.len() - i,
{
    let found = key.len() > 0 && occurs_at(s, key, i);
    let next: int = if found { i + key.len() } else { i + 1 };
    let head = if found { to } else { seq![s[i]] };
    let tail = replaced_from(s, key, to, next);
    if !found && k == i {
        assert((head + tail)[0] == c);
    } else {
        if found && k < next {
            assert(s.subrange(i, i + key.len())[k - i] == c);
            assert(key.contains(key[k - i]));
        }
        lemma_replaced_keeps(s, key, to, next, k, c);
        let at = choose|at: int| 0 <= at < tail.len() && tail[at] == c;
        assert((head + tail)[head.len() + at] == c);
    }
}

/// Replacing changes nothing, or leaves a character of `to` behind.
proof fn lemma_replaced_or_not(s: Seq<char>, key: Seq<char>, to: Seq<char>, i: int, c: char)
    requires
        0 <= i <= s.len(),
        to.contains(c),
    ensures
        replaced_from(s, key, to, i) == s.skip(i) || replaced_from(s, key, to, i).contains(c),
    decreases s.len() - i,
{
    if i < s.len() {
        if key.len() > 0 && occurs_at(s, key, i) {
            let tail = replaced_from(s, key, to, i + key.len());
            let at = choose|at: int| 0 <= at < to.len() && to[at] == c;
            assert((to + tail)[at] == c);
        } else {
            lemma_replaced_or_not(s, key, to, i + 1, c);
            let tail = replaced_from(s, key, to, i + 1);
            if tail == s.skip(i + 1) {
                assert(seq![s[i]] + tail =~= s.skip(i));
            } else {
                let at = choose|at: int| 0 <= at < tail.len() && tail[at] == c;
                assert((seq![s[i]] + tail)[at + 1] == c);
            }
        }
    } else {
        assert(s.skip(i) =~= Seq::empty());
    }
}

proof fn lemma_replaced_whole(key: Seq<char>, to: Seq<char>)
    requires
        key.len() > 0,
    ensures
        replaced_from(key, key, to, 0) == to,
{
    assert(key.subrange(0, key.len() as int) =~= key);
    assert(replaced_from(key, key, to, key.len() as int) =~= Seq::empty());
    assert(to + Seq::<char>::empty() =~= to);
}

proof fn lemma_last_underscore(s: Seq<char>) -> (i: int)
    requires
        s.contains('_'),
    ensures
        0 <= i < s.len(),
        s[i] == '_',
        !s.skip(i + 1).contains('_'),
    decreases s.len(),
{
    if s.last() == '_' {
        assert(s.skip(s.len() as int) =~= Seq::empty());
        s.len() - 1
    } else {
        let t = s.drop_last();
        let k = choose|k: int| 0 <= k < s.len() && s[k] == '_';
        assert(t[k] == '_');
        let i = lemma_last_underscore(t);
        let rest = s.skip(i + 1);
        assert forall|j: int| 0 <= j < rest.len() implies rest[j] != '_' by {
            if j < t.skip(i + 1).len() {
                assert(t.skip(i + 1).contains(t.skip(i + 1)[j]));
            }
        }
        i
    }
}

proof fn lemma_pieces_behind(a: Seq<char>, b: Seq<char>)
    requires
        !b.contains('_'),
    ensures
        pieces(a.push('_') + b, '_') == pieces(a, '_').push(b),
{
    assert(a.push('_').drop_last() =~= a);
    lemma_pieces_extend(a.push('_'), b, '_');
    assert(Seq::<char>::empty() + b =~= b);
    assert(pieces(a, '_').push(Seq::empty()).drop_last() =~= pieces(a, '_'));
}

proof fn lemma_pieces_alone(s: Seq<char>)
    requires
        !s.contains('_'),
    ensures
        pieces(s, '_') == seq![s],
{
    lemma_pieces_extend(Seq::empty(), s, '_');
    assert(Seq::<char>::empty() + s =~= s);
    assert(pieces(s, '_') =~= seq![s]);
}

/// What is replaced in a name is replaced in each of its parts.
proof fn lemma_replaced_pieces(s: Seq<char>, key: Seq<char>, to: Seq<char>)
    requires
        within_part(key),
        !to.contains('_'),
    ensures
        pieces(replaced_from(s, key, to, 0), '_') == pieces(s, '_').map_values(
            |p: Seq<char>| replaced_from(p, key, to, 0),
        ),
    decreases s.len(),
{
    let f = |p: Seq<char>| replaced_from(p, key, to, 0);
    if s.contains('_') {
        let i = lemma_last_underscore(s);
        let a = s.take(i);
        let b = s.skip(i + 1);
        assert(s =~= a.push('_') + b);
        lemma_replaced_pieces(a, key, to);
        lemma_replaced_join(a, b, key, to, 0);
        lemma_replaced_lacks(b, key, to, 0, '_');
        lemma_pieces_behind(a, b);
        lemma_pieces_behind(replaced_from(a, key, to, 0), replaced_from(b, key, to, 0));
        assert(pieces(a, '_').push(b).map_values(f) =~= pieces(a, '_').map_values(f).push(f(b)));
    } else {
        lemma_replaced_lacks(s, key, to, 0, '_');
        lemma_pieces_alone(s);
        lemma_pieces_alone(replaced_from(s, key, to, 0));
        assert(seq![s].map_values(f) =~= seq![f(s)]);
    }
}

/// A part that gives a number of volts holds neither an underscore nor an `m`.
proof fn lemma_volts_chars(part: Seq<char>)
    requires
        volts_of(part) is Some,
    ensures
        within_part(part),
        !part.contains('m'),
        part.contains('.'),
{
    let number = part.drop_last();
    lemma_float_literal_chars(number);
    assert forall|k: int| 0 <= k < part.len() implies part[k] != '_' && part[k] != 'm' by {
        if k < number.len() {
            assert(literal_char(number[k]));
        }
    }
    let k = choose|k: int| 0 <= k < number.len() && number[k] == '.';
    assert(part[k] == '.');
}

proof fn lemma_volt_parts(parts: Seq<Seq<char>>)
    ensures
        forall|k: int|
            0 <= k < volt_parts(parts).len() ==> volts_of(#[trigger] volt_parts(parts)[k]) is Some,
        forall|j: int|
            0 <= j < parts.len() && volts_of(#[trigger] parts[j]) is Some ==> volt_parts(
                parts,
            ).contains(parts[j]),
    decreases parts.len(),
{
    if parts.len() > 0 {
        let init = parts.drop_last();
        lemma_volt_parts(init);
        let before = volt_parts(init);
        let all = volt_parts(parts);
        assert forall|j: int|
            0 <= j < parts.len() && volts_of(#[trigger] parts[j]) is Some implies all.contains(
            parts[j],
        ) by {
            if j < init.len() {
                assert(init[j] == parts[j]);
                let k = choose|k: int| 0 <= k < before.len() && before[k] == parts[j];
                assert(all[k] == parts[j]);
            } else {
                assert(all.last() == parts[j]);
            }
        }
    }
}

proof fn lemma_no_volt_parts(parts: Seq<Seq<char>>)
    requires
        forall|j: int| 0 <= j < parts.len() ==> volts_of(#[trigger] parts[j]) is None,
    ensures
        volt_parts(parts).len() == 0,
    decreases parts.len(),
{
    if parts.len() > 0 {
        let init = parts.drop_last();
        assert forall|j: int| 0 <= j < init.len() implies volts_of(#[trigger] init[j]) is None by {
            assert(init[j] == parts[j]);
        }
        lemma_no_volt_parts(init);
    }
}

proof fn lemma_pieces_within(s: Seq<char>, j: int, c: char)
    requires
        0 <= j < pieces(s, '_').len(),
        pieces(s, '_')[j].contains(c),
    ensures
        s.contains(c),
    decreases s.len(),
{
    lemma_pieces_nonempty(s, '_');
    if s.len() > 0 {
        let t = s.drop_last();
        let p = pieces(t, '_');
        lemma_pieces_nonempty(t, '_');
        assert(s.last() == s[s.len() - 1]);
        if j < p.len() && p[j].contains(c) {
            lemma_pieces_within(t, j, c);
            let k = choose|k: int| 0 <= k < t.len() && t[k] == c;
            assert(s[k] == c);
        }
    }
}

/// A number of millivolts as it stands in a name.
spec fn millivolt_text(n: i64) -> Seq<char> {
    decimal_signed(n as int) + "mV"@
}

proof fn lemma_millivolt_text(n: i64)
    ensures
        millivolt_text(n).contains('m'),
        !millivolt_text(n).contains('_'),
        millivolt_text(n).len() > 0,
{
    let d = decimal_signed(n as int);
    let t = millivolt_text(n);
    reveal_strlit("mV");
    lemma_decimal_signed_chars(n as int);
    assert(t[d.len() as int] == 'm');
    assert forall|k: int| 0 <= k < t.len() implies t[k] != '_' by {
        if k < d.len() {
            assert(t[k] == d[k]);
        }
    }
}

/// Each part of a name stays as it is or has an `m`, and those among the
/// first `n` numbers of volts have one.
proof fn lemma_parts_after(name: Seq<char>, millivolts: Seq<i64>, n: int)
    requires
        0 <= n <= name_volts(name).len(),
    ensures
        ({
            let before = pieces(name, '_');
            let after = pieces(in_millivolts(name, name_volts(name), millivolts, n), '_');
            &&& after.len() == before.len()
            &&& forall|j: int|
                0 <= j < before.len() ==> {
                    ||| (#[trigger] after[j]).contains('m')
                    ||| after[j] == before[j] && !name_volts(name).take(n).contains(before[j])
                }
        }),
    decreases n,
{
    let parts = name_volts(name);
    let before = pieces(name, '_');
    if n > 0 {
        let s = in_millivolts(name, parts, millivolts, n - 1);
        let key = parts[n - 1];
        let to = millivolt_text(millivolts[n - 1]);
        lemma_parts_after(name, millivolts, n - 1);
        lemma_volt_parts(before);
        lemma_volts_chars(key);
        lemma_millivolt_text(millivolts[n - 1]);
        lemma_replaced_pieces(s, key, to);
        let p = pieces(s, '_');
        let after = pieces(in_millivolts(name, parts, millivolts, n), '_');
        assert forall|j: int| 0 <= j < before.len() implies {
            ||| (#[trigger] after[j]).contains('m')
            ||| after[j] == before[j] && !parts.take(n).contains(before[j])
        } by {
            assert(after[j] == replaced_from(p[j], key, to, 0));
            if p[j].contains('m') {
                let k = choose|k: int| 0 <= k < p[j].len() && p[j][k] == 'm';
                lemma_replaced_keeps(p[j], key, to, 0, k, 'm');
            } else if p[j] == key {
                lemma_replaced_whole(key, to);
            } else {
                lemma_replaced_or_not(p[j], key, to, 0, 'm');
                assert(p[j].skip(0) =~= p[j]);
                if parts.take(n).contains(before[j]) {
                    let k = choose|k: int|
                        0 <= k < parts.take(n).len() && parts.take(n)[k] == before[j];
                    assert(parts.take(n - 1)[k] == before[j]);
                }
            }
        }
    } else {
        assert(parts.take(n) =~= Seq::empty());
    }
}

proof fn lemma_underscores(s: Seq<char>)
    ensures
        pieces(s, '_').len() == underscores(s) + 1,
    decreases s.len(),
{
    reveal(Seq::filter);
    if s.len() > 0 {
        lemma_underscores(s.drop_last());
        lemma_pieces_nonempty(s.drop_last(), '_');
    }
}

/// A name stays a name: what is not empty is not empty in millivolts either.
pub proof fn lemma_converted_not_empty(name: Seq<char>, millivolts: Seq<i64>, n: int)
    requires
        name.len() > 0,
    ensures
        in_millivolts(name, name_volts(name), millivolts, n).len() > 0,
    decreases n,
{
    if n > 0 {
        lemma_converted_not_empty(name, millivolts, n - 1);
        lemma_millivolt_text(millivolts[n - 1]);
    }
}

/// Writing the voltages of a name in millivolts leaves none to be written so:
/// doing it again changes nothing. It keeps the number of underscores, and a
/// name without a point stays as it is.
pub proof fn law_voltages_are_converted_once(name: Seq<char>, millivolts: Seq<i64>)
    requires
        millivolts.len() == name_volts(name).len(),
    ensures
        ({
            let r = in_millivolts(name, name_volts(name), millivolts, millivolts.len() as int);
            &&& name_volts(r).len() == 0
            &&& forall|again: Seq<i64>|
                again.len() == name_volts(r).len() ==> #[trigger] in_millivolts(
                    r,
                    name_volts(r),
                    again,
                    again.len() as int,
                ) == r
            &&& underscores(r) == underscores(name)
            &&& !name.contains('.') ==> r == name
        }),
{
    let parts = name_volts(name);
    let n = millivolts.len() as int;
    let r = in_millivolts(name, parts, millivolts, n);
    let before = pieces(name, '_');
    let after = pieces(r, '_');
    lemma_parts_after(name, millivolts, n);
    lemma_volt_parts(before);
    assert(parts.take(n) =~= parts);
    assert forall|j: int| 0 <= j < after.len() implies volts_of(#[trigger] after[j]) is None by {
        if volts_of(after[j]) is Some {
            lemma_volts_chars(after[j]);
            assert(parts.contains(before[j]));
        }
    }
    lemma_no_volt_parts(after);
    lemma_underscores(name);
    lemma_underscores(r);
    if !name.contains('.') {
        assert forall|j: int| 0 <= j < before.len() implies volts_of(
            #[trigger] before[j],
        ) is None by {
            if volts_of(before[j]) is Some {
                lemma_volts_chars(before[j]);
                lemma_pieces_within(name, j, '.');
            }
        }
        lemma_no_volt_parts(before);
    }
}

} // verus!
