//! Text as sequences of characters: the scanning, splitting and number
//! reading that the rest of the library is written with.
use vstd::prelude::*;
use vstd::utf8::{decode_utf8, valid_utf8};

verus! {

/// `String::push` appends one character.
pub assume_specification[ std::string::String::push ](s: &mut std::string::String, c: char)
    ensures
        final(s)@ == old(s)@.push(c),
;

/// The text that `String::from_utf8_lossy` makes of bytes.
pub uninterp spec fn lossy_text(bytes: Seq<u8>) -> Seq<char>;

/// `String::from_utf8_lossy`, made an owned `String`: the text of bytes that
/// are UTF-8, and for others the text with replacement characters in place of
/// what is not, under the name `lossy_text`.
#[verifier::external_body]
pub(crate) fn from_utf8_lossy(bytes: &Vec<u8>) -> (s: String)
    ensures
        s@ == lossy_text(bytes@),
        valid_utf8(bytes@) ==> s@ == decode_utf8(bytes@),
{
    String::from_utf8_lossy(bytes).into_owned()
}

/// The characters of a text.
pub fn chars_of(s: &str) -> (v: Vec<char>)
    ensures
        v@ == s@,
{
    let mut v: Vec<char> = Vec::new();
    for c in it: s.chars()
        invariant
            it.seq() == s@,
            v@ == s@.take(it.index()),
    {
        v.push(c);
        assert(s@.take(it.index() + 1) =~= s@.take(it.index()).push(c));
    }
    assert(s@.take(s@.len() as int) =~= s@);
    v
}

/// The text that is made of the characters from `lo` up to `hi`.
pub fn string_range(v: &Vec<char>, lo: usize, hi: usize) -> (s: String)
    requires
        lo <= hi <= v@.len(),
    ensures
        s@ == v@.subrange(lo as int, hi as int),
{
    let mut s = String::new();
    let mut i: usize = lo;
    while i < hi
        invariant
            lo <= i <= hi <= v@.len(),
            s@ == v@.subrange(lo as int, i as int),
        decreases hi - i,
    {
        s.push(v[i]);
        assert(v@.subrange(lo as int, i as int + 1) =~= v@.subrange(lo as int, i as int).push(
            v@[i as int],
        ));
        i += 1;
    }
    s
}

/// Whether two texts hold the same characters.
pub fn same_text(a: &str, b: &str) -> (r: bool)
    ensures
        r == (a@ == b@),
{
    let u = chars_of(a);
    let v = chars_of(b);
    if u.len() != v.len() {
        return false;
    }
    let mut i: usize = 0;
    while i < u.len()
        invariant
            u@ == a@,
            v@ == b@,
            u@.len() == v@.len(),
            i <= u@.len(),
            forall|j: int| 0 <= j < i ==> u@[j] == v@[j],
        decreases u.len() - i,
    {
        if u[i] != v[i] {
            return false;
        }
        i += 1;
    }
    assert(a@ =~= b@);
    true
}

/// `a` followed by `b`.
pub fn concat2(a: &str, b: &str) -> (s: String)
    ensures
        s@ == a@ + b@,
{
    let mut s = String::new();
    s.append(a);
    s.append(b);
    assert(s@ =~= a@ + b@);
    s
}

/// `a`, then `b`, then `c`.
pub fn concat3(a: &str, b: &str, c: &str) -> (s: String)
    ensures
        s@ == a@ + b@ + c@,
{
    let mut s = concat2(a, b);
    s.append(c);
    s
}

/// `a`, `b`, `c`, then `d`.
pub fn concat4(a: &str, b: &str, c: &str, d: &str) -> (s: String)
    ensures
        s@ == a@ + b@ + c@ + d@,
{
    let mut s = concat3(a, b, c);
    s.append(d);
    s
}

// ---------------------------------------------------------------------------
// White space
// ---------------------------------------------------------------------------

/// The characters with Unicode's `White_Space` property.
pub open spec fn white(c: char) -> bool {
    ||| 0x9 <= c as u32 <= 0xD
    ||| c as u32 == 0x20
    ||| c as u32 == 0x85
    ||| c as u32 == 0xA0
    ||| c as u32 == 0x1680
    ||| 0x2000 <= c as u32 <= 0x200A
    ||| c as u32 == 0x2028
    ||| c as u32 == 0x2029
    ||| c as u32 == 0x202F
    ||| c as u32 == 0x205F
    ||| c as u32 == 0x3000
}

/// Whether a character is white space.
pub fn is_white(c: char) -> (r: bool)
    ensures
        r == white(c),
{
    let n: u32 = c as u32;
    (0x9 <= n && n <= 0xD) || n == 0x20 || n == 0x85 || n == 0xA0 || n == 0x1680 || (0x2000 <= n
        && n <= 0x200A) || n == 0x2028 || n == 0x2029 || n == 0x202F || n == 0x205F || n == 0x3000
}

/// `s` without its leading white space.
pub open spec fn trimmed_start(s: Seq<char>) -> Seq<char>
    decreases s.len(),
{
    if s.len() > 0 && white(s[0]) {
        trimmed_start(s.drop_first())
    } else {
        s
    }
}

/// `s` without its trailing white space.
pub open spec fn trimmed_end(s: Seq<char>) -> Seq<char>
    decreases s.len(),
{
    if s.len() > 0 && white(s.last()) {
        trimmed_end(s.drop_last())
    } else {
        s
    }
}

/// `s` without leading and trailing white space.
pub open spec fn trimmed(s: Seq<char>) -> Seq<char> {
    trimmed_end(trimmed_start(s))
}

/// Whether every character of `s` is white space.
pub open spec fn blank(s: Seq<char>) -> bool {
    forall|i: int| 0 <= i < s.len() ==> white(#[trigger] s[i])
}

/// A text is blank exactly where nothing is left of it after trimming.
pub proof fn lemma_blank_iff_trimmed_empty(s: Seq<char>)
    ensures
        blank(s) <==> trimmed(s).len() == 0,
    decreases s.len(),
{
    if s.len() > 0 && white(s[0]) {
        lemma_blank_iff_trimmed_empty(s.drop_first());
        assert(blank(s) <==> blank(s.drop_first())) by {
            if blank(s.drop_first()) {
                assert forall|i: int| 0 <= i < s.len() implies white(#[trigger] s[i]) by {
                    if i > 0 {
                        assert(s.drop_first()[i - 1] == s[i]);
                    }
                }
            }
        }
    } else if s.len() > 0 {
        lemma_trimmed_end_keeps_head(s);
    }
}

proof fn lemma_trimmed_end_keeps_head(s: Seq<char>)
    requires
        s.len() > 0,
        !white(s[0]),
    ensures
        trimmed_end(s).len() > 0,
        !blank(s),
    decreases s.len(),
{
    if white(s.last()) {
        assert(s.drop_last()[0] == s[0]);
        lemma_trimmed_end_keeps_head(s.drop_last());
    }
}

proof fn lemma_trimmed_start_skips(s: Seq<char>, n: int)
    requires
        0 <= n <= s.len(),
        forall|i: int| 0 <= i < n ==> white(#[trigger] s[i]),
    ensures
        trimmed_start(s) == trimmed_start(s.skip(n)),
    decreases n,
{
    if n > 0 {
        assert(white(s[0]));
        assert forall|i: int| 0 <= i < n - 1 implies white(#[trigger] s.drop_first()[i]) by {
            assert(s.drop_first()[i] == s[i + 1]);
        }
        lemma_trimmed_start_skips(s.drop_first(), n - 1);
        assert(s.drop_first().skip(n - 1) =~= s.skip(n));
    } else {
        assert(s.skip(0) =~= s);
    }
}

proof fn lemma_trimmed_end_skips(s: Seq<char>, n: int)
    requires
        0 <= n <= s.len(),
        forall|i: int| n <= i < s.len() ==> white(#[trigger] s[i]),
    ensures
        trimmed_end(s) == trimmed_end(s.take(n)),
    decreases s.len() - n,
{
    if n < s.len() {
        assert(white(s.last()));
        lemma_trimmed_end_skips(s.drop_last(), n);
        assert(s.drop_last().take(n) =~= s.take(n));
    } else {
        assert(s.take(n) =~= s);
    }
}

/// `s` without leading and trailing white space.
pub fn trim(s: &str) -> (r: String)
    ensures
        r@ == trimmed(s@),
{
    let v = chars_of(s);
    let mut lo: usize = 0;
    while lo < v.len() && is_white(v[lo])
        invariant
            v@ == s@,
            lo <= v@.len(),
            forall|i: int| 0 <= i < lo ==> white(#[trigger] v@[i]),
        decreases v.len() - lo,
    {
        lo += 1;
    }
    let mut hi: usize = v.len();
    while hi > lo && is_white(v[hi - 1])
        invariant
            v@ == s@,
            lo <= hi <= v@.len(),
            forall|i: int| hi <= i < v@.len() ==> white(#[trigger] v@[i]),
        decreases hi,
    {
        hi -= 1;
    }
    proof {
        lemma_trimmed_start_skips(s@, lo as int);
        let t = s@.skip(lo as int);
        assert(trimmed_start(t) == t) by {
            if t.len() > 0 {
                assert(t[0] == s@[lo as int]);
            }
        }
        assert forall|i: int| hi - lo <= i < t.len() implies white(#[trigger] t[i]) by {
            assert(t[i] == v@[i + lo]);
        }
        lemma_trimmed_end_skips(t, hi - lo);
        let m = t.take(hi - lo);
        assert(m =~= v@.subrange(lo as int, hi as int));
        assert(trimmed_end(m) == m) by {
            if m.len() > 0 {
                assert(m.last() == v@[hi - 1]);
            }
        }
    }
    string_range(&v, lo, hi)
}

/// Whether a text is empty or holds only white space.
pub fn is_blank(s: &str) -> (r: bool)
    ensures
        r == blank(s@),
{
    let v = chars_of(s);
    let mut i: usize = 0;
    while i < v.len()
        invariant
            v@ == s@,
            i <= v@.len(),
            forall|j: int| 0 <= j < i ==> white(#[trigger] v@[j]),
        decreases v.len() - i,
    {
        if !is_white(v[i]) {
            return false;
        }
        i += 1;
    }
    true
}

// ---------------------------------------------------------------------------
// Pieces
// ---------------------------------------------------------------------------

/// The pieces of `s` between the occurrences of `sep`, read character by
/// character: `sep` opens a new piece, and any other character joins the
/// piece that is open.
pub open spec fn pieces(s: Seq<char>, sep: char) -> Seq<Seq<char>>
    decreases s.len(),
{
    if s.len() == 0 {
        seq![Seq::<char>::empty()]
    } else {
        let p = pieces(s.drop_last(), sep);
        if s.last() == sep {
            p.push(Seq::<char>::empty())
        } else {
            p.drop_last().push(p.last().push(s.last()))
        }
    }
}

/// The texts of a list.
pub open spec fn texts(v: Seq<String>) -> Seq<Seq<char>> {
    v.map_values(|s: String| s@)
}

pub proof fn lemma_pieces_nonempty(s: Seq<char>, sep: char)
    ensures
        pieces(s, sep).len() > 0,
    decreases s.len(),
{
    if s.len() > 0 {
        lemma_pieces_nonempty(s.drop_last(), sep);
    }
}

/// The pieces of `s` between the occurrences of `sep`.
pub fn split(s: &str, sep: char) -> (r: Vec<String>)
    ensures
        texts(r@) == pieces(s@, sep),
{
    let v = chars_of(s);
    let mut done: Vec<String> = Vec::new();
    let mut open = String::new();
    let mut i: usize = 0;
    assert(texts(done@).push(open@) =~= pieces(s@.take(0), sep));
    while i < v.len()
        invariant
            v@ == s@,
            i <= v@.len(),
            texts(done@).push(open@) == pieces(s@.take(i as int), sep),
        decreases v.len() - i,
    {
        let c = v[i];
        let ghost before = texts(done@);
        let ghost cur = open@;
        proof {
            assert(s@.take(i as int + 1).drop_last() =~= s@.take(i as int));
            let p = pieces(s@.take(i as int), sep);
            assert(p.drop_last() =~= before);
            assert(p.last() == cur);
        }
        if c == sep {
            done.push(open);
            open = String::new();
            assert(texts(done@) =~= before.push(cur));
        } else {
            open.push(c);
        }
        assert(texts(done@).push(open@) =~= pieces(s@.take(i as int + 1), sep));
        i += 1;
    }
    assert(s@.take(s@.len() as int) =~= s@);
    let ghost before = texts(done@);
    let ghost cur = open@;
    done.push(open);
    assert(texts(done@) =~= before.push(cur));
    done
}

/// `s` without one trailing carriage return.
pub open spec fn without_cr(s: Seq<char>) -> Seq<char> {
    if s.len() > 0 && s.last() == '\r' {
        s.drop_last()
    } else {
        s
    }
}

/// The lines of `s`: each ends with a line feed or a carriage return and a
/// line feed, which are not part of it; the last line may lack its line feed.
pub open spec fn lines_of(s: Seq<char>) -> Seq<Seq<char>> {
    let p = pieces(s, '\n');
    let ended = p.drop_last().map_values(|l: Seq<char>| without_cr(l));
    if p.last().len() == 0 {
        ended
    } else {
        ended.push(p.last())
    }
}

/// The lines of `s`.
pub fn lines(s: &str) -> (r: Vec<String>)
    ensures
        texts(r@) == lines_of(s@),
{
    let p = split(s, '\n');
    proof {
        lemma_pieces_nonempty(s@, '\n');
    }
    assert(texts(p@).len() == p@.len());
    let n: usize = p.len() - 1;
    let mut r: Vec<String> = Vec::new();
    let mut i: usize = 0;
    while i < n
        invariant
            n + 1 == p@.len(),
            texts(p@) == pieces(s@, '\n'),
            i <= n,
            texts(r@) == pieces(s@, '\n').take(i as int).map_values(
                |l: Seq<char>| without_cr(l),
            ),
        decreases n - i,
    {
        let ghost before = texts(r@);
        let ghost l = pieces(s@, '\n')[i as int];
        let v = chars_of(p[i].as_str());
        assert(texts(p@)[i as int] == l);
        let mut k: usize = v.len();
        if k > 0 && v[k - 1] == '\r' {
            k -= 1;
        }
        let line = string_range(&v, 0, k);
        assert(line@ =~= without_cr(l));
        r.push(line);
        assert(texts(r@) =~= before.push(without_cr(l)));
        assert(texts(r@) =~= pieces(s@, '\n').take(i as int + 1).map_values(
            |l: Seq<char>| without_cr(l),
        ));
        i += 1;
    }
    assert(pieces(s@, '\n').take(n as int) =~= pieces(s@, '\n').drop_last());
    assert(texts(p@)[n as int] == pieces(s@, '\n').last());
    if chars_of(p[n].as_str()).len() > 0 {
        let ghost before = texts(r@);
        let last = p[n].clone();
        r.push(last);
        assert(texts(r@) =~= before.push(pieces(s@, '\n').last()));
    }
    r
}

/// The words of `s`: its longest runs without white space, read character by
/// character.
pub open spec fn words_of(s: Seq<char>) -> Seq<Seq<char>>
    decreases s.len(),
{
    if s.len() == 0 {
        Seq::empty()
    } else {
        let p = words_of(s.drop_last());
        let c = s.last();
        if white(c) {
            p
        } else if s.len() == 1 || white(s[s.len() - 2]) {
            p.push(seq![c])
        } else {
            p.drop_last().push(p.last().push(c))
        }
    }
}

/// The words of `s`.
pub fn words(s: &str) -> (r: Vec<String>)
    ensures
        texts(r@) == words_of(s@),
{
    let v = chars_of(s);
    let mut done: Vec<String> = Vec::new();
    let mut open = String::new();
    let mut i: usize = 0;
    assert(s@.take(0) =~= Seq::<char>::empty());
    assert(texts(done@) =~= words_of(s@.take(0)));
    while i < v.len()
        invariant
            v@ == s@,
            i <= v@.len(),
            open@.len() > 0 <==> (i > 0 && !white(v@[i - 1])),
            words_of(s@.take(i as int)) == if open@.len() > 0 {
                texts(done@).push(open@)
            } else {
                texts(done@)
            },
        decreases v.len() - i,
    {
        let c = v[i];
        let ghost before = texts(done@);
        let ghost cur = open@;
        proof {
            let t = s@.take(i as int + 1);
            assert(t.drop_last() =~= s@.take(i as int));
            assert(t.last() == c);
            if i > 0 {
                assert(t[t.len() - 2] == s@[i - 1]);
            }
            let p = words_of(s@.take(i as int));
            if cur.len() > 0 {
                assert(p.drop_last() =~= before);
                assert(p.last() == cur);
            }
        }
        if is_white(c) {
            if chars_of(open.as_str()).len() > 0 {
                done.push(open);
                open = String::new();
                assert(texts(done@) =~= before.push(cur));
            }
        } else {
            open.push(c);
            assert(cur.len() == 0 ==> open@ =~= seq![c]);
        }
        i += 1;
    }
    assert(s@.take(s@.len() as int) =~= s@);
    if chars_of(open.as_str()).len() > 0 {
        let ghost before = texts(done@);
        let ghost cur = open@;
        done.push(open);
        assert(texts(done@) =~= before.push(cur));
    }
    done
}

proof fn lemma_words_nonempty(s: Seq<char>)
    requires
        s.len() > 0,
        !white(s.last()),
    ensures
        words_of(s).len() > 0,
    decreases s.len(),
{
    if s.len() > 1 && !white(s[s.len() - 2]) {
        assert(s.drop_last().last() == s[s.len() - 2]);
        lemma_words_nonempty(s.drop_last());
    }
}

/// The words of `a`, a space and `b` are those of `a`, then those of `b`.
pub proof fn lemma_words_join(a: Seq<char>, b: Seq<char>)
    ensures
        words_of(a.push(' ') + b) == words_of(a) + words_of(b),
    decreases b.len(),
{
    let t = a.push(' ') + b;
    if b.len() == 0 {
        assert(t =~= a.push(' '));
        assert(t.drop_last() =~= a);
        assert(words_of(a) + words_of(b) =~= words_of(a));
    } else {
        let init = b.drop_last();
        lemma_words_join(a, init);
        assert(t.drop_last() =~= a.push(' ') + init);
        assert(t.last() == b.last());
        if b.len() == 1 {
            assert(t[t.len() - 2] == ' ');
        } else {
            assert(t[t.len() - 2] == b[b.len() - 2]);
            assert(init.last() == b[b.len() - 2]);
            if !white(b[b.len() - 2]) {
                lemma_words_nonempty(init);
            }
        }
        assert(words_of(t) =~= words_of(a) + words_of(b));
    }
}

/// A text without white space is one word.
pub proof fn lemma_one_word(w: Seq<char>)
    requires
        w.len() > 0,
        forall|i: int| 0 <= i < w.len() ==> !white(#[trigger] w[i]),
    ensures
        words_of(w) == seq![w],
    decreases w.len(),
{
    if w.len() == 1 {
        assert(words_of(w.drop_last()) =~= Seq::<Seq<char>>::empty());
        assert(w =~= seq![w.last()]);
        assert(words_of(w) =~= seq![w]);
    } else {
        let init = w.drop_last();
        assert forall|i: int| 0 <= i < init.len() implies !white(#[trigger] init[i]) by {
            assert(init[i] == w[i]);
        }
        lemma_one_word(init);
        assert(!white(w[w.len() - 2]));
        assert(!white(w[w.len() - 1]));
        assert(init.push(w.last()) =~= w);
        assert(words_of(w) =~= seq![w]);
    }
}

// ---------------------------------------------------------------------------
// Occurrences
// ---------------------------------------------------------------------------

/// Whether `key` stands in `s` at position `i`.
pub open spec fn occurs_at(s: Seq<char>, key: Seq<char>, i: int) -> bool {
    0 <= i && i + key.len() <= s.len() && s.subrange(i, i + key.len()) == key
}

/// Whether `key` stands somewhere in `s`.
pub open spec fn occurs(s: Seq<char>, key: Seq<char>) -> bool {
    exists|i: int| occurs_at(s, key, i)
}

/// Whether the characters of `v` from `i` on begin with `key`.
pub fn key_at(v: &Vec<char>, key: &Vec<char>, i: usize) -> (r: bool)
    ensures
        r == occurs_at(v@, key@, i as int),
{
    if i > v.len() || key.len() > v.len() - i {
        return false;
    }
    let mut k: usize = 0;
    while k < key.len()
        invariant
            i + key@.len() <= v.len(),
            k <= key@.len(),
            forall|j: int| 0 <= j < k ==> v@[i + j] == key@[j],
        decreases key.len() - k,
    {
        if v[i + k] != key[k] {
            assert(v@.subrange(i as int, i + key@.len())[k as int] == v@[i + k]);
            return false;
        }
        k += 1;
    }
    assert(v@.subrange(i as int, i + key@.len()) =~= key@);
    true
}

/// Whether `key` stands somewhere in `s`.
pub fn contains_text(s: &str, key: &str) -> (r: bool)
    ensures
        r == occurs(s@, key@),
{
    let v = chars_of(s);
    let k = chars_of(key);
    let mut i: usize = 0;
    while i < v.len()
        invariant
            v@ == s@,
            k@ == key@,
            i <= v@.len(),
            forall|j: int| 0 <= j < i ==> !occurs_at(s@, key@, j),
        decreases v.len() - i,
    {
        if key_at(&v, &k, i) {
            return true;
        }
        i += 1;
    }
    key_at(&v, &k, i)
}

/// Whether a character stands somewhere in `s`.
pub fn contains_char(s: &str, c: char) -> (r: bool)
    ensures
        r == s@.contains(c),
{
    let v = chars_of(s);
    let mut i: usize = 0;
    while i < v.len()
        invariant
            v@ == s@,
            i <= v@.len(),
            forall|j: int| 0 <= j < i ==> v@[j] != c,
        decreases v.len() - i,
    {
        if v[i] == c {
            assert(s@[i as int] == c);
            return true;
        }
        i += 1;
    }
    false
}

/// Whether `s` begins with `key`.
pub fn starts_with(s: &str, key: &str) -> (r: bool)
    ensures
        r == occurs_at(s@, key@, 0),
{
    key_at(&chars_of(s), &chars_of(key), 0)
}

/// Whether `s` ends with `key`.
pub fn ends_with(s: &str, key: &str) -> (r: bool)
    ensures
        r == occurs_at(s@, key@, s@.len() - key@.len()),
{
    let v = chars_of(s);
    let k = chars_of(key);
    if k.len() > v.len() {
        return false;
    }
    key_at(&v, &k, v.len() - k.len())
}

/// The position of the last `c` in `s`, or -1.
pub open spec fn last_index_of(s: Seq<char>, c: char) -> int
    decreases s.len(),
{
    if s.len() == 0 {
        -1
    } else if s.last() == c {
        s.len() - 1
    } else {
        last_index_of(s.drop_last(), c)
    }
}

/// What stands before the last `c` in `s`.
pub open spec fn before_last(s: Seq<char>, c: char) -> Option<Seq<char>> {
    if last_index_of(s, c) >= 0 {
        Some(s.take(last_index_of(s, c)))
    } else {
        None
    }
}

proof fn lemma_last_index_of(s: Seq<char>, c: char, i: int)
    requires
        -1 <= i < s.len(),
        i >= 0 ==> s[i] == c,
        forall|j: int| i < j < s.len() ==> s[j] != c,
    ensures
        last_index_of(s, c) == i,
    decreases s.len(),
{
    if s.len() > 0 && s.last() != c {
        lemma_last_index_of(s.drop_last(), c, i);
    }
}

/// What stands before the last `c` in `s`.
pub fn rsplit_before(s: &str, c: char) -> (r: Option<String>)
    ensures
        match before_last(s@, c) {
            Some(t) => r matches Some(u) && u@ == t,
            None => r is None,
        },
{
    let v = chars_of(s);
    let mut i: usize = v.len();
    while i > 0
        invariant
            v@ == s@,
            i <= v@.len(),
            forall|j: int| i <= j < v@.len() ==> v@[j] != c,
        decreases i,
    {
        if v[i - 1] == c {
            proof {
                lemma_last_index_of(s@, c, i - 1);
                assert(s@.take(i - 1) =~= v@.subrange(0, i - 1));
            }
            return Some(string_range(&v, 0, i - 1));
        }
        i -= 1;
    }
    proof {
        lemma_last_index_of(s@, c, -1);
    }
    None
}

/// `s` with each `from` replaced by the text `to`.
pub open spec fn replaced(s: Seq<char>, from: char, to: Seq<char>) -> Seq<char>
    decreases s.len(),
{
    if s.len() == 0 {
        s
    } else {
        replaced(s.drop_last(), from, to) + if s.last() == from {
            to
        } else {
            seq![s.last()]
        }
    }
}

/// `s` with each `from` replaced by the text `to`.
pub fn replace_char(s: &str, from: char, to: &str) -> (r: String)
    ensures
        r@ == replaced(s@, from, to@),
{
    let v = chars_of(s);
    let mut r = String::new();
    let mut i: usize = 0;
    assert(r@ =~= replaced(s@.take(0), from, to@));
    while i < v.len()
        invariant
            v@ == s@,
            i <= v@.len(),
            r@ == replaced(s@.take(i as int), from, to@),
        decreases v.len() - i,
    {
        let ghost before = r@;
        assert(s@.take(i as int + 1).drop_last() =~= s@.take(i as int));
        if v[i] == from {
            r.append(to);
        } else {
            r.push(v[i]);
            assert(r@ =~= before + seq![v@[i as int]]);
        }
        i += 1;
    }
    assert(s@.take(s@.len() as int) =~= s@);
    r
}

/// The texts of a list one after the other, with `sep` between them.
pub open spec fn joined(v: Seq<Seq<char>>, sep: Seq<char>) -> Seq<char>
    decreases v.len(),
{
    if v.len() == 0 {
        Seq::empty()
    } else if v.len() == 1 {
        v[0]
    } else {
        joined(v.drop_last(), sep) + sep + v.last()
    }
}

/// The texts of a list one after the other, with `sep` between them.
pub fn join(v: &Vec<String>, sep: &str) -> (r: String)
    ensures
        r@ == joined(texts(v@), sep@),
{
    let mut r = String::new();
    let mut i: usize = 0;
    assert(texts(v@).take(0) =~= Seq::<Seq<char>>::empty());
    while i < v.len()
        invariant
            i <= v@.len(),
            r@ == joined(texts(v@).take(i as int), sep@),
        decreases v.len() - i,
    {
        let ghost t = texts(v@).take(i as int + 1);
        assert(t.drop_last() =~= texts(v@).take(i as int));
        assert(t.last() == v@[i as int]@);
        let ghost before = r@;
        if i > 0 {
            r.append(sep);
        }
        r.append(v[i].as_str());
        assert(r@ =~= joined(t, sep@));
        i += 1;
    }
    assert(texts(v@).take(v@.len() as int) =~= texts(v@));
    r
}

/// A character of a joined text stands in one of its parts or in the
/// separator.
pub proof fn lemma_joined_contains(v: Seq<Seq<char>>, sep: Seq<char>, c: char)
    requires
        joined(v, sep).contains(c),
        !sep.contains(c),
    ensures
        exists|i: int| 0 <= i < v.len() && (#[trigger] v[i]).contains(c),
    decreases v.len(),
{
    if v.len() == 1 {
        assert(v[0].contains(c));
    } else if v.len() > 1 {
        let a = joined(v.drop_last(), sep);
        let k = choose|k: int| 0 <= k < joined(v, sep).len() && joined(v, sep)[k] == c;
        if k < a.len() {
            assert(a[k] == c);
            lemma_joined_contains(v.drop_last(), sep, c);
            let i = choose|i: int|
                0 <= i < v.drop_last().len() && (#[trigger] v.drop_last()[i]).contains(c);
            assert(v[i].contains(c));
        } else if k < a.len() + sep.len() {
            assert(sep[k - a.len()] == c);
        } else {
            assert(v.last()[k - a.len() - sep.len()] == c);
            assert(v[v.len() - 1].contains(c));
        }
    }
}

/// A joined text begins as its first part does and ends as its last part does.
pub proof fn lemma_joined_ends(v: Seq<Seq<char>>, sep: Seq<char>)
    requires
        v.len() > 0,
        v[0].len() > 0,
        v.last().len() > 0,
    ensures
        joined(v, sep).len() > 0,
        joined(v, sep)[0] == v[0][0],
        joined(v, sep).last() == v.last().last(),
{
    lemma_joined_starts(v, sep);
}

proof fn lemma_joined_starts(v: Seq<Seq<char>>, sep: Seq<char>)
    requires
        v.len() > 0,
        v[0].len() > 0,
    ensures
        joined(v, sep).len() > 0,
        joined(v, sep)[0] == v[0][0],
    decreases v.len(),
{
    if v.len() > 1 {
        lemma_joined_starts(v.drop_last(), sep);
    }
}

/// Characters that are no separator join the last piece.
pub proof fn lemma_pieces_extend(s: Seq<char>, t: Seq<char>, sep: char)
    requires
        !t.contains(sep),
    ensures
        pieces(s + t, sep) == pieces(s, sep).drop_last().push(pieces(s, sep).last() + t),
    decreases t.len(),
{
    lemma_pieces_nonempty(s, sep);
    if t.len() == 0 {
        assert(s + t =~= s);
        assert(pieces(s, sep).last() + t =~= pieces(s, sep).last());
        assert(pieces(s, sep).drop_last().push(pieces(s, sep).last()) =~= pieces(s, sep));
    } else {
        let u = t.drop_last();
        assert forall|i: int| 0 <= i < u.len() implies u[i] != sep by {
            assert(t.contains(t[i]));
        }
        assert(t.contains(t.last()));
        lemma_pieces_extend(s, u, sep);
        assert((s + t).drop_last() =~= s + u);
        assert((pieces(s, sep).last() + u).push(t.last()) =~= pieces(s, sep).last() + t);
        let p = pieces(s + u, sep);
        assert(p.drop_last() =~= pieces(s, sep).drop_last());
    }
}

/// A file: its lines, a line feed behind each.
pub open spec fn file_text(lines: Seq<Seq<char>>) -> Seq<char>
    decreases lines.len(),
{
    if lines.len() == 0 {
        Seq::empty()
    } else {
        (file_text(lines.drop_last()) + lines.last()).push('\n')
    }
}

proof fn lemma_pieces_of_file(lines: Seq<Seq<char>>)
    requires
        forall|i: int| 0 <= i < lines.len() ==> !(#[trigger] lines[i]).contains('\n'),
    ensures
        pieces(file_text(lines), '\n') == lines.push(Seq::empty()),
    decreases lines.len(),
{
    if lines.len() == 0 {
        assert(pieces(file_text(lines), '\n') =~= lines.push(Seq::empty()));
    } else {
        let init = lines.drop_last();
        assert forall|i: int| 0 <= i < init.len() implies !(#[trigger] init[i]).contains('\n') by {
            assert(init[i] == lines[i]);
        }
        lemma_pieces_of_file(init);
        let f = file_text(init);
        assert(!lines[lines.len() - 1].contains('\n'));
        lemma_pieces_extend(f, lines.last(), '\n');
        assert(Seq::<char>::empty() + lines.last() =~= lines.last());
        assert(file_text(lines).drop_last() =~= f + lines.last());
        assert(pieces(f, '\n').drop_last() =~= init);
        assert(init.push(lines.last()) =~= lines);
    }
}

/// The lines of a file are those it was made of, where none of them holds a
/// line feed or ends in a carriage return.
pub proof fn law_file_lines(lines: Seq<Seq<char>>)
    requires
        forall|i: int| 0 <= i < lines.len() ==> !(#[trigger] lines[i]).contains('\n'),
        forall|i: int|
            0 <= i < lines.len() ==> without_cr(#[trigger] lines[i]) == lines[i],
    ensures
        lines_of(file_text(lines)) == lines,
{
    lemma_pieces_of_file(lines);
    let p = pieces(file_text(lines), '\n');
    assert(p.drop_last() =~= lines);
    assert(lines_of(file_text(lines)) =~= lines);
}

} // verus!
