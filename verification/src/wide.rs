//! Wide texts: the UTF-16 units, ended by a zero, in which other languages
//! hand texts over.
use widestring::U16CString;
use vstd::prelude::*;

verus! {

// ---------------------------------------------------------------------------
// UTF-16
// ---------------------------------------------------------------------------

/// The units of a character: one, or two surrogates above the basic plane.
pub open spec fn units_of_char(c: char) -> Seq<u16> {
    let n = c as int;
    if n < 0x1_0000 {
        seq![n as u16]
    } else {
        seq![(0xD800 + (n - 0x1_0000) / 0x400) as u16, (0xDC00 + (n - 0x1_0000) % 0x400) as u16]
    }
}

/// The units of a text.
pub open spec fn units_of(s: Seq<char>) -> Seq<u16>
    decreases s.len(),
{
    if s.len() == 0 {
        Seq::empty()
    } else {
        units_of_char(s[0]) + units_of(s.skip(1))
    }
}

/// Whether a unit is the first of a pair.
pub open spec fn leads(u: u16) -> bool {
    0xD800 <= u < 0xDC00
}

/// Whether a unit is the second of a pair.
pub open spec fn trails(u: u16) -> bool {
    0xDC00 <= u < 0xE000
}

/// The text that units stand for. A surrogate without its other half stands
/// for the replacement character.
pub open spec fn text_of_units(u: Seq<u16>) -> Seq<char>
    decreases u.len(),
{
    if u.len() == 0 {
        Seq::empty()
    } else if leads(u[0]) && u.len() > 1 && trails(u[1]) {
        seq![(0x1_0000 + (u[0] - 0xD800) * 0x400 + (u[1] - 0xDC00)) as char] + text_of_units(
            u.skip(2),
        )
    } else if leads(u[0]) || trails(u[0]) {
        seq!['\u{FFFD}'] + text_of_units(u.skip(1))
    } else {
        seq![u[0] as char] + text_of_units(u.skip(1))
    }
}

/// Units up to the first zero.
pub open spec fn before_zero(u: Seq<u16>) -> Seq<u16>
    decreases u.len(),
{
    if u.len() == 0 || u[0] == 0 {
        Seq::empty()
    } else {
        seq![u[0]] + before_zero(u.skip(1))
    }
}

/// The units of a text with the zero at their end. A text that has a zero of
/// its own before its end cannot be handed over.
pub open spec fn ended_units(s: Seq<char>) -> Option<Seq<u16>> {
    let u = units_of(s);
    if !u.contains(0) {
        Some(u.push(0))
    } else if !u.drop_last().contains(0) {
        Some(u)
    } else {
        None
    }
}

/// `U16CString::from_str` and `U16CString::into_vec_with_nul`: the units of a
/// text with a zero at their end, which may be the text's own last character;
/// an error where a zero stands before the end.
#[verifier::external_body]
fn encode(s: &str) -> (r: Option<Vec<u16>>)
    ensures
        match ended_units(s@) {
            Some(u) => r is Some && r->Some_0@ == u,
            None => r is None,
        },
{
    U16CString::from_str(s).ok().map(|w| w.into_vec_with_nul())
}

/// `U16CString::from_vec_truncate` and its `to_string_lossy`: the text of the
/// units before the first zero.
#[verifier::external_body]
fn decode(units: Vec<u16>) -> (s: String)
    ensures
        s@ == text_of_units(before_zero(units@)),
{
    U16CString::from_vec_truncate(units).to_string_lossy()
}

// ---------------------------------------------------------------------------
// Wide texts
// ---------------------------------------------------------------------------

/// A text as it is handed over: its units with the zero at their end, and no
/// units but that zero for a text that cannot be handed over.
pub open spec fn wide(s: Seq<char>) -> Seq<u16> {
    match ended_units(s) {
        Some(u) => u,
        None => seq![0u16],
    }
}

/// The text of what was handed over; empty where nothing was.
pub open spec fn narrow(w: Option<Seq<u16>>) -> Seq<char> {
    match w {
        Some(u) => text_of_units(before_zero(u)),
        None => Seq::empty(),
    }
}

/// A wide text where there may be none.
pub open spec fn units_of_option(w: Option<&Vec<u16>>) -> Option<Seq<u16>> {
    match w {
        Some(u) => Some(u@),
        None => None,
    }
}

/// A text as it is handed over.
pub fn to_wide(s: &str) -> (w: Vec<u16>)
    ensures
        w@ == wide(s@),
{
    match encode(s) {
        Some(w) => w,
        None => {
            let mut w: Vec<u16> = Vec::new();
            w.push(0);
            w
        },
    }
}

/// A text as it is handed over where an empty one is not handed over at all.
pub open spec fn wide_unless_empty(s: Seq<char>) -> Option<Seq<u16>> {
    if s.len() == 0 {
        None
    } else {
        Some(wide(s))
    }
}

/// A text as it is handed over where an empty one is not handed over at all.
pub fn to_wide_unless_empty(s: &str) -> (w: Option<Vec<u16>>)
    ensures
        match wide_unless_empty(s@) {
            Some(u) => w is Some && w->Some_0@ == u,
            None => w is None,
        },
{
    if s.unicode_len() == 0 {
        None
    } else {
        Some(to_wide(s))
    }
}

fn copy_units(w: &Vec<u16>) -> (r: Vec<u16>)
    ensures
        r@ == w@,
{
    let mut r: Vec<u16> = Vec::new();
    let mut i: usize = 0;
    while i < w.len()
        invariant
            i <= w@.len(),
            r@ == w@.take(i as int),
        decreases w.len() - i,
    {
        r.push(w[i]);
        assert(w@.take(i as int + 1) =~= w@.take(i as int).push(w@[i as int]));
        i += 1;
    }
    assert(w@.take(w@.len() as int) =~= w@);
    r
}

/// The text of what was handed over; empty where nothing was.
pub fn from_wide(w: Option<&Vec<u16>>) -> (s: String)
    ensures
        s@ == narrow(units_of_option(w)),
{
    match w {
        Some(u) => decode(copy_units(u)),
        None => String::new(),
    }
}

/// Texts as they are handed over.
pub open spec fn all_wide(v: Seq<Seq<char>>) -> Seq<Seq<u16>> {
    Seq::new(v.len(), |i: int| wide(v[i]))
}

/// The units of wide texts.
pub open spec fn all_units(v: Seq<Vec<u16>>) -> Seq<Seq<u16>> {
    Seq::new(v.len(), |i: int| v[i]@)
}

/// Texts as they are handed over.
pub fn to_wide_all(v: &Vec<String>) -> (r: Vec<Vec<u16>>)
    ensures
        all_units(r@) == all_wide(crate::text::texts(v@)),
{
    let mut r: Vec<Vec<u16>> = Vec::new();
    let mut i: usize = 0;
    while i < v.len()
        invariant
            i <= v@.len(),
            r@.len() == i,
            forall|j: int| 0 <= j < i ==> (#[trigger] r@[j])@ == wide(v@[j]@),
        decreases v.len() - i,
    {
        r.push(to_wide(v[i].as_str()));
        i += 1;
    }
    assert(all_units(r@) =~= all_wide(crate::text::texts(v@)));
    r
}

/// The texts of a list that was handed over, without the empty ones and those
/// that are not there.
pub open spec fn narrow_list(w: Seq<Option<Seq<u16>>>) -> Seq<Seq<char>>
    decreases w.len(),
{
    if w.len() == 0 {
        Seq::empty()
    } else if narrow(w.last()).len() == 0 {
        narrow_list(w.drop_last())
    } else {
        narrow_list(w.drop_last()).push(narrow(w.last()))
    }
}

/// The units of a list that was handed over.
pub open spec fn list_units(w: Seq<Option<Vec<u16>>>) -> Seq<Option<Seq<u16>>> {
    Seq::new(
        w.len(),
        |i: int|
            match w[i] {
                Some(u) => Some(u@),
                None => None,
            },
    )
}

/// The texts of a list that was handed over, without the empty ones and those
/// that are not there. No list is an empty list.
pub fn from_wide_list(w: Option<&Vec<Option<Vec<u16>>>>) -> (r: Vec<String>)
    ensures
        crate::text::texts(r@) == match w {
            Some(list) => narrow_list(list_units(list@)),
            None => Seq::empty(),
        },
{
    let mut r: Vec<String> = Vec::new();
    let list = match w {
        Some(list) => list,
        None => {
            assert(crate::text::texts(r@) =~= Seq::empty());
            return r;
        },
    };
    let ghost all = list_units(list@);
    let mut i: usize = 0;
    assert(crate::text::texts(r@) =~= narrow_list(all.take(0)));
    while i < list.len()
        invariant
            all == list_units(list@),
            i <= list@.len(),
            crate::text::texts(r@) == narrow_list(all.take(i as int)),
        decreases list.len() - i,
    {
        let s = from_wide(list[i].as_ref());
        let ghost before = crate::text::texts(r@);
        proof {
            assert(all.take(i as int + 1).drop_last() =~= all.take(i as int));
            assert(s@ == narrow(all[i as int]));
        }
        if s.as_str().unicode_len() > 0 {
            r.push(s);
            assert(crate::text::texts(r@) =~= before.push(s@));
        }
        i += 1;
    }
    assert(all.take(all.len() as int) =~= all);
    r
}

// ---------------------------------------------------------------------------
// What comes back
// ---------------------------------------------------------------------------

proof fn lemma_char_reads_back(c: char, rest: Seq<u16>)
    ensures
        text_of_units(units_of_char(c) + rest) == seq![c] + text_of_units(rest),
{
    let n = c as int;
    let u = units_of_char(c) + rest;
    if n < 0x1_0000 {
        assert(u.skip(1) =~= rest);
        assert(u[0] == n as u16);
        assert(!leads(u[0]) && !trails(u[0]));
        assert(u[0] as char == c);
    } else {
        let h = (n - 0x1_0000) / 0x400;
        let l = (n - 0x1_0000) % 0x400;
        assert(0 <= h < 0x400 && 0 <= l < 0x400);
        assert(u.skip(2) =~= rest);
        assert(u[0] == 0xD800 + h);
        assert(u[1] == 0xDC00 + l);
        assert((u[0] - 0xD800) * 0x400 + (u[1] - 0xDC00) == n - 0x1_0000);
    }
}

proof fn lemma_units_read_back(s: Seq<char>)
    ensures
        text_of_units(units_of(s)) == s,
    decreases s.len(),
{
    if s.len() > 0 {
        lemma_char_reads_back(s[0], units_of(s.skip(1)));
        lemma_units_read_back(s.skip(1));
        assert(seq![s[0]] + s.skip(1) =~= s);
    } else {
        assert(text_of_units(units_of(s)) =~= s);
    }
}

proof fn lemma_char_without_zero(c: char)
    requires
        c != '\0',
    ensures
        forall|i: int| 0 <= i < units_of_char(c).len() ==> units_of_char(c)[i] != 0,
{
    let n = c as int;
    if n >= 0x1_0000 {
        assert(0 <= (n - 0x1_0000) / 0x400 < 0x400);
    }
}

proof fn lemma_units_without_zero(s: Seq<char>)
    requires
        !s.contains('\0'),
    ensures
        !units_of(s).contains(0),
    decreases s.len(),
{
    if s.len() > 0 {
        let rest = units_of(s.skip(1));
        assert(!s.skip(1).contains('\0')) by {
            if s.skip(1).contains('\0') {
                let i = choose|i: int| 0 <= i < s.skip(1).len() && s.skip(1)[i] == '\0';
                assert(s[i + 1] == '\0');
            }
        }
        lemma_units_without_zero(s.skip(1));
        let head = units_of_char(s[0]);
        assert(s.contains(s[0]));
        lemma_char_without_zero(s[0]);
        assert forall|i: int| 0 <= i < (head + rest).len() implies (head + rest)[i] != 0 by {
            if i >= head.len() {
                assert(rest.contains((head + rest)[i])) by {
                    assert((head + rest)[i] == rest[i - head.len()]);
                }
            } else {
                assert((head + rest)[i] == head[i]);
            }
        }
    }
}

proof fn lemma_before_zero(u: Seq<u16>, rest: Seq<u16>)
    requires
        !u.contains(0),
    ensures
        before_zero(u + seq![0u16] + rest) == u,
    decreases u.len(),
{
    let all = u + seq![0u16] + rest;
    if u.len() == 0 {
        assert(all[0] == 0);
        assert(before_zero(all) =~= u);
    } else {
        assert(u.contains(u[0]));
        assert(!u.skip(1).contains(0)) by {
            if u.skip(1).contains(0) {
                let i = choose|i: int| 0 <= i < u.skip(1).len() && u.skip(1)[i] == 0;
                assert(u[i + 1] == 0);
            }
        }
        assert(all.skip(1) =~= u.skip(1) + seq![0u16] + rest);
        lemma_before_zero(u.skip(1), rest);
        assert(seq![u[0]] + u.skip(1) =~= u);
    }
}

/// A text without a zero in it comes back as it was handed over.
pub proof fn law_wide_text_reads_back(s: Seq<char>)
    requires
        !s.contains('\0'),
    ensures
        narrow(Some(wide(s))) == s,
{
    lemma_units_without_zero(s);
    lemma_units_read_back(s);
    lemma_before_zero(units_of(s), Seq::empty());
    assert(units_of(s).push(0) =~= units_of(s) + seq![0u16] + Seq::<u16>::empty());
}

/// What is handed over ends with a zero, and holds no other.
pub proof fn law_wide_text_ends_with_zero(s: Seq<char>)
    ensures
        wide(s).len() > 0,
        wide(s).last() == 0,
        !wide(s).drop_last().contains(0),
{
    let u = units_of(s);
    if !u.contains(0) {
        assert(u.push(0).drop_last() =~= u);
    } else if !u.drop_last().contains(0) {
        let i = choose|i: int| 0 <= i < u.len() && u[i] == 0;
        if i < u.len() - 1 {
            assert(u.drop_last()[i] == 0);
        }
    }
}

} // verus!
