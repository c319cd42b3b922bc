//! Numbers as text: writing integers in decimal and reading them back, and
//! the grammar of floating-point literals.
use vstd::prelude::*;
use crate::text::chars_of;

verus! {

/// Whether a character is a decimal digit.
pub open spec fn digit(c: char) -> bool {
    '0' <= c <= '9'
}

/// The value of a decimal digit.
pub open spec fn digit_value(c: char) -> int {
    c as int - '0' as int
}

/// Whether a character is a decimal digit.
pub fn is_digit(c: char) -> (r: bool)
    ensures
        r == digit(c),
{
    '0' <= c && c <= '9'
}

/// The digit for a value below ten.
pub open spec fn digit_char(d: int) -> char {
    (d + '0' as int) as char
}

/// The decimal digits of a natural number.
pub open spec fn decimal(n: nat) -> Seq<char>
    decreases n,
{
    if n < 10 {
        seq![digit_char(n as int)]
    } else {
        decimal(n / 10).push(digit_char((n % 10) as int))
    }
}

/// The decimal digits of an integer, after a minus sign where it is negative.
pub open spec fn decimal_signed(n: int) -> Seq<char> {
    if n < 0 {
        seq!['-'] + decimal((-n) as nat)
    } else {
        decimal(n as nat)
    }
}

fn char_of_digit(d: u64) -> (c: char)
    requires
        d < 10,
    ensures
        c == digit_char(d as int),
{
    let b: u8 = (d as u8) + 48u8;
    b as char
}

/// The decimal digits of `n`.
pub fn decimal_text(n: u64) -> (s: String)
    ensures
        s@ == decimal(n as nat),
    decreases n,
{
    if n < 10 {
        let mut s = String::new();
        s.push(char_of_digit(n));
        assert(s@ =~= decimal(n as nat));
        s
    } else {
        let mut s = decimal_text(n / 10);
        s.push(char_of_digit(n % 10));
        s
    }
}

/// The decimal digits of `n`, after a minus sign where it is negative.
pub fn signed_text(n: i64) -> (s: String)
    ensures
        s@ == decimal_signed(n as int),
{
    if n >= 0 {
        return decimal_text(n as u64);
    }
    let magnitude: u64 = (-(n + 1)) as u64 + 1;
    let digits = decimal_text(magnitude);
    let mut s = String::new();
    s.push('-');
    s.append(digits.as_str());
    assert(s@ =~= decimal_signed(n as int));
    s
}

/// What stops the reading of an integer.
#[derive(Debug, Clone, Copy, PartialEq, Eq, Structural)]
pub enum IntFault {
    /// There is nothing to read.
    Empty,
    /// A character is not a digit, or a sign has no digits.
    InvalidDigit,
    /// The number is above the type's largest.
    TooLarge,
    /// The number is below the type's smallest.
    TooSmall,
}

impl IntFault {
    /// The fault in words.
    pub open spec fn words(self) -> Seq<char> {
        match self {
            IntFault::Empty => "cannot parse integer from empty string"@,
            IntFault::InvalidDigit => "invalid digit found in string"@,
            IntFault::TooLarge => "number too large to fit in target type"@,
            IntFault::TooSmall => "number too small to fit in target type"@,
        }
    }

    /// The fault in words.
    pub fn message(&self) -> (s: String)
        ensures
            s@ == self.words(),
    {
        match self {
            IntFault::Empty => "cannot parse integer from empty string".to_string(),
            IntFault::InvalidDigit => "invalid digit found in string".to_string(),
            IntFault::TooLarge => "number too large to fit in target type".to_string(),
            IntFault::TooSmall => "number too small to fit in target type".to_string(),
        }
    }
}

/// The number that a run of digits stands for, counted downwards from zero
/// where `negative`; the first digit that is none, or that leaves the range
/// from `lo` to `hi`, stops the reading.
pub open spec fn read_digits(
    s: Seq<char>,
    negative: bool,
    lo: int,
    hi: int,
) -> Result<int, IntFault>
    decreases s.len(),
{
    if s.len() == 0 {
        Ok(0)
    } else {
        match read_digits(s.drop_last(), negative, lo, hi) {
            Err(e) => Err(e),
            Ok(n) => {
                let c = s.last();
                let next = if negative {
                    n * 10 - digit_value(c)
                } else {
                    n * 10 + digit_value(c)
                };
                if !digit(c) {
                    Err(IntFault::InvalidDigit)
                } else if next > hi {
                    Err(IntFault::TooLarge)
                } else if next < lo {
                    Err(IntFault::TooSmall)
                } else {
                    Ok(next)
                }
            },
        }
    }
}

/// The integer from `lo` to `hi` that a text stands for: digits after a sign
/// that may be missing. A minus sign is only read where `lo` is negative.
pub open spec fn read_int(s: Seq<char>, lo: int, hi: int) -> Result<int, IntFault> {
    if s.len() == 0 {
        Err(IntFault::Empty)
    } else if s.len() == 1 && (s[0] == '+' || s[0] == '-') {
        Err(IntFault::InvalidDigit)
    } else if s[0] == '+' {
        read_digits(s.skip(1), false, lo, hi)
    } else if s[0] == '-' && lo < 0 {
        read_digits(s.skip(1), true, lo, hi)
    } else {
        read_digits(s, false, lo, hi)
    }
}

proof fn lemma_read_digits_stops(s: Seq<char>, n: int, negative: bool, lo: int, hi: int)
    requires
        0 <= n <= s.len(),
        read_digits(s.take(n), negative, lo, hi) is Err,
    ensures
        read_digits(s, negative, lo, hi) == read_digits(s.take(n), negative, lo, hi),
    decreases s.len(),
{
    if n == s.len() {
        assert(s.take(n) =~= s);
    } else {
        assert(s.drop_last().take(n) =~= s.take(n));
        lemma_read_digits_stops(s.drop_last(), n, negative, lo, hi);
    }
}

proof fn lemma_read_digits_range(s: Seq<char>, negative: bool, lo: int, hi: int)
    requires
        lo <= 0 <= hi,
    ensures
        read_digits(s, negative, lo, hi) matches Ok(n) ==> lo <= n <= hi,
        read_digits(s, negative, lo, hi) matches Ok(n) ==> (negative ==> n <= 0) && (!negative
            ==> n >= 0),
    decreases s.len(),
{
    if s.len() > 0 {
        lemma_read_digits_range(s.drop_last(), negative, lo, hi);
    }
}

fn read_digits_from(v: &Vec<char>, from: usize, negative: bool, lo: i128, hi: i128) -> (r: Result<
    i128,
    IntFault,
>)
    requires
        from <= v@.len(),
        -0x1_0000_0000_0000_0000 < lo <= 0 <= hi < 0x1_0000_0000_0000_0000,
    ensures
        match read_digits(v@.skip(from as int), negative, lo as int, hi as int) {
            Ok(n) => r matches Ok(m) && m == n,
            Err(e) => r == Err::<i128, IntFault>(e),
        },
{
    let ghost s = v@.skip(from as int);
    let mut n: i128 = 0;
    let mut i: usize = from;
    assert(s.take(0) =~= Seq::<char>::empty());
    while i < v.len()
        invariant
            s == v@.skip(from as int),
            from <= i <= v@.len(),
            -0x1_0000_0000_0000_0000 < lo <= 0 <= hi < 0x1_0000_0000_0000_0000,
            lo <= n <= hi,
            read_digits(s.take(i - from), negative, lo as int, hi as int) == Ok::<int, IntFault>(
                n as int,
            ),
        decreases v.len() - i,
    {
        let c = v[i];
        let ghost t = s.take(i - from + 1);
        proof {
            assert(t.drop_last() =~= s.take(i - from));
            assert(t.last() == c);
        }
        if !is_digit(c) {
            proof {
                lemma_read_digits_stops(s, i - from + 1, negative, lo as int, hi as int);
            }
            return Err(IntFault::InvalidDigit);
        }
        let d: i128 = (c as u32 - 48) as i128;
        let next: i128 = if negative {
            n * 10 - d
        } else {
            n * 10 + d
        };
        assert(next == if negative {
            n * 10 - digit_value(c)
        } else {
            n * 10 + digit_value(c)
        });
        if next > hi {
            proof {
                lemma_read_digits_stops(s, i - from + 1, negative, lo as int, hi as int);
            }
            return Err(IntFault::TooLarge);
        }
        if next < lo {
            proof {
                lemma_read_digits_stops(s, i - from + 1, negative, lo as int, hi as int);
            }
            return Err(IntFault::TooSmall);
        }
        n = next;
        i += 1;
    }
    assert(s.take(s.len() as int) =~= s);
    Ok(n)
}

fn read_int_in(s: &str, lo: i128, hi: i128) -> (r: Result<i128, IntFault>)
    requires
        -0x1_0000_0000_0000_0000 < lo <= 0 <= hi < 0x1_0000_0000_0000_0000,
    ensures
        match read_int(s@, lo as int, hi as int) {
            Ok(n) => r matches Ok(m) && m == n && lo <= m <= hi,
            Err(e) => r == Err::<i128, IntFault>(e),
        },
{
    let v = chars_of(s);
    proof {
        assert(v@.skip(0) =~= s@);
        lemma_read_digits_range(s@, false, lo as int, hi as int);
        if s@.len() > 0 {
            lemma_read_digits_range(s@.skip(1), false, lo as int, hi as int);
            lemma_read_digits_range(s@.skip(1), true, lo as int, hi as int);
        }
    }
    if v.len() == 0 {
        Err(IntFault::Empty)
    } else if v.len() == 1 && (v[0] == '+' || v[0] == '-') {
        Err(IntFault::InvalidDigit)
    } else if v[0] == '+' {
        read_digits_from(&v, 1, false, lo, hi)
    } else if v[0] == '-' && lo < 0 {
        read_digits_from(&v, 1, true, lo, hi)
    } else {
        read_digits_from(&v, 0, false, lo, hi)
    }
}

/// Reads a `u64`.
pub fn parse_u64(s: &str) -> (r: Result<u64, IntFault>)
    ensures
        match read_int(s@, 0, u64::MAX as int) {
            Ok(n) => r matches Ok(m) && m == n,
            Err(e) => r == Err::<u64, IntFault>(e),
        },
{
    match read_int_in(s, 0, 0xFFFF_FFFF_FFFF_FFFF) {
        Ok(n) => Ok(n as u64),
        Err(e) => Err(e),
    }
}

/// Reads a `u32`.
pub fn parse_u32(s: &str) -> (r: Result<u32, IntFault>)
    ensures
        match read_int(s@, 0, u32::MAX as int) {
            Ok(n) => r matches Ok(m) && m == n,
            Err(e) => r == Err::<u32, IntFault>(e),
        },
{
    match read_int_in(s, 0, 0xFFFF_FFFF) {
        Ok(n) => Ok(n as u32),
        Err(e) => Err(e),
    }
}

/// Reads a `u16`.
pub fn parse_u16(s: &str) -> (r: Result<u16, IntFault>)
    ensures
        match read_int(s@, 0, u16::MAX as int) {
            Ok(n) => r matches Ok(m) && m == n,
            Err(e) => r == Err::<u16, IntFault>(e),
        },
{
    match read_int_in(s, 0, 0xFFFF) {
        Ok(n) => Ok(n as u16),
        Err(e) => Err(e),
    }
}

/// Reads an `i32`.
pub fn parse_i32(s: &str) -> (r: Result<i32, IntFault>)
    ensures
        match read_int(s@, i32::MIN as int, i32::MAX as int) {
            Ok(n) => r matches Ok(m) && m == n,
            Err(e) => r == Err::<i32, IntFault>(e),
        },
{
    match read_int_in(s, -0x8000_0000, 0x7FFF_FFFF) {
        Ok(n) => Ok(n as i32),
        Err(e) => Err(e),
    }
}

proof fn lemma_decimal_shape(n: nat)
    ensures
        decimal(n).len() > 0,
        forall|i: int| 0 <= i < decimal(n).len() ==> digit(#[trigger] decimal(n)[i]),
    decreases n,
{
    if n >= 10 {
        lemma_decimal_shape(n / 10);
    }
}

proof fn lemma_read_digits_of_decimal(n: nat, negative: bool, lo: int, hi: int)
    requires
        lo <= 0 <= hi,
        negative ==> lo <= -n,
        !negative ==> n <= hi,
    ensures
        read_digits(decimal(n), negative, lo, hi) == Ok::<int, IntFault>(
            if negative { -n } else { n as int },
        ),
    decreases n,
{
    let s = decimal(n);
    if n < 10 {
        assert(s.drop_last() =~= Seq::<char>::empty());
        assert(s.last() == digit_char(n as int));
        reveal_with_fuel(read_digits, 2);
    } else {
        lemma_read_digits_of_decimal(n / 10, negative, lo, hi);
        assert(s.drop_last() =~= decimal(n / 10));
        assert(s.last() == digit_char((n % 10) as int));
    }
}

/// Reading gives back the integer that was written.
pub proof fn law_decimal_reads_back(n: int, lo: int, hi: int)
    requires
        lo <= 0 <= hi,
        lo <= n <= hi,
    ensures
        read_int(decimal_signed(n), lo, hi) == Ok::<int, IntFault>(n),
{
    let m = if n < 0 {
        (-n) as nat
    } else {
        n as nat
    };
    lemma_decimal_shape(m);
    let s = decimal_signed(n);
    if n < 0 {
        assert(s.skip(1) =~= decimal(m));
        assert(s[0] == '-');
        lemma_read_digits_of_decimal(m, true, lo, hi);
    } else {
        assert(digit(decimal(m)[0]));
        lemma_read_digits_of_decimal(m, false, lo, hi);
    }
}

/// Written integers are made of digits, with a minus sign in front at most.
pub proof fn lemma_decimal_signed_chars(n: int)
    ensures
        decimal_signed(n).len() > 0,
        forall|i: int|
            0 <= i < decimal_signed(n).len() ==> digit(#[trigger] decimal_signed(n)[i])
                || decimal_signed(n)[i] == '-',
{
    if n < 0 {
        lemma_decimal_shape((-n) as nat);
    } else {
        lemma_decimal_shape(n as nat);
    }
}

// ---------------------------------------------------------------------------
// Floating-point literals
// ---------------------------------------------------------------------------

/// What stops the reading of a floating-point literal.
#[derive(Debug, Clone, Copy, PartialEq, Eq, Structural)]
pub enum FloatFault {
    /// There is nothing to read.
    Empty,
    /// The text is no literal.
    Invalid,
}

impl FloatFault {
    /// The fault in words.
    pub open spec fn words(self) -> Seq<char> {
        match self {
            FloatFault::Empty => "cannot parse float from empty string"@,
            FloatFault::Invalid => "invalid float literal"@,
        }
    }

    /// The fault in words.
    pub fn message(&self) -> (s: String)
        ensures
            s@ == self.words(),
    {
        match self {
            FloatFault::Empty => "cannot parse float from empty string".to_string(),
            FloatFault::Invalid => "invalid float literal".to_string(),
        }
    }
}

/// The first position from `i` on that holds no digit.
pub open spec fn digits_end(s: Seq<char>, i: int) -> int
    decreases s.len() - i,
{
    if 0 <= i < s.len() && digit(s[i]) {
        digits_end(s, i + 1)
    } else {
        i
    }
}

/// An ASCII letter in lower case; any other character as it is.
pub open spec fn lower(c: char) -> char {
    if 'A' <= c <= 'Z' {
        (c as int + 32) as char
    } else {
        c
    }
}

/// `s` with its ASCII letters in lower case.
pub open spec fn lowered(s: Seq<char>) -> Seq<char> {
    s.map_values(|c: char| lower(c))
}

/// The position behind a sign, where one stands at `i`.
pub open spec fn past_sign(s: Seq<char>, i: int) -> int {
    if 0 <= i < s.len() && (s[i] == '+' || s[i] == '-') {
        i + 1
    } else {
        i
    }
}

/// Whether an exponent, or nothing, stands from `i` to the end: `e`, a sign
/// that may be missing, and digits.
pub open spec fn exponent_or_end(s: Seq<char>, i: int) -> bool {
    ||| i == s.len()
    ||| {
        &&& 0 <= i < s.len()
        &&& (s[i] == 'e' || s[i] == 'E')
        &&& past_sign(s, i + 1) < s.len()
        &&& digits_end(s, past_sign(s, i + 1)) == s.len()
    }
}

/// Whether a number without a sign stands from `i` to the end: digits that a
/// point may split, at least one of them, and an exponent that may be missing.
pub open spec fn unsigned_number(s: Seq<char>, i: int) -> bool {
    let j = digits_end(s, i);
    if 0 <= j < s.len() && s[j] == '.' {
        let k = digits_end(s, j + 1);
        (j > i || k > j + 1) && exponent_or_end(s, k)
    } else {
        j > i && exponent_or_end(s, j)
    }
}

/// Whether a text is a floating-point literal: after a sign that may be
/// missing, a number, or one of the words `inf`, `infinity` and `nan` in
/// letters of either case.
pub open spec fn float_literal(s: Seq<char>) -> bool {
    let i = past_sign(s, 0);
    let rest = lowered(s.skip(i));
    ||| rest == "inf"@
    ||| rest == "infinity"@
    ||| rest == "nan"@
    ||| unsigned_number(s, i)
}

/// Whether a text can be read as a floating-point literal, and why not.
pub open spec fn read_float(s: Seq<char>) -> Result<Seq<char>, FloatFault> {
    if s.len() == 0 {
        Err(FloatFault::Empty)
    } else if float_literal(s) {
        Ok(s)
    } else {
        Err(FloatFault::Invalid)
    }
}

proof fn lemma_digits_end(s: Seq<char>, i: int, j: int)
    requires
        0 <= i <= j <= s.len(),
        forall|k: int| i <= k < j ==> digit(#[trigger] s[k]),
        j < s.len() ==> !digit(s[j]),
    ensures
        digits_end(s, i) == j,
    decreases j - i,
{
    if i < j {
        lemma_digits_end(s, i + 1, j);
    }
}

fn skip_digits(v: &Vec<char>, i: usize) -> (j: usize)
    requires
        i <= v@.len(),
    ensures
        i <= j <= v@.len(),
        j == digits_end(v@, i as int),
{
    let mut j: usize = i;
    while j < v.len() && is_digit(v[j])
        invariant
            i <= j <= v@.len(),
            forall|k: int| i <= k < j ==> digit(#[trigger] v@[k]),
        decreases v.len() - j,
    {
        j += 1;
    }
    proof {
        lemma_digits_end(v@, i as int, j as int);
    }
    j
}

fn skip_sign(v: &Vec<char>, i: usize) -> (j: usize)
    requires
        i <= v@.len(),
    ensures
        i <= j <= v@.len(),
        j == past_sign(v@, i as int),
{
    if i < v.len() && (v[i] == '+' || v[i] == '-') {
        i + 1
    } else {
        i
    }
}

fn lower_char(c: char) -> (r: char)
    ensures
        r == lower(c),
{
    if 'A' <= c && c <= 'Z' {
        let b: u8 = (c as u8) + 32u8;
        b as char
    } else {
        c
    }
}

/// `s` with its ASCII letters in lower case.
pub fn lower_text(s: &str) -> (r: String)
    ensures
        r@ == lowered(s@),
{
    let v = chars_of(s);
    let mut r = String::new();
    let mut i: usize = 0;
    while i < v.len()
        invariant
            v@ == s@,
            i <= v@.len(),
            r@ == lowered(s@).take(i as int),
        decreases v.len() - i,
    {
        r.push(lower_char(v[i]));
        assert(lowered(s@).take(i as int + 1) =~= lowered(s@).take(i as int).push(
            lowered(s@)[i as int],
        ));
        i += 1;
    }
    assert(lowered(s@).take(s@.len() as int) =~= lowered(s@));
    r
}

/// Whether the characters from `i` on are `word`, in letters of either case.
fn word_from(v: &Vec<char>, i: usize, word: &str) -> (r: bool)
    requires
        i <= v@.len(),
    ensures
        r == (lowered(v@.skip(i as int)) == word@),
{
    let w = chars_of(word);
    let ghost t = lowered(v@.skip(i as int));
    if v.len() - i != w.len() {
        return false;
    }
    let mut k: usize = 0;
    while k < w.len()
        invariant
            i + w@.len() == v.len(),
            w@ == word@,
            t == lowered(v@.skip(i as int)),
            k <= w@.len(),
            forall|j: int| 0 <= j < k ==> t[j] == w@[j],
        decreases w.len() - k,
    {
        if lower_char(v[i + k]) != w[k] {
            assert(t[k as int] == lower(v@[i + k]));
            return false;
        }
        assert(t[k as int] == lower(v@[i + k]));
        k += 1;
    }
    assert(t =~= word@);
    true
}

fn is_exponent_or_end(v: &Vec<char>, i: usize) -> (r: bool)
    requires
        i <= v@.len(),
    ensures
        r == exponent_or_end(v@, i as int),
{
    if i == v.len() {
        return true;
    }
    if v[i] != 'e' && v[i] != 'E' {
        return false;
    }
    let j: usize = skip_sign(v, i + 1);
    j < v.len() && skip_digits(v, j) == v.len()
}

fn is_unsigned_number(v: &Vec<char>, i: usize) -> (r: bool)
    requires
        i <= v@.len(),
    ensures
        r == unsigned_number(v@, i as int),
{
    let j: usize = skip_digits(v, i);
    if j < v.len() && v[j] == '.' {
        let k: usize = skip_digits(v, j + 1);
        (j > i || k > j + 1) && is_exponent_or_end(v, k)
    } else {
        j > i && is_exponent_or_end(v, j)
    }
}

/// Checks that a text is a floating-point literal, and hands back a copy.
pub fn check_float(s: &str) -> (r: Result<String, FloatFault>)
    ensures
        match read_float(s@) {
            Ok(t) => r matches Ok(u) && u@ == t,
            Err(e) => r == Err::<String, FloatFault>(e),
        },
{
    let v = chars_of(s);
    if v.len() == 0 {
        return Err(FloatFault::Empty);
    }
    let i: usize = skip_sign(&v, 0);
    if word_from(&v, i, "inf") || word_from(&v, i, "infinity") || word_from(&v, i, "nan")
        || is_unsigned_number(&v, i) {
        Ok(s.to_string())
    } else {
        Err(FloatFault::Invalid)
    }
}

/// The characters that floating-point literals are made of; no `m` is among
/// them.
pub open spec fn literal_char(c: char) -> bool {
    digit(c) || c == '+' || c == '-' || c == '.' || 'a' <= c < 'm' || 'm' < c <= 'z' || 'A' <= c
        <= 'Z'
}

proof fn lemma_digits_span(s: Seq<char>, i: int)
    requires
        0 <= i <= s.len(),
    ensures
        i <= digits_end(s, i) <= s.len(),
        forall|k: int| i <= k < digits_end(s, i) ==> digit(#[trigger] s[k]),
    decreases s.len() - i,
{
    if i < s.len() && digit(s[i]) {
        lemma_digits_span(s, i + 1);
    }
}

proof fn lemma_exponent_chars(s: Seq<char>, i: int)
    requires
        0 <= i <= s.len(),
        exponent_or_end(s, i),
    ensures
        forall|k: int| i <= k < s.len() ==> literal_char(#[trigger] s[k]),
{
    if i < s.len() {
        lemma_digits_span(s, past_sign(s, i + 1));
    }
}

/// A floating-point literal is not empty, and is made of digits, signs,
/// points and letters other than `m`.
pub proof fn lemma_float_literal_chars(s: Seq<char>)
    requires
        float_literal(s),
    ensures
        s.len() > 0,
        forall|k: int| 0 <= k < s.len() ==> literal_char(#[trigger] s[k]),
{
    let i = past_sign(s, 0);
    let rest = lowered(s.skip(i));
    reveal_strlit("inf");
    reveal_strlit("infinity");
    reveal_strlit("nan");
    if rest == "inf"@ || rest == "infinity"@ || rest == "nan"@ {
        assert(rest.len() == s.len() - i);
        assert forall|k: int| i <= k < s.len() implies literal_char(#[trigger] s[k]) by {
            assert(rest[k - i] == lower(s[k]));
            assert('a' <= rest[k - i] <= 'z' && rest[k - i] != 'm');
        }
    } else {
        let j = digits_end(s, i);
        lemma_digits_span(s, i);
        if j < s.len() && s[j] == '.' {
            let k = digits_end(s, j + 1);
            lemma_digits_span(s, j + 1);
            lemma_exponent_chars(s, k);
        } else {
            lemma_exponent_chars(s, j);
        }
    }
}

/// A number that was read lies within the bounds that it was read with.
pub proof fn lemma_read_int_range(s: Seq<char>, lo: int, hi: int)
    requires
        lo <= 0 <= hi,
    ensures
        read_int(s, lo, hi) matches Ok(n) ==> lo <= n <= hi,
{
    lemma_read_digits_range(s, false, lo, hi);
    if s.len() > 0 {
        lemma_read_digits_range(s.skip(1), false, lo, hi);
        lemma_read_digits_range(s.skip(1), true, lo, hi);
    }
}

} // verus!
