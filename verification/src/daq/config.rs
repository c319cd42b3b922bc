//! The configuration of a measurement: channels and power pairs, read from
//! the cells of a workbook.
use vstd::prelude::*;
use vstd::utf8::encode_utf8;
use crate::double::Double;
use crate::number::{check_float, decimal, decimal_signed, decimal_text, read_float, signed_text};
use crate::text::{
    chars_of, concat3, concat4, contains_char, key_at, occurs_at, pieces, replace_char, replaced,
    same_text, split, string_range, texts, trim, trimmed,
};

verus! {

/// A color.
#[derive(Debug, Clone, Copy, PartialEq, Eq, Structural)]
pub struct Rgb {
    pub r: u8,
    pub g: u8,
    pub b: u8,
}

impl Rgb {
    /// The color of the given parts.
    pub fn new(r: u8, g: u8, b: u8) -> (c: Rgb)
        ensures
            c == (Rgb { r, g, b }),
    {
        Rgb { r, g, b }
    }

    /// White.
    pub open spec fn white() -> Rgb {
        Rgb { r: 0xFF, g: 0xFF, b: 0xFF }
    }
}

impl Default for Rgb {
    /// Black.
    fn default() -> (c: Rgb)
        ensures
            c == (Rgb { r: 0, g: 0, b: 0 }),
    {
        Rgb { r: 0, g: 0, b: 0 }
    }
}

/// One channel. `S` is the type of its texts.
#[derive(Debug, Clone)]
pub struct ChannelConfig<S> {
    pub physical_channel: S,
    pub name: S,
    pub gain: Double,
    pub offset: Double,
    pub order: Option<u32>,
    pub range_max: Option<Double>,
    pub range_min: Option<Double>,
    pub color: Rgb,
}

impl View for ChannelConfig<String> {
    type V = ChannelConfig<Seq<char>>;

    open spec fn view(&self) -> ChannelConfig<Seq<char>> {
        ChannelConfig {
            physical_channel: self.physical_channel@,
            name: self.name@,
            gain: self.gain,
            offset: self.offset,
            order: self.order,
            range_max: self.range_max,
            range_min: self.range_min,
            color: self.color,
        }
    }
}

/// Two channels that give a power between them.
#[derive(Debug, Clone)]
pub struct PowerPair<S> {
    pub index: u32,
    pub current_channel: S,
    pub voltage_channel: S,
}

impl View for PowerPair<String> {
    type V = PowerPair<Seq<char>>;

    open spec fn view(&self) -> PowerPair<Seq<char>> {
        PowerPair {
            index: self.index,
            current_channel: self.current_channel@,
            voltage_channel: self.voltage_channel@,
        }
    }
}

pub open spec fn channel_views(v: Seq<ChannelConfig<String>>) -> Seq<ChannelConfig<Seq<char>>> {
    v.map_values(|c: ChannelConfig<String>| c@)
}

pub open spec fn pair_views(v: Seq<PowerPair<String>>) -> Seq<PowerPair<Seq<char>>> {
    v.map_values(|p: PowerPair<String>| p@)
}

/// A configuration.
#[derive(Debug, Clone)]
pub struct DaqConfig {
    pub channels: Vec<ChannelConfig<String>>,
    pub power_pairs: Vec<PowerPair<String>>,
    pub has_order: bool,
    pub has_range: bool,
}

// ---------------------------------------------------------------------------
// Numbers in cells
// ---------------------------------------------------------------------------

/// What a cell says of a number: nothing, a literal, or a quotient or product
/// of two literals.
#[derive(Debug, Clone)]
pub enum NumericCell<S> {
    Nothing,
    Value(S),
    /// The cell says nothing where the second literal is zero.
    Quotient(S, S),
    Product(S, S),
}

impl View for NumericCell<String> {
    type V = NumericCell<Seq<char>>;

    open spec fn view(&self) -> NumericCell<Seq<char>> {
        match self {
            NumericCell::Nothing => NumericCell::Nothing,
            NumericCell::Value(a) => NumericCell::Value(a@),
            NumericCell::Quotient(a, b) => NumericCell::Quotient(a@, b@),
            NumericCell::Product(a, b) => NumericCell::Product(a@, b@),
        }
    }
}

/// The position of the first `c` in `s` from `i` on, or the length of `s`.
pub open spec fn first_index(s: Seq<char>, c: char, i: int) -> int
    decreases s.len() - i,
{
    if 0 <= i < s.len() && s[i] != c {
        first_index(s, c, i + 1)
    } else {
        i
    }
}

/// The two literals around the first `c` in `s`, without white space.
pub open spec fn operands(s: Seq<char>, c: char) -> Option<(Seq<char>, Seq<char>)> {
    let i = first_index(s, c, 0);
    if i >= s.len() {
        None
    } else {
        let a = trimmed(s.take(i));
        let b = trimmed(s.skip(i + 1));
        if read_float(a) is Ok && read_float(b) is Ok {
            Some((a, b))
        } else {
            None
        }
    }
}

/// What a cell holds behind an equals sign that may be missing.
pub open spec fn formula(value: Seq<char>) -> Seq<char> {
    let t = trimmed(value);
    if t.len() > 0 && t[0] == '=' {
        trimmed(t.skip(1))
    } else {
        t
    }
}

/// What a cell says of a number.
pub open spec fn numeric_cell(value: Seq<char>) -> NumericCell<Seq<char>> {
    let e = formula(value);
    if read_float(e) is Ok {
        NumericCell::Value(e)
    } else if operands(e, '/') is Some {
        NumericCell::Quotient(operands(e, '/')->Some_0.0, operands(e, '/')->Some_0.1)
    } else if operands(e, '*') is Some {
        NumericCell::Product(operands(e, '*')->Some_0.0, operands(e, '*')->Some_0.1)
    } else {
        NumericCell::Nothing
    }
}

proof fn lemma_first_index(s: Seq<char>, c: char, i: int, j: int)
    requires
        0 <= i <= j <= s.len(),
        forall|k: int| i <= k < j ==> s[k] != c,
        j < s.len() ==> s[j] == c,
    ensures
        first_index(s, c, i) == j,
    decreases j - i,
{
    if i < j {
        lemma_first_index(s, c, i + 1, j);
    }
}

fn split_operands(s: &str, c: char) -> (r: Option<(String, String)>)
    ensures
        match operands(s@, c) {
            Some(p) => r matches Some(q) && q.0@ == p.0 && q.1@ == p.1,
            None => r is None,
        },
{
    let v = chars_of(s);
    let mut i: usize = 0;
    while i < v.len() && v[i] != c
        invariant
            v@ == s@,
            i <= v@.len(),
            forall|k: int| 0 <= k < i ==> v@[k] != c,
        decreases v.len() - i,
    {
        i += 1;
    }
    proof {
        lemma_first_index(s@, c, 0, i as int);
    }
    if i >= v.len() {
        return None;
    }
    let left = string_range(&v, 0, i);
    let right = string_range(&v, i + 1, v.len());
    assert(left@ =~= s@.take(i as int));
    assert(right@ =~= s@.skip(i as int + 1));
    let a = trim(left.as_str());
    let b = trim(right.as_str());
    if check_float(a.as_str()).is_ok() && check_float(b.as_str()).is_ok() {
        Some((a, b))
    } else {
        None
    }
}

/// Reads what a cell says of a number.
pub fn parse_numeric_cell(value: &str) -> (r: NumericCell<String>)
    ensures
        r@ == numeric_cell(value@),
{
    let trimmed_value = trim(value);
    let v = chars_of(trimmed_value.as_str());
    let expr: String = if v.len() > 0 && v[0] == '=' {
        let rest = string_range(&v, 1, v.len());
        assert(rest@ =~= trimmed(value@).skip(1));
        trim(rest.as_str())
    } else {
        trimmed_value
    };
    if check_float(expr.as_str()).is_ok() {
        return NumericCell::Value(expr);
    }
    match split_operands(expr.as_str(), '/') {
        Some((a, b)) => {
            return NumericCell::Quotient(a, b);
        },
        None => {},
    }
    match split_operands(expr.as_str(), '*') {
        Some((a, b)) => NumericCell::Product(a, b),
        None => NumericCell::Nothing,
    }
}

// ---------------------------------------------------------------------------
// Colors of cells
// ---------------------------------------------------------------------------

/// The value of a hexadecimal digit.
pub open spec fn hex_value(b: u8) -> Option<int> {
    if 0x30 <= b <= 0x39 {
        Some(b - 0x30)
    } else if 0x41 <= b <= 0x46 {
        Some(b - 0x41 + 10)
    } else if 0x61 <= b <= 0x66 {
        Some(b - 0x61 + 10)
    } else {
        None
    }
}

/// The part of a color that two characters stand for: two hexadecimal digits,
/// or one behind a plus sign; anything else stands for the full part.
pub open spec fn color_part(a: u8, b: u8) -> u8 {
    if a == 0x2B && hex_value(b) is Some {
        hex_value(b)->Some_0 as u8
    } else if hex_value(a) is Some && hex_value(b) is Some {
        (hex_value(a)->Some_0 * 16 + hex_value(b)->Some_0) as u8
    } else {
        0xFF
    }
}

/// `b` without the `#` bytes that it begins with.
pub open spec fn without_hash(b: Seq<u8>) -> Seq<u8>
    decreases b.len(),
{
    if b.len() > 0 && b[0] == 0x23 {
        without_hash(b.skip(1))
    } else {
        b
    }
}

/// The color of six bytes from `at` on; black counts as white.
pub open spec fn color_at(b: Seq<u8>, at: int) -> Rgb {
    let c = Rgb {
        r: color_part(b[at], b[at + 1]),
        g: color_part(b[at + 2], b[at + 3]),
        b: color_part(b[at + 4], b[at + 5]),
    };
    if c.r == 0 && c.g == 0 && c.b == 0 {
        Rgb::white()
    } else {
        c
    }
}

/// The color of a cell, by the code of its fill, with or without the part for
/// opacity in front; white where it has none.
pub open spec fn cell_color(argb: Option<Seq<char>>) -> Rgb {
    match argb {
        None => Rgb::white(),
        Some(s) => {
            let h = without_hash(encode_utf8(s));
            if h.len() == 8 {
                color_at(h, 2)
            } else if h.len() == 6 {
                color_at(h, 0)
            } else {
                Rgb::white()
            }
        },
    }
}

fn hex_digit(b: u8) -> (r: Option<u8>)
    ensures
        match hex_value(b) {
            Some(n) => r matches Some(m) && m == n && n < 16,
            None => r is None,
        },
{
    if 0x30 <= b && b <= 0x39 {
        Some(b - 0x30)
    } else if 0x41 <= b && b <= 0x46 {
        Some(b - 0x41 + 10)
    } else if 0x61 <= b && b <= 0x66 {
        Some(b - 0x61 + 10)
    } else {
        None
    }
}

fn part_of(a: u8, b: u8) -> (r: u8)
    ensures
        r == color_part(a, b),
{
    match hex_digit(b) {
        None => 0xFF,
        Some(low) => if a == 0x2B {
            low
        } else {
            match hex_digit(a) {
                Some(high) => high * 16 + low,
                None => 0xFF,
            }
        },
    }
}

proof fn lemma_without_hash(b: Seq<u8>, i: int)
    requires
        0 <= i <= b.len(),
        forall|k: int| 0 <= k < i ==> b[k] == 0x23,
        i < b.len() ==> b[i] != 0x23,
    ensures
        without_hash(b) == b.skip(i),
    decreases i,
{
    if i > 0 {
        assert forall|k: int| 0 <= k < i - 1 implies b.skip(1)[k] == 0x23 by {
            assert(b.skip(1)[k] == b[k + 1]);
        }
        if i < b.len() {
            assert(b.skip(1)[i - 1] == b[i]);
        }
        lemma_without_hash(b.skip(1), i - 1);
        assert(b.skip(1).skip(i - 1) =~= b.skip(i));
    } else {
        assert(b.skip(0) =~= b);
    }
}

/// The color of a cell, by the code of its fill.
pub fn extract_cell_color(argb: Option<&str>) -> (c: Rgb)
    ensures
        c == cell_color(
            match argb {
                Some(s) => Some(s@),
                None => None,
            },
        ),
{
    let text: &str = match argb {
        Some(s) => s,
        None => {
            return Rgb::new(0xFF, 0xFF, 0xFF);
        },
    };
    let bytes = text.as_bytes();
    let mut i: usize = 0;
    while i < bytes.len() && bytes[i] == 0x23
        invariant
            i <= bytes@.len(),
            forall|k: int| 0 <= k < i ==> bytes@[k] == 0x23,
        decreases bytes.len() - i,
    {
        i += 1;
    }
    let ghost h = bytes@.skip(i as int);
    proof {
        lemma_without_hash(bytes@, i as int);
    }
    let n: usize = bytes.len() - i;
    let at: usize = if n == 8 {
        i + 2
    } else if n == 6 {
        i
    } else {
        return Rgb::new(0xFF, 0xFF, 0xFF);
    };
    proof {
        let k = at - i;
        assert(h[k] == bytes@[at as int] && h[k + 1] == bytes@[at + 1] && h[k + 2] == bytes@[at
            + 2]);
        assert(h[k + 3] == bytes@[at + 3] && h[k + 4] == bytes@[at + 4] && h[k + 5] == bytes@[at
            + 5]);
    }
    let r: u8 = part_of(bytes[at], bytes[at + 1]);
    let g: u8 = part_of(bytes[at + 2], bytes[at + 3]);
    let b: u8 = part_of(bytes[at + 4], bytes[at + 5]);
    if r == 0 && g == 0 && b == 0 {
        Rgb::new(0xFF, 0xFF, 0xFF)
    } else {
        Rgb::new(r, g, b)
    }
}

// ---------------------------------------------------------------------------
// Names of channels
// ---------------------------------------------------------------------------

/// The number of volts that a part of a name gives: a literal with a point,
/// before the letter for volts.
pub open spec fn volts_of(part: Seq<char>) -> Option<Seq<char>> {
    if part.len() > 0 && (part.last() == 'V' || part.last() == 'v') && part.drop_last().contains(
        '.',
    ) && read_float(part.drop_last()) is Ok {
        Some(part.drop_last())
    } else {
        None
    }
}

/// The parts of a list that give a number of volts, in order.
pub open spec fn volt_parts(parts: Seq<Seq<char>>) -> Seq<Seq<char>>
    decreases parts.len(),
{
    if parts.len() == 0 {
        Seq::empty()
    } else {
        let before = volt_parts(parts.drop_last());
        if volts_of(parts.last()) is Some {
            before.push(parts.last())
        } else {
            before
        }
    }
}

/// The parts of a name, between underscores, that give a number of volts.
pub open spec fn name_volts(name: Seq<char>) -> Seq<Seq<char>> {
    volt_parts(pieces(name, '_'))
}

/// `s` from position `i` on, with each `key` replaced by `to`, the leftmost
/// first.
pub open spec fn replaced_from(s: Seq<char>, key: Seq<char>, to: Seq<char>, i: int) -> Seq<char>
    decreases s.len() - i,
{
    if i < 0 || i >= s.len() {
        Seq::empty()
    } else if key.len() > 0 && occurs_at(s, key, i) {
        to + replaced_from(s, key, to, i + key.len())
    } else {
        seq![s[i]] + replaced_from(s, key, to, i + 1)
    }
}

/// A name after its first `n` numbers of volts have been written in
/// millivolts, wherever they stand.
pub open spec fn in_millivolts(
    name: Seq<char>,
    parts: Seq<Seq<char>>,
    millivolts: Seq<i64>,
    n: int,
) -> Seq<char>
    decreases n,
{
    if n <= 0 {
        name
    } else {
        replaced_from(
            in_millivolts(name, parts, millivolts, n - 1),
            parts[n - 1],
            decimal_signed(millivolts[n - 1] as int) + "mV"@,
            0,
        )
    }
}

/// The parts of a name that give a number of volts.
pub fn voltage_parts(name: &str) -> (r: Vec<String>)
    ensures
        texts(r@) == name_volts(name@),
{
    let parts = split(name, '_');
    let ghost all = texts(parts@);
    let mut r: Vec<String> = Vec::new();
    let mut i: usize = 0;
    assert(texts(r@) =~= volt_parts(all.take(0)));
    while i < parts.len()
        invariant
            all == texts(parts@),
            i <= parts@.len(),
            texts(r@) == volt_parts(all.take(i as int)),
        decreases parts.len() - i,
    {
        let ghost t = all.take(i as int + 1);
        proof {
            assert(t.drop_last() =~= all.take(i as int));
            assert(t.last() == parts@[i as int]@);
        }
        if volts(parts[i].as_str()).is_some() {
            let ghost before = texts(r@);
            r.push(parts[i].clone());
            assert(texts(r@) =~= before.push(parts@[i as int]@));
        }
        i += 1;
    }
    assert(all.take(all.len() as int) =~= all);
    r
}

/// The number of volts that a part of a name gives.
pub fn volts(part: &str) -> (r: Option<String>)
    ensures
        match volts_of(part@) {
            Some(t) => r matches Some(s) && s@ == t,
            None => r is None,
        },
{
    let v = chars_of(part);
    if v.len() == 0 {
        return None;
    }
    let last = v[v.len() - 1];
    if last != 'V' && last != 'v' {
        return None;
    }
    let number = string_range(&v, 0, v.len() - 1);
    assert(number@ =~= part@.drop_last());
    if contains_char(number.as_str(), '.') && check_float(number.as_str()).is_ok() {
        Some(number)
    } else {
        None
    }
}

/// `s` with each `key` replaced by `to`.
fn replace_text(s: &str, key: &str, to: &str) -> (r: String)
    ensures
        r@ == replaced_from(s@, key@, to@, 0),
{
    let v = chars_of(s);
    let k = chars_of(key);
    let mut r = String::new();
    let mut i: usize = 0;
    assert(Seq::<char>::empty() + replaced_from(s@, key@, to@, 0) =~= replaced_from(
        s@,
        key@,
        to@,
        0,
    ));
    while i < v.len()
        invariant
            v@ == s@,
            k@ == key@,
            i <= v@.len(),
            r@ + replaced_from(s@, key@, to@, i as int) == replaced_from(s@, key@, to@, 0),
        decreases v.len() - i,
    {
        let ghost before = r@;
        let ghost rest = replaced_from(s@, key@, to@, i as int);
        if k.len() > 0 && key_at(&v, &k, i) {
            r.append(to);
            assert(r@ + replaced_from(s@, key@, to@, i + key@.len()) =~= before + rest);
            i += k.len();
        } else {
            r.push(v[i]);
            assert(r@ + replaced_from(s@, key@, to@, i + 1) =~= before + rest);
            i += 1;
        }
    }
    assert(r@ + Seq::<char>::empty() =~= r@);
    r
}

/// A name with its numbers of volts written in millivolts, which are given
/// for each of `voltage_parts`, in order.
pub fn convert_voltage_in_name(name: &str, millivolts: &Vec<i64>) -> (r: String)
    requires
        millivolts@.len() == name_volts(name@).len(),
    ensures
        r@ == in_millivolts(name@, name_volts(name@), millivolts@, millivolts@.len() as int),
{
    let parts = voltage_parts(name);
    assert(texts(parts@).len() == parts@.len());
    let mut r = name.to_string();
    let mut i: usize = 0;
    while i < millivolts.len()
        invariant
            texts(parts@) == name_volts(name@),
            parts@.len() == millivolts@.len(),
            i <= millivolts@.len(),
            r@ == in_millivolts(name@, name_volts(name@), millivolts@, i as int),
        decreases millivolts.len() - i,
    {
        let new_text = crate::text::concat2(signed_text(millivolts[i]).as_str(), "mV");
        assert(texts(parts@)[i as int] == parts@[i as int]@);
        r = replace_text(r.as_str(), parts[i].as_str(), new_text.as_str());
        i += 1;
    }
    r
}

/// Whether a character may not stand in the name of a channel.
pub open spec fn illegal(c: char) -> bool {
    c == '%' || c == '*' || c == '[' || c == ']' || c == ':' || c == '<' || c == '>' || c == '?'
        || c == '|' || c == '"' || c == '/' || c == '\\' || c == ',' || c == '.'
}

/// A name with commas as semicolons and slashes as underscores.
pub open spec fn softened(name: Seq<char>) -> Seq<char> {
    replaced(replaced(replaced(name, ',', seq![';']), '/', seq!['_']), '\\', seq!['_'])
}

/// The first illegal character from position `i` on.
pub open spec fn first_illegal(s: Seq<char>, i: int) -> Option<char>
    decreases s.len() - i,
{
    if i < 0 || i >= s.len() {
        None
    } else if illegal(s[i]) {
        Some(s[i])
    } else {
        first_illegal(s, i + 1)
    }
}

fn is_illegal(c: char) -> (r: bool)
    ensures
        r == illegal(c),
{
    c == '%' || c == '*' || c == '[' || c == ']' || c == ':' || c == '<' || c == '>' || c == '?'
        || c == '|' || c == '"' || c == '/' || c == '\\' || c == ',' || c == '.'
}

/// What stops the reading of a configuration. `S` is the type of its texts.
#[derive(Debug, Clone)]
pub enum ConfigError<S> {
    /// The workbook has no sheet of channels.
    NoChannelSheet,
    /// The index of a power pair is no number.
    PairIndex { text: S, row: u32 },
    /// A channel's gain is zero.
    ZeroGain { name: S, row: u32 },
    /// The place of a channel in the order is no number.
    Order { text: S, row: u32 },
    /// The name of a channel holds a character that it may not.
    IllegalName { name: S, character: char },
}

impl View for ConfigError<String> {
    type V = ConfigError<Seq<char>>;

    open spec fn view(&self) -> ConfigError<Seq<char>> {
        match self {
            ConfigError::NoChannelSheet => ConfigError::NoChannelSheet,
            ConfigError::PairIndex { text, row } => ConfigError::PairIndex {
                text: text@,
                row: *row,
            },
            ConfigError::ZeroGain { name, row } => ConfigError::ZeroGain { name: name@, row: *row },
            ConfigError::Order { text, row } => ConfigError::Order { text: text@, row: *row },
            ConfigError::IllegalName { name, character } => ConfigError::IllegalName {
                name: name@,
                character: *character,
            },
        }
    }
}

impl ConfigError<Seq<char>> {
    /// The error in words.
    pub open spec fn words(self) -> Seq<char> {
        match self {
            ConfigError::NoChannelSheet => {
                "Failed to read channel settings sheet (sheet index 0)"@
            },
            ConfigError::PairIndex { text, row } => "Invalid power pair index '"@ + text
                + "' at row "@ + decimal(row as nat),
            ConfigError::ZeroGain { name, row } => "Gain is zero for channel '"@ + name
                + "' at row "@ + decimal(row as nat) + " -- this would cause division by zero"@,
            ConfigError::Order { text, row } => "Invalid order '"@ + text + "' at row "@ + decimal(
                row as nat,
            ),
            ConfigError::IllegalName { name, character } => "Channel name '"@ + name
                + "' contains illegal character '"@ + seq![character] + "'"@,
        }
    }
}

impl ConfigError<String> {
    /// The error in words.
    pub fn message(&self) -> (s: String)
        ensures
            s@ == self@.words(),
    {
        match self {
            ConfigError::NoChannelSheet => {
                "Failed to read channel settings sheet (sheet index 0)".to_string()
            },
            ConfigError::PairIndex { text, row } => concat4(
                "Invalid power pair index '",
                text.as_str(),
                "' at row ",
                decimal_text(*row as u64).as_str(),
            ),
            ConfigError::ZeroGain { name, row } => {
                let mut s = concat4(
                    "Gain is zero for channel '",
                    name.as_str(),
                    "' at row ",
                    decimal_text(*row as u64).as_str(),
                );
                s.append(" -- this would cause division by zero");
                s
            },
            ConfigError::Order { text, row } => concat4(
                "Invalid order '",
                text.as_str(),
                "' at row ",
                decimal_text(*row as u64).as_str(),
            ),
            ConfigError::IllegalName { name, character } => {
                let mut s = concat3(
                    "Channel name '",
                    name.as_str(),
                    "' contains illegal character '",
                );
                let ghost before = s@;
                s.push(*character);
                assert(s@ =~= before + seq![*character]);
                s.append("'");
                s
            },
        }
    }
}

/// The name of a channel, with commas as semicolons and slashes as
/// underscores; an illegal character that is left is an error.
pub fn sanitize_name(name: &str) -> (r: Result<String, ConfigError<String>>)
    ensures
        match first_illegal(softened(name@), 0) {
            Some(c) => r matches Err(e) && e@ == (ConfigError::IllegalName {
                name: name@,
                character: c,
            }),
            None => r matches Ok(s) && s@ == softened(name@),
        },
{
    proof {
        reveal_strlit(";");
        reveal_strlit("_");
        assert(";"@ =~= seq![';']);
        assert("_"@ =~= seq!['_']);
    }
    let a = replace_char(name, ',', ";");
    let b = replace_char(a.as_str(), '/', "_");
    let sanitized = replace_char(b.as_str(), '\\', "_");
    let v = chars_of(sanitized.as_str());
    let mut i: usize = 0;
    while i < v.len()
        invariant
            v@ == softened(name@),
            i <= v@.len(),
            first_illegal(v@, 0) == first_illegal(v@, i as int),
        decreases v.len() - i,
    {
        if is_illegal(v[i]) {
            return Err(ConfigError::IllegalName { name: name.to_string(), character: v[i] });
        }
        i += 1;
    }
    Ok(sanitized)
}

proof fn lemma_no_illegal(s: Seq<char>, i: int)
    requires
        0 <= i,
        first_illegal(s, i) is None,
    ensures
        forall|k: int| i <= k < s.len() ==> !illegal(#[trigger] s[k]),
    decreases s.len() - i,
{
    if i < s.len() {
        lemma_no_illegal(s, i + 1);
    }
}

/// A name that was taken over holds no illegal character.
pub proof fn law_sanitized_names_are_legal(name: Seq<char>)
    requires
        first_illegal(softened(name), 0) is None,
    ensures
        forall|k: int| 0 <= k < softened(name).len() ==> !illegal(#[trigger] softened(name)[k]),
{
    lemma_no_illegal(softened(name), 0);
}

/// A hexadecimal digit, in upper case.
pub open spec fn hex_char(d: int) -> char {
    if d < 10 {
        (d + '0' as int) as char
    } else {
        (d - 10 + 'A' as int) as char
    }
}

/// A byte as two hexadecimal digits.
pub open spec fn hex2(b: u8) -> Seq<char> {
    seq![hex_char(b as int / 16), hex_char(b as int % 16)]
}

fn hex_char_of(d: u8) -> (c: char)
    requires
        d < 16,
    ensures
        c == hex_char(d as int),
{
    let b: u8 = if d < 10 {
        d + 48u8
    } else {
        d - 10u8 + 65u8
    };
    b as char
}

fn hex_text(b: u8) -> (s: String)
    ensures
        s@ == hex2(b),
{
    let mut s = String::new();
    s.push(hex_char_of(b / 16));
    s.push(hex_char_of(b % 16));
    assert(s@ =~= hex2(b));
    s
}

/// The name under which a channel is saved: where it is connected, its name,
/// its color, and its place in a power pair.
pub open spec fn save_name(
    physical_channel: Seq<char>,
    name: Seq<char>,
    color: Rgb,
    power_pair: Option<(u32, bool)>,
) -> Seq<char> {
    let base = replaced(physical_channel, '/', "_"@) + "_"@ + name + "-CR"@ + hex2(color.r) + "-CG"@
        + hex2(color.g) + "-CB"@ + hex2(color.b);
    match power_pair {
        Some(p) => base + (if p.1 {
            "-PI"@
        } else {
            "-PV"@
        }) + decimal(p.0 as nat),
        None => base,
    }
}

/// The name under which a channel is saved.
pub fn build_save_name(
    physical_channel: &str,
    name: &str,
    color: &Rgb,
    power_pair: Option<(u32, bool)>,
) -> (s: String)
    ensures
        s@ == save_name(physical_channel@, name@, *color, power_pair),
{
    let phys = replace_char(physical_channel, '/', "_");
    let mut save = concat4(phys.as_str(), "_", name, "-CR");
    save.append(hex_text(color.r).as_str());
    save.append("-CG");
    save.append(hex_text(color.g).as_str());
    save.append("-CB");
    save.append(hex_text(color.b).as_str());
    match power_pair {
        Some((idx, is_current)) => {
            if is_current {
                save.append("-PI");
            } else {
                save.append("-PV");
            }
            save.append(decimal_text(idx as u64).as_str());
        },
        None => {},
    }
    save
}

/// The place of a channel in the power pairs from `i` on: the first pair that
/// names it, and whether as its current.
pub open spec fn pair_of(
    pairs: Seq<PowerPair<Seq<char>>>,
    ch: ChannelConfig<Seq<char>>,
    i: int,
) -> Option<(u32, bool)>
    decreases pairs.len() - i,
{
    if i < 0 || i >= pairs.len() {
        None
    } else if pairs[i].current_channel == ch.physical_channel || pairs[i].current_channel
        == ch.name {
        Some((pairs[i].index, true))
    } else if pairs[i].voltage_channel == ch.physical_channel || pairs[i].voltage_channel
        == ch.name {
        Some((pairs[i].index, false))
    } else {
        pair_of(pairs, ch, i + 1)
    }
}

/// The place of a channel in the power pairs.
pub fn power_pair_for_channel(config: &DaqConfig, ch: &ChannelConfig<String>) -> (r: Option<
    (u32, bool),
>)
    ensures
        r == pair_of(pair_views(config.power_pairs@), ch@, 0),
{
    let ghost all = pair_views(config.power_pairs@);
    let mut i: usize = 0;
    while i < config.power_pairs.len()
        invariant
            all == pair_views(config.power_pairs@),
            i <= config.power_pairs@.len(),
            pair_of(all, ch@, 0) == pair_of(all, ch@, i as int),
        decreases config.power_pairs.len() - i,
    {
        let pp = &config.power_pairs[i];
        assert(all[i as int] == pp@);
        if same_text(pp.current_channel.as_str(), ch.physical_channel.as_str()) || same_text(
            pp.current_channel.as_str(),
            ch.name.as_str(),
        ) {
            return Some((pp.index, true));
        }
        if same_text(pp.voltage_channel.as_str(), ch.physical_channel.as_str()) || same_text(
            pp.voltage_channel.as_str(),
            ch.name.as_str(),
        ) {
            return Some((pp.index, false));
        }
        i += 1;
    }
    None
}

} // verus!
