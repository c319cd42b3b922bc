//! Reading a configuration off the sheets of a workbook: the first holds the
//! channels, the second, where there is one, the power pairs.
use vstd::prelude::*;
use crate::daq::config::{
    ChannelConfig, ConfigError, DaqConfig, NumericCell, PowerPair, Rgb, cell_color, channel_views,
    convert_voltage_in_name, extract_cell_color, first_illegal, illegal, in_millivolts,
    law_sanitized_names_are_legal, name_volts, numeric_cell, pair_views, parse_numeric_cell,
    sanitize_name, softened, voltage_parts, volts, volts_of,
};
use crate::daq::voltage_laws::lemma_converted_not_empty;
use crate::double::Double;
use crate::number::{lower_text, lowered, parse_u32, read_int};
use crate::text::{chars_of, contains_text, occurs, replaced, texts, trim, trimmed};

verus! {

/// One cell: its text, and the code of its fill color, where it has one.
#[derive(Debug, Clone)]
pub struct Cell {
    pub text: String,
    pub argb: Option<String>,
}

/// One sheet: its cells row by row, and its highest column.
#[derive(Debug, Clone)]
pub struct Sheet {
    pub max_col: u32,
    pub rows: Vec<Vec<Cell>>,
}

/// The text of a cell, trimmed; rows and columns count from one, and a cell
/// that is not there is empty.
pub open spec fn cell_text(sheet: Sheet, row: int, col: int) -> Seq<char> {
    if 1 <= row <= sheet.rows@.len() && 1 <= col <= sheet.rows@[row - 1]@.len() {
        trimmed(sheet.rows@[row - 1]@[col - 1].text@)
    } else {
        Seq::empty()
    }
}

/// The color code of a cell.
pub open spec fn cell_argb(sheet: Sheet, row: int, col: int) -> Option<Seq<char>> {
    if 1 <= row <= sheet.rows@.len() && 1 <= col <= sheet.rows@[row - 1]@.len() {
        match sheet.rows@[row - 1]@[col - 1].argb {
            Some(s) => Some(s@),
            None => None,
        }
    } else {
        None
    }
}

fn cell_value(sheet: &Sheet, row: usize, col: usize) -> (s: String)
    ensures
        s@ == cell_text(*sheet, row as int, col as int),
{
    if 1 <= row && row <= sheet.rows.len() && 1 <= col && col <= sheet.rows[row - 1].len() {
        trim(sheet.rows[row - 1][col - 1].text.as_str())
    } else {
        String::new()
    }
}

fn cell_fill(sheet: &Sheet, row: usize, col: usize) -> (c: Rgb)
    ensures
        c == cell_color(cell_argb(*sheet, row as int, col as int)),
{
    if 1 <= row && row <= sheet.rows.len() && 1 <= col && col <= sheet.rows[row - 1].len() {
        match &sheet.rows[row - 1][col - 1].argb {
            Some(s) => extract_cell_color(Some(s.as_str())),
            None => extract_cell_color(None),
        }
    } else {
        extract_cell_color(None)
    }
}

fn is_empty(s: &String) -> (r: bool)
    ensures
        r == (s@.len() == 0),
{
    chars_of(s.as_str()).len() == 0
}

// ---------------------------------------------------------------------------
// Power pairs
// ---------------------------------------------------------------------------

/// The power pairs in the rows from the second up to row `n`. A row without an
/// index and a current channel is passed over.
pub open spec fn pairs_to(sheet: Sheet, n: int) -> Result<
    Seq<PowerPair<Seq<char>>>,
    ConfigError<Seq<char>>,
>
    decreases n,
{
    if n < 2 {
        Ok(Seq::empty())
    } else {
        match pairs_to(sheet, n - 1) {
            Err(e) => Err(e),
            Ok(v) => {
                let index = cell_text(sheet, n, 1);
                let current = cell_text(sheet, n, 2);
                if index.len() == 0 && current.len() == 0 {
                    Ok(v)
                } else {
                    match read_int(index, 0, u32::MAX as int) {
                        Err(_) => Err(ConfigError::PairIndex { text: index, row: n as u32 }),
                        Ok(i) => Ok(
                            v.push(
                                PowerPair {
                                    index: i as u32,
                                    current_channel: current,
                                    voltage_channel: cell_text(sheet, n, 3),
                                },
                            ),
                        ),
                    }
                }
            },
        }
    }
}

proof fn lemma_pairs_stop(sheet: Sheet, n: int, m: int)
    requires
        n <= m,
        pairs_to(sheet, n) is Err,
    ensures
        pairs_to(sheet, m) == pairs_to(sheet, n),
    decreases m - n,
{
    if n < m {
        lemma_pairs_stop(sheet, n, m - 1);
    }
}

/// Reads the power pairs of a sheet.
fn read_pairs(sheet: &Sheet) -> (r: Result<Vec<PowerPair<String>>, ConfigError<String>>)
    requires
        sheet.rows@.len() <= u32::MAX,
    ensures
        match pairs_to(*sheet, sheet.rows@.len() as int) {
            Ok(v) => r matches Ok(w) && pair_views(w@) == v,
            Err(e) => r matches Err(f) && f@ == e,
        },
{
    let mut pairs: Vec<PowerPair<String>> = Vec::new();
    let last: usize = sheet.rows.len();
    assert(pair_views(pairs@) =~= Seq::empty());
    if last < 2 {
        return Ok(pairs);
    }
    let mut done: usize = 1;
    while done < last
        invariant
            last == sheet.rows@.len(),
            sheet.rows@.len() <= u32::MAX,
            1 <= done <= last,
            pairs_to(*sheet, done as int) == Ok::<
                Seq<PowerPair<Seq<char>>>,
                ConfigError<Seq<char>>,
            >(pair_views(pairs@)),
        decreases last - done,
    {
        let row: usize = done + 1;
        let index = cell_value(sheet, row, 1);
        let current_channel = cell_value(sheet, row, 2);
        if !(is_empty(&index) && is_empty(&current_channel)) {
            match parse_u32(index.as_str()) {
                Ok(i) => {
                    let voltage_channel = cell_value(sheet, row, 3);
                    let ghost before = pair_views(pairs@);
                    let pair = PowerPair { index: i, current_channel, voltage_channel };
                    pairs.push(pair);
                    assert(pair_views(pairs@) =~= before.push(pair@));
                },
                Err(_) => {
                    proof {
                        lemma_pairs_stop(*sheet, row as int, last as int);
                    }
                    return Err(ConfigError::PairIndex { text: index, row: row as u32 });
                },
            }
        }
        done = row;
    }
    Ok(pairs)
}

// ---------------------------------------------------------------------------
// Channels
// ---------------------------------------------------------------------------

/// What the numeric cells of a row say, to be worked out: its gain, its
/// offset, its range, and the numbers of volts in its name.
#[derive(Debug, Clone)]
pub struct RowExpressions {
    pub gain: NumericCell<String>,
    pub offset: NumericCell<String>,
    pub range_max: NumericCell<String>,
    pub range_min: NumericCell<String>,
    pub volts: Vec<String>,
}

/// The numbers of a row: what its cells come to, where they say anything, and
/// the millivolts that its numbers of volts round to.
#[derive(Debug, Clone)]
pub struct RowNumbers {
    pub gain: Option<Double>,
    pub offset: Option<Double>,
    pub range_max: Option<Double>,
    pub range_min: Option<Double>,
    pub millivolts: Vec<i64>,
}

/// The literal in each of the parts that give a number of volts.
pub open spec fn literals(parts: Seq<Seq<char>>) -> Seq<Seq<char>> {
    parts.map_values(|p: Seq<char>| volts_of(p)->Some_0)
}

proof fn lemma_name_volts(parts: Seq<Seq<char>>)
    ensures
        forall|i: int|
            0 <= i < crate::daq::config::volt_parts(parts).len() ==> volts_of(
                #[trigger] crate::daq::config::volt_parts(parts)[i],
            ) is Some,
    decreases parts.len(),
{
    if parts.len() > 0 {
        lemma_name_volts(parts.drop_last());
    }
}

/// Whether `r` is what the numeric cells of a row of the channel sheet say.
pub open spec fn says_cells(sheet: Sheet, row: int, r: RowExpressions) -> bool {
    &&& r.gain@ == numeric_cell(cell_text(sheet, row, 3))
    &&& r.offset@ == numeric_cell(cell_text(sheet, row, 4))
    &&& r.range_max@ == numeric_cell(cell_text(sheet, row, 6))
    &&& r.range_min@ == numeric_cell(cell_text(sheet, row, 7))
    &&& texts(r.volts@) == literals(name_volts(cell_text(sheet, row, 2)))
}

/// What the numeric cells of a row of the channel sheet say.
pub fn row_expressions(sheet: &Sheet, row: usize) -> (r: RowExpressions)
    ensures
        says_cells(*sheet, row as int, r),
        r.gain@ == numeric_cell(cell_text(*sheet, row as int, 3)),
        r.offset@ == numeric_cell(cell_text(*sheet, row as int, 4)),
        r.range_max@ == numeric_cell(cell_text(*sheet, row as int, 6)),
        r.range_min@ == numeric_cell(cell_text(*sheet, row as int, 7)),
        texts(r.volts@) == literals(name_volts(cell_text(*sheet, row as int, 2))),
{
    let name = cell_value(sheet, row, 2);
    let parts = voltage_parts(name.as_str());
    let ghost all = name_volts(name@);
    let mut list: Vec<String> = Vec::new();
    let mut i: usize = 0;
    assert(texts(parts@).len() == parts@.len());
    assert(texts(list@) =~= literals(all).take(0));
    proof {
        lemma_name_volts(crate::text::pieces(name@, '_'));
    }
    while i < parts.len()
        invariant
            all == texts(parts@),
            all.len() == parts@.len(),
            forall|k: int| 0 <= k < all.len() ==> volts_of(#[trigger] all[k]) is Some,
            i <= parts@.len(),
            texts(list@) == literals(all).take(i as int),
        decreases parts.len() - i,
    {
        assert(all[i as int] == parts@[i as int]@);
        match volts(parts[i].as_str()) {
            Some(number) => {
                let ghost before = texts(list@);
                list.push(number);
                assert(texts(list@) =~= before.push(number@));
                assert(texts(list@) =~= literals(all).take(i as int + 1));
            },
            None => {
                assert(volts_of(all[i as int]) is Some);
            },
        }
        i += 1;
    }
    assert(literals(all).take(all.len() as int) =~= literals(all));
    RowExpressions {
        gain: parse_numeric_cell(cell_value(sheet, row, 3).as_str()),
        offset: parse_numeric_cell(cell_value(sheet, row, 4).as_str()),
        range_max: parse_numeric_cell(cell_value(sheet, row, 6).as_str()),
        range_min: parse_numeric_cell(cell_value(sheet, row, 7).as_str()),
        volts: list,
    }
}

/// Whether the fifth column of a sheet gives the order of channels.
pub open spec fn gives_order(sheet: Sheet) -> bool {
    sheet.max_col >= 5 && occurs(lowered(cell_text(sheet, 1, 5)), "order"@)
}

/// Whether the sixth column of a sheet, and those behind it, give ranges.
pub open spec fn gives_range(sheet: Sheet) -> bool {
    sheet.max_col >= 6 && (occurs(lowered(cell_text(sheet, 1, 6)), "range"@) || occurs(
        lowered(cell_text(sheet, 1, 6)),
        "max"@,
    ))
}

/// A number, or what counts in its place.
pub open spec fn number_or(n: Option<Double>, other: Double) -> Double {
    match n {
        Some(d) => d,
        None => other,
    }
}

/// The place of a row's channel in the order.
pub open spec fn order_of(sheet: Sheet, row: int) -> Result<Option<u32>, ConfigError<Seq<char>>> {
    let text = cell_text(sheet, row, 5);
    if !gives_order(sheet) || text.len() == 0 {
        Ok(None)
    } else {
        match read_int(text, 0, u32::MAX as int) {
            Ok(n) => Ok(Some(n as u32)),
            Err(_) => Err(ConfigError::Order { text, row: row as u32 }),
        }
    }
}

/// The name of a row's channel before what it may not hold is looked for.
pub open spec fn converted_name(sheet: Sheet, row: int, millivolts: Seq<i64>) -> Seq<char> {
    let raw = cell_text(sheet, row, 2);
    in_millivolts(raw, name_volts(raw), millivolts, millivolts.len() as int)
}

/// The channel of a row, where it has one: a row without a place of connection
/// or without a name has none. A gain of zero comes before a wrong place in
/// the order, and that before a wrong name.
pub open spec fn channel_of(sheet: Sheet, row: int, numbers: RowNumbers) -> Result<
    Option<ChannelConfig<Seq<char>>>,
    ConfigError<Seq<char>>,
> {
    let physical = cell_text(sheet, row, 1);
    let raw = cell_text(sheet, row, 2);
    let gain = number_or(numbers.gain, Double::unit());
    if physical.len() == 0 || raw.len() == 0 {
        Ok(None)
    } else if gain.zero_of_either_sign() {
        Err(ConfigError::ZeroGain { name: raw, row: row as u32 })
    } else {
        match order_of(sheet, row) {
            Err(e) => Err(e),
            Ok(order) => {
                let name = converted_name(sheet, row, numbers.millivolts@);
                match first_illegal(softened(name), 0) {
                    Some(character) => Err(ConfigError::IllegalName { name, character }),
                    None => Ok(
                        Some(
                            ChannelConfig {
                                physical_channel: physical,
                                name: softened(name),
                                gain,
                                offset: number_or(numbers.offset, Double::nought()),
                                order,
                                range_max: if gives_range(sheet) {
                                    numbers.range_max
                                } else {
                                    None
                                },
                                range_min: if gives_range(sheet) && sheet.max_col >= 7 {
                                    numbers.range_min
                                } else {
                                    None
                                },
                                color: cell_color(cell_argb(sheet, row, 2)),
                            },
                        ),
                    ),
                }
            },
        }
    }
}

/// The channels in the rows from the second up to row `n`; the first row that
/// cannot be read stops the reading.
pub open spec fn channels_to(sheet: Sheet, numbers: Seq<RowNumbers>, n: int) -> Result<
    Seq<ChannelConfig<Seq<char>>>,
    ConfigError<Seq<char>>,
>
    decreases n,
{
    if n < 2 {
        Ok(Seq::empty())
    } else {
        match channels_to(sheet, numbers, n - 1) {
            Err(e) => Err(e),
            Ok(v) => match channel_of(sheet, n, numbers[n - 2]) {
                Err(e) => Err(e),
                Ok(None) => Ok(v),
                Ok(Some(c)) => Ok(v.push(c)),
            },
        }
    }
}

proof fn lemma_channels_stop(sheet: Sheet, numbers: Seq<RowNumbers>, n: int, m: int)
    requires
        n <= m,
        channels_to(sheet, numbers, n) is Err,
    ensures
        channels_to(sheet, numbers, m) == channels_to(sheet, numbers, n),
    decreases m - n,
{
    if n < m {
        lemma_channels_stop(sheet, numbers, n, m - 1);
    }
}

fn has_order_column(sheet: &Sheet) -> (r: bool)
    ensures
        r == gives_order(*sheet),
{
    sheet.max_col >= 5 && contains_text(
        lower_text(cell_value(sheet, 1, 5).as_str()).as_str(),
        "order",
    )
}

fn has_range_column(sheet: &Sheet) -> (r: bool)
    ensures
        r == gives_range(*sheet),
{
    if sheet.max_col < 6 {
        return false;
    }
    let h = lower_text(cell_value(sheet, 1, 6).as_str());
    contains_text(h.as_str(), "range") || contains_text(h.as_str(), "max")
}

fn read_channel(sheet: &Sheet, row: usize, numbers: &RowNumbers) -> (r: Result<
    Option<ChannelConfig<String>>,
    ConfigError<String>,
>)
    requires
        row <= u32::MAX,
        numbers.millivolts@.len() == name_volts(cell_text(*sheet, row as int, 2)).len(),
    ensures
        match channel_of(*sheet, row as int, *numbers) {
            Ok(None) => r matches Ok(None),
            Ok(Some(c)) => r matches Ok(Some(d)) && d@ == c,
            Err(e) => r matches Err(f) && f@ == e,
        },
{
    let physical_channel = cell_value(sheet, row, 1);
    if is_empty(&physical_channel) {
        return Ok(None);
    }
    let raw_name = cell_value(sheet, row, 2);
    if is_empty(&raw_name) {
        return Ok(None);
    }
    let gain: Double = match numbers.gain {
        Some(d) => d,
        None => Double::one(),
    };
    let offset: Double = match numbers.offset {
        Some(d) => d,
        None => Double::zero(),
    };
    if gain.is_zero() {
        return Err(ConfigError::ZeroGain { name: raw_name, row: row as u32 });
    }
    let mut order: Option<u32> = None;
    if has_order_column(sheet) {
        let text = cell_value(sheet, row, 5);
        if !is_empty(&text) {
            match parse_u32(text.as_str()) {
                Ok(n) => {
                    order = Some(n);
                },
                Err(_) => {
                    return Err(ConfigError::Order { text, row: row as u32 });
                },
            }
        }
    }
    let ranged = has_range_column(sheet);
    let range_max: Option<Double> = if ranged {
        numbers.range_max
    } else {
        None
    };
    let range_min: Option<Double> = if ranged && sheet.max_col >= 7 {
        numbers.range_min
    } else {
        None
    };
    let color = cell_fill(sheet, row, 2);
    let name_converted = convert_voltage_in_name(raw_name.as_str(), &numbers.millivolts);
    match sanitize_name(name_converted.as_str()) {
        Ok(name) => Ok(
            Some(
                ChannelConfig {
                    physical_channel,
                    name,
                    gain,
                    offset,
                    order,
                    range_max,
                    range_min,
                    color,
                },
            ),
        ),
        Err(e) => Err(e),
    }
}

/// Whether numbers are given for each row of a sheet from the second on, with
/// as many millivolts as its name has numbers of volts.
pub open spec fn numbers_fit(sheet: Sheet, numbers: Seq<RowNumbers>) -> bool {
    &&& sheet.rows@.len() <= u32::MAX
    &&& sheet.rows@.len() >= 1 ==> numbers.len() == sheet.rows@.len() - 1
    &&& forall|i: int|
        0 <= i < numbers.len() ==> (#[trigger] numbers[i]).millivolts@.len() == name_volts(
            cell_text(sheet, i + 2, 2),
        ).len()
}

/// What a configuration comes to: the power pairs are read first.
pub open spec fn config_of(
    channel_sheet: Option<Sheet>,
    numbers: Seq<RowNumbers>,
    pair_sheet: Option<Sheet>,
) -> Result<(Seq<ChannelConfig<Seq<char>>>, Seq<PowerPair<Seq<char>>>), ConfigError<Seq<char>>> {
    let pairs = match pair_sheet {
        Some(s) => pairs_to(s, s.rows@.len() as int),
        None => Ok(Seq::empty()),
    };
    match pairs {
        Err(e) => Err(e),
        Ok(p) => match channel_sheet {
            None => Err(ConfigError::NoChannelSheet),
            Some(s) => match channels_to(s, numbers, s.rows@.len() as int) {
                Err(e) => Err(e),
                Ok(c) => Ok((c, p)),
            },
        },
    }
}

/// Reads a configuration off the first two sheets of a workbook.
pub fn load_config(
    channel_sheet: Option<&Sheet>,
    numbers: &Vec<RowNumbers>,
    pair_sheet: Option<&Sheet>,
) -> (r: Result<DaqConfig, ConfigError<String>>)
    requires
        channel_sheet matches Some(s) ==> numbers_fit(*s, numbers@),
        pair_sheet matches Some(s) ==> s.rows@.len() <= u32::MAX,
    ensures
        match config_of(
            match channel_sheet {
                Some(s) => Some(*s),
                None => None,
            },
            numbers@,
            match pair_sheet {
                Some(s) => Some(*s),
                None => None,
            },
        ) {
            Err(e) => r matches Err(f) && f@ == e,
            Ok(c) => r matches Ok(config) && {
                &&& channel_views(config.channels@) == c.0
                &&& pair_views(config.power_pairs@) == c.1
                &&& config.has_order == gives_order(*channel_sheet->Some_0)
                &&& config.has_range == gives_range(*channel_sheet->Some_0)
            },
        },
{
    let power_pairs: Vec<PowerPair<String>> = match pair_sheet {
        Some(s) => match read_pairs(s) {
            Ok(p) => p,
            Err(e) => {
                return Err(e);
            },
        },
        None => Vec::new(),
    };
    assert(pair_sheet is None ==> pair_views(power_pairs@) =~= Seq::empty());
    let sheet: &Sheet = match channel_sheet {
        Some(s) => s,
        None => {
            return Err(ConfigError::NoChannelSheet);
        },
    };
    match read_channels(sheet, numbers) {
        Ok(channels) => Ok(
            DaqConfig {
                channels,
                power_pairs,
                has_order: has_order_column(sheet),
                has_range: has_range_column(sheet),
            },
        ),
        Err(e) => Err(e),
    }
}

fn read_channels(sheet: &Sheet, numbers: &Vec<RowNumbers>) -> (r: Result<
    Vec<ChannelConfig<String>>,
    ConfigError<String>,
>)
    requires
        numbers_fit(*sheet, numbers@),
    ensures
        match channels_to(*sheet, numbers@, sheet.rows@.len() as int) {
            Err(e) => r matches Err(f) && f@ == e,
            Ok(c) => r matches Ok(v) && channel_views(v@) == c,
        },
{
    let mut channels: Vec<ChannelConfig<String>> = Vec::new();
    let last: usize = sheet.rows.len();
    assert(channel_views(channels@) =~= Seq::empty());
    if last < 2 {
        return Ok(channels);
    }
    let mut done: usize = 1;
    while done < last
        invariant
            last == sheet.rows@.len(),
            numbers_fit(*sheet, numbers@),
            1 <= done <= last,
            channels_to(*sheet, numbers@, done as int) == Ok::<
                Seq<ChannelConfig<Seq<char>>>,
                ConfigError<Seq<char>>,
            >(channel_views(channels@)),
        decreases last - done,
    {
        let row: usize = done + 1;
        assert(numbers@[row - 2].millivolts@.len() == name_volts(
            cell_text(*sheet, row - 2 + 2, 2),
        ).len());
        match read_channel(sheet, row, &numbers[row - 2]) {
            Ok(Some(c)) => {
                let ghost before = channel_views(channels@);
                channels.push(c);
                assert(channel_views(channels@) =~= before.push(c@));
            },
            Ok(None) => {},
            Err(e) => {
                proof {
                    lemma_channels_stop(*sheet, numbers@, row as int, last as int);
                }
                return Err(e);
            },
        }
        done = row;
    }
    Ok(channels)
}

/// The rows from the second up to row `n` that give a channel: those where
/// both the place of connection and the name are given.
pub open spec fn channel_rows(sheet: Sheet, n: int) -> Seq<int>
    decreases n,
{
    if n < 2 {
        Seq::empty()
    } else if cell_text(sheet, n, 1).len() > 0 && cell_text(sheet, n, 2).len() > 0 {
        channel_rows(sheet, n - 1).push(n)
    } else {
        channel_rows(sheet, n - 1)
    }
}

/// What holds of every channel that was read off a sheet.
pub open spec fn sound(sheet: Sheet, c: ChannelConfig<Seq<char>>) -> bool {
    &&& c.physical_channel.len() > 0
    &&& c.name.len() > 0
    &&& !c.gain.zero_of_either_sign()
    &&& forall|k: int| 0 <= k < c.name.len() ==> !illegal(#[trigger] c.name[k])
    &&& c.order is Some ==> gives_order(sheet)
    &&& c.range_max is Some ==> gives_range(sheet)
    &&& c.range_min is Some ==> gives_range(sheet)
}

proof fn lemma_softened_len(s: Seq<char>, from: char, to: char)
    ensures
        replaced(s, from, seq![to]).len() == s.len(),
    decreases s.len(),
{
    if s.len() > 0 {
        lemma_softened_len(s.drop_last(), from, to);
    }
}

proof fn lemma_sound(sheet: Sheet, row: int, numbers: RowNumbers)
    requires
        channel_of(sheet, row, numbers) matches Ok(Some(_)),
    ensures
        sound(sheet, channel_of(sheet, row, numbers)->Ok_0->Some_0),
{
    let name = converted_name(sheet, row, numbers.millivolts@);
    law_sanitized_names_are_legal(name);
    lemma_converted_not_empty(
        cell_text(sheet, row, 2),
        numbers.millivolts@,
        numbers.millivolts@.len() as int,
    );
    let a = replaced(name, ',', seq![';']);
    let b = replaced(a, '/', seq!['_']);
    lemma_softened_len(name, ',', ';');
    lemma_softened_len(a, '/', '_');
    lemma_softened_len(b, '\\', '_');
}

proof fn lemma_rows_rise(sheet: Sheet, n: int)
    ensures
        forall|i: int|
            0 <= i < channel_rows(sheet, n).len() ==> 2 <= #[trigger] channel_rows(sheet, n)[i]
                <= n,
        forall|i: int, j: int|
            0 <= i < j < channel_rows(sheet, n).len() ==> #[trigger] channel_rows(sheet, n)[i]
                < #[trigger] channel_rows(sheet, n)[j],
    decreases n,
{
    if n >= 2 {
        lemma_rows_rise(sheet, n - 1);
        let rows = channel_rows(sheet, n);
        let earlier = channel_rows(sheet, n - 1);
        assert forall|i: int| 0 <= i < rows.len() implies 2 <= #[trigger] rows[i] <= n by {
            if i < earlier.len() {
                assert(rows[i] == earlier[i]);
            }
        }
        assert forall|i: int, j: int| 0 <= i < j < rows.len() implies #[trigger] rows[i]
            < #[trigger] rows[j] by {
            assert(rows[i] == earlier[i]);
            if j < earlier.len() {
                assert(rows[j] == earlier[j]);
            }
        }
    }
}

/// No channel of a configuration has a gain of zero, an empty name, a name
/// with an illegal character, or an empty place of connection; one has a
/// place in the order, or a range, only where the sheet gives orders, or
/// ranges. There is one channel for each row that gives one, in the order of
/// the rows.
pub proof fn law_channels_are_sound(sheet: Sheet, numbers: Seq<RowNumbers>, n: int)
    requires
        channels_to(sheet, numbers, n) is Ok,
    ensures
        ({
            let channels = channels_to(sheet, numbers, n)->Ok_0;
            let rows = channel_rows(sheet, n);
            &&& forall|i: int| 0 <= i < channels.len() ==> sound(sheet, #[trigger] channels[i])
            &&& channels.len() == rows.len()
            &&& forall|i: int|
                0 <= i < rows.len() ==> channel_of(
                    sheet,
                    #[trigger] rows[i],
                    numbers[rows[i] - 2],
                ) == Ok::<_, ConfigError<Seq<char>>>(Some(channels[i]))
            &&& forall|i: int, j: int|
                0 <= i < j < rows.len() ==> #[trigger] rows[i] < #[trigger] rows[j]
        }),
    decreases n,
{
    lemma_rows_rise(sheet, n);
    if n >= 2 {
        law_channels_are_sound(sheet, numbers, n - 1);
        let before = channels_to(sheet, numbers, n - 1)->Ok_0;
        let channels = channels_to(sheet, numbers, n)->Ok_0;
        let rows = channel_rows(sheet, n);
        let earlier = channel_rows(sheet, n - 1);
        if rows.len() > earlier.len() {
            lemma_sound(sheet, n, numbers[n - 2]);
        }
        assert forall|i: int| 0 <= i < channels.len() implies sound(
            sheet,
            #[trigger] channels[i],
        ) by {
            if i < before.len() {
                assert(sound(sheet, before[i]));
            }
        }
        assert forall|i: int| 0 <= i < rows.len() implies channel_of(
            sheet,
            #[trigger] rows[i],
            numbers[rows[i] - 2],
        ) == Ok::<_, ConfigError<Seq<char>>>(Some(channels[i])) by {
            if i < earlier.len() {
                assert(rows[i] == earlier[i]);
            }
        }
    }
}

} // verus!
