//! What a workbook's cells come to: numbers, colors, channels and power
//! pairs.
use vstd::prelude::*;
use vstd::utf8::encode_utf8;
use crate::daq::config::{
    ChannelConfig, ConfigError, NumericCell, PowerPair, Rgb, cell_color, color_at, color_part,
    first_illegal, first_index, formula, illegal, name_volts, numeric_cell, operands, softened,
    volts_of, without_hash,
};
use crate::daq::load::{
    RowExpressions, RowNumbers, Sheet, channel_of, channel_rows, channels_to, config_of,
    converted_name, gives_order, gives_range, law_channels_are_sound, pairs_to, says_cells,
};
use crate::double::Double;
use crate::number::{
    IntFault, float_literal, lemma_float_literal_chars, lemma_read_int_range, literal_char, lowered,
    read_float, read_int,
};
use crate::text::{occurs, replaced, trimmed, white};

verus! {

// ---------------------------------------------------------------------------
// Numbers
// ---------------------------------------------------------------------------

proof fn lemma_literal_is_trimmed(a: Seq<char>)
    requires
        a.len() > 0,
        !white(a[0]),
        !white(a.last()),
    ensures
        trimmed(a) == a,
{
}

proof fn lemma_operator_at(a: Seq<char>, c: char, b: Seq<char>, i: int)
    requires
        0 <= i <= a.len(),
        !a.contains(c),
    ensures
        first_index(a.push(c) + b, c, i) == a.len(),
    decreases a.len() - i,
{
    let s = a.push(c) + b;
    if i < a.len() {
        assert(a.contains(a[i]));
        assert(s[i] == a[i]);
        lemma_operator_at(a, c, b, i + 1);
    }
}

proof fn lemma_no_operator(s: Seq<char>, c: char, i: int)
    requires
        0 <= i <= s.len(),
        !s.contains(c),
    ensures
        first_index(s, c, i) == s.len(),
    decreases s.len() - i,
{
    if i < s.len() {
        assert(s.contains(s[i]));
        lemma_no_operator(s, c, i + 1);
    }
}

proof fn lemma_literal(a: Seq<char>)
    requires
        float_literal(a),
    ensures
        a.len() > 0,
        trimmed(a) == a,
        !white(a[0]),
        !white(a.last()),
        read_float(a) is Ok,
        !a.contains('/'),
        !a.contains('*'),
        a[0] != '=',
{
    lemma_float_literal_chars(a);
    assert(literal_char(a[0]));
    assert(literal_char(a[a.len() - 1]));
    assert forall|i: int| 0 <= i < a.len() implies a[i] != '/' && a[i] != '*' by {
        assert(literal_char(a[i]));
    }
}

proof fn lemma_two_operands(a: Seq<char>, c: char, b: Seq<char>)
    requires
        float_literal(a),
        float_literal(b),
        c == '/' || c == '*',
    ensures
        ({
            let e = a.push(c) + b;
            &&& read_float(e) is Err
            &&& trimmed(e) == e
            &&& e.len() > 0
            &&& e[0] != '='
            &&& operands(e, c) == Some((a, b))
            &&& c == '*' ==> operands(e, '/') is None
        }),
{
    let e = a.push(c) + b;
    lemma_literal(a);
    lemma_literal(b);
    assert(e[0] == a[0]);
    assert(e.last() == b.last());
    lemma_literal_is_trimmed(e);
    if float_literal(e) {
        lemma_float_literal_chars(e);
        assert(literal_char(e[a.len() as int]));
    }
    lemma_operator_at(a, c, b, 0);
    assert(e.take(a.len() as int) =~= a);
    assert(e.skip(a.len() as int + 1) =~= b);
    if c == '*' {
        assert forall|i: int| 0 <= i < e.len() implies e[i] != '/' by {
            if i < a.len() {
                assert(a.contains(a[i]));
            } else if i > a.len() {
                assert(b.contains(b[i - a.len() - 1]));
            }
        }
        lemma_no_operator(e, '/', 0);
    }
}

proof fn lemma_behind_equals(e: Seq<char>)
    requires
        e.len() > 0,
        trimmed(e) == e,
        !white(e[0]),
        !white(e.last()),
        e[0] != '=',
    ensures
        formula(e) == e,
        formula(seq!['='] + e) == e,
        numeric_cell(seq!['='] + e) == numeric_cell(e),
{
    let f = seq!['='] + e;
    assert(f[0] == '=' && f.last() == e.last());
    lemma_literal_is_trimmed(f);
    assert(f.skip(1) =~= e);
}

/// A cell says the number that it holds: a literal itself, the quotient of
/// two literals around a slash, the product of two around a star, dividend
/// and divisor in this order; an equals sign before it changes nothing.
pub proof fn law_cells_say_numbers_quotients_and_products(a: Seq<char>, b: Seq<char>)
    requires
        float_literal(a),
        float_literal(b),
    ensures
        numeric_cell(a) == NumericCell::Value(a),
        numeric_cell(seq!['='] + a) == NumericCell::Value(a),
        numeric_cell(a.push('/') + b) == NumericCell::Quotient(a, b),
        numeric_cell(seq!['='] + (a.push('/') + b)) == NumericCell::Quotient(a, b),
        numeric_cell(a.push('*') + b) == NumericCell::Product(a, b),
        numeric_cell(seq!['='] + (a.push('*') + b)) == NumericCell::Product(a, b),
{
    lemma_literal(a);
    lemma_literal(b);
    lemma_behind_equals(a);
    let q = a.push('/') + b;
    lemma_two_operands(a, '/', b);
    assert(q[0] == a[0] && q.last() == b.last());
    lemma_behind_equals(q);
    let p = a.push('*') + b;
    lemma_two_operands(a, '*', b);
    assert(p[0] == a[0] && p.last() == b.last());
    lemma_behind_equals(p);
}

/// A cell that is empty, or holds none of these, says nothing: without a
/// slash and a star it says something only where it is a literal.
pub proof fn law_other_cells_say_nothing(value: Seq<char>)
    requires
        !formula(value).contains('/'),
        !formula(value).contains('*'),
        !float_literal(formula(value)),
    ensures
        numeric_cell(value) is Nothing,
{
    let e = formula(value);
    lemma_no_operator(e, '/', 0);
    lemma_no_operator(e, '*', 0);
}

// ---------------------------------------------------------------------------
// Colors
// ---------------------------------------------------------------------------

/// The byte of a hexadecimal digit.
pub open spec fn hex_byte(d: int) -> u8 {
    if d < 10 {
        (d + 0x30) as u8
    } else {
        (d - 10 + 0x41) as u8
    }
}

/// The bytes of a color code: two digits for each part, red first.
pub open spec fn color_code(c: Rgb) -> Seq<u8> {
    seq![
        hex_byte(c.r as int / 16),
        hex_byte(c.r as int % 16),
        hex_byte(c.g as int / 16),
        hex_byte(c.g as int % 16),
        hex_byte(c.b as int / 16),
        hex_byte(c.b as int % 16),
    ]
}

proof fn lemma_code(c: Rgb, front: Seq<u8>)
    ensures
        color_at(front + color_code(c), front.len() as int) == if c.r == 0 && c.g == 0 && c.b
            == 0 {
            Rgb { r: 0xFF, g: 0xFF, b: 0xFF }
        } else {
            c
        },
{
    let b = front + color_code(c);
    let at = front.len() as int;
    let k = color_code(c);
    assert(b[at] == k[0] && b[at + 1] == k[1] && b[at + 2] == k[2] && b[at + 3] == k[3] && b[at
        + 4] == k[4] && b[at + 5] == k[5]);
    assert(color_part(k[0], k[1]) == c.r);
    assert(color_part(k[2], k[3]) == c.g);
    assert(color_part(k[4], k[5]) == c.b);
}

/// A color code gives back the color that it was made of, red, green and blue
/// in this order, with or without two digits for opacity in front; black, and
/// a cell without a code, count as white.
pub proof fn law_color_codes_read_back(argb: Seq<char>, c: Rgb, opacity: Seq<u8>)
    requires
        opacity.len() == 0 || opacity.len() == 2,
        opacity.len() == 2 ==> opacity[0] != 0x23,
        encode_utf8(argb) == opacity + color_code(c) || encode_utf8(argb) == seq![0x23u8] + (opacity
            + color_code(c)),
    ensures
        cell_color(Some(argb)) == if c.r == 0 && c.g == 0 && c.b == 0 {
            Rgb { r: 0xFF, g: 0xFF, b: 0xFF }
        } else {
            c
        },
        cell_color(None) == (Rgb { r: 0xFF, g: 0xFF, b: 0xFF }),
{
    let h = opacity + color_code(c);
    let e = encode_utf8(argb);
    assert(h[0] != 0x23) by {
        if opacity.len() == 0 {
            assert(h[0] == color_code(c)[0]);
        }
    }
    assert(without_hash(h) == h);
    if e == seq![0x23u8] + h {
        assert(e.skip(1) =~= h);
        assert(without_hash(e) == without_hash(e.skip(1)));
    }
    lemma_code(c, opacity);
}

// ---------------------------------------------------------------------------
// Channels
// ---------------------------------------------------------------------------

/// What stands in a sheet's cell, without white space around it; rows and
/// columns count from one.
pub open spec fn shown(sheet: Sheet, row: int, col: int) -> Seq<char> {
    if 1 <= row <= sheet.rows@.len() && 1 <= col <= sheet.rows@[row - 1]@.len() {
        trimmed(sheet.rows@[row - 1]@[col - 1].text@)
    } else {
        Seq::empty()
    }
}

/// The color code of a sheet's cell.
pub open spec fn code(sheet: Sheet, row: int, col: int) -> Option<Seq<char>> {
    if 1 <= row <= sheet.rows@.len() && 1 <= col <= sheet.rows@[row - 1]@.len() {
        match sheet.rows@[row - 1]@[col - 1].argb {
            Some(s) => Some(s@),
            None => None,
        }
    } else {
        None
    }
}

/// What a channel of a configuration is, cell by cell of its row: it is
/// connected where the first cell says, named by the second and colored like
/// it. Its gain and offset are the numbers that the third and the fourth cell
/// come to, and one and zero only where these say nothing. Its place in the
/// order is the number in the fifth cell, and its range the numbers of the
/// sixth and the seventh, where the sheet gives them.
pub proof fn law_channels_are_what_their_rows_say(
    sheet: Sheet,
    numbers: Seq<RowNumbers>,
    n: int,
    i: int,
)
    requires
        channels_to(sheet, numbers, n) is Ok,
        0 <= i < channels_to(sheet, numbers, n)->Ok_0.len(),
    ensures
        ({
            let c = channels_to(sheet, numbers, n)->Ok_0[i];
            let row = channel_rows(sheet, n)[i];
            let x = numbers[row - 2];
            &&& 2 <= row <= n
            &&& c.physical_channel == shown(sheet, row, 1)
            &&& c.color == cell_color(code(sheet, row, 2))
            &&& x.gain matches Some(d) ==> c.gain == d
            &&& x.gain is None ==> c.gain.bits == 0x3FF0_0000_0000_0000
            &&& x.offset matches Some(d) ==> c.offset == d
            &&& x.offset is None ==> c.offset.bits == 0
            &&& gives_order(sheet) && shown(sheet, row, 5).len() > 0 ==> c.order is Some
                && read_int(shown(sheet, row, 5), 0, u32::MAX as int) == Ok::<int, IntFault>(
                c.order->Some_0 as int,
            )
            &&& !gives_order(sheet) || shown(sheet, row, 5).len() == 0 ==> c.order is None
            &&& c.range_max == if gives_range(sheet) {
                x.range_max
            } else {
                None
            }
            &&& c.range_min == if gives_range(sheet) && sheet.max_col >= 7 {
                x.range_min
            } else {
                None
            }
            &&& name_volts(shown(sheet, row, 2)).len() == 0 && x.millivolts@.len() == 0
                ==> c.name == softened(shown(sheet, row, 2))
        }),
{
    law_channels_are_sound(sheet, numbers, n);
    let rows = channel_rows(sheet, n);
    let row = rows[i];
    lemma_row_bounds(sheet, n, i);
    let c = channels_to(sheet, numbers, n)->Ok_0[i];
    assert(channel_of(sheet, row, numbers[row - 2]) == Ok::<_, ConfigError<Seq<char>>>(Some(c)));
    if gives_order(sheet) && shown(sheet, row, 5).len() > 0 {
        lemma_read_range(shown(sheet, row, 5));
    }
}

/// Whether the numbers of the rows are what their cells come to, where `value`
/// says what a cell comes to.
pub open spec fn worked_out(
    sheet: Sheet,
    says: Seq<RowExpressions>,
    value: spec_fn(NumericCell<Seq<char>>) -> Option<Double>,
    numbers: Seq<RowNumbers>,
) -> bool {
    &&& says.len() == numbers.len()
    &&& forall|k: int|
        0 <= k < numbers.len() ==> {
            &&& says_cells(sheet, k + 2, says[k])
            &&& (#[trigger] numbers[k]).gain == value(says[k].gain@)
            &&& numbers[k].offset == value(says[k].offset@)
            &&& numbers[k].range_max == value(says[k].range_max@)
            &&& numbers[k].range_min == value(says[k].range_min@)
        }
}

/// What a cell with a text comes to, or `other` where it says nothing.
pub open spec fn cell_value_or(
    text: Seq<char>,
    value: spec_fn(NumericCell<Seq<char>>) -> Option<Double>,
    other: u64,
) -> u64 {
    match value(numeric_cell(text)) {
        Some(d) => d.bits,
        None => other,
    }
}

/// Whatever the cells come to, the gain of a channel is what the third cell of
/// its row comes to, or one where that says nothing, its offset what the
/// fourth comes to, or zero, and its range what the sixth and the seventh come
/// to.
pub proof fn law_channels_are_scaled_by_their_cells(
    sheet: Sheet,
    says: Seq<RowExpressions>,
    value: spec_fn(NumericCell<Seq<char>>) -> Option<Double>,
    numbers: Seq<RowNumbers>,
    n: int,
    i: int,
)
    requires
        worked_out(sheet, says, value, numbers),
        n <= numbers.len() + 1,
        channels_to(sheet, numbers, n) is Ok,
        0 <= i < channels_to(sheet, numbers, n)->Ok_0.len(),
    ensures
        ({
            let c = channels_to(sheet, numbers, n)->Ok_0[i];
            let row = channel_rows(sheet, n)[i];
            &&& c.gain.bits == cell_value_or(shown(sheet, row, 3), value, 0x3FF0_0000_0000_0000)
            &&& c.offset.bits == cell_value_or(shown(sheet, row, 4), value, 0)
            &&& gives_range(sheet) ==> c.range_max == value(numeric_cell(shown(sheet, row, 6)))
            &&& gives_range(sheet) && sheet.max_col >= 7 ==> c.range_min == value(
                numeric_cell(shown(sheet, row, 7)),
            )
        }),
{
    law_channels_are_what_their_rows_say(sheet, numbers, n, i);
    let row = channel_rows(sheet, n)[i];
    let x = numbers[row - 2];
}

proof fn lemma_read_range(s: Seq<char>)
    ensures
        read_int(s, 0, u32::MAX as int) matches Ok(n) ==> 0 <= n <= u32::MAX,
{
    lemma_read_int_range(s, 0, u32::MAX as int);
}

proof fn lemma_row_bounds(sheet: Sheet, n: int, i: int)
    requires
        0 <= i < channel_rows(sheet, n).len(),
    ensures
        2 <= channel_rows(sheet, n)[i] <= n,
    decreases n,
{
    if n >= 2 {
        let before = channel_rows(sheet, n - 1);
        if i < before.len() {
            lemma_row_bounds(sheet, n - 1, i);
        }
    }
}

/// The rows that give a channel are exactly those in which both the place and
/// the name are given.
pub proof fn law_rows_with_place_and_name_give_channels(sheet: Sheet, n: int, row: int)
    requires
        2 <= row <= n,
    ensures
        channel_rows(sheet, n).contains(row) <==> shown(sheet, row, 1).len() > 0 && shown(
            sheet,
            row,
            2,
        ).len() > 0,
    decreases n,
{
    let now = channel_rows(sheet, n);
    let before = channel_rows(sheet, n - 1);
    if row < n {
        law_rows_with_place_and_name_give_channels(sheet, n - 1, row);
        if before.contains(row) {
            let k = choose|k: int| 0 <= k < before.len() && before[k] == row;
            assert(now[k] == row);
        }
        if now.contains(row) {
            let k = choose|k: int| 0 <= k < now.len() && now[k] == row;
            assert(before[k] == row);
        }
    } else {
        if shown(sheet, row, 1).len() > 0 && shown(sheet, row, 2).len() > 0 {
            assert(now.last() == row);
        } else if now.contains(row) {
            let k = choose|k: int| 0 <= k < now.len() && now[k] == row;
            lemma_row_bounds(sheet, n - 1, k);
        }
    }
}

/// A row cannot be read where its gain is zero, its place in the order is no
/// number, or its name holds what it may not: the first of these is what is
/// said, with the row.
pub proof fn law_rows_that_cannot_be_read_say_why(sheet: Sheet, row: int, x: RowNumbers)
    requires
        0 <= row <= u32::MAX,
        shown(sheet, row, 1).len() > 0,
        shown(sheet, row, 2).len() > 0,
    ensures
        ({
            let r = channel_of(sheet, row, x);
            let zero = x.gain matches Some(d) && (d.bits == 0 || d.bits == 0x8000_0000_0000_0000);
            let bad_order = gives_order(sheet) && shown(sheet, row, 5).len() > 0 && read_int(
                shown(sheet, row, 5),
                0,
                u32::MAX as int,
            ) is Err;
            let name = converted_name(sheet, row, x.millivolts@);
            &&& zero ==> r == Err::<Option<ChannelConfig<Seq<char>>>, _>(
                ConfigError::ZeroGain { name: shown(sheet, row, 2), row: row as u32 },
            )
            &&& !zero && bad_order ==> r == Err::<Option<ChannelConfig<Seq<char>>>, _>(
                ConfigError::Order { text: shown(sheet, row, 5), row: row as u32 },
            )
            &&& !zero && !bad_order ==> (r is Err <==> first_illegal(softened(name), 0) is Some)
            &&& !zero && !bad_order && r is Err ==> r->Err_0 is IllegalName
                && r->Err_0->IllegalName_name == name
        }),
{
}

/// A column is one of places in the order where its title speaks of an order
/// in letters of either case; one of ranges where it speaks of a range or a
/// maximum.
pub proof fn law_columns_are_known_by_their_titles(sheet: Sheet)
    ensures
        gives_order(sheet) <==> sheet.max_col >= 5 && occurs(lowered(shown(sheet, 1, 5)), "order"@),
        gives_range(sheet) <==> sheet.max_col >= 6 && (occurs(
            lowered(shown(sheet, 1, 6)),
            "range"@,
        ) || occurs(lowered(shown(sheet, 1, 6)), "max"@)),
{
}

// ---------------------------------------------------------------------------
// Power pairs
// ---------------------------------------------------------------------------

/// Each row of the second sheet that gives an index or a current is a power
/// pair: the index in the first cell, the current channel in the second, the
/// voltage channel in the third. A row whose index is no number stops the
/// reading, and says which row and what it holds.
pub proof fn law_pairs_are_what_their_rows_say(sheet: Sheet, n: int)
    requires
        2 <= n <= u32::MAX,
        pairs_to(sheet, n - 1) is Ok,
    ensures
        ({
            let before = pairs_to(sheet, n - 1)->Ok_0;
            let now = pairs_to(sheet, n);
            let given = shown(sheet, n, 1).len() > 0 || shown(sheet, n, 2).len() > 0;
            &&& !given ==> now == Ok::<Seq<PowerPair<Seq<char>>>, ConfigError<Seq<char>>>(before)
            &&& given ==> match read_int(shown(sheet, n, 1), 0, u32::MAX as int) {
                Err(_) => now == Err::<Seq<PowerPair<Seq<char>>>, ConfigError<Seq<char>>>(
                    ConfigError::PairIndex { text: shown(sheet, n, 1), row: n as u32 },
                ),
                Ok(k) => {
                    &&& now is Ok
                    &&& now->Ok_0.len() == before.len() + 1
                    &&& now->Ok_0.drop_last() == before
                    &&& now->Ok_0.last().index == k
                    &&& now->Ok_0.last().current_channel == shown(sheet, n, 2)
                    &&& now->Ok_0.last().voltage_channel == shown(sheet, n, 3)
                },
            }
        }),
{
    lemma_read_range(shown(sheet, n, 1));
    let before = pairs_to(sheet, n - 1)->Ok_0;
    let now = pairs_to(sheet, n);
    if now is Ok && now->Ok_0.len() == before.len() + 1 {
        assert(now->Ok_0.drop_last() =~= before);
    }
}

/// A configuration is the channels of its first sheet with the pairs of its
/// second: without the first there is none, without the second there are no
/// pairs, and a pair that cannot be read is said before a channel that cannot.
pub proof fn law_a_configuration_is_its_two_sheets(
    channel_sheet: Option<Sheet>,
    numbers: Seq<RowNumbers>,
    pair_sheet: Option<Sheet>,
)
    ensures
        ({
            let r = config_of(channel_sheet, numbers, pair_sheet);
            let pairs = pairs_to(pair_sheet->Some_0, pair_sheet->Some_0.rows@.len() as int);
            let channels = channels_to(
                channel_sheet->Some_0,
                numbers,
                channel_sheet->Some_0.rows@.len() as int,
            );
            &&& pair_sheet is Some && pairs is Err ==> r is Err && r->Err_0 == pairs->Err_0
            &&& (pair_sheet is None || pairs is Ok) && channel_sheet is None ==> r is Err
                && r->Err_0 is NoChannelSheet
            &&& (pair_sheet is None || pairs is Ok) && channel_sheet is Some ==> match channels {
                Err(e) => r is Err && r->Err_0 == e,
                Ok(c) => {
                    &&& r is Ok
                    &&& r->Ok_0.0 == c
                    &&& pair_sheet is Some ==> r->Ok_0.1 == pairs->Ok_0
                    &&& pair_sheet is None ==> r->Ok_0.1.len() == 0
                },
            }
        }),
{
}

// ---------------------------------------------------------------------------
// Names
// ---------------------------------------------------------------------------

/// What stands at a place of a name that was made legal: a semicolon for a
/// comma, an underscore for a slash of either kind, and anything else as it
/// was; no character is dropped or added.
pub proof fn law_names_are_softened_in_place(name: Seq<char>, i: int)
    requires
        0 <= i < name.len(),
    ensures
        softened(name).len() == name.len(),
        softened(name)[i] == if name[i] == ',' {
            ';'
        } else if name[i] == '/' || name[i] == '\\' {
            '_'
        } else {
            name[i]
        },
{
    let a = replaced(name, ',', seq![';']);
    let b = replaced(a, '/', seq!['_']);
    lemma_replaced_in_place(name, ',', ';');
    lemma_replaced_in_place(a, '/', '_');
    lemma_replaced_in_place(b, '\\', '_');
    assert(a[i] == if name[i] == ',' { ';' } else { name[i] });
    assert(b[i] == if a[i] == '/' { '_' } else { a[i] });
}

proof fn lemma_replaced_in_place(s: Seq<char>, from: char, to: char)
    ensures
        replaced(s, from, seq![to]).len() == s.len(),
        forall|i: int|
            0 <= i < s.len() ==> #[trigger] replaced(s, from, seq![to])[i] == if s[i] == from {
                to
            } else {
                s[i]
            },
    decreases s.len(),
{
    if s.len() > 0 {
        let init = s.drop_last();
        lemma_replaced_in_place(init, from, to);
        let r = replaced(s, from, seq![to]);
        let q = replaced(init, from, seq![to]);
        assert forall|i: int| 0 <= i < s.len() implies #[trigger] r[i] == if s[i] == from {
            to
        } else {
            s[i]
        } by {
            if i < init.len() {
                assert(r[i] == q[i]);
                assert(init[i] == s[i]);
            }
        }
    }
}

/// The characters that no name of a channel may hold.
pub open spec fn forbidden() -> Seq<char> {
    seq!['%', '*', '[', ']', ':', '<', '>', '?', '|', '"', '/', '\\', ',', '.']
}

/// A name is refused exactly where it holds one of the forbidden characters,
/// and the first of them is named.
pub proof fn law_forbidden_characters_are_found(s: Seq<char>, c: char, i: int)
    requires
        0 <= i <= s.len(),
        forall|k: int| 0 <= k < i ==> !forbidden().contains(#[trigger] s[k]),
    ensures
        illegal(c) <==> forbidden().contains(c),
        i == s.len() ==> first_illegal(s, 0) is None,
        i < s.len() && forbidden().contains(s[i]) ==> first_illegal(s, 0) == Some(s[i]),
{
    lemma_forbidden(c);
    if i < s.len() {
        lemma_forbidden(s[i]);
    }
    lemma_first_illegal(s, 0, i);
}

proof fn lemma_forbidden(c: char)
    ensures
        illegal(c) <==> forbidden().contains(c),
{
    let f = forbidden();
    assert(f[0] == '%' && f[1] == '*' && f[2] == '[' && f[3] == ']' && f[4] == ':' && f[5] == '<'
        && f[6] == '>' && f[7] == '?' && f[8] == '|' && f[9] == '"' && f[10] == '/' && f[11]
        == '\\' && f[12] == ',' && f[13] == '.');
}

proof fn lemma_first_illegal(s: Seq<char>, from: int, i: int)
    requires
        0 <= from <= i <= s.len(),
        forall|k: int| from <= k < i ==> !forbidden().contains(#[trigger] s[k]),
    ensures
        first_illegal(s, from) == first_illegal(s, i),
    decreases i - from,
{
    if from < i {
        assert(!forbidden().contains(s[from]));
        lemma_forbidden(s[from]);
        lemma_first_illegal(s, from + 1, i);
    }
}

/// A part of a name is a voltage exactly where it is a literal with a point,
/// and a letter for volts of either case behind it.
pub proof fn law_voltages_are_literals_with_a_point(literal: Seq<char>, c: char)
    ensures
        volts_of(literal.push(c)) == if (c == 'V' || c == 'v') && literal.contains('.')
            && literal.len() > 0 && float_literal(literal) {
            Some(literal)
        } else {
            None
        },
        volts_of(Seq::empty()) is None,
{
    assert(literal.push(c).drop_last() =~= literal);
}

} // verus!
