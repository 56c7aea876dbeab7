use vstd::prelude::*;
use vstd::string::*;
use crate::stats::{Rate, TransferStats, rate_div};
use crate::units::{MemUnit, scaled, unit_name, scale_amount};

verus! {

/// The column at which every value of a report starts.
pub const LABEL_WIDTH: usize = 24;

/// The ASCII digit for `d`.
pub open spec fn digit(d: nat) -> u8 {
    (48 + d % 10) as u8
}

/// The decimal digits of `n`, most significant first, without leading zeros.
pub open spec fn decimal(n: nat) -> Seq<u8>
    decreases n,
{
    if n < 10 {
        seq![digit(n)]
    } else {
        decimal(n / 10).push(digit(n % 10))
    }
}

/// A count of thousandths `t` written with three decimals: `4883` is `4.883`.
pub open spec fn fixed3(t: nat) -> Seq<u8> {
    decimal(t / 1000) + seq![46u8, digit(t / 100), digit(t / 10), digit(t)]
}

/// `n` spaces.
pub open spec fn spaces(n: nat) -> Seq<u8> {
    Seq::new(n, |i: int| 32u8)
}

/// `text` padded on the right with spaces to `columns` bytes, or unchanged
/// when it is that long already.
pub open spec fn fixed_width(text: Seq<u8>, columns: nat) -> Seq<u8> {
    if text.len() < columns {
        text + spaces((columns - text.len()) as nat)
    } else {
        text
    }
}

/// The terminal sequence that clears the rest of the line, then a line break.
pub open spec fn clear_line_text() -> Seq<u8> {
    seq![27u8, 91u8, 75u8, 10u8]
}

/// The terminal sequence that moves the cursor up `lines` lines.
pub open spec fn move_up_text(lines: nat) -> Seq<u8> {
    seq![27u8, 91u8] + decimal(lines) + seq![65u8]
}

/// An amount of `milli` thousandths of a byte as shown: value, space, unit.
pub open spec fn amount_text(milli: nat) -> Seq<u8> {
    fixed3(scaled(milli).0) + seq![32u8] + unit_name(scaled(milli).1)
}

/// A rate as shown, followed by `/sec`. An unbounded rate reads `inf` in
/// terabytes, an undefined one `NaN` in bytes.
pub open spec fn rate_text(r: Rate) -> Seq<u8> {
    let shown = match r {
        Rate::Finite(m) => amount_text(m as nat),
        Rate::Unbounded => "inf TB".spec_bytes(),
        Rate::Undefined => "NaN Bytes".spec_bytes(),
    };
    shown + "/sec".spec_bytes()
}

/// The first line of a report: all data transferred, and the number of
/// intervals measured.
pub open spec fn total_line(s: TransferStats) -> Seq<u8> {
    fixed_width("Data Transferred:".spec_bytes(), 24) + amount_text(s.total_bytes as nat * 1000)
        + " (".spec_bytes() + decimal(s.total_measures as nat) + " cycles)".spec_bytes()
        + clear_line_text()
}

/// The second line of a report: the rate of the last interval.
pub open spec fn speed_line(s: TransferStats) -> Seq<u8> {
    fixed_width("Transfer Speed:".spec_bytes(), 24) + rate_text(s.last_rate) + clear_line_text()
}

/// The third line of a report: the mean rate over all intervals.
pub open spec fn average_line(s: TransferStats) -> Seq<u8> {
    fixed_width("Average Transfer Speed:".spec_bytes(), 24) + rate_text(
        rate_div(s.total_rate_accum, s.total_measures as nat),
    ) + clear_line_text()
}

/// The three lines that report `s`, preceded, from the second report on, by a
/// move of the cursor over the previous three.
pub open spec fn report_text(s: TransferStats) -> Seq<u8>
    recommends
        s.total_measures > 0,
{
    let head = if s.total_measures > 1 {
        move_up_text(3)
    } else {
        Seq::empty()
    };
    head + total_line(s) + speed_line(s) + average_line(s)
}

/// Appends `text`.
fn push_str(out: &mut Vec<u8>, text: &str)
    ensures
        final(out)@ == old(out)@ + text.spec_bytes(),
{
    let bytes = text.as_bytes();
    let mut i: usize = 0;
    while i < bytes.len()
        invariant
            bytes@ == text.spec_bytes(),
            i <= bytes@.len(),
            out@ == old(out)@ + bytes@.subrange(0, i as int),
        decreases bytes@.len() - i,
    {
        out.push(bytes[i]);
        i = i + 1;
        assert(out@ =~= old(out)@ + bytes@.subrange(0, i as int));
    }
    assert(bytes@.subrange(0, i as int) =~= bytes@);
}

/// Appends the decimal digits of `n`.
pub fn push_decimal(out: &mut Vec<u8>, n: u128)
    ensures
        final(out)@ == old(out)@ + decimal(n as nat),
    decreases n,
{
    if n >= 10 {
        push_decimal(out, n / 10);
    }
    out.push(48 + (n % 10) as u8);
    assert(out@ =~= old(out)@ + decimal(n as nat));
}

/// Appends a count of thousandths `t` with three decimals.
pub fn push_fixed3(out: &mut Vec<u8>, t: u128)
    ensures
        final(out)@ == old(out)@ + fixed3(t as nat),
{
    push_decimal(out, t / 1000);
    out.push(46);
    out.push(48 + (t / 100 % 10) as u8);
    out.push(48 + (t / 10 % 10) as u8);
    out.push(48 + (t % 10) as u8);
    assert(out@ =~= old(out)@ + fixed3(t as nat));
}

/// Writes `text`, then spaces up to `columns` bytes in all.
pub fn print_fixed_width(out: &mut Vec<u8>, text: &str, columns: usize)
    ensures
        final(out)@ == old(out)@ + fixed_width(text.spec_bytes(), columns as nat),
{
    let len = text.as_bytes().len();
    push_str(out, text);
    let ghost written = out@;
    if len < columns {
        let remaining = columns - len;
        let mut i: usize = 0;
        while i < remaining
            invariant
                i <= remaining,
                out@ == written + spaces(i as nat),
            decreases remaining - i,
        {
            out.push(32);
            i = i + 1;
            assert(out@ =~= written + spaces(i as nat));
        }
        assert(out@ =~= old(out)@ + (text.spec_bytes() + spaces(remaining as nat)));
    }
}

/// Clears to the end of the current line and ends it.
pub fn term_clear_line(out: &mut Vec<u8>)
    ensures
        final(out)@ == old(out)@ + clear_line_text(),
{
    out.push(27);
    out.push(91);
    out.push(75);
    out.push(10);
    assert(out@ =~= old(out)@ + clear_line_text());
}

/// Moves the cursor up `lines` lines.
pub fn term_move_up(out: &mut Vec<u8>, lines: usize)
    ensures
        final(out)@ == old(out)@ + move_up_text(lines as nat),
{
    out.push(27);
    out.push(91);
    push_decimal(out, lines as u128);
    out.push(65);
    assert(out@ =~= old(out)@ + move_up_text(lines as nat));
}

/// Writes an amount of `milli` thousandths of a byte in its unit.
pub fn print_amount(out: &mut Vec<u8>, milli: u128)
    ensures
        final(out)@ == old(out)@ + amount_text(milli as nat),
{
    let (value, unit) = scale_amount(milli);
    push_fixed3(out, value);
    out.push(32);
    push_str(out, unit.name());
    assert(out@ =~= old(out)@ + amount_text(milli as nat));
}

/// Writes a rate in its unit, followed by `/sec`.
pub fn print_rate(out: &mut Vec<u8>, r: Rate)
    ensures
        final(out)@ == old(out)@ + rate_text(r),
{
    match r {
        Rate::Finite(m) => print_amount(out, m),
        Rate::Unbounded => push_str(out, "inf TB"),
        Rate::Undefined => push_str(out, "NaN Bytes"),
    }
    push_str(out, "/sec");
    assert(out@ =~= old(out)@ + rate_text(r));
}

fn print_total_line(out: &mut Vec<u8>, stats: &TransferStats)
    ensures
        final(out)@ == old(out)@ + total_line(*stats),
{
    print_fixed_width(out, "Data Transferred:", LABEL_WIDTH);
    print_amount(out, stats.total_bytes as u128 * 1000);
    push_str(out, " (");
    push_decimal(out, stats.total_measures as u128);
    push_str(out, " cycles)");
    term_clear_line(out);
    assert(out@ =~= old(out)@ + total_line(*stats));
}

fn print_speed_line(out: &mut Vec<u8>, stats: &TransferStats)
    ensures
        final(out)@ == old(out)@ + speed_line(*stats),
{
    print_fixed_width(out, "Transfer Speed:", LABEL_WIDTH);
    print_rate(out, stats.last_rate);
    term_clear_line(out);
    assert(out@ =~= old(out)@ + speed_line(*stats));
}

fn print_average_line(out: &mut Vec<u8>, stats: &TransferStats)
    requires
        stats.total_measures > 0,
    ensures
        final(out)@ == old(out)@ + average_line(*stats),
{
    print_fixed_width(out, "Average Transfer Speed:", LABEL_WIDTH);
    print_rate(out, stats.average_rate());
    term_clear_line(out);
    assert(out@ =~= old(out)@ + average_line(*stats));
}

/// Writes the report of `stats`: total data, the last interval's rate and the
/// mean rate, each on a line of its own; from the second report on, the cursor
/// first moves up so that the new lines replace the previous ones.
pub fn print_info(out: &mut Vec<u8>, stats: &TransferStats)
    requires
        stats.total_measures > 0,
    ensures
        final(out)@ == old(out)@ + report_text(*stats),
{
    let ghost start = out@;
    if stats.total_measures > 1 {
        term_move_up(out, 3);
    }
    let ghost headed = out@;
    print_total_line(out, stats);
    print_speed_line(out, stats);
    print_average_line(out, stats);
    assert(out@ =~= headed + total_line(*stats) + speed_line(*stats) + average_line(*stats));
    assert(out@ =~= start + report_text(*stats));
}

} // verus!
