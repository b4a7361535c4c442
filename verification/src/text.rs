//! Text shown next to an image: numbers in decimal and the tooltip that
//! describes the pixel under the mouse.
use vstd::prelude::*;

verus! {

/// The character of a decimal digit.
pub open spec fn digit_char(d: nat) -> char {
    if d == 0 {
        '0'
    } else if d == 1 {
        '1'
    } else if d == 2 {
        '2'
    } else if d == 3 {
        '3'
    } else if d == 4 {
        '4'
    } else if d == 5 {
        '5'
    } else if d == 6 {
        '6'
    } else if d == 7 {
        '7'
    } else if d == 8 {
        '8'
    } else {
        '9'
    }
}

/// `n` written in decimal, without leading zeros.
pub open spec fn decimal(n: nat) -> Seq<char>
    decreases n,
{
    if n < 10 {
        seq![digit_char(n)]
    } else {
        decimal(n / 10).push(digit_char(n % 10))
    }
}

/// The one-character text of the digit `d`.
fn digit_str(d: usize) -> (s: &'static str)
    requires
        d < 10,
    ensures
        s@ == seq![digit_char(d as nat)],
{
    proof {
        reveal_strlit("0");
        reveal_strlit("1");
        reveal_strlit("2");
        reveal_strlit("3");
        reveal_strlit("4");
        reveal_strlit("5");
        reveal_strlit("6");
        reveal_strlit("7");
        reveal_strlit("8");
        reveal_strlit("9");
    }
    if d == 0 {
        "0"
    } else if d == 1 {
        "1"
    } else if d == 2 {
        "2"
    } else if d == 3 {
        "3"
    } else if d == 4 {
        "4"
    } else if d == 5 {
        "5"
    } else if d == 6 {
        "6"
    } else if d == 7 {
        "7"
    } else if d == 8 {
        "8"
    } else {
        "9"
    }
}

/// Appends `n` in decimal to `out`.
pub fn push_decimal(out: &mut String, n: usize)
    ensures
        final(out)@ == old(out)@ + decimal(n as nat),
    decreases n,
{
    if n >= 10 {
        push_decimal(out, n / 10);
    }
    out.append(digit_str(n % 10));
    proof {
        if n >= 10 {
            assert(decimal(n as nat) == decimal((n / 10) as nat).push(digit_char((n % 10) as nat)));
        }
    }
    assert(final(out)@ =~= old(out)@ + decimal(n as nat));
}

/// A value with its unit, as the tooltip shows it. `v` is the value already
/// written with two decimals; `unit` may be empty.
pub struct Measurement<'a> {
    pub v: String,
    pub unit: &'a str,
}

/// A measurement's text: the value, then a space and the unit where there is
/// one.
pub open spec fn measurement_text(m: Measurement<'_>) -> Seq<char> {
    if m.unit@.len() == 0 {
        m.v@
    } else {
        m.v@ + " "@ + m.unit@
    }
}

/// The text of one coordinate: its measurement where there is one, else the
/// pixel index in decimal.
pub open spec fn coordinate_text(pixel: usize, m: Option<Measurement<'_>>) -> Seq<char> {
    match m {
        Some(m) => measurement_text(m),
        None => decimal(pixel as nat),
    }
}

/// The tooltip of the pixel at `(x_p, y_p)`: its coordinates, measured where
/// a measurement is given, then on a second line its value. Where a
/// coordinate is measured, the pixel indices are added after the coordinates.
pub open spec fn tooltip_text(
    x_p: usize,
    y_p: usize,
    x: Option<Measurement<'_>>,
    y: Option<Measurement<'_>>,
    val: Measurement<'_>,
) -> Seq<char> {
    let xy_str = "(X, Y): ("@ + coordinate_text(x_p, x) + ", "@ + coordinate_text(y_p, y) + ")"@;
    let val_str = "VAL:    "@ + measurement_text(val);
    if x is Some || y is Some {
        xy_str + " [at point ("@ + decimal(x_p as nat) + ", "@ + decimal(y_p as nat) + ")]\n"@
            + val_str
    } else {
        xy_str + "\n"@ + val_str
    }
}

/// Appends a measurement's text to `out`.
pub(crate) fn push_measurement(out: &mut String, m: &Measurement<'_>)
    ensures
        final(out)@ == old(out)@ + measurement_text(*m),
{
    if m.unit.is_empty() {
        out.append(m.v.as_str());
        assert(final(out)@ =~= old(out)@ + measurement_text(*m));
    } else {
        out.append(m.v.as_str());
        out.append(" ");
        out.append(m.unit);
        assert(final(out)@ =~= old(out)@ + measurement_text(*m));
    }
}

/// Appends a coordinate's text to `out`.
pub(crate) fn push_coordinate(out: &mut String, pixel: usize, m: &Option<Measurement<'_>>)
    ensures
        final(out)@ == old(out)@ + coordinate_text(pixel, *m),
{
    match m {
        Some(m) => push_measurement(out, m),
        None => push_decimal(out, pixel),
    }
}


/// The number that a string of decimal digits stands for, read from the
/// left: each character counts as its distance from `'0'`.
pub open spec fn numeral_value(s: Seq<char>) -> int
    decreases s.len(),
{
    if s.len() == 0 {
        0
    } else {
        numeral_value(s.drop_last()) * 10 + ((s.last() as int) - ('0' as int))
    }
}

/// Each digit's character is `'0'` moved on by the digit.
pub proof fn lemma_digit_char_is_ascii_digit(d: nat)
    requires
        d < 10,
    ensures
        (digit_char(d) as int) == ('0' as int) + d,
{
}

/// `decimal(n)` is the base-10 numeral of `n`: it is made of the
/// characters `'0'` to `'9'` only, it has no leading zero, and read back as
/// base-10 digits it gives `n`.
pub proof fn lemma_decimal_reads_back(n: nat)
    ensures
        numeral_value(decimal(n)) == n,
        decimal(n).len() >= 1,
        forall|i: int|
            0 <= i < decimal(n).len() ==> ('0' as int) <= (#[trigger] decimal(n)[i] as int) <= ('9' as int),
        n >= 10 ==> decimal(n)[0] != '0',
    decreases n,
{
    if n < 10 {
        lemma_digit_char_is_ascii_digit(n);
        assert(decimal(n) == seq![digit_char(n)]);
        assert(decimal(n).drop_last() =~= Seq::<char>::empty());
        assert(numeral_value(Seq::<char>::empty()) == 0);
        assert(numeral_value(decimal(n)) == numeral_value(decimal(n).drop_last()) * 10 + ((
        decimal(n).last() as int) - ('0' as int)));
    } else {
        let q = n / 10;
        let r = n % 10;
        lemma_decimal_reads_back(q);
        lemma_digit_char_is_ascii_digit(r);
        let s = decimal(n);
        assert(s == decimal(q).push(digit_char(r)));
        assert(s.drop_last() =~= decimal(q));
        assert(s.last() == digit_char(r));
        assert(n == q * 10 + r);
        assert(numeral_value(s) == numeral_value(s.drop_last()) * 10 + ((s.last() as int) - (
        '0' as int)));
        assert forall|i: int| 0 <= i < s.len() implies ('0' as int) <= (#[trigger] s[i] as int) <= ('9' as int) by {
            if i < s.len() - 1 {
                assert(s[i] == decimal(q)[i]);
            }
        }
        assert(s[0] == decimal(q)[0]);
        if q < 10 {
            assert(decimal(q) == seq![digit_char(q)]);
            lemma_digit_char_is_ascii_digit(q);
        }
    }
}

/// A tooltip that measures neither coordinate gives the pixel indices in
/// decimal, then on the next line the value.
pub proof fn lemma_tooltip_unmeasured(
    x_p: usize,
    y_p: usize,
    val: Measurement<'_>,
)
    ensures
        tooltip_text(x_p, y_p, None, None, val) == "(X, Y): ("@ + decimal(x_p as nat) + ", "@ + decimal(
            y_p as nat,
        ) + ")"@ + "\n"@ + "VAL:    "@ + measurement_text(val),
{
}

/// Whenever either coordinate is measured, whichever it is, the tooltip's
/// first line ends by citing the pixel indices in decimal, and the value
/// follows on the next line.
pub proof fn lemma_tooltip_cites_point(
    x_p: usize,
    y_p: usize,
    x: Option<Measurement<'_>>,
    y: Option<Measurement<'_>>,
    val: Measurement<'_>,
)
    requires
        x is Some || y is Some,
    ensures
        exists|head: Seq<char>|
            tooltip_text(x_p, y_p, x, y, val) == head + " [at point ("@ + decimal(x_p as nat) + ", "@
                + decimal(y_p as nat) + ")]\n"@ + "VAL:    "@ + measurement_text(val),
{
    let head = "(X, Y): ("@ + coordinate_text(x_p, x) + ", "@ + coordinate_text(y_p, y) + ")"@;
    assert(tooltip_text(x_p, y_p, x, y, val) =~= head + " [at point ("@ + decimal(x_p as nat) + ", "@
        + decimal(y_p as nat) + ")]\n"@ + "VAL:    "@ + measurement_text(val));
}


/// A measurement without a unit is shown as its value alone; one with a
/// unit as the value, one space and the unit.
pub proof fn lemma_measurement_shown(m: Measurement<'_>)
    ensures
        m.unit@.len() == 0 ==> measurement_text(m) == m.v@,
        m.unit@.len() > 0 ==> measurement_text(m) == m.v@ + seq![' '] + m.unit@,
{
    reveal_strlit(" ");
}

} // verus!
