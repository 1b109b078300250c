//! The text exposition format, stated over sequences of characters.
//!
//! A metric is published as a block of three lines: its help text, its
//! type, and one sample line that carries a label, the value and the time
//! of the reading in milliseconds since the Unix epoch.

use vstd::prelude::*;

verus! {

/// The kinds of metric that the exposition format knows.
#[derive(Clone, Copy, Debug, PartialEq, Eq)]
pub enum MetricKind {
    Counter,
    Gauge,
    Histogram,
    Summary,
}

impl MetricKind {
    /// The word that stands for the kind in a type line.
    pub open spec fn text(self) -> Seq<char> {
        match self {
            MetricKind::Counter => "counter"@,
            MetricKind::Gauge => "gauge"@,
            MetricKind::Histogram => "histogram"@,
            MetricKind::Summary => "summary"@,
        }
    }
}

/// What one sample says: a named, described number of some kind, read on
/// the instance that the label value tells.
pub struct MetricSample {
    pub name: Seq<char>,
    pub value: int,
    pub description: Seq<char>,
    pub kind: MetricKind,
    pub instance: Seq<char>,
}

/// The key of the one label that every sample carries.
pub const INSTANCE_LABEL: &'static str = "instance";

/// The character of a single decimal digit.
pub open spec fn digit(d: nat) -> char {
    if d == 0 {
        '0'
    } else if d == 1 {
        '1'
    } else if d == 2 {
        '2'
    } else if d == 3 {
        '3'
    } else if d == 4 {
        '4'
    } else if d == 5 {
        '5'
    } else if d == 6 {
        '6'
    } else if d == 7 {
        '7'
    } else if d == 8 {
        '8'
    } else {
        '9'
    }
}

/// A natural number in decimal, without leading zeros.
pub open spec fn decimal_digits(n: nat) -> Seq<char>
    decreases n,
{
    if n < 10 {
        seq![digit(n)]
    } else {
        decimal_digits(n / 10).push(digit(n % 10))
    }
}

/// The number that a decimal digit stands for; zero for any other
/// character.
pub open spec fn digit_value(c: char) -> nat {
    if c == '1' {
        1
    } else if c == '2' {
        2
    } else if c == '3' {
        3
    } else if c == '4' {
        4
    } else if c == '5' {
        5
    } else if c == '6' {
        6
    } else if c == '7' {
        7
    } else if c == '8' {
        8
    } else if c == '9' {
        9
    } else {
        0
    }
}

/// Whether the character is a decimal digit.
pub open spec fn is_digit(c: char) -> bool {
    c == '0' || digit_value(c) > 0
}

/// The number that a row of decimal digits stands for.
pub open spec fn digits_value(digits: Seq<char>) -> nat
    decreases digits.len(),
{
    if digits.len() == 0 {
        0
    } else {
        digits_value(digits.drop_last()) * 10 + digit_value(digits.last())
    }
}

/// An integer in decimal, with a minus sign in front of a negative one.
pub open spec fn decimal(i: int) -> Seq<char> {
    if i < 0 {
        seq!['-'] + decimal_digits((-i) as nat)
    } else {
        decimal_digits(i as nat)
    }
}

/// The integer that a decimal text stands for: the number of its digits,
/// taken below zero where a minus sign leads.
pub open spec fn decimal_value(text: Seq<char>) -> int {
    if text.len() > 0 && text[0] == '-' {
        -(digits_value(text.skip(1)) as int)
    } else {
        digits_value(text) as int
    }
}

/// The two lines that open a block: the help text and the type.
pub open spec fn block_header(name: Seq<char>, kind: MetricKind, help: Seq<char>) -> Seq<char> {
    "# HELP "@ + name + " "@ + help + "\n# TYPE "@ + name + " "@ + kind.text() + "\n"@
}

/// A sample line up to and including the blank before the timestamp: the
/// metric's name, one label in braces, and the value.
pub open spec fn sample_head(
    name: Seq<char>,
    label: Seq<char>,
    label_value: Seq<char>,
    value: int,
) -> Seq<char> {
    name + "{"@ + label + "=\""@ + label_value + "\"} "@ + decimal(value) + " "@
}

/// Everything of a block that does not depend on when the value was read.
pub open spec fn block_head(
    name: Seq<char>,
    kind: MetricKind,
    help: Seq<char>,
    label: Seq<char>,
    label_value: Seq<char>,
    value: int,
) -> Seq<char> {
    block_header(name, kind, help) + sample_head(name, label, label_value, value)
}

/// The whole block of a metric with one sample, read at `timestamp`
/// milliseconds since the Unix epoch.
pub open spec fn metric_block(
    name: Seq<char>,
    kind: MetricKind,
    help: Seq<char>,
    label: Seq<char>,
    label_value: Seq<char>,
    value: int,
    timestamp: nat,
) -> Seq<char> {
    block_head(name, kind, help, label, label_value, value) + decimal_digits(timestamp) + "\n"@
}

impl MetricSample {
    /// The part of the sample's block that is the same at every reading.
    pub open spec fn head(self) -> Seq<char> {
        block_head(
            self.name,
            self.kind,
            self.description,
            INSTANCE_LABEL@,
            self.instance,
            self.value,
        )
    }

    /// The block of the sample when read at `timestamp`.
    pub open spec fn block(self, timestamp: nat) -> Seq<char> {
        metric_block(
            self.name,
            self.kind,
            self.description,
            INSTANCE_LABEL@,
            self.instance,
            self.value,
            timestamp,
        )
    }
}

/// The parts in order, with the separator between each two neighbours.
pub open spec fn joined(parts: Seq<Seq<char>>, sep: Seq<char>) -> Seq<char>
    decreases parts.len(),
{
    if parts.len() == 0 {
        Seq::empty()
    } else if parts.len() == 1 {
        parts[0]
    } else {
        joined(parts.drop_last(), sep) + sep + parts.last()
    }
}

/// The text that is made of the heads, each followed by the timestamp at
/// its place and a line feed, with a line feed between each two.
pub open spec fn stamped(heads: Seq<Seq<char>>, timestamps: Seq<nat>) -> Seq<char> {
    joined(
        Seq::new(heads.len(), |i: int| heads[i] + decimal_digits(timestamps[i]) + "\n"@),
        "\n"@,
    )
}

/// The views of the strings, in order.
pub open spec fn texts(parts: Seq<String>) -> Seq<Seq<char>> {
    Seq::new(parts.len(), |i: int| parts[i]@)
}

} // verus!
