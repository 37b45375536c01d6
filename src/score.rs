//! The running score: a signed total and the label shown for it.

use vstd::prelude::*;
use vstd::string::*;
use crate::rendering::{CssColor, CssFont, Pso};

verus! {

/// The character of the decimal digit `d`.
pub open spec fn digit_char(d: int) -> char {
    if d == 0 {
        '0'
    } else if d == 1 {
        '1'
    } else if d == 2 {
        '2'
    } else if d == 3 {
        '3'
    } else if d == 4 {
        '4'
    } else if d == 5 {
        '5'
    } else if d == 6 {
        '6'
    } else if d == 7 {
        '7'
    } else if d == 8 {
        '8'
    } else {
        '9'
    }
}

/// Decimal digits of `n`, most significant first, without leading zeros.
pub open spec fn decimal(n: nat) -> Seq<char>
    decreases n,
{
    if n < 10 {
        seq![digit_char(n as int)]
    } else {
        decimal(n / 10).push(digit_char((n % 10) as int))
    }
}

/// Decimal text of `v`, with a leading '-' when negative.
pub open spec fn signed_decimal(v: int) -> Seq<char> {
    if v < 0 {
        seq!['-'] + decimal((-v) as nat)
    } else {
        decimal(v as nat)
    }
}

/// The label of a score: `"{name}: {value}"`.
pub open spec fn label_text(name: Seq<char>, value: int) -> Seq<char> {
    name + seq![':', ' '] + signed_decimal(value)
}

/// The one-character string of digit `d`.
fn digit_str(d: u64) -> (r: &'static str)
    requires
        d < 10,
    ensures
        r@ == seq![digit_char(d as int)],
{
    proof {
        reveal_strlit("0");
        reveal_strlit("1");
        reveal_strlit("2");
        reveal_strlit("3");
        reveal_strlit("4");
        reveal_strlit("5");
        reveal_strlit("6");
        reveal_strlit("7");
        reveal_strlit("8");
        reveal_strlit("9");
    }
    let r = if d == 0 {
        "0"
    } else if d == 1 {
        "1"
    } else if d == 2 {
        "2"
    } else if d == 3 {
        "3"
    } else if d == 4 {
        "4"
    } else if d == 5 {
        "5"
    } else if d == 6 {
        "6"
    } else if d == 7 {
        "7"
    } else if d == 8 {
        "8"
    } else {
        "9"
    };
    assert(r@ =~= seq![digit_char(d as int)]);
    r
}

/// Append the decimal digits of `n` to `s`.
fn append_decimal(s: &mut String, n: u64)
    ensures
        final(s)@ == old(s)@ + decimal(n as nat),
    decreases n,
{
    if n >= 10 {
        append_decimal(s, n / 10);
    }
    s.append(digit_str(n % 10));
    assert(final(s)@ =~= old(s)@ + decimal(n as nat));
}

/// The label `"{name}: {value}"`.
fn label_of(name: &String, value: i64) -> (r: String)
    ensures
        r@ == label_text(name@, value as int),
{
    let mut s = name.clone();
    proof {
        reveal_strlit(": ");
        reveal_strlit("-");
    }
    s.append(": ");
    if value < 0 {
        s.append("-");
        let m: u64 = (0 - (value as i128)) as u64;
        append_decimal(&mut s, m);
    } else {
        append_decimal(&mut s, value as u64);
    }
    assert(s@ =~= label_text(name@, value as int));
    s
}

/// What a score holds: its total, its name, its label and the two drawing
/// styles (one for a total below zero).
pub struct ScoreView {
    pub value: int,
    pub name: Seq<char>,
    pub label: Seq<char>,
    pub pso: Pso,
    pub bad_pso: Pso,
}

impl ScoreView {
    /// The label matches the name and total, and the total fits in an `i64`.
    pub open spec fn consistent(self) -> bool {
        &&& self.label == label_text(self.name, self.value)
        &&& i64::MIN <= self.value <= i64::MAX
    }

    /// The score after `delta` is added, with its label refreshed.
    pub open spec fn added(self, delta: int) -> ScoreView {
        ScoreView { value: self.value + delta, label: label_text(self.name, self.value + delta), ..self }
    }
}

/// A named score.
pub struct Score {
    pso: Pso,
    bad_pso: Pso,
    value: i64,
    name: String,
    label_buf: String,
}

impl View for Score {
    type V = ScoreView;

    closed spec fn view(&self) -> ScoreView {
        ScoreView {
            value: self.value as int,
            name: self.name@,
            label: self.label_buf@,
            pso: self.pso,
            bad_pso: self.bad_pso,
        }
    }
}

impl Score {
    /// Whether the total can move by `delta` without leaving the range of `i64`.
    pub open spec fn can_add(self, delta: int) -> bool {
        i64::MIN <= self@.value + delta <= i64::MAX
    }

    /// A score of 0 named `name`, drawn in `color`, or in `bad_color` while
    /// below zero, with `font`.
    pub fn new(color: CssColor, bad_color: CssColor, font: CssFont, name: String) -> (r: Score)
        ensures
            r@.value == 0,
            r@.name == name@,
            r@.label == label_text(name@, 0),
            r@.consistent(),
            r@.pso == (Pso { fill_color: Some(color), font: Some(font) }),
            r@.bad_pso == (Pso { fill_color: Some(bad_color), font: Some(font) }),
    {
        let label_buf = label_of(&name, 0);
        Score {
            pso: Pso { fill_color: Some(color), font: Some(font) },
            bad_pso: Pso { fill_color: Some(bad_color), font: Some(font) },
            value: 0,
            name,
            label_buf,
        }
    }

    /// Add `val` (possibly negative) to the total and refresh the label.
    pub fn add(&mut self, val: i32)
        requires
            old(self).can_add(val as int),
        ensures
            final(self)@ == old(self)@.added(val as int),
            final(self)@.consistent(),
    {
        self.value = self.value + val as i64;
        self.refresh_buffer();
    }

    fn refresh_buffer(&mut self)
        ensures
            final(self)@ == (ScoreView { label: label_text(old(self)@.name, old(self)@.value), ..old(self)@ }),
    {
        self.label_buf = label_of(&self.name, self.value);
    }

    /// The total.
    pub fn value(&self) -> (r: i64)
        ensures
            r == self@.value,
    {
        self.value
    }

    /// The label, `"{name}: {value}"`.
    pub fn label(&self) -> (r: &String)
        ensures
            r@ == self@.label,
    {
        &self.label_buf
    }

    /// The style to draw the label with: the bad one while the total is below
    /// zero, the normal one otherwise.
    pub fn current_pso(&self) -> (r: Pso)
        ensures
            r == (if self@.value < 0 { self@.bad_pso } else { self@.pso }),
    {
        if self.value < 0 {
            self.bad_pso
        } else {
            self.pso
        }
    }
}

} // verus!
