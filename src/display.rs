//! Composing the text of one measurement: values, unit and percentage, in the
//! layout the caller narrowed to.
use vstd::prelude::*;
use crate::text::Percentage;
use crate::unit::{Mode, Unit};

verus! {

/// Which segments a rendering shows.
#[derive(Clone, Copy, Debug, PartialEq, Eq, Structural)]
pub enum WhatToDisplay {
    ValuesAndUnit,
    Unit,
    Values,
}

impl WhatToDisplay {
    pub open spec fn shows_values(self) -> bool {
        self is Values || self is ValuesAndUnit
    }

    pub open spec fn shows_unit(self) -> bool {
        self is Unit || self is ValuesAndUnit
    }

    /// Whether the value segment is shown.
    pub fn values(&self) -> (r: bool)
        ensures
            r == self.shows_values(),
    {
        match self {
            WhatToDisplay::Values | WhatToDisplay::ValuesAndUnit => true,
            _ => false,
        }
    }

    /// Whether the unit segment is shown.
    pub fn unit(&self) -> (r: bool)
        ensures
            r == self.shows_unit(),
    {
        match self {
            WhatToDisplay::Unit | WhatToDisplay::ValuesAndUnit => true,
            _ => false,
        }
    }
}

/// A request to render one measurement of a unit, borrowed for one use.
pub struct UnitDisplay<'a> {
    pub current_value: usize,
    pub upper_bound: Option<usize>,
    pub parent: &'a Unit,
    pub display: WhatToDisplay,
}

impl Unit {
    /// A request to render `current_value` (out of `upper_bound`, if given) with
    /// both the values and the unit.
    pub fn display(&self, current_value: usize, upper_bound: Option<usize>) -> (r: UnitDisplay)
        ensures
            r.current_value == current_value,
            r.upper_bound == upper_bound,
            r.parent == self,
            r.display == WhatToDisplay::ValuesAndUnit,
    {
        UnitDisplay { current_value, upper_bound, parent: self, display: WhatToDisplay::ValuesAndUnit }
    }
}

impl<'a> UnitDisplay<'a> {
    /// The same request with layout `w`.
    pub open spec fn with_display(self, w: WhatToDisplay) -> UnitDisplay<'a> {
        UnitDisplay {
            current_value: self.current_value,
            upper_bound: self.upper_bound,
            parent: self.parent,
            display: w,
        }
    }

    /// The percentage figure, where the unit has a mode and an upper bound is given.
    pub open spec fn percentage(self) -> Option<(Mode, Percentage)> {
        match (self.parent.mode(), self.upper_bound) {
            (Some(m), Some(u)) => Some((m, Percentage { numerator: self.current_value, denominator: u })),
            _ => None,
        }
    }

    /// The percentage text and its space, placed before the current value.
    pub open spec fn percentage_before(self) -> Seq<char> {
        match self.percentage() {
            Some((Mode::PercentageBeforeValue, p)) => self.parent.percentage_text(p) + seq![' '],
            _ => seq![],
        }
    }

    /// The space and the percentage text, placed after the unit suffix.
    pub open spec fn percentage_after(self) -> Seq<char> {
        match self.percentage() {
            Some((Mode::PercentageAfterUnit, p)) => seq![' '] + self.parent.percentage_text(p),
            _ => seq![],
        }
    }

    /// The current value, then `/` and the upper bound if one is given.
    pub open spec fn values_text(self) -> Seq<char> {
        self.parent.current_value_text(self.current_value, self.upper_bound) + match self.upper_bound {
            Some(u) => seq!['/'] + self.parent.upper_bound_text(u, self.current_value),
            None => seq![],
        }
    }

    /// The space between the two segments, where both are shown.
    pub open spec fn separator(self) -> Seq<char> {
        if self.display.shows_values() { seq![' '] } else { seq![] }
    }

    /// The rendered text.
    pub open spec fn text(self) -> Seq<char> {
        (if self.display.shows_values() {
            self.percentage_before() + self.values_text()
        } else {
            seq![]
        }) + (if self.display.shows_unit() {
            self.separator() + self.parent.unit_text(self.current_value) + self.percentage_after()
        } else {
            seq![]
        })
    }

    /// The rendered text without any percentage.
    pub open spec fn plain_text(self) -> Seq<char> {
        (if self.display.shows_values() {
            self.values_text()
        } else {
            seq![]
        }) + (if self.display.shows_unit() {
            self.separator() + self.parent.unit_text(self.current_value)
        } else {
            seq![]
        })
    }

    /// Narrows the request to the values.
    pub fn values(self) -> (r: Self)
        ensures
            r == self.with_display(WhatToDisplay::Values),
    {
        let mut s = self;
        s.display = WhatToDisplay::Values;
        s
    }

    /// Narrows the request to the unit.
    pub fn unit(self) -> (r: Self)
        ensures
            r == self.with_display(WhatToDisplay::Unit),
    {
        let mut s = self;
        s.display = WhatToDisplay::Unit;
        s
    }

    /// Appends the rendered text to `f`.
    pub fn write_to(&self, f: &mut String)
        ensures
            final(f)@ == old(f)@ + self.text(),
    {
        let ghost start = f@;
        let unit = self.parent;
        let mode_and_fraction: Option<(Mode, Percentage)> = match (unit.as_display_value().1, self.upper_bound) {
            (Some(m), Some(u)) => Some((m, Percentage { numerator: self.current_value, denominator: u })),
            _ => None,
        };
        if self.display.values() {
            if let Some((Mode::PercentageBeforeValue, fraction)) = mode_and_fraction {
                unit.write_percentage(f, fraction);
                f.append(" ");
            }
            unit.write_current_value(f, self.current_value, self.upper_bound);
            if let Some(upper) = self.upper_bound {
                f.append("/");
                unit.write_upper_bound(f, upper, self.current_value);
            }
        }
        if self.display.unit() {
            if self.display.values() {
                f.append(" ");
            }
            unit.write_unit(f, self.current_value);
            if let Some((Mode::PercentageAfterUnit, fraction)) = mode_and_fraction {
                f.append(" ");
                unit.write_percentage(f, fraction);
            }
        }
        proof {
            reveal_strlit(" ");
            reveal_strlit("/");
        }
        assert(f@ =~= start + self.text());
    }

    /// The rendered text.
    pub fn render(&self) -> (r: String)
        ensures
            r@ == self.text(),
    {
        let mut f = String::new();
        self.write_to(&mut f);
        f
    }
}

/// Narrowing twice is the same as narrowing once to the last layout: the
/// request, and so its text, keeps only the last choice.
pub proof fn lemma_last_narrowing_wins(d: UnitDisplay, first: WhatToDisplay, second: WhatToDisplay)
    ensures
        d.with_display(first).with_display(second) == d.with_display(second),
        d.with_display(first).with_display(second).text() == d.with_display(second).text(),
{
}

/// With the percentage placed before the value and an upper bound given, a
/// text that shows the values starts with the percentage, one space, and the
/// current value.
pub proof fn lemma_percentage_before_value(d: UnitDisplay)
    requires
        d.parent.mode() == Some(Mode::PercentageBeforeValue),
        d.upper_bound is Some,
        d.display.shows_values(),
    ensures
        ({
            let p = Percentage { numerator: d.current_value, denominator: d.upper_bound->Some_0 };
            (d.parent.percentage_text(p) + seq![' '] + d.parent.current_value_text(
                d.current_value,
                d.upper_bound,
            )).is_prefix_of(d.text())
        }),
{
    let p = Percentage { numerator: d.current_value, denominator: d.upper_bound->Some_0 };
    let head = d.parent.percentage_text(p) + seq![' '] + d.parent.current_value_text(
        d.current_value,
        d.upper_bound,
    );
    assert(d.text().subrange(0, head.len() as int) =~= head);
}

/// With the percentage placed after the unit and an upper bound given, a text
/// that shows the unit ends with the unit suffix, one space, and the
/// percentage, whether or not the values are shown.
pub proof fn lemma_percentage_after_unit(d: UnitDisplay)
    requires
        d.parent.mode() == Some(Mode::PercentageAfterUnit),
        d.upper_bound is Some,
        d.display.shows_unit(),
    ensures
        ({
            let p = Percentage { numerator: d.current_value, denominator: d.upper_bound->Some_0 };
            (d.parent.unit_text(d.current_value) + seq![' '] + d.parent.percentage_text(p)).is_suffix_of(
                d.text(),
            )
        }),
{
    let p = Percentage { numerator: d.current_value, denominator: d.upper_bound->Some_0 };
    let tail = d.parent.unit_text(d.current_value) + seq![' '] + d.parent.percentage_text(p);
    let t = d.text();
    assert(t.subrange(t.len() - tail.len(), t.len() as int) =~= tail);
}

/// A unit without a mode never shows a percentage, in any layout and with or
/// without an upper bound.
pub proof fn lemma_no_mode_no_percentage(d: UnitDisplay)
    requires
        d.parent.mode() is None,
    ensures
        d.text() == d.plain_text(),
{
    assert(d.text() =~= d.plain_text());
}

/// Without an upper bound no percentage is shown, whatever the mode.
pub proof fn lemma_no_upper_bound_no_percentage(d: UnitDisplay)
    requires
        d.upper_bound is None,
    ensures
        d.text() == d.plain_text(),
{
    assert(d.text() =~= d.plain_text());
}

} // verus!
