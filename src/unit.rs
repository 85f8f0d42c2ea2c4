//! Units: what a progress value counts, how its fragments are written, and
//! where a percentage goes.
use vstd::prelude::*;
use crate::text::{Percentage, decimal, percentage_text, write_decimal, write_percentage};

verus! {

/// The rendering capabilities of a unit. Each method appends one fragment to the
/// write target `f`; each fragment is described by a spec function of the same
/// name. The spec functions of the current value, the upper bound and the
/// percentage default to the plain forms (decimal numbers and `[N%]`), which an
/// implementation produces by delegating to `write_decimal` and `write_percentage`.
/// The unit suffix has no plain form: every implementation writes its own.
pub trait DisplayValue {
    /// The text of the current value; the upper bound is given for context.
    open spec fn current_value_text(&self, value: usize, upper: Option<usize>) -> Seq<char> {
        decimal(value as nat)
    }

    /// The text of the upper bound; the current value is given for context.
    open spec fn upper_bound_text(&self, upper_bound: usize, value: usize) -> Seq<char> {
        decimal(upper_bound as nat)
    }

    /// The unit suffix, which may depend on the current value. Each
    /// implementation writes its own suffix and states it here; the default is
    /// the empty text.
    open spec fn unit_text(&self, value: usize) -> Seq<char> {
        seq![]
    }

    /// The text of a percentage figure.
    open spec fn percentage_text(&self, percentage: Percentage) -> Seq<char> {
        percentage_text(percentage)
    }

    fn display_current_value(&self, f: &mut String, value: usize, upper: Option<usize>)
        ensures
            final(f)@ == old(f)@ + self.current_value_text(value, upper),
    ;

    fn display_upper_bound(&self, f: &mut String, upper_bound: usize, value: usize)
        ensures
            final(f)@ == old(f)@ + self.upper_bound_text(upper_bound, value),
    ;

    fn display_unit(&self, f: &mut String, value: usize)
        ensures
            final(f)@ == old(f)@ + self.unit_text(value),
    ;

    fn display_percentage(&self, f: &mut String, percentage: Percentage)
        ensures
            final(f)@ == old(f)@ + self.percentage_text(percentage),
    ;
}

/// A static label: its suffix is the label itself, whatever the value; the
/// other fragments take the plain forms.
impl DisplayValue for &'static str {
    open spec fn unit_text(&self, value: usize) -> Seq<char> {
        self@
    }

    fn display_current_value(&self, f: &mut String, value: usize, upper: Option<usize>) {
        write_decimal(f, value);
    }

    fn display_upper_bound(&self, f: &mut String, upper_bound: usize, value: usize) {
        write_decimal(f, upper_bound);
    }

    fn display_unit(&self, f: &mut String, value: usize) {
        f.append(*self);
    }

    fn display_percentage(&self, f: &mut String, percentage: Percentage) {
        write_percentage(f, percentage);
    }
}

/// Where the percentage goes: before the values, or after the unit.
#[derive(Copy, Clone, Hash, Eq, PartialEq, Structural, Ord, PartialOrd, Debug)]
pub enum Mode {
    PercentageBeforeValue,
    PercentageAfterUnit,
}

/// A unit: a static label or a computed one, each with an optional percentage
/// placement. Without a mode no percentage is shown.
pub enum Unit {
    Label(&'static str, Option<Mode>),
    Dynamic(Box<dyn DisplayValue>, Option<Mode>),
}

impl Unit {
    /// The configured percentage placement.
    pub open spec fn mode(&self) -> Option<Mode> {
        match self {
            Unit::Label(_, m) => *m,
            Unit::Dynamic(_, m) => *m,
        }
    }

    pub open spec fn current_value_text(&self, value: usize, upper: Option<usize>) -> Seq<char> {
        match self {
            Unit::Label(l, _) => l.current_value_text(value, upper),
            Unit::Dynamic(d, _) => d.current_value_text(value, upper),
        }
    }

    pub open spec fn upper_bound_text(&self, upper_bound: usize, value: usize) -> Seq<char> {
        match self {
            Unit::Label(l, _) => l.upper_bound_text(upper_bound, value),
            Unit::Dynamic(d, _) => d.upper_bound_text(upper_bound, value),
        }
    }

    pub open spec fn unit_text(&self, value: usize) -> Seq<char> {
        match self {
            Unit::Label(l, _) => l.unit_text(value),
            Unit::Dynamic(d, _) => d.unit_text(value),
        }
    }

    pub open spec fn percentage_text(&self, percentage: Percentage) -> Seq<char> {
        match self {
            Unit::Label(l, _) => l.percentage_text(percentage),
            Unit::Dynamic(d, _) => d.percentage_text(percentage),
        }
    }

    pub fn label(label: &'static str) -> (r: Self)
        ensures
            r == Unit::Label(label, None),
    {
        Unit::Label(label, None)
    }

    pub fn label_and_mode(label: &'static str, mode: Mode) -> (r: Self)
        ensures
            r == Unit::Label(label, Some(mode)),
    {
        Unit::Label(label, Some(mode))
    }

    pub fn dynamic(label: Box<dyn DisplayValue>) -> (r: Self)
        ensures
            r == Unit::Dynamic(label, None),
    {
        Unit::Dynamic(label, None)
    }

    pub fn dynamic_and_mode(label: Box<dyn DisplayValue>, mode: Mode) -> (r: Self)
        ensures
            r == Unit::Dynamic(label, Some(mode)),
    {
        Unit::Dynamic(label, Some(mode))
    }

    /// The rendering capabilities and the configured mode.
    pub fn as_display_value(&self) -> (r: (&dyn DisplayValue, Option<Mode>))
        ensures
            r.1 == self.mode(),
    {
        match self {
            Unit::Label(unit, mode) => (unit, *mode),
            Unit::Dynamic(unit, mode) => (&**unit, *mode),
        }
    }

    /// Appends the current value's text, dispatching on the kind of unit.
    pub fn write_current_value(&self, f: &mut String, value: usize, upper: Option<usize>)
        ensures
            final(f)@ == old(f)@ + self.current_value_text(value, upper),
    {
        match self {
            Unit::Label(l, _) => l.display_current_value(f, value, upper),
            Unit::Dynamic(d, _) => d.display_current_value(f, value, upper),
        }
    }

    /// Appends the upper bound's text, dispatching on the kind of unit.
    pub fn write_upper_bound(&self, f: &mut String, upper_bound: usize, value: usize)
        ensures
            final(f)@ == old(f)@ + self.upper_bound_text(upper_bound, value),
    {
        match self {
            Unit::Label(l, _) => l.display_upper_bound(f, upper_bound, value),
            Unit::Dynamic(d, _) => d.display_upper_bound(f, upper_bound, value),
        }
    }

    /// Appends the unit suffix, dispatching on the kind of unit.
    pub fn write_unit(&self, f: &mut String, value: usize)
        ensures
            final(f)@ == old(f)@ + self.unit_text(value),
    {
        match self {
            Unit::Label(l, _) => l.display_unit(f, value),
            Unit::Dynamic(d, _) => d.display_unit(f, value),
        }
    }

    /// Appends the percentage text, dispatching on the kind of unit.
    pub fn write_percentage(&self, f: &mut String, percentage: Percentage)
        ensures
            final(f)@ == old(f)@ + self.percentage_text(percentage),
    {
        match self {
            Unit::Label(l, _) => l.display_percentage(f, percentage),
            Unit::Dynamic(d, _) => d.display_percentage(f, percentage),
        }
    }
}

/// A static label's suffix is the label text, whatever the current value and mode.
pub proof fn lemma_label_unit_text(label: &'static str, mode: Option<Mode>, value: usize)
    ensures
        Unit::Label(label, mode).unit_text(value) == label@,
{
}

} // verus!
