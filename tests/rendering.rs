use progress_unit::{
    write_decimal, write_percentage, DisplayValue, Mode, Percentage, Unit, WhatToDisplay,
};

struct Files;

impl DisplayValue for Files {
    fn display_current_value(&self, f: &mut String, value: usize, _upper: Option<usize>) {
        write_decimal(f, value);
    }

    fn display_upper_bound(&self, f: &mut String, upper_bound: usize, _value: usize) {
        write_decimal(f, upper_bound);
    }

    fn display_unit(&self, f: &mut String, value: usize) {
        f.push_str(if value == 1 { "file" } else { "files" });
    }

    fn display_percentage(&self, f: &mut String, percentage: Percentage) {
        write_percentage(f, percentage);
    }
}

struct Bytes;

impl DisplayValue for Bytes {
    fn display_current_value(&self, f: &mut String, value: usize, _upper: Option<usize>) {
        write_decimal(f, value / 1000);
        f.push_str("KB");
    }

    fn display_upper_bound(&self, f: &mut String, upper_bound: usize, _value: usize) {
        write_decimal(f, upper_bound / 1000);
        f.push_str("KB");
    }

    fn display_unit(&self, _f: &mut String, _value: usize) {}

    fn display_percentage(&self, f: &mut String, percentage: Percentage) {
        f.push_str("(");
        write_decimal(f, percentage.numerator * 100 / percentage.denominator);
        f.push_str(" percent)");
    }
}

#[test]
fn label_without_mode_shows_values_and_unit() {
    let u = Unit::label("files");
    assert_eq!(u.display(3, Some(10)).render(), "3/10 files");
}

#[test]
fn percentage_before_value() {
    let u = Unit::label_and_mode("files", Mode::PercentageBeforeValue);
    assert_eq!(u.display(5, Some(10)).render(), "[50%] 5/10 files");
}

#[test]
fn percentage_after_unit() {
    let u = Unit::label_and_mode("items", Mode::PercentageAfterUnit);
    assert_eq!(u.display(1, Some(4)).render(), "1/4 items [25%]");
}

#[test]
fn no_upper_bound_no_slash_no_percentage() {
    let before = Unit::label_and_mode("items", Mode::PercentageBeforeValue);
    let after = Unit::label_and_mode("items", Mode::PercentageAfterUnit);
    let none = Unit::label("items");
    assert_eq!(before.display(7, None).render(), "7 items");
    assert_eq!(after.display(7, None).render(), "7 items");
    assert_eq!(none.display(7, None).render(), "7 items");
}

#[test]
fn unit_only_keeps_percentage_after_unit() {
    let u = Unit::label_and_mode("items", Mode::PercentageAfterUnit);
    assert_eq!(u.display(2, Some(8)).unit().render(), "items [25%]");
}

#[test]
fn unit_only_drops_percentage_before_value() {
    let u = Unit::label_and_mode("items", Mode::PercentageBeforeValue);
    assert_eq!(u.display(2, Some(8)).unit().render(), "items");
}

#[test]
fn values_only_layouts() {
    let before = Unit::label_and_mode("items", Mode::PercentageBeforeValue);
    let after = Unit::label_and_mode("items", Mode::PercentageAfterUnit);
    assert_eq!(before.display(2, Some(8)).values().render(), "[25%] 2/8");
    assert_eq!(after.display(2, Some(8)).values().render(), "2/8");
    assert_eq!(Unit::label("items").display(2, None).values().render(), "2");
}

#[test]
fn last_narrowing_wins() {
    let u = Unit::label_and_mode("items", Mode::PercentageAfterUnit);
    assert_eq!(u.display(2, Some(8)).values().unit().render(), "items [25%]");
    assert_eq!(u.display(2, Some(8)).unit().values().render(), "2/8");
    assert_eq!(u.display(2, Some(8)).unit().unit().render(), "items [25%]");
}

#[test]
fn no_mode_never_shows_percentage() {
    let u = Unit::label("items");
    assert_eq!(u.display(2, Some(8)).render(), "2/8 items");
    assert_eq!(u.display(2, Some(8)).unit().render(), "items");
    assert_eq!(u.display(2, Some(8)).values().render(), "2/8");
}

#[test]
fn static_label_unit_ignores_value() {
    let label: &'static str = "files";
    for v in [0usize, 1, 2, 1000, usize::MAX] {
        let mut f = String::from(">");
        label.display_unit(&mut f, v);
        assert_eq!(f, ">files");
    }
}

#[test]
fn percentage_truncates() {
    let mut f = String::new();
    write_percentage(&mut f, Percentage { numerator: 499, denominator: 1000 });
    assert_eq!(f, "[49%]");
    let mut g = String::new();
    write_percentage(&mut g, Percentage { numerator: 2, denominator: 3 });
    assert_eq!(g, "[66%]");
}

#[test]
fn percentage_over_one_hundred() {
    let u = Unit::label_and_mode("items", Mode::PercentageAfterUnit);
    assert_eq!(u.display(12, Some(8)).render(), "12/8 items [150%]");
}

#[test]
fn zero_upper_bound() {
    let u = Unit::label_and_mode("items", Mode::PercentageAfterUnit);
    assert_eq!(u.display(0, Some(0)).render(), "0/0 items [0%]");
    assert_eq!(
        u.display(5, Some(0)).render(),
        "5/0 items [18446744073709551615%]"
    );
}

#[test]
fn large_values_do_not_overflow() {
    let u = Unit::label_and_mode("steps", Mode::PercentageBeforeValue);
    assert_eq!(
        u.display(usize::MAX, Some(usize::MAX)).render(),
        "[100%] 18446744073709551615/18446744073709551615 steps"
    );
    assert_eq!(
        u.display(usize::MAX, Some(1)).render(),
        "[18446744073709551615%] 18446744073709551615/1 steps"
    );
}

#[test]
fn decimal_text() {
    let mut f = String::new();
    write_decimal(&mut f, 0);
    f.push(' ');
    write_decimal(&mut f, 10);
    f.push(' ');
    write_decimal(&mut f, 907);
    assert_eq!(f, "0 10 907");
}

#[test]
fn dynamic_unit_computes_its_suffix() {
    let u = Unit::dynamic(Box::new(Files));
    assert_eq!(u.display(1, Some(3)).render(), "1/3 file");
    assert_eq!(u.display(2, Some(3)).render(), "2/3 files");
    let m = Unit::dynamic_and_mode(Box::new(Files), Mode::PercentageBeforeValue);
    assert_eq!(m.display(1, Some(4)).render(), "[25%] 1/4 file");
}

#[test]
fn dynamic_unit_overrides_fragments() {
    let u = Unit::dynamic_and_mode(Box::new(Bytes), Mode::PercentageAfterUnit);
    assert_eq!(u.display(2000, Some(8000)).values().render(), "2KB/8KB");
    assert_eq!(u.display(2000, Some(8000)).unit().render(), " (25 percent)");
}

#[test]
fn write_to_appends() {
    let u = Unit::label("files");
    let mut f = String::from("copying: ");
    u.display(3, Some(10)).write_to(&mut f);
    assert_eq!(f, "copying: 3/10 files");
}

#[test]
fn layout_selector_segments() {
    assert!(WhatToDisplay::ValuesAndUnit.values());
    assert!(WhatToDisplay::ValuesAndUnit.unit());
    assert!(WhatToDisplay::Values.values());
    assert!(!WhatToDisplay::Values.unit());
    assert!(!WhatToDisplay::Unit.values());
    assert!(WhatToDisplay::Unit.unit());
}

#[test]
fn display_request_fields() {
    let u = Unit::label_and_mode("files", Mode::PercentageAfterUnit);
    let d = u.display(4, Some(9));
    assert_eq!(d.current_value, 4);
    assert_eq!(d.upper_bound, Some(9));
    assert_eq!(d.display, WhatToDisplay::ValuesAndUnit);
    assert_eq!(u.as_display_value().1, Some(Mode::PercentageAfterUnit));
    assert_eq!(Unit::label("files").as_display_value().1, None);
}

#[test]
fn unit_dispatch_writers() {
    let u = Unit::label("files");
    let mut f = String::new();
    u.write_current_value(&mut f, 12, Some(40));
    u.write_upper_bound(&mut f, 40, 12);
    u.write_unit(&mut f, 12);
    u.write_percentage(&mut f, Percentage { numerator: 12, denominator: 40 });
    assert_eq!(f, "1240files[30%]");
}
