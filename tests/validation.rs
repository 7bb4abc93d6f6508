use validation::{Constraint, ConstraintType, Error, Validate, Validator, Validators};

fn titled(rule: ConstraintType, title: &str) -> Constraint {
    Constraint::new_with_message(rule, title, "")
}

#[test]
fn require_string() {
    let field: Option<String> = Some("x".to_string());

    let mut validators = Validators::new();

    // "add" and "add_constraint" are two different ways to add a new constraint
    let validator = Validator::new(&field)
        .add(ConstraintType::Required)
        .add_constraint(Constraint::new_with_message(
            ConstraintType::MinLength(10),
            "It's shorter than 10 characters",
            "Min should be blah blah",
        ))
        .add(ConstraintType::MaxLength(20));

    validators.add_validator(validator);

    assert_eq!(validators.to_vec().len(), 1);
    assert_eq!(validators.to_vec()[0].title, "It's shorter than 10 characters");
}

#[test]
fn only_min_length_breaks_on_short_text() {
    let field: Option<String> = Some("x".to_string());
    let mut v = Validator::new(&field)
        .add_constraint(titled(ConstraintType::Required, "title-A"))
        .add_constraint(titled(ConstraintType::MinLength(10), "title-B"))
        .add_constraint(titled(ConstraintType::MaxLength(20), "title-C"));
    let errors = v.validate();
    assert_eq!(errors.len(), 1);
    assert_eq!(errors[0].title, "title-B");
    assert_eq!(errors[0].value, "x");
}

#[test]
fn required_on_none_gives_one_empty_value() {
    let field: Option<String> = None;
    let mut v = Validator::new(&field).add(ConstraintType::Required);
    let errors = v.validate();
    assert_eq!(errors.len(), 1);
    assert_eq!(errors[0].value, "");
    assert_eq!(errors[0].title, "");
    assert_eq!(errors[0].message, "");
}

#[test]
fn required_added_to_absent_value_with_other_rules() {
    let field: Option<String> = None;
    let mut v = Validator::new(&field)
        .add(ConstraintType::MinLength(3))
        .add(ConstraintType::MaxLength(1))
        .add(ConstraintType::Contains("a".to_string()))
        .add(ConstraintType::StartsWith("a".to_string()))
        .add(ConstraintType::EndsWith("a".to_string()))
        .add_constraint(Constraint::new(ConstraintType::Required));
    let errors = v.validate();
    assert_eq!(errors.len(), 1);
    assert_eq!(errors[0].value, "");
}

#[test]
fn two_validators_of_different_types_merge_in_order() {
    let word: String = "are".to_string();
    let number: i64 = 8;
    let mut validators = Validators::new();
    validators.add_validator(
        Validator::new(&word).add_constraint(titled(ConstraintType::EndsWith("ar".to_string()), "word")),
    );
    validators.add_validator(
        Validator::new(&number)
            .add_constraint(titled(ConstraintType::MinRange(9), "number-min"))
            .add_constraint(titled(ConstraintType::MaxRange(9), "number-max")),
    );
    let report = validators.to_vec();
    assert_eq!(report.len(), 2);
    assert_eq!(report[0].title, "word");
    assert_eq!(report[0].value, "are");
    assert_eq!(report[1].title, "number-min");
    assert_eq!(report[1].value, "8");
}

#[test]
fn min_and_max_length_are_independent() {
    let field: Option<String> = Some("abc".to_string());
    let none_broken = Validator::new(&field)
        .add(ConstraintType::MinLength(3))
        .add(ConstraintType::MaxLength(3))
        .validate_owned();
    assert_eq!(none_broken.len(), 0);

    let mut one = Validator::new(&field)
        .add_constraint(titled(ConstraintType::MinLength(4), "min"))
        .add_constraint(titled(ConstraintType::MaxLength(3), "max"));
    let one = one.validate();
    assert_eq!(one.len(), 1);
    assert_eq!(one[0].title, "min");

    let mut two = Validator::new(&field)
        .add_constraint(titled(ConstraintType::MinLength(4), "min"))
        .add_constraint(titled(ConstraintType::MaxLength(2), "max"));
    let two = two.validate();
    assert_eq!(two.len(), 2);
    assert_eq!(two[0].title, "min");
    assert_eq!(two[1].title, "max");
}

trait ValidateOwned {
    fn validate_owned(self) -> Vec<Error>;
}

impl<T: Validate> ValidateOwned for T {
    fn validate_owned(mut self) -> Vec<Error> {
        self.validate()
    }
}

#[test]
fn length_counts_utf8_bytes() {
    let field: Option<String> = Some("é".to_string());
    let errors = Validator::new(&field)
        .add(ConstraintType::MinLength(2))
        .add(ConstraintType::MaxLength(1))
        .validate_owned();
    assert_eq!(errors.len(), 1);
    assert_eq!(errors[0].value, "é");
}

#[test]
fn empty_text_is_present() {
    let field: Option<String> = Some(String::new());
    let errors = Validator::new(&field)
        .add_constraint(titled(ConstraintType::Required, "required"))
        .add_constraint(titled(ConstraintType::MinLength(1), "min"))
        .add_constraint(titled(ConstraintType::MaxLength(0), "max"))
        .validate_owned();
    assert_eq!(errors.len(), 1);
    assert_eq!(errors[0].title, "min");
    assert_eq!(errors[0].value, "");
}

#[test]
fn order_of_insertion_is_kept() {
    let field: String = "hello".to_string();
    let errors = Validator::new(&field)
        .add_constraint(titled(ConstraintType::StartsWith("x".to_string()), "A"))
        .add_constraint(titled(ConstraintType::Contains("ell".to_string()), "B"))
        .add_constraint(titled(ConstraintType::EndsWith("x".to_string()), "C"))
        .validate_owned();
    assert_eq!(errors.len(), 2);
    assert_eq!(errors[0].title, "A");
    assert_eq!(errors[1].title, "C");
}

#[test]
fn substring_rules_on_text() {
    let field: String = "validation".to_string();
    let passing = Validator::new(&field)
        .add(ConstraintType::Contains("dat".to_string()))
        .add(ConstraintType::Contains(String::new()))
        .add(ConstraintType::StartsWith("valid".to_string()))
        .add(ConstraintType::StartsWith("validation".to_string()))
        .add(ConstraintType::EndsWith("tion".to_string()))
        .add(ConstraintType::EndsWith(String::new()))
        .validate_owned();
    assert_eq!(passing.len(), 0);

    let failing = Validator::new(&field)
        .add_constraint(titled(ConstraintType::Contains("tad".to_string()), "contains"))
        .add_constraint(titled(ConstraintType::StartsWith("alid".to_string()), "starts"))
        .add_constraint(titled(ConstraintType::EndsWith("validation!".to_string()), "ends"))
        .validate_owned();
    assert_eq!(failing.len(), 3);
    assert_eq!(failing[0].title, "contains");
    assert_eq!(failing[1].title, "starts");
    assert_eq!(failing[2].title, "ends");
    assert_eq!(failing[2].value, "validation");
}

#[test]
fn substring_rules_on_non_ascii_text() {
    let field: Option<String> = Some("naïve café".to_string());
    let passing = Validator::new(&field)
        .add(ConstraintType::Contains("ïve c".to_string()))
        .add(ConstraintType::StartsWith("naï".to_string()))
        .add(ConstraintType::EndsWith("fé".to_string()))
        .validate_owned();
    assert_eq!(passing.len(), 0);
    let failing = Validator::new(&field)
        .add(ConstraintType::Contains("ive".to_string()))
        .validate_owned();
    assert_eq!(failing.len(), 1);
}

#[test]
fn range_rules_do_not_apply_to_text() {
    let field: Option<String> = Some("5".to_string());
    let errors = Validator::new(&field)
        .add(ConstraintType::MinRange(100))
        .add(ConstraintType::MaxRange(-100))
        .validate_owned();
    assert_eq!(errors.len(), 0);
}

#[test]
fn range_rules_on_numbers() {
    let low: i64 = -5;
    let errors = Validator::new(&low)
        .add_constraint(titled(ConstraintType::MinRange(-4), "min"))
        .add_constraint(titled(ConstraintType::MaxRange(-5), "max"))
        .add(ConstraintType::Required)
        .add(ConstraintType::MinLength(100))
        .validate_owned();
    assert_eq!(errors.len(), 1);
    assert_eq!(errors[0].title, "min");
    assert_eq!(errors[0].value, "-5");

    let high: u64 = u64::MAX;
    let errors = Validator::new(&high)
        .add_constraint(titled(ConstraintType::MaxRange(i64::MAX), "max"))
        .add_constraint(titled(ConstraintType::MinRange(i64::MIN), "min"))
        .validate_owned();
    assert_eq!(errors.len(), 1);
    assert_eq!(errors[0].title, "max");
    assert_eq!(errors[0].value, "18446744073709551615");
}

#[test]
fn every_integer_width_is_supported() {
    let a: i8 = -128;
    let b: i16 = 300;
    let c: i32 = 0;
    let d: isize = -1;
    let e: u8 = 255;
    let f: u16 = 7;
    let g: u32 = 10;
    let h: usize = 1000;
    assert_eq!(Validator::new(&a).add(ConstraintType::MinRange(0)).validate_owned()[0].value, "-128");
    assert_eq!(Validator::new(&b).add(ConstraintType::MaxRange(299)).validate_owned()[0].value, "300");
    assert_eq!(Validator::new(&c).add(ConstraintType::MinRange(1)).validate_owned()[0].value, "0");
    assert_eq!(Validator::new(&d).add(ConstraintType::MinRange(0)).validate_owned()[0].value, "-1");
    assert_eq!(Validator::new(&e).add(ConstraintType::MaxRange(254)).validate_owned()[0].value, "255");
    assert_eq!(Validator::new(&f).add(ConstraintType::MaxRange(7)).validate_owned().len(), 0);
    assert_eq!(Validator::new(&g).add(ConstraintType::MinRange(10)).validate_owned().len(), 0);
    assert_eq!(Validator::new(&h).add(ConstraintType::MaxRange(999)).validate_owned()[0].value, "1000");
}

#[test]
fn has_error_tracks_the_report() {
    let mut validators = Validators::new();
    assert!(!validators.has_error());
    assert_eq!(validators.to_vec().len(), 0);
    let ok: Option<String> = Some("fine".to_string());
    validators.add_validator(Validator::new(&ok).add(ConstraintType::Required));
    assert!(!validators.has_error());
    let missing: Option<String> = None;
    validators.add_validator(Validator::new(&missing).add(ConstraintType::Required));
    assert!(validators.has_error());
    assert_eq!(validators.to_vec().len(), 1);
}

#[test]
fn merging_preserves_relative_order() {
    let first: Option<String> = None;
    let second: i32 = 50;
    let mut validators = Validators::new();
    validators.add_validator(Validator::new(&first).add_constraint(titled(ConstraintType::Required, "e1")));
    validators.add_validator(
        Validator::new(&second)
            .add_constraint(titled(ConstraintType::MaxRange(10), "e2"))
            .add_constraint(titled(ConstraintType::MaxRange(20), "e3")),
    );
    let report = validators.to_vec();
    let titles: Vec<&str> = report.iter().map(|e| e.title.as_str()).collect();
    assert_eq!(titles, vec!["e1", "e2", "e3"]);
    assert_eq!(report[1].value, "50");
}

#[test]
fn setters_relabel_a_constraint() {
    let mut c = Constraint::new(ConstraintType::Required);
    c.title("Missing").message("A value is needed");
    let field: Option<String> = None;
    let errors = Validator::new(&field).add_constraint(c).validate_owned();
    assert_eq!(errors.len(), 1);
    assert_eq!(errors[0].title, "Missing");
    assert_eq!(errors[0].message, "A value is needed");
}

#[test]
fn records_clone_field_for_field() {
    let e = Error { title: "t".to_string(), message: "m".to_string(), value: "v".to_string() };
    let copy = e.clone();
    assert_eq!(copy.title, "t");
    assert_eq!(copy.message, "m");
    assert_eq!(copy.value, "v");
}

#[test]
fn validating_twice_gives_the_same_report() {
    let field: Option<String> = Some("abc".to_string());
    let mut v = Validator::new(&field).add(ConstraintType::MaxLength(1));
    let first = v.validate();
    let second = v.validate();
    assert_eq!(first.len(), 1);
    assert_eq!(second.len(), 1);
    assert_eq!(first[0].value, second[0].value);
}
