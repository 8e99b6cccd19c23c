use lumx::forms::control::{AbstractFormControl, FormControl};
use lumx::forms::validator::{ControlValidator, ValidatorMetadata};
use lumx::forms::validators::min::{Min, MIN_NAME};
use lumx::forms::validators::min_length::{MinLength, MIN_LENGTH_NAME};
use lumx::forms::validators::required::{Required, REQUIRED_NAME};
use lumx::forms::validators::sets::{IntValidator, TextValidator};

#[test]
fn it_create_a_text_control() {
    let form_control: FormControl<String, TextValidator> = FormControl::new(Some(String::new()), vec![]);

    assert_eq!(form_control.is_valid(), true);
    assert_eq!(form_control.has_errs(), false);
}

#[test]
fn it_create_a_text_control_with_validators() {
    let form_control: FormControl<String, TextValidator> =
        FormControl::new(Some(String::new()), vec![TextValidator::MinLength(MinLength::new(1))]);

    assert_eq!(form_control.is_valid(), false);
    assert_eq!(form_control.has_errs(), true);
    assert_eq!(form_control.has_err(MIN_LENGTH_NAME), true);

    let mut expected_meta = ValidatorMetadata::new();
    expected_meta.add(String::from("min_length"), 1);
    expected_meta.add(String::from("actual_length"), 0);
    assert_eq!(form_control.err(MIN_LENGTH_NAME), Some(expected_meta));
}

#[test]
fn it_create_an_option_control() {
    let form_control: FormControl<i32, IntValidator> = FormControl::new(None, vec![]);

    assert_eq!(form_control.is_valid(), true);
    assert_eq!(form_control.has_errs(), false);
}

#[test]
fn it_create_an_option_with_validators() {
    let form_control: FormControl<i32, IntValidator> =
        FormControl::new(None, vec![IntValidator::Required(Required::new()), IntValidator::Min(Min::new(5))]);

    assert_eq!(form_control.is_valid(), false);
    assert_eq!(form_control.has_errs(), true);
    assert_eq!(form_control.has_err(REQUIRED_NAME), true);
}

#[test]
fn no_validators_valid_for_any_value() {
    let mut form_control: FormControl<i32, IntValidator> = FormControl::new(Some(-7), vec![]);
    assert!(form_control.is_valid());
    assert!(!form_control.has_errs());
    form_control.set_value(None);
    assert!(form_control.is_valid());
    assert!(!form_control.has_errs());
}

#[test]
fn unconfigured_name_is_absent() {
    let form_control: FormControl<i32, IntValidator> = FormControl::new(Some(1), vec![IntValidator::Min(Min::new(5))]);
    assert!(form_control.has_err(MIN_NAME));
    assert_eq!(form_control.err(REQUIRED_NAME), None);
    assert_eq!(form_control.err("NOT_A_VALIDATOR"), None);
    assert!(!form_control.has_err("NOT_A_VALIDATOR"));
}

#[test]
fn set_value_twice_gives_same_errors() {
    let mut form_control: FormControl<i32, IntValidator> =
        FormControl::new(None, vec![IntValidator::Required(Required::new()), IntValidator::Min(Min::new(5))]);
    form_control.set_value(Some(3));
    let first = form_control.err(MIN_NAME);
    let first_required = form_control.has_err(REQUIRED_NAME);
    form_control.set_value(Some(3));
    assert_eq!(form_control.err(MIN_NAME), first);
    assert_eq!(form_control.has_err(REQUIRED_NAME), first_required);
    assert!(first.is_some());
    assert!(!first_required);
}

#[test]
fn required_scenario() {
    let mut form_control: FormControl<i32, IntValidator> = FormControl::new(None, vec![IntValidator::Required(Required::new())]);
    assert!(form_control.has_err(REQUIRED_NAME));
    assert_eq!(form_control.err(REQUIRED_NAME), Some(ValidatorMetadata::new()));
    form_control.set_value(Some(0));
    assert!(!form_control.has_err(REQUIRED_NAME));
    assert!(form_control.is_valid());
}

#[test]
fn min_scenario() {
    let mut form_control: FormControl<i32, IntValidator> = FormControl::new(None, vec![IntValidator::Min(Min::new(5))]);
    assert!(form_control.is_valid());

    form_control.set_value(Some(3));
    assert!(form_control.has_err(MIN_NAME));
    let meta = form_control.err(MIN_NAME).unwrap();
    assert_eq!(meta.get("min_val"), Some(5));
    assert_eq!(meta.get("actual_value"), Some(3));
    let mut expected = ValidatorMetadata::new();
    expected.add(String::from("min_val"), 5);
    expected.add(String::from("actual_value"), 3);
    assert_eq!(meta, expected);

    form_control.set_value(Some(7));
    assert!(form_control.is_valid());

    form_control.set_value(Some(5));
    assert!(form_control.is_valid());
}

#[test]
fn min_length_scenario() {
    let form_control: FormControl<String, TextValidator> =
        FormControl::new(Some(String::new()), vec![TextValidator::MinLength(MinLength::new(1))]);
    assert!(form_control.has_err(MIN_LENGTH_NAME));
    let meta = form_control.err(MIN_LENGTH_NAME).unwrap();
    assert_eq!(meta.get("min_length"), Some(1));
    assert_eq!(meta.get("actual_length"), Some(0));

    let mut two: FormControl<String, TextValidator> = FormControl::new(None, vec![TextValidator::MinLength(MinLength::new(2))]);
    assert!(two.is_valid());
    two.set_value(Some(String::from("  ok  ")));
    assert!(two.is_valid());
}

#[test]
fn min_length_measures_trimmed_text() {
    let form_control: FormControl<String, TextValidator> =
        FormControl::new(Some(String::from("  a  ")), vec![TextValidator::MinLength(MinLength::new(2))]);
    assert!(form_control.has_err(MIN_LENGTH_NAME));
    let meta = form_control.err(MIN_LENGTH_NAME).unwrap();
    assert_eq!(meta.get("actual_length"), Some(1));
    assert_eq!(meta.get("min_length"), Some(2));
}

#[test]
fn min_length_counts_utf8_bytes() {
    let form_control: FormControl<String, TextValidator> =
        FormControl::new(Some(String::from(" é ")), vec![TextValidator::MinLength(MinLength::new(2))]);
    assert!(form_control.is_valid());
}

#[test]
fn required_and_min_on_absent_value() {
    let form_control: FormControl<i32, IntValidator> =
        FormControl::new(None, vec![IntValidator::Required(Required::new()), IntValidator::Min(Min::new(5))]);
    assert!(form_control.has_err(REQUIRED_NAME));
    assert!(!form_control.has_err(MIN_NAME));
    assert_eq!(form_control.err(MIN_NAME), None);
}

#[test]
fn every_failing_validator_is_recorded() {
    let form_control: FormControl<String, TextValidator> = FormControl::new(
        Some(String::from("x")),
        vec![TextValidator::Required(Required::new()), TextValidator::MinLength(MinLength::new(3))],
    );
    assert!(!form_control.has_err(REQUIRED_NAME));
    assert!(form_control.has_err(MIN_LENGTH_NAME));

    let mut both: FormControl<i32, IntValidator> = FormControl::new(
        Some(1),
        vec![IntValidator::Min(Min::new(5)), IntValidator::Min(Min::new(3)), IntValidator::Required(Required::new())],
    );
    let meta = both.err(MIN_NAME).unwrap();
    assert_eq!(meta.get("min_val"), Some(3));
    both.set_value(None);
    assert!(both.has_err(REQUIRED_NAME));
    assert!(!both.has_err(MIN_NAME));
}

#[test]
fn update_and_validity_keeps_errors() {
    let mut form_control: FormControl<i32, IntValidator> =
        FormControl::new(Some(2), vec![IntValidator::Min(Min::new(5))]);
    form_control.update_and_validity();
    assert_eq!(form_control.value(), &Some(2));
    assert!(form_control.has_err(MIN_NAME));
}

#[test]
fn value_follows_set_value() {
    let mut form_control: FormControl<String, TextValidator> = FormControl::new(None, vec![]);
    assert_eq!(form_control.value(), &None);
    form_control.set_value(Some(String::from("abc")));
    assert_eq!(form_control.value(), &Some(String::from("abc")));
}

#[test]
fn validators_report_directly() {
    assert!(Required::new().validate(&Some(1)).is_ok());
    let (name, meta) = <Required as ControlValidator<i32>>::validate(&Required::new(), &None)
        .unwrap_err();
    assert_eq!(name, REQUIRED_NAME);
    assert_eq!(meta, ValidatorMetadata::new());

    assert!(Min::new(5).validate(&None).is_ok());
    let (name, meta) = Min::new(5).validate(&Some(-1)).unwrap_err();
    assert_eq!(name, MIN_NAME);
    assert_eq!(meta.get("actual_value"), Some(-1));

    assert!(MinLength::new(4).validate(&Some(String::from("abcd"))).is_ok());
    let (name, _) = MinLength::new(4).validate(&Some(String::from("abc"))).unwrap_err();
    assert_eq!(name, MIN_LENGTH_NAME);
}

#[test]
fn judge_trimmed_measures_given_text() {
    let rule = MinLength::new(3);
    assert!(rule.judge_trimmed("abc").is_ok());
    let (name, meta) = rule.judge_trimmed("ab").unwrap_err();
    assert_eq!(name, MIN_LENGTH_NAME);
    assert_eq!(meta.get("min_length"), Some(3));
    assert_eq!(meta.get("actual_length"), Some(2));
    assert!(rule.judge_trimmed(" b ").is_ok());
}

#[test]
fn min_length_zero_never_fails() {
    let form_control: FormControl<String, MinLength> =
        FormControl::new(Some(String::from("   ")), vec![MinLength::new(0)]);
    assert!(form_control.is_valid());
    let negative: FormControl<String, MinLength> =
        FormControl::new(Some(String::new()), vec![MinLength::new(-4)]);
    assert!(negative.is_valid());
}

#[test]
fn min_length_trims_unicode_white_space() {
    let blank: FormControl<String, MinLength> =
        FormControl::new(Some(String::from("\t \n\u{3000}")), vec![MinLength::new(1)]);
    let meta = blank.err(MIN_LENGTH_NAME).unwrap();
    assert_eq!(meta.get("actual_length"), Some(0));

    let wide: FormControl<String, MinLength> =
        FormControl::new(Some(String::from("\u{3000}ab\u{2009}")), vec![MinLength::new(2)]);
    assert!(wide.is_valid());
}

#[test]
fn control_over_one_validator_type() {
    let mut form_control: FormControl<i32, Min> = FormControl::new(Some(10), vec![Min::new(5), Min::new(20)]);
    let meta = form_control.err(MIN_NAME).unwrap();
    assert_eq!(meta.get("min_val"), Some(20));
    assert_eq!(meta.get("actual_value"), Some(10));
    form_control.set_value(Some(20));
    assert!(form_control.is_valid());
}

#[test]
fn metadata_clone_is_equal() {
    let mut meta = ValidatorMetadata::new();
    meta.add(String::from("a"), 1);
    let copy = meta.clone();
    assert_eq!(copy, meta);
    assert_eq!(copy.get("a"), Some(1));
}
