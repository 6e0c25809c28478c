use prcs::status_constraints::{
    parse_status_constraints, ConstraintType, OutOfRange, ParseStatusConstraintsError,
    StatusConstraint,
};

fn atom(typ: ConstraintType, code: i32, negated: bool) -> StatusConstraint {
    StatusConstraint { typ, code, negated }
}

fn error_message(input: &str) -> String {
    parse_status_constraints(input).unwrap_err().message()
}

#[test]
fn positive_number() {
    assert_eq!(
        parse_status_constraints("42"),
        Ok(vec![StatusConstraint {
            typ: ConstraintType::Eq,
            code: 42,
            negated: false
        }])
    )
}

#[test]
fn negative_number() {
    assert_eq!(
        parse_status_constraints("-42"),
        Ok(vec![StatusConstraint {
            typ: ConstraintType::Eq,
            code: -42,
            negated: false
        }])
    )
}

#[test]
fn negated() {
    assert_eq!(
        parse_status_constraints("!42"),
        Ok(vec![StatusConstraint {
            typ: ConstraintType::Eq,
            code: 42,
            negated: true
        }])
    )
}

#[test]
fn explicit_equals() {
    assert_eq!(
        parse_status_constraints("=42"),
        Ok(vec![StatusConstraint {
            typ: ConstraintType::Eq,
            code: 42,
            negated: false
        }])
    )
}

#[test]
fn greater_than() {
    assert_eq!(
        parse_status_constraints(">42"),
        Ok(vec![StatusConstraint {
            typ: ConstraintType::Gt,
            code: 42,
            negated: false
        }])
    )
}

#[test]
fn less_than() {
    assert_eq!(
        parse_status_constraints("<42"),
        Ok(vec![StatusConstraint {
            typ: ConstraintType::Lt,
            code: 42,
            negated: false
        }])
    )
}

#[test]
fn or_equal() {
    assert_eq!(
        parse_status_constraints(">=42"),
        Ok(vec![StatusConstraint {
            typ: ConstraintType::Gte,
            code: 42,
            negated: false
        }])
    )
}

#[test]
fn parse_multiple_constraints() {
    assert_eq!(
        parse_status_constraints("42 1337"),
        Ok(vec![
            StatusConstraint {
                typ: ConstraintType::Eq,
                code: 42,
                negated: false
            },
            StatusConstraint {
                typ: ConstraintType::Eq,
                code: 1337,
                negated: false
            }
        ])
    )
}

#[test]
fn whitespace() {
    assert_eq!(
        parse_status_constraints(" ! >= -42 "),
        Ok(vec![StatusConstraint {
            typ: ConstraintType::Gte,
            code: -42,
            negated: true
        }])
    )
}

#[test]
fn integer_out_of_bounds_error() {
    let input = i64::MAX.to_string();
    let err = parse_status_constraints(&input).unwrap_err();
    assert!(err.message().contains(&input));
    assert!(err.message().to_lowercase().contains("too high"));
}

#[test]
fn invalid_token() {
    assert_eq!(error_message("x"), "Expected one of '!><=-0123456789', got: x");
}

#[test]
fn invalid_token_after_negation() {
    assert_eq!(error_message("!x"), "Expected one of '><=-0123456789', got: x");
}

#[test]
fn invalid_token_after_operator() {
    assert_eq!(error_message(">x"), "Expected one of '=-0123456789', got: x");
}

#[test]
fn invalid_token_after_equal_sign() {
    assert_eq!(error_message("=x"), "Expected one of '-0123456789', got: x");
}

#[test]
fn invalid_token_after_minus() {
    assert_eq!(error_message("-x"), "Expected one of '0123456789', got: x");
}

#[test]
fn invalid_token_after_number() {
    assert_eq!(error_message("4x"), "Expected one of '!><=-0123456789', got: x");
}

#[test]
fn less_or_equal() {
    assert_eq!(
        parse_status_constraints("<=42"),
        Ok(vec![atom(ConstraintType::Lte, 42, false)])
    );
}

#[test]
fn whitespace_is_insignificant() {
    assert_eq!(
        parse_status_constraints(" ! >= -42 "),
        parse_status_constraints("!>=-42")
    );
    assert_eq!(
        parse_status_constraints("\t!\t>=\t-42\t"),
        parse_status_constraints("!>=-42")
    );
}

#[test]
fn atoms_need_no_separator_after_a_number() {
    assert_eq!(
        parse_status_constraints(">128!130"),
        Ok(vec![
            atom(ConstraintType::Gt, 128, false),
            atom(ConstraintType::Eq, 130, true)
        ])
    );
}

#[test]
fn default_option_values() {
    assert_eq!(
        parse_status_constraints("!0"),
        Ok(vec![atom(ConstraintType::Eq, 0, true)])
    );
    assert_eq!(
        parse_status_constraints("0"),
        Ok(vec![atom(ConstraintType::Eq, 0, false)])
    );
}

#[test]
fn empty_text_is_rejected() {
    assert_eq!(
        parse_status_constraints(""),
        Err(ParseStatusConstraintsError::UnexpectedToken {
            allowed_tokens: "!><=-0123456789".to_string(),
            input: String::new()
        })
    );
    assert_eq!(error_message("   "), "Expected one of '!><=-0123456789', got: ");
}

#[test]
fn extreme_status_codes() {
    assert_eq!(
        parse_status_constraints("2147483647 -2147483648"),
        Ok(vec![
            atom(ConstraintType::Eq, i32::MAX, false),
            atom(ConstraintType::Eq, i32::MIN, false)
        ])
    );
    assert_eq!(
        parse_status_constraints("-0"),
        Ok(vec![atom(ConstraintType::Eq, 0, false)])
    );
}

#[test]
fn integer_just_too_high() {
    assert_eq!(
        parse_status_constraints(">2147483648"),
        Err(ParseStatusConstraintsError::IntegerOutOfRange {
            literal: "2147483648".to_string(),
            direction: OutOfRange::TooHigh
        })
    );
}

#[test]
fn integer_too_low() {
    assert_eq!(
        parse_status_constraints("! -2147483649"),
        Err(ParseStatusConstraintsError::IntegerOutOfRange {
            literal: "-2147483649".to_string(),
            direction: OutOfRange::TooLow
        })
    );
    assert_eq!(
        error_message("-99999999999999999999999"),
        "Failed to parse '-99999999999999999999999' as a status code. Integer too low."
    );
}

#[test]
fn too_high_message() {
    assert_eq!(
        error_message("99999999999"),
        "Failed to parse '99999999999' as a status code. Integer too high."
    );
}

#[test]
fn equal_sign_must_follow_operator_directly() {
    assert_eq!(error_message("> =42"), "Expected one of '=-0123456789', got: =42");
}

#[test]
fn second_negation_is_rejected() {
    assert_eq!(error_message("!!1"), "Expected one of '><=-0123456789', got: !1");
}

#[test]
fn error_reports_remaining_input() {
    assert_eq!(error_message("1 2 <=y 3"), "Expected one of '-0123456789', got: y 3");
    assert_eq!(error_message("- 1"), "Expected one of '0123456789', got:  1");
}
