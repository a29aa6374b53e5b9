use auth_core::error::{Error, ValidationError};
use auth_core::validation::{
    nest_validation_errors, validation_error, ValidationErrors, ValidationErrorsKind, Violation,
};

fn v(code: &str) -> Violation {
    Violation { code: code.to_string(), message: None }
}

fn e(field: &str, code: &str) -> ValidationError {
    ValidationError { field: field.to_string(), code: code.to_string(), message: None }
}

fn report() -> ValidationErrors {
    let street = ValidationErrors {
        errors: vec![("street".to_string(), ValidationErrorsKind::Field(vec![v("length")]))],
    };
    let item = |code: &str| ValidationErrors {
        errors: vec![("name".to_string(), ValidationErrorsKind::Field(vec![v(code)]))],
    };
    ValidationErrors {
        errors: vec![
            (
                "email".to_string(),
                ValidationErrorsKind::Field(vec![
                    Violation { code: "email".to_string(), message: Some("not an email".to_string()) },
                    v("length"),
                ]),
            ),
            ("address".to_string(), ValidationErrorsKind::Struct(Box::new(street))),
            (
                "items".to_string(),
                ValidationErrorsKind::List(vec![(0, item("a")), (7, item("b")), (120, item("c"))]),
            ),
            ("empty".to_string(), ValidationErrorsKind::Field(vec![])),
        ],
    }
}

#[test]
fn violations_come_out_flat_with_their_paths() {
    let mut buff = vec![e("before", "kept")];
    nest_validation_errors(&report(), &String::new(), &mut buff);
    assert_eq!(
        buff,
        vec![
            e("before", "kept"),
            ValidationError {
                field: "email".to_string(),
                code: "email".to_string(),
                message: Some("not an email".to_string()),
            },
            e("email", "length"),
            e("address.street", "length"),
            e("items[0].name", "a"),
            e("items[7].name", "b"),
            e("items[120].name", "c"),
        ]
    );
}

#[test]
fn prefix_leads_every_path() {
    let mut buff = vec![];
    nest_validation_errors(&report(), &"form".to_string(), &mut buff);
    let fields: Vec<&str> = buff.iter().map(|x| x.field.as_str()).collect();
    assert_eq!(
        fields,
        vec![
            "form.email",
            "form.email",
            "form.address.street",
            "form.items[0].name",
            "form.items[7].name",
            "form.items[120].name",
        ]
    );
}

#[test]
fn report_becomes_a_validation_failure() {
    match validation_error(&report()) {
        Error::Validation(list) => assert_eq!(list.len(), 6),
        other => panic!("not a validation failure: {:?}", other),
    }
    assert_eq!(validation_error(&ValidationErrors { errors: vec![] }), Error::Validation(vec![]));
    assert_eq!(Error::new(report()), validation_error(&report()));
    assert_eq!(Error::from(report()), validation_error(&report()));
}
