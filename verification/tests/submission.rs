use feedback::errors::{Reply, ServerError};
use feedback::submission::{
    attempt, decide, declared_encoding, negotiate, DecodeError, Declared, Encoding, FieldValue,
    Rejection, Required, SubmitBody,
};

fn bug(email: Option<&str>) -> SubmitBody {
    SubmitBody {
        email: email.map(|s| s.to_string()),
        subject: "Bug".to_string(),
        message: "It broke".to_string(),
        source: "web".to_string(),
    }
}

fn field(name: &str, value: Option<&str>) -> (String, FieldValue) {
    match value {
        Some(text) => (name.to_string(), FieldValue::Text(text.to_string())),
        None => (name.to_string(), FieldValue::Null),
    }
}

const JSON: &[u8] = br#"{"subject":"Bug","message":"It broke","source":"web","email":null}"#;
const JSON_WITH_EMAIL: &[u8] =
    br#"{"email":"a@b.c","subject":"Bug","message":"It broke","source":"web"}"#;
const FORM: &[u8] = b"subject=Bug&message=It+broke&source=web";
const FORM_WITH_EMAIL: &[u8] = b"email=a%40b.c&subject=Bug&message=It+broke&source=web";

#[test]
fn content_type_declares_the_encoding() {
    assert_eq!(declared_encoding(Some("application/json")), Declared::Json);
    assert_eq!(declared_encoding(Some("application/json; charset=utf-8")), Declared::Json);
    assert_eq!(declared_encoding(Some("application/x-www-form-urlencoded")), Declared::Form);
    assert_eq!(declared_encoding(Some("text/plain")), Declared::Unspecified);
    assert_eq!(declared_encoding(Some("")), Declared::Unspecified);
    assert_eq!(declared_encoding(None), Declared::Unspecified);
}

#[test]
fn json_body_decodes() {
    assert_eq!(negotiate(Some("application/json"), JSON), Ok(bug(None)));
    assert_eq!(negotiate(Some("application/json"), JSON_WITH_EMAIL), Ok(bug(Some("a@b.c"))));
}

#[test]
fn form_body_decodes() {
    assert_eq!(negotiate(Some("application/x-www-form-urlencoded"), FORM), Ok(bug(None)));
    assert_eq!(
        negotiate(Some("application/x-www-form-urlencoded"), FORM_WITH_EMAIL),
        Ok(bug(Some("a@b.c")))
    );
}

#[test]
fn both_encodings_give_the_same_record() {
    assert_eq!(
        negotiate(Some("application/json"), JSON_WITH_EMAIL),
        negotiate(Some("application/x-www-form-urlencoded"), FORM_WITH_EMAIL)
    );
    assert_eq!(
        negotiate(Some("application/json"), JSON),
        negotiate(Some("application/x-www-form-urlencoded"), FORM)
    );
}

#[test]
fn missing_content_type_tries_json_then_form() {
    assert_eq!(negotiate(None, JSON), Ok(bug(None)));
    assert_eq!(negotiate(None, FORM), Ok(bug(None)));
    assert_eq!(negotiate(Some("text/plain"), FORM_WITH_EMAIL), Ok(bug(Some("a@b.c"))));
}

#[test]
fn missing_content_type_reports_the_json_failure() {
    assert_eq!(
        negotiate(None, b"subject=Bug"),
        Err(Rejection { encoding: Encoding::Json, error: DecodeError::Malformed })
    );
    assert_eq!(
        negotiate(None, br#"{"subject":"Bug"}"#),
        Err(Rejection { encoding: Encoding::Json, error: DecodeError::Missing(Required::Message) })
    );
}

#[test]
fn declared_json_in_the_wrong_encoding_falls_through_to_the_form_decoder() {
    assert_eq!(negotiate(Some("application/json"), FORM), Ok(bug(None)));
    assert_eq!(negotiate(Some("application/json"), FORM_WITH_EMAIL), Ok(bug(Some("a@b.c"))));
}

#[test]
fn declared_json_that_neither_decoder_reads_reports_the_json_failure() {
    assert_eq!(
        negotiate(Some("application/json"), b"[1, 2]"),
        Err(Rejection { encoding: Encoding::Json, error: DecodeError::Malformed })
    );
    assert_eq!(
        negotiate(Some("application/json"), b"subject=Bug"),
        Err(Rejection { encoding: Encoding::Json, error: DecodeError::Malformed })
    );
}

#[test]
fn declared_json_that_lacks_a_field_does_not_fall_through() {
    assert_eq!(
        negotiate(Some("application/json"), br#"{"subject":"Bug","source":"web"}"#),
        Err(Rejection { encoding: Encoding::Json, error: DecodeError::Missing(Required::Message) })
    );
    let good = Some(vec![
        field("subject", Some("Bug")),
        field("message", Some("It broke")),
        field("source", Some("web")),
    ]);
    let bad = Some(vec![field("subject", Some("Bug"))]);
    assert_eq!(
        decide(Declared::Json, &bad, &good),
        Err(Rejection { encoding: Encoding::Json, error: DecodeError::Missing(Required::Message) })
    );
}

#[test]
fn members_that_are_not_read_may_hold_anything() {
    let body: &[u8] = br#"{"subject":"Bug","message":"It broke","source":"web","n":1,"ok":true,"tags":["a"],"meta":{"k":null}}"#;
    assert_eq!(negotiate(Some("application/json"), body), Ok(bug(None)));
    assert_eq!(
        negotiate(Some("application/json"), body),
        negotiate(
            Some("application/x-www-form-urlencoded"),
            b"subject=Bug&message=It+broke&source=web&n=1&ok=true"
        )
    );
}

#[test]
fn a_value_that_is_not_text_counts_as_absent() {
    assert_eq!(
        negotiate(Some("application/json"), br#"{"subject":5,"message":"It broke","source":"web"}"#),
        Err(Rejection { encoding: Encoding::Json, error: DecodeError::Missing(Required::Subject) })
    );
    assert_eq!(
        negotiate(
            Some("application/json"),
            br#"{"subject":"Bug","message":"It broke","source":"web","email":7}"#
        ),
        Ok(bug(None))
    );
    let fields = vec![
        ("subject".to_string(), FieldValue::Text("Bug".to_string())),
        ("message".to_string(), FieldValue::Other),
        ("source".to_string(), FieldValue::Text("web".to_string())),
    ];
    assert_eq!(SubmitBody::from_fields(&fields), Err(Required::Message));
}

#[test]
fn declared_form_reports_the_form_failure() {
    assert_eq!(
        negotiate(Some("application/x-www-form-urlencoded"), JSON),
        Err(Rejection { encoding: Encoding::Form, error: DecodeError::Missing(Required::Subject) })
    );
}

#[test]
fn missing_required_field_is_rejected_in_json() {
    let missing = |body: &[u8]| negotiate(Some("application/json"), body).unwrap_err().error;
    assert_eq!(
        missing(br#"{"message":"It broke","source":"web"}"#),
        DecodeError::Missing(Required::Subject)
    );
    assert_eq!(
        missing(br#"{"subject":"Bug","source":"web"}"#),
        DecodeError::Missing(Required::Message)
    );
    assert_eq!(
        missing(br#"{"subject":"Bug","message":"It broke"}"#),
        DecodeError::Missing(Required::Source)
    );
    assert_eq!(
        missing(br#"{"subject":null,"message":"It broke","source":"web"}"#),
        DecodeError::Missing(Required::Subject)
    );
    assert_eq!(missing(b"{}"), DecodeError::Missing(Required::Subject));
}

#[test]
fn missing_required_field_is_rejected_in_form() {
    let missing =
        |body: &[u8]| negotiate(Some("application/x-www-form-urlencoded"), body).unwrap_err().error;
    assert_eq!(missing(b"message=It+broke&source=web"), DecodeError::Missing(Required::Subject));
    assert_eq!(missing(b"subject=Bug&source=web"), DecodeError::Missing(Required::Message));
    assert_eq!(missing(b"subject=Bug&message=It+broke"), DecodeError::Missing(Required::Source));
    assert_eq!(missing(b""), DecodeError::Missing(Required::Subject));
}

#[test]
fn empty_values_are_present() {
    assert_eq!(
        negotiate(Some("application/x-www-form-urlencoded"), b"subject=&message=&source=&email="),
        Ok(SubmitBody {
            email: Some(String::new()),
            subject: String::new(),
            message: String::new(),
            source: String::new(),
        })
    );
}

#[test]
fn from_fields_takes_the_first_field_of_a_name() {
    let fields = vec![
        field("source", Some("web")),
        field("subject", Some("Bug")),
        field("other", Some("x")),
        field("subject", Some("Second")),
        field("message", Some("It broke")),
    ];
    assert_eq!(SubmitBody::from_fields(&fields), Ok(bug(None)));
}

#[test]
fn from_fields_reports_the_first_missing_field() {
    assert_eq!(SubmitBody::from_fields(&Vec::new()), Err(Required::Subject));
    assert_eq!(SubmitBody::from_fields(&vec![field("subject", Some("a"))]), Err(Required::Message));
    assert_eq!(
        SubmitBody::from_fields(&vec![field("subject", Some("a")), field("message", Some("b"))]),
        Err(Required::Source)
    );
    assert_eq!(
        SubmitBody::from_fields(&vec![
            field("subject", None),
            field("subject", Some("late")),
            field("message", Some("b")),
            field("source", Some("c")),
        ]),
        Err(Required::Subject)
    );
}

#[test]
fn attempt_names_its_encoding() {
    assert_eq!(
        attempt(Encoding::Form, &None),
        Err(Rejection { encoding: Encoding::Form, error: DecodeError::Malformed })
    );
    assert_eq!(
        attempt(Encoding::Json, &Some(Vec::new())),
        Err(Rejection { encoding: Encoding::Json, error: DecodeError::Missing(Required::Subject) })
    );
}

#[test]
fn decide_follows_the_declared_encoding() {
    let good = Some(vec![
        field("subject", Some("Bug")),
        field("message", Some("It broke")),
        field("source", Some("web")),
    ]);
    let bad = Some(vec![field("subject", Some("Bug"))]);
    assert_eq!(decide(Declared::Json, &good, &None), Ok(bug(None)));
    assert_eq!(decide(Declared::Json, &None, &good), Ok(bug(None)));
    assert_eq!(
        decide(Declared::Json, &None, &bad),
        Err(Rejection { encoding: Encoding::Json, error: DecodeError::Malformed })
    );
    assert_eq!(
        decide(Declared::Json, &None, &None),
        Err(Rejection { encoding: Encoding::Json, error: DecodeError::Malformed })
    );
    assert_eq!(decide(Declared::Form, &None, &good), Ok(bug(None)));
    assert_eq!(
        decide(Declared::Form, &good, &bad),
        Err(Rejection { encoding: Encoding::Form, error: DecodeError::Missing(Required::Message) })
    );
    assert_eq!(decide(Declared::Unspecified, &None, &good), Ok(bug(None)));
    assert_eq!(decide(Declared::Unspecified, &good, &None), Ok(bug(None)));
    assert_eq!(
        decide(Declared::Unspecified, &bad, &None),
        Err(Rejection { encoding: Encoding::Json, error: DecodeError::Missing(Required::Message) })
    );
}

#[test]
fn rejection_maps_to_a_client_error() {
    let malformed = Rejection { encoding: Encoding::Json, error: DecodeError::Malformed };
    let missing =
        Rejection { encoding: Encoding::Form, error: DecodeError::Missing(Required::Source) };
    assert_eq!(malformed.status(), 400);
    assert_eq!(missing.status(), 422);
    assert_eq!(
        malformed.into_error(),
        ServerError::Response(Reply { status: 400, headers: None, body: None })
    );
    assert_eq!(missing.into_error(), ServerError::Response(Reply { status: 422, headers: None, body: None }));
}
