//! Decoding a submission from either of its two encodings.

use vstd::prelude::*;
use crate::errors::{Reply, ServerError};
use crate::text::{starts_with, str_starts_with};

verus! {

/// One feedback submission. `email` stays absent when none was given.
#[derive(Clone, Debug, PartialEq, Eq)]
pub struct SubmitBody {
    pub email: Option<String>,
    pub subject: String,
    pub message: String,
    pub source: String,
}

/// A submission as plain text.
pub struct SubmitView {
    pub email: Option<Seq<char>>,
    pub subject: Seq<char>,
    pub message: Seq<char>,
    pub source: Seq<char>,
}

impl View for SubmitBody {
    type V = SubmitView;

    open spec fn view(&self) -> SubmitView {
        SubmitView {
            email: text_of(self.email),
            subject: self.subject@,
            message: self.message@,
            source: self.source@,
        }
    }
}

/// An encoding that a submission may arrive in.
#[derive(Clone, Copy, Debug, PartialEq, Eq, Structural)]
pub enum Encoding {
    Json,
    Form,
}

/// What the content type of a request says about its body.
#[derive(Clone, Copy, Debug, PartialEq, Eq, Structural)]
pub enum Declared {
    Json,
    Form,
    /// No content type, or one that names neither encoding.
    Unspecified,
}

/// A field that every submission must carry.
#[derive(Clone, Copy, Debug, PartialEq, Eq, Structural)]
pub enum Required {
    Subject,
    Message,
    Source,
}

/// Why one decoder made no record of a body.
#[derive(Clone, Copy, Debug, PartialEq, Eq, Structural)]
pub enum DecodeError {
    /// The body is not a flat set of text fields in this encoding.
    Malformed,
    /// The body was read, and this field is not in it.
    Missing(Required),
}

/// Why a submission was refused, and by which decoder.
#[derive(Clone, Copy, Debug, PartialEq, Eq, Structural)]
pub struct Rejection {
    pub encoding: Encoding,
    pub error: DecodeError,
}

/// The value of one member of a decoded body.
#[derive(Clone, Debug, PartialEq, Eq)]
pub enum FieldValue {
    Text(String),
    Null,
    /// Anything that is neither text nor null: a number, a truth value, a
    /// list or an object.
    Other,
}

/// A member's value as plain text.
pub enum ValueView {
    Text(Seq<char>),
    Null,
    Other,
}

impl View for FieldValue {
    type V = ValueView;

    open spec fn view(&self) -> ValueView {
        match self {
            FieldValue::Text(text) => ValueView::Text(text@),
            FieldValue::Null => ValueView::Null,
            FieldValue::Other => ValueView::Other,
        }
    }
}

/// The text of an optional string.
pub open spec fn text_of(o: Option<String>) -> Option<Seq<char>> {
    match o {
        Some(s) => Some(s@),
        None => None,
    }
}

/// The members of a decoded body as plain text: each name with its value.
pub open spec fn fields_view(fields: Seq<(String, FieldValue)>) -> Seq<
    (Seq<char>, ValueView),
> {
    Seq::new(fields.len(), |i: int| (fields[i].0@, fields[i].1@))
}

/// What a decoder read, as plain text; `None` where it refused the body.
pub open spec fn parsed_view(parsed: Option<Vec<(String, FieldValue)>>) -> Option<
    Seq<(Seq<char>, ValueView)>,
> {
    match parsed {
        Some(fields) => Some(fields_view(fields@)),
        None => None,
    }
}

/// An outcome with its record as plain text.
pub open spec fn outcome_view<E>(r: Result<SubmitBody, E>) -> Result<SubmitView, E> {
    match r {
        Ok(record) => Ok(record@),
        Err(e) => Err(e),
    }
}

/// The members that the JSON decoder reads from a body, or `None` where the
/// body is not a JSON object.
pub uninterp spec fn json_fields_of(body: Seq<u8>) -> Option<Seq<(Seq<char>, ValueView)>>;

/// The fields that the form decoder reads from a body, or `None` where it
/// refuses the body.
pub uninterp spec fn form_fields_of(body: Seq<u8>) -> Option<Seq<(Seq<char>, ValueView)>>;

/// `serde_json::from_slice` at `serde_json::Map`: the members of a JSON
/// object by name, each value told apart as text, null or anything else.
/// The result depends on the bytes alone.
#[verifier::external_body]
fn json_fields(body: &[u8]) -> (r: Option<Vec<(String, FieldValue)>>)
    ensures
        parsed_view(r) == json_fields_of(body@),
{
    let object = serde_json::from_slice::<serde_json::Map<String, serde_json::Value>>(body).ok()?;
    let value = |v| match v {
        serde_json::Value::String(text) => FieldValue::Text(text),
        serde_json::Value::Null => FieldValue::Null,
        serde_json::Value::Bool(_) => FieldValue::Other,
        serde_json::Value::Number(_) => FieldValue::Other,
        serde_json::Value::Array(_) => FieldValue::Other,
        serde_json::Value::Object(_) => FieldValue::Other,
    };
    Some(object.into_iter().map(|m| (m.0, value(m.1))).collect())
}

/// `serde_urlencoded::from_bytes` at a list of pairs: the percent-decoded
/// names and values of a form body, in the order they stand in, each value
/// as text. The result depends on the bytes alone.
#[verifier::external_body]
fn form_fields(body: &[u8]) -> (r: Option<Vec<(String, FieldValue)>>)
    ensures
        parsed_view(r) == form_fields_of(body@),
{
    let pairs = serde_urlencoded::from_bytes::<Vec<(String, String)>>(body).ok()?;
    Some(pairs.into_iter().map(|p| (p.0, FieldValue::Text(p.1))).collect())
}

/// The text of the first member named `key`; absent where no member has
/// that name or the first one holds something other than text. Members
/// under other names are not looked at.
pub open spec fn lookup(fields: Seq<(Seq<char>, ValueView)>, key: Seq<char>) -> Option<
    Seq<char>,
>
    decreases fields.len(),
{
    if fields.len() == 0 {
        None
    } else if fields[0].0 == key {
        match fields[0].1 {
            ValueView::Text(text) => Some(text),
            _ => None,
        }
    } else {
        lookup(fields.drop_first(), key)
    }
}

/// The record that a set of fields makes, or the first required field that
/// it lacks.
pub open spec fn record_of(fields: Seq<(Seq<char>, ValueView)>) -> Result<
    SubmitView,
    Required,
> {
    match lookup(fields, "subject"@) {
        None => Err(Required::Subject),
        Some(subject) => match lookup(fields, "message"@) {
            None => Err(Required::Message),
            Some(message) => match lookup(fields, "source"@) {
                None => Err(Required::Source),
                Some(source) => Ok(
                    SubmitView { email: lookup(fields, "email"@), subject, message, source },
                ),
            },
        },
    }
}

/// What one decoder makes of a body, given the fields it read from it.
pub open spec fn attempt_of(
    encoding: Encoding,
    parsed: Option<Seq<(Seq<char>, ValueView)>>,
) -> Result<SubmitView, Rejection> {
    match parsed {
        None => Err(Rejection { encoding, error: DecodeError::Malformed }),
        Some(fields) => match record_of(fields) {
            Ok(record) => Ok(record),
            Err(field) => Err(Rejection { encoding, error: DecodeError::Missing(field) }),
        },
    }
}

/// Tries the form decoder after the JSON decoder has failed with `first`:
/// its record if it makes one, and else the JSON failure.
pub open spec fn fall_back_of(first: Rejection, form: Option<Seq<(Seq<char>, ValueView)>>) -> Result<
    SubmitView,
    Rejection,
> {
    match attempt_of(Encoding::Form, form) {
        Ok(record) => Ok(record),
        Err(_) => Err(first),
    }
}

/// The outcome of negotiation. The first decoder that makes a record wins.
///
/// A body declared as JSON goes to the JSON decoder. If that cannot read it
/// at all, the body is in the wrong encoding and the form decoder is tried;
/// a JSON body that lacks a field is refused then and there. A body
/// declared as a form goes to the form decoder alone. Without a declared
/// encoding JSON is tried first and the form decoder second, whatever the
/// first failure was. Where both decoders were tried and failed, the JSON
/// failure is reported.
pub open spec fn decide_of(
    declared: Declared,
    json: Option<Seq<(Seq<char>, ValueView)>>,
    form: Option<Seq<(Seq<char>, ValueView)>>,
) -> Result<SubmitView, Rejection> {
    match declared {
        Declared::Json => match attempt_of(Encoding::Json, json) {
            Ok(record) => Ok(record),
            Err(first) => match first.error {
                DecodeError::Malformed => fall_back_of(first, form),
                DecodeError::Missing(_) => Err(first),
            },
        },
        Declared::Form => attempt_of(Encoding::Form, form),
        Declared::Unspecified => match attempt_of(Encoding::Json, json) {
            Ok(record) => Ok(record),
            Err(first) => fall_back_of(first, form),
        },
    }
}

/// What a content type declares: JSON if it starts with `application/json`,
/// a form if it starts with `application/x-www-form-urlencoded`.
pub open spec fn declared_of(content_type: Option<Seq<char>>) -> Declared {
    match content_type {
        None => Declared::Unspecified,
        Some(s) => if starts_with(s, "application/json"@) {
            Declared::Json
        } else if starts_with(s, "application/x-www-form-urlencoded"@) {
            Declared::Form
        } else {
            Declared::Unspecified
        },
    }
}

/// The outcome of negotiation for a body under a declared encoding, by what
/// the two decoders read from that body.
pub open spec fn negotiate_of(declared: Declared, body: Seq<u8>) -> Result<SubmitView, Rejection> {
    decide_of(declared, json_fields_of(body), form_fields_of(body))
}

/// The text of an optional string slice.
pub open spec fn str_text_of(o: Option<&str>) -> Option<Seq<char>> {
    match o {
        Some(s) => Some(s@),
        None => None,
    }
}

/// Looks a field up by name.
fn find(fields: &Vec<(String, FieldValue)>, key: &str) -> (r: Option<String>)
    ensures
        text_of(r) == lookup(fields_view(fields@), key@),
{
    let k = String::from_str(key);
    let ghost all = fields_view(fields@);
    let mut i: usize = 0;
    assert(all.subrange(0, all.len() as int) =~= all);
    while i < fields.len()
        invariant
            i <= fields.len(),
            k@ == key@,
            all == fields_view(fields@),
            lookup(all, key@) == lookup(all.subrange(i as int, all.len() as int), key@),
        decreases fields.len() - i,
    {
        proof {
            let rest = all.subrange(i as int, all.len() as int);
            assert(rest[0] == all[i as int]);
            assert(rest.drop_first() =~= all.subrange(i + 1, all.len() as int));
        }
        if fields[i].0 == k {
            return match &fields[i].1 {
                FieldValue::Text(text) => Some(text.clone()),
                _ => None,
            };
        }
        i += 1;
    }
    None
}

impl SubmitBody {
    /// Builds the record from decoded fields. `subject`, `message` and
    /// `source` are required, and the first of them that is absent is
    /// reported; `email` is taken if it is there.
    pub fn from_fields(fields: &Vec<(String, FieldValue)>) -> (r: Result<SubmitBody, Required>)
        ensures
            outcome_view(r) == record_of(fields_view(fields@)),
    {
        let Some(subject) = find(fields, "subject") else {
            return Err(Required::Subject);
        };
        let Some(message) = find(fields, "message") else {
            return Err(Required::Message);
        };
        let Some(source) = find(fields, "source") else {
            return Err(Required::Source);
        };
        Ok(SubmitBody { email: find(fields, "email"), subject, message, source })
    }
}

/// Reads the declared encoding off a content type.
pub fn declared_encoding(content_type: Option<&str>) -> (r: Declared)
    ensures
        r == declared_of(str_text_of(content_type)),
{
    match content_type {
        None => Declared::Unspecified,
        Some(s) => {
            if str_starts_with(s, "application/json") {
                Declared::Json
            } else if str_starts_with(s, "application/x-www-form-urlencoded") {
                Declared::Form
            } else {
                Declared::Unspecified
            }
        },
    }
}

/// What one decoder makes of a body, given what it read.
pub fn attempt(encoding: Encoding, parsed: &Option<Vec<(String, FieldValue)>>) -> (r: Result<
    SubmitBody,
    Rejection,
>)
    ensures
        outcome_view(r) == attempt_of(encoding, parsed_view(*parsed)),
{
    match parsed {
        None => Err(Rejection { encoding, error: DecodeError::Malformed }),
        Some(fields) => match SubmitBody::from_fields(fields) {
            Ok(record) => Ok(record),
            Err(field) => Err(Rejection { encoding, error: DecodeError::Missing(field) }),
        },
    }
}

/// Settles a submission from what the content type declares and what each
/// decoder read from the body.
pub fn decide(
    declared: Declared,
    json: &Option<Vec<(String, FieldValue)>>,
    form: &Option<Vec<(String, FieldValue)>>,
) -> (r: Result<SubmitBody, Rejection>)
    ensures
        outcome_view(r) == decide_of(declared, parsed_view(*json), parsed_view(*form)),
{
    match declared {
        Declared::Json => match attempt(Encoding::Json, json) {
            Ok(record) => Ok(record),
            Err(first) => match first.error {
                DecodeError::Malformed => match attempt(Encoding::Form, form) {
                    Ok(record) => Ok(record),
                    Err(_) => Err(first),
                },
                DecodeError::Missing(_) => Err(first),
            },
        },
        Declared::Form => attempt(Encoding::Form, form),
        Declared::Unspecified => match attempt(Encoding::Json, json) {
            Ok(record) => Ok(record),
            Err(first) => match attempt(Encoding::Form, form) {
                Ok(record) => Ok(record),
                Err(_) => Err(first),
            },
        },
    }
}

/// Decodes the body of a request into a submission, or says why not.
pub fn negotiate(content_type: Option<&str>, body: &[u8]) -> (r: Result<SubmitBody, Rejection>)
    ensures
        outcome_view(r) == negotiate_of(declared_of(str_text_of(content_type)), body@),
{
    let declared = declared_encoding(content_type);
    let json = json_fields(body);
    let form = form_fields(body);
    decide(declared, &json, &form)
}

impl Rejection {
    /// 400 for a body that could not be read, 422 for one that lacks a field.
    pub open spec fn status_spec(self) -> u16 {
        match self.error {
            DecodeError::Malformed => 400,
            DecodeError::Missing(_) => 422,
        }
    }

    /// The status a refused submission is answered with: 400 for a body that
    /// could not be read, 422 for one that lacks a field.
    pub fn status(&self) -> (r: u16)
        ensures
            r == self.status_spec(),
            400 <= r < 500,
    {
        match self.error {
            DecodeError::Malformed => 400,
            DecodeError::Missing(_) => 422,
        }
    }

    /// The refusal as a formed response: a client error with no body.
    pub fn into_error(self) -> (r: ServerError)
        ensures
            r == ServerError::Response(Reply { status: self.status_spec(), headers: None, body: None }),
    {
        ServerError::Response(Reply::from_status(self.status()))
    }
}

/// The record of an outcome, if it has one.
pub open spec fn outcome_record<E>(r: Result<SubmitView, E>) -> Option<SubmitView> {
    match r {
        Ok(record) => Some(record),
        Err(_) => None,
    }
}

/// Two sets of fields say the same submission: they give the same value, or
/// none, under each of its four names.
pub open spec fn same_submission(
    a: Seq<(Seq<char>, ValueView)>,
    b: Seq<(Seq<char>, ValueView)>,
) -> bool {
    &&& lookup(a, "email"@) == lookup(b, "email"@)
    &&& lookup(a, "subject"@) == lookup(b, "subject"@)
    &&& lookup(a, "message"@) == lookup(b, "message"@)
    &&& lookup(a, "source"@) == lookup(b, "source"@)
}

/// Fields that lack `subject`, `message` or `source`.
pub open spec fn lacks_required(fields: Seq<(Seq<char>, ValueView)>) -> bool {
    ||| lookup(fields, "subject"@) is None
    ||| lookup(fields, "message"@) is None
    ||| lookup(fields, "source"@) is None
}

/// A JSON body and a form body that say the same submission, with its
/// required fields, decode to the same record: each under its own declared
/// encoding, and the JSON body also without a declared one.
pub proof fn lemma_encodings_agree(json_body: Seq<u8>, form_body: Seq<u8>)
    requires
        json_fields_of(json_body) is Some,
        form_fields_of(form_body) is Some,
        same_submission(json_fields_of(json_body)->Some_0, form_fields_of(form_body)->Some_0),
        !lacks_required(json_fields_of(json_body)->Some_0),
    ensures
        negotiate_of(Declared::Json, json_body) is Ok,
        negotiate_of(Declared::Json, json_body) == negotiate_of(Declared::Form, form_body),
        negotiate_of(Declared::Unspecified, json_body) == negotiate_of(Declared::Json, json_body),
        outcome_record(negotiate_of(Declared::Json, json_body)) == outcome_record(
            record_of(json_fields_of(json_body)->Some_0),
        ),
{
}

/// A body that lacks a required field is refused whatever the content type
/// declares: each decoder either cannot read it or finds the field missing.
pub proof fn lemma_missing_field_rejected(declared: Declared, body: Seq<u8>)
    requires
        json_fields_of(body) matches Some(fields) ==> lacks_required(fields),
        form_fields_of(body) matches Some(fields) ==> lacks_required(fields),
    ensures
        negotiate_of(declared, body) is Err,
{
}

/// Fields that lack a required one make no record, and fields that make no
/// record lack one.
pub proof fn lemma_record_needs_required(fields: Seq<(Seq<char>, ValueView)>)
    ensures
        record_of(fields) is Err <==> lacks_required(fields),
        attempt_of(Encoding::Json, Some(fields)) is Err <==> lacks_required(fields),
        attempt_of(Encoding::Form, Some(fields)) is Err <==> lacks_required(fields),
{
}

} // verus!
