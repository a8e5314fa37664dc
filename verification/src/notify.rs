//! Composing the notification that is sent to the endpoint.

use vstd::prelude::*;
use crate::config::Config;
use crate::submission::{text_of, SubmitBody, SubmitView};
use crate::text::pairs_view;

verus! {

/// The body of the outbound request before it is rendered. `target_urls` is
/// there in stateless mode only and goes out under the name `urls`.
#[derive(Clone, Debug, PartialEq, Eq)]
pub struct NotificationPayload {
    pub title: String,
    pub body: String,
    pub target_urls: Option<String>,
}

/// A payload as plain text.
pub struct PayloadView {
    pub title: Seq<char>,
    pub body: Seq<char>,
    pub target_urls: Option<Seq<char>>,
}

impl View for NotificationPayload {
    type V = PayloadView;

    open spec fn view(&self) -> PayloadView {
        PayloadView { title: self.title@, body: self.body@, target_urls: text_of(self.target_urls) }
    }
}

/// One request to the notification endpoint: a POST to `url` with these
/// headers, in order, and this body.
#[derive(Clone, Debug, PartialEq, Eq)]
pub struct Outbound {
    pub url: String,
    pub headers: Vec<(String, String)>,
    pub body: String,
}

/// The title of a notification: a fixed prefix and the subject.
pub open spec fn title_of(subject: Seq<char>) -> Seq<char> {
    "[Feedback] "@ + subject
}

/// The email line's content: the address, or `anonymous` without one.
pub open spec fn sender_of(email: Option<Seq<char>>) -> Seq<char> {
    match email {
        Some(address) => address,
        None => "anonymous"@,
    }
}

/// The text of a notification: the source, the sender, a blank line, and
/// the message.
pub open spec fn body_of(record: SubmitView) -> Seq<char> {
    "Source: "@ + record.source + "\nEmail: "@ + sender_of(record.email) + "\n\n"@ + record.message
}

/// The payload for a submission under a configuration. The configured
/// target URLs are carried over as they are.
pub open spec fn payload_of(cfg: Config, record: SubmitView) -> PayloadView {
    PayloadView {
        title: title_of(record.subject),
        body: body_of(record),
        target_urls: text_of(cfg.apprise.stateless_urls),
    }
}

/// The members of the payload's JSON object, by name.
pub open spec fn members_of(payload: PayloadView) -> Seq<(Seq<char>, Seq<char>)> {
    seq![("body"@, payload.body), ("title"@, payload.title)] + match payload.target_urls {
        Some(urls) => seq![("urls"@, urls)],
        None => Seq::<(Seq<char>, Seq<char>)>::empty(),
    }
}

/// The headers of the outbound request: the JSON content type, then the
/// configured ones.
pub open spec fn headers_of(configured: Seq<(Seq<char>, Seq<char>)>) -> Seq<
    (Seq<char>, Seq<char>),
> {
    seq![("Content-Type"@, "application/json"@)] + configured
}

/// The compact JSON text of an object whose members are strings.
pub uninterp spec fn json_object_text(members: Seq<(Seq<char>, Seq<char>)>) -> Seq<char>;

/// `serde_json::Value::Object` over a `serde_json::Map` collected from the
/// members, each value a `Value::String`, rendered by the value's `Display`
/// impl: compact JSON. The text depends on the members alone.
#[verifier::external_body]
fn render_object(members: &Vec<(String, String)>) -> (r: String)
    ensures
        r@ == json_object_text(pairs_view(members@)),
{
    let object: serde_json::Map<String, serde_json::Value> = members.iter().map(
        |m| (m.0.clone(), serde_json::Value::String(m.1.clone())),
    ).collect();
    serde_json::Value::Object(object).to_string()
}

/// Builds the title for a subject.
fn title_text(subject: &str) -> (r: String)
    ensures
        r@ == title_of(subject@),
{
    String::from_str("[Feedback] ").concat(subject)
}

/// Builds the text of the notification for a submission.
fn body_text(record: &SubmitBody) -> (r: String)
    ensures
        r@ == body_of(record@),
{
    let mut text = String::from_str("Source: ");
    text.append(record.source.as_str());
    text.append("\nEmail: ");
    match &record.email {
        Some(address) => text.append(address.as_str()),
        None => text.append("anonymous"),
    }
    text.append("\n\n");
    text.append(record.message.as_str());
    text
}

/// Puts the JSON content type in front of copies of the configured headers.
fn outbound_headers(configured: &Vec<(String, String)>) -> (r: Vec<(String, String)>)
    ensures
        pairs_view(r@) == headers_of(pairs_view(configured@)),
{
    let mut headers: Vec<(String, String)> = Vec::new();
    headers.push((String::from_str("Content-Type"), String::from_str("application/json")));
    let mut i: usize = 0;
    while i < configured.len()
        invariant
            i <= configured.len(),
            headers.len() == i + 1,
            headers[0].0@ == "Content-Type"@,
            headers[0].1@ == "application/json"@,
            forall|k: int|
                1 <= k <= i ==> (#[trigger] headers[k]).0@ == configured[k - 1].0@ && headers[k].1@
                    == configured[k - 1].1@,
        decreases configured.len() - i,
    {
        headers.push((configured[i].0.clone(), configured[i].1.clone()));
        i += 1;
    }
    assert(pairs_view(headers@) =~= headers_of(pairs_view(configured@)));
    headers
}

impl NotificationPayload {
    /// Composes the payload for one submission.
    pub fn new(cfg: &Config, record: &SubmitBody) -> (r: NotificationPayload)
        ensures
            r@ == payload_of(*cfg, record@),
    {
        let target_urls = match &cfg.apprise.stateless_urls {
            Some(urls) => Some(urls.clone()),
            None => None,
        };
        NotificationPayload {
            title: title_text(record.subject.as_str()),
            body: body_text(record),
            target_urls,
        }
    }

    /// The members of the JSON object that the payload goes out as.
    pub fn members(&self) -> (r: Vec<(String, String)>)
        ensures
            pairs_view(r@) == members_of(self@),
    {
        let mut members: Vec<(String, String)> = Vec::new();
        members.push((String::from_str("body"), self.body.clone()));
        members.push((String::from_str("title"), self.title.clone()));
        match &self.target_urls {
            Some(urls) => {
                members.push((String::from_str("urls"), urls.clone()));
            },
            None => {},
        }
        assert(pairs_view(members@) =~= members_of(self@));
        members
    }

    /// The payload as JSON text.
    pub fn render(&self) -> (r: String)
        ensures
            r@ == json_object_text(members_of(self@)),
    {
        let members = self.members();
        render_object(&members)
    }
}

impl Outbound {
    /// `self` is the one request that `record` calls for under `cfg`: to the
    /// configured URL, with the JSON content type and the configured headers,
    /// carrying the rendered payload.
    pub open spec fn carries(self, cfg: Config, record: SubmitView) -> bool {
        &&& self.url@ == cfg.apprise.url@
        &&& pairs_view(self.headers@) == headers_of(pairs_view(cfg.apprise.headers@))
        &&& self.body@ == json_object_text(members_of(payload_of(cfg, record)))
    }

    /// Composes the request that forwards one submission.
    pub fn compose(cfg: &Config, record: &SubmitBody) -> (r: Outbound)
        ensures
            r.carries(*cfg, record@),
    {
        let payload = NotificationPayload::new(cfg, record);
        Outbound {
            url: cfg.apprise.url.clone(),
            headers: outbound_headers(&cfg.apprise.headers),
            body: payload.render(),
        }
    }
}

} // verus!
