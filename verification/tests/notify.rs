use feedback::config::{Apprise, Config};
use feedback::notify::{NotificationPayload, Outbound};
use feedback::submission::SubmitBody;

fn config(url: &str, stateless_urls: Option<&str>) -> Config {
    Config {
        addr: "127.0.0.1:80".to_string(),
        apprise: Apprise {
            headers: vec![
                ("Authorization".to_string(), "Bearer t".to_string()),
                ("X-Tag".to_string(), "feedback".to_string()),
            ],
            url: url.to_string(),
            stateless_urls: stateless_urls.map(|s| s.to_string()),
        },
    }
}

fn bug(email: Option<&str>) -> SubmitBody {
    SubmitBody {
        email: email.map(|s| s.to_string()),
        subject: "Bug".to_string(),
        message: "It broke".to_string(),
        source: "web".to_string(),
    }
}

fn pair(name: &str, value: &str) -> (String, String) {
    (name.to_string(), value.to_string())
}

#[test]
fn stateless_payload_carries_the_target_urls() {
    let payload = NotificationPayload::new(&config("https://x/notify", Some("url1,url2")), &bug(None));
    assert_eq!(
        payload,
        NotificationPayload {
            title: "[Feedback] Bug".to_string(),
            body: "Source: web\nEmail: anonymous\n\nIt broke".to_string(),
            target_urls: Some("url1,url2".to_string()),
        }
    );
    assert_eq!(
        payload.members(),
        vec![
            pair("body", "Source: web\nEmail: anonymous\n\nIt broke"),
            pair("title", "[Feedback] Bug"),
            pair("urls", "url1,url2"),
        ]
    );
}

#[test]
fn stateful_payload_has_no_target_urls() {
    let payload = NotificationPayload::new(&config("https://x/notify/app", None), &bug(None));
    assert_eq!(payload.target_urls, None);
    assert_eq!(
        payload.members(),
        vec![pair("body", "Source: web\nEmail: anonymous\n\nIt broke"), pair("title", "[Feedback] Bug")]
    );
}

#[test]
fn email_replaces_anonymous() {
    let payload = NotificationPayload::new(&config("https://x/notify/app", None), &bug(Some("a@b.c")));
    assert_eq!(payload.body, "Source: web\nEmail: a@b.c\n\nIt broke");
}

#[test]
fn empty_fields_keep_the_frame() {
    let record = SubmitBody {
        email: Some(String::new()),
        subject: String::new(),
        message: String::new(),
        source: String::new(),
    };
    let payload = NotificationPayload::new(&config("https://x/notify/app", None), &record);
    assert_eq!(payload.title, "[Feedback] ");
    assert_eq!(payload.body, "Source: \nEmail: \n\n");
}

#[test]
fn rendered_payload_is_a_json_object() {
    let payload = NotificationPayload::new(&config("https://x/notify", Some("url1,url2")), &bug(None));
    let value: serde_json::Value = serde_json::from_str(&payload.render()).unwrap();
    let object = value.as_object().unwrap();
    assert_eq!(object.len(), 3);
    assert_eq!(object["title"].as_str(), Some("[Feedback] Bug"));
    assert_eq!(object["body"].as_str(), Some("Source: web\nEmail: anonymous\n\nIt broke"));
    assert_eq!(object["urls"].as_str(), Some("url1,url2"));
}

#[test]
fn rendered_stateful_payload_has_no_urls_member() {
    let payload = NotificationPayload::new(&config("https://x/notify/app", None), &bug(None));
    let value: serde_json::Value = serde_json::from_str(&payload.render()).unwrap();
    let object = value.as_object().unwrap();
    assert_eq!(object.len(), 2);
    assert!(object.get("urls").is_none());
    assert_eq!(object["title"].as_str(), Some("[Feedback] Bug"));
}

#[test]
fn rendering_escapes_what_json_must() {
    let record = SubmitBody {
        email: None,
        subject: "say \"hi\"".to_string(),
        message: "a\\b".to_string(),
        source: "web".to_string(),
    };
    let rendered = NotificationPayload::new(&config("https://x/notify/app", None), &record).render();
    assert!(rendered.contains("\\\"hi\\\""));
    let value: serde_json::Value = serde_json::from_str(&rendered).unwrap();
    assert_eq!(value["title"].as_str(), Some("[Feedback] say \"hi\""));
    assert_eq!(value["body"].as_str(), Some("Source: web\nEmail: anonymous\n\na\\b"));
}

#[test]
fn outbound_request_has_url_headers_and_body() {
    let cfg = config("https://x/notify", Some("url1,url2"));
    let request = Outbound::compose(&cfg, &bug(None));
    assert_eq!(request.url, "https://x/notify");
    assert_eq!(
        request.headers,
        vec![
            pair("Content-Type", "application/json"),
            pair("Authorization", "Bearer t"),
            pair("X-Tag", "feedback"),
        ]
    );
    assert_eq!(request.body, NotificationPayload::new(&cfg, &bug(None)).render());
}

#[test]
fn outbound_request_without_configured_headers() {
    let mut cfg = config("https://x/notify/app", None);
    cfg.apprise.headers = Vec::new();
    let request = Outbound::compose(&cfg, &bug(None));
    assert_eq!(request.headers, vec![pair("Content-Type", "application/json")]);
}
