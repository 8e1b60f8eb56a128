use slack_payload::{
    Attachment, CalendarTime, Encode, Field, HexColor, Parse, Payload, SlackText, SlackTime, Url,
    Value,
};

fn s(x: &str) -> Value {
    Value::Str(x.to_string())
}

fn obj(entries: Vec<(&str, Value)>) -> Value {
    Value::Object(entries.into_iter().map(|(k, v)| (k.to_string(), v)).collect())
}

fn keys(v: &Value) -> Vec<String> {
    match v {
        Value::Object(entries) => entries.iter().map(|(k, _)| k.clone()).collect(),
        other => panic!("not an object: {other:?}"),
    }
}

fn entry<'a>(v: &'a Value, key: &str) -> &'a Value {
    match v {
        Value::Object(entries) => &entries.iter().find(|(k, _)| k == key).expect(key).1,
        other => panic!("not an object: {other:?}"),
    }
}

#[test]
fn payload_with_only_text_has_only_the_text_key() {
    let p = Payload { text: Some(SlackText::from_raw("hi & bye")), ..Default::default() };
    assert_eq!(p.encode(), obj(vec![("text", s("hi &amp; bye"))]));
}

#[test]
fn empty_payload_is_empty_object() {
    assert_eq!(Payload::default().encode(), obj(vec![]));
}

#[test]
fn end_to_end_payload() {
    let field = Field {
        title: "k".to_string(),
        value: SlackText::from_raw("v"),
        short: Some(true),
    };
    let attachment = Attachment {
        fallback: SlackText::from_raw("fallback"),
        color: Some(HexColor::parse("danger").unwrap()),
        fields: Some(vec![field]),
        ..Default::default()
    };
    let p = Payload {
        text: Some(SlackText::from_raw("hello <world>")),
        attachments: Some(vec![attachment]),
        ..Default::default()
    };
    let v = p.encode();
    assert_eq!(entry(&v, "text"), &s("hello &lt;world&gt;"));
    let attachments = match entry(&v, "attachments") {
        Value::List(items) => items,
        other => panic!("attachments: {other:?}"),
    };
    assert_eq!(attachments.len(), 1);
    assert_eq!(entry(&attachments[0], "color"), &s("danger"));
    assert_eq!(
        entry(&attachments[0], "fields"),
        &Value::List(vec![obj(vec![("title", s("k")), ("value", s("v")), ("short", Value::Bool(true))])])
    );
    assert_eq!(keys(&v), vec!["text", "attachments"]);
    assert_eq!(keys(&attachments[0]), vec!["fallback", "color", "fields"]);
}

#[test]
fn field_without_short_omits_it() {
    let f = Field { title: "a<b".to_string(), value: SlackText::from_raw("x<y"), short: None };
    assert_eq!(f.encode(), obj(vec![("title", s("a<b")), ("value", s("x&lt;y"))]));
}

#[test]
fn default_attachment_has_only_fallback() {
    assert_eq!(Attachment::default().encode(), obj(vec![("fallback", s(""))]));
}

#[test]
fn full_attachment_keys_in_order() {
    let url = |x: &str| Some(Url::new(x));
    let t = CalendarTime::new(2021, 1, 1, 0, 0, 0, 0).unwrap();
    let a = Attachment {
        fallback: SlackText::from_raw("f"),
        text: Some(SlackText::from_raw("t")),
        pretext: Some(SlackText::from_raw("p")),
        color: Some(HexColor::parse("#abc").unwrap()),
        fields: Some(vec![]),
        author_name: Some(SlackText::from_raw("an")),
        author_link: url("https://a.example/l"),
        author_icon: url("https://a.example/i"),
        title: Some(SlackText::from_raw("ti")),
        title_link: url("https://t.example/"),
        image_url: url("https://i.example/"),
        thumb_url: url("https://th.example/"),
        footer: Some(SlackText::from_raw("fo")),
        footer_icon: url("https://f.example/"),
        ts: Some(SlackTime::new(&t)),
    };
    let v = a.encode();
    assert_eq!(
        keys(&v),
        vec![
            "fallback", "text", "pretext", "color", "fields", "author_name", "author_link",
            "author_icon", "title", "title_link", "image_url", "thumb_url", "footer",
            "footer_icon", "ts"
        ]
    );
    assert_eq!(entry(&v, "ts"), &Value::Int(1609459200));
    assert_eq!(entry(&v, "fields"), &Value::List(vec![]));
    assert_eq!(entry(&v, "author_link"), &s("https://a.example/l"));
    assert_eq!(entry(&v, "color"), &s("#abc"));
    assert_eq!(a.to_value(), v);
}

#[test]
fn full_payload_keys_and_scalars() {
    let p = Payload {
        text: Some(SlackText::from_raw("x")),
        channel: Some("#general".to_string()),
        username: Some("bot".to_string()),
        icon_url: Some(Url::new("https://icon.example/x.png")),
        icon_emoji: Some(":ghost:".to_string()),
        attachments: Some(vec![]),
        unfurl_links: Some(false),
        unfurl_media: Some(true),
        link_names: Some(1),
        parse: Some(Parse::Off),
    };
    let v = p.encode();
    assert_eq!(
        keys(&v),
        vec![
            "text", "channel", "username", "icon_url", "icon_emoji", "attachments",
            "unfurl_links", "unfurl_media", "link_names", "parse"
        ]
    );
    assert_eq!(entry(&v, "channel"), &s("#general"));
    assert_eq!(entry(&v, "icon_url"), &s("https://icon.example/x.png"));
    assert_eq!(entry(&v, "unfurl_links"), &Value::Bool(false));
    assert_eq!(entry(&v, "link_names"), &Value::Int(1));
    assert_eq!(entry(&v, "parse"), &s("none"));
}

#[test]
fn attachments_keep_their_order() {
    let a = |f: &str| Attachment { fallback: SlackText::from_raw(f), ..Default::default() };
    let p = Payload { attachments: Some(vec![a("one"), a("two"), a("<3>")]), ..Default::default() };
    assert_eq!(
        p.encode(),
        obj(vec![(
            "attachments",
            Value::List(vec![
                obj(vec![("fallback", s("one"))]),
                obj(vec![("fallback", s("two"))]),
                obj(vec![("fallback", s("&lt;3&gt;"))]),
            ])
        )])
    );
}
