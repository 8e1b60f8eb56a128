//! Fields, attachments and the payload of a message, and their wire forms.

use vstd::prelude::*;
use vstd::string::StringExecFns;

use crate::color::HexColor;
use crate::text::SlackText;
use crate::time::SlackTime;
use crate::wire::{entries_wire, object, opt_entry, put, put_opt, Encode, Value, Wire};

verus! {

/// The string form of a URL that the caller's URL library has validated.
#[derive(Debug, Clone)]
pub struct Url {
    text: String,
}

impl View for Url {
    type V = Seq<char>;

    closed spec fn view(&self) -> Seq<char> {
        self.text@
    }
}

impl Url {
    /// The URL whose string form is `text`.
    pub fn new(text: &str) -> (r: Url)
        ensures
            r@ == text@,
    {
        Url { text: String::from_str(text) }
    }

    /// The string form, as it goes on the wire.
    pub fn encode(&self) -> (r: String)
        ensures
            r@ == self@,
    {
        self.text.clone()
    }
}

impl Encode for Url {
    open spec fn wire_form(&self) -> Wire {
        Wire::Str(self@)
    }

    fn to_value(&self) -> (r: Value) {
        Value::Str(self.encode())
    }
}

/// How the remote service treats the text of a message.
#[derive(Debug, Clone, Copy, PartialEq, Eq)]
pub enum Parse {
    /// Full parsing; sent as `"full"`.
    Full,
    /// No parsing; sent as `"none"`.
    Off,
}

/// The wire name of a parse mode.
pub open spec fn parse_name(p: Parse) -> Seq<char> {
    match p {
        Parse::Full => seq!['f', 'u', 'l', 'l'],
        Parse::Off => seq!['n', 'o', 'n', 'e'],
    }
}

impl Parse {
    /// `"full"` or `"none"`.
    pub fn encode(&self) -> (r: String)
        ensures
            r@ == parse_name(*self),
    {
        proof {
            reveal_strlit("full");
            reveal_strlit("none");
        }
        match self {
            Parse::Full => {
                assert("full"@ =~= seq!['f', 'u', 'l', 'l']);
                String::from_str("full")
            },
            Parse::Off => {
                assert("none"@ =~= seq!['n', 'o', 'n', 'e']);
                String::from_str("none")
            },
        }
    }
}

impl Encode for Parse {
    open spec fn wire_form(&self) -> Wire {
        Wire::Str(parse_name(*self))
    }

    fn to_value(&self) -> (r: Value) {
        Value::Str(self.encode())
    }
}

/// One row of the table inside an attachment.
#[derive(Debug)]
pub struct Field {
    /// Bold heading above the value; sent as given, so it must hold no markup.
    pub title: String,
    /// The text of the row.
    pub value: SlackText,
    /// Whether the value is short enough to stand beside other values.
    pub short: Option<bool>,
}

impl Field {
    /// The object `{title, value, short}`, without `short` where it is unset.
    pub fn encode(&self) -> (r: Value)
        ensures
            r.wire() == self.wire_form(),
    {
        let mut entries: Vec<(String, Value)> = Vec::new();
        put(&mut entries, "title", &self.title);
        put(&mut entries, "value", &self.value);
        put_opt(&mut entries, "short", &self.short);
        assert(entries_wire(entries@) =~= seq![
            ("title"@, self.title.wire_form()),
            ("value"@, self.value.wire_form()),
        ] + opt_entry("short"@, self.short));
        object(entries)
    }
}

impl Encode for Field {
    open spec fn wire_form(&self) -> Wire {
        Wire::Object(
            seq![("title"@, self.title.wire_form()), ("value"@, self.value.wire_form())]
                + opt_entry("short"@, self.short),
        )
    }

    fn to_value(&self) -> (r: Value) {
        self.encode()
    }
}

/// A rich block of a message: a colored bar, a table of fields, and author,
/// title, image and footer parts.
#[derive(Debug)]
pub struct Attachment {
    /// Plain text shown where markup is not supported.
    pub fallback: SlackText,
    pub text: Option<SlackText>,
    /// Text above the attachment.
    pub pretext: Option<SlackText>,
    pub color: Option<HexColor>,
    /// Rows of the table, in order.
    pub fields: Option<Vec<Field>>,
    pub author_name: Option<SlackText>,
    pub author_link: Option<Url>,
    pub author_icon: Option<Url>,
    pub title: Option<SlackText>,
    pub title_link: Option<Url>,
    pub image_url: Option<Url>,
    pub thumb_url: Option<Url>,
    pub footer: Option<SlackText>,
    pub footer_icon: Option<Url>,
    pub ts: Option<SlackTime>,
}

impl Attachment {
    /// The object of the attachment's parts, in declaration order, with no
    /// entry for a part that is unset.
    pub fn encode(&self) -> (r: Value)
        ensures
            r.wire() == self.wire_form(),
    {
        let mut entries: Vec<(String, Value)> = Vec::new();
        put(&mut entries, "fallback", &self.fallback);
        assert(entries_wire(entries@) =~= seq![("fallback"@, self.fallback.wire_form())]);
        put_opt(&mut entries, "text", &self.text);
        put_opt(&mut entries, "pretext", &self.pretext);
        put_opt(&mut entries, "color", &self.color);
        put_opt(&mut entries, "fields", &self.fields);
        put_opt(&mut entries, "author_name", &self.author_name);
        put_opt(&mut entries, "author_link", &self.author_link);
        put_opt(&mut entries, "author_icon", &self.author_icon);
        put_opt(&mut entries, "title", &self.title);
        put_opt(&mut entries, "title_link", &self.title_link);
        put_opt(&mut entries, "image_url", &self.image_url);
        put_opt(&mut entries, "thumb_url", &self.thumb_url);
        put_opt(&mut entries, "footer", &self.footer);
        put_opt(&mut entries, "footer_icon", &self.footer_icon);
        put_opt(&mut entries, "ts", &self.ts);
        object(entries)
    }
}

impl Encode for Attachment {
    open spec fn wire_form(&self) -> Wire {
        Wire::Object(
            seq![("fallback"@, self.fallback.wire_form())]
                + opt_entry("text"@, self.text)
                + opt_entry("pretext"@, self.pretext)
                + opt_entry("color"@, self.color)
                + opt_entry("fields"@, self.fields)
                + opt_entry("author_name"@, self.author_name)
                + opt_entry("author_link"@, self.author_link)
                + opt_entry("author_icon"@, self.author_icon)
                + opt_entry("title"@, self.title)
                + opt_entry("title_link"@, self.title_link)
                + opt_entry("image_url"@, self.image_url)
                + opt_entry("thumb_url"@, self.thumb_url)
                + opt_entry("footer"@, self.footer)
                + opt_entry("footer_icon"@, self.footer_icon)
                + opt_entry("ts"@, self.ts),
        )
    }

    fn to_value(&self) -> (r: Value) {
        self.encode()
    }
}

impl Default for Attachment {
    /// An attachment with an empty fallback and every other part unset.
    fn default() -> (r: Attachment)
        ensures
            r.fallback@ == Seq::<char>::empty(),
            r.text is None,
            r.pretext is None,
            r.color is None,
            r.fields is None,
            r.author_name is None,
            r.author_link is None,
            r.author_icon is None,
            r.title is None,
            r.title_link is None,
            r.image_url is None,
            r.thumb_url is None,
            r.footer is None,
            r.footer_icon is None,
            r.ts is None,
    {
        Attachment {
            fallback: SlackText::default(),
            text: None,
            pretext: None,
            color: None,
            fields: None,
            author_name: None,
            author_link: None,
            author_icon: None,
            title: None,
            title_link: None,
            image_url: None,
            thumb_url: None,
            footer: None,
            footer_icon: None,
            ts: None,
        }
    }
}

/// The message sent to the webhook.
#[derive(Debug)]
pub struct Payload {
    pub text: Option<SlackText>,
    /// The channel to post in, in place of the webhook's own.
    pub channel: Option<String>,
    /// The name to post under.
    pub username: Option<String>,
    pub icon_url: Option<Url>,
    /// The name of an emoji to use as the icon.
    pub icon_emoji: Option<String>,
    pub attachments: Option<Vec<Attachment>>,
    /// Whether links get a preview.
    pub unfurl_links: Option<bool>,
    /// Whether media get a preview.
    pub unfurl_media: Option<bool>,
    /// Whether channel and user names are linked: 0 or 1.
    pub link_names: Option<u8>,
    pub parse: Option<Parse>,
}

/// Whether every part of `p` but its text is unset.
pub open spec fn only_text_set(p: Payload) -> bool {
    &&& p.channel is None
    &&& p.username is None
    &&& p.icon_url is None
    &&& p.icon_emoji is None
    &&& p.attachments is None
    &&& p.unfurl_links is None
    &&& p.unfurl_media is None
    &&& p.link_names is None
    &&& p.parse is None
}

impl Payload {
    /// The object of the payload's parts, in declaration order, with no
    /// entry for a part that is unset.
    pub fn encode(&self) -> (r: Value)
        ensures
            r.wire() == self.wire_form(),
    {
        let mut entries: Vec<(String, Value)> = Vec::new();
        assert(entries_wire(entries@) =~= Seq::empty());
        put_opt(&mut entries, "text", &self.text);
        assert(entries_wire(entries@) =~= opt_entry("text"@, self.text));
        put_opt(&mut entries, "channel", &self.channel);
        put_opt(&mut entries, "username", &self.username);
        put_opt(&mut entries, "icon_url", &self.icon_url);
        put_opt(&mut entries, "icon_emoji", &self.icon_emoji);
        put_opt(&mut entries, "attachments", &self.attachments);
        put_opt(&mut entries, "unfurl_links", &self.unfurl_links);
        put_opt(&mut entries, "unfurl_media", &self.unfurl_media);
        put_opt(&mut entries, "link_names", &self.link_names);
        put_opt(&mut entries, "parse", &self.parse);
        object(entries)
    }
}

impl Encode for Payload {
    open spec fn wire_form(&self) -> Wire {
        Wire::Object(
            opt_entry("text"@, self.text)
                + opt_entry("channel"@, self.channel)
                + opt_entry("username"@, self.username)
                + opt_entry("icon_url"@, self.icon_url)
                + opt_entry("icon_emoji"@, self.icon_emoji)
                + opt_entry("attachments"@, self.attachments)
                + opt_entry("unfurl_links"@, self.unfurl_links)
                + opt_entry("unfurl_media"@, self.unfurl_media)
                + opt_entry("link_names"@, self.link_names)
                + opt_entry("parse"@, self.parse),
        )
    }

    fn to_value(&self) -> (r: Value) {
        self.encode()
    }
}

impl Default for Payload {
    /// A payload with every part unset.
    fn default() -> (r: Payload)
        ensures
            r.text is None,
            only_text_set(r),
    {
        Payload {
            text: None,
            channel: None,
            username: None,
            icon_url: None,
            icon_emoji: None,
            attachments: None,
            unfurl_links: None,
            unfurl_media: None,
            link_names: None,
            parse: None,
        }
    }
}

/// A payload whose only part is its text encodes as an object with the
/// single key `text`; where the text is unset too, as the empty object.
pub proof fn lemma_only_text_encoding(p: Payload)
    requires
        only_text_set(p),
    ensures
        p.wire_form() == Wire::Object(opt_entry("text"@, p.text)),
        p.text matches Some(t) ==> p.wire_form() == Wire::Object(seq![("text"@, Wire::Str(t@))]),
        p.text is None ==> p.wire_form() == Wire::Object(Seq::empty()),
{
    let e = opt_entry("text"@, p.text);
    assert(p.wire_form()->Object_0 =~= e);
}

} // verus!
