//! Notification sinks: which sinks a message goes to, and the bodies that
//! the JSON sinks receive.

use vstd::prelude::*;
use crate::branch::opt_view;
use crate::text::{last_segment, last_segment_of};

verus! {

/// The text that serde_json writes for a JSON object built from the given
/// member names and string values (serde_json decides the order in which
/// the members are written).
pub uninterp spec fn json_object_text(fields: Seq<(Seq<char>, Seq<char>)>) -> Seq<char>;

pub open spec fn fields_view(fields: Seq<(String, String)>) -> Seq<(Seq<char>, Seq<char>)> {
    fields.map_values(|p: (String, String)| (p.0@, p.1@))
}

/// Relies on serde_json: `Value::Object` built from the fields, written out
/// in compact form by its `Display` impl (serde_json::to_string).
#[verifier::external_body]
fn json_object(fields: &Vec<(String, String)>) -> (r: String)
    ensures
        r@ == json_object_text(fields_view(fields@)),
{
    let mut m = serde_json::Map::new();
    for (k, v) in fields.iter() {
        m.insert(k.clone(), serde_json::Value::String(v.clone()));
    }
    serde_json::Value::Object(m).to_string()
}

/// The kinds of sink.
#[derive(PartialEq, Eq, Structural, Clone, Copy, Debug)]
pub enum WebhookType {
    Discord,
    Slack,
    Custom,
}

/// One message for one sink.
pub struct WebhookConfig {
    pub title: String,
    pub url: String,
    pub webhook_type: WebhookType,
    pub message: String,
}

impl WebhookConfig {
    pub fn new(title: &str, url: &str, webhook_type: WebhookType, message: &str) -> (r: WebhookConfig)
        ensures
            r.title@ == title@,
            r.url@ == url@,
            r.webhook_type == webhook_type,
            r.message@ == message@,
    {
        WebhookConfig {
            title: String::from_str(title),
            url: String::from_str(url),
            webhook_type,
            message: String::from_str(message),
        }
    }
}

pub struct Webhook {
    pub webhook_config: WebhookConfig,
}

/// The text of a Slack message: the title in bold on its own line, when
/// there is one, then the message.
pub open spec fn slack_text(text: Seq<char>, title: Option<Seq<char>>) -> Seq<char> {
    match title {
        Some(t) => "*"@ + t + "*\n"@ + text,
        None => text,
    }
}

pub open spec fn opt_str_view(o: Option<&str>) -> Option<Seq<char>> {
    match o {
        Some(s) => Some(s@),
        None => None,
    }
}

/// The body of a Slack incoming-webhook call: `{"text": ...}`.
pub fn build_slack_payload(text: &str, title: Option<&str>) -> (r: String)
    ensures
        r@ == json_object_text(seq![("text"@, slack_text(text@, opt_str_view(title)))]),
{
    let content = match title {
        Some(t) => {
            let mut c = String::from_str("*");
            c.append(t);
            c.append("*\n");
            c.append(text);
            c
        },
        None => String::from_str(text),
    };
    let mut fields: Vec<(String, String)> = Vec::new();
    let ghost cv = content@;
    fields.push((String::from_str("text"), content));
    assert(fields_view(fields@) =~= seq![("text"@, cv)]);
    json_object(&fields)
}

/// The body that a custom sink receives: an object with the members
/// `title` and `message`.
pub fn build_custom_payload(title: &str, message: &str) -> (r: String)
    ensures
        r@ == json_object_text(seq![("title"@, title@), ("message"@, message@)]),
{
    let mut fields: Vec<(String, String)> = Vec::new();
    fields.push((String::from_str("title"), String::from_str(title)));
    fields.push((String::from_str("message"), String::from_str(message)));
    assert(fields_view(fields@) =~= seq![("title"@, title@), ("message"@, message@)]);
    json_object(&fields)
}

impl Webhook {
    pub fn new(config: WebhookConfig) -> (r: Webhook)
        ensures
            r.webhook_config == config,
    {
        Webhook { webhook_config: config }
    }

    /// The JSON body to post, for the sinks that take one; a Discord sink
    /// takes a form instead.
    pub fn json_body(&self) -> (r: Option<String>)
        ensures
            match self.webhook_config.webhook_type {
                WebhookType::Discord => r is None,
                WebhookType::Slack => r is Some && r->0@ == json_object_text(
                    seq![
                        ("text"@, slack_text(
                            self.webhook_config.message@,
                            Some(self.webhook_config.title@),
                        )),
                    ],
                ),
                WebhookType::Custom => r is Some && r->0@ == json_object_text(
                    seq![
                        ("title"@, self.webhook_config.title@),
                        ("message"@, self.webhook_config.message@),
                    ],
                ),
            },
    {
        let c = &self.webhook_config;
        match c.webhook_type {
            WebhookType::Discord => None,
            WebhookType::Slack => Some(
                build_slack_payload(c.message.as_str(), Some(c.title.as_str())),
            ),
            WebhookType::Custom => Some(build_custom_payload(c.title.as_str(), c.message.as_str())),
        }
    }
}

pub open spec fn sink_is(w: Webhook, kind: WebhookType, url: Seq<char>, title: Seq<char>, message: Seq<char>) -> bool {
    &&& w.webhook_config.webhook_type == kind
    &&& w.webhook_config.url@ == url
    &&& w.webhook_config.title@ == title
    &&& w.webhook_config.message@ == message
}

pub open spec fn opt_sink(kind: WebhookType, url: Option<Seq<char>>) -> Seq<(WebhookType, Seq<char>)> {
    match url {
        Some(u) => seq![(kind, u)],
        None => Seq::empty(),
    }
}

/// The configured sinks, in the order Discord, Slack, custom.
pub open spec fn sinks_of(
    discord: Option<Seq<char>>,
    slack: Option<Seq<char>>,
    custom: Option<Seq<char>>,
) -> Seq<(WebhookType, Seq<char>)> {
    opt_sink(WebhookType::Discord, discord) + opt_sink(WebhookType::Slack, slack) + opt_sink(
        WebhookType::Custom,
        custom,
    )
}

/// The sinks a repository's message goes to: one per configured sink, each
/// titled with the last segment of the repository's locator.
pub open spec fn webhooks_for(
    hooks: Seq<Webhook>,
    path: Seq<char>,
    message: Seq<char>,
    sinks: Seq<(WebhookType, Seq<char>)>,
) -> bool {
    &&& hooks.len() == sinks.len()
    &&& forall|k: int|
        0 <= k < hooks.len() ==> sink_is(
            #[trigger] hooks[k],
            sinks[k].0,
            sinks[k].1,
            last_segment_of(path),
            message,
        )
}

fn push_hook(
    hooks: &mut Vec<Webhook>,
    kind: WebhookType,
    url: &Option<String>,
    title: &str,
    message: &str,
)
    ensures
        url is None ==> final(hooks)@ == old(hooks)@,
        url is Some ==> final(hooks)@.len() == old(hooks)@.len() + 1 && final(hooks)@.drop_last()
            == old(hooks)@ && sink_is(final(hooks)@.last(), kind, url->0@, title@, message@),
{
    match url {
        Some(u) => hooks.push(Webhook::new(WebhookConfig::new(title, u.as_str(), kind, message))),
        None => {},
    }
}

/// Builds one webhook per configured sink URL for a repository's message.
pub fn notification_webhooks(
    path: &str,
    message: &str,
    discord: Option<String>,
    slack: Option<String>,
    custom: Option<String>,
) -> (r: Vec<Webhook>)
    ensures
        webhooks_for(
            r@,
            path@,
            message@,
            sinks_of(opt_view(discord), opt_view(slack), opt_view(custom)),
        ),
{
    let title = last_segment(path);
    let mut hooks: Vec<Webhook> = Vec::new();
    push_hook(&mut hooks, WebhookType::Discord, &discord, title.as_str(), message);
    push_hook(&mut hooks, WebhookType::Slack, &slack, title.as_str(), message);
    push_hook(&mut hooks, WebhookType::Custom, &custom, title.as_str(), message);
    hooks
}

} // verus!
