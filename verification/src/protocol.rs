//! Messages to the client, and what the server says of itself.

use vstd::prelude::*;

verus! {

/// How a message is shown to the user.
#[derive(Clone, Copy, Debug, PartialEq, Eq, Structural)]
pub enum MessageType {
    Error,
    Warning,
}

/// A message for the client to show.
pub struct ShowMessage {
    pub typ: MessageType,
    pub message: String,
}

/// A message as a value: its type and its text.
pub struct MessageView {
    pub typ: MessageType,
    pub text: Seq<char>,
}

impl View for ShowMessage {
    type V = MessageView;

    open spec fn view(&self) -> MessageView {
        MessageView { typ: self.typ, text: self.message@ }
    }
}

/// A line for each of `errors`.
pub open spec fn error_lines(errors: Seq<Seq<char>>) -> Seq<char>
    decreases errors.len(),
{
    if errors.len() == 0 {
        Seq::empty()
    } else {
        error_lines(errors.drop_last()) + "\n- "@ + errors.last()
    }
}

impl MessageView {
    /// The message that lists the settings that could not be applied.
    pub open spec fn failed_settings(errors: Seq<Seq<char>>) -> MessageView {
        MessageView {
            typ: MessageType::Error,
            text: "Failed to apply some settings:"@ + error_lines(errors),
        }
    }
}

/// The message that lists the settings that could not be applied.
pub fn failed_settings(errors: &Vec<String>) -> (message: ShowMessage)
    ensures
        message@ == MessageView::failed_settings(crate::config::texts(errors@)),
{
    let mut text = "Failed to apply some settings:".to_owned();
    let ghost views = crate::config::texts(errors@);
    let mut i: usize = 0;
    assert(text@ =~= "Failed to apply some settings:"@ + error_lines(views.take(0)));
    while i < errors.len()
        invariant
            views == crate::config::texts(errors@),
            i <= errors@.len(),
            text@ == "Failed to apply some settings:"@ + error_lines(views.take(i as int)),
        decreases errors@.len() - i,
    {
        text.append("\n- ");
        text.append(errors[i].as_str());
        proof {
            let next = views.take(i + 1);
            assert(next.drop_last() =~= views.take(i as int));
            assert(next.last() == errors@[i as int]@);
            assert(text@ =~= "Failed to apply some settings:"@ + error_lines(next));
        }
        i = i + 1;
    }
    assert(views.take(errors@.len() as int) =~= views);
    ShowMessage { typ: MessageType::Error, message: text }
}

/// The name under which the server introduces itself.
pub const LSP_SERVER_NAME: &'static str = "nil";

/// The server's name, and its release where it is built as one.
pub struct ServerInfo {
    pub name: String,
    pub version: Option<String>,
}

/// One section of the client's configuration to ask for.
pub struct ConfigurationItem {
    pub scope_uri: Option<String>,
    pub section: Option<String>,
}

/// The configuration sections to ask the client for: the server's own, in no particular scope.
pub fn configuration_items(section: &str) -> (items: Vec<ConfigurationItem>)
    ensures
        items@.len() == 1,
        items@[0].scope_uri is None,
        items@[0].section matches Some(s) && s@ == section@,
{
    let mut items: Vec<ConfigurationItem> = Vec::new();
    items.push(ConfigurationItem { scope_uri: None, section: Some(section.to_owned()) });
    items
}

/// What a configuration reply leads to: the last section that the client sent is the new
/// configuration, and JSON's default value where it sent none; an error is shown.
pub fn configuration_reply(reply: Result<Vec<serde_json::Value>, String>) -> (next: Result<
    serde_json::Value,
    ShowMessage,
>)
    ensures
        match (reply, next) {
            (Ok(sections), Ok(section)) => if sections@.len() > 0 {
                section == sections@.last()
            } else {
                call_ensures(<serde_json::Value as Default>::default, (), section)
            },
            (Err(error), Err(message)) => message@ == (MessageView {
                typ: MessageType::Error,
                text: "Failed to update config: "@ + error@,
            }),
            _ => false,
        },
{
    match reply {
        Ok(sections) => {
            let mut sections = sections;
            Ok(sections.pop().unwrap_or_default())
        },
        Err(error) => {
            let message = "Failed to update config: ".to_owned().concat(error.as_str());
            Err(ShowMessage { typ: MessageType::Error, message })
        },
    }
}

proof fn lemma_error_lines(errors: Seq<Seq<char>>)
    ensures
        error_lines(errors) == errors.map_values(|error: Seq<char>| "\n- "@ + error).flatten(),
    decreases errors.len(),
{
    let line = |error: Seq<char>| "\n- "@ + error;
    let lines = errors.map_values(line);
    if errors.len() > 0 {
        let earlier = errors.drop_last();
        lemma_error_lines(earlier);
        assert(lines =~= earlier.map_values(line).push(line(errors.last())));
        earlier.map_values(line).lemma_flatten_push(line(errors.last()));
        assert(error_lines(errors) =~= lines.flatten());
    } else {
        assert(lines.flatten() =~= Seq::empty());
    }
}

pub(crate) proof fn lemma_failed_settings(errors: Vec<String>, message: ShowMessage)
    requires
        message@ == MessageView::failed_settings(crate::config::texts(errors@)),
    ensures
        message.typ == MessageType::Error,
        message.message@ == "Failed to apply some settings:"@ + Seq::new(
            errors@.len(),
            |i: int| "\n- "@ + errors@[i]@,
        ).flatten(),
{
    let texts = crate::config::texts(errors@);
    lemma_error_lines(texts);
    assert(texts.map_values(|error: Seq<char>| "\n- "@ + error) =~= Seq::new(
        errors@.len(),
        |i: int| "\n- "@ + errors@[i]@,
    ));
}

/// The message on settings that could not be applied is shown as an error. After its heading it
/// has a line for each setting, in their order, and no other line.
pub proof fn law_every_failed_setting_is_listed(errors: Vec<String>, message: ShowMessage)
    requires
        call_ensures(failed_settings, (&errors,), message),
    ensures
        message.typ == MessageType::Error,
        message.message@ == "Failed to apply some settings:"@ + Seq::new(
            errors@.len(),
            |i: int| "\n- "@ + errors@[i]@,
        ).flatten(),
{
    lemma_failed_settings(errors, message);
}

/// One section is asked for, the one of the server, in no particular scope.
pub proof fn law_one_section_is_asked_for(section: &str, items: Vec<ConfigurationItem>)
    requires
        call_ensures(configuration_items, (section,), items),
    ensures
        items@.len() == 1,
        items@[0].scope_uri is None,
        items@[0].section matches Some(asked) && asked@ == section@,
{
}

/// The last section of a reply is taken over as it is, and a reply without sections counts as the
/// default value. Of a failure the user is told the cause.
pub proof fn law_last_section_is_taken_over(
    reply: Result<Vec<serde_json::Value>, String>,
    next: Result<serde_json::Value, ShowMessage>,
)
    requires
        call_ensures(configuration_reply, (reply,), next),
    ensures
        match reply {
            Ok(sections) => next matches Ok(section) && if sections@.len() == 0 {
                call_ensures(<serde_json::Value as Default>::default, (), section)
            } else {
                section == sections@[sections@.len() - 1]
            },
            Err(error) => next matches Err(message) && message.typ == MessageType::Error
                && message.message@ == "Failed to update config: "@ + error@,
        },
{
}

} // verus!
