//! The events a journal follows, and what it reads from each of them.
use crate::text::optional_text;
use vstd::prelude::*;

verus! {

/// The text shown in place of content that has been redacted.
pub const REDACTED: &'static str = "(redacted)";

/// The text shown for a redaction itself.
pub const REDACTION: &'static str = "(redaction)";

/// What every event carries, whether or not its content survives.
pub struct EventHeader {
    /// The event's own identifier.
    pub event_id: String,
    /// When the sending server says the event was made, in milliseconds since the Unix epoch.
    pub origin_server_ts: u64,
    /// The user who sent the event.
    pub sender: String,
}

/// An event of one type: with its content, or stripped of it by a redaction.
pub enum RoomEvent<C> {
    /// The event as it was sent.
    Original { header: EventHeader, content: C },
    /// The event after its content was redacted.
    Redacted { header: EventHeader },
}

/// Where the data of an attachment is kept.
pub enum MediaSource {
    /// Unencrypted data, by its content URI.
    Plain(String),
    /// Encrypted data, by the content URI of the ciphertext.
    Encrypted(String),
}

/// Where the image of a sticker is kept.
pub enum StickerMediaSource {
    /// Unencrypted data, by its content URI.
    Plain(String),
    /// Encrypted data, by the content URI of the ciphertext.
    Encrypted(String),
    /// A source of a form that has no content URI.
    Other,
}

/// A message whose content is an attachment.
pub struct Attachment {
    /// The text that accompanies the attachment.
    pub body: String,
    /// Where the attachment is kept.
    pub source: MediaSource,
}

/// The content of a room message. Every type of message has a body.
pub enum MessageType {
    Audio(Attachment),
    Emote(String),
    File(Attachment),
    Image(Attachment),
    Location(String),
    Notice(String),
    ServerNotice(String),
    Text(String),
    Video(Attachment),
    VerificationRequest(String),
    Custom(String),
}

/// The content of a reaction.
pub struct Reaction {
    /// What was reacted with, usually an emoji.
    pub key: String,
}

/// The content of a sticker.
pub struct Sticker {
    /// The text that describes the sticker.
    pub body: String,
    /// Where the image is kept.
    pub source: StickerMediaSource,
}

/// The content of a redaction.
pub struct Redaction {}

/// An event of one of the types that are written to the journal.
pub enum IncomingEvent {
    Message(RoomEvent<MessageType>),
    Reaction(RoomEvent<Reaction>),
    Sticker(RoomEvent<Sticker>),
    Redaction(RoomEvent<Redaction>),
}

impl<C> RoomEvent<C> {
    /// The part of the event that a redaction leaves in place.
    pub open spec fn spec_header(&self) -> EventHeader {
        match self {
            RoomEvent::Original { header, .. } => *header,
            RoomEvent::Redacted { header } => *header,
        }
    }

    /// The part of the event that a redaction leaves in place.
    pub fn header(&self) -> (header: &EventHeader)
        ensures
            *header == self.spec_header(),
    {
        match self {
            RoomEvent::Original { header, .. } => header,
            RoomEvent::Redacted { header } => header,
        }
    }
}

impl MediaSource {
    /// The content URI of the source.
    pub open spec fn uri(self) -> Seq<char> {
        match self {
            MediaSource::Plain(uri) => uri@,
            MediaSource::Encrypted(uri) => uri@,
        }
    }
}

impl MessageType {
    /// The text that comes with a message of any type.
    pub open spec fn body_text(self) -> Seq<char> {
        match self {
            MessageType::Audio(attachment) => attachment.body@,
            MessageType::Emote(body) => body@,
            MessageType::File(attachment) => attachment.body@,
            MessageType::Image(attachment) => attachment.body@,
            MessageType::Location(body) => body@,
            MessageType::Notice(body) => body@,
            MessageType::ServerNotice(body) => body@,
            MessageType::Text(body) => body@,
            MessageType::Video(attachment) => attachment.body@,
            MessageType::VerificationRequest(body) => body@,
            MessageType::Custom(body) => body@,
        }
    }

    /// The source of the attachment, for the types of message that have one.
    pub open spec fn attachment_source(self) -> Option<MediaSource> {
        match self {
            MessageType::Audio(attachment) => Some(attachment.source),
            MessageType::File(attachment) => Some(attachment.source),
            MessageType::Image(attachment) => Some(attachment.source),
            MessageType::Video(attachment) => Some(attachment.source),
            _ => None,
        }
    }

    /// The text that comes with a message of any type.
    pub fn body(&self) -> (body: &str)
        ensures
            body@ == self.body_text(),
    {
        match self {
            MessageType::Audio(attachment) => attachment.body.as_str(),
            MessageType::Emote(body) => body.as_str(),
            MessageType::File(attachment) => attachment.body.as_str(),
            MessageType::Image(attachment) => attachment.body.as_str(),
            MessageType::Location(body) => body.as_str(),
            MessageType::Notice(body) => body.as_str(),
            MessageType::ServerNotice(body) => body.as_str(),
            MessageType::Text(body) => body.as_str(),
            MessageType::Video(attachment) => attachment.body.as_str(),
            MessageType::VerificationRequest(body) => body.as_str(),
            MessageType::Custom(body) => body.as_str(),
        }
    }
}

impl IncomingEvent {
    /// The part of the event that a redaction leaves in place.
    pub open spec fn spec_header(&self) -> EventHeader {
        match self {
            IncomingEvent::Message(ev) => ev.spec_header(),
            IncomingEvent::Reaction(ev) => ev.spec_header(),
            IncomingEvent::Sticker(ev) => ev.spec_header(),
            IncomingEvent::Redaction(ev) => ev.spec_header(),
        }
    }

    /// The name of the type of the event.
    pub open spec fn kind_text(self) -> Seq<char> {
        match self {
            IncomingEvent::Message(_) => "message"@,
            IncomingEvent::Reaction(_) => "reaction"@,
            IncomingEvent::Sticker(_) => "sticker"@,
            IncomingEvent::Redaction(_) => "redaction"@,
        }
    }

    /// Whether the content of the event has been redacted.
    pub open spec fn is_redacted(self) -> bool {
        match self {
            IncomingEvent::Message(ev) => ev is Redacted,
            IncomingEvent::Reaction(ev) => ev is Redacted,
            IncomingEvent::Sticker(ev) => ev is Redacted,
            IncomingEvent::Redaction(ev) => ev is Redacted,
        }
    }

    /// What the event says: the body of a message or sticker, the key of a reaction, and fixed
    /// texts for a redaction and for whatever has been redacted.
    pub open spec fn body_text(self) -> Seq<char> {
        match self {
            IncomingEvent::Message(RoomEvent::Original { content, .. }) => content.body_text(),
            IncomingEvent::Reaction(RoomEvent::Original { content, .. }) => content.key@,
            IncomingEvent::Sticker(RoomEvent::Original { content, .. }) => content.body@,
            IncomingEvent::Redaction(RoomEvent::Original { .. }) => REDACTION@,
            _ => REDACTED@,
        }
    }

    /// The content URI of what is attached to the event: the attachment of a message that has
    /// one, or the image of a sticker.
    pub open spec fn media_uri(self) -> Option<Seq<char>> {
        match self {
            IncomingEvent::Message(RoomEvent::Original { content, .. }) => {
                match content.attachment_source() {
                    Some(source) => Some(source.uri()),
                    None => None,
                }
            },
            IncomingEvent::Sticker(RoomEvent::Original { content, .. }) => {
                match content.source {
                    StickerMediaSource::Plain(uri) => Some(uri@),
                    StickerMediaSource::Encrypted(uri) => Some(uri@),
                    StickerMediaSource::Other => None,
                }
            },
            _ => None,
        }
    }

    /// The name of the type of the event.
    pub fn kind(&self) -> (kind: &'static str)
        ensures
            kind@ == self.kind_text(),
    {
        match self {
            IncomingEvent::Message(_) => "message",
            IncomingEvent::Reaction(_) => "reaction",
            IncomingEvent::Sticker(_) => "sticker",
            IncomingEvent::Redaction(_) => "redaction",
        }
    }

    /// The part of the event that a redaction leaves in place.
    pub fn header(&self) -> (header: &EventHeader)
        ensures
            *header == self.spec_header(),
    {
        match self {
            IncomingEvent::Message(ev) => ev.header(),
            IncomingEvent::Reaction(ev) => ev.header(),
            IncomingEvent::Sticker(ev) => ev.header(),
            IncomingEvent::Redaction(ev) => ev.header(),
        }
    }

    /// The identifier of the event.
    pub fn id(&self) -> (id: &str)
        ensures
            id@ == self.spec_header().event_id@,
    {
        self.header().event_id.as_str()
    }

    /// When the event was made, in milliseconds since the Unix epoch.
    pub fn ts(&self) -> (ts: u64)
        ensures
            ts == self.spec_header().origin_server_ts,
    {
        self.header().origin_server_ts
    }

    /// The user who sent the event.
    pub fn sender(&self) -> (sender: &str)
        ensures
            sender@ == self.spec_header().sender@,
    {
        self.header().sender.as_str()
    }

    /// What the event says.
    pub fn body(&self) -> (body: String)
        ensures
            body@ == self.body_text(),
    {
        match self {
            IncomingEvent::Message(ev) => match ev {
                RoomEvent::Original { content, .. } => content.body().to_owned(),
                RoomEvent::Redacted { .. } => REDACTED.to_owned(),
            },
            IncomingEvent::Reaction(ev) => match ev {
                RoomEvent::Original { content, .. } => content.key.clone(),
                RoomEvent::Redacted { .. } => REDACTED.to_owned(),
            },
            IncomingEvent::Sticker(ev) => match ev {
                RoomEvent::Original { content, .. } => content.body.clone(),
                RoomEvent::Redacted { .. } => REDACTED.to_owned(),
            },
            IncomingEvent::Redaction(ev) => match ev {
                RoomEvent::Original { .. } => REDACTION.to_owned(),
                RoomEvent::Redacted { .. } => REDACTED.to_owned(),
            },
        }
    }

    /// The content URI of what is attached to the event, if anything is.
    pub fn url(&self) -> (url: Option<String>)
        ensures
            optional_text(url) == self.media_uri(),
    {
        match self {
            IncomingEvent::Message(ev) => {
                let media = match ev {
                    RoomEvent::Original { content, .. } => match content {
                        MessageType::Image(image) => Some(&image.source),
                        MessageType::Audio(audio) => Some(&audio.source),
                        MessageType::Video(video) => Some(&video.source),
                        MessageType::File(file) => Some(&file.source),
                        _ => None,
                    },
                    RoomEvent::Redacted { .. } => None,
                };
                match media {
                    Some(MediaSource::Plain(uri)) => Some(uri.clone()),
                    Some(MediaSource::Encrypted(uri)) => Some(uri.clone()),
                    None => None,
                }
            },
            IncomingEvent::Sticker(ev) => match ev {
                RoomEvent::Original { content, .. } => match &content.source {
                    StickerMediaSource::Plain(uri) => Some(uri.clone()),
                    StickerMediaSource::Encrypted(uri) => Some(uri.clone()),
                    StickerMediaSource::Other => None,
                },
                RoomEvent::Redacted { .. } => None,
            },
            IncomingEvent::Reaction(_) => None,
            IncomingEvent::Redaction(_) => None,
        }
    }
}

/// Once an event has been redacted, nothing of its content is shown: its body is the fixed text
/// for redacted content and it has no attachment.
pub proof fn law_redacted_content_is_hidden(event: IncomingEvent)
    requires
        event.is_redacted(),
    ensures
        event.body_text() == REDACTED@,
        event.media_uri() is None,
{
}

/// Only messages and stickers lead to media, and of the messages only those with an attachment.
pub proof fn law_only_attachments_have_media(event: IncomingEvent)
    ensures
        event.media_uri() is Some <==> {
            ||| event matches IncomingEvent::Message(RoomEvent::Original { content, .. })
                && content.attachment_source() is Some
            ||| event matches IncomingEvent::Sticker(RoomEvent::Original { content, .. })
                && content.source !is Other
        },
{
}

/// The name of its type tells a message, a reaction, a sticker and a redaction apart.
pub proof fn law_kind_tells_types_apart(a: IncomingEvent, b: IncomingEvent)
    requires
        a.kind_text() == b.kind_text(),
    ensures
        a is Message <==> b is Message,
        a is Reaction <==> b is Reaction,
        a is Sticker <==> b is Sticker,
        a is Redaction <==> b is Redaction,
{
    reveal_strlit("message");
    reveal_strlit("reaction");
    reveal_strlit("sticker");
    reveal_strlit("redaction");
    assert("message"@.len() == 7 && "sticker"@.len() == 7);
    assert("reaction"@.len() == 8 && "redaction"@.len() == 9);
    assert("message"@[0] != "sticker"@[0]);
}

/// An event of any type is read by the header it came with, whether or not its content survives.
pub proof fn law_header_survives_redaction(event: IncomingEvent)
    ensures
        event matches IncomingEvent::Message(RoomEvent::Original { header, .. }) ==> event.spec_header()
            == header,
        event matches IncomingEvent::Message(RoomEvent::Redacted { header }) ==> event.spec_header()
            == header,
        event matches IncomingEvent::Reaction(RoomEvent::Original { header, .. }) ==> event.spec_header()
            == header,
        event matches IncomingEvent::Reaction(RoomEvent::Redacted { header }) ==> event.spec_header()
            == header,
        event matches IncomingEvent::Sticker(RoomEvent::Original { header, .. }) ==> event.spec_header()
            == header,
        event matches IncomingEvent::Sticker(RoomEvent::Redacted { header }) ==> event.spec_header()
            == header,
        event matches IncomingEvent::Redaction(RoomEvent::Original { header, .. }) ==> event.spec_header()
            == header,
        event matches IncomingEvent::Redaction(RoomEvent::Redacted { header }) ==> event.spec_header()
            == header,
{
}

/// The same holds of the events of one type.
pub proof fn law_typed_header_survives_redaction<C>(event: RoomEvent<C>)
    ensures
        event matches RoomEvent::Original { header, .. } ==> event.spec_header() == header,
        event matches RoomEvent::Redacted { header } ==> event.spec_header() == header,
{
}

/// Every event is named by its type, whatever else it holds.
pub proof fn law_kind_names_the_type(event: IncomingEvent)
    ensures
        event is Message ==> event.kind_text() == "message"@,
        event is Reaction ==> event.kind_text() == "reaction"@,
        event is Sticker ==> event.kind_text() == "sticker"@,
        event is Redaction ==> event.kind_text() == "redaction"@,
{
}

/// The text that comes with a message is its body, whatever its type.
pub proof fn law_message_says_its_body(content: MessageType)
    ensures
        content matches MessageType::Emote(body) ==> content.body_text() == body@,
        content matches MessageType::Location(body) ==> content.body_text() == body@,
        content matches MessageType::Notice(body) ==> content.body_text() == body@,
        content matches MessageType::ServerNotice(body) ==> content.body_text() == body@,
        content matches MessageType::Text(body) ==> content.body_text() == body@,
        content matches MessageType::VerificationRequest(body) ==> content.body_text() == body@,
        content matches MessageType::Custom(body) ==> content.body_text() == body@,
        content matches MessageType::Audio(attachment) ==> content.body_text() == attachment.body@,
        content matches MessageType::File(attachment) ==> content.body_text() == attachment.body@,
        content matches MessageType::Image(attachment) ==> content.body_text() == attachment.body@,
        content matches MessageType::Video(attachment) ==> content.body_text() == attachment.body@,
{
}

/// What an event says is what was sent: the body of a message of any type, the key of a reaction,
/// the body of a sticker. A redaction, and whatever has been redacted, says so.
pub proof fn law_event_says_what_was_sent(event: IncomingEvent)
    ensures
        event matches IncomingEvent::Message(
            RoomEvent::Original { content: MessageType::Emote(body), .. },
        ) ==> event.body_text() == body@,
        event matches IncomingEvent::Message(
            RoomEvent::Original { content: MessageType::Location(body), .. },
        ) ==> event.body_text() == body@,
        event matches IncomingEvent::Message(
            RoomEvent::Original { content: MessageType::Notice(body), .. },
        ) ==> event.body_text() == body@,
        event matches IncomingEvent::Message(
            RoomEvent::Original { content: MessageType::ServerNotice(body), .. },
        ) ==> event.body_text() == body@,
        event matches IncomingEvent::Message(
            RoomEvent::Original { content: MessageType::Text(body), .. },
        ) ==> event.body_text() == body@,
        event matches IncomingEvent::Message(
            RoomEvent::Original { content: MessageType::VerificationRequest(body), .. },
        ) ==> event.body_text() == body@,
        event matches IncomingEvent::Message(
            RoomEvent::Original { content: MessageType::Custom(body), .. },
        ) ==> event.body_text() == body@,
        event matches IncomingEvent::Message(
            RoomEvent::Original { content: MessageType::Audio(attachment), .. },
        ) ==> event.body_text() == attachment.body@,
        event matches IncomingEvent::Message(
            RoomEvent::Original { content: MessageType::File(attachment), .. },
        ) ==> event.body_text() == attachment.body@,
        event matches IncomingEvent::Message(
            RoomEvent::Original { content: MessageType::Image(attachment), .. },
        ) ==> event.body_text() == attachment.body@,
        event matches IncomingEvent::Message(
            RoomEvent::Original { content: MessageType::Video(attachment), .. },
        ) ==> event.body_text() == attachment.body@,
        event matches IncomingEvent::Reaction(RoomEvent::Original { content, .. })
            ==> event.body_text() == content.key@,
        event matches IncomingEvent::Sticker(RoomEvent::Original { content, .. })
            ==> event.body_text() == content.body@,
        event matches IncomingEvent::Redaction(RoomEvent::Original { .. }) ==> event.body_text()
            == "(redaction)"@,
        event matches IncomingEvent::Message(RoomEvent::Redacted { .. }) ==> event.body_text()
            == "(redacted)"@,
        event matches IncomingEvent::Reaction(RoomEvent::Redacted { .. }) ==> event.body_text()
            == "(redacted)"@,
        event matches IncomingEvent::Sticker(RoomEvent::Redacted { .. }) ==> event.body_text()
            == "(redacted)"@,
        event matches IncomingEvent::Redaction(RoomEvent::Redacted { .. }) ==> event.body_text()
            == "(redacted)"@,
{
}

/// The media of an event is the content URI of its attachment, encrypted or not. An event without
/// an attachment has none.
pub proof fn law_media_is_that_of_the_attachment(event: IncomingEvent)
    ensures
        event matches IncomingEvent::Message(
            RoomEvent::Original {
                content: MessageType::Audio(Attachment { source: MediaSource::Plain(uri), .. }),
                ..
            },
        ) ==> event.media_uri() == Some(uri@),
        event matches IncomingEvent::Message(
            RoomEvent::Original {
                content: MessageType::Audio(Attachment { source: MediaSource::Encrypted(uri), .. }),
                ..
            },
        ) ==> event.media_uri() == Some(uri@),
        event matches IncomingEvent::Message(
            RoomEvent::Original {
                content: MessageType::File(Attachment { source: MediaSource::Plain(uri), .. }),
                ..
            },
        ) ==> event.media_uri() == Some(uri@),
        event matches IncomingEvent::Message(
            RoomEvent::Original {
                content: MessageType::File(Attachment { source: MediaSource::Encrypted(uri), .. }),
                ..
            },
        ) ==> event.media_uri() == Some(uri@),
        event matches IncomingEvent::Message(
            RoomEvent::Original {
                content: MessageType::Image(Attachment { source: MediaSource::Plain(uri), .. }),
                ..
            },
        ) ==> event.media_uri() == Some(uri@),
        event matches IncomingEvent::Message(
            RoomEvent::Original {
                content: MessageType::Image(Attachment { source: MediaSource::Encrypted(uri), .. }),
                ..
            },
        ) ==> event.media_uri() == Some(uri@),
        event matches IncomingEvent::Message(
            RoomEvent::Original {
                content: MessageType::Video(Attachment { source: MediaSource::Plain(uri), .. }),
                ..
            },
        ) ==> event.media_uri() == Some(uri@),
        event matches IncomingEvent::Message(
            RoomEvent::Original {
                content: MessageType::Video(Attachment { source: MediaSource::Encrypted(uri), .. }),
                ..
            },
        ) ==> event.media_uri() == Some(uri@),
        event matches IncomingEvent::Sticker(
            RoomEvent::Original {
                content: Sticker { source: StickerMediaSource::Plain(uri), .. },
                ..
            },
        ) ==> event.media_uri() == Some(uri@),
        event matches IncomingEvent::Sticker(
            RoomEvent::Original {
                content: Sticker { source: StickerMediaSource::Encrypted(uri), .. },
                ..
            },
        ) ==> event.media_uri() == Some(uri@),
        event matches IncomingEvent::Sticker(
            RoomEvent::Original { content: Sticker { source: StickerMediaSource::Other, .. }, .. },
        ) ==> event.media_uri() is None,
        event matches IncomingEvent::Message(
            RoomEvent::Original { content: MessageType::Emote(_), .. },
        ) ==> event.media_uri() is None,
        event matches IncomingEvent::Message(
            RoomEvent::Original { content: MessageType::Location(_), .. },
        ) ==> event.media_uri() is None,
        event matches IncomingEvent::Message(
            RoomEvent::Original { content: MessageType::Notice(_), .. },
        ) ==> event.media_uri() is None,
        event matches IncomingEvent::Message(
            RoomEvent::Original { content: MessageType::ServerNotice(_), .. },
        ) ==> event.media_uri() is None,
        event matches IncomingEvent::Message(
            RoomEvent::Original { content: MessageType::Text(_), .. },
        ) ==> event.media_uri() is None,
        event matches IncomingEvent::Message(
            RoomEvent::Original { content: MessageType::VerificationRequest(_), .. },
        ) ==> event.media_uri() is None,
        event matches IncomingEvent::Message(
            RoomEvent::Original { content: MessageType::Custom(_), .. },
        ) ==> event.media_uri() is None,
        event is Reaction || event is Redaction ==> event.media_uri() is None,
        event matches IncomingEvent::Message(RoomEvent::Redacted { .. }) ==> event.media_uri() is None,
        event matches IncomingEvent::Sticker(RoomEvent::Redacted { .. }) ==> event.media_uri() is None,
{
}

} // verus!
