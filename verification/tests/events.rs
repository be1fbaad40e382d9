use matrix_journal::event::{
    Attachment, EventHeader, IncomingEvent, MediaSource, MessageType, Reaction, Redaction,
    RoomEvent, Sticker, StickerMediaSource,
};
use matrix_journal::journal::receipt_for;

fn header() -> EventHeader {
    EventHeader {
        event_id: "$event".to_string(),
        origin_server_ts: 1_700_000_000_123,
        sender: "@ann:example.org".to_string(),
    }
}

fn message(content: MessageType) -> IncomingEvent {
    IncomingEvent::Message(RoomEvent::Original { header: header(), content })
}

fn attachment(source: MediaSource) -> Attachment {
    Attachment { body: "cat.png".to_string(), source }
}

fn plain() -> MediaSource {
    MediaSource::Plain("mxc://example.org/plain".to_string())
}

fn encrypted() -> MediaSource {
    MediaSource::Encrypted("mxc://example.org/secret".to_string())
}

fn sticker(source: StickerMediaSource) -> IncomingEvent {
    let content = Sticker { body: "a wave".to_string(), source };
    IncomingEvent::Sticker(RoomEvent::Original { header: header(), content })
}

fn reaction() -> IncomingEvent {
    let content = Reaction { key: "+1".to_string() };
    IncomingEvent::Reaction(RoomEvent::Original { header: header(), content })
}

fn redaction() -> IncomingEvent {
    IncomingEvent::Redaction(RoomEvent::Original { header: header(), content: Redaction {} })
}

fn redacted() -> Vec<IncomingEvent> {
    vec![
        IncomingEvent::Message(RoomEvent::Redacted { header: header() }),
        IncomingEvent::Reaction(RoomEvent::Redacted { header: header() }),
        IncomingEvent::Sticker(RoomEvent::Redacted { header: header() }),
        IncomingEvent::Redaction(RoomEvent::Redacted { header: header() }),
    ]
}

#[test]
fn kinds_are_named() {
    assert_eq!(message(MessageType::Text("hi".to_string())).kind(), "message");
    assert_eq!(reaction().kind(), "reaction");
    assert_eq!(sticker(StickerMediaSource::Other).kind(), "sticker");
    assert_eq!(redaction().kind(), "redaction");
    let kinds: Vec<&str> = redacted().iter().map(|event| event.kind()).collect();
    assert_eq!(kinds, ["message", "reaction", "sticker", "redaction"]);
}

#[test]
fn header_is_read_from_every_event() {
    let mut events = redacted();
    events.push(message(MessageType::Text("hi".to_string())));
    events.push(reaction());
    events.push(sticker(StickerMediaSource::Other));
    events.push(redaction());
    for event in &events {
        assert_eq!(event.id(), "$event");
        assert_eq!(event.ts(), 1_700_000_000_123);
        assert_eq!(event.sender(), "@ann:example.org");
    }
}

#[test]
fn body_of_every_message_type() {
    let text = || "hello".to_string();
    for content in [
        MessageType::Emote(text()),
        MessageType::Location(text()),
        MessageType::Notice(text()),
        MessageType::ServerNotice(text()),
        MessageType::Text(text()),
        MessageType::VerificationRequest(text()),
        MessageType::Custom(text()),
    ] {
        let event = message(content);
        assert_eq!(event.body(), "hello");
        assert_eq!(event.url(), None);
    }
}

#[test]
fn attachments_have_body_and_url() {
    let makers: [fn(Attachment) -> MessageType; 4] =
        [MessageType::Audio, MessageType::File, MessageType::Image, MessageType::Video];
    for make in makers {
        let event = message(make(attachment(plain())));
        assert_eq!(event.body(), "cat.png");
        assert_eq!(event.url(), Some("mxc://example.org/plain".to_string()));
        let event = message(make(attachment(encrypted())));
        assert_eq!(event.url(), Some("mxc://example.org/secret".to_string()));
    }
}

#[test]
fn stickers_have_body_and_url() {
    let event = sticker(StickerMediaSource::Plain("mxc://example.org/wave".to_string()));
    assert_eq!(event.body(), "a wave");
    assert_eq!(event.url(), Some("mxc://example.org/wave".to_string()));
    let event = sticker(StickerMediaSource::Encrypted("mxc://example.org/hidden".to_string()));
    assert_eq!(event.url(), Some("mxc://example.org/hidden".to_string()));
    assert_eq!(sticker(StickerMediaSource::Other).url(), None);
}

#[test]
fn reactions_and_redactions() {
    assert_eq!(reaction().body(), "+1");
    assert_eq!(reaction().url(), None);
    assert_eq!(redaction().body(), "(redaction)");
    assert_eq!(redaction().url(), None);
}

#[test]
fn redacted_content_is_hidden() {
    for event in redacted() {
        assert_eq!(event.body(), "(redacted)");
        assert_eq!(event.url(), None);
    }
}

#[test]
fn receipts_are_sent_only_on_request() {
    assert_eq!(receipt_for(&reaction(), true), Some("$event".to_string()));
    assert_eq!(receipt_for(&reaction(), false), None);
}
