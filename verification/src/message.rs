//! The entries of the journal: how they are made from events, ordered and written out.
use crate::clock::{format_rfc3339, label_in_zone, machine_offset, machine_zone, time_at_offset};
use crate::clock::{law_label_follows_date, law_time_is_shown_to_the_second};
use crate::clock::{
    is_local_offset, is_machine_zone, rfc3339_time, shown_time, zone_label, DAY, MAX_TS, SECOND,
};
use crate::event::{
    Attachment, IncomingEvent, MediaSource, MessageType, RoomEvent, Sticker, StickerMediaSource,
};
use crate::json::{object_text, write_object, Field, FieldView};
use crate::text::{join, joined, optional_text, same_optional, texts};
use std::cmp::Ordering;
use vstd::prelude::*;

verus! {

/// What stands between the parts of a line of plain text.
pub const SEPARATOR: &'static str = " | ";

/// The name of a sender who is not known to be a member of the room.
pub const UNKNOWN_SENDER: &'static str = "(unknown)";

/// One entry of the journal.
pub struct Message {
    /// The identifier of the event.
    pub id: String,
    /// The type of the event.
    pub kind: String,
    /// When the event was made, in milliseconds since the Unix epoch.
    pub ts: u64,
    /// The room of the event, by its display name where it has one.
    pub room: String,
    /// The name of the sender.
    pub sender: String,
    /// What the event says.
    pub body: String,
    /// The content URI of what is attached to the event.
    pub url: Option<String>,
}

/// A [`Message`] as what it says.
pub struct MessageView {
    pub id: Seq<char>,
    pub kind: Seq<char>,
    pub ts: u64,
    pub room: Seq<char>,
    pub sender: Seq<char>,
    pub body: Seq<char>,
    pub url: Option<Seq<char>>,
}

impl View for Message {
    type V = MessageView;

    open spec fn view(&self) -> MessageView {
        MessageView {
            id: self.id@,
            kind: self.kind@,
            ts: self.ts,
            room: self.room@,
            sender: self.sender@,
            body: self.body@,
            url: optional_text(self.url),
        }
    }
}

/// The entry that stands for an event.
pub open spec fn message_of_event(
    event: IncomingEvent,
    display_name: Option<Seq<char>>,
    room_id: Seq<char>,
    member_name: Option<Seq<char>>,
) -> MessageView {
    MessageView {
        id: event.spec_header().event_id@,
        kind: event.kind_text(),
        ts: event.spec_header().origin_server_ts,
        room: match display_name {
            Some(name) => name,
            None => room_id,
        },
        sender: match member_name {
            Some(name) => name,
            None => UNKNOWN_SENDER@,
        },
        body: event.body_text(),
        url: event.media_uri(),
    }
}

/// How two times are ordered.
pub open spec fn time_order(a: u64, b: u64) -> Ordering {
    if a < b {
        Ordering::Less
    } else if a == b {
        Ordering::Equal
    } else {
        Ordering::Greater
    }
}

/// The parts of the line of plain text for a message whose time is shown as `time` and labelled
/// with `label`.
pub open spec fn line_parts(
    message: MessageView,
    time: Seq<char>,
    label: Seq<char>,
) -> Seq<Seq<char>> {
    let parts = seq![time + " "@ + label, message.room, message.sender, message.body];
    match message.url {
        Some(url) => parts.push(url),
        None => parts,
    }
}

/// The line of plain text for a message whose time is shown as `time` and labelled with `label`.
pub open spec fn labelled_line(
    message: MessageView,
    time: Seq<char>,
    label: Seq<char>,
) -> Seq<char> {
    joined(line_parts(message, time, label), SEPARATOR@)
}

/// The line of plain text for a message, as a machine in the given zone shows it.
pub open spec fn line_text(
    message: MessageView,
    offset: i32,
    zone: Option<Seq<char>>,
) -> Seq<char> {
    labelled_line(message, shown_time(message.ts, offset), zone_label(zone, message.ts))
}

/// The entries of the JSON object for a message whose time is written as `time`.
pub open spec fn timed_fields(message: MessageView, time: Seq<char>) -> Seq<FieldView> {
    seq![
        FieldView { name: "id"@, value: Some(message.id) },
        FieldView { name: "kind"@, value: Some(message.kind) },
        FieldView { name: "ts"@, value: Some(time) },
        FieldView { name: "room"@, value: Some(message.room) },
        FieldView { name: "sender"@, value: Some(message.sender) },
        FieldView { name: "body"@, value: Some(message.body) },
        FieldView { name: "url"@, value: message.url },
    ]
}

/// The entries of the JSON object for a message.
pub open spec fn json_fields(message: MessageView) -> Seq<FieldView> {
    timed_fields(message, rfc3339_time(message.ts))
}

/// The JSON object for a message.
pub open spec fn json_text(message: MessageView) -> Seq<char> {
    object_text(json_fields(message))
}

impl Message {
    /// Whether the time of the message has a calendar date.
    pub open spec fn dated(self) -> bool {
        self.ts <= MAX_TS
    }

    /// The entry that stands for `event`. The room goes by its display name, or by its identifier
    /// where it has none; the sender by the name of the member, where there is one.
    pub fn from_event(
        event: &IncomingEvent,
        display_name: Option<String>,
        room_id: &str,
        member_name: Option<String>,
    ) -> (message: Message)
        requires
            event.spec_header().origin_server_ts <= MAX_TS,
        ensures
            message@ == message_of_event(
                *event,
                optional_text(display_name),
                room_id@,
                optional_text(member_name),
            ),
            message.dated(),
    {
        Message {
            id: event.id().to_owned(),
            kind: event.kind().to_owned(),
            ts: event.ts(),
            room: match display_name {
                Some(name) => name,
                None => room_id.to_owned(),
            },
            sender: match member_name {
                Some(name) => name,
                None => UNKNOWN_SENDER.to_owned(),
            },
            body: event.body(),
            url: event.url(),
        }
    }

    /// The short name of `zone` on the date of the message.
    pub fn tzstr_in(&self, zone: &Option<String>) -> (label: String)
        requires
            self.dated(),
        ensures
            label@ == zone_label(optional_text(*zone), self.ts),
    {
        label_in_zone(zone, self.ts)
    }

    /// The short name of the machine's time zone on the date of the message.
    pub fn tzstr(&self) -> (label: String)
        requires
            self.dated(),
        ensures
            exists|zone: Option<Seq<char>>|
                is_machine_zone(zone) && label@ == #[trigger] zone_label(zone, self.ts),
    {
        let zone = machine_zone();
        self.tzstr_in(&zone)
    }

    /// The line of plain text for the message, with its time shown as `time` and labelled with
    /// `label`.
    pub fn line_with(&self, time: &str, label: &str) -> (line: String)
        ensures
            line@ == labelled_line(self@, time@, label@),
    {
        let mut labelled = time.to_owned();
        labelled.append(" ");
        labelled.append(label);
        let mut parts: Vec<String> = Vec::new();
        parts.push(labelled);
        parts.push(self.room.clone());
        parts.push(self.sender.clone());
        parts.push(self.body.clone());
        if let Some(url) = &self.url {
            parts.push(url.clone());
        }
        proof {
            assert(texts(parts@) =~= line_parts(self@, time@, label@));
        }
        join(&parts, SEPARATOR)
    }

    /// The line of plain text for the message, as a machine shows it whose time zone has the
    /// given offset (in seconds east of UTC) and name.
    pub fn to_string_in(&self, offset: i32, zone: &Option<String>) -> (line: String)
        requires
            self.dated(),
            -86_400 < offset < 86_400,
        ensures
            line@ == line_text(self@, offset, optional_text(*zone)),
    {
        let time = time_at_offset(self.ts, offset);
        let label = self.tzstr_in(zone);
        self.line_with(time.as_str(), label.as_str())
    }

    /// The line of plain text for the message in the machine's time zone.
    pub fn to_string(&self) -> (line: String)
        requires
            self.dated(),
        ensures
            exists|offset: i32, zone: Option<Seq<char>>|
                is_local_offset(self.ts, offset) && -86_400 < offset < 86_400 && is_machine_zone(
                    zone,
                ) && line@ == #[trigger] line_text(self@, offset, zone),
    {
        let offset: i32 = machine_offset(self.ts);
        let zone = machine_zone();
        self.to_string_in(offset, &zone)
    }

    /// The JSON object for the message, with its time written as `time`.
    pub fn json_with(&self, time: String) -> (json: String)
        ensures
            json@ == object_text(timed_fields(self@, time@)),
    {
        let mut fields: Vec<Field> = Vec::new();
        fields.push(Field { name: "id".to_owned(), value: Some(self.id.clone()) });
        fields.push(Field { name: "kind".to_owned(), value: Some(self.kind.clone()) });
        let ghost written = time@;
        fields.push(Field { name: "ts".to_owned(), value: Some(time) });
        fields.push(Field { name: "room".to_owned(), value: Some(self.room.clone()) });
        fields.push(Field { name: "sender".to_owned(), value: Some(self.sender.clone()) });
        fields.push(Field { name: "body".to_owned(), value: Some(self.body.clone()) });
        fields.push(Field { name: "url".to_owned(), value: crate::text::copy_optional(&self.url) });
        proof {
            assert(crate::json::field_views(fields@) =~= timed_fields(self@, written));
        }
        write_object(&fields)
    }

    /// The JSON object for the message. No other message is written the same.
    pub fn to_json(&self) -> (json: String)
        requires
            self.dated(),
        ensures
            json@ == json_text(self@),
            forall|other: MessageView|
                other.ts <= MAX_TS && #[trigger] json_text(other) == json@ ==> other == self@,
    {
        let time = format_rfc3339(self.ts);
        proof {
            assert forall|other: MessageView|
                other.ts <= MAX_TS && #[trigger] json_text(other) == json_text(self@) implies other
                == self@ by {
                law_json_determines_content(other, self@);
            }
        }
        self.json_with(time)
    }

    /// What is written to the journal for the message: its JSON object, which no other message
    /// shares, or its line of plain text in the machine's time zone.
    pub fn content(&self, json: bool) -> (content: String)
        requires
            self.dated(),
        ensures
            json ==> content@ == json_text(self@) && forall|other: MessageView|
                other.ts <= MAX_TS && #[trigger] json_text(other) == content@ ==> other == self@,
            !json ==> exists|offset: i32, zone: Option<Seq<char>>|
                is_local_offset(self.ts, offset) && -86_400 < offset < 86_400 && is_machine_zone(
                    zone,
                ) && content@ == #[trigger] line_text(self@, offset, zone),
    {
        if json {
            self.to_json()
        } else {
            self.to_string()
        }
    }

    /// Orders messages by their time alone.
    pub fn cmp(&self, other: &Self) -> (order: Ordering)
        ensures
            order == time_order(self.ts, other.ts),
    {
        if self.ts < other.ts {
            Ordering::Less
        } else if self.ts == other.ts {
            Ordering::Equal
        } else {
            Ordering::Greater
        }
    }
}

impl PartialEq for Message {
    fn eq(&self, other: &Self) -> (same: bool) {
        self.id == other.id && self.kind == other.kind && self.ts == other.ts && self.room
            == other.room && self.sender == other.sender && self.body == other.body
            && same_optional(&self.url, &other.url)
    }
}

impl vstd::std_specs::cmp::PartialEqSpecImpl for Message {
    open spec fn obeys_eq_spec() -> bool {
        true
    }

    open spec fn eq_spec(&self, other: &Self) -> bool {
        self@ == other@
    }
}

impl Eq for Message {

}

impl PartialOrd for Message {
    fn partial_cmp(&self, other: &Self) -> (order: Option<Ordering>) {
        Some(Message::cmp(self, other))
    }
}

impl vstd::std_specs::cmp::PartialOrdSpecImpl for Message {
    open spec fn obeys_partial_cmp_spec() -> bool {
        true
    }

    open spec fn partial_cmp_spec(&self, other: &Self) -> Option<Ordering> {
        Some(time_order(self.ts, other.ts))
    }
}

/// The JSON object for a message is one line, whatever the message holds.
pub proof fn law_json_is_one_line(message: MessageView)
    ensures
        !json_text(message).contains('\n'),
        !json_text(message).contains('\r'),
{
    crate::json::law_object_is_one_line(json_fields(message));
}

/// The JSON object for a message gives back everything the message holds, and its time as it is
/// written.
pub proof fn law_json_determines_content(a: MessageView, b: MessageView)
    requires
        json_text(a) == json_text(b),
    ensures
        a == (MessageView { ts: a.ts, ..b }),
        rfc3339_time(a.ts) == rfc3339_time(b.ts),
{
    crate::json::law_object_determines_fields(json_fields(a), json_fields(b));
    assert(json_fields(a)[0].value == json_fields(b)[0].value);
    assert(json_fields(a)[1].value == json_fields(b)[1].value);
    assert(json_fields(a)[2].value == json_fields(b)[2].value);
    assert(json_fields(a)[3].value == json_fields(b)[3].value);
    assert(json_fields(a)[4].value == json_fields(b)[4].value);
    assert(json_fields(a)[5].value == json_fields(b)[5].value);
    assert(json_fields(a)[6].value == json_fields(b)[6].value);
}

/// Messages are ordered by their time alone, the earlier before the later, and any two of them are
/// comparable: the order is reflexive, turns round with its arguments, and is transitive.
pub proof fn law_order_follows_time(a: u64, b: u64, c: u64)
    ensures
        time_order(a, b) == Ordering::Less <==> a < b,
        time_order(a, b) == Ordering::Equal <==> a == b,
        time_order(a, b) == Ordering::Greater <==> a > b,
        time_order(a, b) == Ordering::Less <==> time_order(b, a) == Ordering::Greater,
        time_order(a, b) != Ordering::Greater && time_order(b, c) != Ordering::Greater
            ==> time_order(a, c) != Ordering::Greater,
{
}

/// The attachment of a message stands last in its line of plain text, and only there.
pub proof fn law_line_ends_with_attachment(
    message: MessageView,
    offset: i32,
    zone: Option<Seq<char>>,
)
    ensures
        ({
            let bare = line_text(MessageView { url: None, ..message }, offset, zone);
            line_text(message, offset, zone) == match message.url {
                Some(url) => bare + SEPARATOR@ + url,
                None => bare,
            }
        }),
{
    let parts = line_parts(
        MessageView { url: None, ..message },
        shown_time(message.ts, offset),
        zone_label(zone, message.ts),
    );
    match message.url {
        Some(url) => {
            assert(parts.push(url).drop_last() == parts);
            assert(parts.push(url).last() == url);
        },
        None => {},
    }
}

/// A line of plain text tells neither the identifier nor the type of an event, nor any fraction
/// of a second: messages that agree on the rest have the same line.
pub proof fn law_line_shows_whole_seconds(
    a: MessageView,
    b: MessageView,
    offset: i32,
    zone: Option<Seq<char>>,
)
    requires
        a.ts / SECOND == b.ts / SECOND,
        a.room == b.room,
        a.sender == b.sender,
        a.body == b.body,
        a.url == b.url,
    ensures
        line_text(a, offset, zone) == line_text(b, offset, zone),
{
    assert(a.ts / DAY == b.ts / DAY);
    law_time_is_shown_to_the_second(offset, a.ts, b.ts);
    law_label_follows_date(zone, a.ts, b.ts);
}

/// A message is seen by all that it holds.
pub proof fn law_view_shows_every_field(message: Message)
    ensures
        message@.id == message.id@,
        message@.kind == message.kind@,
        message@.ts == message.ts,
        message@.room == message.room@,
        message@.sender == message.sender@,
        message@.body == message.body@,
        message@.url is Some <==> message.url is Some,
        message.url matches Some(url) ==> message@.url == Some(url@),
        message.dated() <==> message.ts <= MAX_TS,
{
}

/// An entry has the identifier and the time of its event, the name of its type and what it says.
/// Its room goes by the display name, or else by the identifier; its sender by the name of the
/// member, or else as unknown.
pub proof fn law_entry_tells_its_event(
    event: IncomingEvent,
    display_name: Option<Seq<char>>,
    room_id: Seq<char>,
    member_name: Option<Seq<char>>,
)
    ensures
        ({
            let entry = message_of_event(event, display_name, room_id, member_name);
            &&& entry.id == event.spec_header().event_id@
            &&& entry.ts == event.spec_header().origin_server_ts
            &&& entry.body == event.body_text()
            &&& event is Message ==> entry.kind == "message"@
            &&& event is Reaction ==> entry.kind == "reaction"@
            &&& event is Sticker ==> entry.kind == "sticker"@
            &&& event is Redaction ==> entry.kind == "redaction"@
            &&& display_name matches Some(name) ==> entry.room == name
            &&& display_name is None ==> entry.room == room_id
            &&& member_name matches Some(name) ==> entry.sender == name
            &&& member_name is None ==> entry.sender == "(unknown)"@
        }),
{
}

/// An entry leads to the attachment of its event: its URL is the content URI of an image, a sound,
/// a video, a file or a sticker, encrypted or not. The entries of all other events have no URL.
pub proof fn law_entry_leads_to_the_attachment(
    event: IncomingEvent,
    display_name: Option<Seq<char>>,
    room_id: Seq<char>,
    member_name: Option<Seq<char>>,
)
    ensures
        event matches IncomingEvent::Message(
            RoomEvent::Original {
                content: MessageType::Audio(Attachment { source: MediaSource::Plain(uri), .. }),
                ..
            },
        ) ==> message_of_event(event, display_name, room_id, member_name).url == Some(uri@),
        event matches IncomingEvent::Message(
            RoomEvent::Original {
                content: MessageType::Audio(Attachment { source: MediaSource::Encrypted(uri), .. }),
                ..
            },
        ) ==> message_of_event(event, display_name, room_id, member_name).url == Some(uri@),
        event matches IncomingEvent::Message(
            RoomEvent::Original {
                content: MessageType::File(Attachment { source: MediaSource::Plain(uri), .. }),
                ..
            },
        ) ==> message_of_event(event, display_name, room_id, member_name).url == Some(uri@),
        event matches IncomingEvent::Message(
            RoomEvent::Original {
                content: MessageType::File(Attachment { source: MediaSource::Encrypted(uri), .. }),
                ..
            },
        ) ==> message_of_event(event, display_name, room_id, member_name).url == Some(uri@),
        event matches IncomingEvent::Message(
            RoomEvent::Original {
                content: MessageType::Image(Attachment { source: MediaSource::Plain(uri), .. }),
                ..
            },
        ) ==> message_of_event(event, display_name, room_id, member_name).url == Some(uri@),
        event matches IncomingEvent::Message(
            RoomEvent::Original {
                content: MessageType::Image(Attachment { source: MediaSource::Encrypted(uri), .. }),
                ..
            },
        ) ==> message_of_event(event, display_name, room_id, member_name).url == Some(uri@),
        event matches IncomingEvent::Message(
            RoomEvent::Original {
                content: MessageType::Video(Attachment { source: MediaSource::Plain(uri), .. }),
                ..
            },
        ) ==> message_of_event(event, display_name, room_id, member_name).url == Some(uri@),
        event matches IncomingEvent::Message(
            RoomEvent::Original {
                content: MessageType::Video(Attachment { source: MediaSource::Encrypted(uri), .. }),
                ..
            },
        ) ==> message_of_event(event, display_name, room_id, member_name).url == Some(uri@),
        event matches IncomingEvent::Sticker(
            RoomEvent::Original {
                content: Sticker { source: StickerMediaSource::Plain(uri), .. },
                ..
            },
        ) ==> message_of_event(event, display_name, room_id, member_name).url == Some(uri@),
        event matches IncomingEvent::Sticker(
            RoomEvent::Original {
                content: Sticker { source: StickerMediaSource::Encrypted(uri), .. },
                ..
            },
        ) ==> message_of_event(event, display_name, room_id, member_name).url == Some(uri@),
        event matches IncomingEvent::Sticker(
            RoomEvent::Original { content: Sticker { source: StickerMediaSource::Other, .. }, .. },
        ) ==> message_of_event(event, display_name, room_id, member_name).url is None,
        event matches IncomingEvent::Message(
            RoomEvent::Original { content: MessageType::Emote(_), .. },
        ) ==> message_of_event(event, display_name, room_id, member_name).url is None,
        event matches IncomingEvent::Message(
            RoomEvent::Original { content: MessageType::Location(_), .. },
        ) ==> message_of_event(event, display_name, room_id, member_name).url is None,
        event matches IncomingEvent::Message(
            RoomEvent::Original { content: MessageType::Notice(_), .. },
        ) ==> message_of_event(event, display_name, room_id, member_name).url is None,
        event matches IncomingEvent::Message(
            RoomEvent::Original { content: MessageType::ServerNotice(_), .. },
        ) ==> message_of_event(event, display_name, room_id, member_name).url is None,
        event matches IncomingEvent::Message(
            RoomEvent::Original { content: MessageType::Text(_), .. },
        ) ==> message_of_event(event, display_name, room_id, member_name).url is None,
        event matches IncomingEvent::Message(
            RoomEvent::Original { content: MessageType::VerificationRequest(_), .. },
        ) ==> message_of_event(event, display_name, room_id, member_name).url is None,
        event matches IncomingEvent::Message(
            RoomEvent::Original { content: MessageType::Custom(_), .. },
        ) ==> message_of_event(event, display_name, room_id, member_name).url is None,
        event is Reaction || event is Redaction ==> message_of_event(event, display_name, room_id, member_name).url is None,
        event matches IncomingEvent::Message(RoomEvent::Redacted { .. }) ==> message_of_event(event, display_name, room_id, member_name).url is None,
        event matches IncomingEvent::Sticker(RoomEvent::Redacted { .. }) ==> message_of_event(event, display_name, room_id, member_name).url is None,
{
}

/// A line of plain text is made of the time with its label, the room, the sender, the body and the
/// attachment where there is one, in this order and with bars between them.
pub proof fn law_line_reads_in_order(message: MessageView, time: Seq<char>, label: Seq<char>)
    ensures
        message.url is None ==> labelled_line(message, time, label) == time + " "@ + label + " | "@
            + message.room + " | "@ + message.sender + " | "@ + message.body,
        message.url matches Some(url) ==> labelled_line(message, time, label) == time + " "@ + label
            + " | "@ + message.room + " | "@ + message.sender + " | "@ + message.body + " | "@
            + url,
{
    let stamp = time + " "@ + label;
    let one = seq![stamp];
    let two = one.push(message.room);
    let three = two.push(message.sender);
    let four = three.push(message.body);
    assert(one.drop_last() == Seq::<Seq<char>>::empty());
    assert(two.drop_last() == one);
    assert(three.drop_last() == two);
    assert(four.drop_last() == three);
    assert(joined(one, " | "@) == stamp);
    assert(joined(two, " | "@) == stamp + " | "@ + message.room);
    assert(joined(three, " | "@) == stamp + " | "@ + message.room + " | "@ + message.sender);
    assert(joined(four, " | "@) == stamp + " | "@ + message.room + " | "@ + message.sender + " | "@
        + message.body);
    match message.url {
        Some(url) => {
            assert(four.push(url).drop_last() == four);
            assert(line_parts(message, time, label) =~= four.push(url));
        },
        None => {
            assert(line_parts(message, time, label) =~= four);
        },
    }
}

/// The line of a message shows its own time, at the offset that is asked for and as the whole
/// second it falls in, with the label of the zone that is asked for.
pub proof fn law_line_shows_its_own_time(
    message: MessageView,
    offset: i32,
    zone: Option<Seq<char>>,
    start: u64,
)
    requires
        start % 1_000 == 0,
        start <= message.ts < start + 1_000,
    ensures
        line_text(message, offset, zone) == labelled_line(
            message,
            crate::clock::formatted_time(start, offset, "%Y-%m-%d %H:%M:%S"@),
            zone_label(zone, message.ts),
        ),
{
}

/// The object for a message has exactly seven entries, each with the field of its name, whatever
/// the message holds.
pub proof fn law_object_pairs_names_with_fields(message: MessageView, time: Seq<char>)
    ensures
        ({
            let entries = timed_fields(message, time);
            &&& entries.len() == 7
            &&& entries[0].name == "id"@ && entries[0].value == Some(message.id)
            &&& entries[1].name == "kind"@ && entries[1].value == Some(message.kind)
            &&& entries[2].name == "ts"@ && entries[2].value == Some(time)
            &&& entries[3].name == "room"@ && entries[3].value == Some(message.room)
            &&& entries[4].name == "sender"@ && entries[4].value == Some(message.sender)
            &&& entries[5].name == "body"@ && entries[5].value == Some(message.body)
            &&& entries[6].name == "url"@ && entries[6].value == message.url
        }),
{
}

/// The JSON object for a message holds its own time, as it is written in the form of RFC 3339.
pub proof fn law_object_holds_its_own_time(message: MessageView)
    ensures
        json_text(message) == object_text(timed_fields(message, rfc3339_time(message.ts))),
{
}

/// Messages are equal exactly if they agree in every field, and they are compared by their time
/// alone: the earlier one is the lesser.
pub proof fn law_comparisons_of_messages(a: Message, b: Message)
    ensures
        vstd::std_specs::cmp::PartialEqSpec::eq_spec(&a, &b) <==> {
            &&& a.id@ == b.id@
            &&& a.kind@ == b.kind@
            &&& a.ts == b.ts
            &&& a.room@ == b.room@
            &&& a.sender@ == b.sender@
            &&& a.body@ == b.body@
            &&& optional_text(a.url) == optional_text(b.url)
        },
        a.ts < b.ts ==> vstd::std_specs::cmp::PartialOrdSpec::partial_cmp_spec(&a, &b) == Some(
            Ordering::Less,
        ),
        a.ts == b.ts ==> vstd::std_specs::cmp::PartialOrdSpec::partial_cmp_spec(&a, &b) == Some(
            Ordering::Equal,
        ),
        a.ts > b.ts ==> vstd::std_specs::cmp::PartialOrdSpec::partial_cmp_spec(&a, &b) == Some(
            Ordering::Greater,
        ),
{
}

} // verus!
