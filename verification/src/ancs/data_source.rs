//! The Data Source characteristic: answers to attribute requests, each a
//! command identifier, a key and a list of type-length-value entries.

use crate::ancs::control_point::{AppAttributeID, CommandID, NotificationAttributeID};
use crate::ancs::error::AncsError;
use crate::ancs::ListenerStep;
use crate::text::{
    decimal,
    decode_text,
    labelled,
    opt_text,
    push_field,
    push_number,
    text_of,
};
use crate::wire::{read_u16_le, read_u32_le, u16_from_le, u16_to_le, u32_from_le, u32_to_le};
use vstd::prelude::*;
use vstd::utf8::*;

verus! {

/// The 128-bit UUID of the Data Source characteristic.
pub const DATA_SOURCE_UUID: u128 = 0x22EAC6E924D64BB5BE44B36ACE7C7BFBu128;

/// One entry of an attribute list: the attribute's identifier and its payload.
pub struct AttributeEntry {
    pub id: u8,
    pub payload: Seq<u8>,
}

/// The entries that `bytes` holds from index `at` to its end, or `None` where
/// the bytes are no list of entries. An entry is an identifier, a length of
/// two bytes, little-endian, and a payload of that many bytes; a list is
/// malformed where fewer than three bytes are left for an entry's head, or
/// fewer than its length for its payload.
pub open spec fn entries_from(bytes: Seq<u8>, at: int) -> Option<Seq<AttributeEntry>>
    decreases bytes.len() - at,
{
    if at < 0 || at > bytes.len() {
        None
    } else if at == bytes.len() {
        Some(Seq::empty())
    } else if at + 3 > bytes.len() {
        None
    } else {
        let length = u16_from_le(bytes[at + 1], bytes[at + 2]) as int;
        if at + 3 + length > bytes.len() {
            None
        } else {
            match entries_from(bytes, at + 3 + length) {
                Some(rest) => Some(
                    seq![
                        AttributeEntry {
                            id: bytes[at],
                            payload: bytes.subrange(at + 3, at + 3 + length),
                        },
                    ] + rest,
                ),
                None => None,
            }
        }
    }
}

/// The payload of the last entry for attribute `id`, if there is one: where a
/// list names an attribute more than once, the last entry counts.
pub open spec fn last_payload(entries: Seq<AttributeEntry>, id: u8) -> Option<Seq<u8>>
    decreases entries.len(),
{
    if entries.len() == 0 {
        None
    } else if entries.last().id == id {
        Some(entries.last().payload)
    } else {
        last_payload(entries.drop_last(), id)
    }
}

/// The text of attribute `id` in a list: the payload of its last entry where
/// that is valid UTF-8, nothing otherwise.
pub open spec fn text_attribute(entries: Seq<AttributeEntry>, id: u8) -> Option<Seq<char>> {
    match last_payload(entries, id) {
        Some(payload) => text_of(payload),
        None => None,
    }
}

/// The number that a payload of two bytes holds, little-endian; nothing for a
/// payload of another length.
pub open spec fn size_of(payload: Seq<u8>) -> Option<u16> {
    if payload.len() == 2 {
        Some(u16_from_le(payload[0], payload[1]))
    } else {
        None
    }
}

/// The number of attribute `id` in a list, read from its last entry.
pub open spec fn size_attribute(entries: Seq<AttributeEntry>, id: u8) -> Option<u16> {
    match last_payload(entries, id) {
        Some(payload) => size_of(payload),
        None => None,
    }
}

/// The index of the first NUL in `bytes` at or after `from`, if there is one.
pub open spec fn find_nul(bytes: Seq<u8>, from: int) -> Option<int>
    decreases bytes.len() - from,
{
    if from < 0 || from >= bytes.len() {
        None
    } else if bytes[from] == 0 {
        Some(from)
    } else {
        find_nul(bytes, from + 1)
    }
}

/// The attributes of one notification, as far as an answer gave them.
#[derive(Clone, Debug)]
pub struct NotificationAttributes {
    pub notification_id: u32,
    pub app_identifier: Option<String>,
    pub title: Option<String>,
    pub subtitle: Option<String>,
    pub message: Option<String>,
    pub message_size: Option<u16>,
    pub date: Option<String>,
    pub positive_action_label: Option<String>,
    pub negative_action_label: Option<String>,
}

/// What a `NotificationAttributes` holds, with its strings as characters.
pub struct NotificationAttributesView {
    pub notification_id: u32,
    pub app_identifier: Option<Seq<char>>,
    pub title: Option<Seq<char>>,
    pub subtitle: Option<Seq<char>>,
    pub message: Option<Seq<char>>,
    pub message_size: Option<u16>,
    pub date: Option<Seq<char>>,
    pub positive_action_label: Option<Seq<char>>,
    pub negative_action_label: Option<Seq<char>>,
}

impl View for NotificationAttributes {
    type V = NotificationAttributesView;

    open spec fn view(&self) -> NotificationAttributesView {
        NotificationAttributesView {
            notification_id: self.notification_id,
            app_identifier: opt_text(self.app_identifier),
            title: opt_text(self.title),
            subtitle: opt_text(self.subtitle),
            message: opt_text(self.message),
            message_size: self.message_size,
            date: opt_text(self.date),
            positive_action_label: opt_text(self.positive_action_label),
            negative_action_label: opt_text(self.negative_action_label),
        }
    }
}

impl NotificationAttributesView {
    /// The attributes in words, for a log: the identifier, then each field
    /// that is set, under its label.
    pub open spec fn description(self) -> Seq<char> {
        "id: "@ + decimal(self.notification_id as nat) + labelled(
            " app identifier: "@,
            self.app_identifier,
        ) + labelled(" title: "@, self.title) + labelled(" subtitle: "@, self.subtitle) + labelled(
            " message: "@,
            self.message,
        ) + (match self.message_size {
            Some(size) => " message_size: "@ + decimal(size as nat),
            None => Seq::empty(),
        }) + labelled(" date: "@, self.date) + labelled(
            " positive action label: "@,
            self.positive_action_label,
        ) + labelled(" negative action lable: "@, self.negative_action_label)
    }

    /// The attributes of a notification of which nothing is known.
    pub open spec fn unset(notification_id: u32) -> Self {
        NotificationAttributesView {
            notification_id,
            app_identifier: None,
            title: None,
            subtitle: None,
            message: None,
            message_size: None,
            date: None,
            positive_action_label: None,
            negative_action_label: None,
        }
    }

    /// The attributes that a list of entries gives to a notification.
    pub open spec fn of_entries(notification_id: u32, entries: Seq<AttributeEntry>) -> Self {
        NotificationAttributesView {
            notification_id,
            app_identifier: text_attribute(
                entries,
                NotificationAttributeID::AppIdentifier.wire_id(),
            ),
            title: text_attribute(entries, NotificationAttributeID::Title.wire_id()),
            subtitle: text_attribute(entries, NotificationAttributeID::Subtitle.wire_id()),
            message: text_attribute(entries, NotificationAttributeID::Message.wire_id()),
            message_size: size_attribute(entries, NotificationAttributeID::MessageSize.wire_id()),
            date: text_attribute(entries, NotificationAttributeID::Date.wire_id()),
            positive_action_label: text_attribute(
                entries,
                NotificationAttributeID::PositiveActionLabel.wire_id(),
            ),
            negative_action_label: text_attribute(
                entries,
                NotificationAttributeID::NegativeActionLabel.wire_id(),
            ),
        }
    }
}

/// What is known of a list while it is read: nothing where what is left is
/// malformed, else what was read followed by what is left.
spec fn joined(done: Seq<AttributeEntry>, rest: Option<Seq<AttributeEntry>>) -> Option<
    Seq<AttributeEntry>,
> {
    match rest {
        Some(rest) => Some(done + rest),
        None => None,
    }
}

/// With nothing read yet, what is known of a list is what is left of it.
proof fn lemma_joined_empty(rest: Option<Seq<AttributeEntry>>)
    ensures
        joined(Seq::empty(), rest) == rest,
{
    match rest {
        Some(entries) => {
            assert(Seq::<AttributeEntry>::empty() + entries =~= entries);
        },
        None => {},
    }
}

/// Reading one more entry of a list keeps what is known of the whole.
proof fn lemma_entries_step(bytes: Seq<u8>, at: int, done: Seq<AttributeEntry>)
    requires
        0 <= at,
        at + 3 <= bytes.len(),
        at + 3 + u16_from_le(bytes[at + 1], bytes[at + 2]) <= bytes.len(),
    ensures
        joined(done, entries_from(bytes, at)) == joined(
            done.push(
                AttributeEntry {
                    id: bytes[at],
                    payload: bytes.subrange(
                        at + 3,
                        at + 3 + u16_from_le(bytes[at + 1], bytes[at + 2]),
                    ),
                },
            ),
            entries_from(bytes, at + 3 + u16_from_le(bytes[at + 1], bytes[at + 2])),
        ),
{
    let length = u16_from_le(bytes[at + 1], bytes[at + 2]) as int;
    let entry = AttributeEntry { id: bytes[at], payload: bytes.subrange(at + 3, at + 3 + length) };
    match entries_from(bytes, at + 3 + length) {
        Some(rest) => {
            assert(done + (seq![entry] + rest) =~= done.push(entry) + rest);
        },
        None => {},
    }
}

/// The last payload of an attribute after one more entry was read.
proof fn lemma_last_payload_push(entries: Seq<AttributeEntry>, entry: AttributeEntry, id: u8)
    ensures
        last_payload(entries.push(entry), id) == if entry.id == id {
            Some(entry.payload)
        } else {
            last_payload(entries, id)
        },
{
    assert(entries.push(entry).drop_last() =~= entries);
}

impl NotificationAttributes {
    /// What an answer decodes to. The answer leads with the command
    /// identifier; the notification identifier follows, little-endian, then
    /// the entries up to the end of the buffer.
    pub open spec fn parse(bytes: Seq<u8>) -> Result<NotificationAttributesView, AncsError> {
        if bytes.len() == 0 {
            Err(AncsError::Malformed)
        } else if bytes[0] != CommandID::GetNotificationAttributes.wire_id() {
            Err(AncsError::Unrecognized)
        } else if bytes.len() < 5 {
            Err(AncsError::Malformed)
        } else {
            match entries_from(bytes, 5) {
                Some(entries) => Ok(
                    NotificationAttributesView::of_entries(
                        u32_from_le(bytes.subrange(1, 5)),
                        entries,
                    ),
                ),
                None => Err(AncsError::Malformed),
            }
        }
    }

    /// Makes the attributes of a notification of which nothing is known yet.
    pub fn empty(notification_id: u32) -> (attributes: Self)
        ensures
            attributes@ == NotificationAttributesView::unset(notification_id),
            attributes@ == NotificationAttributesView::of_entries(notification_id, Seq::empty()),
    {
        Self {
            notification_id,
            app_identifier: None,
            title: None,
            subtitle: None,
            message: None,
            message_size: None,
            date: None,
            positive_action_label: None,
            negative_action_label: None,
        }
    }

    /// Writes the attributes in words, for a log.
    pub fn describe(&self) -> (text: String)
        ensures
            text@ == self@.description(),
    {
        let mut text = String::new();
        push_number(&mut text, "id: ", self.notification_id);
        push_field(&mut text, " app identifier: ", &self.app_identifier);
        push_field(&mut text, " title: ", &self.title);
        push_field(&mut text, " subtitle: ", &self.subtitle);
        push_field(&mut text, " message: ", &self.message);
        let ghost before = text@;
        match self.message_size {
            Some(size) => {
                push_number(&mut text, " message_size: ", size as u32);
                assert(text@ =~= before + (" message_size: "@ + decimal(size as nat)));
            },
            None => {
                assert(text@ =~= before + Seq::<char>::empty());
            },
        }
        push_field(&mut text, " date: ", &self.date);
        push_field(&mut text, " positive action label: ", &self.positive_action_label);
        push_field(&mut text, " negative action lable: ", &self.negative_action_label);
        assert(text@ =~= self@.description());
        text
    }

    /// Decodes an answer to a request for notification attributes.
    pub fn from_buffer(buffer: Vec<u8>) -> (result: Result<Self, AncsError>)
        ensures
            match Self::parse(buffer@) {
                Ok(attributes) => result matches Ok(decoded) && decoded@ == attributes,
                Err(error) => result matches Err(e) && e == error,
            },
    {
        if buffer.len() == 0 {
            return Err(AncsError::Malformed);
        }
        if buffer[0] != CommandID::GetNotificationAttributes.to_u8() {
            return Err(AncsError::Unrecognized);
        }
        if buffer.len() < 5 {
            return Err(AncsError::Malformed);
        }
        let notification_id = read_u32_le(&buffer, 1);
        let mut attributes = Self::empty(notification_id);
        let mut at: usize = 5;
        let ghost mut done: Seq<AttributeEntry> = Seq::empty();
        proof {
            lemma_joined_empty(entries_from(buffer@, 5));
        }
        while at < buffer.len()
            invariant
                5 <= at <= buffer.len(),
                buffer@[0] == CommandID::GetNotificationAttributes.wire_id(),
                notification_id == u32_from_le(buffer@.subrange(1, 5)),
                entries_from(buffer@, 5) == joined(done, entries_from(buffer@, at as int)),
                attributes@ == NotificationAttributesView::of_entries(notification_id, done),
            decreases buffer.len() - at,
        {
            if buffer.len() - at < 3 {
                return Err(AncsError::Malformed);
            }
            let id = buffer[at];
            let length = read_u16_le(buffer[at + 1], buffer[at + 2]) as usize;
            if buffer.len() - at - 3 < length {
                return Err(AncsError::Malformed);
            }
            let from = at + 3;
            let to = from + length;
            proof {
                lemma_entries_step(buffer@, at as int, done);
            }
            attributes.absorb(id, &buffer, from, to, Ghost(done));
            proof {
                done = done.push(
                    AttributeEntry { id, payload: buffer@.subrange(from as int, to as int) },
                );
            }
            at = to;
        }
        assert(done + Seq::<AttributeEntry>::empty() =~= done);
        Ok(attributes)
    }

    /// Takes in the entry for attribute `id` whose payload is
    /// `buffer[from..to]`; an entry for an unknown attribute changes nothing.
    fn absorb(
        &mut self,
        id: u8,
        buffer: &Vec<u8>,
        from: usize,
        to: usize,
        Ghost(done): Ghost<Seq<AttributeEntry>>,
    )
        requires
            from <= to <= buffer.len(),
            old(self)@ == NotificationAttributesView::of_entries(old(self).notification_id, done),
        ensures
            final(self)@ == NotificationAttributesView::of_entries(
                old(self).notification_id,
                done.push(
                    AttributeEntry { id, payload: buffer@.subrange(from as int, to as int) },
                ),
            ),
    {
        let ghost entry = AttributeEntry { id, payload: buffer@.subrange(from as int, to as int) };
        proof {
            lemma_last_payload_push(done, entry, 0);
            lemma_last_payload_push(done, entry, 1);
            lemma_last_payload_push(done, entry, 2);
            lemma_last_payload_push(done, entry, 3);
            lemma_last_payload_push(done, entry, 4);
            lemma_last_payload_push(done, entry, 5);
            lemma_last_payload_push(done, entry, 6);
            lemma_last_payload_push(done, entry, 7);
        }
        match NotificationAttributeID::from_u8(id) {
            Some(NotificationAttributeID::AppIdentifier) => {
                self.app_identifier = decode_text(buffer, from, to);
            },
            Some(NotificationAttributeID::Title) => {
                self.title = decode_text(buffer, from, to);
            },
            Some(NotificationAttributeID::Subtitle) => {
                self.subtitle = decode_text(buffer, from, to);
            },
            Some(NotificationAttributeID::Message) => {
                self.message = decode_text(buffer, from, to);
            },
            Some(NotificationAttributeID::MessageSize) => {
                self.message_size = if to - from == 2 {
                    Some(read_u16_le(buffer[from], buffer[from + 1]))
                } else {
                    None
                };
            },
            Some(NotificationAttributeID::Date) => {
                self.date = decode_text(buffer, from, to);
            },
            Some(NotificationAttributeID::PositiveActionLabel) => {
                self.positive_action_label = decode_text(buffer, from, to);
            },
            Some(NotificationAttributeID::NegativeActionLabel) => {
                self.negative_action_label = decode_text(buffer, from, to);
            },
            None => {},
        }
    }
}

/// The attributes of one app, as far as an answer gave them.
#[derive(Clone, Debug)]
pub struct AppAttributes {
    pub app_identifier: String,
    pub display_name: Option<String>,
}

/// What an `AppAttributes` holds, with its strings as characters.
pub struct AppAttributesView {
    pub app_identifier: Seq<char>,
    pub display_name: Option<Seq<char>>,
}

impl View for AppAttributes {
    type V = AppAttributesView;

    open spec fn view(&self) -> AppAttributesView {
        AppAttributesView {
            app_identifier: self.app_identifier@,
            display_name: opt_text(self.display_name),
        }
    }
}

impl AppAttributesView {
    /// The attributes in words, for a log: the identifier, with the display
    /// name behind it where it is set.
    pub open spec fn description(self) -> Seq<char> {
        "app identifier: "@ + self.app_identifier + labelled(Seq::empty(), self.display_name)
    }
}

impl AppAttributes {
    /// Writes the attributes in words, for a log.
    pub fn describe(&self) -> (text: String)
        ensures
            text@ == self@.description(),
    {
        let mut text = String::new();
        text.append("app identifier: ");
        text.append(self.app_identifier.as_str());
        push_field(&mut text, "", &self.display_name);
        proof {
            reveal_strlit("");
            assert(""@ =~= Seq::<char>::empty());
        }
        assert(text@ =~= self@.description());
        text
    }

    /// What an answer decodes to. The answer leads with the command
    /// identifier; the app identifier follows, up to its NUL, then the entries
    /// up to the end of the buffer. The answer is malformed where the NUL is
    /// missing, where the identifier is not valid UTF-8, and where the entries
    /// are.
    pub open spec fn parse(bytes: Seq<u8>) -> Result<AppAttributesView, AncsError> {
        if bytes.len() == 0 {
            Err(AncsError::Malformed)
        } else if bytes[0] != CommandID::GetAppAttributes.wire_id() {
            Err(AncsError::Unrecognized)
        } else {
            match find_nul(bytes, 1) {
                None => Err(AncsError::Malformed),
                Some(nul) => match (text_of(bytes.subrange(1, nul)), entries_from(bytes, nul + 1)) {
                    (Some(app_identifier), Some(entries)) => Ok(
                        AppAttributesView {
                            app_identifier,
                            display_name: text_attribute(
                                entries,
                                AppAttributeID::Displayname.wire_id(),
                            ),
                        },
                    ),
                    _ => Err(AncsError::Malformed),
                },
            }
        }
    }

    /// Decodes an answer to a request for app attributes.
    pub fn from_buffer(buffer: Vec<u8>) -> (result: Result<Self, AncsError>)
        ensures
            match Self::parse(buffer@) {
                Ok(attributes) => result matches Ok(decoded) && decoded@ == attributes,
                Err(error) => result matches Err(e) && e == error,
            },
    {
        if buffer.len() == 0 {
            return Err(AncsError::Malformed);
        }
        if buffer[0] != CommandID::GetAppAttributes.to_u8() {
            return Err(AncsError::Unrecognized);
        }
        let mut nul: usize = 1;
        while nul < buffer.len() && buffer[nul] != 0
            invariant
                1 <= nul <= buffer.len(),
                find_nul(buffer@, 1) == find_nul(buffer@, nul as int),
            decreases buffer.len() - nul,
        {
            nul += 1;
        }
        if nul == buffer.len() {
            return Err(AncsError::Malformed);
        }
        let app_identifier = match decode_text(&buffer, 1, nul) {
            Some(text) => text,
            None => {
                return Err(AncsError::Malformed);
            },
        };
        let mut display_name: Option<String> = None;
        let mut at: usize = nul + 1;
        let ghost mut done: Seq<AttributeEntry> = Seq::empty();
        let ghost first = at as int;
        proof {
            lemma_joined_empty(entries_from(buffer@, first));
        }
        while at < buffer.len()
            invariant
                first <= at <= buffer.len(),
                buffer@[0] == CommandID::GetAppAttributes.wire_id(),
                find_nul(buffer@, 1) == Some(first - 1),
                text_of(buffer@.subrange(1, first - 1)) == Some(app_identifier@),
                entries_from(buffer@, first) == joined(done, entries_from(buffer@, at as int)),
                opt_text(display_name) == text_attribute(
                    done,
                    AppAttributeID::Displayname.wire_id(),
                ),
            decreases buffer.len() - at,
        {
            if buffer.len() - at < 3 {
                return Err(AncsError::Malformed);
            }
            let id = buffer[at];
            let length = read_u16_le(buffer[at + 1], buffer[at + 2]) as usize;
            if buffer.len() - at - 3 < length {
                return Err(AncsError::Malformed);
            }
            let from = at + 3;
            let to = from + length;
            let ghost entry = AttributeEntry {
                id,
                payload: buffer@.subrange(from as int, to as int),
            };
            proof {
                lemma_entries_step(buffer@, at as int, done);
                lemma_last_payload_push(done, entry, AppAttributeID::Displayname.wire_id());
            }
            match AppAttributeID::from_u8(id) {
                Some(AppAttributeID::Displayname) => {
                    display_name = decode_text(&buffer, from, to);
                },
                None => {},
            }
            proof {
                done = done.push(entry);
            }
            at = to;
        }
        assert(done + Seq::<AttributeEntry>::empty() =~= done);
        Ok(Self { app_identifier, display_name })
    }
}

/// The bytes that carry one entry: its identifier, the length of its payload,
/// little-endian, and the payload.
pub open spec fn entry_bytes(entry: AttributeEntry) -> Seq<u8> {
    seq![entry.id] + u16_to_le(entry.payload.len() as u16) + entry.payload
}

/// The bytes that carry a list of entries, one after the other.
pub open spec fn entries_bytes(entries: Seq<AttributeEntry>) -> Seq<u8>
    decreases entries.len(),
{
    if entries.len() == 0 {
        Seq::empty()
    } else {
        entry_bytes(entries.first()) + entries_bytes(entries.drop_first())
    }
}

/// Reading recovers what was written: behind any head, the bytes of a list of
/// entries whose payloads fit a 16-bit length are read back as that list.
pub proof fn lemma_entries_round_trip(head: Seq<u8>, entries: Seq<AttributeEntry>)
    requires
        forall|i: int| 0 <= i < entries.len() ==> (#[trigger] entries[i]).payload.len() <= 0xFFFF,
    ensures
        entries_from(head + entries_bytes(entries), head.len() as int) == Some(entries),
    decreases entries.len(),
{
    let bytes = head + entries_bytes(entries);
    let at = head.len() as int;
    if entries.len() == 0 {
        assert(entries =~= Seq::empty());
    } else {
        let entry = entries.first();
        let rest = entries.drop_first();
        let length = entry.payload.len() as int;
        assert(entry == entries[0]);
        assert forall|i: int| 0 <= i < rest.len() implies (#[trigger] rest[i]).payload.len()
            <= 0xFFFF by {
            assert(rest[i] == entries[i + 1]);
        }
        let next = head + entry_bytes(entry);
        assert(bytes =~= next + entries_bytes(rest));
        lemma_entries_round_trip(next, rest);
        crate::wire::lemma_u16_le_round_trip(length as u16);
        assert(bytes[at] == entry.id);
        assert(bytes[at + 1] == u16_to_le(length as u16)[0]);
        assert(bytes[at + 2] == u16_to_le(length as u16)[1]);
        assert(u16_from_le(bytes[at + 1], bytes[at + 2]) == length);
        assert(bytes.subrange(at + 3, at + 3 + length) =~= entry.payload);
        assert(next.len() == at + 3 + length);
        assert(seq![entry] + rest =~= entries);
    }
}

/// A list of one entry is carried by the bytes of that entry, and gives its
/// payload to the attribute of its identifier and nothing to any other.
pub proof fn lemma_single_entry(entry: AttributeEntry, id: u8)
    ensures
        entries_bytes(seq![entry]) == entry_bytes(entry),
        last_payload(seq![entry], id) == if entry.id == id {
            Some(entry.payload)
        } else {
            None
        },
{
    let entries = seq![entry];
    assert(entries.drop_first() =~= Seq::empty());
    assert(entries.drop_last() =~= Seq::empty());
    assert(entries.first() == entry && entries.last() == entry);
    assert(entries_bytes(entries.drop_first()) =~= Seq::<u8>::empty());
    assert(entries_bytes(entries) =~= entry_bytes(entry));
    assert(last_payload(entries.drop_last(), id) is None);
}

/// An answer that holds a title and nothing else decodes to attributes of
/// which the title alone is set: to the text of the payload, where that is
/// valid UTF-8.
pub proof fn lemma_title_alone(notification_id: u32, title: Seq<u8>)
    requires
        title.len() <= 0xFFFF,
    ensures
        NotificationAttributes::parse(
            seq![CommandID::GetNotificationAttributes.wire_id()] + u32_to_le(notification_id)
                + entry_bytes(
                AttributeEntry { id: NotificationAttributeID::Title.wire_id(), payload: title },
            ),
        ) == Ok::<NotificationAttributesView, AncsError>(
            NotificationAttributesView {
                title: text_of(title),
                ..NotificationAttributesView::unset(notification_id)
            },
        ),
{
    let entry = AttributeEntry { id: NotificationAttributeID::Title.wire_id(), payload: title };
    let head = seq![CommandID::GetNotificationAttributes.wire_id()] + u32_to_le(notification_id);
    let bytes = head + entry_bytes(entry);
    let entries = seq![entry];
    lemma_single_entry(entry, 0);
    lemma_single_entry(entry, 1);
    lemma_single_entry(entry, 2);
    lemma_single_entry(entry, 3);
    lemma_single_entry(entry, 4);
    lemma_single_entry(entry, 5);
    lemma_single_entry(entry, 6);
    lemma_single_entry(entry, 7);
    assert(entries_from(bytes, 5) == Some(entries)) by {
        assert(head.len() == 5);
        lemma_entries_round_trip(head, entries);
    }
    assert(u32_from_le(bytes.subrange(1, 5)) == notification_id) by {
        crate::wire::lemma_u32_le_round_trip(notification_id);
        assert(bytes.subrange(1, 5) =~= u32_to_le(notification_id));
    }
    assert(bytes.len() >= 5 && bytes[0] == CommandID::GetNotificationAttributes.wire_id());
}

/// A decoded answer of the Data Source.
#[derive(Debug)]
pub enum DataSourceMessage {
    /// Attributes of a notification.
    Notification(NotificationAttributes),
    /// Attributes of an app.
    App(AppAttributes),
}

/// What a decoded answer holds, with its strings as characters.
pub enum DataSourceMessageView {
    Notification(NotificationAttributesView),
    App(AppAttributesView),
}

impl View for DataSourceMessage {
    type V = DataSourceMessageView;

    open spec fn view(&self) -> DataSourceMessageView {
        match self {
            DataSourceMessage::Notification(attributes) => DataSourceMessageView::Notification(
                attributes@,
            ),
            DataSourceMessage::App(attributes) => DataSourceMessageView::App(attributes@),
        }
    }
}

impl DataSourceMessage {
    /// What an answer decodes to, by its leading command identifier: the
    /// attributes of a notification, those of an app, or `Unrecognized` for
    /// any other command. An empty buffer is malformed.
    pub open spec fn parse(bytes: Seq<u8>) -> Result<DataSourceMessageView, AncsError> {
        if bytes.len() == 0 {
            Err(AncsError::Malformed)
        } else if bytes[0] == CommandID::GetNotificationAttributes.wire_id() {
            match NotificationAttributes::parse(bytes) {
                Ok(attributes) => Ok(DataSourceMessageView::Notification(attributes)),
                Err(error) => Err(error),
            }
        } else if bytes[0] == CommandID::GetAppAttributes.wire_id() {
            match AppAttributes::parse(bytes) {
                Ok(attributes) => Ok(DataSourceMessageView::App(attributes)),
                Err(error) => Err(error),
            }
        } else {
            Err(AncsError::Unrecognized)
        }
    }

    /// Decodes an answer of the Data Source.
    pub fn from_buffer(buffer: Vec<u8>) -> (result: Result<Self, AncsError>)
        ensures
            match Self::parse(buffer@) {
                Ok(message) => result matches Ok(decoded) && decoded@ == message,
                Err(error) => result matches Err(e) && e == error,
            },
    {
        if buffer.len() == 0 {
            return Err(AncsError::Malformed);
        }
        let command = buffer[0];
        if command == CommandID::GetNotificationAttributes.to_u8() {
            match NotificationAttributes::from_buffer(buffer) {
                Ok(attributes) => Ok(DataSourceMessage::Notification(attributes)),
                Err(error) => Err(error),
            }
        } else if command == CommandID::GetAppAttributes.to_u8() {
            match AppAttributes::from_buffer(buffer) {
                Ok(attributes) => Ok(DataSourceMessage::App(attributes)),
                Err(error) => Err(error),
            }
        } else {
            Err(AncsError::Unrecognized)
        }
    }
}

/// Decides what the listener of the Data Source does with what the transport
/// handed it: an answer is decoded and forwarded, or skipped where it does not
/// decode or is of no known command; the end of the stream stops the listener.
pub fn listener(frame: Option<Vec<u8>>) -> (step: ListenerStep<DataSourceMessage>)
    ensures
        match frame {
            None => step matches ListenerStep::Stop(error) && error == AncsError::TransportClosed,
            Some(buffer) => match DataSourceMessage::parse(buffer@) {
                Ok(message) => step matches ListenerStep::Forward(decoded) && decoded@ == message,
                Err(error) => step matches ListenerStep::Skip(e) && e == error,
            },
        },
{
    match frame {
        None => ListenerStep::Stop(AncsError::TransportClosed),
        Some(buffer) => match DataSourceMessage::from_buffer(buffer) {
            Ok(message) => ListenerStep::Forward(message),
            Err(error) => ListenerStep::Skip(error),
        },
    }
}

} // verus!
