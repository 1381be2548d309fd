//! The Control Point characteristic: identifiers and the commands written to it.

use crate::ancs::error::AncsError;
use crate::text::{decode_text, text_of};
use crate::wire::{push_u16_le, push_u32_le, u16_to_le, u32_to_le};
use vstd::prelude::*;
use vstd::string::*;
use vstd::utf8::*;

verus! {

/// The 128-bit UUID of the Control Point characteristic.
pub const CONTROL_POINT_UUID: u128 = 0x69D1D8F345E149A898219BBDFDAAD9D9u128;

/// The maximum length asked for a free-text attribute: no bound.
pub const MAX_ATTRIBUTE_LENGTH: u16 = 0xFFFFu16;

/// The category a notification belongs to.
#[derive(Clone, Copy, Debug, PartialEq, Eq, Structural)]
pub enum CategoryID {
    Other,
    IncomingCall,
    MissedCall,
    Voicemail,
    Social,
    Schedule,
    Email,
    News,
    HealthAndFitness,
    BusinessAndFinance,
    Location,
    Entertainment,
}

/// What happened to a notification.
#[derive(Clone, Copy, Debug, PartialEq, Eq, Structural)]
pub enum EventID {
    NotificationAdded,
    NotificationModified,
    NotificationRemoved,
}

/// The commands of the Control Point, which also lead each Data Source answer.
#[derive(Clone, Copy, Debug, PartialEq, Eq, Structural)]
pub enum CommandID {
    GetNotificationAttributes,
    GetAppAttributes,
    PerformNotificationAction,
}

/// The attributes of a notification.
#[derive(Clone, Copy, Debug, PartialEq, Eq, Structural)]
pub enum NotificationAttributeID {
    AppIdentifier,
    Title,
    Subtitle,
    Message,
    MessageSize,
    Date,
    PositiveActionLabel,
    NegativeActionLabel,
}

/// The actions that can be performed on a notification.
#[derive(Clone, Copy, Debug, PartialEq, Eq, Structural)]
pub enum ActionID {
    Positive,
    Negative,
}

/// The attributes of an app.
#[derive(Clone, Copy, Debug, PartialEq, Eq, Structural)]
pub enum AppAttributeID {
    Displayname,
}

impl CategoryID {
    /// The byte that stands for this category on the wire.
    pub open spec fn wire_id(self) -> u8 {
        match self {
            CategoryID::Other => 0,
            CategoryID::IncomingCall => 1,
            CategoryID::MissedCall => 2,
            CategoryID::Voicemail => 3,
            CategoryID::Social => 4,
            CategoryID::Schedule => 5,
            CategoryID::Email => 6,
            CategoryID::News => 7,
            CategoryID::HealthAndFitness => 8,
            CategoryID::BusinessAndFinance => 9,
            CategoryID::Location => 10,
            CategoryID::Entertainment => 11,
        }
    }

    /// The category that `byte` stands for, if it is a known one.
    pub open spec fn from_wire_id(byte: u8) -> Option<CategoryID> {
        match byte {
            0 => Some(CategoryID::Other),
            1 => Some(CategoryID::IncomingCall),
            2 => Some(CategoryID::MissedCall),
            3 => Some(CategoryID::Voicemail),
            4 => Some(CategoryID::Social),
            5 => Some(CategoryID::Schedule),
            6 => Some(CategoryID::Email),
            7 => Some(CategoryID::News),
            8 => Some(CategoryID::HealthAndFitness),
            9 => Some(CategoryID::BusinessAndFinance),
            10 => Some(CategoryID::Location),
            11 => Some(CategoryID::Entertainment),
            _ => None,
        }
    }

    /// Returns the byte that stands for this category on the wire.
    pub fn to_u8(&self) -> (byte: u8)
        ensures
            byte == self.wire_id(),
    {
        match self {
            CategoryID::Other => 0,
            CategoryID::IncomingCall => 1,
            CategoryID::MissedCall => 2,
            CategoryID::Voicemail => 3,
            CategoryID::Social => 4,
            CategoryID::Schedule => 5,
            CategoryID::Email => 6,
            CategoryID::News => 7,
            CategoryID::HealthAndFitness => 8,
            CategoryID::BusinessAndFinance => 9,
            CategoryID::Location => 10,
            CategoryID::Entertainment => 11,
        }
    }

    /// Returns the category that `byte` stands for, or `None` for a byte that
    /// names no known category.
    pub fn from_u8(byte: u8) -> (category: Option<CategoryID>)
        ensures
            category == CategoryID::from_wire_id(byte),
    {
        match byte {
            0 => Some(CategoryID::Other),
            1 => Some(CategoryID::IncomingCall),
            2 => Some(CategoryID::MissedCall),
            3 => Some(CategoryID::Voicemail),
            4 => Some(CategoryID::Social),
            5 => Some(CategoryID::Schedule),
            6 => Some(CategoryID::Email),
            7 => Some(CategoryID::News),
            8 => Some(CategoryID::HealthAndFitness),
            9 => Some(CategoryID::BusinessAndFinance),
            10 => Some(CategoryID::Location),
            11 => Some(CategoryID::Entertainment),
            _ => None,
        }
    }

    /// A category survives the trip to its byte and back, and a byte that
    /// names a category is the byte of that category.
    pub proof fn lemma_wire_id_round_trip(category: CategoryID, byte: u8)
        ensures
            CategoryID::from_wire_id(category.wire_id()) == Some(category),
            CategoryID::from_wire_id(byte) matches Some(c) ==> c.wire_id() == byte,
            CategoryID::from_wire_id(byte) is Some <==> byte <= 11,
    {
    }
}

impl EventID {
    /// The byte that stands for this event on the wire.
    pub open spec fn wire_id(self) -> u8 {
        match self {
            EventID::NotificationAdded => 0,
            EventID::NotificationModified => 1,
            EventID::NotificationRemoved => 2,
        }
    }

    /// The event that `byte` stands for, if it is a known one.
    pub open spec fn from_wire_id(byte: u8) -> Option<EventID> {
        match byte {
            0 => Some(EventID::NotificationAdded),
            1 => Some(EventID::NotificationModified),
            2 => Some(EventID::NotificationRemoved),
            _ => None,
        }
    }

    /// Returns the byte that stands for this event on the wire.
    pub fn to_u8(&self) -> (byte: u8)
        ensures
            byte == self.wire_id(),
    {
        match self {
            EventID::NotificationAdded => 0,
            EventID::NotificationModified => 1,
            EventID::NotificationRemoved => 2,
        }
    }

    /// Returns the event that `byte` stands for, or `None` for a byte that
    /// names no known event.
    pub fn from_u8(byte: u8) -> (event: Option<EventID>)
        ensures
            event == EventID::from_wire_id(byte),
    {
        match byte {
            0 => Some(EventID::NotificationAdded),
            1 => Some(EventID::NotificationModified),
            2 => Some(EventID::NotificationRemoved),
            _ => None,
        }
    }

    /// An event survives the trip to its byte and back, and a byte that names
    /// an event is the byte of that event.
    pub proof fn lemma_wire_id_round_trip(event: EventID, byte: u8)
        ensures
            EventID::from_wire_id(event.wire_id()) == Some(event),
            EventID::from_wire_id(byte) matches Some(e) ==> e.wire_id() == byte,
            EventID::from_wire_id(byte) is Some <==> byte <= 2,
    {
    }
}

impl CommandID {
    /// The byte that stands for this command on the wire.
    pub open spec fn wire_id(self) -> u8 {
        match self {
            CommandID::GetNotificationAttributes => 0,
            CommandID::GetAppAttributes => 1,
            CommandID::PerformNotificationAction => 2,
        }
    }

    /// The command that `byte` stands for, if it is a known one.
    pub open spec fn from_wire_id(byte: u8) -> Option<CommandID> {
        match byte {
            0 => Some(CommandID::GetNotificationAttributes),
            1 => Some(CommandID::GetAppAttributes),
            2 => Some(CommandID::PerformNotificationAction),
            _ => None,
        }
    }

    /// Returns the byte that stands for this command on the wire.
    pub fn to_u8(&self) -> (byte: u8)
        ensures
            byte == self.wire_id(),
    {
        match self {
            CommandID::GetNotificationAttributes => 0,
            CommandID::GetAppAttributes => 1,
            CommandID::PerformNotificationAction => 2,
        }
    }

    /// Returns the command that `byte` stands for, or `None` for a byte that
    /// names no known command.
    pub fn from_u8(byte: u8) -> (command: Option<CommandID>)
        ensures
            command == CommandID::from_wire_id(byte),
    {
        match byte {
            0 => Some(CommandID::GetNotificationAttributes),
            1 => Some(CommandID::GetAppAttributes),
            2 => Some(CommandID::PerformNotificationAction),
            _ => None,
        }
    }

    /// A command survives the trip to its byte and back, and a byte that
    /// names a command is the byte of that command.
    pub proof fn lemma_wire_id_round_trip(command: CommandID, byte: u8)
        ensures
            CommandID::from_wire_id(command.wire_id()) == Some(command),
            CommandID::from_wire_id(byte) matches Some(c) ==> c.wire_id() == byte,
            CommandID::from_wire_id(byte) is Some <==> byte <= 2,
    {
    }
}

impl NotificationAttributeID {
    /// The byte that stands for this attribute on the wire.
    pub open spec fn wire_id(self) -> u8 {
        match self {
            NotificationAttributeID::AppIdentifier => 0,
            NotificationAttributeID::Title => 1,
            NotificationAttributeID::Subtitle => 2,
            NotificationAttributeID::Message => 3,
            NotificationAttributeID::MessageSize => 4,
            NotificationAttributeID::Date => 5,
            NotificationAttributeID::PositiveActionLabel => 6,
            NotificationAttributeID::NegativeActionLabel => 7,
        }
    }

    /// The attribute that `byte` stands for, if it is a known one.
    pub open spec fn from_wire_id(byte: u8) -> Option<NotificationAttributeID> {
        match byte {
            0 => Some(NotificationAttributeID::AppIdentifier),
            1 => Some(NotificationAttributeID::Title),
            2 => Some(NotificationAttributeID::Subtitle),
            3 => Some(NotificationAttributeID::Message),
            4 => Some(NotificationAttributeID::MessageSize),
            5 => Some(NotificationAttributeID::Date),
            6 => Some(NotificationAttributeID::PositiveActionLabel),
            7 => Some(NotificationAttributeID::NegativeActionLabel),
            _ => None,
        }
    }

    /// Whether a request for this attribute carries a maximum length: the
    /// three free-text attributes do, the others do not.
    pub open spec fn has_max_length(self) -> bool {
        self is Title || self is Subtitle || self is Message
    }

    /// Returns the byte that stands for this attribute on the wire.
    pub fn to_u8(&self) -> (byte: u8)
        ensures
            byte == self.wire_id(),
    {
        match self {
            NotificationAttributeID::AppIdentifier => 0,
            NotificationAttributeID::Title => 1,
            NotificationAttributeID::Subtitle => 2,
            NotificationAttributeID::Message => 3,
            NotificationAttributeID::MessageSize => 4,
            NotificationAttributeID::Date => 5,
            NotificationAttributeID::PositiveActionLabel => 6,
            NotificationAttributeID::NegativeActionLabel => 7,
        }
    }

    /// Returns the attribute that `byte` stands for, or `None` for a byte that
    /// names no known attribute.
    pub fn from_u8(byte: u8) -> (attribute: Option<NotificationAttributeID>)
        ensures
            attribute == NotificationAttributeID::from_wire_id(byte),
    {
        match byte {
            0 => Some(NotificationAttributeID::AppIdentifier),
            1 => Some(NotificationAttributeID::Title),
            2 => Some(NotificationAttributeID::Subtitle),
            3 => Some(NotificationAttributeID::Message),
            4 => Some(NotificationAttributeID::MessageSize),
            5 => Some(NotificationAttributeID::Date),
            6 => Some(NotificationAttributeID::PositiveActionLabel),
            7 => Some(NotificationAttributeID::NegativeActionLabel),
            _ => None,
        }
    }

    /// Decides whether a request for this attribute carries a maximum length.
    pub fn needs_max_length(&self) -> (needed: bool)
        ensures
            needed == self.has_max_length(),
    {
        match self {
            NotificationAttributeID::Title => true,
            NotificationAttributeID::Subtitle => true,
            NotificationAttributeID::Message => true,
            _ => false,
        }
    }

    /// An attribute survives the trip to its byte and back, and a byte that
    /// names an attribute is the byte of that attribute.
    pub proof fn lemma_wire_id_round_trip(attribute: NotificationAttributeID, byte: u8)
        ensures
            NotificationAttributeID::from_wire_id(attribute.wire_id()) == Some(attribute),
            NotificationAttributeID::from_wire_id(byte) matches Some(a) ==> a.wire_id() == byte,
            NotificationAttributeID::from_wire_id(byte) is Some <==> byte <= 7,
    {
    }
}

impl ActionID {
    /// The byte that stands for this action on the wire.
    pub open spec fn wire_id(self) -> u8 {
        match self {
            ActionID::Positive => 0,
            ActionID::Negative => 1,
        }
    }

    /// The action that `byte` stands for, if it is a known one.
    pub open spec fn from_wire_id(byte: u8) -> Option<ActionID> {
        match byte {
            0 => Some(ActionID::Positive),
            1 => Some(ActionID::Negative),
            _ => None,
        }
    }

    /// Returns the byte that stands for this action on the wire.
    pub fn to_u8(&self) -> (byte: u8)
        ensures
            byte == self.wire_id(),
    {
        match self {
            ActionID::Positive => 0,
            ActionID::Negative => 1,
        }
    }

    /// Returns the action that `byte` stands for, or `None` for a byte that
    /// names no known action.
    pub fn from_u8(byte: u8) -> (action: Option<ActionID>)
        ensures
            action == ActionID::from_wire_id(byte),
    {
        match byte {
            0 => Some(ActionID::Positive),
            1 => Some(ActionID::Negative),
            _ => None,
        }
    }

    /// An action survives the trip to its byte and back, and a byte that
    /// names an action is the byte of that action.
    pub proof fn lemma_wire_id_round_trip(action: ActionID, byte: u8)
        ensures
            ActionID::from_wire_id(action.wire_id()) == Some(action),
            ActionID::from_wire_id(byte) matches Some(a) ==> a.wire_id() == byte,
            ActionID::from_wire_id(byte) is Some <==> byte <= 1,
    {
    }
}

impl AppAttributeID {
    /// The byte that stands for this attribute on the wire.
    pub open spec fn wire_id(self) -> u8 {
        match self {
            AppAttributeID::Displayname => 0,
        }
    }

    /// The attribute that `byte` stands for, if it is a known one.
    pub open spec fn from_wire_id(byte: u8) -> Option<AppAttributeID> {
        match byte {
            0 => Some(AppAttributeID::Displayname),
            _ => None,
        }
    }

    /// Returns the byte that stands for this attribute on the wire.
    pub fn to_u8(&self) -> (byte: u8)
        ensures
            byte == self.wire_id(),
    {
        match self {
            AppAttributeID::Displayname => 0,
        }
    }

    /// Returns the attribute that `byte` stands for, or `None` for a byte that
    /// names no known attribute.
    pub fn from_u8(byte: u8) -> (attribute: Option<AppAttributeID>)
        ensures
            attribute == AppAttributeID::from_wire_id(byte),
    {
        match byte {
            0 => Some(AppAttributeID::Displayname),
            _ => None,
        }
    }

    /// An attribute survives the trip to its byte and back, and a byte that
    /// names an attribute is the byte of that attribute.
    pub proof fn lemma_wire_id_round_trip(attribute: AppAttributeID, byte: u8)
        ensures
            AppAttributeID::from_wire_id(attribute.wire_id()) == Some(attribute),
            AppAttributeID::from_wire_id(byte) matches Some(a) ==> a.wire_id() == byte,
            AppAttributeID::from_wire_id(byte) is Some <==> byte == 0,
    {
    }
}

/// The bytes that ask for one notification attribute: its identifier, and for
/// a free-text attribute the maximum length, little-endian.
pub open spec fn request_entry(attribute: NotificationAttributeID) -> Seq<u8> {
    if attribute.has_max_length() {
        seq![attribute.wire_id()] + u16_to_le(MAX_ATTRIBUTE_LENGTH)
    } else {
        seq![attribute.wire_id()]
    }
}

/// The bytes that ask for `attributes`, one entry after the other in the
/// order given.
pub open spec fn request_entries(attributes: Seq<NotificationAttributeID>) -> Seq<u8>
    decreases attributes.len(),
{
    if attributes.len() == 0 {
        Seq::empty()
    } else {
        request_entries(attributes.drop_last()) + request_entry(attributes.last())
    }
}

/// The bytes that ask for app `attributes`: one identifier each, in the order
/// given.
pub open spec fn app_request_entries(attributes: Seq<AppAttributeID>) -> Seq<u8> {
    Seq::new(attributes.len(), |i: int| attributes[i].wire_id())
}

/// A request for attributes of one notification.
#[derive(Clone, Debug)]
pub struct NotificationAttributeCmd {
    pub notification_id: u32,
    pub attributes: Vec<NotificationAttributeID>,
}

impl NotificationAttributeCmd {
    /// The request's operands on the wire: the notification identifier,
    /// little-endian, then the entries of the attributes asked for.
    pub open spec fn buffer(&self) -> Seq<u8> {
        u32_to_le(self.notification_id) + request_entries(self.attributes@)
    }

    /// The whole Control Point write: the command identifier, then the
    /// operands.
    pub open spec fn packet(&self) -> Seq<u8> {
        seq![CommandID::GetNotificationAttributes.wire_id()] + self.buffer()
    }

    /// Makes a request for `attributes` of the notification `notification_id`.
    pub fn new(notification_id: u32, attributes: Vec<NotificationAttributeID>) -> (cmd: Self)
        ensures
            cmd.notification_id == notification_id,
            cmd.attributes == attributes,
    {
        Self { notification_id, attributes }
    }

    /// Encodes the operands of the request.
    pub fn to_buffer(&self) -> (buffer: Vec<u8>)
        ensures
            buffer@ == self.buffer(),
    {
        let mut buffer: Vec<u8> = Vec::new();
        push_u32_le(&mut buffer, self.notification_id);
        self.push_entries(&mut buffer);
        buffer
    }

    /// Encodes the whole Control Point write.
    pub fn encode(&self) -> (packet: Vec<u8>)
        ensures
            packet@ == self.packet(),
    {
        let mut packet: Vec<u8> = Vec::new();
        packet.push(CommandID::GetNotificationAttributes.to_u8());
        push_u32_le(&mut packet, self.notification_id);
        self.push_entries(&mut packet);
        assert(packet@ =~= self.packet());
        packet
    }

    fn push_entries(&self, out: &mut Vec<u8>)
        ensures
            final(out)@ == old(out)@ + request_entries(self.attributes@),
    {
        let mut i: usize = 0;
        while i < self.attributes.len()
            invariant
                i <= self.attributes.len(),
                out@ == old(out)@ + request_entries(self.attributes@.take(i as int)),
            decreases self.attributes.len() - i,
        {
            let attribute = self.attributes[i];
            proof {
                let next = self.attributes@.take(i + 1);
                assert(next.drop_last() =~= self.attributes@.take(i as int));
                assert(next.last() == attribute);
            }
            out.push(attribute.to_u8());
            if attribute.needs_max_length() {
                push_u16_le(out, MAX_ATTRIBUTE_LENGTH);
            }
            i += 1;
            assert(out@ =~= old(out)@ + request_entries(self.attributes@.take(i as int)));
        }
        assert(self.attributes@.take(i as int) =~= self.attributes@);
    }
}

/// The identifier always leads the operands: the four bytes after the command
/// identifier are the notification identifier, little-endian.
pub proof fn lemma_request_leads_with_identifier(cmd: NotificationAttributeCmd)
    ensures
        cmd.buffer().len() >= 4,
        cmd.buffer().subrange(0, 4) == u32_to_le(cmd.notification_id),
        cmd.packet().len() >= 5,
        cmd.packet()[0] == CommandID::GetNotificationAttributes.wire_id(),
        cmd.packet().subrange(1, 5) == u32_to_le(cmd.notification_id),
{
    assert(cmd.buffer().subrange(0, 4) =~= u32_to_le(cmd.notification_id));
    assert(cmd.packet().subrange(1, 5) =~= u32_to_le(cmd.notification_id));
}

/// Encoding keeps the caller's order: the entries of a list followed by
/// another are the entries of the first followed by those of the second.
pub proof fn lemma_request_entries_concat(
    first: Seq<NotificationAttributeID>,
    second: Seq<NotificationAttributeID>,
)
    ensures
        request_entries(first + second) == request_entries(first) + request_entries(second),
    decreases second.len(),
{
    if second.len() == 0 {
        assert(first + second =~= first);
        assert(request_entries(first) + request_entries(second) =~= request_entries(first));
    } else {
        lemma_request_entries_concat(first, second.drop_last());
        assert((first + second).drop_last() =~= first + second.drop_last());
        assert((first + second).last() == second.last());
        assert(request_entries(first + second) =~= request_entries(first) + request_entries(
            second,
        ));
    }
}

/// A request for attributes of one app.
#[derive(Clone, Debug)]
pub struct AppAttributeCmd {
    pub app_identifier: String,
    pub attributes: Vec<AppAttributeID>,
}

impl AppAttributeCmd {
    /// The request's operands on the wire: the bytes of the app identifier as
    /// the caller gave it, then one identifier for each attribute asked for.
    pub open spec fn buffer(&self) -> Seq<u8> {
        encode_utf8(self.app_identifier@) + app_request_entries(self.attributes@)
    }

    /// The whole Control Point write: the command identifier, then the
    /// operands.
    pub open spec fn packet(&self) -> Seq<u8> {
        seq![CommandID::GetAppAttributes.wire_id()] + self.buffer()
    }

    /// Makes a request for `attributes` of the app `app_identifier`. The wire
    /// format ends the identifier with a NUL, which the caller includes.
    pub fn new(app_identifier: String, attributes: Vec<AppAttributeID>) -> (cmd: Self)
        ensures
            cmd.app_identifier == app_identifier,
            cmd.attributes == attributes,
    {
        Self { app_identifier, attributes }
    }

    /// Makes a request from an app identifier given as bytes, as they came
    /// off the wire, NUL included. Bytes that are not valid UTF-8 are refused
    /// with `EncodingInvalid`; any others are taken as they are, and are the
    /// bytes that the request carries.
    pub fn from_bytes(app_identifier: &Vec<u8>, attributes: Vec<AppAttributeID>) -> (result:
        Result<Self, AncsError>)
        ensures
            match text_of(app_identifier@) {
                Some(text) => result matches Ok(cmd) && cmd.app_identifier@ == text
                    && cmd.attributes == attributes && encode_utf8(cmd.app_identifier@)
                    == app_identifier@,
                None => result matches Err(error) && error == AncsError::EncodingInvalid,
            },
    {
        match decode_text(app_identifier, 0, app_identifier.len()) {
            Some(text) => {
                proof {
                    assert(app_identifier@.subrange(0, app_identifier@.len() as int)
                        =~= app_identifier@);
                    decode_utf8_encode_utf8(app_identifier@);
                }
                Ok(Self { app_identifier: text, attributes })
            },
            None => {
                assert(app_identifier@.subrange(0, app_identifier@.len() as int)
                    =~= app_identifier@);
                Err(AncsError::EncodingInvalid)
            },
        }
    }

    /// Encodes the operands of the request.
    pub fn to_buffer(&self) -> (buffer: Vec<u8>)
        ensures
            buffer@ == self.buffer(),
    {
        let mut buffer: Vec<u8> = self.app_identifier.as_str().as_bytes_vec();
        self.push_entries(&mut buffer);
        buffer
    }

    /// Encodes the whole Control Point write.
    pub fn encode(&self) -> (packet: Vec<u8>)
        ensures
            packet@ == self.packet(),
    {
        let mut packet: Vec<u8> = Vec::new();
        packet.push(CommandID::GetAppAttributes.to_u8());
        let identifier = self.app_identifier.as_str().as_bytes();
        let mut i: usize = 0;
        while i < identifier.len()
            invariant
                i <= identifier.len(),
                identifier@ == encode_utf8(self.app_identifier@),
                packet@ == seq![CommandID::GetAppAttributes.wire_id()] + identifier@.take(
                    i as int,
                ),
            decreases identifier.len() - i,
        {
            packet.push(identifier[i]);
            i += 1;
            assert(packet@ =~= seq![CommandID::GetAppAttributes.wire_id()] + identifier@.take(
                i as int,
            ));
        }
        assert(identifier@.take(i as int) =~= identifier@);
        self.push_entries(&mut packet);
        assert(packet@ =~= self.packet());
        packet
    }

    fn push_entries(&self, out: &mut Vec<u8>)
        ensures
            final(out)@ == old(out)@ + app_request_entries(self.attributes@),
    {
        let mut i: usize = 0;
        while i < self.attributes.len()
            invariant
                i <= self.attributes.len(),
                out@ == old(out)@ + app_request_entries(self.attributes@.take(i as int)),
            decreases self.attributes.len() - i,
        {
            out.push(self.attributes[i].to_u8());
            i += 1;
            assert(out@ =~= old(out)@ + app_request_entries(self.attributes@.take(i as int)));
        }
        assert(self.attributes@.take(i as int) =~= self.attributes@);
    }
}

} // verus!
