//! The Notification Source characteristic: one fixed frame per event.

use crate::ancs::control_point::{CategoryID, EventID};
use crate::ancs::error::AncsError;
use crate::ancs::ListenerStep;
use crate::text::{decimal, push_number};
use crate::wire::{read_u32_le, u32_from_le, u32_to_le};
use vstd::prelude::*;

verus! {

/// The 128-bit UUID of the Notification Source characteristic.
pub const NOTIFICATION_SOURCE_UUID: u128 = 0x9FBF120D630142D98C5825E699A21DBDu128;

/// The number of bytes in an event frame.
pub const EVENT_FRAME_LENGTH: usize = 8;

/// An event of the Notification Source. The identifiers are kept as they came
/// off the wire, so that values this engine does not know pass through.
#[derive(Clone, Copy, Debug, PartialEq, Eq, Structural)]
pub struct NotificationEvent {
    pub event_id: u8,
    pub event_flags: u8,
    pub category_id: u8,
    pub category_count: u8,
    pub notification_id: u32,
}

impl NotificationEvent {
    /// What a frame decodes to: an error where it is shorter than eight bytes,
    /// else the event whose fields are the first four bytes and the
    /// little-endian value of the next four. Bytes past the eighth are ignored.
    pub open spec fn parse(bytes: Seq<u8>) -> Result<NotificationEvent, AncsError> {
        if bytes.len() < 8 {
            Err(AncsError::Malformed)
        } else {
            Ok(
                NotificationEvent {
                    event_id: bytes[0],
                    event_flags: bytes[1],
                    category_id: bytes[2],
                    category_count: bytes[3],
                    notification_id: u32_from_le(bytes.subrange(4, 8)),
                },
            )
        }
    }

    /// The eight bytes that carry this event.
    pub open spec fn frame(self) -> Seq<u8> {
        seq![self.event_id, self.event_flags, self.category_id, self.category_count] + u32_to_le(
            self.notification_id,
        )
    }

    /// What happened, where the event identifier is a known one.
    pub open spec fn spec_kind(self) -> Option<EventID> {
        EventID::from_wire_id(self.event_id)
    }

    /// The event in words, for a log.
    pub open spec fn description(self) -> Seq<char> {
        "event id: "@ + decimal(self.event_id as nat) + " event flags: "@ + decimal(
            self.event_flags as nat,
        ) + " category id: "@ + decimal(self.category_id as nat) + " category count: "@ + decimal(
            self.category_count as nat,
        ) + " notification id: "@ + decimal(self.notification_id as nat)
    }

    /// Decodes an event frame.
    pub fn from_buffer(buffer: Vec<u8>) -> (result: Result<Self, AncsError>)
        ensures
            result == Self::parse(buffer@),
    {
        if buffer.len() < EVENT_FRAME_LENGTH {
            return Err(AncsError::Malformed);
        }
        Ok(
            Self {
                event_id: buffer[0],
                event_flags: buffer[1],
                category_id: buffer[2],
                category_count: buffer[3],
                notification_id: read_u32_le(&buffer, 4),
            },
        )
    }

    /// Writes the event in words, for a log.
    pub fn describe(&self) -> (text: String)
        ensures
            text@ == self.description(),
    {
        let mut text = String::new();
        push_number(&mut text, "event id: ", self.event_id as u32);
        push_number(&mut text, " event flags: ", self.event_flags as u32);
        push_number(&mut text, " category id: ", self.category_id as u32);
        push_number(&mut text, " category count: ", self.category_count as u32);
        push_number(&mut text, " notification id: ", self.notification_id);
        assert(text@ =~= self.description());
        text
    }

    /// Returns what happened, or `None` for an event identifier that this
    /// engine does not know.
    pub fn kind(&self) -> (kind: Option<EventID>)
        ensures
            kind == self.spec_kind(),
    {
        EventID::from_u8(self.event_id)
    }

    /// Returns the category of the notification, or `None` for a category
    /// identifier that this engine does not know.
    pub fn category(&self) -> (category: Option<CategoryID>)
        ensures
            category == CategoryID::from_wire_id(self.category_id),
    {
        CategoryID::from_u8(self.category_id)
    }
}

/// Decoding reconstructs exactly what was encoded: the frame of an event
/// decodes to that event, and an eight-byte frame is the frame of the event it
/// decodes to.
pub proof fn lemma_event_round_trip(event: NotificationEvent, bytes: Seq<u8>)
    ensures
        event.frame().len() == 8,
        NotificationEvent::parse(event.frame()) == Ok::<NotificationEvent, AncsError>(event),
        bytes.len() == 8 ==> NotificationEvent::parse(bytes) is Ok && NotificationEvent::parse(
            bytes,
        )->Ok_0.frame() == bytes,
        bytes.len() >= 8 ==> NotificationEvent::parse(bytes) is Ok && u32_to_le(
            NotificationEvent::parse(bytes)->Ok_0.notification_id,
        ) == bytes.subrange(4, 8),
{
    crate::wire::lemma_u32_le_round_trip(event.notification_id);
    assert(event.frame().subrange(4, 8) =~= u32_to_le(event.notification_id));
    if bytes.len() >= 8 {
        crate::wire::lemma_u32_le_bytes_round_trip(bytes.subrange(4, 8));
        if bytes.len() == 8 {
            assert(NotificationEvent::parse(bytes)->Ok_0.frame() =~= bytes);
        }
    }
}

/// Decides what the listener of the Notification Source does with what the
/// transport handed it: a frame is decoded and forwarded, or skipped where it
/// does not decode; the end of the stream stops the listener.
pub fn listener(frame: Option<Vec<u8>>) -> (step: ListenerStep<NotificationEvent>)
    ensures
        step == (match frame {
            None => ListenerStep::Stop(AncsError::TransportClosed),
            Some(buffer) => match NotificationEvent::parse(buffer@) {
                Ok(event) => ListenerStep::Forward(event),
                Err(error) => ListenerStep::Skip(error),
            },
        }),
{
    match frame {
        None => ListenerStep::Stop(AncsError::TransportClosed),
        Some(buffer) => match NotificationEvent::from_buffer(buffer) {
            Ok(event) => ListenerStep::Forward(event),
            Err(error) => ListenerStep::Skip(error),
        },
    }
}

} // verus!
