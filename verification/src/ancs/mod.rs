//! The ANCS protocol: identifiers, frame layouts and the per-notification record.

use vstd::prelude::*;

pub mod control_point;
pub mod data_source;
pub mod error;
pub mod notification;
pub mod notification_source;

verus! {

/// The 128-bit UUID of the ANCS primary service.
pub const ANCS_SERVICE_UUID: u128 = 0x7905F431B5CE4E99A40F4B1E122D00D0u128;

/// What a listener does after the transport handed it a frame or ended.
#[derive(Debug)]
pub enum ListenerStep<T> {
    /// Hand the decoded value to the consumer.
    Forward(T),
    /// Drop the frame, for the reason given, and wait for the next.
    Skip(error::AncsError),
    /// Stop listening, for the reason given.
    Stop(error::AncsError),
}

/// What a listener does after it tried to hand a value to the consumer: it
/// goes on where the value was taken, and stops with `ChannelClosed` where the
/// consumer is gone.
pub fn after_send(delivered: bool) -> (stop: Option<error::AncsError>)
    ensures
        stop == (if delivered {
            None
        } else {
            Some(error::AncsError::ChannelClosed)
        }),
{
    if delivered {
        None
    } else {
        Some(error::AncsError::ChannelClosed)
    }
}

} // verus!
