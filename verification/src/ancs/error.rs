//! The ways in which handling a frame, a command or a stream can fail.

use vstd::prelude::*;

verus! {

/// What went wrong while decoding, encoding or relaying.
#[derive(Clone, Copy, Debug, PartialEq, Eq, Structural)]
pub enum AncsError {
    /// A buffer is shorter than its layout requires, or a length field
    /// overruns the bytes that remain.
    Malformed,
    /// The leading command identifier is not one this engine decodes.
    Unrecognized,
    /// The caller handed an encoder bytes that are not a valid identifier.
    EncodingInvalid,
    /// The stream of frames from the transport ended.
    TransportClosed,
    /// The consumer of decoded values is gone.
    ChannelClosed,
}

impl AncsError {
    /// Whether the relay has to shut down after this error. Losing the
    /// transport or the consumer is fatal; a bad frame is dropped and the
    /// stream keeps flowing.
    pub open spec fn fatal(self) -> bool {
        self is TransportClosed || self is ChannelClosed
    }

    /// Decides whether the relay has to shut down after this error.
    pub fn is_fatal(&self) -> (fatal: bool)
        ensures
            fatal == self.fatal(),
    {
        match self {
            AncsError::TransportClosed => true,
            AncsError::ChannelClosed => true,
            _ => false,
        }
    }
}

} // verus!
