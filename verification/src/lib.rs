//! A relay engine for the Apple Notification Center Service (ANCS).
//!
//! The crate decodes the frames that an ANCS provider streams over its GATT
//! characteristics, encodes the commands that ask for further detail, and keeps
//! the bookkeeping that ties the three streams together by notification
//! identifier. The functions carry contracts that Verus proves; the one call
//! that is taken on trust, into the standard library's UTF-8 validation, is
//! marked where it stands.

pub mod ancs;
pub mod connection;
pub mod correlator;
pub mod display_names;
pub mod registry;
pub mod text;
pub mod utils;
pub mod wire;
