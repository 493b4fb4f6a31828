//! An ISO 7816-4 APDU dispatch engine for a security-token firmware.
//!
//! The dispatcher drains framed command messages from a contact and a
//! contactless transport channel, assembles multi-command chains into one
//! logical request, routes the request to the application selected by AID,
//! and returns the application's response on the originating channel,
//! fragmenting oversized responses into a GET RESPONSE pull sequence.

use vstd::prelude::*;

pub mod channel;
pub mod dispatch;
pub mod command;
pub mod cose;
pub mod ctap1;
pub mod status;

verus! {

/// Largest message carried over a transport in one frame, in bytes.
pub const TRANSPORT_MAX: usize = 3072;

/// Upper bound on an assembled command's data, in bytes: the longest
/// extended-length APDU body the dispatcher accepts across a chain.
pub const COMMAND_MAX: usize = 7609;

} // verus!

