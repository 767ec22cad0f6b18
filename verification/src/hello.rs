//! The hello-world exchange used to try out a transport.

use vstd::prelude::*;

verus! {

/// The message the hello-world publisher sends and its subscribers read.
#[derive(Debug, Clone, PartialEq, Eq)]
pub struct HelloMessage {
    pub message: String,
    pub timestamp: u64,
    pub counter: u32,
}

/// What a listener finds where a message's payload should be.
#[derive(Debug, Clone, Copy, PartialEq, Eq)]
pub enum PayloadState {
    /// The message carries no payload.
    Missing,
    /// The message carries a payload of no bytes.
    Empty,
    /// The message carries bytes to decode.
    Present,
}

/// What a payload of the given bytes counts as.
pub open spec fn payload_state_of(payload: Option<Seq<u8>>) -> PayloadState {
    match payload {
        None => PayloadState::Missing,
        Some(bytes) => if bytes.len() == 0 {
            PayloadState::Empty
        } else {
            PayloadState::Present
        },
    }
}

/// Tells whether a received message has anything to decode. A listener
/// passes over a message whose payload is missing or empty.
pub fn payload_state(payload: Option<&[u8]>) -> (state: PayloadState)
    ensures
        state == payload_state_of(
            match payload {
                Some(bytes) => Some(bytes@),
                None => None,
            },
        ),
{
    match payload {
        None => PayloadState::Missing,
        Some(bytes) => {
            if bytes.len() == 0 {
                PayloadState::Empty
            } else {
                PayloadState::Present
            }
        },
    }
}

} // verus!
