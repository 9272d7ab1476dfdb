//! The two steps of a typed send, the same on a queuing and on a sampling
//! port: first the encoder answers, then the port.

use crate::error::SendError;
use vstd::prelude::*;

verus! {

/// What is owed to the port once the encoder has answered: its message, or
/// its error as the reason why nothing is transmitted.
pub open spec fn send_message_of<M>(encoded: Result<M, postcard::Error>) -> Result<M, SendError> {
    match encoded {
        Ok(msg) => Ok(msg),
        Err(e) => Err(SendError::Postcard(e)),
    }
}

/// What a typed send returns once the port has answered: success as it is,
/// the port's error unchanged and marked as the port's.
pub open spec fn send_outcome_of(sent: Result<(), a653rs::prelude::Error>) -> Result<
    (),
    SendError,
> {
    match sent {
        Ok(_) => Ok(()),
        Err(e) => Err(SendError::Apex(e)),
    }
}

/// The step after the encoding. `M` is the message as the encoder left it: a
/// buffer of its own, or the used part of the caller's.
pub fn send_message<M>(encoded: Result<M, postcard::Error>) -> (r: Result<M, SendError>)
    ensures
        r == send_message_of(encoded),
{
    match encoded {
        Ok(msg) => Ok(msg),
        Err(e) => Err(SendError::from(e)),
    }
}

/// The step after the transmission.
pub fn send_outcome(sent: Result<(), a653rs::prelude::Error>) -> (r: Result<(), SendError>)
    ensures
        r == send_outcome_of(sent),
{
    match sent {
        Ok(()) => Ok(()),
        Err(e) => Err(SendError::from(e)),
    }
}

} // verus!
