//! Typed send and receive over a queuing port.
//!
//! A send encodes, then transmits; a receive takes a message from the queue,
//! then decodes it. A port's error ends either of them and is handed on
//! unchanged; so is the codec's, together with the message where one was
//! received.

use crate::buffer::valid_prefix;
use crate::error::{QueuingFailure, QueuingRecvBufError, QueuingRecvError, SendError};
use crate::send::{send_message, send_outcome, send_outcome_of};
use a653rs::prelude::QueueOverflow;
use vstd::prelude::*;

verus! {

/// A typed send from a buffer that the encoder grew. `encoded` is what the
/// encoder returned, `transmit` the port's send with the caller's timeout.
///
/// An encoder's error is returned, and the port is not called. Else the
/// message is handed to `transmit`, once and unchanged, and the port's answer
/// decides: success, or the port's error.
pub fn send_type<F: FnOnce(Vec<u8>) -> Result<(), a653rs::prelude::Error>>(
    encoded: Result<Vec<u8>, postcard::Error>,
    transmit: F,
) -> (r: Result<(), SendError>)
    requires
        encoded matches Ok(msg) ==> call_requires(transmit, (msg,)),
    ensures
        match encoded {
            Err(e) => r == Err::<(), SendError>(SendError::Postcard(e)),
            Ok(msg) => exists|sent: Result<(), a653rs::prelude::Error>|
                call_ensures(transmit, (msg,), sent) && r == send_outcome_of(sent),
        },
{
    match send_message(encoded) {
        Err(e) => Err(e),
        Ok(msg) => send_outcome(transmit(msg)),
    }
}

/// A typed send from the caller's buffer. `encoded` is what the encoder
/// returned, on success the part of the buffer that holds the message;
/// `transmit` is the port's send with the caller's timeout.
///
/// An encoder's error is returned, and the port is not called: an encoding
/// that does not fit the buffer ends here. Else the message is handed to
/// `transmit`, once and unchanged, and the port's answer decides: success, or
/// the port's error.
pub fn send_type_buf<'a, F: FnOnce(&'a [u8]) -> Result<(), a653rs::prelude::Error>>(
    encoded: Result<&'a [u8], postcard::Error>,
    transmit: F,
) -> (r: Result<(), SendError>)
    requires
        encoded matches Ok(msg) ==> call_requires(transmit, (msg,)),
    ensures
        match encoded {
            Err(e) => r == Err::<(), SendError>(SendError::Postcard(e)),
            Ok(msg) => exists|sent: Result<(), a653rs::prelude::Error>|
                call_ensures(transmit, (msg,), sent) && r == send_outcome_of(sent),
        },
{
    match send_message(encoded) {
        Err(e) => Err(e),
        Ok(msg) => send_outcome(transmit(msg)),
    }
}

/// The step after the decoding, for a receive into a buffer of its own. The
/// port filled `buf`; its first `msg_len` bytes are the message, and
/// `overflow` came with them; `decoded` is what the decoder made of the
/// message.
///
/// A decoded value is returned with the overflow flag. A decoder's error is
/// returned with the message itself: `buf` cut down to its valid prefix. The
/// overflow flag is not part of that error.
pub fn recv_decoded<T>(
    buf: Vec<u8>,
    msg_len: usize,
    overflow: QueueOverflow,
    decoded: Result<T, postcard::Error>,
) -> (r: Result<(T, QueueOverflow), QueuingRecvError>)
    ensures
        match decoded {
            Ok(value) => r == Ok::<(T, QueueOverflow), QueuingRecvError>((value, overflow)),
            Err(e) => r matches Err(failure) && failure@ == QueuingFailure::Postcard(
                e,
                valid_prefix(buf@, msg_len as nat),
            ),
        },
{
    match decoded {
        Ok(value) => Ok((value, overflow)),
        Err(e) => {
            let mut buf = buf;
            buf.truncate(msg_len);
            Err(QueuingRecvError::Postcard(e, buf))
        },
    }
}

/// A typed receive into a buffer of its own. `buf` is the buffer that was
/// handed to the port, and `received` the port's answer: its error, or the
/// length of the message at the front of `buf`, the overflow flag, and what
/// the decoder made of the message.
///
/// A port's error is returned unchanged. A decoded value is returned with the
/// overflow flag. A decoder's error is returned with the message itself,
/// `buf` cut down to its valid prefix, and without the overflow flag.
pub fn recv_type<T>(
    buf: Vec<u8>,
    received: Result<
        (usize, QueueOverflow, Result<T, postcard::Error>),
        a653rs::prelude::Error,
    >,
) -> (r: Result<(T, QueueOverflow), QueuingRecvError>)
    ensures
        match received {
            Err(e) => r matches Err(failure) && failure@ == QueuingFailure::Apex(e),
            Ok((msg_len, overflow, Ok(value))) => r == Ok::<(T, QueueOverflow), QueuingRecvError>(
                (value, overflow),
            ),
            Ok((msg_len, overflow, Err(e))) => r matches Err(failure) && failure@
                == QueuingFailure::Postcard(e, valid_prefix(buf@, msg_len as nat)),
        },
{
    match received {
        Err(e) => Err(QueuingRecvError::from(e)),
        Ok((msg_len, overflow, decoded)) => recv_decoded(buf, msg_len, overflow, decoded),
    }
}

/// The step after the decoding, for a receive into the caller's buffer.
/// `msg` is the part of the buffer that the port handed back as the message,
/// `overflow` came with it, and `decoded` is what the decoder made of the
/// message.
///
/// A decoded value is returned with the overflow flag. A decoder's error is
/// returned with `msg` itself. The overflow flag is not part of that error.
pub fn recv_decoded_buf<'a, T>(
    msg: &'a [u8],
    overflow: QueueOverflow,
    decoded: Result<T, postcard::Error>,
) -> (r: Result<(T, QueueOverflow), QueuingRecvBufError<'a>>)
    ensures
        r == match decoded {
            Ok(value) => Ok::<(T, QueueOverflow), QueuingRecvBufError<'a>>((value, overflow)),
            Err(e) => Err(QueuingRecvBufError::Postcard(e, msg)),
        },
{
    match decoded {
        Ok(value) => Ok((value, overflow)),
        Err(e) => Err(QueuingRecvBufError::Postcard(e, msg)),
    }
}

/// A typed receive into the caller's buffer. `received` is the port's
/// answer: its error, or the part of the buffer that holds the message, the
/// overflow flag, and what the decoder made of the message.
///
/// A port's error is returned unchanged. A decoded value is returned with the
/// overflow flag. A decoder's error is returned with the message itself, and
/// without the overflow flag.
pub fn recv_type_buf<'a, T>(
    received: Result<
        (&'a [u8], QueueOverflow, Result<T, postcard::Error>),
        a653rs::prelude::Error,
    >,
) -> (r: Result<(T, QueueOverflow), QueuingRecvBufError<'a>>)
    ensures
        r == match received {
            Err(e) => Err::<(T, QueueOverflow), QueuingRecvBufError<'a>>(
                QueuingRecvBufError::Apex(e),
            ),
            Ok((msg, overflow, Ok(value))) => Ok((value, overflow)),
            Ok((msg, overflow, Err(e))) => Err(QueuingRecvBufError::Postcard(e, msg)),
        },
{
    match received {
        Err(e) => Err(QueuingRecvBufError::from(e)),
        Ok((msg, overflow, decoded)) => recv_decoded_buf(msg, overflow, decoded),
    }
}

} // verus!
