//! Typed send and receive over a sampling port.
//!
//! A send encodes, then writes the slot; a receive reads the slot, then
//! decodes its content. A port's error ends either of them and is handed on
//! unchanged; so is the codec's, together with the content where the slot
//! was read. The validity that comes with a read is handed on as it came,
//! with a decoded value and with a decode failure alike.

use crate::buffer::valid_prefix;
use crate::error::{SamplingFailure, SamplingRecvBufError, SamplingRecvError, SendError};
use crate::send::{send_message, send_outcome, send_outcome_of};
use a653rs::prelude::Validity;
use vstd::prelude::*;

verus! {

/// A typed send from a buffer that the encoder grew. `encoded` is what the
/// encoder returned, `transmit` the port's write.
///
/// An encoder's error is returned, and the port is not called. Else the
/// message is handed to `transmit`, once and unchanged, and the port's answer
/// decides: success, or the port's error.
pub fn send_type<F: FnOnce(Vec<u8>) -> Result<(), a653rs::prelude::Error>>(
    encoded: Result<Vec<u8>, postcard::Error>,
    transmit: F,
) -> (r: Result<(), SendError>)
    requires
        encoded matches Ok(msg) ==> call_requires(transmit, (msg,)),
    ensures
        match encoded {
            Err(e) => r == Err::<(), SendError>(SendError::Postcard(e)),
            Ok(msg) => exists|sent: Result<(), a653rs::prelude::Error>|
                call_ensures(transmit, (msg,), sent) && r == send_outcome_of(sent),
        },
{
    match send_message(encoded) {
        Err(e) => Err(e),
        Ok(msg) => send_outcome(transmit(msg)),
    }
}

/// A typed send from the caller's buffer. `encoded` is what the encoder
/// returned, on success the part of the buffer that holds the message;
/// `transmit` is the port's write.
///
/// An encoder's error is returned, and the port is not called: an encoding
/// that does not fit the buffer ends here. Else the message is handed to
/// `transmit`, once and unchanged, and the port's answer decides: success, or
/// the port's error.
pub fn send_type_buf<'a, F: FnOnce(&'a [u8]) -> Result<(), a653rs::prelude::Error>>(
    encoded: Result<&'a [u8], postcard::Error>,
    transmit: F,
) -> (r: Result<(), SendError>)
    requires
        encoded matches Ok(msg) ==> call_requires(transmit, (msg,)),
    ensures
        match encoded {
            Err(e) => r == Err::<(), SendError>(SendError::Postcard(e)),
            Ok(msg) => exists|sent: Result<(), a653rs::prelude::Error>|
                call_ensures(transmit, (msg,), sent) && r == send_outcome_of(sent),
        },
{
    match send_message(encoded) {
        Err(e) => Err(e),
        Ok(msg) => send_outcome(transmit(msg)),
    }
}

/// The step after the decoding, for a receive into a buffer of its own. The
/// port filled `buf`; its first `msg_len` bytes are the slot's content, and
/// `validity` came with them; `decoded` is what the decoder made of the
/// content.
///
/// A decoded value is returned with the validity. A decoder's error is
/// returned with the validity and with the content itself: `buf` cut down to
/// its valid prefix.
pub fn recv_decoded<T>(
    buf: Vec<u8>,
    msg_len: usize,
    validity: Validity,
    decoded: Result<T, postcard::Error>,
) -> (r: Result<(Validity, T), SamplingRecvError>)
    ensures
        match decoded {
            Ok(value) => r == Ok::<(Validity, T), SamplingRecvError>((validity, value)),
            Err(e) => r matches Err(failure) && failure@ == SamplingFailure::Postcard(
                e,
                validity,
                valid_prefix(buf@, msg_len as nat),
            ),
        },
{
    match decoded {
        Ok(value) => Ok((validity, value)),
        Err(e) => {
            let mut buf = buf;
            buf.truncate(msg_len);
            Err(SamplingRecvError::Postcard(e, validity, buf))
        },
    }
}

/// A typed receive into a buffer of its own. `buf` is the buffer that was
/// handed to the port, and `received` the port's answer: its error, or the
/// validity, the length of the slot's content at the front of `buf`, and
/// what the decoder made of the content.
///
/// A port's error is returned unchanged. A decoded value is returned with the
/// validity. A decoder's error is returned with the validity and with the
/// content itself, `buf` cut down to its valid prefix.
pub fn recv_type<T>(
    buf: Vec<u8>,
    received: Result<(Validity, usize, Result<T, postcard::Error>), a653rs::prelude::Error>,
) -> (r: Result<(Validity, T), SamplingRecvError>)
    ensures
        match received {
            Err(e) => r matches Err(failure) && failure@ == SamplingFailure::Apex(e),
            Ok((validity, msg_len, Ok(value))) => r == Ok::<(Validity, T), SamplingRecvError>(
                (validity, value),
            ),
            Ok((validity, msg_len, Err(e))) => r matches Err(failure) && failure@
                == SamplingFailure::Postcard(e, validity, valid_prefix(buf@, msg_len as nat)),
        },
{
    match received {
        Err(e) => Err(SamplingRecvError::from(e)),
        Ok((validity, msg_len, decoded)) => recv_decoded(buf, msg_len, validity, decoded),
    }
}

/// The step after the decoding, for a receive into the caller's buffer.
/// `msg` is the part of the buffer that the port handed back as the slot's
/// content, `validity` came with it, and `decoded` is what the decoder made
/// of the content.
///
/// A decoded value is returned with the validity. A decoder's error is
/// returned with the validity and with `msg` itself.
pub fn recv_decoded_buf<'a, T>(
    validity: Validity,
    msg: &'a [u8],
    decoded: Result<T, postcard::Error>,
) -> (r: Result<(Validity, T), SamplingRecvBufError<'a>>)
    ensures
        r == match decoded {
            Ok(value) => Ok::<(Validity, T), SamplingRecvBufError<'a>>((validity, value)),
            Err(e) => Err(SamplingRecvBufError::Postcard(e, validity, msg)),
        },
{
    match decoded {
        Ok(value) => Ok((validity, value)),
        Err(e) => Err(SamplingRecvBufError::Postcard(e, validity, msg)),
    }
}

/// A typed receive into the caller's buffer. `received` is the port's
/// answer: its error, or the validity, the part of the buffer that holds the
/// slot's content, and what the decoder made of the content.
///
/// A port's error is returned unchanged. A decoded value is returned with the
/// validity. A decoder's error is returned with the validity and with the
/// content itself.
pub fn recv_type_buf<'a, T>(
    received: Result<(Validity, &'a [u8], Result<T, postcard::Error>), a653rs::prelude::Error>,
) -> (r: Result<(Validity, T), SamplingRecvBufError<'a>>)
    ensures
        r == match received {
            Err(e) => Err::<(Validity, T), SamplingRecvBufError<'a>>(
                SamplingRecvBufError::Apex(e),
            ),
            Ok((validity, msg, Ok(value))) => Ok((validity, value)),
            Ok((validity, msg, Err(e))) => Err(SamplingRecvBufError::Postcard(e, validity, msg)),
        },
{
    match received {
        Err(e) => Err(SamplingRecvBufError::from(e)),
        Ok((validity, msg, decoded)) => recv_decoded_buf(validity, msg, decoded),
    }
}

} // verus!
