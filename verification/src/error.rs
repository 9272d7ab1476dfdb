//! The failures of a typed send or receive.
//!
//! A failure comes either from the port, as an `a653rs::prelude::Error`, or
//! from the codec, as a `postcard::Error`. Both are opaque here: they are
//! carried to the caller unchanged. A receive that fails in the codec keeps
//! the bytes that did not decode, so that nothing taken from a port is lost.

use vstd::prelude::*;
use vstd::std_specs::convert::FromSpecImpl;

verus! {

/// `a653rs::prelude::Error`, the error of every port operation. Nothing is
/// assumed of its contents.
#[verifier::external_type_specification]
#[verifier::external_body]
pub struct ExApexError(a653rs::prelude::Error);

/// `postcard::Error`, the error of encoding and decoding. Nothing is assumed
/// of its contents.
#[verifier::external_type_specification]
#[verifier::external_body]
pub struct ExPostcardError(postcard::Error);

/// `a653rs::prelude::Validity`, the freshness flag that comes with every
/// sampling message. Nothing is assumed of its contents.
#[verifier::external_type_specification]
#[verifier::external_body]
pub struct ExValidity(a653rs::prelude::Validity);

/// `Clone::clone` of `a653rs::prelude::Error`, which a653rs derives for an
/// enum without fields: the clone is the same variant.
pub assume_specification[ <a653rs::prelude::Error as Clone>::clone ](
    e: &a653rs::prelude::Error,
) -> (r: a653rs::prelude::Error)
    ensures
        r == *e,
;

/// `Clone::clone` of `postcard::Error`, which postcard derives for an enum
/// without fields: the clone is the same variant.
pub assume_specification[ <postcard::Error as Clone>::clone ](e: &postcard::Error) -> (r:
    postcard::Error)
    ensures
        r == *e,
;

/// Why a typed send failed.
#[derive(Debug)]
pub enum SendError {
    /// The port refused the message.
    Apex(a653rs::prelude::Error),
    /// The value could not be encoded; nothing was handed to the port.
    Postcard(postcard::Error),
}

impl From<a653rs::prelude::Error> for SendError {
    fn from(e: a653rs::prelude::Error) -> (r: Self) {
        SendError::Apex(e)
    }
}

impl FromSpecImpl<a653rs::prelude::Error> for SendError {
    open spec fn obeys_from_spec() -> bool {
        true
    }

    open spec fn from_spec(e: a653rs::prelude::Error) -> Self {
        SendError::Apex(e)
    }
}

impl From<postcard::Error> for SendError {
    fn from(e: postcard::Error) -> (r: Self) {
        SendError::Postcard(e)
    }
}

impl FromSpecImpl<postcard::Error> for SendError {
    open spec fn obeys_from_spec() -> bool {
        true
    }

    open spec fn from_spec(e: postcard::Error) -> Self {
        SendError::Postcard(e)
    }
}

/// What a failed queuing receive holds, the bytes kept after a decode failure
/// taken as a sequence. It is the view of [`QueuingRecvError`] and of
/// [`QueuingRecvBufError`].
pub enum QueuingFailure {
    Apex(a653rs::prelude::Error),
    Postcard(postcard::Error, Seq<u8>),
}

/// What a failed sampling receive holds, the bytes kept after a decode
/// failure taken as a sequence. It is the view of [`SamplingRecvError`] and
/// of [`SamplingRecvBufError`].
pub enum SamplingFailure {
    Apex(a653rs::prelude::Error),
    Postcard(postcard::Error, a653rs::prelude::Validity, Seq<u8>),
}

/// Why a typed receive on a queuing port failed; it owns the bytes it keeps.
#[derive(Debug)]
pub enum QueuingRecvError {
    /// The port gave no message.
    Apex(a653rs::prelude::Error),
    /// A message was taken from the queue and did not decode: the codec's
    /// error and the message, byte for byte.
    Postcard(postcard::Error, Vec<u8>),
}

impl View for QueuingRecvError {
    type V = QueuingFailure;

    open spec fn view(&self) -> QueuingFailure {
        match *self {
            QueuingRecvError::Apex(e) => QueuingFailure::Apex(e),
            QueuingRecvError::Postcard(e, bytes) => QueuingFailure::Postcard(e, bytes@),
        }
    }
}

impl Clone for QueuingRecvError {
    fn clone(&self) -> (r: Self)
        ensures
            r@ == self@,
    {
        match self {
            QueuingRecvError::Apex(e) => QueuingRecvError::Apex(e.clone()),
            QueuingRecvError::Postcard(e, bytes) => QueuingRecvError::Postcard(
                e.clone(),
                bytes.clone(),
            ),
        }
    }
}

impl From<a653rs::prelude::Error> for QueuingRecvError {
    fn from(e: a653rs::prelude::Error) -> (r: Self) {
        QueuingRecvError::Apex(e)
    }
}

impl FromSpecImpl<a653rs::prelude::Error> for QueuingRecvError {
    open spec fn obeys_from_spec() -> bool {
        true
    }

    open spec fn from_spec(e: a653rs::prelude::Error) -> Self {
        QueuingRecvError::Apex(e)
    }
}

/// Why a typed receive on a queuing port failed; the bytes it keeps lie in
/// the caller's buffer.
#[derive(Debug)]
pub enum QueuingRecvBufError<'a> {
    /// The port gave no message.
    Apex(a653rs::prelude::Error),
    /// A message was taken from the queue and did not decode: the codec's
    /// error and the message, byte for byte.
    Postcard(postcard::Error, &'a [u8]),
}

impl<'a> View for QueuingRecvBufError<'a> {
    type V = QueuingFailure;

    open spec fn view(&self) -> QueuingFailure {
        match *self {
            QueuingRecvBufError::Apex(e) => QueuingFailure::Apex(e),
            QueuingRecvBufError::Postcard(e, bytes) => QueuingFailure::Postcard(e, bytes@),
        }
    }
}

impl<'a> Clone for QueuingRecvBufError<'a> {
    fn clone(&self) -> (r: Self)
        ensures
            r == *self,
    {
        match self {
            QueuingRecvBufError::Apex(e) => QueuingRecvBufError::Apex(e.clone()),
            QueuingRecvBufError::Postcard(e, bytes) => QueuingRecvBufError::Postcard(
                e.clone(),
                *bytes,
            ),
        }
    }
}

impl<'a> From<a653rs::prelude::Error> for QueuingRecvBufError<'a> {
    fn from(e: a653rs::prelude::Error) -> (r: Self) {
        QueuingRecvBufError::Apex(e)
    }
}

impl<'a> FromSpecImpl<a653rs::prelude::Error> for QueuingRecvBufError<'a> {
    open spec fn obeys_from_spec() -> bool {
        true
    }

    open spec fn from_spec(e: a653rs::prelude::Error) -> Self {
        QueuingRecvBufError::Apex(e)
    }
}

/// Why a typed receive on a sampling port failed; it owns the bytes it keeps.
#[derive(Debug)]
pub enum SamplingRecvError {
    /// The port gave no message.
    Apex(a653rs::prelude::Error),
    /// The slot was read and its content did not decode: the codec's error,
    /// the validity that came with it, and the content, byte for byte.
    Postcard(postcard::Error, a653rs::prelude::Validity, Vec<u8>),
}

impl View for SamplingRecvError {
    type V = SamplingFailure;

    open spec fn view(&self) -> SamplingFailure {
        match *self {
            SamplingRecvError::Apex(e) => SamplingFailure::Apex(e),
            SamplingRecvError::Postcard(e, validity, bytes) => SamplingFailure::Postcard(
                e,
                validity,
                bytes@,
            ),
        }
    }
}

impl Clone for SamplingRecvError {
    fn clone(&self) -> (r: Self)
        ensures
            r@ == self@,
    {
        match self {
            SamplingRecvError::Apex(e) => SamplingRecvError::Apex(e.clone()),
            SamplingRecvError::Postcard(e, validity, bytes) => SamplingRecvError::Postcard(
                e.clone(),
                *validity,
                bytes.clone(),
            ),
        }
    }
}

impl From<a653rs::prelude::Error> for SamplingRecvError {
    fn from(e: a653rs::prelude::Error) -> (r: Self) {
        SamplingRecvError::Apex(e)
    }
}

impl FromSpecImpl<a653rs::prelude::Error> for SamplingRecvError {
    open spec fn obeys_from_spec() -> bool {
        true
    }

    open spec fn from_spec(e: a653rs::prelude::Error) -> Self {
        SamplingRecvError::Apex(e)
    }
}

/// Why a typed receive on a sampling port failed; the bytes it keeps lie in
/// the caller's buffer.
#[derive(Debug)]
pub enum SamplingRecvBufError<'a> {
    /// The port gave no message.
    Apex(a653rs::prelude::Error),
    /// The slot was read and its content did not decode: the codec's error,
    /// the validity that came with it, and the content, byte for byte.
    Postcard(postcard::Error, a653rs::prelude::Validity, &'a [u8]),
}

impl<'a> View for SamplingRecvBufError<'a> {
    type V = SamplingFailure;

    open spec fn view(&self) -> SamplingFailure {
        match *self {
            SamplingRecvBufError::Apex(e) => SamplingFailure::Apex(e),
            SamplingRecvBufError::Postcard(e, validity, bytes) => SamplingFailure::Postcard(
                e,
                validity,
                bytes@,
            ),
        }
    }
}

impl<'a> Clone for SamplingRecvBufError<'a> {
    fn clone(&self) -> (r: Self)
        ensures
            r == *self,
    {
        match self {
            SamplingRecvBufError::Apex(e) => SamplingRecvBufError::Apex(e.clone()),
            SamplingRecvBufError::Postcard(e, validity, bytes) => SamplingRecvBufError::Postcard(
                e.clone(),
                *validity,
                *bytes,
            ),
        }
    }
}

impl<'a> From<a653rs::prelude::Error> for SamplingRecvBufError<'a> {
    fn from(e: a653rs::prelude::Error) -> (r: Self) {
        SamplingRecvBufError::Apex(e)
    }
}

impl<'a> FromSpecImpl<a653rs::prelude::Error> for SamplingRecvBufError<'a> {
    open spec fn obeys_from_spec() -> bool {
        true
    }

    open spec fn from_spec(e: a653rs::prelude::Error) -> Self {
        SamplingRecvBufError::Apex(e)
    }
}

} // verus!
