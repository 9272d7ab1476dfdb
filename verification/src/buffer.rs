//! The buffers a receive works on.
//!
//! A port fills a buffer that is at least as long as its largest message and
//! says how many bytes of it are the message. Only that prefix is ever
//! decoded or kept; what lies behind it is padding.

use vstd::prelude::*;

verus! {

/// `len` zero bytes.
pub open spec fn zeroed(len: nat) -> Seq<u8> {
    Seq::new(len, |i: int| 0u8)
}

/// The first `len` bytes of `buf`: the message in a buffer of which `len`
/// bytes are valid. A `len` beyond the buffer takes all of it.
pub open spec fn valid_prefix(buf: Seq<u8>, len: nat) -> Seq<u8> {
    if len <= buf.len() {
        buf.subrange(0, len as int)
    } else {
        buf
    }
}

/// A fresh buffer to receive into, for a port whose largest message has
/// `size` bytes.
pub fn scratch(size: usize) -> (buf: Vec<u8>)
    ensures
        buf@ == zeroed(size as nat),
{
    let buf = vec![0u8; size];
    assert(buf@ =~= zeroed(size as nat));
    buf
}

/// The message in a buffer does not depend on what lies behind it: of a
/// message followed by any padding, the valid prefix of the message's length
/// is the message.
pub proof fn lemma_valid_prefix_ignores_padding(msg: Seq<u8>, padding: Seq<u8>)
    ensures
        valid_prefix(msg + padding, msg.len()) == msg,
{
    assert((msg + padding).subrange(0, msg.len() as int) =~= msg);
}

} // verus!
