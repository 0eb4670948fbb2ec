//! Laws that relate the codec's operations to one another, stated over the
//! spec functions that their contracts use.
use vstd::prelude::*;

use crate::frame::{ack_frame, framed, has_sentinels, nak_frame, payload_of, ACK, CR, EB, NAK, SB};

verus! {

/// Decoding undoes encoding: the frame of any payload `p` is `p.len() + 3`
/// bytes long, carries all three sentinels, and its payload is `p` again.
/// For a non-empty `p` the frame is at least 4 bytes long, so `decode`
/// accepts it and returns `p`.
pub proof fn lemma_round_trip(p: Seq<u8>)
    ensures
        framed(p).len() == p.len() + 3,
        has_sentinels(framed(p)),
        payload_of(framed(p)) == p,
        p.len() >= 1 ==> framed(p).len() >= 4,
{
    assert(payload_of(framed(p)) =~= p);
}

/// A frame with a wrong byte at any of the three sentinel offsets is
/// rejected by `decode`.
pub proof fn lemma_corrupt_sentinel_rejected(f: Seq<u8>)
    requires
        f.len() >= 4,
        f[0] != SB || f[f.len() - 2] != EB || f[f.len() - 1] != CR,
    ensures
        !has_sentinels(f),
{
}

/// The two control frames are well-formed frames whose payloads are the
/// single bytes ACK and NAK, and they differ: each recognizer accepts its own
/// frame and refuses the other one.
pub proof fn lemma_control_frames()
    ensures
        has_sentinels(ack_frame()),
        has_sentinels(nak_frame()),
        payload_of(ack_frame()) == seq![ACK],
        payload_of(nak_frame()) == seq![NAK],
        ack_frame() != nak_frame(),
{
    assert(payload_of(ack_frame()) =~= seq![ACK]);
    assert(payload_of(nak_frame()) =~= seq![NAK]);
    assert(ack_frame()[1] != nak_frame()[1]);
}

/// No byte sequence whose length is not 4 is a control frame, so the
/// recognizers refuse it.
pub proof fn lemma_control_frame_length(s: Seq<u8>)
    requires
        s.len() != 4,
    ensures
        s != ack_frame(),
        s != nak_frame(),
{
}

} // verus!
