//! The frame codec: payload to wire bytes and back, and the control frames.
use vstd::prelude::*;

verus! {

/// Start Block.
pub const SB: u8 = 0x0Bu8;

/// End Block.
pub const EB: u8 = 0x1Cu8;

/// Carriage Return.
pub const CR: u8 = 0x0Du8;

/// Acknowledgement character, the payload of an ACK frame.
pub const ACK: u8 = 0x06u8;

/// Negative acknowledgement character, the payload of a NAK frame.
pub const NAK: u8 = 0x15u8;

/// The wire bytes that carry payload `p`.
pub open spec fn framed(p: Seq<u8>) -> Seq<u8> {
    seq![SB] + p + seq![EB, CR]
}

/// Whether `f` has the three sentinels at their fixed offsets: SB first, EB
/// second to last, CR last.
pub open spec fn has_sentinels(f: Seq<u8>) -> bool {
    &&& f.len() >= 3
    &&& f[0] == SB
    &&& f[f.len() - 2] == EB
    &&& f[f.len() - 1] == CR
}

/// The bytes strictly between the start block and the end block of `f`.
pub open spec fn payload_of(f: Seq<u8>) -> Seq<u8> {
    f.subrange(1, f.len() - 2)
}

/// The ACK control frame.
pub open spec fn ack_frame() -> Seq<u8> {
    seq![SB, ACK, EB, CR]
}

/// The NAK control frame.
pub open spec fn nak_frame() -> Seq<u8> {
    seq![SB, NAK, EB, CR]
}

/// The error of a frame that is not `<SB>...<EB><CR>`.
#[derive(Debug, Clone, Copy, PartialEq, Eq, Structural)]
pub struct MllpSyntaxError;

impl MllpSyntaxError {
    /// The text that describes this error.
    pub fn message(&self) -> (r: String)
        ensures
            r@ == "Expected bytes <SB>...<EB><CR>"@,
    {
        "Expected bytes <SB>...<EB><CR>".to_owned()
    }
}

/// Whether `a` and `b` hold the same bytes.
fn same_bytes(a: &[u8], b: &[u8]) -> (r: bool)
    ensures
        r == (a@ == b@),
{
    if a.len() != b.len() {
        return false;
    }
    let mut i: usize = 0;
    while i < a.len()
        invariant
            i <= a@.len(),
            a@.len() == b@.len(),
            forall|k: int| 0 <= k < i ==> a@[k] == b@[k],
        decreases a@.len() - i,
    {
        if a[i] != b[i] {
            return false;
        }
        i = i + 1;
    }
    assert(a@ =~= b@);
    true
}

/// The stateless MLLP codec.
pub struct MllpCodec {}

impl MllpCodec {
    /// Frames `with` as `<SB> with <EB><CR>`.
    pub fn encode(with: &[u8]) -> (r: Vec<u8>)
        ensures
            r@ == framed(with@),
    {
        let mut buf: Vec<u8> = Vec::new();
        buf.push(SB);
        let mut i: usize = 0;
        while i < with.len()
            invariant
                i <= with@.len(),
                buf@ == seq![SB] + with@.subrange(0, i as int),
            decreases with@.len() - i,
        {
            buf.push(with[i]);
            i = i + 1;
            assert(with@.subrange(0, i as int) == with@.subrange(0, i - 1) + seq![with@[i - 1]]);
        }
        buf.push(EB);
        buf.push(CR);
        assert(with@.subrange(0, with@.len() as int) == with@);
        buf
    }

    /// Checks the sentinels of `with` and returns its payload, a view into
    /// `with` itself. `with` must be one whole frame of at least four bytes;
    /// a shorter input is the caller's error, not a malformed frame.
    pub fn decode(with: &[u8]) -> (r: Result<&[u8], MllpSyntaxError>)
        requires
            with@.len() >= 4,
        ensures
            r is Ok <==> has_sentinels(with@),
            r matches Ok(p) ==> p@ == payload_of(with@),
    {
        let n = with.len();
        let sb = with[0];
        let eb = with[n - 2];
        let cr = with[n - 1];
        if sb == SB && eb == EB && cr == CR {
            Ok(&with[1..n - 2])
        } else {
            Err(MllpSyntaxError)
        }
    }

    /// A fresh ACK control frame, `<SB><ACK><EB><CR>`.
    pub fn ack() -> (r: [u8; 4])
        ensures
            r@ == ack_frame(),
    {
        let r = [SB, ACK, EB, CR];
        assert(r@ =~= ack_frame());
        r
    }

    /// A fresh NAK control frame, `<SB><NAK><EB><CR>`.
    pub fn nak() -> (r: [u8; 4])
        ensures
            r@ == nak_frame(),
    {
        let r = [SB, NAK, EB, CR];
        assert(r@ =~= nak_frame());
        r
    }

    /// Whether `with` is byte for byte the ACK control frame.
    pub fn is_ack(with: &[u8]) -> (r: bool)
        ensures
            r == (with@ == ack_frame()),
    {
        let a = Self::ack();
        same_bytes(with, a.as_slice())
    }

    /// Whether `with` is byte for byte the NAK control frame.
    pub fn is_nak(with: &[u8]) -> (r: bool)
        ensures
            r == (with@ == nak_frame()),
    {
        let a = Self::nak();
        same_bytes(with, a.as_slice())
    }
}

} // verus!
