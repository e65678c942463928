//! Wire codec for the consensus proof: a fixed-width header encoding.
//!
//! A header travels as exactly 64 bytes: the 32 little-endian bytes of its
//! number followed by the 32 bytes of its state root. Decoding is the exact
//! inverse and refuses any payload of another length.

use vstd::prelude::*;

verus! {

use crate::state::{Header, HeaderView};
use crate::words::{copy_range, H256, U256, WORD_WIDTH};

/// Exact length of an encoded header.
pub const HEADER_ENCODING_LEN: usize = 64;

/// The bytes a well-formed header encodes to.
pub open spec fn spec_encode_header(h: HeaderView) -> Seq<u8> {
    h.number + h.state_root
}

/// Whether a payload is a valid header encoding.
pub open spec fn spec_valid_header_bytes(raw: Seq<u8>) -> bool {
    raw.len() == HEADER_ENCODING_LEN
}

/// The header a valid payload decodes to.
pub open spec fn spec_decode_header(raw: Seq<u8>) -> HeaderView {
    HeaderView {
        number: raw.subrange(0, WORD_WIDTH as int),
        state_root: raw.subrange(WORD_WIDTH as int, HEADER_ENCODING_LEN as int),
    }
}

/// Encode a header for transport inside a consensus proof.
pub fn encode_header(h: &Header) -> (r: Vec<u8>)
    requires
        h.wf(),
    ensures
        r@ == spec_encode_header(h@),
        r@.len() == HEADER_ENCODING_LEN,
{
    let mut r = copy_range(&h.number.bytes, 0, WORD_WIDTH);
    let root = copy_range(&h.state_root.bytes, 0, WORD_WIDTH);
    let mut i: usize = 0;
    while i < root.len()
        invariant
            i <= root@.len(),
            r@ == h.number@ + root@.subrange(0, i as int),
        decreases root@.len() - i,
    {
        r.push(root[i]);
        i = i + 1;
        proof {
            assert(r@ =~= h.number@ + root@.subrange(0, i as int));
        }
    }
    proof {
        assert(h.number@ =~= h.number@.subrange(0, WORD_WIDTH as int));
        assert(h.state_root@ =~= root@.subrange(0, WORD_WIDTH as int));
        assert(r@ =~= spec_encode_header(h@));
    }
    r
}

/// Decode a consensus proof back into a header. Succeeds exactly on
/// payloads of the right length; everything else is malformed.
pub fn decode_header(raw: &Vec<u8>) -> (r: Option<Header>)
    ensures
        r is Some <==> spec_valid_header_bytes(raw@),
        r matches Some(h) ==> h.wf() && h@ == spec_decode_header(raw@),
{
    if raw.len() != HEADER_ENCODING_LEN {
        return None;
    }
    let number = U256 { bytes: copy_range(raw, 0, WORD_WIDTH) };
    let state_root = H256 { bytes: copy_range(raw, WORD_WIDTH, WORD_WIDTH) };
    Some(Header { number, state_root })
}

/// Encoding then decoding gives the header back: the codec loses nothing.
pub proof fn lemma_header_codec_roundtrip(h: HeaderView)
    requires
        h.number.len() == WORD_WIDTH,
        h.state_root.len() == WORD_WIDTH,
    ensures
        spec_valid_header_bytes(spec_encode_header(h)),
        spec_decode_header(spec_encode_header(h)) == h,
{
    let raw = spec_encode_header(h);
    assert(raw.subrange(0, WORD_WIDTH as int) =~= h.number);
    assert(raw.subrange(WORD_WIDTH as int, HEADER_ENCODING_LEN as int) =~= h.state_root);
    assert(spec_decode_header(raw) =~= h);
}

/// Two headers with the same encoding are the same header: the codec is
/// unambiguous.
pub proof fn lemma_header_codec_injective(a: HeaderView, b: HeaderView)
    requires
        a.number.len() == WORD_WIDTH,
        a.state_root.len() == WORD_WIDTH,
        b.number.len() == WORD_WIDTH,
        b.state_root.len() == WORD_WIDTH,
        spec_encode_header(a) == spec_encode_header(b),
    ensures
        a == b,
{
    lemma_header_codec_roundtrip(a);
    lemma_header_codec_roundtrip(b);
}

} // verus!
