//! Consensus update pipeline: the decision stages between a raw head
//! notification and an emitted consensus message.
//!
//! The subscription transport and the chain-specific finality rule are the
//! caller's collaborators; this module holds the stages that can be pinned
//! down: the best-effort decode filter (a malformed notification is dropped,
//! the stream lives on), the wrapping of a finalized header into the
//! canonical envelope, and the bootstrap record with the protocol's timing
//! constants.

use vstd::prelude::*;

verus! {

use crate::codec::{
    decode_header, encode_header, spec_decode_header, spec_encode_header, spec_valid_header_bytes,
};
use crate::state::{ConsensusMessage, CreateConsensusState, Header, HeaderView};

/// Seconds an exiting validator remains slashable: sixty hours times
/// twenty-seven, a protocol constant.
pub const UNBONDING_PERIOD_SECS: u64 = 60 * 60 * 60 * 27;

/// Seconds a submitted update may be challenged, a protocol constant.
pub const CHALLENGE_PERIOD_SECS: u64 = 5 * 60;

/// The headers that survive the decode filter, in arrival order: each valid
/// notification contributes its header, each malformed one is dropped.
pub open spec fn spec_decoded_headers(raws: Seq<Seq<u8>>) -> Seq<HeaderView>
    decreases raws.len(),
{
    if raws.len() == 0 {
        Seq::empty()
    } else {
        let rest = spec_decoded_headers(raws.drop_last());
        if spec_valid_header_bytes(raws.last()) {
            rest.push(spec_decode_header(raws.last()))
        } else {
            rest
        }
    }
}

/// The decode filter over a batch of raw notifications: malformed payloads
/// are skipped and every later valid payload is still processed — one bad
/// item never ends the stream.
pub fn filter_decode_notifications(raws: &Vec<Vec<u8>>) -> (hs: Vec<Header>)
    ensures
        hs@.map_values(|h: Header| h@) == spec_decoded_headers(
            raws@.map_values(|r: Vec<u8>| r@),
        ),
        forall|j: int| 0 <= j < hs@.len() ==> #[trigger] hs@[j].wf(),
{
    let ghost m = raws@.map_values(|r: Vec<u8>| r@);
    let mut hs: Vec<Header> = Vec::new();
    let mut i: usize = 0;
    while i < raws.len()
        invariant
            i <= raws@.len(),
            m == raws@.map_values(|r: Vec<u8>| r@),
            hs@.map_values(|h: Header| h@) == spec_decoded_headers(m.take(i as int)),
            forall|j: int| 0 <= j < hs@.len() ==> #[trigger] hs@[j].wf(),
        decreases raws@.len() - i,
    {
        let ghost prev = hs@;
        match decode_header(&raws[i]) {
            Some(h) => {
                hs.push(h);
            },
            None => {},
        }
        i = i + 1;
        proof {
            assert(m.take(i as int).drop_last() =~= m.take(i as int - 1));
            assert(m.take(i as int).last() == raws@[i - 1]@);
            if spec_valid_header_bytes(raws@[i - 1]@) {
                assert(hs@.map_values(|h: Header| h@) =~= prev.map_values(|h: Header| h@).push(
                    spec_decode_header(raws@[i - 1]@),
                ));
            }
        }
    }
    proof {
        assert(m.take(raws@.len() as int) =~= m);
    }
    hs
}

/// Wrap a finality-qualified header as the canonical consensus message for
/// the given consensus client instance.
pub fn consensus_message_for_header(header: &Header, consensus_state_id: u32) -> (m:
    ConsensusMessage)
    requires
        header.wf(),
    ensures
        m.consensus_proof@ == spec_encode_header(header@),
        m.consensus_state_id == consensus_state_id,
{
    ConsensusMessage { consensus_proof: encode_header(header), consensus_state_id }
}

/// Build the bootstrap record around a freshly read consensus snapshot,
/// with the protocol's fixed unbonding and challenge periods and no seeded
/// commitments.
pub fn initial_consensus_state(
    snapshot: Vec<u8>,
    consensus_client_id: u32,
    consensus_state_id: u32,
) -> (r: CreateConsensusState)
    ensures
        r.consensus_state@ == snapshot@,
        r.consensus_client_id == consensus_client_id,
        r.consensus_state_id == consensus_state_id,
        r.unbonding_period == UNBONDING_PERIOD_SECS,
        r.challenge_period == CHALLENGE_PERIOD_SECS,
        r.state_machine_commitments@.len() == 0,
{
    CreateConsensusState {
        consensus_state: snapshot,
        consensus_client_id,
        consensus_state_id,
        unbonding_period: UNBONDING_PERIOD_SECS,
        challenge_period: CHALLENGE_PERIOD_SECS,
        state_machine_commitments: Vec::new(),
    }
}

/// Dropping a malformed notification loses nothing else: the headers kept
/// from a batch with one bad payload in front are exactly the headers kept
/// from the rest of the batch.
pub proof fn lemma_bad_notification_only_skipped(raws: Seq<Seq<u8>>, bad: Seq<u8>)
    requires
        !spec_valid_header_bytes(bad),
    ensures
        spec_decoded_headers(seq![bad] + raws) == spec_decoded_headers(raws),
    decreases raws.len(),
{
    if raws.len() == 0 {
        assert(raws =~= Seq::<Seq<u8>>::empty());
        assert((seq![bad] + raws).last() == bad);
        assert((seq![bad] + raws).drop_last() =~= Seq::<Seq<u8>>::empty());
    } else {
        lemma_bad_notification_only_skipped(raws.drop_last(), bad);
        assert((seq![bad] + raws).drop_last() =~= seq![bad] + raws.drop_last());
        assert((seq![bad] + raws).last() == raws.last());
    }
}

} // verus!
