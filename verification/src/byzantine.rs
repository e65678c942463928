//! Byzantine fault detector: audits a consensus message against the
//! counterparty's committed state.
//!
//! The caller performs the chain calls (querying the stored commitment,
//! issuing the freeze); this module makes every decision. An audit runs in
//! two phases: [`plan_byzantine_check`] decodes the claimed proof and derives
//! the height to query, then — once the caller has queried the counterparty —
//! [`audit_queried_commitment`] delivers the verdict. A missing commitment is
//! a query failure, never a fraud signal.

use vstd::prelude::*;

verus! {

use crate::codec::{
    decode_header, lemma_header_codec_roundtrip, spec_decode_header, spec_encode_header,
    spec_valid_header_bytes,
};
use crate::state::{
    ConsensusMessage, HeaderView, StateMachineCommitment, StateMachineHeight, StateMachineId,
};
use crate::words::{eq_bytes, le_value, H256, WORD_WIDTH};

/// One past the largest height a commitment can exist at.
pub open spec fn height_limit() -> nat {
    0x10000000000000000
}

/// Why an audit could not reach a verdict.
#[derive(Clone, Copy, Debug, PartialEq, Eq, Structural)]
pub enum ByzantineError {
    /// The consensus proof is not a header encoding. The payload claimed to
    /// be authoritative, so this is a hard error, never skipped.
    ProofDecode,
    /// The header's number does not fit in 64 bits; it is refused rather
    /// than truncated.
    HeightOverflow,
    /// The counterparty holds no commitment at the derived height.
    MissingCommitment,
}

/// The verdict of an audit.
#[derive(Clone, Copy, Debug, PartialEq, Eq, Structural)]
pub enum ByzantineOutcome {
    /// The finalized root matches the committed root: no action.
    NoFraud,
    /// The roots differ: the caller must freeze the named state machine.
    FreezeRequired(StateMachineId),
}

/// What a successful first phase hands the caller: where to query, and the
/// root the proof claims was finalized there.
#[derive(Clone, Debug, PartialEq, Eq)]
pub struct ByzantineCheckPlan {
    /// The height whose stored commitment must be queried.
    pub height: StateMachineHeight,
    /// The state root the decoded header claims.
    pub finalized_root: H256,
}

/// Whether a consensus proof decodes to a header whose number fits a
/// 64-bit height.
pub open spec fn spec_plan_ok(proof: Seq<u8>) -> bool {
    spec_valid_header_bytes(proof) && le_value(spec_decode_header(proof).number) < height_limit()
}

/// The verdict owed for a claimed root against a committed root, for the
/// audit of state machine `id`: any byte-level difference, however small,
/// demands a freeze of exactly that machine.
pub open spec fn spec_verdict(id: StateMachineId, claimed: Seq<u8>, committed: Seq<u8>)
    -> ByzantineOutcome {
    if claimed == committed {
        ByzantineOutcome::NoFraud
    } else {
        ByzantineOutcome::FreezeRequired(id)
    }
}

/// First audit phase: decode the claimed proof and derive the height whose
/// commitment the caller must fetch from the counterparty.
pub fn plan_byzantine_check(local: StateMachineId, message: &ConsensusMessage) -> (r: Result<
    ByzantineCheckPlan,
    ByzantineError,
>)
    ensures
        r == Err::<ByzantineCheckPlan, ByzantineError>(ByzantineError::ProofDecode)
            <==> !spec_valid_header_bytes(message.consensus_proof@),
        r == Err::<ByzantineCheckPlan, ByzantineError>(ByzantineError::HeightOverflow)
            <==> spec_valid_header_bytes(message.consensus_proof@)
            && le_value(spec_decode_header(message.consensus_proof@).number) >= height_limit(),
        r is Ok <==> spec_plan_ok(message.consensus_proof@),
        r matches Ok(plan) ==> {
            &&& plan.height.id == local
            &&& plan.height.height as nat == le_value(
                spec_decode_header(message.consensus_proof@).number,
            )
            &&& plan.finalized_root@ == spec_decode_header(message.consensus_proof@).state_root
            &&& plan.finalized_root.wf()
        },
{
    let header = match decode_header(&message.consensus_proof) {
        Some(h) => h,
        None => {
            return Err(ByzantineError::ProofDecode);
        },
    };
    let height = match header.number.try_to_u64() {
        Some(n) => n,
        None => {
            return Err(ByzantineError::HeightOverflow);
        },
    };
    Ok(
        ByzantineCheckPlan {
            height: StateMachineHeight { id: local, height },
            finalized_root: header.state_root,
        },
    )
}

/// Second audit phase, on the commitment the counterparty returned: compare
/// the roots byte for byte and name the machine to freeze on any mismatch.
pub fn resolve_byzantine_check(plan: &ByzantineCheckPlan, commitment: &StateMachineCommitment)
    -> (o: ByzantineOutcome)
    ensures
        o == spec_verdict(plan.height.id, plan.finalized_root@, commitment.state_root@),
{
    if eq_bytes(&plan.finalized_root.bytes, &commitment.state_root.bytes) {
        ByzantineOutcome::NoFraud
    } else {
        ByzantineOutcome::FreezeRequired(plan.height.id)
    }
}

/// Second audit phase when the counterparty's answer may be empty: a missing
/// commitment is reported as a query failure, and no verdict — in
/// particular no freeze — is derived from it.
pub fn audit_queried_commitment(plan: &ByzantineCheckPlan, queried: &Option<
    StateMachineCommitment,
>) -> (r: Result<ByzantineOutcome, ByzantineError>)
    ensures
        r is Err <==> queried is None,
        r == Err::<ByzantineOutcome, ByzantineError>(ByzantineError::MissingCommitment)
            <==> queried is None,
        queried matches Some(c) ==> r == Ok::<ByzantineOutcome, ByzantineError>(
            spec_verdict(plan.height.id, plan.finalized_root@, c.state_root@),
        ),
{
    match queried {
        Some(commitment) => Ok(resolve_byzantine_check(plan, commitment)),
        None => Err(ByzantineError::MissingCommitment),
    }
}

/// A header whose root matches the committed root is never frozen: the
/// detector has no false positives on agreeing state.
pub proof fn lemma_matching_roots_no_freeze(
    id: StateMachineId,
    claimed: Seq<u8>,
    committed: Seq<u8>,
)
    requires
        claimed == committed,
    ensures
        spec_verdict(id, claimed, committed) == ByzantineOutcome::NoFraud,
{
}

/// Any difference between the claimed and the committed root — a single
/// differing byte at any position suffices — makes the verdict a freeze of
/// exactly the audited state machine.
pub proof fn lemma_differing_roots_freeze(
    id: StateMachineId,
    claimed: Seq<u8>,
    committed: Seq<u8>,
    i: int,
)
    requires
        0 <= i < claimed.len(),
        i < committed.len(),
        claimed[i] != committed[i],
    ensures
        spec_verdict(id, claimed, committed) == ByzantineOutcome::FreezeRequired(id),
{
    assert(claimed != committed);
}

/// A message emitted for a header is audited back to exactly that header:
/// a number representable in 64 bits round-trips into the queried height
/// with nothing lost, and a wider number makes the audit refuse the proof
/// outright rather than truncate it.
pub proof fn lemma_emitted_message_audited_exactly(h: HeaderView)
    requires
        h.number.len() == WORD_WIDTH,
        h.state_root.len() == WORD_WIDTH,
    ensures
        spec_valid_header_bytes(spec_encode_header(h)),
        spec_decode_header(spec_encode_header(h)) == h,
        spec_plan_ok(spec_encode_header(h)) <==> le_value(h.number) < height_limit(),
{
    lemma_header_codec_roundtrip(h);
}

} // verus!
