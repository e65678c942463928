//! Protocol data model: state machines, commitments, headers and the
//! consensus-message envelope.

use vstd::prelude::*;

verus! {

use crate::words::{H256, U256};

/// Identifies a state machine (a chain) as tracked under a specific
/// consensus client instance.
#[derive(Clone, Copy, Debug, PartialEq, Eq, Structural)]
pub struct StateMachineId {
    /// The chain-native identifier of the state machine.
    pub state_id: u64,
    /// The consensus client instance the machine is tracked under.
    pub consensus_state_id: u32,
}

/// A point at which a commitment may exist: a state machine at a height.
#[derive(Clone, Copy, Debug, PartialEq, Eq, Structural)]
pub struct StateMachineHeight {
    /// The state machine.
    pub id: StateMachineId,
    /// The block height.
    pub height: u64,
}

/// A commitment previously accepted by the counterparty for some
/// [`StateMachineHeight`]. The core only reads it; the `timestamp` field is
/// carried but never interpreted here.
#[derive(Clone, Debug, PartialEq, Eq)]
pub struct StateMachineCommitment {
    /// The committed state root.
    pub state_root: H256,
    /// When the commitment was accepted; not interpreted by the core.
    pub timestamp: u64,
}

impl StateMachineCommitment {
    /// Well-formed: the root is a full digest.
    pub open spec fn wf(&self) -> bool {
        self.state_root.wf()
    }
}

/// A source-chain block header, as far as the core reads it: its height and
/// its state root.
#[derive(Clone, Debug, PartialEq, Eq)]
pub struct Header {
    /// Block number, in the chain's native 256-bit width.
    pub number: U256,
    /// Root of the chain state at this block.
    pub state_root: H256,
}

/// The ghost shape of a [`Header`]: both fields as byte strings.
#[verifier::ext_equal]
pub ghost struct HeaderView {
    /// Little-endian bytes of the block number.
    pub number: Seq<u8>,
    /// Bytes of the state root.
    pub state_root: Seq<u8>,
}

impl View for Header {
    type V = HeaderView;

    open spec fn view(&self) -> HeaderView {
        HeaderView { number: self.number@, state_root: self.state_root@ }
    }
}

impl Header {
    /// Well-formed: both fields have their full width.
    pub open spec fn wf(&self) -> bool {
        self.number.wf() && self.state_root.wf()
    }
}

/// The canonical envelope carrying an opaque proof of a finalized header
/// across the trust boundary between chains.
#[derive(Clone, Debug, PartialEq, Eq)]
pub struct ConsensusMessage {
    /// Chain-specific encoding of the finalized header.
    pub consensus_proof: Vec<u8>,
    /// The consensus client instance the proof belongs to.
    pub consensus_state_id: u32,
}

/// The bootstrap record for a consensus client: the initial verified
/// snapshot together with the protocol's timing constants.
#[derive(Clone, Debug, PartialEq, Eq)]
pub struct CreateConsensusState {
    /// Opaque bytes of the initial on-chain consensus snapshot.
    pub consensus_state: Vec<u8>,
    /// Which consensus client kind the snapshot belongs to.
    pub consensus_client_id: u32,
    /// The consensus client instance being provisioned.
    pub consensus_state_id: u32,
    /// How long, in seconds, an exiting validator remains slashable.
    pub unbonding_period: u64,
    /// How long, in seconds, a submitted update may be challenged.
    pub challenge_period: u64,
    /// Commitments to seed the client with; none at bootstrap.
    pub state_machine_commitments: Vec<StateMachineHeight>,
}

/// A counterparty-side notification that a state machine reached a new
/// finalized height.
#[derive(Clone, Copy, Debug, PartialEq, Eq, Structural)]
pub struct StateMachineUpdated {
    /// The state machine that advanced.
    pub state_machine_id: StateMachineId,
    /// Its latest finalized height.
    pub latest_height: u64,
}

} // verus!
