//! Host parameter store: the per-chain configuration record and its sparse,
//! order-independent update semantics.
//!
//! Every list field is capacity-bounded; a list beyond the bound is
//! unconstructible, so the bound is enforced before any record reaches the
//! encoder.

use vstd::prelude::*;

verus! {

use crate::words::{H160, U256};

/// Most entries a whitelist field may hold.
pub const MAX_LIST_LEN: usize = 1000;

/// A vector that never holds more than [`MAX_LIST_LEN`] entries: every way
/// of building one enforces the bound.
#[derive(Clone, Debug, PartialEq, Eq)]
pub struct BoundedVec<T> {
    items: Vec<T>,
}

impl<T> View for BoundedVec<T> {
    type V = Seq<T>;

    closed spec fn view(&self) -> Seq<T> {
        self.items@
    }
}

impl<T> BoundedVec<T> {
    /// Well-formed: within the bound. Constructors establish this and
    /// methods preserve it.
    pub open spec fn wf(&self) -> bool {
        self@.len() <= MAX_LIST_LEN
    }

    /// The empty list.
    pub fn new() -> (r: BoundedVec<T>)
        ensures
            r.wf(),
            r@ == Seq::<T>::empty(),
    {
        let r = BoundedVec { items: Vec::new() };
        proof {
            assert(r@ =~= Seq::<T>::empty());
        }
        r
    }

    /// Take ownership of a plain vector; refused — with the vector handed
    /// back untouched — exactly when it exceeds the bound.
    pub fn try_from_vec(items: Vec<T>) -> (r: Result<BoundedVec<T>, Vec<T>>)
        ensures
            r is Ok <==> items@.len() <= MAX_LIST_LEN,
            r matches Ok(b) ==> b.wf() && b@ == items@,
            r matches Err(v) ==> v@ == items@,
    {
        if items.len() <= MAX_LIST_LEN {
            Ok(BoundedVec { items })
        } else {
            Err(items)
        }
    }

    /// Append one entry; refused — with the entry handed back — exactly
    /// when the list is already at the bound.
    pub fn try_push(&mut self, t: T) -> (r: Result<(), T>)
        requires
            old(self).wf(),
        ensures
            final(self).wf(),
            r is Ok <==> old(self)@.len() < MAX_LIST_LEN,
            r is Ok ==> final(self)@ == old(self)@.push(t),
            r matches Err(back) ==> back == t && final(self)@ == old(self)@,
    {
        if self.items.len() < MAX_LIST_LEN {
            self.items.push(t);
            Ok(())
        } else {
            Err(t)
        }
    }

    /// How many entries the list holds.
    pub fn len(&self) -> (n: usize)
        ensures
            n == self@.len(),
    {
        self.items.len()
    }

    /// The entry at position `i`.
    pub fn get(&self, i: usize) -> (t: &T)
        requires
            i < self@.len(),
        ensures
            *t == self@[i as int],
    {
        &self.items[i]
    }
}

impl<T: Copy> BoundedVec<T> {
    /// The entries as a plain vector.
    pub fn to_vec(&self) -> (r: Vec<T>)
        ensures
            r@ == self@,
    {
        let mut r: Vec<T> = Vec::new();
        let mut i: usize = 0;
        while i < self.items.len()
            invariant
                i <= self@.len(),
                r@ == self@.subrange(0, i as int),
            decreases self@.len() - i,
        {
            r.push(self.items[i]);
            i = i + 1;
            proof {
                assert(r@ =~= self@.subrange(0, i as int));
            }
        }
        proof {
            assert(self@.subrange(0, self@.len() as int) =~= self@);
        }
        r
    }
}

/// The configuration record of an EVM-based host.
#[derive(Clone, Debug, PartialEq, Eq)]
pub struct EvmHostParam {
    /// Minimum request timeout, in seconds.
    pub default_timeout: u128,
    /// Fee charged per byte of a cross-chain request.
    pub per_byte_fee: U256,
    /// Fee for reading the verified state commitments directly.
    pub state_commitment_fee: U256,
    /// The fee token contract.
    pub fee_token: H160,
    /// The admin account.
    pub admin: H160,
    /// The request/response handler contract.
    pub handler: H160,
    /// The authorized host manager contract.
    pub host_manager: H160,
    /// The local swap-router contract for fee-token conversion.
    pub uniswap_v2: H160,
    /// Unstaking period, in seconds.
    pub un_staking_period: u128,
    /// Configured challenge period, in seconds.
    pub challenge_period: u128,
    /// The consensus client contract.
    pub consensus_client: H160,
    /// Whitelisted state machines.
    pub state_machines: BoundedVec<u32>,
    /// Whitelisted fishermen accounts.
    pub fishermen: BoundedVec<H160>,
    /// Chain identifier bytes of the coordinating chain.
    pub hyperbridge: BoundedVec<u8>,
}

/// The ghost shape of an [`EvmHostParam`]: every field as a plain value.
#[verifier::ext_equal]
pub ghost struct EvmHostParamView {
    pub default_timeout: u128,
    pub per_byte_fee: Seq<u8>,
    pub state_commitment_fee: Seq<u8>,
    pub fee_token: Seq<u8>,
    pub admin: Seq<u8>,
    pub handler: Seq<u8>,
    pub host_manager: Seq<u8>,
    pub uniswap_v2: Seq<u8>,
    pub un_staking_period: u128,
    pub challenge_period: u128,
    pub consensus_client: Seq<u8>,
    pub state_machines: Seq<u32>,
    pub fishermen: Seq<Seq<u8>>,
    pub hyperbridge: Seq<u8>,
}

impl View for EvmHostParam {
    type V = EvmHostParamView;

    open spec fn view(&self) -> EvmHostParamView {
        EvmHostParamView {
            default_timeout: self.default_timeout,
            per_byte_fee: self.per_byte_fee@,
            state_commitment_fee: self.state_commitment_fee@,
            fee_token: self.fee_token@,
            admin: self.admin@,
            handler: self.handler@,
            host_manager: self.host_manager@,
            uniswap_v2: self.uniswap_v2@,
            un_staking_period: self.un_staking_period,
            challenge_period: self.challenge_period,
            consensus_client: self.consensus_client@,
            state_machines: self.state_machines@,
            fishermen: self.fishermen@.map_values(|a: H160| a@),
            hyperbridge: self.hyperbridge@,
        }
    }
}

impl EvmHostParam {
    /// Well-formed: every word and address has its full width and every
    /// list is within its bound.
    pub open spec fn wf(&self) -> bool {
        &&& self.per_byte_fee.wf()
        &&& self.state_commitment_fee.wf()
        &&& self.fee_token.wf()
        &&& self.admin.wf()
        &&& self.handler.wf()
        &&& self.host_manager.wf()
        &&& self.uniswap_v2.wf()
        &&& self.consensus_client.wf()
        &&& self.state_machines.wf()
        &&& self.fishermen.wf()
        &&& (forall|i: int|
            0 <= i < self.fishermen@.len() ==> (#[trigger] self.fishermen@[i]).wf())
        &&& self.hyperbridge.wf()
    }

    /// Overwrite exactly the fields the patch carries; absent fields are
    /// left untouched.
    #[verifier::rlimit(50)]
    pub fn update(&mut self, update: EvmHostParamUpdate)
        ensures
            final(self)@ == spec_apply_update(old(self)@, update@),
            old(self).wf() && update.wf() ==> final(self).wf(),
    {
        let EvmHostParamUpdate {
            default_timeout,
            per_byte_fee,
            fee_token,
            state_commitment_fee,
            admin,
            handler,
            host_manager,
            uniswap_v2,
            un_staking_period,
            challenge_period,
            consensus_client,
            state_machines,
            fishermen,
            hyperbridge,
        } = update;
        if let Some(v) = default_timeout {
            self.default_timeout = v;
        }
        if let Some(v) = per_byte_fee {
            self.per_byte_fee = v;
        }
        if let Some(v) = state_commitment_fee {
            self.state_commitment_fee = v;
        }
        if let Some(v) = uniswap_v2 {
            self.uniswap_v2 = v;
        }
        if let Some(v) = fee_token {
            self.fee_token = v;
        }
        if let Some(v) = admin {
            self.admin = v;
        }
        if let Some(v) = handler {
            self.handler = v;
        }
        if let Some(v) = host_manager {
            self.host_manager = v;
        }
        if let Some(v) = un_staking_period {
            self.un_staking_period = v;
        }
        if let Some(v) = challenge_period {
            self.challenge_period = v;
        }
        if let Some(v) = consensus_client {
            self.consensus_client = v;
        }
        if let Some(v) = state_machines {
            self.state_machines = v;
        }
        if let Some(v) = fishermen {
            self.fishermen = v;
        }
        if let Some(v) = hyperbridge {
            self.hyperbridge = v;
        }
        proof {
            assert(self@ =~= spec_apply_update(old(self)@, update@));
        }
    }
}

/// A sparse patch: the same shape as [`EvmHostParam`] with every field
/// optional. A patch with all fields absent is a no-op.
#[derive(Clone, Debug, PartialEq, Eq)]
pub struct EvmHostParamUpdate {
    /// Minimum request timeout, in seconds.
    pub default_timeout: Option<u128>,
    /// Fee charged per byte of a cross-chain request.
    pub per_byte_fee: Option<U256>,
    /// The fee token contract; drain the old token before changing it.
    pub fee_token: Option<H160>,
    /// Fee for reading the verified state commitments directly.
    pub state_commitment_fee: Option<U256>,
    /// The admin account.
    pub admin: Option<H160>,
    /// The request/response handler contract.
    pub handler: Option<H160>,
    /// The authorized host manager contract.
    pub host_manager: Option<H160>,
    /// The local swap-router contract for fee-token conversion.
    pub uniswap_v2: Option<H160>,
    /// Unstaking period, in seconds.
    pub un_staking_period: Option<u128>,
    /// Configured challenge period, in seconds.
    pub challenge_period: Option<u128>,
    /// The consensus client contract.
    pub consensus_client: Option<H160>,
    /// Whitelisted state machines.
    pub state_machines: Option<BoundedVec<u32>>,
    /// Whitelisted fishermen accounts.
    pub fishermen: Option<BoundedVec<H160>>,
    /// Chain identifier bytes of the coordinating chain.
    pub hyperbridge: Option<BoundedVec<u8>>,
}

/// The ghost shape of an [`EvmHostParamUpdate`].
#[verifier::ext_equal]
pub ghost struct EvmHostParamUpdateView {
    pub default_timeout: Option<u128>,
    pub per_byte_fee: Option<Seq<u8>>,
    pub fee_token: Option<Seq<u8>>,
    pub state_commitment_fee: Option<Seq<u8>>,
    pub admin: Option<Seq<u8>>,
    pub handler: Option<Seq<u8>>,
    pub host_manager: Option<Seq<u8>>,
    pub uniswap_v2: Option<Seq<u8>>,
    pub un_staking_period: Option<u128>,
    pub challenge_period: Option<u128>,
    pub consensus_client: Option<Seq<u8>>,
    pub state_machines: Option<Seq<u32>>,
    pub fishermen: Option<Seq<Seq<u8>>>,
    pub hyperbridge: Option<Seq<u8>>,
}

impl View for EvmHostParamUpdate {
    type V = EvmHostParamUpdateView;

    open spec fn view(&self) -> EvmHostParamUpdateView {
        EvmHostParamUpdateView {
            default_timeout: self.default_timeout,
            per_byte_fee: match self.per_byte_fee {
                Some(v) => Some(v@),
                None => None,
            },
            fee_token: match self.fee_token {
                Some(v) => Some(v@),
                None => None,
            },
            state_commitment_fee: match self.state_commitment_fee {
                Some(v) => Some(v@),
                None => None,
            },
            admin: match self.admin {
                Some(v) => Some(v@),
                None => None,
            },
            handler: match self.handler {
                Some(v) => Some(v@),
                None => None,
            },
            host_manager: match self.host_manager {
                Some(v) => Some(v@),
                None => None,
            },
            uniswap_v2: match self.uniswap_v2 {
                Some(v) => Some(v@),
                None => None,
            },
            un_staking_period: self.un_staking_period,
            challenge_period: self.challenge_period,
            consensus_client: match self.consensus_client {
                Some(v) => Some(v@),
                None => None,
            },
            state_machines: match self.state_machines {
                Some(v) => Some(v@),
                None => None,
            },
            fishermen: match self.fishermen {
                Some(v) => Some(v@.map_values(|a: H160| a@)),
                None => None,
            },
            hyperbridge: match self.hyperbridge {
                Some(v) => Some(v@),
                None => None,
            },
        }
    }
}

impl EvmHostParamUpdate {
    /// The patch with every field absent.
    pub fn none() -> (r: EvmHostParamUpdate)
        ensures
            spec_empty_update(r@),
    {
        EvmHostParamUpdate {
            default_timeout: None,
            per_byte_fee: None,
            fee_token: None,
            state_commitment_fee: None,
            admin: None,
            handler: None,
            host_manager: None,
            uniswap_v2: None,
            un_staking_period: None,
            challenge_period: None,
            consensus_client: None,
            state_machines: None,
            fishermen: None,
            hyperbridge: None,
        }
    }

    /// Well-formed: every field the patch carries is itself well-formed.
    pub open spec fn wf(&self) -> bool {
        &&& (self.per_byte_fee matches Some(v) ==> v.wf())
        &&& (self.state_commitment_fee matches Some(v) ==> v.wf())
        &&& (self.fee_token matches Some(v) ==> v.wf())
        &&& (self.admin matches Some(v) ==> v.wf())
        &&& (self.handler matches Some(v) ==> v.wf())
        &&& (self.host_manager matches Some(v) ==> v.wf())
        &&& (self.uniswap_v2 matches Some(v) ==> v.wf())
        &&& (self.consensus_client matches Some(v) ==> v.wf())
        &&& (self.state_machines matches Some(v) ==> v.wf())
        &&& (self.fishermen matches Some(v) ==> v.wf() && (forall|i: int|
            0 <= i < v@.len() ==> (#[trigger] v@[i]).wf()))
        &&& (self.hyperbridge matches Some(v) ==> v.wf())
    }
}

/// The record a patch turns a base record into: present fields replaced
/// simultaneously, absent fields untouched.
pub open spec fn spec_apply_update(
    base: EvmHostParamView,
    patch: EvmHostParamUpdateView,
) -> EvmHostParamView {
    EvmHostParamView {
        default_timeout: match patch.default_timeout {
            Some(v) => v,
            None => base.default_timeout,
        },
        per_byte_fee: match patch.per_byte_fee {
            Some(v) => v,
            None => base.per_byte_fee,
        },
        state_commitment_fee: match patch.state_commitment_fee {
            Some(v) => v,
            None => base.state_commitment_fee,
        },
        fee_token: match patch.fee_token {
            Some(v) => v,
            None => base.fee_token,
        },
        admin: match patch.admin {
            Some(v) => v,
            None => base.admin,
        },
        handler: match patch.handler {
            Some(v) => v,
            None => base.handler,
        },
        host_manager: match patch.host_manager {
            Some(v) => v,
            None => base.host_manager,
        },
        uniswap_v2: match patch.uniswap_v2 {
            Some(v) => v,
            None => base.uniswap_v2,
        },
        un_staking_period: match patch.un_staking_period {
            Some(v) => v,
            None => base.un_staking_period,
        },
        challenge_period: match patch.challenge_period {
            Some(v) => v,
            None => base.challenge_period,
        },
        consensus_client: match patch.consensus_client {
            Some(v) => v,
            None => base.consensus_client,
        },
        state_machines: match patch.state_machines {
            Some(v) => v,
            None => base.state_machines,
        },
        fishermen: match patch.fishermen {
            Some(v) => v,
            None => base.fishermen,
        },
        hyperbridge: match patch.hyperbridge {
            Some(v) => v,
            None => base.hyperbridge,
        },
    }
}

/// Whether a patch carries no field at all.
pub open spec fn spec_empty_update(patch: EvmHostParamUpdateView) -> bool {
    &&& patch.default_timeout is None
    &&& patch.per_byte_fee is None
    &&& patch.fee_token is None
    &&& patch.state_commitment_fee is None
    &&& patch.admin is None
    &&& patch.handler is None
    &&& patch.host_manager is None
    &&& patch.uniswap_v2 is None
    &&& patch.un_staking_period is None
    &&& patch.challenge_period is None
    &&& patch.consensus_client is None
    &&& patch.state_machines is None
    &&& patch.fishermen is None
    &&& patch.hyperbridge is None
}

/// A patch with all fields absent leaves any record exactly as it was: the
/// no-op law of sparse updates.
pub proof fn lemma_empty_update_is_noop(base: EvmHostParamView, patch: EvmHostParamUpdateView)
    requires
        spec_empty_update(patch),
    ensures
        spec_apply_update(base, patch) == base,
{
    assert(spec_apply_update(base, patch) =~= base);
}

/// Applying a patch touches each field independently: the merged record is
/// exactly the base record with the present fields replaced, so the order
/// in which fields of one patch are written does not matter.
pub proof fn lemma_update_field_independence(
    base: EvmHostParamView,
    patch: EvmHostParamUpdateView,
)
    ensures
        spec_apply_update(base, patch).default_timeout == (match patch.default_timeout {
            Some(v) => v,
            None => base.default_timeout,
        }),
        spec_apply_update(base, patch).per_byte_fee == (match patch.per_byte_fee {
            Some(v) => v,
            None => base.per_byte_fee,
        }),
        spec_apply_update(base, patch).admin == (match patch.admin {
            Some(v) => v,
            None => base.admin,
        }),
        spec_apply_update(base, patch).fishermen == (match patch.fishermen {
            Some(v) => v,
            None => base.fishermen,
        }),
{
}

/// Whether two patches touch no field in common.
pub open spec fn spec_disjoint_updates(
    a: EvmHostParamUpdateView,
    b: EvmHostParamUpdateView,
) -> bool {
    &&& !(a.default_timeout is Some && b.default_timeout is Some)
    &&& !(a.per_byte_fee is Some && b.per_byte_fee is Some)
    &&& !(a.fee_token is Some && b.fee_token is Some)
    &&& !(a.state_commitment_fee is Some && b.state_commitment_fee is Some)
    &&& !(a.admin is Some && b.admin is Some)
    &&& !(a.handler is Some && b.handler is Some)
    &&& !(a.host_manager is Some && b.host_manager is Some)
    &&& !(a.uniswap_v2 is Some && b.uniswap_v2 is Some)
    &&& !(a.un_staking_period is Some && b.un_staking_period is Some)
    &&& !(a.challenge_period is Some && b.challenge_period is Some)
    &&& !(a.consensus_client is Some && b.consensus_client is Some)
    &&& !(a.state_machines is Some && b.state_machines is Some)
    &&& !(a.fishermen is Some && b.fishermen is Some)
    &&& !(a.hyperbridge is Some && b.hyperbridge is Some)
}

/// Patches that touch no field in common may land in either order: each
/// field of the merged record depends only on the one patch that carries
/// it, so updates are independent field by field.
pub proof fn lemma_disjoint_patches_commute(
    base: EvmHostParamView,
    a: EvmHostParamUpdateView,
    b: EvmHostParamUpdateView,
)
    requires
        spec_disjoint_updates(a, b),
    ensures
        spec_apply_update(spec_apply_update(base, a), b) == spec_apply_update(
            spec_apply_update(base, b),
            a,
        ),
{
    assert(spec_apply_update(spec_apply_update(base, a), b) =~= spec_apply_update(
        spec_apply_update(base, b),
        a,
    ));
}

/// The host parameters of a connected chain, by host family.
#[derive(Clone, Debug, PartialEq, Eq)]
pub enum HostParam<T> {
    /// Parameters of a substrate-based host.
    SubstrateHostParam(VersionedHostParams<T>),
    /// Parameters of an EVM-based host.
    EvmHostParam(EvmHostParam),
}

/// A sparse parameter patch for a connected chain, by host family.
#[derive(Clone, Debug, PartialEq, Eq)]
pub enum HostParamUpdate<T> {
    /// A replacement record for a substrate-based host.
    SubstrateHostParam(VersionedHostParams<T>),
    /// A sparse patch for an EVM-based host.
    EvmHostParam(EvmHostParamUpdate),
}

/// A versioned parameter record for substrate-based hosts; the version tag
/// keeps decoding stable across runtime upgrades.
#[derive(Clone, Debug, PartialEq, Eq)]
pub enum VersionedHostParams<T> {
    /// The first and only version so far.
    V1(T),
}

} // verus!
