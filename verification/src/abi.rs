//! Canonical wire form of the host parameters: a discriminant byte followed
//! by a fixed-order ABI-encoded tuple.
//!
//! The layout is the standard EVM ABI encoding of the tuple: one 32-byte
//! head word per field — numbers big-endian, addresses left-padded, the
//! three dynamic fields as offsets into the tail — then the tails, each a
//! length word followed by its elements, dynamic bytes zero-padded to a
//! whole number of words. Reordering any field breaks on-chain decoding, so
//! the byte layout is pinned down here once, in [`spec_abi_bytes`].

use vstd::prelude::*;

verus! {

use vstd::arithmetic::power::{lemma_pow_increases, pow};
use crate::params::{
    spec_apply_update, EvmHostParam, EvmHostParamUpdateView, EvmHostParamView, MAX_LIST_LEN,
};
use crate::words::{
    copy_range, le_value, lemma_le_value_bound, lemma_le_value_digit, lemma_pow256_values,
    H160, U256, ADDRESS_WIDTH, WORD_WIDTH,
};

/// Leading discriminant byte naming the host-parameter payload among the
/// sibling payload kinds the downstream dispatcher understands.
pub const HOST_PARAMS_DISCRIMINANT: u8 = 1;

/// Byte length of the fourteen-word head of the tuple.
pub const ABI_HEAD_LEN: usize = 448;

/// A byte string of `n` zeroes.
pub open spec fn spec_zeros(n: nat) -> Seq<u8> {
    Seq::new(n, |i: int| 0u8)
}

/// The 32-byte big-endian word holding the number `v`.
pub open spec fn spec_word(v: nat) -> Seq<u8> {
    Seq::new(32, |i: int| ((v as int / pow(256, (31 - i) as nat)) % 256) as u8)
}

/// The 32-byte word holding an address, left-padded with zeroes.
pub open spec fn spec_address_word(a: Seq<u8>) -> Seq<u8> {
    spec_zeros(12) + a
}

/// One word per number, in order.
pub open spec fn spec_number_words(xs: Seq<nat>) -> Seq<u8>
    decreases xs.len(),
{
    if xs.len() == 0 {
        Seq::empty()
    } else {
        spec_number_words(xs.drop_last()) + spec_word(xs.last())
    }
}

/// One word per address, in order.
pub open spec fn spec_address_words(xs: Seq<Seq<u8>>) -> Seq<u8>
    decreases xs.len(),
{
    if xs.len() == 0 {
        Seq::empty()
    } else {
        spec_address_words(xs.drop_last()) + spec_address_word(xs.last())
    }
}

/// How many zeroes bring `n` bytes to a whole number of words.
pub open spec fn spec_pad_len(n: nat) -> nat {
    (((32 - (n as int % 32)) % 32) as nat)
}

/// Dynamic bytes, zero-padded on the right to a whole number of words.
pub open spec fn spec_padded_bytes(b: Seq<u8>) -> Seq<u8> {
    b + spec_zeros(spec_pad_len(b.len()))
}

/// Append `n` zero bytes.
fn push_zeros(out: &mut Vec<u8>, n: usize)
    ensures
        final(out)@ == old(out)@ + spec_zeros(n as nat),
{
    let mut i: usize = 0;
    while i < n
        invariant
            i <= n,
            out@ == old(out)@ + spec_zeros(i as nat),
        decreases n - i,
    {
        out.push(0);
        i = i + 1;
        proof {
            assert(out@ =~= old(out)@ + spec_zeros(i as nat));
        }
    }
}

/// Append a byte string as it stands.
fn push_bytes(out: &mut Vec<u8>, src: &Vec<u8>)
    ensures
        final(out)@ == old(out)@ + src@,
{
    let mut i: usize = 0;
    while i < src.len()
        invariant
            i <= src@.len(),
            out@ == old(out)@ + src@.subrange(0, i as int),
        decreases src@.len() - i,
    {
        out.push(src[i]);
        i = i + 1;
        proof {
            assert(out@ =~= old(out)@ + src@.subrange(0, i as int));
        }
    }
    proof {
        assert(src@.subrange(0, src@.len() as int) =~= src@);
    }
}

/// Append the big-endian word of a 256-bit value: its little-endian bytes
/// reversed.
fn push_word_u256(out: &mut Vec<u8>, w: &U256)
    requires
        w.wf(),
    ensures
        final(out)@ == old(out)@ + spec_word(w.value()),
{
    let mut i: usize = 0;
    while i < WORD_WIDTH
        invariant
            i <= WORD_WIDTH,
            w.wf(),
            out@ == old(out)@ + Seq::new(i as nat, |t: int| w@[31 - t]),
        decreases WORD_WIDTH - i,
    {
        out.push(w.bytes[WORD_WIDTH - 1 - i]);
        i = i + 1;
        proof {
            assert(out@ =~= old(out)@ + Seq::new(i as nat, |t: int| w@[31 - t]));
        }
    }
    proof {
        let built = Seq::new(32, |t: int| w@[31 - t]);
        assert forall|t: int| 0 <= t < 32 implies built[t] == spec_word(w.value())[t] by {
            lemma_le_value_digit(w@, 31 - t);
        }
        assert(built =~= spec_word(w.value()));
    }
}

/// Append the word of a 64-bit value: twenty-four zeroes, then its eight
/// big-endian bytes.
fn push_word_u64(out: &mut Vec<u8>, x: u64)
    ensures
        final(out)@ == old(out)@ + spec_word(x as nat),
{
    push_zeros(out, 24);
    out.push((x / 0x100000000000000 % 256) as u8);
    out.push((x / 0x1000000000000 % 256) as u8);
    out.push((x / 0x10000000000 % 256) as u8);
    out.push((x / 0x100000000 % 256) as u8);
    out.push((x / 0x1000000 % 256) as u8);
    out.push((x / 0x10000 % 256) as u8);
    out.push((x / 0x100 % 256) as u8);
    out.push((x % 256) as u8);
    proof {
        lemma_pow256_values();
        let word = spec_word(x as nat);
        assert forall|t: int| 0 <= t < 24 implies word[t] == 0u8 by {
            lemma_pow_increases(256, 8, (31 - t) as nat);
            vstd::arithmetic::div_mod::lemma_basic_div(x as int, pow(256, (31 - t) as nat));
        }
        assert(out@ =~= old(out)@ + word);
    }
}

/// Append the word of an address: twelve zeroes, then its twenty bytes.
fn push_address_word(out: &mut Vec<u8>, a: &H160)
    requires
        a.wf(),
    ensures
        final(out)@ == old(out)@ + spec_address_word(a@),
{
    push_zeros(out, 12);
    push_bytes(out, &a.bytes);
}

/// The host parameters in wire shape: numeric fields widened to 256-bit
/// words, ready for ABI encoding.
#[derive(Clone, Debug, PartialEq, Eq)]
pub struct EvmHostParamsAbi {
    /// Minimum request timeout, in seconds.
    pub default_timeout: U256,
    /// Fee charged per byte of a cross-chain request.
    pub per_byte_fee: U256,
    /// Fee for reading the verified state commitments directly.
    pub state_commitment_fee: U256,
    /// The fee token contract.
    pub fee_token: H160,
    /// The admin account.
    pub admin: H160,
    /// The request/response handler contract.
    pub handler: H160,
    /// The authorized host manager contract.
    pub host_manager: H160,
    /// The local swap-router contract for fee-token conversion.
    pub uniswap_v2: H160,
    /// Unstaking period, in seconds.
    pub un_staking_period: U256,
    /// Configured challenge period, in seconds.
    pub challenge_period: U256,
    /// The consensus client contract.
    pub consensus_client: H160,
    /// Whitelisted state machines, each widened to a word.
    pub state_machines: Vec<U256>,
    /// Whitelisted fishermen accounts.
    pub fishermen: Vec<H160>,
    /// Chain identifier bytes of the coordinating chain.
    pub hyperbridge: Vec<u8>,
}

/// The ghost shape of [`EvmHostParamsAbi`]: numbers as numbers, addresses
/// and dynamic bytes as byte strings.
#[verifier::ext_equal]
pub ghost struct AbiView {
    pub default_timeout: nat,
    pub per_byte_fee: nat,
    pub state_commitment_fee: nat,
    pub fee_token: Seq<u8>,
    pub admin: Seq<u8>,
    pub handler: Seq<u8>,
    pub host_manager: Seq<u8>,
    pub uniswap_v2: Seq<u8>,
    pub un_staking_period: nat,
    pub challenge_period: nat,
    pub consensus_client: Seq<u8>,
    pub state_machines: Seq<nat>,
    pub fishermen: Seq<Seq<u8>>,
    pub hyperbridge: Seq<u8>,
}

impl View for EvmHostParamsAbi {
    type V = AbiView;

    open spec fn view(&self) -> AbiView {
        AbiView {
            default_timeout: self.default_timeout.value(),
            per_byte_fee: self.per_byte_fee.value(),
            state_commitment_fee: self.state_commitment_fee.value(),
            fee_token: self.fee_token@,
            admin: self.admin@,
            handler: self.handler@,
            host_manager: self.host_manager@,
            uniswap_v2: self.uniswap_v2@,
            un_staking_period: self.un_staking_period.value(),
            challenge_period: self.challenge_period.value(),
            consensus_client: self.consensus_client@,
            state_machines: self.state_machines@.map_values(|w: U256| w.value()),
            fishermen: self.fishermen@.map_values(|a: H160| a@),
            hyperbridge: self.hyperbridge@,
        }
    }
}

impl EvmHostParamsAbi {
    /// Well-formed: full-width words and addresses, lists within the
    /// whitelist bound.
    pub open spec fn wf(&self) -> bool {
        &&& self.default_timeout.wf()
        &&& self.per_byte_fee.wf()
        &&& self.state_commitment_fee.wf()
        &&& self.fee_token.wf()
        &&& self.admin.wf()
        &&& self.handler.wf()
        &&& self.host_manager.wf()
        &&& self.uniswap_v2.wf()
        &&& self.un_staking_period.wf()
        &&& self.challenge_period.wf()
        &&& self.consensus_client.wf()
        &&& self.state_machines@.len() <= MAX_LIST_LEN
        &&& (forall|i: int|
            0 <= i < self.state_machines@.len() ==> (#[trigger] self.state_machines@[i]).wf())
        &&& self.fishermen@.len() <= MAX_LIST_LEN
        &&& (forall|i: int|
            0 <= i < self.fishermen@.len() ==> (#[trigger] self.fishermen@[i]).wf())
        &&& self.hyperbridge@.len() <= MAX_LIST_LEN
    }
}

/// The full ABI encoding of the tuple: fourteen head words — the three
/// dynamic fields as tail offsets — then the three tails in field order.
pub open spec fn spec_abi_bytes(v: AbiView) -> Seq<u8> {
    let sm_off = (ABI_HEAD_LEN as nat);
    let f_off = ((ABI_HEAD_LEN + 32) as nat + 32 * v.state_machines.len());
    let h_off = ((ABI_HEAD_LEN + 64) as nat + 32 * v.state_machines.len() + 32
        * v.fishermen.len());
    spec_word(v.default_timeout) + spec_word(v.per_byte_fee) + spec_word(v.state_commitment_fee)
        + spec_address_word(v.fee_token) + spec_address_word(v.admin) + spec_address_word(
        v.handler,
    ) + spec_address_word(v.host_manager) + spec_address_word(v.uniswap_v2) + spec_word(
        v.un_staking_period,
    ) + spec_word(v.challenge_period) + spec_address_word(v.consensus_client) + spec_word(sm_off)
        + spec_word(f_off) + spec_word(h_off) + spec_word(v.state_machines.len())
        + spec_number_words(v.state_machines) + spec_word(v.fishermen.len()) + spec_address_words(
        v.fishermen,
    ) + spec_word(v.hyperbridge.len()) + spec_padded_bytes(v.hyperbridge)
}

/// Names the field whose internal representation made an encode fail.
#[derive(Clone, Copy, Debug, PartialEq, Eq, Structural)]
pub enum ParamField {
    /// The per-byte fee word.
    PerByteFee,
    /// The state-commitment fee word.
    StateCommitmentFee,
    /// The fee token address.
    FeeToken,
    /// The admin address.
    Admin,
    /// The handler address.
    Handler,
    /// The host manager address.
    HostManager,
    /// The swap-router address.
    UniswapV2,
    /// The consensus client address.
    ConsensusClient,
    /// An entry of the fishermen whitelist.
    Fishermen,
}

/// Whether the named field of a record has its full width.
pub open spec fn spec_field_ok(v: EvmHostParamView, f: ParamField) -> bool {
    match f {
        ParamField::PerByteFee => v.per_byte_fee.len() == WORD_WIDTH,
        ParamField::StateCommitmentFee => v.state_commitment_fee.len() == WORD_WIDTH,
        ParamField::FeeToken => v.fee_token.len() == ADDRESS_WIDTH,
        ParamField::Admin => v.admin.len() == ADDRESS_WIDTH,
        ParamField::Handler => v.handler.len() == ADDRESS_WIDTH,
        ParamField::HostManager => v.host_manager.len() == ADDRESS_WIDTH,
        ParamField::UniswapV2 => v.uniswap_v2.len() == ADDRESS_WIDTH,
        ParamField::ConsensusClient => v.consensus_client.len() == ADDRESS_WIDTH,
        ParamField::Fishermen => forall|i: int|
            0 <= i < v.fishermen.len() ==> (#[trigger] v.fishermen[i]).len() == ADDRESS_WIDTH,
    }
}

/// Whether every field of a record can be laid out on the wire.
pub open spec fn spec_encodable(v: EvmHostParamView) -> bool {
    forall|f: ParamField| #[trigger] spec_field_ok(v, f)
}

/// One malformed field refutes encodability as a whole.
proof fn lemma_field_not_ok(v: EvmHostParamView, f: ParamField)
    requires
        !spec_field_ok(v, f),
    ensures
        !spec_encodable(v),
{
}

/// The wire shape a record converts to: unsigned fields widened, byte
/// fields carried as they stand.
pub open spec fn spec_abi_view_of(v: EvmHostParamView) -> AbiView {
    AbiView {
        default_timeout: v.default_timeout as nat,
        per_byte_fee: le_value(v.per_byte_fee),
        state_commitment_fee: le_value(v.state_commitment_fee),
        fee_token: v.fee_token,
        admin: v.admin,
        handler: v.handler,
        host_manager: v.host_manager,
        uniswap_v2: v.uniswap_v2,
        un_staking_period: v.un_staking_period as nat,
        challenge_period: v.challenge_period as nat,
        consensus_client: v.consensus_client,
        state_machines: v.state_machines.map_values(|x: u32| x as nat),
        fishermen: v.fishermen,
        hyperbridge: v.hyperbridge,
    }
}

impl EvmHostParamsAbi {
    /// Like [`EvmHostParamsAbi::wf`] but without the list bounds, which
    /// conversion alone cannot establish.
    pub open spec fn wf_fields(&self) -> bool {
        &&& self.default_timeout.wf()
        &&& self.per_byte_fee.wf()
        &&& self.state_commitment_fee.wf()
        &&& self.fee_token.wf()
        &&& self.admin.wf()
        &&& self.handler.wf()
        &&& self.host_manager.wf()
        &&& self.uniswap_v2.wf()
        &&& self.un_staking_period.wf()
        &&& self.challenge_period.wf()
        &&& self.consensus_client.wf()
        &&& (forall|i: int|
            0 <= i < self.state_machines@.len() ==> (#[trigger] self.state_machines@[i]).wf())
        &&& (forall|i: int|
            0 <= i < self.fishermen@.len() ==> (#[trigger] self.fishermen@[i]).wf())
    }

    /// Convert a record to wire shape. Succeeds exactly when every field
    /// has its full width; the first failing field aborts the whole
    /// conversion and is named in the error.
    #[verifier::rlimit(50)]
    pub fn try_from(value: EvmHostParam) -> (r: Result<EvmHostParamsAbi, ParamField>)
        ensures
            r is Ok <==> spec_encodable(value@),
            r matches Ok(abi) ==> abi@ == spec_abi_view_of(value@) && abi.wf_fields(),
            r matches Err(f) ==> !spec_field_ok(value@, f),
    {
        if value.per_byte_fee.bytes.len() != WORD_WIDTH {
            proof {
                lemma_field_not_ok(value@, ParamField::PerByteFee);
            }
            return Err(ParamField::PerByteFee);
        }
        if value.state_commitment_fee.bytes.len() != WORD_WIDTH {
            proof {
                lemma_field_not_ok(value@, ParamField::StateCommitmentFee);
            }
            return Err(ParamField::StateCommitmentFee);
        }
        if value.fee_token.bytes.len() != ADDRESS_WIDTH {
            proof {
                lemma_field_not_ok(value@, ParamField::FeeToken);
            }
            return Err(ParamField::FeeToken);
        }
        if value.admin.bytes.len() != ADDRESS_WIDTH {
            proof {
                lemma_field_not_ok(value@, ParamField::Admin);
            }
            return Err(ParamField::Admin);
        }
        if value.handler.bytes.len() != ADDRESS_WIDTH {
            proof {
                lemma_field_not_ok(value@, ParamField::Handler);
            }
            return Err(ParamField::Handler);
        }
        if value.host_manager.bytes.len() != ADDRESS_WIDTH {
            proof {
                lemma_field_not_ok(value@, ParamField::HostManager);
            }
            return Err(ParamField::HostManager);
        }
        if value.uniswap_v2.bytes.len() != ADDRESS_WIDTH {
            proof {
                lemma_field_not_ok(value@, ParamField::UniswapV2);
            }
            return Err(ParamField::UniswapV2);
        }
        if value.consensus_client.bytes.len() != ADDRESS_WIDTH {
            proof {
                lemma_field_not_ok(value@, ParamField::ConsensusClient);
            }
            return Err(ParamField::ConsensusClient);
        }
        let sm_plain = value.state_machines.to_vec();
        let mut state_machines: Vec<U256> = Vec::new();
        let mut i: usize = 0;
        while i < sm_plain.len()
            invariant
                i <= sm_plain@.len(),
                sm_plain@ == value.state_machines@,
                state_machines@.len() == i,
                forall|j: int|
                    0 <= j < i ==> (#[trigger] state_machines@[j]).wf() && state_machines@[j].value()
                        == sm_plain@[j] as nat,
            decreases sm_plain@.len() - i,
        {
            state_machines.push(U256::from_u64(sm_plain[i] as u64));
            i = i + 1;
        }
        let mut fishermen: Vec<H160> = Vec::new();
        let mut k: usize = 0;
        while k < value.fishermen.len()
            invariant
                k <= value.fishermen@.len(),
                fishermen@.len() == k,
                forall|j: int|
                    0 <= j < k ==> (#[trigger] fishermen@[j]).wf() && fishermen@[j]@
                        == value.fishermen@[j]@,
            decreases value.fishermen@.len() - k,
        {
            let a = value.fishermen.get(k);
            if a.bytes.len() != ADDRESS_WIDTH {
                proof {
                    assert(value@.fishermen[k as int].len() != ADDRESS_WIDTH);
                    lemma_field_not_ok(value@, ParamField::Fishermen);
                }
                return Err(ParamField::Fishermen);
            }
            let copied = H160 { bytes: copy_range(&a.bytes, 0, ADDRESS_WIDTH) };
            proof {
                assert(a@.subrange(0, ADDRESS_WIDTH as int) =~= a@);
            }
            fishermen.push(copied);
            k = k + 1;
        }
        let abi = EvmHostParamsAbi {
            default_timeout: U256::from_u128(value.default_timeout),
            per_byte_fee: U256 { bytes: copy_range(&value.per_byte_fee.bytes, 0, WORD_WIDTH) },
            state_commitment_fee: U256 {
                bytes: copy_range(&value.state_commitment_fee.bytes, 0, WORD_WIDTH),
            },
            fee_token: H160 { bytes: copy_range(&value.fee_token.bytes, 0, ADDRESS_WIDTH) },
            admin: H160 { bytes: copy_range(&value.admin.bytes, 0, ADDRESS_WIDTH) },
            handler: H160 { bytes: copy_range(&value.handler.bytes, 0, ADDRESS_WIDTH) },
            host_manager: H160 { bytes: copy_range(&value.host_manager.bytes, 0, ADDRESS_WIDTH) },
            uniswap_v2: H160 { bytes: copy_range(&value.uniswap_v2.bytes, 0, ADDRESS_WIDTH) },
            un_staking_period: U256::from_u128(value.un_staking_period),
            challenge_period: U256::from_u128(value.challenge_period),
            consensus_client: H160 {
                bytes: copy_range(&value.consensus_client.bytes, 0, ADDRESS_WIDTH),
            },
            state_machines,
            fishermen,
            hyperbridge: value.hyperbridge.to_vec(),
        };
        proof {
            assert(value.per_byte_fee@.subrange(0, WORD_WIDTH as int) =~= value.per_byte_fee@);
            assert(value.state_commitment_fee@.subrange(0, WORD_WIDTH as int)
                =~= value.state_commitment_fee@);
            assert(value.fee_token@.subrange(0, ADDRESS_WIDTH as int) =~= value.fee_token@);
            assert(value.admin@.subrange(0, ADDRESS_WIDTH as int) =~= value.admin@);
            assert(value.handler@.subrange(0, ADDRESS_WIDTH as int) =~= value.handler@);
            assert(value.host_manager@.subrange(0, ADDRESS_WIDTH as int) =~= value.host_manager@);
            assert(value.uniswap_v2@.subrange(0, ADDRESS_WIDTH as int) =~= value.uniswap_v2@);
            assert(value.consensus_client@.subrange(0, ADDRESS_WIDTH as int)
                =~= value.consensus_client@);
            assert(abi@.state_machines =~= value@.state_machines.map_values(|x: u32| x as nat));
            assert(abi@.fishermen =~= value@.fishermen);
            assert(abi@ =~= spec_abi_view_of(value@));
        }
        Ok(abi)
    }

    /// Encode the record for the downstream dispatcher: the discriminant
    /// byte, then the ABI tuple. Nothing can fail here any more; every
    /// width was pinned at conversion.
    #[verifier::rlimit(80)]
    pub fn encode(&self) -> (r: Vec<u8>)
        requires
            self.wf(),
        ensures
            r@ == seq![HOST_PARAMS_DISCRIMINANT] + spec_abi_bytes(self@),
    {
        let mut out: Vec<u8> = Vec::new();
        out.push(HOST_PARAMS_DISCRIMINANT);
        push_word_u256(&mut out, &self.default_timeout);
        push_word_u256(&mut out, &self.per_byte_fee);
        push_word_u256(&mut out, &self.state_commitment_fee);
        push_address_word(&mut out, &self.fee_token);
        push_address_word(&mut out, &self.admin);
        push_address_word(&mut out, &self.handler);
        push_address_word(&mut out, &self.host_manager);
        push_address_word(&mut out, &self.uniswap_v2);
        push_word_u256(&mut out, &self.un_staking_period);
        push_word_u256(&mut out, &self.challenge_period);
        push_address_word(&mut out, &self.consensus_client);
        let n_sm = self.state_machines.len();
        let n_f = self.fishermen.len();
        let n_h = self.hyperbridge.len();
        push_word_u64(&mut out, ABI_HEAD_LEN as u64);
        push_word_u64(&mut out, (ABI_HEAD_LEN as u64 + 32) + 32 * (n_sm as u64));
        push_word_u64(&mut out, (ABI_HEAD_LEN as u64 + 64) + 32 * (n_sm as u64) + 32 * (
        n_f as u64));
        push_word_u64(&mut out, n_sm as u64);
        let ghost sm_view = self@.state_machines;
        let ghost before_sm = out@;
        let mut i: usize = 0;
        while i < n_sm
            invariant
                i <= n_sm,
                n_sm == self.state_machines@.len(),
                self.wf(),
                sm_view == self@.state_machines,
                out@ == before_sm + spec_number_words(sm_view.take(i as int)),
            decreases n_sm - i,
        {
            push_word_u256(&mut out, &self.state_machines[i]);
            i = i + 1;
            proof {
                assert(sm_view.take(i as int).drop_last() =~= sm_view.take(i as int - 1));
            }
        }
        proof {
            assert(sm_view.take(n_sm as int) =~= sm_view);
        }
        push_word_u64(&mut out, n_f as u64);
        let ghost f_view = self@.fishermen;
        let ghost before_f = out@;
        let mut k: usize = 0;
        while k < n_f
            invariant
                k <= n_f,
                n_f == self.fishermen@.len(),
                self.wf(),
                f_view == self@.fishermen,
                out@ == before_f + spec_address_words(f_view.take(k as int)),
            decreases n_f - k,
        {
            push_address_word(&mut out, &self.fishermen[k]);
            k = k + 1;
            proof {
                assert(f_view.take(k as int).drop_last() =~= f_view.take(k as int - 1));
            }
        }
        proof {
            assert(f_view.take(n_f as int) =~= f_view);
        }
        push_word_u64(&mut out, n_h as u64);
        push_bytes(&mut out, &self.hyperbridge);
        push_zeros(&mut out, (32 - n_h % 32) % 32);
        proof {
            assert(((32 - n_h % 32) % 32) as nat == spec_pad_len(n_h as nat));
            assert(out@ =~= seq![HOST_PARAMS_DISCRIMINANT] + spec_abi_bytes(self@));
        }
        out
    }
}

/// Convert and encode in one step: the canonical bytes of a record, or the
/// first malformed field. At the whitelist bound the encode still
/// succeeds; beyond the bound no record exists to encode.
pub fn encode_host_params(p: EvmHostParam) -> (r: Result<Vec<u8>, ParamField>)
    requires
        p.state_machines.wf(),
        p.fishermen.wf(),
        p.hyperbridge.wf(),
    ensures
        r is Ok <==> spec_encodable(p@),
        r matches Ok(bytes) ==> bytes@ == seq![HOST_PARAMS_DISCRIMINANT] + spec_abi_bytes(
            spec_abi_view_of(p@),
        ),
        r matches Err(f) ==> !spec_field_ok(p@, f),
{
    let ghost pv = p@;
    let abi = match EvmHostParamsAbi::try_from(p) {
        Ok(a) => a,
        Err(f) => {
            return Err(f);
        },
    };
    proof {
        assert(abi.state_machines@.len() == abi@.state_machines.len());
        assert(abi.fishermen@.len() == abi@.fishermen.len());
        assert(abi@.state_machines.len() == pv.state_machines.len());
        assert(abi@.fishermen.len() == pv.fishermen.len());
        assert(abi.wf());
    }
    Ok(abi.encode())
}

/// Applying a patch and then encoding gives the bytes of the base record
/// with exactly the patched fields replaced — one field at a time, each
/// taken from the patch where present and from the base where absent, with
/// no coupling between fields.
pub proof fn lemma_update_then_encode(base: EvmHostParamView, patch: EvmHostParamUpdateView)
    ensures
        spec_abi_bytes(spec_abi_view_of(spec_apply_update(base, patch))) == spec_abi_bytes(
            spec_abi_view_of(
                EvmHostParamView {
                    default_timeout: match patch.default_timeout {
                        Some(v) => v,
                        None => base.default_timeout,
                    },
                    per_byte_fee: match patch.per_byte_fee {
                        Some(v) => v,
                        None => base.per_byte_fee,
                    },
                    state_commitment_fee: match patch.state_commitment_fee {
                        Some(v) => v,
                        None => base.state_commitment_fee,
                    },
                    fee_token: match patch.fee_token {
                        Some(v) => v,
                        None => base.fee_token,
                    },
                    admin: match patch.admin {
                        Some(v) => v,
                        None => base.admin,
                    },
                    handler: match patch.handler {
                        Some(v) => v,
                        None => base.handler,
                    },
                    host_manager: match patch.host_manager {
                        Some(v) => v,
                        None => base.host_manager,
                    },
                    uniswap_v2: match patch.uniswap_v2 {
                        Some(v) => v,
                        None => base.uniswap_v2,
                    },
                    un_staking_period: match patch.un_staking_period {
                        Some(v) => v,
                        None => base.un_staking_period,
                    },
                    challenge_period: match patch.challenge_period {
                        Some(v) => v,
                        None => base.challenge_period,
                    },
                    consensus_client: match patch.consensus_client {
                        Some(v) => v,
                        None => base.consensus_client,
                    },
                    state_machines: match patch.state_machines {
                        Some(v) => v,
                        None => base.state_machines,
                    },
                    fishermen: match patch.fishermen {
                        Some(v) => v,
                        None => base.fishermen,
                    },
                    hyperbridge: match patch.hyperbridge {
                        Some(v) => v,
                        None => base.hyperbridge,
                    },
                },
            ),
        ),
{
}

} // verus!
