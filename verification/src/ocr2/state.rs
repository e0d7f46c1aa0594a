//! What the aggregator keeps between calls, and the digests that bind a
//! committee's configuration.

use crate::access_controller::AccessControllerContract;
use crate::bytes::{be_bytes, byte_views, extend, twos_complement, write_be, write_be_i128};
use crate::decimal::Decimal;
use crate::hash::{blake2s, blake2s_digest};
use crate::owned::{Auth, AuthView};
use crate::table::{ascending, Table};
use vstd::prelude::*;
use vstd::utf8::*;

verus! {

/// Maximum number of oracles the offchain reporting protocol is designed for
pub const MAX_ORACLES: usize = 31;

/// Juels in one gigajuel.
pub const GIGA: u128 = 1_000_000_000;

/// The contract that is asked to judge each new answer.
#[derive(Clone, Debug, PartialEq, Eq)]
pub struct Validator {
    pub address: String,
    pub gas_limit: u64,
}

/// `Validator` as contracts speak of it: each text as its characters, each byte string as
/// its bytes.
pub ghost struct ValidatorView {
    pub address: Seq<char>,
    pub gas_limit: u64,
}

impl View for Validator {
    type V = ValidatorView;

    open spec fn view(&self) -> ValidatorView {
        ValidatorView { address: self.address@, gas_limit: self.gas_limit }
    }
}

/// What oracles are paid.
#[derive(Clone, Copy, Debug, PartialEq, Eq, Structural)]
pub struct Billing {
    /// The gas price, in millionths of the fee coin for one unit of gas.
    pub recommended_gas_price_micro: Decimal,
    /// Paid for each round to each oracle of the committee.
    pub observation_payment_gjuels: u64,
    /// Set and read with the billing; no payment is computed from it.
    pub transmission_payment_gjuels: u64,
    pub gas_base: Option<u64>,
    pub gas_per_signature: Option<u64>,
    /// In percent
    pub gas_adjustment: Option<u8>,
}

impl Default for Billing {
    fn default() -> (b: Billing)
        ensures
            b == (Billing {
                recommended_gas_price_micro: Decimal { atomics: 0 },
                observation_payment_gjuels: 0,
                transmission_payment_gjuels: 0,
                gas_base: None,
                gas_per_signature: None,
                gas_adjustment: None,
            }),
    {
        Billing {
            recommended_gas_price_micro: Decimal { atomics: 0 },
            observation_payment_gjuels: 0,
            transmission_payment_gjuels: 0,
            gas_base: None,
            gas_per_signature: None,
            gas_adjustment: None,
        }
    }
}

/// The aggregator's configuration and its place in the sequence of rounds.
#[derive(Clone, Debug, PartialEq, Eq)]
pub struct Config {
    pub link_token: String,
    pub requester_access_controller: AccessControllerContract,
    pub billing_access_controller: AccessControllerContract,
    pub min_answer: i128,
    pub max_answer: i128,
    // Metadata
    pub decimals: u8,
    pub description: String,
    /// Number of faulty oracles the system can tolerate
    pub f: u8,
    /// Total number of oracles
    pub n: u8,
    // Config digest related state
    pub config_count: u32,
    pub latest_config_digest: [u8; 32],
    pub latest_config_block_number: u64,
    // Latest round data
    pub latest_aggregator_round_id: u32,
    pub epoch: u32,
    pub round: u8,
    // Billing fields
    pub billing: Billing,
    pub validator: Option<Validator>,
}

/// `Config` as contracts speak of it: each text as its characters, each byte string as
/// its bytes.
pub ghost struct ConfigView {
    pub link_token: Seq<char>,
    pub requester_access_controller: Seq<char>,
    pub billing_access_controller: Seq<char>,
    pub min_answer: i128,
    pub max_answer: i128,
    pub decimals: u8,
    pub description: Seq<char>,
    pub f: u8,
    pub n: u8,
    pub config_count: u32,
    pub latest_config_digest: Seq<u8>,
    pub latest_config_block_number: u64,
    pub latest_aggregator_round_id: u32,
    pub epoch: u32,
    pub round: u8,
    pub billing: Billing,
    pub validator: Option<ValidatorView>,
}

impl View for Config {
    type V = ConfigView;

    open spec fn view(&self) -> ConfigView {
        ConfigView {
            link_token: self.link_token@,
            requester_access_controller: self.requester_access_controller@,
            billing_access_controller: self.billing_access_controller@,
            min_answer: self.min_answer,
            max_answer: self.max_answer,
            decimals: self.decimals,
            description: self.description@,
            f: self.f,
            n: self.n,
            config_count: self.config_count,
            latest_config_digest: self.latest_config_digest@,
            latest_config_block_number: self.latest_config_block_number,
            latest_aggregator_round_id: self.latest_aggregator_round_id,
            epoch: self.epoch,
            round: self.round,
            billing: self.billing,
            validator: match self.validator {
                Some(v) => Some(v@),
                None => None,
            },
        }
    }
}

/// Eight bytes of the sign of `x`, then `x` in 16 bytes: `x` as a signed number
/// of 192 bits.
pub open spec fn sign_extended(x: i128) -> Seq<u8> {
    Seq::new(
        8,
        |i: int|
            if x < 0 {
                0xFFu8
            } else {
                0x00u8
            },
    ) + be_bytes(twos_complement(x as int), 16)
}

/// The configuration that the reporting plugin reads: a version byte, then the
/// least and the greatest answer as signed numbers of 192 bits.
pub open spec fn onchain_config_bytes(min_answer: i128, max_answer: i128) -> Seq<u8> {
    seq![1u8] + sign_extended(min_answer) + sign_extended(max_answer)
}

/// The byte strings of `parts`, one after the other.
pub open spec fn concat(parts: Seq<Seq<u8>>) -> Seq<u8>
    decreases parts.len(),
{
    if parts.len() == 0 {
        Seq::empty()
    } else {
        concat(parts.drop_last()) + parts.last()
    }
}

/// What is hashed into a configuration's digest.
pub open spec fn config_digest_preimage(
    chain_id: Seq<char>,
    contract_address: Seq<char>,
    config_count: u32,
    oracles: Seq<(Seq<u8>, Seq<char>)>,
    f: u8,
    onchain_config: Seq<u8>,
    offchain_config_version: u64,
    offchain_config: Seq<u8>,
) -> Seq<u8> {
    be_bytes(encode_utf8(chain_id).len(), 1) + encode_utf8(chain_id) + encode_utf8(
        contract_address,
    ) + be_bytes(config_count as nat, 4) + be_bytes(oracles.len(), 1) + concat(
        oracles.map_values(|o: (Seq<u8>, Seq<char>)| o.0),
    ) + concat(oracles.map_values(|o: (Seq<u8>, Seq<char>)| encode_utf8(o.1))) + seq![f]
        + be_bytes(onchain_config.len(), 4) + onchain_config + be_bytes(
        offchain_config_version as nat,
        8,
    ) + be_bytes(offchain_config.len(), 4) + offchain_config
}

/// The digest of a configuration: the hash of its preimage, with the first two
/// bytes overwritten by the tag of the digest's kind.
pub open spec fn config_digest(
    chain_id: Seq<char>,
    contract_address: Seq<char>,
    config_count: u32,
    oracles: Seq<(Seq<u8>, Seq<char>)>,
    f: u8,
    onchain_config: Seq<u8>,
    offchain_config_version: u64,
    offchain_config: Seq<u8>,
) -> Seq<u8> {
    blake2s(
        config_digest_preimage(
            chain_id,
            contract_address,
            config_count,
            oracles,
            f,
            onchain_config,
            offchain_config_version,
            offchain_config,
        ),
    ).update(0, 0x00u8).update(1, 0x02u8)
}

/// The views of a list of signer keys with their transmitters.
pub open spec fn oracle_views(oracles: Seq<(Vec<u8>, String)>) -> Seq<(Seq<u8>, Seq<char>)> {
    oracles.map_values(|o: (Vec<u8>, String)| (o.0@, o.1@))
}

/// The array of the 32 bytes of `v`.
pub fn to_array(v: &Vec<u8>) -> (a: [u8; 32])
    requires
        v@.len() == 32,
    ensures
        a@ == v@,
{
    let mut a: [u8; 32] = [0u8; 32];
    let mut i: usize = 0;
    while i < 32
        invariant
            i <= 32,
            v@.len() == 32,
            forall|j: int| 0 <= j < i ==> a@[j] == v@[j],
        decreases 32 - i,
    {
        a[i] = v[i];
        i = i + 1;
    }
    assert(a@ =~= v@);
    a
}

impl Config {
    /// The configuration that the reporting plugin reads, as it enters the
    /// plugin's own computation of the digest.
    pub fn onchain_config(&self) -> (out: Vec<u8>)
        ensures
            out@ == onchain_config_bytes(self.min_answer, self.max_answer),
    {
        let mut out: Vec<u8> = Vec::new();
        out.push(1);
        let ghost head = out@;
        let mut i: usize = 0;
        while i < 8
            invariant
                i <= 8,
                out@ == head + Seq::new(
                    i as nat,
                    |k: int|
                        if self.min_answer < 0 {
                            0xFFu8
                        } else {
                            0x00u8
                        },
                ),
            decreases 8 - i,
        {
            if self.min_answer < 0 {
                out.push(0xFF);
            } else {
                out.push(0x00);
            }
            i = i + 1;
            assert(out@ =~= head + Seq::new(
                i as nat,
                |k: int|
                    if self.min_answer < 0 {
                        0xFFu8
                    } else {
                        0x00u8
                    },
            ));
        }
        let low = write_be_i128(self.min_answer);
        extend(&mut out, low.as_slice());
        assert(out@ =~= seq![1u8] + sign_extended(self.min_answer));
        let ghost head = out@;
        let mut i: usize = 0;
        while i < 8
            invariant
                i <= 8,
                out@ == head + Seq::new(
                    i as nat,
                    |k: int|
                        if self.max_answer < 0 {
                            0xFFu8
                        } else {
                            0x00u8
                        },
                ),
            decreases 8 - i,
        {
            if self.max_answer < 0 {
                out.push(0xFF);
            } else {
                out.push(0x00);
            }
            i = i + 1;
            assert(out@ =~= head + Seq::new(
                i as nat,
                |k: int|
                    if self.max_answer < 0 {
                        0xFFu8
                    } else {
                        0x00u8
                    },
            ));
        }
        let high = write_be_i128(self.max_answer);
        extend(&mut out, high.as_slice());
        assert(out@ =~= onchain_config_bytes(self.min_answer, self.max_answer));
        out
    }
}

/// A committee that has been staged and waits to be accepted.
#[derive(Clone, Debug, PartialEq, Eq)]
pub struct Proposal {
    pub owner: String,
    pub finalized: bool,
    /// (signer, transmitter, payee)
    pub oracles: Vec<(Vec<u8>, String, String)>,
    pub f: u8,
    pub offchain_config_version: u64,
    pub offchain_config: Vec<u8>,
}

/// `Proposal` as contracts speak of it: each text as its characters, each byte string as
/// its bytes.
pub ghost struct ProposalView {
    pub owner: Seq<char>,
    pub finalized: bool,
    pub oracles: Seq<(Seq<u8>, Seq<char>, Seq<char>)>,
    pub f: u8,
    pub offchain_config_version: u64,
    pub offchain_config: Seq<u8>,
}

impl View for Proposal {
    type V = ProposalView;

    open spec fn view(&self) -> ProposalView {
        ProposalView {
            owner: self.owner@,
            finalized: self.finalized,
            oracles: self.oracles@.map_values(|o: (Vec<u8>, String, String)| (o.0@, o.1@, o.2@)),
            f: self.f,
            offchain_config_version: self.offchain_config_version,
            offchain_config: self.offchain_config@,
        }
    }
}

impl ProposalView {
    /// What is hashed into the proposal's digest.
    pub open spec fn digest_preimage(self) -> Seq<u8> {
        be_bytes(self.oracles.len(), 1) + concat(
            self.oracles.map_values(
                |o: (Seq<u8>, Seq<char>, Seq<char>)| o.0 + encode_utf8(o.1) + encode_utf8(o.2),
            ),
        ) + seq![self.f] + be_bytes(self.offchain_config_version as nat, 8) + be_bytes(
            self.offchain_config.len(),
            4,
        ) + self.offchain_config
    }

    /// The digest by which the proposal is accepted.
    pub open spec fn digest(self) -> Seq<u8> {
        blake2s(self.digest_preimage())
    }
}

impl Proposal {
    /// The digest by which the proposal is accepted.
    pub fn digest(&self) -> (digest: [u8; 32])
        ensures
            digest@ == self@.digest(),
            self@.digest().len() == 32,
    {
        let mut data: Vec<u8> = write_be(self.oracles.len() as u128, 1);
        let ghost head = data@;
        let ghost parts = self@.oracles.map_values(
            |o: (Seq<u8>, Seq<char>, Seq<char>)| o.0 + encode_utf8(o.1) + encode_utf8(o.2),
        );
        let mut i: usize = 0;
        while i < self.oracles.len()
            invariant
                i <= self.oracles@.len(),
                parts.len() == self.oracles@.len(),
                parts == self@.oracles.map_values(
                    |o: (Seq<u8>, Seq<char>, Seq<char>)| o.0 + encode_utf8(o.1) + encode_utf8(o.2),
                ),
                data@ == head + concat(parts.subrange(0, i as int)),
            decreases self.oracles@.len() - i,
        {
            let ghost before = data@;
            extend(&mut data, self.oracles[i].0.as_slice());
            extend(&mut data, self.oracles[i].1.as_str().as_bytes());
            extend(&mut data, self.oracles[i].2.as_str().as_bytes());
            proof {
                assert(parts.subrange(0, i + 1).drop_last() =~= parts.subrange(0, i as int));
                assert(data@ =~= before + parts[i as int]);
            }
            i = i + 1;
        }
        assert(parts.subrange(0, i as int) =~= parts);
        data.push(self.f);
        let version = write_be(self.offchain_config_version as u128, 8);
        extend(&mut data, version.as_slice());
        let length = write_be(self.offchain_config.len() as u128, 4);
        extend(&mut data, length.as_slice());
        extend(&mut data, self.offchain_config.as_slice());
        assert(data@ =~= self@.digest_preimage());
        let hash = blake2s_digest(data.as_slice());
        to_array(&hash)
    }
}

/// The digest that binds a configuration to its chain and contract. The reporting
/// protocol computes the same bytes on its side.
#[allow(clippy::too_many_arguments)]
pub fn config_digest_from_data(
    chain_id: &str,
    contract_address: &String,
    config_count: u32,
    oracles: &Vec<(Vec<u8>, String)>,
    f: u8,
    onchain_config: &[u8],
    offchain_config_version: u64,
    offchain_config: &[u8],
) -> (digest: [u8; 32])
    requires
        encode_utf8(chain_id@).len() <= 255,
    ensures
        digest@ == config_digest(
            chain_id@,
            contract_address@,
            config_count,
            oracle_views(oracles@),
            f,
            onchain_config@,
            offchain_config_version,
            offchain_config@,
        ),
        digest@[0] == 0x00,
        digest@[1] == 0x02,
        blake2s(
            config_digest_preimage(
                chain_id@,
                contract_address@,
                config_count,
                oracle_views(oracles@),
                f,
                onchain_config@,
                offchain_config_version,
                offchain_config@,
            ),
        ).len() == 32,
        forall|i: int|
            2 <= i < 32 ==> digest@[i] == blake2s(
                config_digest_preimage(
                    chain_id@,
                    contract_address@,
                    config_count,
                    oracle_views(oracles@),
                    f,
                    onchain_config@,
                    offchain_config_version,
                    offchain_config@,
                ),
            )[i],
{
    let ghost views = oracle_views(oracles@);
    let ghost keys = views.map_values(|o: (Seq<u8>, Seq<char>)| o.0);
    let ghost names = views.map_values(|o: (Seq<u8>, Seq<char>)| encode_utf8(o.1));
    let chain = chain_id.as_bytes();
    let mut data: Vec<u8> = write_be(chain.len() as u128, 1);
    extend(&mut data, chain);
    extend(&mut data, contract_address.as_str().as_bytes());
    let count = write_be(config_count as u128, 4);
    extend(&mut data, count.as_slice());
    let number = write_be(oracles.len() as u128, 1);
    extend(&mut data, number.as_slice());
    let ghost head = data@;
    let mut i: usize = 0;
    while i < oracles.len()
        invariant
            i <= oracles@.len(),
            keys.len() == oracles@.len(),
            views == oracle_views(oracles@),
            keys == views.map_values(|o: (Seq<u8>, Seq<char>)| o.0),
            data@ == head + concat(keys.subrange(0, i as int)),
        decreases oracles@.len() - i,
    {
        let ghost before = data@;
        extend(&mut data, oracles[i].0.as_slice());
        proof {
            assert(keys.subrange(0, i + 1).drop_last() =~= keys.subrange(0, i as int));
            assert(data@ =~= before + keys[i as int]);
        }
        i = i + 1;
    }
    assert(keys.subrange(0, i as int) =~= keys);
    let ghost head = data@;
    let mut i: usize = 0;
    while i < oracles.len()
        invariant
            i <= oracles@.len(),
            names.len() == oracles@.len(),
            views == oracle_views(oracles@),
            names == views.map_values(|o: (Seq<u8>, Seq<char>)| encode_utf8(o.1)),
            data@ == head + concat(names.subrange(0, i as int)),
        decreases oracles@.len() - i,
    {
        let ghost before = data@;
        extend(&mut data, oracles[i].1.as_str().as_bytes());
        proof {
            assert(names.subrange(0, i + 1).drop_last() =~= names.subrange(0, i as int));
            assert(data@ =~= before + names[i as int]);
        }
        i = i + 1;
    }
    assert(names.subrange(0, i as int) =~= names);
    data.push(f);
    let length = write_be(onchain_config.len() as u128, 4);
    extend(&mut data, length.as_slice());
    extend(&mut data, onchain_config);
    let version = write_be(offchain_config_version as u128, 8);
    extend(&mut data, version.as_slice());
    let length = write_be(offchain_config.len() as u128, 4);
    extend(&mut data, length.as_slice());
    extend(&mut data, offchain_config);
    assert(data@ =~= config_digest_preimage(
        chain_id@,
        contract_address@,
        config_count,
        views,
        f,
        onchain_config@,
        offchain_config_version,
        offchain_config@,
    ));
    let mut hash = blake2s_digest(data.as_slice());
    // prefix masking
    hash.set(0, 0x00);
    hash.set(1, 0x02);
    to_array(&hash)
}

/// What an oracle is owed beside the payment for its rounds, and the round from
/// which its rounds count.
#[derive(Clone, Copy, Debug, PartialEq, Eq, Structural)]
pub struct Transmitter {
    /// Reimbursement in juels
    pub payment: u128,
    /// Calculate rewards starting from round id
    pub from_round_id: u32,
}

impl View for Transmitter {
    type V = Transmitter;

    open spec fn view(&self) -> Transmitter {
        *self
    }
}

/// The answer of one round.
#[derive(Clone, Copy, Debug, PartialEq, Eq, Structural)]
pub struct Transmission {
    pub answer: i128,
    pub observations_timestamp: u32,
    pub transmission_timestamp: u32,
}

/// The answer of one round, with the round's number.
#[derive(Clone, Copy, Debug, PartialEq, Eq, Structural)]
pub struct Round {
    pub round_id: u32,
    pub answer: i128,
    pub observations_timestamp: u32,
    pub transmission_timestamp: u32,
}

/// Everything the aggregator keeps between calls. Before the contract is
/// instantiated it holds no owner and no configuration.
#[derive(Clone, Debug, PartialEq, Eq)]
pub struct Storage {
    pub owner: Auth,
    pub config: Option<Config>,
    pub next_proposal_id: u128,
    /// The staged committees by their ids.
    pub proposals: Vec<(u128, Proposal)>,
    /// The transmitters of the committee in office.
    pub transmitters: Table<Transmitter>,
    /// The signing keys of the committee in office.
    pub signers: Vec<Vec<u8>>,
    /// The answers of the rounds 1, 2, ... in turn.
    pub transmissions: Vec<Transmission>,
    /// Addresses at which oracles want to receive payments.
    pub payees: Table<String>,
    pub proposed_payees: Table<String>,
}

/// `Storage` as contracts speak of it: each text as its characters, each byte string as
/// its bytes.
pub ghost struct StorageView {
    pub owner: AuthView,
    pub config: Option<ConfigView>,
    pub next_proposal_id: u128,
    pub proposals: Seq<(u128, ProposalView)>,
    pub transmitters: Seq<(Seq<char>, Transmitter)>,
    pub signers: Seq<Seq<u8>>,
    pub transmissions: Seq<Transmission>,
    pub payees: Seq<(Seq<char>, Seq<char>)>,
    pub proposed_payees: Seq<(Seq<char>, Seq<char>)>,
}

impl View for Storage {
    type V = StorageView;

    open spec fn view(&self) -> StorageView {
        StorageView {
            owner: self.owner@,
            config: match self.config {
                Some(c) => Some(c@),
                None => None,
            },
            next_proposal_id: self.next_proposal_id,
            proposals: self.proposals@.map_values(|p: (u128, Proposal)| (p.0, p.1@)),
            transmitters: self.transmitters@,
            signers: byte_views(self.signers@),
            transmissions: self.transmissions@,
            payees: self.payees@,
            proposed_payees: self.proposed_payees@,
        }
    }
}

impl StorageView {
    /// The storage is one that the contract's calls can have left behind: each
    /// round up to the latest has its answer, no oracle's rounds count from a
    /// round yet to come, no key or id occurs twice.
    pub open spec fn wf(self) -> bool {
        &&& ascending(self.transmitters)
        &&& ascending(self.payees)
        &&& ascending(self.proposed_payees)
        &&& self.signers.no_duplicates()
        &&& forall|i: int, j: int|
            0 <= i < j < self.proposals.len() ==> (#[trigger] self.proposals[i]).0 != (
            #[trigger] self.proposals[j]).0
        &&& forall|i: int|
            0 <= i < self.proposals.len() ==> (#[trigger] self.proposals[i]).0
                < self.next_proposal_id
        &&& match self.config {
            Some(c) => {
                &&& c.latest_config_digest.len() == 32
                &&& self.transmissions.len() == c.latest_aggregator_round_id
                &&& forall|i: int|
                    0 <= i < self.transmitters.len() ==> (#[trigger] self.transmitters[i]).1.from_round_id
                        <= c.latest_aggregator_round_id
            },
            None => self.transmissions.len() == 0 && self.transmitters.len() == 0,
        }
    }
}

} // verus!
