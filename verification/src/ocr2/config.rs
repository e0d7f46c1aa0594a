//! Putting a committee into office.

use crate::bytes::{be_bytes, byte_views, bytes_eq, extend, twos_complement, write_be_i128};
use crate::host::{
    attribute_views, came_out, Attribute, AttributeView, Env, EnvView, Event, EventView,
    MessageInfo, Response, ResponseView, StdError,
};
use crate::ocr2::error::ContractError;
use crate::ocr2::payment::{settle, settlement};
use crate::ocr2::state::{
    config_digest, config_digest_from_data, oracle_views, ConfigView, Storage, StorageView,
    Transmitter, MAX_ORACLES,
};
use crate::table::{has_key, lemma_put, put, Table};
use crate::text::{decimal, hex, hex_encode, text_views, u128_to_string};
use vstd::prelude::*;
use vstd::utf8::*;

verus! {

/// The table of a new committee: each transmitter with an empty account that
/// counts from the round `latest` on. `None` where a transmitter occurs twice.
pub open spec fn install_transmitters(transmitters: Seq<Seq<char>>, latest: u32) -> Option<
    Seq<(Seq<char>, Transmitter)>,
>
    decreases transmitters.len(),
{
    if transmitters.len() == 0 {
        Some(Seq::empty())
    } else {
        match install_transmitters(transmitters.drop_last(), latest) {
            None => None,
            Some(table) => if has_key(table, transmitters.last()) {
                None
            } else {
                Some(put(table, transmitters.last(), Transmitter { payment: 0, from_round_id: latest }))
            },
        }
    }
}

/// Once a transmitter has occurred twice, the committee cannot be installed.
pub proof fn lemma_install_failure_stays(transmitters: Seq<Seq<char>>, latest: u32, k: int)
    requires
        0 <= k <= transmitters.len(),
        install_transmitters(transmitters.subrange(0, k), latest) is None,
    ensures
        install_transmitters(transmitters, latest) is None,
    decreases transmitters.len() - k,
{
    if k == transmitters.len() {
        assert(transmitters.subrange(0, k) =~= transmitters);
    } else {
        assert(transmitters.drop_last().subrange(0, k) =~= transmitters.subrange(0, k));
        lemma_install_failure_stays(transmitters.drop_last(), latest, k);
    }
}

/// Each signer with the transmitter at its place.
pub open spec fn pair_up(signers: Seq<Seq<u8>>, transmitters: Seq<Seq<char>>) -> Seq<
    (Seq<u8>, Seq<char>),
> {
    Seq::new(signers.len(), |i: int| (signers[i], transmitters[i]))
}

/// One attribute for each signer's key, in hexadecimal.
pub open spec fn signer_attributes(signers: Seq<Seq<u8>>) -> Seq<AttributeView> {
    Seq::new(signers.len(), |i: int| AttributeView { key: "signers"@, value: hex(signers[i]) })
}

/// One attribute for each transmitter.
pub open spec fn transmitter_attributes(transmitters: Seq<Seq<char>>) -> Seq<AttributeView> {
    Seq::new(
        transmitters.len(),
        |i: int| AttributeView { key: "transmitters"@, value: transmitters[i] },
    )
}

/// The least and the greatest answer as the event of a new configuration shows
/// them: a version byte, then each in 16 bytes.
pub open spec fn answer_bounds(min_answer: i128, max_answer: i128) -> Seq<u8> {
    seq![1u8] + be_bytes(twos_complement(min_answer as int), 16) + be_bytes(
        twos_complement(max_answer as int),
        16,
    )
}

/// The configuration after a committee has taken office.
pub open spec fn rotated_config(
    c: ConfigView,
    block_height: u64,
    f: u8,
    n: nat,
    digest: Seq<u8>,
) -> ConfigView {
    ConfigView {
        f,
        latest_config_block_number: block_height,
        config_count: (c.config_count + 1) as u32,
        latest_config_digest: digest,
        n: (n % 256) as u8,
        epoch: 0,
        round: 0,
        ..c
    }
}

/// The event of a new configuration.
pub open spec fn set_config_event(
    c: ConfigView,
    digest: Seq<u8>,
    signers: Seq<Seq<u8>>,
    transmitters: Seq<Seq<char>>,
    f: u8,
    offchain_config_version: u64,
    offchain_config: Seq<u8>,
) -> EventView {
    EventView::new("set_config"@).attr(
        "previous_config_block_number"@,
        decimal(c.latest_config_block_number as nat),
    ).attr("latest_config_digest"@, hex(digest)).attr(
        "config_count"@,
        decimal((c.config_count + 1) as nat),
    ).attrs(signer_attributes(signers)).attrs(transmitter_attributes(transmitters)).attr(
        "f"@,
        decimal(f as nat),
    ).attr("onchain_config"@, hex(answer_bounds(c.min_answer, c.max_answer))).attr(
        "offchain_config_version"@,
        decimal(offchain_config_version as nat),
    ).attr("offchain_config"@, hex(offchain_config))
}

/// What a committee must meet to be staged or installed.
pub open spec fn committee_fault(
    signers: Seq<Seq<u8>>,
    transmitters: Seq<Seq<char>>,
    f: u8,
) -> Option<ContractError> {
    if f == 0 {
        Some(ContractError::InvalidInput)
    } else if signers.len() > MAX_ORACLES {
        Some(ContractError::TooManySigners)
    } else if transmitters.len() != signers.len() {
        Some(ContractError::InvalidInput)
    } else if !(3 * f < signers.len()) {
        Some(ContractError::InvalidInput)
    } else {
        None
    }
}

impl StorageView {
    /// The committee in office is paid and leaves, and the committee of
    /// `signers` and `transmitters` takes its place, under a new digest.
    /// `response` is what the call's response holds so far.
    pub open spec fn rotate(
        self,
        env: EnvView,
        signers: Seq<Seq<u8>>,
        transmitters: Seq<Seq<char>>,
        f: u8,
        onchain_config: Seq<u8>,
        offchain_config_version: u64,
        offchain_config: Seq<u8>,
        response: ResponseView,
    ) -> Result<(StorageView, ResponseView), ContractError> {
        let c = self.config->Some_0;
        match settle(self.transmitters, self.payees, c) {
            Err(e) => Err(e),
            Ok(settlement) => match install_transmitters(
                transmitters,
                c.latest_aggregator_round_id,
            ) {
                None => Err(ContractError::RepeatedAddress),
                Some(table) => if !signers.no_duplicates() {
                    Err(ContractError::RepeatedAddress)
                } else if c.config_count == u32::MAX {
                    Err(ContractError::Overflow)
                } else if encode_utf8(env.chain_id).len() > 255 {
                    Err(ContractError::InvalidInput)
                } else {
                    let digest = config_digest(
                        env.chain_id,
                        env.contract_address,
                        (c.config_count + 1) as u32,
                        pair_up(signers, transmitters),
                        f,
                        onchain_config,
                        offchain_config_version,
                        offchain_config,
                    );
                    Ok(
                        (
                            StorageView {
                                config: Some(
                                    rotated_config(c, env.block_height, f, signers.len(), digest),
                                ),
                                transmitters: table,
                                signers,
                                ..self
                            },
                            response.with_messages(settlement.messages).event(
                                set_config_event(
                                    c,
                                    digest,
                                    signers,
                                    transmitters,
                                    f,
                                    offchain_config_version,
                                    offchain_config,
                                ),
                            ),
                        ),
                    )
                },
            },
        }
    }

    /// The owner puts a committee into office.
    pub open spec fn set_config(
        self,
        env: EnvView,
        sender: Seq<char>,
        signers: Seq<Seq<u8>>,
        transmitters: Seq<Seq<char>>,
        f: u8,
        onchain_config: Seq<u8>,
        offchain_config_version: u64,
        offchain_config: Seq<u8>,
    ) -> Result<(StorageView, ResponseView), ContractError> {
        match self.owner.is_owner(sender) {
            Err(e) => Err(ContractError::Std(e)),
            Ok(false) => Err(ContractError::Unauthorized),
            Ok(true) => if self.config is None {
                Err(ContractError::Std(StdError::NotFound))
            } else if committee_fault(signers, transmitters, f) is Some {
                Err(committee_fault(signers, transmitters, f)->Some_0)
            } else if onchain_config.len() != 0 {
                Err(ContractError::InvalidInput)
            } else if offchain_config.len() == 0 {
                Err(ContractError::InvalidInput)
            } else {
                self.rotate(
                    env,
                    signers,
                    transmitters,
                    f,
                    onchain_config,
                    offchain_config_version,
                    offchain_config,
                    ResponseView::new().attr("method"@, "set_config"@),
                )
            },
        }
    }
}

/// Whether a byte string occurs twice in `list`.
pub fn has_duplicates(list: &Vec<Vec<u8>>) -> (res: bool)
    ensures
        res == !byte_views(list@).no_duplicates(),
{
    let ghost views = byte_views(list@);
    let mut i: usize = 0;
    while i < list.len()
        invariant
            i <= list@.len(),
            views == byte_views(list@),
            forall|a: int, b: int| 0 <= a < b < i ==> views[a] != views[b],
        decreases list@.len() - i,
    {
        let mut j: usize = 0;
        while j < i
            invariant
                j <= i < list@.len(),
                views == byte_views(list@),
                forall|a: int| 0 <= a < j ==> views[a] != views[i as int],
            decreases i - j,
        {
            if bytes_eq(list[j].as_slice(), list[i].as_slice()) {
                assert(views[j as int] == views[i as int]);
                return true;
            }
            j = j + 1;
        }
        i = i + 1;
    }
    false
}

/// The table of a new committee, unless a transmitter occurs twice.
pub fn new_committee(transmitters: &Vec<String>, latest: u32) -> (res: Option<Table<Transmitter>>)
    ensures
        match install_transmitters(text_views(transmitters@), latest) {
            Some(table) => res is Some && res->Some_0@ == table,
            None => res is None,
        },
{
    let ghost names = text_views(transmitters@);
    let mut table: Table<Transmitter> = Table::new();
    let mut i: usize = 0;
    assert(names.subrange(0, 0) =~= Seq::empty());
    while i < transmitters.len()
        invariant
            i <= transmitters@.len(),
            names == text_views(transmitters@),
            install_transmitters(names.subrange(0, i as int), latest) == Some(table@),
        decreases transmitters@.len() - i,
    {
        proof {
            assert(names.subrange(0, i + 1).drop_last() =~= names.subrange(0, i as int));
            assert(names.subrange(0, i + 1).last() == names[i as int]);
        }
        if table.contains(transmitters[i].as_str()) {
            proof {
                lemma_install_failure_stays(names, latest, i + 1);
            }
            return None;
        }
        table.insert(transmitters[i].clone(), Transmitter { payment: 0, from_round_id: latest });
        i = i + 1;
    }
    assert(names.subrange(0, i as int) =~= names);
    Some(table)
}

/// The accounts of a new committee count from the round `latest` on.
pub proof fn lemma_install_rounds(transmitters: Seq<Seq<char>>, latest: u32)
    requires
        install_transmitters(transmitters, latest) is Some,
    ensures
        crate::table::ascending(install_transmitters(transmitters, latest)->Some_0),
        forall|i: int|
            0 <= i < install_transmitters(transmitters, latest)->Some_0.len() ==> (
            #[trigger] install_transmitters(transmitters, latest)->Some_0[i]).1 == (Transmitter {
                payment: 0,
                from_round_id: latest,
            }),
    decreases transmitters.len(),
{
    if transmitters.len() > 0 {
        let shorter = install_transmitters(transmitters.drop_last(), latest)->Some_0;
        lemma_install_rounds(transmitters.drop_last(), latest);
        let fresh = Transmitter { payment: 0, from_round_id: latest };
        lemma_put(shorter, transmitters.last(), fresh);
        crate::table::lemma_parts_exist(shorter, transmitters.last());
    }
}

/// The attributes of the signers' keys.
fn signer_attrs(signers: &Vec<Vec<u8>>) -> (out: Vec<Attribute>)
    ensures
        attribute_views(out@) == signer_attributes(byte_views(signers@)),
{
    let mut out: Vec<Attribute> = Vec::new();
    let mut i: usize = 0;
    while i < signers.len()
        invariant
            i <= signers@.len(),
            out@.len() == i,
            forall|j: int|
                0 <= j < i ==> (#[trigger] out@[j])@ == signer_attributes(byte_views(signers@))[j],
        decreases signers@.len() - i,
    {
        out.push(crate::host::attr("signers", hex_encode(signers[i].as_slice())));
        i = i + 1;
    }
    assert(attribute_views(out@) =~= signer_attributes(byte_views(signers@)));
    out
}

/// The attributes of the transmitters.
fn transmitter_attrs(transmitters: &Vec<String>) -> (out: Vec<Attribute>)
    ensures
        attribute_views(out@) == transmitter_attributes(text_views(transmitters@)),
{
    let mut out: Vec<Attribute> = Vec::new();
    let mut i: usize = 0;
    while i < transmitters.len()
        invariant
            i <= transmitters@.len(),
            out@.len() == i,
            forall|j: int|
                0 <= j < i ==> (#[trigger] out@[j])@ == transmitter_attributes(
                    text_views(transmitters@),
                )[j],
        decreases transmitters@.len() - i,
    {
        out.push(crate::host::attr("transmitters", transmitters[i].clone()));
        i = i + 1;
    }
    assert(attribute_views(out@) =~= transmitter_attributes(text_views(transmitters@)));
    out
}

/// Each signer's key with the transmitter at its place.
fn paired(signers: &Vec<Vec<u8>>, transmitters: &Vec<String>) -> (out: Vec<(Vec<u8>, String)>)
    requires
        signers@.len() == transmitters@.len(),
    ensures
        oracle_views(out@) == pair_up(byte_views(signers@), text_views(transmitters@)),
{
    let mut out: Vec<(Vec<u8>, String)> = Vec::new();
    let mut i: usize = 0;
    while i < signers.len()
        invariant
            i <= signers@.len(),
            signers@.len() == transmitters@.len(),
            out@.len() == i,
            forall|j: int|
                0 <= j < i ==> (#[trigger] out@[j]).0@ == signers@[j]@ && out@[j].1@
                    == transmitters@[j]@,
        decreases signers@.len() - i,
    {
        let key = crate::bytes::slice_vec(signers[i].as_slice(), 0, signers[i].len());
        assert(key@ =~= signers@[i as int]@);
        out.push((key, transmitters[i].clone()));
        i = i + 1;
    }
    assert(oracle_views(out@) =~= pair_up(byte_views(signers@), text_views(transmitters@)));
    out
}

/// Puts the committee of `signers` and `transmitters` into office.
pub fn rotate(
    storage: &mut Storage,
    env: &Env,
    signers: Vec<Vec<u8>>,
    transmitters: Vec<String>,
    f: u8,
    onchain_config: &Vec<u8>,
    offchain_config_version: u64,
    offchain_config: &Vec<u8>,
    response: Response,
) -> (res: Result<Response, ContractError>)
    requires
        old(storage)@.wf(),
        old(storage)@.config is Some,
        signers@.len() == transmitters@.len(),
    ensures
        came_out(
            old(storage)@.rotate(
                env@,
                byte_views(signers@),
                text_views(transmitters@),
                f,
                onchain_config@,
                offchain_config_version,
                offchain_config@,
                response@,
            ),
            res,
            old(storage)@,
            final(storage)@,
        ),
        final(storage)@.wf(),
{
    let ghost before = storage@;
    let ghost c = before.config->Some_0;
    let config = match &storage.config {
        Some(config) => config,
        None => {
            return Err(ContractError::Std(StdError::NotFound));
        },
    };
    let (_next, msgs, _total) = settlement(&storage.transmitters, &storage.payees, config)?;
    let table = match new_committee(&transmitters, config.latest_aggregator_round_id) {
        Some(table) => table,
        None => {
            return Err(ContractError::RepeatedAddress);
        },
    };
    if has_duplicates(&signers) {
        return Err(ContractError::RepeatedAddress);
    }
    if config.config_count == u32::MAX {
        return Err(ContractError::Overflow);
    }
    if env.chain_id.as_str().as_bytes().len() > 255 {
        return Err(ContractError::InvalidInput);
    }
    let config_count: u32 = config.config_count + 1;
    let oracles = paired(&signers, &transmitters);
    let digest = config_digest_from_data(
        env.chain_id.as_str(),
        &env.contract_address,
        config_count,
        &oracles,
        f,
        onchain_config.as_slice(),
        offchain_config_version,
        offchain_config.as_slice(),
    );
    // calculate onchain_config from stored config
    let mut onchain_calc: Vec<u8> = Vec::new();
    onchain_calc.push(1);
    let low = write_be_i128(config.min_answer);
    extend(&mut onchain_calc, low.as_slice());
    let high = write_be_i128(config.max_answer);
    extend(&mut onchain_calc, high.as_slice());
    assert(onchain_calc@ =~= answer_bounds(c.min_answer, c.max_answer));

    let event = Event::new("set_config").add_attribute(
        "previous_config_block_number",
        u128_to_string(config.latest_config_block_number as u128),
    ).add_attribute("latest_config_digest", hex_encode(digest.as_slice())).add_attribute(
        "config_count",
        u128_to_string(config_count as u128),
    ).add_attributes(signer_attrs(&signers)).add_attributes(
        transmitter_attrs(&transmitters),
    ).add_attribute("f", u128_to_string(f as u128)).add_attribute(
        "onchain_config",
        hex_encode(onchain_calc.as_slice()),
    ).add_attribute(
        "offchain_config_version",
        u128_to_string(offchain_config_version as u128),
    ).add_attribute("offchain_config", hex_encode(offchain_config.as_slice()));
    let response = response.add_messages(msgs).add_event(event);
    let n: u8 = (signers.len() % 256) as u8;
    proof {
        lemma_install_rounds(text_views(transmitters@), c.latest_aggregator_round_id);
    }
    match &mut storage.config {
        Some(config) => {
            config.f = f;
            config.latest_config_block_number = env.block_height;
            config.config_count = config_count;
            config.latest_config_digest = digest;
            config.n = n;
            config.epoch = 0;
            config.round = 0;
        },
        None => {},
    }
    storage.transmitters = table;
    storage.signers = signers;
    Ok(response)
}

/// The owner puts a committee into office.
#[allow(clippy::too_many_arguments)]
pub fn execute_set_config(
    storage: &mut Storage,
    env: Env,
    info: MessageInfo,
    signers: Vec<Vec<u8>>,
    transmitters: Vec<String>,
    f: u8,
    onchain_config: Vec<u8>,
    offchain_config_version: u64,
    offchain_config: Vec<u8>,
) -> (res: Result<Response, ContractError>)
    requires
        old(storage)@.wf(),
    ensures
        came_out(
            old(storage)@.set_config(
                env@,
                info.sender@,
                byte_views(signers@),
                text_views(transmitters@),
                f,
                onchain_config@,
                offchain_config_version,
                offchain_config@,
            ),
            res,
            old(storage)@,
            final(storage)@,
        ),
        final(storage)@.wf(),
{
    match storage.owner.is_owner(&info.sender) {
        Err(e) => {
            return Err(ContractError::Std(e));
        },
        Ok(false) => {
            return Err(ContractError::Unauthorized);
        },
        Ok(true) => {},
    }
    if storage.config.is_none() {
        return Err(ContractError::Std(StdError::NotFound));
    }
    let response = Response::new().add_attribute("method", "set_config".to_owned());

    let signers_len = signers.len();
    // validate new config
    if f == 0 {
        return Err(ContractError::InvalidInput);
    }
    if signers_len > MAX_ORACLES {
        return Err(ContractError::TooManySigners);
    }
    if transmitters.len() != signers_len {
        return Err(ContractError::InvalidInput);
    }
    if !(3 * (f as usize) < signers_len) {
        return Err(ContractError::InvalidInput);
    }
    if onchain_config.len() != 0 {
        return Err(ContractError::InvalidInput);
    }
    if offchain_config.len() == 0 {
        return Err(ContractError::InvalidInput);
    }
    rotate(
        storage,
        &env,
        signers,
        transmitters,
        f,
        &onchain_config,
        offchain_config_version,
        &offchain_config,
        response,
    )
}

} // verus!
