//! Taking a report in: the checks on its context and signatures, and what an
//! accepted report changes.

use crate::bytes::{
    be_bytes, be_value, byte_views, bytes_eq, bytes_lt, extend, lemma_be_value_bound,
    lemma_lex_asymmetric, lemma_lex_total, lemma_lex_transitive, lemma_pow256_16, lex_lt, read_be,
    slice_vec, write_be,
};
use crate::hash::{blake2s, blake2s_digest};
use crate::host::{
    attribute_views, came_out, push_attr, AttributeView, Env, Event, EventView, Message,
    MessageInfo, MessageView, Response, ResponseView, StdError,
};
use crate::ocr2::error::ContractError;
use crate::ocr2::payment::{calculate_reimbursement, reimbursement};
use crate::ocr2::report::{decode, decode_report, median, ReportView};
use crate::ocr2::state::{
    ConfigView, Storage, StorageView, Transmission, Transmitter, MAX_ORACLES,
};
use crate::table::{has_key, lemma_put, put, value_of};
use crate::text::{decimal, hex, hex_encode, i128_to_string, signed_decimal, u128_to_string};
use cosmwasm_std::Api;
use vstd::prelude::*;

verus! {

/// The bytes of a report's context.
pub const CONTEXT_SIZE: usize = 96;

/// The bytes of a signature with its public key in front.
pub const SIGNATURE_SIZE: usize = 96;

/// The digest of the configuration under which a report was made.
pub open spec fn context_digest(context: Seq<u8>) -> Seq<u8> {
    context.subrange(0, 32)
}

/// The epoch of a report.
pub open spec fn context_epoch(context: Seq<u8>) -> u32 {
    be_value(context.subrange(59, 63)) as u32
}

/// The round of a report within its epoch.
pub open spec fn context_round(context: Seq<u8>) -> u8 {
    context[63]
}

/// The bytes of each of a list of signatures.
pub open spec fn signature_views(list: Seq<[u8; 96]>) -> Seq<Seq<u8>> {
    list.map_values(|s: [u8; 96]| s@)
}

/// Every one of `list` has the length of a signature with its public key.
pub open spec fn well_sized(list: Seq<Seq<u8>>) -> bool {
    forall|i: int| 0 <= i < list.len() ==> (#[trigger] list[i]).len() == 96
}

/// The public key in front of a signature.
pub open spec fn public_key(signature: Seq<u8>) -> Seq<u8> {
    signature.subrange(0, 32)
}

/// The signature behind its public key.
pub open spec fn signature_proper(signature: Seq<u8>) -> Seq<u8> {
    signature.subrange(32, 96)
}

/// The public keys of a list of signatures.
pub open spec fn public_keys(signatures: Seq<Seq<u8>>) -> Seq<Seq<u8>> {
    signatures.map_values(|s: Seq<u8>| public_key(s))
}

/// What the committee signs: the hash of the report's length, the report and
/// its context.
pub open spec fn report_hash(raw_report: Seq<u8>, context: Seq<u8>) -> Seq<u8> {
    blake2s(be_bytes(raw_report.len(), 4) + raw_report + context)
}

/// Each signature in turn is by a signer of the committee, and by none that an
/// earlier signature is by. The first signature that is not decides the error.
pub open spec fn check_signers(signers: Seq<Seq<u8>>, signatures: Seq<Seq<u8>>) -> Result<
    (),
    ContractError,
>
    decreases signatures.len(),
{
    if signatures.len() == 0 {
        Ok(())
    } else {
        match check_signers(signers, signatures.drop_last()) {
            Err(e) => Err(e),
            Ok(_) => if !signers.contains(public_key(signatures.last())) {
                Err(ContractError::Unauthorized)
            } else if public_keys(signatures.drop_last()).contains(public_key(signatures.last())) {
                Err(ContractError::RepeatedAddress)
            } else {
                Ok(())
            },
        }
    }
}

/// Once a signature has failed the check, the list has failed it.
pub proof fn lemma_check_signers_error_stays(
    signers: Seq<Seq<u8>>,
    signatures: Seq<Seq<u8>>,
    k: int,
)
    requires
        0 <= k <= signatures.len(),
        check_signers(signers, signatures.subrange(0, k)) is Err,
    ensures
        check_signers(signers, signatures) == check_signers(signers, signatures.subrange(0, k)),
    decreases signatures.len() - k,
{
    if k == signatures.len() {
        assert(signatures.subrange(0, k) =~= signatures);
    } else {
        assert(signatures.drop_last().subrange(0, k) =~= signatures.subrange(0, k));
        lemma_check_signers_error_stays(signers, signatures.drop_last(), k);
    }
}

/// The number of signatures at the front of `sorted` whose keys come before `key`.
pub open spec fn slot(sorted: Seq<Seq<u8>>, key: Seq<u8>) -> int
    decreases sorted.len(),
{
    if sorted.len() == 0 || !lex_lt(public_key(sorted[0]), key) {
        0
    } else {
        1 + slot(sorted.drop_first(), key)
    }
}

/// The signatures in the order of their public keys, each put in turn behind
/// the signatures of lesser keys.
pub open spec fn by_key(signatures: Seq<Seq<u8>>) -> Seq<Seq<u8>>
    decreases signatures.len(),
{
    if signatures.len() == 0 {
        Seq::empty()
    } else {
        let before = by_key(signatures.drop_last());
        before.insert(slot(before, public_key(signatures.last())), signatures.last())
    }
}

/// The keys of `sorted` do not descend.
pub open spec fn keys_ascend(sorted: Seq<Seq<u8>>) -> bool {
    forall|i: int, j: int|
        0 <= i < j < sorted.len() ==> !lex_lt(
            public_key(#[trigger] sorted[j]),
            public_key(#[trigger] sorted[i]),
        )
}

/// The slot of a key parts a list whose keys do not descend: before it stand
/// the lesser keys, from it on the others.
pub proof fn lemma_slot_parts(sorted: Seq<Seq<u8>>, key: Seq<u8>)
    requires
        keys_ascend(sorted),
    ensures
        0 <= slot(sorted, key) <= sorted.len(),
        forall|i: int|
            0 <= i < slot(sorted, key) ==> lex_lt(public_key(#[trigger] sorted[i]), key),
        forall|i: int|
            slot(sorted, key) <= i < sorted.len() ==> !lex_lt(
                public_key(#[trigger] sorted[i]),
                key,
            ),
    decreases sorted.len(),
{
    if sorted.len() > 0 {
        let rest = sorted.drop_first();
        assert forall|i: int, j: int| 0 <= i < j < rest.len() implies !lex_lt(
            public_key(#[trigger] rest[j]),
            public_key(#[trigger] rest[i]),
        ) by {
            assert(rest[i] == sorted[i + 1]);
            assert(rest[j] == sorted[j + 1]);
        }
        lemma_slot_parts(rest, key);
        if lex_lt(public_key(sorted[0]), key) {
            assert forall|i: int| 0 <= i < slot(sorted, key) implies lex_lt(
                public_key(#[trigger] sorted[i]),
                key,
            ) by {
                if i > 0 {
                    assert(sorted[i] == rest[i - 1]);
                }
            }
            assert forall|i: int| slot(sorted, key) <= i < sorted.len() implies !lex_lt(
                public_key(#[trigger] sorted[i]),
                key,
            ) by {
                assert(sorted[i] == rest[i - 1]);
            }
        } else {
            assert forall|i: int| 0 <= i < sorted.len() implies !lex_lt(
                public_key(#[trigger] sorted[i]),
                key,
            ) by {
                if i > 0 && lex_lt(public_key(sorted[i]), key) {
                    // a key before `key` behind one that is not
                    let first = public_key(sorted[0]);
                    let later = public_key(sorted[i]);
                    lemma_lex_total(first, later);
                    if lex_lt(first, later) {
                        lemma_lex_transitive(first, later, key);
                    }
                }
            }
        }
    }
}

/// What is handed to verification holds each signature once, in an order in
/// which the keys do not descend.
pub proof fn lemma_by_key_ordered(signatures: Seq<Seq<u8>>)
    ensures
        by_key(signatures).len() == signatures.len(),
        keys_ascend(by_key(signatures)),
        by_key(signatures).to_multiset() == signatures.to_multiset(),
    decreases signatures.len(),
{
    if signatures.len() == 0 {
        assert(by_key(signatures) =~= signatures);
    } else {
        let shorter = signatures.drop_last();
        let before = by_key(shorter);
        let key = public_key(signatures.last());
        let p = slot(before, key);
        let after = by_key(signatures);
        lemma_by_key_ordered(shorter);
        lemma_slot_parts(before, key);
        assert forall|i: int, j: int| 0 <= i < j < after.len() implies !lex_lt(
            public_key(#[trigger] after[j]),
            public_key(#[trigger] after[i]),
        ) by {
            if j < p {
                assert(after[i] == before[i] && after[j] == before[j]);
            } else if j == p {
                assert(after[i] == before[i]);
                lemma_lex_asymmetric(public_key(before[i]), key);
            } else if i < p {
                assert(after[i] == before[i] && after[j] == before[j - 1]);
            } else if i == p {
                assert(after[j] == before[j - 1]);
            } else {
                assert(after[i] == before[i - 1] && after[j] == before[j - 1]);
            }
        }
        let x = signatures.last();
        assert(signatures =~= shorter.push(x));
        assert(after.remove(p) =~= before);
        assert(after[p] == x);
        after.to_multiset_ensures();
        shorter.to_multiset_ensures();
        assert(after.to_multiset().count(x) > 0) by {
            assert(after.contains(x));
        }
        assert(after.to_multiset() =~= after.to_multiset().remove(x).insert(x));
    }
}

/// One attribute for each observation of a report.
pub open spec fn observation_attributes(observations: Seq<i128>) -> Seq<AttributeView> {
    Seq::new(
        observations.len(),
        |i: int| AttributeView { key: "observations"@, value: signed_decimal(observations[i] as int) },
    )
}

impl StorageView {
    /// The checks that a report passes before its signatures are verified.
    pub open spec fn transmit_checks(
        self,
        sender: Seq<char>,
        context: Seq<u8>,
        raw_report: Seq<u8>,
        signatures: Seq<Seq<u8>>,
    ) -> Result<(), ContractError> {
        if context.len() != 96 {
            Err(ContractError::InvalidInput)
        } else {
            match self.config {
                None => Err(ContractError::Std(StdError::NotFound)),
                Some(c) => if !(c.epoch < context_epoch(context) || (c.epoch == context_epoch(
                    context,
                ) && c.round < context_round(context))) {
                    // Either newer epoch, or same epoch but higher round ID
                    Err(ContractError::StaleReport)
                } else if !has_key(self.transmitters, sender) {
                    Err(ContractError::Unauthorized)
                } else if c.latest_config_digest != context_digest(context) {
                    Err(ContractError::DigestMismatch)
                } else if signatures.len() != c.f + 1 {
                    Err(ContractError::WrongNumberOfSignatures)
                } else if raw_report.len() > u32::MAX {
                    Err(ContractError::InvalidInput)
                } else {
                    check_signers(self.signers, signatures)
                },
            }
        }
    }

    /// The event of a new transmission.
    pub open spec fn transmission_event(
        c: ConfigView,
        sender: Seq<char>,
        context: Seq<u8>,
        report: ReportView,
    ) -> EventView {
        EventView::new("new_transmission"@).attr(
            "aggregator_round_id"@,
            decimal((c.latest_aggregator_round_id + 1) as nat),
        ).attr("answer"@, signed_decimal(median(report.observations) as int)).attr(
            "transmitter"@,
            sender,
        ).attr("observations_timestamp"@, decimal(report.observations_timestamp as nat)).attr(
            "observers"@,
            hex(report.observers),
        ).attr("juels_per_luna"@, decimal(report.juels_per_luna as nat)).attr(
            "config_digest"@,
            hex(context_digest(context)),
        ).attr("epoch"@, decimal(context_epoch(context) as nat)).attr(
            "round"@,
            decimal(context_round(context) as nat),
        ).attrs(observation_attributes(report.observations))
    }

    /// What a verified report that has passed the checks changes, and the
    /// response to it.
    pub open spec fn accept_report(
        self,
        block_time: u64,
        sender: Seq<char>,
        context: Seq<u8>,
        raw_report: Seq<u8>,
        signature_count: nat,
    ) -> Result<(StorageView, ResponseView), ContractError> {
        let c = self.config->Some_0;
        match decode(raw_report) {
            Err(e) => Err(e),
            Ok(report) => if report.observations.len() > MAX_ORACLES {
                Err(ContractError::InvalidInput)
            } else if !(c.f < report.observations.len()) {
                Err(ContractError::InvalidInput)
            } else if !(c.min_answer <= median(report.observations) <= c.max_answer) {
                Err(ContractError::MedianOutOfRange)
            } else if c.latest_aggregator_round_id == u32::MAX {
                Err(ContractError::Overflow)
            } else {
                match reimbursement(c.billing, report.juels_per_luna, signature_count) {
                    None => Err(ContractError::Overflow),
                    Some(earned) => {
                        let oracle = value_of(self.transmitters, sender);
                        if oracle.payment + earned > u128::MAX {
                            Err(ContractError::Overflow)
                        } else {
                            let round_id = (c.latest_aggregator_round_id + 1) as u32;
                            let answer = median(report.observations);
                            let response = ResponseView::new().attr("method"@, "transmit"@).event(
                                EventView::new("transmitted"@).attr(
                                    "config_digest"@,
                                    hex(context_digest(context)),
                                ).attr("epoch"@, decimal(context_epoch(context) as nat)),
                            ).event(Self::transmission_event(c, sender, context, report));
                            let response = match c.validator {
                                Some(v) => if c.latest_aggregator_round_id >= 1 {
                                    response.message(
                                        MessageView::Validate {
                                            validator: v.address,
                                            gas_limit: v.gas_limit,
                                            previous_round_id: c.latest_aggregator_round_id,
                                            previous_answer: self.transmissions[
                                                c.latest_aggregator_round_id - 1
                                            ].answer,
                                            round_id,
                                            answer,
                                        },
                                    )
                                } else {
                                    response
                                },
                                None => response,
                            };
                            Ok(
                                (
                                    StorageView {
                                        config: Some(
                                            ConfigView {
                                                epoch: context_epoch(context),
                                                round: context_round(context),
                                                latest_aggregator_round_id: round_id,
                                                ..c
                                            },
                                        ),
                                        transmissions: self.transmissions.push(
                                            Transmission {
                                                answer,
                                                observations_timestamp: report.observations_timestamp,
                                                transmission_timestamp: (block_time
                                                    % 0x1_0000_0000) as u32,
                                            },
                                        ),
                                        transmitters: put(
                                            self.transmitters,
                                            sender,
                                            Transmitter {
                                                payment: (oracle.payment + earned) as u128,
                                                ..oracle
                                            },
                                        ),
                                        ..self
                                    },
                                    response.attr("method"@, "transmit"@),
                                ),
                            )
                        }
                    },
                }
            },
        }
    }

    /// What a report does, given what the verification of its signatures said:
    /// `None` where they could not be verified at all.
    pub open spec fn transmit(
        self,
        block_time: u64,
        sender: Seq<char>,
        context: Seq<u8>,
        raw_report: Seq<u8>,
        signatures: Seq<Seq<u8>>,
        verdict: Option<bool>,
    ) -> Result<(StorageView, ResponseView), ContractError> {
        match self.transmit_checks(sender, context, raw_report, signatures) {
            Err(e) => Err(e),
            Ok(_) => match verdict {
                None => Err(ContractError::Verification),
                Some(false) => Err(ContractError::InvalidSignature),
                Some(true) => self.accept_report(
                    block_time,
                    sender,
                    context,
                    raw_report,
                    signatures.len(),
                ),
            },
        }
    }
}

/// Whether `list` holds the byte string `key`.
pub fn contains_bytes(list: &Vec<Vec<u8>>, key: &[u8]) -> (res: bool)
    ensures
        res == byte_views(list@).contains(key@),
{
    let mut i: usize = 0;
    while i < list.len()
        invariant
            i <= list@.len(),
            forall|j: int| 0 <= j < i ==> byte_views(list@)[j] != key@,
        decreases list@.len() - i,
    {
        if bytes_eq(list[i].as_slice(), key) {
            assert(byte_views(list@)[i as int] == key@);
            return true;
        }
        i = i + 1;
    }
    false
}

/// The array of the 96 bytes of `v`.
fn signature_from(v: &Vec<u8>) -> (a: [u8; 96])
    requires
        v@.len() == 96,
    ensures
        a@ == v@,
{
    let mut a: [u8; 96] = [0u8; 96];
    let mut i: usize = 0;
    while i < 96
        invariant
            i <= 96,
            v@.len() == 96,
            forall|j: int| 0 <= j < i ==> a@[j] == v@[j],
        decreases 96 - i,
    {
        a[i] = v[i];
        i = i + 1;
    }
    assert(a@ =~= v@);
    a
}

/// The signatures of a message as arrays: a signature of another length than
/// 96 bytes makes the message invalid.
pub fn signatures_from(raw: &Vec<Vec<u8>>) -> (res: Result<Vec<[u8; 96]>, ContractError>)
    ensures
        well_sized(byte_views(raw@)) ==> res is Ok && signature_views(res->Ok_0@) == byte_views(
            raw@,
        ),
        !well_sized(byte_views(raw@)) ==> res == Err::<Vec<[u8; 96]>, ContractError>(
            ContractError::InvalidInput,
        ),
{
    let ghost given = byte_views(raw@);
    let mut out: Vec<[u8; 96]> = Vec::new();
    let mut i: usize = 0;
    while i < raw.len()
        invariant
            i <= raw@.len(),
            given == byte_views(raw@),
            out@.len() == i,
            forall|j: int| 0 <= j < i ==> (#[trigger] out@[j])@ == given[j],
        decreases raw@.len() - i,
    {
        if raw[i].len() != SIGNATURE_SIZE {
            assert(given[i as int].len() != 96);
            return Err(ContractError::InvalidInput);
        }
        out.push(signature_from(&raw[i]));
        i = i + 1;
    }
    assert(signature_views(out@) =~= given);
    assert forall|j: int| 0 <= j < given.len() implies (#[trigger] given[j]).len() == 96 by {
        assert(out@[j]@ == given[j]);
    }
    Ok(out)
}

/// The checks on a report that need no hash.
fn check_report(
    storage: &Storage,
    info: &MessageInfo,
    report_context: &Vec<u8>,
    raw_report: &Vec<u8>,
    raw_signatures: &Vec<[u8; 96]>,
) -> (res: Result<(), ContractError>)
    ensures
        res == storage@.transmit_checks(
            info.sender@,
            report_context@,
            raw_report@,
            signature_views(raw_signatures@),
        ),
{
    if report_context.len() != CONTEXT_SIZE {
        return Err(ContractError::InvalidInput);
    }
    // Parse the report context
    let epoch_bytes = slice_vec(report_context.as_slice(), 59, 63);
    proof {
        lemma_be_value_bound(epoch_bytes@);
        lemma_pow256_16();
    }
    let epoch: u32 = read_be(epoch_bytes.as_slice()) as u32;
    let round: u8 = report_context[63];
    let config = match &storage.config {
        Some(config) => config,
        None => {
            return Err(ContractError::Std(StdError::NotFound));
        },
    };
    // Either newer epoch, or same epoch but higher round ID
    if !(config.epoch < epoch || (config.epoch == epoch && config.round < round)) {
        return Err(ContractError::StaleReport);
    }
    if !storage.transmitters.contains(info.sender.as_str()) {
        return Err(ContractError::Unauthorized);
    }
    let digest = slice_vec(report_context.as_slice(), 0, 32);
    if !bytes_eq(config.latest_config_digest.as_slice(), digest.as_slice()) {
        return Err(ContractError::DigestMismatch);
    }
    if raw_signatures.len() != config.f as usize + 1 {
        return Err(ContractError::WrongNumberOfSignatures);
    }
    if raw_report.len() > u32::MAX as usize {
        return Err(ContractError::InvalidInput);
    }
    check_signatures(&storage.signers, raw_signatures)
}

/// Checks each signature in turn: it is by a signer, and by none that an
/// earlier one is by.
fn check_signatures(signers: &Vec<Vec<u8>>, raw_signatures: &Vec<[u8; 96]>) -> (res: Result<
    (),
    ContractError,
>)
    ensures
        res == check_signers(byte_views(signers@), signature_views(raw_signatures@)),
{
    let ghost signatures = signature_views(raw_signatures@);
    let ghost allowed = byte_views(signers@);
    let mut i: usize = 0;
    assert(signatures.subrange(0, 0) =~= Seq::empty());
    while i < raw_signatures.len()
        invariant
            i <= raw_signatures@.len(),
            signatures == signature_views(raw_signatures@),
            allowed == byte_views(signers@),
            forall|j: int| 0 <= j < signatures.len() ==> (#[trigger] signatures[j]).len() == 96,
            check_signers(allowed, signatures.subrange(0, i as int)) is Ok,
        decreases raw_signatures@.len() - i,
    {
        let ghost shorter = signatures.subrange(0, i as int);
        let ghost longer = signatures.subrange(0, i + 1);
        proof {
            assert(longer.drop_last() =~= shorter);
            assert(longer.last() == signatures[i as int]);
            assert(signatures[i as int].len() == 96);
        }
        let key = slice_vec(raw_signatures[i].as_slice(), 0, 32);
        // Check address is present and it's a signer
        if !contains_bytes(signers, key.as_slice()) {
            proof {
                lemma_check_signers_error_stays(allowed, signatures, i + 1);
            }
            return Err(ContractError::Unauthorized);
        }
        // Check signer is unique
        let mut j: usize = 0;
        while j < i
            invariant
                j <= i < raw_signatures@.len(),
                signatures == signature_views(raw_signatures@),
                shorter == signatures.subrange(0, i as int),
                longer == signatures.subrange(0, i + 1),
                forall|k: int| 0 <= k < signatures.len() ==> (#[trigger] signatures[k]).len() == 96,
                key@ == public_key(signatures[i as int]),
                allowed == byte_views(signers@),
                allowed.contains(key@),
                check_signers(allowed, shorter) is Ok,
                longer.drop_last() == shorter,
                longer.last() == signatures[i as int],
                forall|k: int| 0 <= k < j ==> public_keys(shorter)[k] != key@,
            decreases i - j,
        {
            assert(signatures[j as int].len() == 96);
            let other = slice_vec(raw_signatures[j].as_slice(), 0, 32);
            if bytes_eq(other.as_slice(), key.as_slice()) {
                proof {
                    assert(public_keys(shorter)[j as int] == key@);
                    assert(public_keys(shorter).contains(key@));
                    assert(check_signers(allowed, longer) == Err::<(), ContractError>(
                        ContractError::RepeatedAddress,
                    ));
                    lemma_check_signers_error_stays(allowed, signatures, i + 1);
                }
                return Err(ContractError::RepeatedAddress);
            }
            j = j + 1;
        }
        i = i + 1;
    }
    assert(signatures.subrange(0, i as int) =~= signatures);
    Ok(())
}

/// What is handed to the verification of a report's signatures, where the
/// report passes the checks before it: the hash that the committee signed, the
/// signatures in the order of their public keys, and the keys in that order.
pub fn verification_input(
    storage: &Storage,
    info: &MessageInfo,
    report_context: &Vec<u8>,
    raw_report: &Vec<u8>,
    raw_signatures: &Vec<[u8; 96]>,
) -> (res: Result<(Vec<u8>, Vec<Vec<u8>>, Vec<Vec<u8>>), ContractError>)
    ensures
        match storage@.transmit_checks(
            info.sender@,
            report_context@,
            raw_report@,
            signature_views(raw_signatures@),
        ) {
            Ok(_) => res is Ok && res->Ok_0.0@ == report_hash(raw_report@, report_context@)
                && byte_views(res->Ok_0.1@) == by_key(signature_views(raw_signatures@)).map_values(
                |s: Seq<u8>| signature_proper(s),
            ) && byte_views(res->Ok_0.2@) == public_keys(by_key(signature_views(raw_signatures@))),
            Err(e) => res == Err::<(Vec<u8>, Vec<Vec<u8>>, Vec<Vec<u8>>), ContractError>(e),
        },
{
    check_report(storage, info, report_context, raw_report, raw_signatures)?;
    let ghost signatures = signature_views(raw_signatures@);
    assert(forall|j: int| 0 <= j < signatures.len() ==> (#[trigger] signatures[j]).len() == 96);

    let mut data: Vec<u8> = write_be(raw_report.len() as u128, 4);
    extend(&mut data, raw_report.as_slice());
    extend(&mut data, report_context.as_slice());
    let hash = blake2s_digest(data.as_slice());

    let mut sorted: Vec<Vec<u8>> = Vec::new();
    let mut i: usize = 0;
    assert(signatures.subrange(0, 0) =~= Seq::empty());
    assert(byte_views(sorted@) =~= Seq::empty());
    while i < raw_signatures.len()
        invariant
            i <= raw_signatures@.len(),
            signatures == signature_views(raw_signatures@),
            forall|j: int| 0 <= j < signatures.len() ==> (#[trigger] signatures[j]).len() == 96,
            byte_views(sorted@) == by_key(signatures.subrange(0, i as int)),
            forall|j: int| 0 <= j < sorted@.len() ==> (#[trigger] sorted@[j])@.len() == 96,
        decreases raw_signatures@.len() - i,
    {
        let ghost shorter = signatures.subrange(0, i as int);
        let ghost longer = signatures.subrange(0, i + 1);
        let ghost before = byte_views(sorted@);
        proof {
            assert(longer.drop_last() =~= shorter);
            assert(longer.last() == signatures[i as int]);
            assert(signatures[i as int].len() == 96);
        }
        let key = slice_vec(raw_signatures[i].as_slice(), 0, 32);
        let mut p: usize = 0;
        assert(before.subrange(0, before.len() as int) =~= before);
        while p < sorted.len() && less_key(&sorted[p], &key)
            invariant
                p <= sorted@.len(),
                before == byte_views(sorted@),
                forall|j: int| 0 <= j < sorted@.len() ==> (#[trigger] sorted@[j])@.len() == 96,
                slot(before, key@) == p + slot(before.subrange(p as int, before.len() as int), key@),
            decreases sorted@.len() - p,
        {
            proof {
                let rest = before.subrange(p as int, before.len() as int);
                assert(rest[0] == before[p as int]);
                assert(rest.drop_first() =~= before.subrange(p + 1, before.len() as int));
            }
            p = p + 1;
        }
        proof {
            let rest = before.subrange(p as int, before.len() as int);
            if p < sorted@.len() {
                assert(rest[0] == before[p as int]);
            }
            assert(slot(before, key@) == p);
        }
        let copy = slice_vec(raw_signatures[i].as_slice(), 0, SIGNATURE_SIZE);
        assert(copy@ =~= signatures[i as int]);
        sorted.insert(p, copy);
        assert(byte_views(sorted@) =~= before.insert(p as int, signatures[i as int]));
        i = i + 1;
    }
    assert(signatures.subrange(0, i as int) =~= signatures);

    let mut sigs: Vec<Vec<u8>> = Vec::new();
    let mut pkeys: Vec<Vec<u8>> = Vec::new();
    let mut k: usize = 0;
    while k < sorted.len()
        invariant
            k <= sorted@.len(),
            forall|j: int| 0 <= j < sorted@.len() ==> (#[trigger] sorted@[j])@.len() == 96,
            sigs@.len() == k,
            pkeys@.len() == k,
            forall|j: int| 0 <= j < k ==> (#[trigger] sigs@[j])@ == signature_proper(sorted@[j]@),
            forall|j: int| 0 <= j < k ==> (#[trigger] pkeys@[j])@ == public_key(sorted@[j]@),
        decreases sorted@.len() - k,
    {
        assert(sorted@[k as int]@.len() == 96);
        pkeys.push(slice_vec(sorted[k].as_slice(), 0, 32));
        sigs.push(slice_vec(sorted[k].as_slice(), 32, 96));
        k = k + 1;
    }
    assert(byte_views(sigs@) =~= byte_views(sorted@).map_values(|s: Seq<u8>| signature_proper(s)));
    assert(byte_views(pkeys@) =~= public_keys(byte_views(sorted@)));
    Ok((hash, sigs, pkeys))
}

/// Whether the key of `signature` comes before `key`.
fn less_key(signature: &Vec<u8>, key: &Vec<u8>) -> (res: bool)
    requires
        signature@.len() == 96,
    ensures
        res == lex_lt(public_key(signature@), key@),
{
    let own = slice_vec(signature.as_slice(), 0, 32);
    bytes_lt(own.as_slice(), key.as_slice())
}

/// The error of signature verification in cosmwasm_std, carried through unopened.
#[verifier::external_type_specification]
#[verifier::external_body]
pub struct ExVerificationError(cosmwasm_std::VerificationError);

/// Calls `Api::ed25519_batch_verify` of cosmwasm_std, in the implementation
/// that the crate brings for native code, with one message for all the
/// signatures. Trusted, and nothing is claimed of the outcome: batch
/// verification draws random numbers.
#[verifier::external_body]
fn ed25519_batch_verify(
    message: &Vec<u8>,
    signatures: &Vec<Vec<u8>>,
    public_keys: &Vec<Vec<u8>>,
) -> (res: Result<bool, cosmwasm_std::VerificationError>) {
    let signatures: Vec<&[u8]> = signatures.iter().map(|s| s.as_slice()).collect();
    let public_keys: Vec<&[u8]> = public_keys.iter().map(|k| k.as_slice()).collect();
    cosmwasm_std::testing::MockApi::default().ed25519_batch_verify(
        &[message.as_slice()],
        &signatures,
        &public_keys,
    )
}

/// The attributes of the observations of a report.
fn observation_attrs(observations: &Vec<i128>) -> (out: Vec<crate::host::Attribute>)
    ensures
        attribute_views(out@) == observation_attributes(observations@),
{
    let mut out: Vec<crate::host::Attribute> = Vec::new();
    let mut i: usize = 0;
    assert(attribute_views(out@) =~= observation_attributes(observations@.subrange(0, 0)));
    while i < observations.len()
        invariant
            i <= observations@.len(),
            attribute_views(out@) == observation_attributes(observations@.subrange(0, i as int)),
        decreases observations@.len() - i,
    {
        push_attr(&mut out, "observations", i128_to_string(observations[i]));
        assert(attribute_views(out@) =~= observation_attributes(
            observations@.subrange(0, i + 1),
        ));
        i = i + 1;
    }
    assert(observations@.subrange(0, i as int) =~= observations@);
    out
}

/// Takes a verified report that has passed the checks in: stores its median as
/// the answer of a new round and credits the transmitter.
fn accept(
    storage: &mut Storage,
    env: &Env,
    info: &MessageInfo,
    report_context: &Vec<u8>,
    raw_report: &Vec<u8>,
    signature_count: usize,
) -> (res: Result<Response, ContractError>)
    requires
        old(storage)@.wf(),
        old(storage)@.config is Some,
        has_key(old(storage)@.transmitters, info.sender@),
        report_context@.len() == 96,
    ensures
        came_out(
            old(storage)@.accept_report(
                env.block_time,
                info.sender@,
                report_context@,
                raw_report@,
                signature_count as nat,
            ),
            res,
            old(storage)@,
            final(storage)@,
        ),
        final(storage)@.wf(),
{
    let report = decode_report(raw_report.as_slice())?;
    let oracle: Transmitter = match storage.transmitters.get(info.sender.as_str()) {
        Some(oracle) => *oracle,
        None => {
            return Err(ContractError::Unauthorized);
        },
    };
    let epoch_bytes = slice_vec(report_context.as_slice(), 59, 63);
    proof {
        lemma_be_value_bound(epoch_bytes@);
        lemma_pow256_16();
    }
    let epoch: u32 = read_be(epoch_bytes.as_slice()) as u32;
    let round: u8 = report_context[63];
    let digest = slice_vec(report_context.as_slice(), 0, 32);
    let ghost before = storage@;
    let config = match &mut storage.config {
        Some(config) => config,
        None => {
            return Err(ContractError::Std(StdError::NotFound));
        },
    };
    if report.observations.len() > MAX_ORACLES {
        return Err(ContractError::InvalidInput);
    }
    if !((config.f as usize) < report.observations.len()) {
        return Err(ContractError::InvalidInput);
    }
    // get median, validate range, store in new aggregator round
    let answer: i128 = report.observations[report.observations.len() / 2];
    if !(config.min_answer <= answer && answer <= config.max_answer) {
        return Err(ContractError::MedianOutOfRange);
    }
    if config.latest_aggregator_round_id == u32::MAX {
        return Err(ContractError::Overflow);
    }
    // pay transmitter the gas reimbursement
    let earned = calculate_reimbursement(&config.billing, report.juels_per_luna, signature_count)?;
    let payment = match oracle.payment.checked_add(earned) {
        Some(payment) => payment,
        None => {
            return Err(ContractError::Overflow);
        },
    };
    let previous_round_id: u32 = config.latest_aggregator_round_id;
    let round_id: u32 = previous_round_id + 1;

    let mut response = Response::new().add_attribute("method", "transmit".to_owned()).add_event(
        Event::new("transmitted").add_attribute(
            "config_digest",
            hex_encode(digest.as_slice()),
        ).add_attribute("epoch", u128_to_string(epoch as u128)),
    );
    // emit new transmission
    response = response.add_event(
        Event::new("new_transmission").add_attribute(
            "aggregator_round_id",
            u128_to_string(round_id as u128),
        ).add_attribute("answer", i128_to_string(answer)).add_attribute(
            "transmitter",
            info.sender.clone(),
        ).add_attribute(
            "observations_timestamp",
            u128_to_string(report.observations_timestamp as u128),
        ).add_attribute("observers", hex_encode(report.observers.as_slice())).add_attribute(
            "juels_per_luna",
            u128_to_string(report.juels_per_luna),
        ).add_attribute("config_digest", hex_encode(digest.as_slice())).add_attribute(
            "epoch",
            u128_to_string(epoch as u128),
        ).add_attribute("round", u128_to_string(round as u128)).add_attributes(
            observation_attrs(&report.observations),
        ),
    );
    match &config.validator {
        Some(validator) => {
            if previous_round_id >= 1 {
                response = response.add_message(
                    Message::Validate {
                        validator: validator.address.clone(),
                        gas_limit: validator.gas_limit,
                        previous_round_id,
                        previous_answer: storage.transmissions[previous_round_id as usize - 1].answer,
                        round_id,
                        answer,
                    },
                );
            }
        },
        None => {},
    }
    config.epoch = epoch;
    config.round = round;
    config.latest_aggregator_round_id = round_id;
    storage.transmissions.push(
        Transmission {
            answer,
            observations_timestamp: report.observations_timestamp,
            transmission_timestamp: (env.block_time % 0x1_0000_0000) as u32,
        },
    );
    storage.transmitters.insert(info.sender.clone(), Transmitter { payment, ..oracle });
    proof {
        lemma_put(before.transmitters, info.sender@, Transmitter { payment, ..oracle });
        let after = storage@.transmitters;
        assert forall|i: int| 0 <= i < after.len() implies (#[trigger] after[i]).1.from_round_id
            <= round_id by {
            if i != crate::table::index_of(before.transmitters, info.sender@) {
                assert(after[i] == before.transmitters[i]);
            }
        }
    }
    Ok(response.add_attribute("method", "transmit".to_owned()))
}

/// Takes a report in, given what the verification of its signatures said:
/// `None` where they could not be verified at all.
pub fn transmit_with_verdict(
    storage: &mut Storage,
    env: Env,
    info: MessageInfo,
    report_context: Vec<u8>,
    raw_report: Vec<u8>,
    raw_signatures: Vec<[u8; 96]>,
    verdict: Option<bool>,
) -> (res: Result<Response, ContractError>)
    requires
        old(storage)@.wf(),
    ensures
        came_out(
            old(storage)@.transmit(
                env.block_time,
                info.sender@,
                report_context@,
                raw_report@,
                signature_views(raw_signatures@),
                verdict,
            ),
            res,
            old(storage)@,
            final(storage)@,
        ),
        final(storage)@.wf(),
{
    check_report(storage, &info, &report_context, &raw_report, &raw_signatures)?;
    match verdict {
        None => Err(ContractError::Verification),
        Some(false) => Err(ContractError::InvalidSignature),
        Some(true) => accept(
            storage,
            &env,
            &info,
            &report_context,
            &raw_report,
            raw_signatures.len(),
        ),
    }
}

/// Takes a report in. Its signatures are verified in a batch, against the hash
/// of the report and its context; whatever the verification says, the outcome
/// is that of `transmit_with_verdict` for what it said.
pub fn execute_transmit(
    storage: &mut Storage,
    env: Env,
    info: MessageInfo,
    report_context: Vec<u8>,
    raw_report: Vec<u8>,
    raw_signatures: Vec<[u8; 96]>,
) -> (res: Result<Response, ContractError>)
    requires
        old(storage)@.wf(),
    ensures
        exists|verdict: Option<bool>|
            came_out(
                #[trigger] old(storage)@.transmit(
                    env.block_time,
                    info.sender@,
                    report_context@,
                    raw_report@,
                    signature_views(raw_signatures@),
                    verdict,
                ),
                res,
                old(storage)@,
                final(storage)@,
            ),
        // A report that fails a check is rejected for it, whatever its signatures say
        match old(storage)@.transmit_checks(
            info.sender@,
            report_context@,
            raw_report@,
            signature_views(raw_signatures@),
        ) {
            Err(e) => res == Err::<Response, ContractError>(e) && final(storage)@ == old(storage)@,
            Ok(_) => true,
        },
        report_context@.len() == 96 && old(storage)@.config is Some && !(old(
            storage,
        )@.config->Some_0.epoch < context_epoch(report_context@) || (old(
            storage,
        )@.config->Some_0.epoch == context_epoch(report_context@) && old(
            storage,
        )@.config->Some_0.round < context_round(report_context@))) ==> res == Err::<
            Response,
            ContractError,
        >(ContractError::StaleReport) && final(storage)@ == old(storage)@,
        // An accepted report is one that verification has confirmed
        res is Ok ==> came_out(
            old(storage)@.transmit(
                env.block_time,
                info.sender@,
                report_context@,
                raw_report@,
                signature_views(raw_signatures@),
                Some(true),
            ),
            res,
            old(storage)@,
            final(storage)@,
        ),
        final(storage)@.wf(),
{
    let verdict = match verification_input(
        storage,
        &info,
        &report_context,
        &raw_report,
        &raw_signatures,
    ) {
        Ok((hash, sigs, pkeys)) => match ed25519_batch_verify(&hash, &sigs, &pkeys) {
            Ok(verified) => Some(verified),
            Err(_) => None,
        },
        Err(_) => None,
    };
    transmit_with_verdict(
        storage,
        env,
        info,
        report_context,
        raw_report,
        raw_signatures,
        verdict,
    )
}

} // verus!
