//! What holds of the aggregator whatever it is sent.

use crate::host::{EnvView, ResponseView};
use crate::ocr2::config::lemma_install_rounds;
use crate::ocr2::error::ContractError;
use crate::ocr2::payment::{owed, reimbursement, settle};
use crate::ocr2::state::{ConfigView, StorageView, Transmitter};
use crate::ocr2::report::decode;
use crate::ocr2::transmit::{context_epoch, context_round};
use crate::table::{has_key, index_of, lemma_put, value_of};
use vstd::prelude::*;

verus! {

/// A report as it is sent, with what verification says of its signatures.
pub ghost struct Transmission {
    pub block_time: u64,
    pub sender: Seq<char>,
    pub context: Seq<u8>,
    pub raw_report: Seq<u8>,
    pub signatures: Seq<Seq<u8>>,
    pub verdict: Option<bool>,
}

impl StorageView {
    /// The storage after the report `t`: changed where it is accepted, as it
    /// was where it is rejected.
    pub open spec fn after(self, t: Transmission) -> StorageView {
        match self.transmit(t.block_time, t.sender, t.context, t.raw_report, t.signatures, t.verdict) {
            Ok((state, _)) => state,
            Err(_) => self,
        }
    }

    /// The storage after the reports of `sent`, one after the other.
    pub open spec fn after_all(self, sent: Seq<Transmission>) -> StorageView
        decreases sent.len(),
    {
        if sent.len() == 0 {
            self
        } else {
            self.after_all(sent.drop_last()).after(sent.last())
        }
    }

    /// The number of reports of `sent` that are accepted, sent one after the
    /// other.
    pub open spec fn accepted(self, sent: Seq<Transmission>) -> nat
        decreases sent.len(),
    {
        if sent.len() == 0 {
            0
        } else {
            let before = self.after_all(sent.drop_last());
            let t = sent.last();
            self.accepted(sent.drop_last()) + if before.transmit(
                t.block_time,
                t.sender,
                t.context,
                t.raw_report,
                t.signatures,
                t.verdict,
            ) is Ok {
                1nat
            } else {
                0nat
            }
        }
    }
}

/// An accepted report opens the round after the latest, and stores one answer.
pub proof fn lemma_accepted_report_opens_next_round(s: StorageView, t: Transmission)
    requires
        s.transmit(t.block_time, t.sender, t.context, t.raw_report, t.signatures, t.verdict) is Ok,
    ensures
        s.config is Some,
        s.after(t).config is Some,
        s.after(t).config->Some_0.latest_aggregator_round_id
            == s.config->Some_0.latest_aggregator_round_id + 1,
        s.after(t).transmissions.len() == s.transmissions.len() + 1,
        s.after(t).transmissions.subrange(0, s.transmissions.len() as int) == s.transmissions,
{
    assert(s.after(t).transmissions.subrange(0, s.transmissions.len() as int)
        =~= s.transmissions);
}

/// Over any sequence of reports the latest round grows by one for each report
/// that is accepted, and by nothing else.
pub proof fn lemma_rounds_count_accepted_reports(s: StorageView, sent: Seq<Transmission>)
    requires
        s.config is Some,
    ensures
        s.after_all(sent).config is Some,
        s.after_all(sent).config->Some_0.latest_aggregator_round_id
            == s.config->Some_0.latest_aggregator_round_id + s.accepted(sent),
    decreases sent.len(),
{
    if sent.len() > 0 {
        lemma_rounds_count_accepted_reports(s, sent.drop_last());
        let before = s.after_all(sent.drop_last());
        let t = sent.last();
        if before.transmit(
            t.block_time,
            t.sender,
            t.context,
            t.raw_report,
            t.signatures,
            t.verdict,
        ) is Ok {
            lemma_accepted_report_opens_next_round(before, t);
        }
    }
}

/// A report leaves the storage sound: each round up to the latest has its
/// answer, and no account counts from a round yet to come.
pub proof fn lemma_report_keeps_storage_sound(s: StorageView, t: Transmission)
    requires
        s.wf(),
    ensures
        s.after(t).wf(),
{
    if s.transmit(t.block_time, t.sender, t.context, t.raw_report, t.signatures, t.verdict) is Ok {
        let after = s.after(t);
        let credited = after.transmitters[index_of(s.transmitters, t.sender)].1;
        lemma_put(s.transmitters, t.sender, credited);
        assert forall|i: int| 0 <= i < after.transmitters.len() implies (
        #[trigger] after.transmitters[i]).1.from_round_id
            <= after.config->Some_0.latest_aggregator_round_id by {
            if i != index_of(s.transmitters, t.sender) {
                assert(after.transmitters[i] == s.transmitters[i]);
            }
        }
    }
}

/// Any sequence of reports leaves the storage sound.
pub proof fn lemma_reports_keep_storage_sound(s: StorageView, sent: Seq<Transmission>)
    requires
        s.wf(),
    ensures
        s.after_all(sent).wf(),
    decreases sent.len(),
{
    if sent.len() > 0 {
        lemma_reports_keep_storage_sound(s, sent.drop_last());
        lemma_report_keeps_storage_sound(s.after_all(sent.drop_last()), sent.last());
    }
}

/// A report whose epoch and round are not after those of the latest report is
/// rejected as stale and changes nothing, whoever sends it, whatever it holds,
/// whatever its signatures are and whatever verification says of them.
pub proof fn lemma_stale_report_rejected(s: StorageView, t: Transmission)
    requires
        s.config is Some,
        t.context.len() == 96,
        context_epoch(t.context) < s.config->Some_0.epoch || (context_epoch(t.context)
            == s.config->Some_0.epoch && context_round(t.context) <= s.config->Some_0.round),
    ensures
        s.transmit(t.block_time, t.sender, t.context, t.raw_report, t.signatures, t.verdict)
            == Err::<(StorageView, ResponseView), ContractError>(ContractError::StaleReport),
        s.after(t) == s,
{
}

/// An accepted report carries as many signatures as the committee asks for,
/// moves the epoch and the round to its own, and adds to what its transmitter
/// has earned the reimbursement of the gas that it took, nothing more. The
/// round from which the transmitter is paid for observations stays, as do the
/// other transmitters, the payees and the signers.
pub proof fn lemma_accepted_report_credits_reimbursement(s: StorageView, t: Transmission)
    requires
        s.wf(),
        s.transmit(t.block_time, t.sender, t.context, t.raw_report, t.signatures, t.verdict) is Ok,
    ensures
        s.config is Some,
        t.signatures.len() == s.config->Some_0.f + 1,
        decode(t.raw_report) is Ok,
        reimbursement(
            s.config->Some_0.billing,
            decode(t.raw_report)->Ok_0.juels_per_luna,
            t.signatures.len(),
        ) is Some,
        has_key(s.transmitters, t.sender),
        has_key(s.after(t).transmitters, t.sender),
        value_of(s.after(t).transmitters, t.sender).payment == value_of(
            s.transmitters,
            t.sender,
        ).payment + reimbursement(
            s.config->Some_0.billing,
            decode(t.raw_report)->Ok_0.juels_per_luna,
            t.signatures.len(),
        )->Some_0,
        value_of(s.after(t).transmitters, t.sender).from_round_id == value_of(
            s.transmitters,
            t.sender,
        ).from_round_id,
        forall|other: Seq<char>|
            other != t.sender ==> has_key(s.after(t).transmitters, other) == has_key(
                s.transmitters,
                other,
            ) && (has_key(s.transmitters, other) ==> value_of(s.after(t).transmitters, other)
                == value_of(s.transmitters, other)),
        s.after(t).payees == s.payees,
        s.after(t).signers == s.signers,
        s.after(t).config is Some,
        s.after(t).config->Some_0.epoch == context_epoch(t.context),
        s.after(t).config->Some_0.round == context_round(t.context),
{
    let oracle = value_of(s.transmitters, t.sender);
    let earned = reimbursement(
        s.config->Some_0.billing,
        decode(t.raw_report)->Ok_0.juels_per_luna,
        t.signatures.len(),
    )->Some_0;
    lemma_put(
        s.transmitters,
        t.sender,
        Transmitter { payment: (oracle.payment + earned) as u128, ..oracle },
    );
}

/// After a payee has taken out what its transmitter is owed, the transmitter
/// is owed nothing, and a second withdrawal moves no tokens and changes
/// nothing.
pub proof fn lemma_second_withdrawal_is_empty(s: StorageView, payee: Seq<char>, transmitter: Seq<char>)
    requires
        s.wf(),
        s.withdraw_payment(payee, transmitter) is Ok,
    ensures
        s.withdraw_payment(payee, transmitter)->Ok_0.0.owed_payment(transmitter) == Ok::<
            u128,
            crate::host::StdError,
        >(0),
        s.withdraw_payment(payee, transmitter)->Ok_0.0.withdraw_payment(payee, transmitter) == Ok::<
            (StorageView, ResponseView),
            ContractError,
        >(
            (
                s.withdraw_payment(payee, transmitter)->Ok_0.0,
                ResponseView::new().attr("method"@, "withdraw_payment"@),
            ),
        ),
{
    let c = s.config->Some_0;
    let fresh = Transmitter { payment: 0, from_round_id: c.latest_aggregator_round_id };
    lemma_put(s.transmitters, transmitter, fresh);
    assert(owed(c, fresh) == Some(0u128)) by (nonlinear_arith)
        requires
            fresh.payment == 0,
            fresh.from_round_id == c.latest_aggregator_round_id,
    ;
}

/// Where the committee can be paid, each of its transmitters is owed nothing
/// afterwards.
pub proof fn lemma_settle_clears_debts(
    transmitters: Seq<(Seq<char>, Transmitter)>,
    payees: Seq<(Seq<char>, Seq<char>)>,
    config: ConfigView,
)
    requires
        settle(transmitters, payees, config) is Ok,
    ensures
        settle(transmitters, payees, config)->Ok_0.transmitters.len() == transmitters.len(),
        forall|i: int|
            0 <= i < transmitters.len() ==> owed(
                config,
                (#[trigger] settle(transmitters, payees, config)->Ok_0.transmitters[i]).1,
            ) == Some(0u128),
    decreases transmitters.len(),
{
    if transmitters.len() > 0 {
        lemma_settle_clears_debts(transmitters.drop_last(), payees, config);
        let before = settle(transmitters.drop_last(), payees, config)->Ok_0.transmitters;
        let after = settle(transmitters, payees, config)->Ok_0.transmitters;
        let fresh = Transmitter { payment: 0, from_round_id: config.latest_aggregator_round_id };
        assert(owed(config, fresh) == Some(0u128)) by (nonlinear_arith)
            requires
                fresh.payment == 0,
                fresh.from_round_id == config.latest_aggregator_round_id,
        ;
        assert forall|i: int| 0 <= i < transmitters.len() implies owed(
            config,
            (#[trigger] after[i]).1,
        ) == Some(0u128) by {
            if i < transmitters.len() - 1 {
                assert(after[i] == before[i]);
            }
        }
    }
}

/// A transmitter that is owed something and has no payee keeps the committee
/// from being paid.
pub proof fn lemma_missing_payee_blocks(
    transmitters: Seq<(Seq<char>, Transmitter)>,
    payees: Seq<(Seq<char>, Seq<char>)>,
    config: ConfigView,
    i: int,
)
    requires
        0 <= i < transmitters.len(),
        owed(config, transmitters[i].1) != Some(0u128),
        !has_key(payees, transmitters[i].0),
    ensures
        settle(transmitters, payees, config) is Err,
    decreases transmitters.len(),
{
    if i < transmitters.len() - 1 {
        assert(transmitters.drop_last()[i] == transmitters[i]);
        lemma_missing_payee_blocks(transmitters.drop_last(), payees, config, i);
    }
}

/// Where a committee takes office, the committee that leaves has been paid in
/// full by the transfers of the response, and no transmitter of the new
/// committee is owed anything. Where the committee that leaves cannot be
/// paid, no committee takes office.
pub proof fn lemma_rotation_settles_debts(
    s: StorageView,
    env: EnvView,
    signers: Seq<Seq<u8>>,
    transmitters: Seq<Seq<char>>,
    f: u8,
    onchain_config: Seq<u8>,
    offchain_config_version: u64,
    offchain_config: Seq<u8>,
    response: ResponseView,
)
    requires
        s.config is Some,
    ensures
        settle(s.transmitters, s.payees, s.config->Some_0) is Err ==> s.rotate(
            env,
            signers,
            transmitters,
            f,
            onchain_config,
            offchain_config_version,
            offchain_config,
            response,
        ) is Err,
        s.rotate(
            env,
            signers,
            transmitters,
            f,
            onchain_config,
            offchain_config_version,
            offchain_config,
            response,
        ) matches Ok((after, sent)) ==> {
            &&& settle(s.transmitters, s.payees, s.config->Some_0) matches Ok(paid)
            &&& sent.messages == response.messages + paid.messages
            &&& forall|i: int|
                0 <= i < s.transmitters.len() ==> owed(
                    s.config->Some_0,
                    (#[trigger] paid.transmitters[i]).1,
                ) == Some(0u128)
            &&& forall|i: int|
                0 <= i < after.transmitters.len() ==> owed(
                    after.config->Some_0,
                    (#[trigger] after.transmitters[i]).1,
                ) == Some(0u128)
        },
{
    let c = s.config->Some_0;
    let result = s.rotate(
        env,
        signers,
        transmitters,
        f,
        onchain_config,
        offchain_config_version,
        offchain_config,
        response,
    );
    if result is Ok {
        lemma_settle_clears_debts(s.transmitters, s.payees, c);
        lemma_install_rounds(transmitters, c.latest_aggregator_round_id);
        let after = result->Ok_0.0;
        let fresh = Transmitter { payment: 0, from_round_id: c.latest_aggregator_round_id };
        assert(owed(after.config->Some_0, fresh) == Some(0u128)) by (nonlinear_arith)
            requires
                fresh.payment == 0,
                fresh.from_round_id == after.config->Some_0.latest_aggregator_round_id,
        ;
    }
}

/// Where the owner's new committee takes office, the transfers of the response
/// are those that pay the committee that leaves, and no transmitter of the new
/// committee is owed anything.
pub proof fn lemma_set_config_settles_debts(
    s: StorageView,
    env: EnvView,
    sender: Seq<char>,
    signers: Seq<Seq<u8>>,
    transmitters: Seq<Seq<char>>,
    f: u8,
    onchain_config: Seq<u8>,
    offchain_config_version: u64,
    offchain_config: Seq<u8>,
)
    ensures
        s.set_config(
            env,
            sender,
            signers,
            transmitters,
            f,
            onchain_config,
            offchain_config_version,
            offchain_config,
        ) matches Ok((after, sent)) ==> {
            &&& settle(s.transmitters, s.payees, s.config->Some_0) matches Ok(paid)
            &&& sent.messages == paid.messages
            &&& forall|i: int|
                0 <= i < after.transmitters.len() ==> owed(
                    after.config->Some_0,
                    (#[trigger] after.transmitters[i]).1,
                ) == Some(0u128)
        },
{
    if s.config is Some {
        lemma_rotation_settles_debts(
            s,
            env,
            signers,
            transmitters,
            f,
            onchain_config,
            offchain_config_version,
            offchain_config,
            ResponseView::new().attr("method"@, "set_config"@),
        );
        let first = ResponseView::new().attr("method"@, "set_config"@);
        assert(first.messages =~= Seq::empty());
        if settle(s.transmitters, s.payees, s.config->Some_0) is Ok {
            let paid = settle(s.transmitters, s.payees, s.config->Some_0)->Ok_0;
            assert(first.messages + paid.messages =~= paid.messages);
        }
    }
}

/// Where an accepted proposal's committee takes office, the transfers of the
/// response are those that pay the committee that leaves, and no transmitter
/// of the new committee is owed anything.
pub proof fn lemma_accept_proposal_settles_debts(
    s: StorageView,
    env: EnvView,
    sender: Seq<char>,
    id: u128,
    digest: Seq<u8>,
)
    ensures
        s.accept_proposal(env, sender, id, digest) matches Ok((after, sent)) ==> {
            &&& settle(s.transmitters, s.payees, s.config->Some_0) matches Ok(paid)
            &&& sent.messages == paid.messages
            &&& forall|i: int|
                0 <= i < after.transmitters.len() ==> owed(
                    after.config->Some_0,
                    (#[trigger] after.transmitters[i]).1,
                ) == Some(0u128)
        },
{
    if s.accept_proposal(env, sender, id, digest) is Ok {
        let p = s.proposal(id);
        let first = StorageView::staging_response("accept_proposal"@, id);
        lemma_rotation_settles_debts(
            s,
            env,
            crate::ocr2::proposal::oracle_signers(p.oracles),
            crate::ocr2::proposal::oracle_transmitters(p.oracles),
            p.f,
            Seq::empty(),
            p.offchain_config_version,
            p.offchain_config,
            first,
        );
        assert(first.messages =~= Seq::empty());
        let paid = settle(s.transmitters, s.payees, s.config->Some_0)->Ok_0;
        assert(first.messages + paid.messages =~= paid.messages);
    }
}

} // verus!
