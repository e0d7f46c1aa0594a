//! Staging a committee, and accepting what was staged by its digest.

use crate::bytes::{byte_views, bytes_eq, slice_vec};
use crate::host::{came_out, Env, EnvView, MessageInfo, Response, ResponseView, StdError};
use crate::ocr2::config::{committee_fault, has_duplicates, rotate};
use crate::ocr2::error::ContractError;
use crate::ocr2::state::{Proposal, ProposalView, Storage, StorageView, MAX_ORACLES};
use crate::table::{has_key, lemma_put, put, value_of, Table};
use crate::text::{decimal, hex, hex_encode, text_views, u128_to_string};
use vstd::prelude::*;

verus! {

/// The signers of staged oracles.
pub open spec fn oracle_signers(oracles: Seq<(Seq<u8>, Seq<char>, Seq<char>)>) -> Seq<Seq<u8>> {
    Seq::new(oracles.len(), |i: int| oracles[i].0)
}

/// The transmitters of staged oracles.
pub open spec fn oracle_transmitters(oracles: Seq<(Seq<u8>, Seq<char>, Seq<char>)>) -> Seq<
    Seq<char>,
> {
    Seq::new(oracles.len(), |i: int| oracles[i].1)
}

/// Each signer with the transmitter and the payee at its place.
pub open spec fn staged(
    signers: Seq<Seq<u8>>,
    transmitters: Seq<Seq<char>>,
    payees: Seq<Seq<char>>,
) -> Seq<(Seq<u8>, Seq<char>, Seq<char>)> {
    Seq::new(signers.len(), |i: int| (signers[i], transmitters[i], payees[i]))
}

/// The views of staged oracles.
pub open spec fn staged_views(oracles: Seq<(Vec<u8>, String, String)>) -> Seq<
    (Seq<u8>, Seq<char>, Seq<char>),
> {
    oracles.map_values(|o: (Vec<u8>, String, String)| (o.0@, o.1@, o.2@))
}

/// The payees after each staged oracle in turn has been given its payee. It
/// fails at the first transmitter that has another payee already.
pub open spec fn with_committee_payees(
    payees: Seq<(Seq<char>, Seq<char>)>,
    oracles: Seq<(Seq<u8>, Seq<char>, Seq<char>)>,
) -> Result<Seq<(Seq<char>, Seq<char>)>, ContractError>
    decreases oracles.len(),
{
    if oracles.len() == 0 {
        Ok(payees)
    } else {
        match with_committee_payees(payees, oracles.drop_last()) {
            Err(e) => Err(e),
            Ok(table) => if has_key(table, oracles.last().1) && value_of(table, oracles.last().1)
                != oracles.last().2 {
                Err(ContractError::PayeeAlreadySet)
            } else {
                Ok(put(table, oracles.last().1, oracles.last().2))
            },
        }
    }
}

/// Once a staged oracle has had another payee already, the committee has failed.
pub proof fn lemma_committee_payees_error_stays(
    payees: Seq<(Seq<char>, Seq<char>)>,
    oracles: Seq<(Seq<u8>, Seq<char>, Seq<char>)>,
    k: int,
)
    requires
        0 <= k <= oracles.len(),
        with_committee_payees(payees, oracles.subrange(0, k)) is Err,
    ensures
        with_committee_payees(payees, oracles) == with_committee_payees(
            payees,
            oracles.subrange(0, k),
        ),
    decreases oracles.len() - k,
{
    if k == oracles.len() {
        assert(oracles.subrange(0, k) =~= oracles);
    } else {
        assert(oracles.drop_last().subrange(0, k) =~= oracles.subrange(0, k));
        lemma_committee_payees_error_stays(payees, oracles.drop_last(), k);
    }
}

impl StorageView {
    /// A committee is staged under `id`.
    pub open spec fn has_proposal(self, id: u128) -> bool {
        exists|i: int| 0 <= i < self.proposals.len() && (#[trigger] self.proposals[i]).0 == id
    }

    /// The place of the committee staged under `id`.
    pub open spec fn proposal_index(self, id: u128) -> int {
        choose|i: int| 0 <= i < self.proposals.len() && (#[trigger] self.proposals[i]).0 == id
    }

    /// The committee staged under `id`.
    pub open spec fn proposal(self, id: u128) -> ProposalView {
        self.proposals[self.proposal_index(id)].1
    }

    /// The storage with `next` as the committee staged under `id`.
    pub open spec fn with_proposal(self, id: u128, next: ProposalView) -> StorageView {
        StorageView {
            proposals: self.proposals.update(self.proposal_index(id), (id, next)),
            ..self
        }
    }

    /// The response to a step of staging.
    pub open spec fn staging_response(method: Seq<char>, id: u128) -> ResponseView {
        ResponseView::new().attr("method"@, method).attr("proposal_id"@, decimal(id as nat))
    }

    /// The proposal `id` is there, is the sender's, and is still open.
    pub open spec fn open_proposal(self, sender: Seq<char>, id: u128) -> Result<(), ContractError> {
        if !self.has_proposal(id) {
            Err(ContractError::Std(StdError::NotFound))
        } else if self.proposal(id).owner != sender {
            Err(ContractError::Unauthorized)
        } else if self.proposal(id).finalized {
            Err(ContractError::InvalidInput)
        } else {
            Ok(())
        }
    }

    /// The owner opens a proposal, which is the owner's to fill.
    pub open spec fn begin_proposal(self, sender: Seq<char>) -> Result<
        (StorageView, ResponseView),
        ContractError,
    > {
        match self.owner_only(sender) {
            Err(e) => Err(e),
            Ok(_) => if self.next_proposal_id == u128::MAX {
                Err(ContractError::Overflow)
            } else {
                Ok(
                    (
                        StorageView {
                            next_proposal_id: (self.next_proposal_id + 1) as u128,
                            proposals: self.proposals.push(
                                (
                                    self.next_proposal_id,
                                    ProposalView {
                                        owner: sender,
                                        finalized: false,
                                        oracles: Seq::empty(),
                                        f: 0,
                                        offchain_config_version: 0,
                                        offchain_config: Seq::empty(),
                                    },
                                ),
                            ),
                            ..self
                        },
                        Self::staging_response("begin_proposal"@, self.next_proposal_id).attr(
                            "owner"@,
                            sender,
                        ),
                    ),
                )
            },
        }
    }

    /// The proposal's owner withdraws it.
    pub open spec fn clear_proposal(self, sender: Seq<char>, id: u128) -> Result<
        (StorageView, ResponseView),
        ContractError,
    > {
        if !self.has_proposal(id) {
            Err(ContractError::Std(StdError::NotFound))
        } else if self.proposal(id).owner != sender {
            Err(ContractError::Unauthorized)
        } else {
            Ok(
                (
                    StorageView { proposals: self.proposals.remove(self.proposal_index(id)), ..self },
                    Self::staging_response("clear_proposal"@, id),
                ),
            )
        }
    }

    /// The proposal's owner stages the committee.
    pub open spec fn propose_config(
        self,
        sender: Seq<char>,
        id: u128,
        signers: Seq<Seq<u8>>,
        transmitters: Seq<Seq<char>>,
        payees: Seq<Seq<char>>,
        f: u8,
        onchain_config: Seq<u8>,
    ) -> Result<(StorageView, ResponseView), ContractError> {
        match self.open_proposal(sender, id) {
            Err(e) => Err(e),
            Ok(_) => if committee_fault(signers, transmitters, f) is Some {
                Err(committee_fault(signers, transmitters, f)->Some_0)
            } else if payees.len() != signers.len() {
                Err(ContractError::InvalidInput)
            } else if onchain_config.len() != 0 {
                Err(ContractError::InvalidInput)
            } else if !signers.no_duplicates() || !transmitters.no_duplicates() {
                Err(ContractError::RepeatedAddress)
            } else {
                Ok(
                    (
                        self.with_proposal(
                            id,
                            ProposalView {
                                oracles: staged(signers, transmitters, payees),
                                f,
                                ..self.proposal(id)
                            },
                        ),
                        Self::staging_response("propose_config"@, id),
                    ),
                )
            },
        }
    }

    /// The proposal's owner stages the configuration of the reporting protocol.
    pub open spec fn propose_offchain_config(
        self,
        sender: Seq<char>,
        id: u128,
        offchain_config_version: u64,
        offchain_config: Seq<u8>,
    ) -> Result<(StorageView, ResponseView), ContractError> {
        match self.open_proposal(sender, id) {
            Err(e) => Err(e),
            Ok(_) => if offchain_config.len() == 0 {
                Err(ContractError::InvalidInput)
            } else {
                Ok(
                    (
                        self.with_proposal(
                            id,
                            ProposalView {
                                offchain_config_version,
                                offchain_config,
                                ..self.proposal(id)
                            },
                        ),
                        Self::staging_response("propose_offchain_config"@, id),
                    ),
                )
            },
        }
    }

    /// The proposal's owner closes the proposal: from now on it can only be
    /// accepted as it is, by its digest, or withdrawn.
    pub open spec fn finalize_proposal(self, sender: Seq<char>, id: u128) -> Result<
        (StorageView, ResponseView),
        ContractError,
    > {
        match self.open_proposal(sender, id) {
            Err(e) => Err(e),
            Ok(_) => if self.proposal(id).oracles.len() == 0 || self.proposal(
                id,
            ).offchain_config.len() == 0 {
                Err(ContractError::InvalidInput)
            } else {
                Ok(
                    (
                        self.with_proposal(id, ProposalView { finalized: true, ..self.proposal(id) }),
                        Self::staging_response("finalize_proposal"@, id).attr(
                            "digest"@,
                            hex(self.proposal(id).digest()),
                        ),
                    ),
                )
            },
        }
    }

    /// The contract's owner accepts the closed proposal `id` by its digest: its
    /// committee takes office, with its payees.
    pub open spec fn accept_proposal(self, env: EnvView, sender: Seq<char>, id: u128, digest: Seq<u8>)
        -> Result<(StorageView, ResponseView), ContractError> {
        match self.owner_only(sender) {
            Err(e) => Err(e),
            Ok(_) => if digest.len() != 32 {
                Err(ContractError::InvalidInput)
            } else if self.config is None || !self.has_proposal(id) {
                Err(ContractError::Std(StdError::NotFound))
            } else if !self.proposal(id).finalized {
                Err(ContractError::InvalidInput)
            } else if self.proposal(id).digest() != digest {
                Err(ContractError::DigestMismatch)
            } else {
                let p = self.proposal(id);
                match with_committee_payees(self.payees, p.oracles) {
                    Err(e) => Err(e),
                    Ok(payees) => match self.rotate(
                        env,
                        oracle_signers(p.oracles),
                        oracle_transmitters(p.oracles),
                        p.f,
                        Seq::empty(),
                        p.offchain_config_version,
                        p.offchain_config,
                        Self::staging_response("accept_proposal"@, id),
                    ) {
                        Err(e) => Err(e),
                        Ok((state, response)) => Ok(
                            (
                                StorageView {
                                    payees,
                                    proposals: self.proposals.remove(self.proposal_index(id)),
                                    ..state
                                },
                                response,
                            ),
                        ),
                    },
                }
            },
        }
    }
}

/// The views of staged committees with their ids.
pub open spec fn proposal_views(list: Seq<(u128, Proposal)>) -> Seq<(u128, ProposalView)> {
    list.map_values(|p: (u128, Proposal)| (p.0, p.1@))
}

/// The place of the committee staged under `id`.
pub fn find_proposal(storage: &Storage, id: u128) -> (res: Option<usize>)
    requires
        storage@.wf(),
    ensures
        res is Some == storage@.has_proposal(id),
        res matches Some(i) ==> i == storage@.proposal_index(id) && i < storage@.proposals.len(),
{
    let mut i: usize = 0;
    while i < storage.proposals.len()
        invariant
            i <= storage.proposals@.len(),
            storage@.wf(),
            forall|j: int| 0 <= j < i ==> (#[trigger] storage@.proposals[j]).0 != id,
        decreases storage.proposals@.len() - i,
    {
        if storage.proposals[i].0 == id {
            assert(storage@.proposals[i as int].0 == id);
            return Some(i);
        }
        i = i + 1;
    }
    None
}

/// Whether a text occurs twice in `list`.
pub fn has_duplicate_texts(list: &Vec<String>) -> (res: bool)
    ensures
        res == !text_views(list@).no_duplicates(),
{
    let ghost views = text_views(list@);
    let mut i: usize = 0;
    while i < list.len()
        invariant
            i <= list@.len(),
            views == text_views(list@),
            forall|a: int, b: int| 0 <= a < b < i ==> views[a] != views[b],
        decreases list@.len() - i,
    {
        let mut j: usize = 0;
        while j < i
            invariant
                j <= i < list@.len(),
                views == text_views(list@),
                forall|a: int| 0 <= a < j ==> views[a] != views[i as int],
            decreases i - j,
        {
            if list[j] == list[i] {
                assert(views[j as int] == views[i as int]);
                return true;
            }
            j = j + 1;
        }
        i = i + 1;
    }
    false
}

/// The sender's open proposal `id`.
fn open_proposal(storage: &Storage, info: &MessageInfo, id: u128) -> (res: Result<
    usize,
    ContractError,
>)
    requires
        storage@.wf(),
    ensures
        match storage@.open_proposal(info.sender@, id) {
            Ok(_) => res is Ok && res->Ok_0 == storage@.proposal_index(id) && res->Ok_0
                < storage@.proposals.len(),
            Err(e) => res == Err::<usize, ContractError>(e),
        },
{
    let i = match find_proposal(storage, id) {
        Some(i) => i,
        None => {
            return Err(ContractError::Std(StdError::NotFound));
        },
    };
    assert(storage@.proposals[i as int].1 == storage.proposals@[i as int].1@);
    if storage.proposals[i].1.owner != info.sender {
        return Err(ContractError::Unauthorized);
    }
    if storage.proposals[i].1.finalized {
        return Err(ContractError::InvalidInput);
    }
    Ok(i)
}

/// The response to a step of staging.
fn staging_response(method: &str, id: u128) -> (r: Response)
    ensures
        r@ == StorageView::staging_response(method@, id),
{
    Response::new().add_attribute("method", method.to_owned()).add_attribute(
        "proposal_id",
        u128_to_string(id),
    )
}

/// The owner opens a proposal.
pub fn execute_begin_proposal(storage: &mut Storage, _env: Env, info: MessageInfo) -> (res: Result<
    Response,
    ContractError,
>)
    requires
        old(storage)@.wf(),
    ensures
        came_out(old(storage)@.begin_proposal(info.sender@), res, old(storage)@, final(storage)@),
        final(storage)@.wf(),
{
    crate::ocr2::admin::owner_only(storage, &info)?;
    let id = storage.next_proposal_id;
    if id == u128::MAX {
        return Err(ContractError::Overflow);
    }
    let ghost before = storage@;
    let response = staging_response("begin_proposal", id).add_attribute(
        "owner",
        info.sender.clone(),
    );
    storage.next_proposal_id = id + 1;
    storage.proposals.push(
        (
            id,
            Proposal {
                owner: info.sender,
                finalized: false,
                oracles: Vec::new(),
                f: 0,
                offchain_config_version: 0,
                offchain_config: Vec::new(),
            },
        ),
    );
    proof {
        let added = storage.proposals@.last().1@;
        assert(added.oracles =~= Seq::empty());
        assert(added.offchain_config =~= Seq::empty());
        assert(storage@.proposals =~= before.proposals.push((id, added)));
    }
    Ok(response)
}

/// The proposal's owner withdraws it.
pub fn execute_clear_proposal(storage: &mut Storage, _env: Env, info: MessageInfo, id: u128) -> (res:
    Result<Response, ContractError>)
    requires
        old(storage)@.wf(),
    ensures
        came_out(
            old(storage)@.clear_proposal(info.sender@, id),
            res,
            old(storage)@,
            final(storage)@,
        ),
        final(storage)@.wf(),
{
    let i = match find_proposal(storage, id) {
        Some(i) => i,
        None => {
            return Err(ContractError::Std(StdError::NotFound));
        },
    };
    assert(storage@.proposals[i as int].1 == storage.proposals@[i as int].1@);
    if storage.proposals[i].1.owner != info.sender {
        return Err(ContractError::Unauthorized);
    }
    let ghost before = storage@;
    let _ = storage.proposals.remove(i);
    assert(storage@.proposals =~= before.proposals.remove(i as int));
    Ok(staging_response("clear_proposal", id))
}

/// Each signer with the transmitter and the payee at its place.
fn stage(signers: Vec<Vec<u8>>, transmitters: Vec<String>, payees: Vec<String>) -> (out: Vec<
    (Vec<u8>, String, String),
>)
    requires
        signers@.len() == transmitters@.len(),
        signers@.len() == payees@.len(),
    ensures
        staged_views(out@) == staged(
            byte_views(signers@),
            text_views(transmitters@),
            text_views(payees@),
        ),
{
    let mut out: Vec<(Vec<u8>, String, String)> = Vec::new();
    let mut i: usize = 0;
    while i < signers.len()
        invariant
            i <= signers@.len(),
            signers@.len() == transmitters@.len(),
            signers@.len() == payees@.len(),
            out@.len() == i,
            forall|j: int|
                0 <= j < i ==> (#[trigger] out@[j]).0@ == signers@[j]@ && out@[j].1@
                    == transmitters@[j]@ && out@[j].2@ == payees@[j]@,
        decreases signers@.len() - i,
    {
        let key = slice_vec(signers[i].as_slice(), 0, signers[i].len());
        assert(key@ =~= signers@[i as int]@);
        out.push((key, transmitters[i].clone(), payees[i].clone()));
        i = i + 1;
    }
    assert(staged_views(out@) =~= staged(
        byte_views(signers@),
        text_views(transmitters@),
        text_views(payees@),
    ));
    out
}

/// Puts `next` in the place `i` of the staged committees.
fn replace_proposal(storage: &mut Storage, i: usize, id: u128, next: Proposal)
    requires
        old(storage)@.wf(),
        i < old(storage)@.proposals.len(),
        old(storage)@.proposals[i as int].0 == id,
    ensures
        final(storage)@ == (StorageView {
            proposals: old(storage)@.proposals.update(i as int, (id, next@)),
            ..old(storage)@
        }),
        final(storage)@.wf(),
{
    let ghost before = storage@;
    let ghost view = next@;
    let _ = storage.proposals.remove(i);
    storage.proposals.insert(i, (id, next));
    assert(storage@.proposals =~= before.proposals.update(i as int, (id, view)));
    assert forall|a: int, b: int| 0 <= a < b < storage@.proposals.len() implies (
    #[trigger] storage@.proposals[a]).0 != (#[trigger] storage@.proposals[b]).0 by {
        assert(storage@.proposals[a].0 == before.proposals[a].0);
        assert(storage@.proposals[b].0 == before.proposals[b].0);
    }
    assert forall|a: int| 0 <= a < storage@.proposals.len() implies (
    #[trigger] storage@.proposals[a]).0 < storage@.next_proposal_id by {
        assert(storage@.proposals[a].0 == before.proposals[a].0);
    }
}

/// A copy of the bytes of `v`.
fn copy_bytes(v: &Vec<u8>) -> (out: Vec<u8>)
    ensures
        out@ == v@,
{
    let out = slice_vec(v.as_slice(), 0, v.len());
    assert(out@ =~= v@);
    out
}

impl Proposal {
    /// A proposal that holds the same.
    pub fn duplicate(&self) -> (p: Proposal)
        ensures
            p@ == self@,
    {
        let mut oracles: Vec<(Vec<u8>, String, String)> = Vec::new();
        let mut i: usize = 0;
        while i < self.oracles.len()
            invariant
                i <= self.oracles@.len(),
                oracles@.len() == i,
                forall|j: int|
                    0 <= j < i ==> (#[trigger] oracles@[j]).0@ == self.oracles@[j].0@
                        && oracles@[j].1@ == self.oracles@[j].1@ && oracles@[j].2@
                        == self.oracles@[j].2@,
            decreases self.oracles@.len() - i,
        {
            oracles.push(
                (
                    copy_bytes(&self.oracles[i].0),
                    self.oracles[i].1.clone(),
                    self.oracles[i].2.clone(),
                ),
            );
            i = i + 1;
        }
        let p = Proposal {
            owner: self.owner.clone(),
            finalized: self.finalized,
            oracles,
            f: self.f,
            offchain_config_version: self.offchain_config_version,
            offchain_config: copy_bytes(&self.offchain_config),
        };
        assert(p@.oracles =~= self@.oracles);
        p
    }
}

/// The proposal's owner stages the committee.
#[allow(clippy::too_many_arguments)]
pub fn execute_propose_config(
    storage: &mut Storage,
    _env: Env,
    info: MessageInfo,
    id: u128,
    signers: Vec<Vec<u8>>,
    transmitters: Vec<String>,
    payees: Vec<String>,
    f: u8,
    onchain_config: Vec<u8>,
) -> (res: Result<Response, ContractError>)
    requires
        old(storage)@.wf(),
    ensures
        came_out(
            old(storage)@.propose_config(
                info.sender@,
                id,
                byte_views(signers@),
                text_views(transmitters@),
                text_views(payees@),
                f,
                onchain_config@,
            ),
            res,
            old(storage)@,
            final(storage)@,
        ),
        final(storage)@.wf(),
{
    let i = open_proposal(storage, &info, id)?;
    let signers_len = signers.len();
    // validate new config
    if f == 0 {
        return Err(ContractError::InvalidInput);
    }
    if signers_len > MAX_ORACLES {
        return Err(ContractError::TooManySigners);
    }
    if transmitters.len() != signers_len {
        return Err(ContractError::InvalidInput);
    }
    if !(3 * (f as usize) < signers_len) {
        return Err(ContractError::InvalidInput);
    }
    if payees.len() != signers_len {
        return Err(ContractError::InvalidInput);
    }
    if onchain_config.len() != 0 {
        return Err(ContractError::InvalidInput);
    }
    if has_duplicates(&signers) || has_duplicate_texts(&transmitters) {
        return Err(ContractError::RepeatedAddress);
    }
    assert(storage@.proposals[i as int].1 == storage.proposals@[i as int].1@);
    let current = &storage.proposals[i].1;
    let next = Proposal {
        owner: current.owner.clone(),
        finalized: current.finalized,
        oracles: stage(signers, transmitters, payees),
        f,
        offchain_config_version: current.offchain_config_version,
        offchain_config: copy_bytes(&current.offchain_config),
    };
    replace_proposal(storage, i, id, next);
    Ok(staging_response("propose_config", id))
}

/// The proposal's owner stages the configuration of the reporting protocol.
pub fn execute_propose_offchain_config(
    storage: &mut Storage,
    _env: Env,
    info: MessageInfo,
    id: u128,
    offchain_config_version: u64,
    offchain_config: Vec<u8>,
) -> (res: Result<Response, ContractError>)
    requires
        old(storage)@.wf(),
    ensures
        came_out(
            old(storage)@.propose_offchain_config(
                info.sender@,
                id,
                offchain_config_version,
                offchain_config@,
            ),
            res,
            old(storage)@,
            final(storage)@,
        ),
        final(storage)@.wf(),
{
    let i = open_proposal(storage, &info, id)?;
    if offchain_config.len() == 0 {
        return Err(ContractError::InvalidInput);
    }
    assert(storage@.proposals[i as int].1 == storage.proposals@[i as int].1@);
    let mut next = storage.proposals[i].1.duplicate();
    next.offchain_config_version = offchain_config_version;
    next.offchain_config = offchain_config;
    replace_proposal(storage, i, id, next);
    Ok(staging_response("propose_offchain_config", id))
}

/// The proposal's owner closes the proposal.
pub fn execute_finalize_proposal(storage: &mut Storage, _env: Env, info: MessageInfo, id: u128) -> (res:
    Result<Response, ContractError>)
    requires
        old(storage)@.wf(),
    ensures
        came_out(
            old(storage)@.finalize_proposal(info.sender@, id),
            res,
            old(storage)@,
            final(storage)@,
        ),
        final(storage)@.wf(),
{
    let i = open_proposal(storage, &info, id)?;
    assert(storage@.proposals[i as int].1 == storage.proposals@[i as int].1@);
    if storage.proposals[i].1.oracles.len() == 0 || storage.proposals[i].1.offchain_config.len()
        == 0 {
        return Err(ContractError::InvalidInput);
    }
    let mut next = storage.proposals[i].1.duplicate();
    let digest = next.digest();
    next.finalized = true;
    replace_proposal(storage, i, id, next);
    Ok(
        staging_response("finalize_proposal", id).add_attribute(
            "digest",
            hex_encode(digest.as_slice()),
        ),
    )
}

/// The payees with those of the staged oracles, unless one of them has another
/// payee already.
fn committee_payees(payees: &Table<String>, oracles: &Vec<(Vec<u8>, String, String)>) -> (res:
    Result<Table<String>, ContractError>)
    ensures
        match with_committee_payees(payees@, staged_views(oracles@)) {
            Ok(table) => res is Ok && res->Ok_0@ == table,
            Err(e) => res is Err && res->Err_0 == e,
        },
{
    let ghost list = staged_views(oracles@);
    let mut table = payees.duplicate();
    let mut i: usize = 0;
    assert(list.subrange(0, 0) =~= Seq::empty());
    while i < oracles.len()
        invariant
            i <= oracles@.len(),
            list == staged_views(oracles@),
            with_committee_payees(payees@, list.subrange(0, i as int)) == Ok::<
                Seq<(Seq<char>, Seq<char>)>,
                ContractError,
            >(table@),
        decreases oracles@.len() - i,
    {
        proof {
            assert(list.subrange(0, i + 1).drop_last() =~= list.subrange(0, i as int));
            assert(list.subrange(0, i + 1).last() == list[i as int]);
        }
        let taken = match table.get(oracles[i].1.as_str()) {
            Some(payee) => *payee != oracles[i].2,
            None => false,
        };
        if taken {
            proof {
                lemma_committee_payees_error_stays(payees@, list, i + 1);
            }
            return Err(ContractError::PayeeAlreadySet);
        }
        table.insert(oracles[i].1.clone(), oracles[i].2.clone());
        i = i + 1;
    }
    assert(list.subrange(0, i as int) =~= list);
    Ok(table)
}

/// The payees with those of staged oracles are in order.
pub proof fn lemma_committee_payees_ordered(
    payees: Seq<(Seq<char>, Seq<char>)>,
    oracles: Seq<(Seq<u8>, Seq<char>, Seq<char>)>,
)
    requires
        crate::table::ascending(payees),
        with_committee_payees(payees, oracles) is Ok,
    ensures
        crate::table::ascending(with_committee_payees(payees, oracles)->Ok_0),
    decreases oracles.len(),
{
    if oracles.len() > 0 {
        lemma_committee_payees_ordered(payees, oracles.drop_last());
        lemma_put(
            with_committee_payees(payees, oracles.drop_last())->Ok_0,
            oracles.last().1,
            oracles.last().2,
        );
    }
}

/// The contract's owner accepts the closed proposal `id` by its digest.
pub fn execute_accept_proposal(
    storage: &mut Storage,
    env: Env,
    info: MessageInfo,
    id: u128,
    digest: Vec<u8>,
) -> (res: Result<Response, ContractError>)
    requires
        old(storage)@.wf(),
    ensures
        came_out(
            old(storage)@.accept_proposal(env@, info.sender@, id, digest@),
            res,
            old(storage)@,
            final(storage)@,
        ),
        final(storage)@.wf(),
{
    crate::ocr2::admin::owner_only(storage, &info)?;
    if digest.len() != 32 {
        return Err(ContractError::InvalidInput);
    }
    if storage.config.is_none() {
        return Err(ContractError::Std(StdError::NotFound));
    }
    let i = match find_proposal(storage, id) {
        Some(i) => i,
        None => {
            return Err(ContractError::Std(StdError::NotFound));
        },
    };
    let ghost before = storage@;
    assert(before.proposals[i as int].1 == storage.proposals@[i as int].1@);
    let proposal = storage.proposals[i].1.duplicate();
    if !proposal.finalized {
        return Err(ContractError::InvalidInput);
    }
    let own = proposal.digest();
    if !bytes_eq(own.as_slice(), digest.as_slice()) {
        return Err(ContractError::DigestMismatch);
    }
    let payees = committee_payees(&storage.payees, &proposal.oracles)?;
    let mut signers: Vec<Vec<u8>> = Vec::new();
    let mut transmitters: Vec<String> = Vec::new();
    let mut k: usize = 0;
    while k < proposal.oracles.len()
        invariant
            k <= proposal.oracles@.len(),
            signers@.len() == k,
            transmitters@.len() == k,
            forall|j: int| 0 <= j < k ==> (#[trigger] signers@[j])@ == proposal.oracles@[j].0@,
            forall|j: int| 0 <= j < k ==> (#[trigger] transmitters@[j])@ == proposal.oracles@[j].1@,
        decreases proposal.oracles@.len() - k,
    {
        signers.push(copy_bytes(&proposal.oracles[k].0));
        transmitters.push(proposal.oracles[k].1.clone());
        k = k + 1;
    }
    assert(byte_views(signers@) =~= oracle_signers(proposal@.oracles));
    assert(text_views(transmitters@) =~= oracle_transmitters(proposal@.oracles));
    let onchain_config: Vec<u8> = Vec::new();
    assert(onchain_config@ =~= Seq::empty());
    storage.payees.recall_order();
    let response = rotate(
        storage,
        &env,
        signers,
        transmitters,
        proposal.f,
        &onchain_config,
        proposal.offchain_config_version,
        &proposal.offchain_config,
        staging_response("accept_proposal", id),
    )?;
    proof {
        lemma_committee_payees_ordered(before.payees, proposal@.oracles);
    }
    storage.payees = payees;
    let _ = storage.proposals.remove(i);
    proof {
        assert(storage@.proposals =~= before.proposals.remove(i as int));
        assert forall|a: int, b: int| 0 <= a < b < storage@.proposals.len() implies (
        #[trigger] storage@.proposals[a]).0 != (#[trigger] storage@.proposals[b]).0 by {
            let a2 = if a < i { a } else { a + 1 };
            let b2 = if b < i { b } else { b + 1 };
            assert(storage@.proposals[a] == before.proposals[a2]);
            assert(storage@.proposals[b] == before.proposals[b2]);
        }
        assert forall|a: int| 0 <= a < storage@.proposals.len() implies (
        #[trigger] storage@.proposals[a]).0 < storage@.next_proposal_id by {
            let a2 = if a < i { a } else { a + 1 };
            assert(storage@.proposals[a] == before.proposals[a2]);
        }
    }
    Ok(response)
}

/// The committee staged under `id`.
pub fn query_proposal(storage: &Storage, id: u128) -> (res: Result<Proposal, StdError>)
    requires
        storage@.wf(),
    ensures
        if storage@.has_proposal(id) {
            res is Ok && res->Ok_0@ == storage@.proposal(id)
        } else {
            res == Err::<Proposal, StdError>(StdError::NotFound)
        },
{
    match find_proposal(storage, id) {
        Some(i) => {
            assert(storage@.proposals[i as int].1 == storage.proposals@[i as int].1@);
            Ok(storage.proposals[i].1.duplicate())
        },
        None => Err(StdError::NotFound),
    }
}

} // verus!
