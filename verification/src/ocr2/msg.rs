use crate::ocr2::admin::Cw20ReceiveMsg;
use crate::ocr2::state::{Billing, Proposal, ProposalView, Round, Validator};
use crate::text::text_views;
use vstd::prelude::*;

verus! {

/// The id of a staged committee.
pub type ProposalId = u128;

/// What sets the contract up.
#[derive(Clone, Debug, PartialEq, Eq)]
pub struct InstantiateMsg {
    /// LINK token contract address
    pub link_token: String,
    /// RequestNewRound access controller address
    pub requester_access_controller: String,
    /// Billing access controller address
    pub billing_access_controller: String,
    pub min_answer: i128,
    pub max_answer: i128,
    pub decimals: u8,
    pub description: String,
}

/// The messages that change the contract.
#[allow(inconsistent_fields)]
#[derive(Clone, Debug, PartialEq, Eq)]
pub enum ExecuteMsg {
    SetConfig {
        signers: Vec<Vec<u8>>,
        transmitters: Vec<String>,
        f: u8,
        onchain_config: Vec<u8>,
        offchain_config_version: u64,
        offchain_config: Vec<u8>,
    },
    BeginProposal,
    ClearProposal { id: ProposalId },
    FinalizeProposal { id: ProposalId },
    AcceptProposal { id: ProposalId, digest: Vec<u8> },
    ProposeConfig {
        id: ProposalId,
        signers: Vec<Vec<u8>>,
        transmitters: Vec<String>,
        payees: Vec<String>,
        f: u8,
        onchain_config: Vec<u8>,
    },
    ProposeOffchainConfig { id: ProposalId, offchain_config_version: u64, offchain_config: Vec<u8> },
    TransferOwnership { to: String },
    AcceptOwnership,
    Transmit { report_context: Vec<u8>, report: Vec<u8>, signatures: Vec<Vec<u8>> },
    RequestNewRound,
    SetBilling { config: Billing },
    SetValidatorConfig { config: Option<Validator> },
    SetBillingAccessController { access_controller: String },
    SetRequesterAccessController { access_controller: String },
    SetPayees {
        /// (transmitter, payee)
        payees: Vec<(String, String)>,
    },
    WithdrawPayment { transmitter: String },
    WithdrawFunds { recipient: String, amount: u128 },
    SetLinkToken { link_token: String, recipient: String },
    /// Handler for LINK token Receive message
    Receive(Cw20ReceiveMsg),
    TransferPayeeship { transmitter: String, proposed: String },
    AcceptPayeeship { transmitter: String },
}

/// The questions that the contract answers.
#[derive(Clone, Debug, PartialEq, Eq)]
pub enum QueryMsg {
    LatestConfigDetails,
    Transmitters,
    LatestTransmissionDetails,
    LatestConfigDigestAndEpoch,
    Description,
    Decimals,
    RoundData { round_id: u32 },
    LatestRoundData,
    LinkToken,
    Billing,
    BillingAccessController,
    RequesterAccessController,
    OwedPayment { transmitter: String },
    LinkAvailableForPayment,
    OracleObservationCount { transmitter: String },
    Proposal { id: ProposalId },
    Version,
    Owner,
}

/// The configuration in force: its count, the block that it was set in, and its digest.
#[derive(Clone, Debug, PartialEq, Eq)]
pub struct LatestConfigDetailsResponse {
    pub config_count: u32,
    pub block_number: u64,
    pub config_digest: [u8; 32],
}

impl View for LatestConfigDetailsResponse {
    type V = (u32, u64, Seq<u8>);

    open spec fn view(&self) -> (u32, u64, Seq<u8>) {
        (self.config_count, self.block_number, self.config_digest@)
    }
}

/// The transmitters of the committee in office.
#[derive(Clone, Debug, PartialEq, Eq)]
pub struct TransmittersResponse {
    pub addresses: Vec<String>,
}

impl View for TransmittersResponse {
    type V = Seq<Seq<char>>;

    open spec fn view(&self) -> Seq<Seq<char>> {
        text_views(self.addresses@)
    }
}

/// The latest report: the digest it was made under, its epoch and round, its answer and time.
#[derive(Clone, Debug, PartialEq, Eq)]
pub struct LatestTransmissionDetailsResponse {
    pub latest_config_digest: [u8; 32],
    pub epoch: u32,
    pub round: u8,
    pub latest_answer: i128,
    pub latest_timestamp: u32,
}

impl View for LatestTransmissionDetailsResponse {
    type V = (Seq<u8>, u32, u8, i128, u32);

    open spec fn view(&self) -> (Seq<u8>, u32, u8, i128, u32) {
        (
            self.latest_config_digest@,
            self.epoch,
            self.round,
            self.latest_answer,
            self.latest_timestamp,
        )
    }
}

/// The digest of the configuration in force and the epoch of the latest report.
#[derive(Clone, Debug, PartialEq, Eq)]
pub struct LatestConfigDigestAndEpochResponse {
    pub scan_logs: bool,
    pub config_digest: [u8; 32],
    pub epoch: u32,
}

impl View for LatestConfigDigestAndEpochResponse {
    type V = (bool, Seq<u8>, u32);

    open spec fn view(&self) -> (bool, Seq<u8>, u32) {
        (self.scan_logs, self.config_digest@, self.epoch)
    }
}

/// The contract's balance less what the oracles are owed.
#[derive(Clone, Copy, Debug, PartialEq, Eq, Structural)]
pub struct LinkAvailableForPaymentResponse {
    pub amount: i128,
}

/// The answer to a query.
#[derive(Clone, Debug, PartialEq, Eq)]
pub enum QueryResponse {
    LatestConfigDetails(LatestConfigDetailsResponse),
    Transmitters(TransmittersResponse),
    LatestTransmissionDetails(LatestTransmissionDetailsResponse),
    LatestConfigDigestAndEpoch(LatestConfigDigestAndEpochResponse),
    Description(String),
    Decimals(u8),
    RoundData(Round),
    LatestRoundData(Round),
    LinkToken(String),
    Billing(Billing),
    BillingAccessController(String),
    RequesterAccessController(String),
    OwedPayment(u128),
    LinkAvailableForPayment(LinkAvailableForPaymentResponse),
    OracleObservationCount(u32),
    Proposal(Proposal),
    Version(String),
    Owner(String),
}

/// `QueryResponse` as contracts speak of it: each text as its characters, each byte string as
/// its bytes.
pub ghost enum QueryResponseView {
    LatestConfigDetails((u32, u64, Seq<u8>)),
    Transmitters(Seq<Seq<char>>),
    LatestTransmissionDetails((Seq<u8>, u32, u8, i128, u32)),
    LatestConfigDigestAndEpoch((bool, Seq<u8>, u32)),
    Description(Seq<char>),
    Decimals(u8),
    RoundData(Round),
    LatestRoundData(Round),
    LinkToken(Seq<char>),
    Billing(Billing),
    BillingAccessController(Seq<char>),
    RequesterAccessController(Seq<char>),
    OwedPayment(u128),
    LinkAvailableForPayment(LinkAvailableForPaymentResponse),
    OracleObservationCount(u32),
    Proposal(ProposalView),
    Version(Seq<char>),
    Owner(Seq<char>),
}

impl View for QueryResponse {
    type V = QueryResponseView;

    open spec fn view(&self) -> QueryResponseView {
        match *self {
            QueryResponse::LatestConfigDetails(r) => QueryResponseView::LatestConfigDetails(r@),
            QueryResponse::Transmitters(r) => QueryResponseView::Transmitters(r@),
            QueryResponse::LatestTransmissionDetails(r) => QueryResponseView::LatestTransmissionDetails(
                r@,
            ),
            QueryResponse::LatestConfigDigestAndEpoch(
                r,
            ) => QueryResponseView::LatestConfigDigestAndEpoch(r@),
            QueryResponse::Description(r) => QueryResponseView::Description(r@),
            QueryResponse::Decimals(r) => QueryResponseView::Decimals(r),
            QueryResponse::RoundData(r) => QueryResponseView::RoundData(r),
            QueryResponse::LatestRoundData(r) => QueryResponseView::LatestRoundData(r),
            QueryResponse::LinkToken(r) => QueryResponseView::LinkToken(r@),
            QueryResponse::Billing(r) => QueryResponseView::Billing(r),
            QueryResponse::BillingAccessController(r) => QueryResponseView::BillingAccessController(
                r@,
            ),
            QueryResponse::RequesterAccessController(
                r,
            ) => QueryResponseView::RequesterAccessController(r@),
            QueryResponse::OwedPayment(r) => QueryResponseView::OwedPayment(r),
            QueryResponse::LinkAvailableForPayment(r) => QueryResponseView::LinkAvailableForPayment(
                r,
            ),
            QueryResponse::OracleObservationCount(r) => QueryResponseView::OracleObservationCount(r),
            QueryResponse::Proposal(r) => QueryResponseView::Proposal(r@),
            QueryResponse::Version(r) => QueryResponseView::Version(r@),
            QueryResponse::Owner(r) => QueryResponseView::Owner(r@),
        }
    }
}

} // verus!
