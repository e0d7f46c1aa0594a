//! The report that a committee signs: a timestamp, the observers, their
//! observations in ascending order and the price of the fee coin in juels.

use crate::bytes::{
    be_signed, be_value, lemma_be_value_bound, lemma_pow256_16, read_be, read_be_i128, slice_vec,
};
use crate::ocr2::error::ContractError;
use vstd::prelude::*;

verus! {

/// The bytes before the observations: the timestamp, the observers and the
/// number of observations.
pub const REPORT_HEADER: usize = 37;

/// The bytes of one observation, and of the price that closes the report.
pub const OBSERVATION_SIZE: usize = 16;

/// A report, decoded.
#[derive(Clone, Debug, PartialEq, Eq)]
pub struct Report {
    pub observations: Vec<i128>,
    /// observer index
    pub observers: [u8; 31],
    pub observations_timestamp: u32,
    pub juels_per_luna: u128,
}

/// `Report` as contracts speak of it: each text as its characters, each byte string as
/// its bytes.
pub ghost struct ReportView {
    pub observations: Seq<i128>,
    pub observers: Seq<u8>,
    pub observations_timestamp: u32,
    pub juels_per_luna: u128,
}

impl View for Report {
    type V = ReportView;

    open spec fn view(&self) -> ReportView {
        ReportView {
            observations: self.observations@,
            observers: self.observers@,
            observations_timestamp: self.observations_timestamp,
            juels_per_luna: self.juels_per_luna,
        }
    }
}

/// The report has the length that its count of observations asks for.
pub open spec fn well_framed(raw: Seq<u8>) -> bool {
    raw.len() >= 37 && raw.len() == 37 + 16 * (raw[36] as int) + 16
}

/// The observation at `i` of a well-framed report.
pub open spec fn observation_at(raw: Seq<u8>, i: int) -> i128 {
    be_signed(raw.subrange(37 + 16 * i, 37 + 16 * i + 16)) as i128
}

/// What a well-framed report holds. All numbers are big endian, the signed ones
/// in two's complement.
pub open spec fn decoded(raw: Seq<u8>) -> ReportView {
    ReportView {
        observations_timestamp: be_value(raw.subrange(0, 4)) as u32,
        observers: raw.subrange(4, 35),
        observations: Seq::new(raw[36] as nat, |i: int| observation_at(raw, i)),
        juels_per_luna: be_value(raw.subrange(raw.len() - 16, raw.len() as int)) as u128,
    }
}

/// What decoding `raw` gives: the report, or the refusal of a report of the
/// wrong length.
pub open spec fn decode(raw: Seq<u8>) -> Result<ReportView, ContractError> {
    if well_framed(raw) {
        Ok(decoded(raw))
    } else {
        Err(ContractError::InvalidInput)
    }
}

/// The median of observations in ascending order; of an even number of them,
/// the upper of the two in the middle.
pub open spec fn median(observations: Seq<i128>) -> i128 {
    observations[observations.len() as int / 2]
}

/// Decodes a report.
pub fn decode_report(raw_report: &[u8]) -> (res: Result<Report, ContractError>)
    ensures
        match res {
            Ok(report) => decode(raw_report@) == Ok::<ReportView, ContractError>(report@),
            Err(e) => decode(raw_report@) == Err::<ReportView, ContractError>(e),
        },
{
    // (uint32, 32 bytes, u8 len, len times i128, u128)
    if raw_report.len() < REPORT_HEADER {
        return Err(ContractError::InvalidInput);
    }
    let len: usize = raw_report[36] as usize;
    if raw_report.len() - REPORT_HEADER != OBSERVATION_SIZE * len + OBSERVATION_SIZE {
        return Err(ContractError::InvalidInput);
    }
    let head = slice_vec(raw_report, 0, 4);
    proof {
        lemma_be_value_bound(head@);
        lemma_pow256_16();
    }
    let observations_timestamp: u32 = read_be(head.as_slice()) as u32;

    let mut observers: [u8; 31] = [0u8; 31];
    let mut k: usize = 0;
    while k < 31
        invariant
            k <= 31,
            raw_report@.len() >= 37,
            forall|j: int| 0 <= j < k ==> observers@[j] == raw_report@[4 + j],
        decreases 31 - k,
    {
        observers[k] = raw_report[4 + k];
        k = k + 1;
    }
    assert(observers@ =~= raw_report@.subrange(4, 35));

    let mut observations: Vec<i128> = Vec::new();
    let mut i: usize = 0;
    while i < len
        invariant
            i <= len <= 255,
            raw_report@.len() == 37 + 16 * len + 16,
            observations@.len() == i,
            forall|j: int| 0 <= j < i ==> observations@[j] == observation_at(raw_report@, j),
        decreases len - i,
    {
        let start: usize = REPORT_HEADER + OBSERVATION_SIZE * i;
        let chunk = slice_vec(raw_report, start, start + OBSERVATION_SIZE);
        observations.push(read_be_i128(chunk.as_slice()));
        i = i + 1;
    }
    assert(observations@ =~= decoded(raw_report@).observations);

    let tail = slice_vec(raw_report, raw_report.len() - OBSERVATION_SIZE, raw_report.len());
    let juels_per_luna = read_be(tail.as_slice());

    Ok(Report { observations, observers, observations_timestamp, juels_per_luna })
}

} // verus!
