//! What the oracles are owed, and how they are paid.

use crate::decimal::{product_atomics, Decimal, DECIMAL_FRACTIONAL};
use crate::host::{
    message_views, push_message, Message, MessageView, Response, StdError,
};
use crate::ocr2::error::ContractError;
use crate::ocr2::state::{Billing, Config, ConfigView, Transmitter, GIGA};
use crate::table::{has_key, value_of, Table};
use vstd::prelude::*;

verus! {

/// Gas for each signature, where the billing names none.
pub const DEFAULT_GAS_PER_SIGNATURE: u64 = 17_000;

/// Gas for a transmission apart from its signatures, where the billing names none.
pub const DEFAULT_GAS_BASE: u64 = 84_000;

/// Percent of the gas used that is allotted, where the billing names none.
pub const DEFAULT_GAS_ADJUSTMENT: u8 = 140;

/// Millionths in one whole.
pub const MICRO: u128 = 1_000_000;

/// The juels owed to an oracle: the payment for each round since the round from
/// which its rounds count, and its reimbursements. `None` where the sum leaves
/// the range of amounts.
pub open spec fn owed(config: ConfigView, transmitter: Transmitter) -> Option<u128> {
    let sum = config.billing.observation_payment_gjuels * GIGA * (config.latest_aggregator_round_id
        - transmitter.from_round_id) + transmitter.payment;
    if sum <= u128::MAX {
        Some(sum as u128)
    } else {
        None
    }
}

/// The gas that a transmission with `signature_count` signatures is taken to use.
pub open spec fn gas_used(billing: Billing, signature_count: nat) -> nat {
    let per_signature = match billing.gas_per_signature {
        Some(g) => g as nat,
        None => DEFAULT_GAS_PER_SIGNATURE as nat,
    };
    let base = match billing.gas_base {
        Some(g) => g as nat,
        None => DEFAULT_GAS_BASE as nat,
    };
    per_signature * signature_count + base
}

/// The percent of the gas used that is allotted.
pub open spec fn gas_adjustment(billing: Billing) -> nat {
    match billing.gas_adjustment {
        Some(a) => a as nat,
        None => DEFAULT_GAS_ADJUSTMENT as nat,
    }
}

/// The juels that reimburse the gas of a transmission: the gas used, scaled by
/// the adjustment, times the gas price, times the juels that one fee coin is
/// worth, in fixed-point numbers of 18 places, each product rounded down.
/// `None` where a number on the way leaves the range.
pub open spec fn reimbursement(billing: Billing, juels_per_fee_coin: u128, signature_count: nat)
    -> Option<u128> {
    let gas = gas_used(billing, signature_count) * (DECIMAL_FRACTIONAL as nat);
    let adjusted = product_atomics(gas, gas_adjustment(billing) * 10_000_000_000_000_000nat);
    let cost = product_atomics(billing.recommended_gas_price_micro.atomics as nat, adjusted);
    let total = product_atomics(cost, juels_per_fee_coin as nat);
    if gas <= u128::MAX && adjusted <= u128::MAX && cost <= u128::MAX && total <= u128::MAX {
        Some((total / (MICRO as nat)) as u128)
    } else {
        None
    }
}

/// The juels owed to an oracle.
pub fn owed_payment(config: &Config, transmitter: &Transmitter) -> (res: Result<u128, StdError>)
    requires
        transmitter.from_round_id <= config.latest_aggregator_round_id,
    ensures
        res == match owed(config@, *transmitter) {
            Some(amount) => Ok::<u128, StdError>(amount),
            None => Err(StdError::Overflow),
        },
{
    let rounds: u32 = config.latest_aggregator_round_id - transmitter.from_round_id;
    let rate: u128 = (config.billing.observation_payment_gjuels as u128) * GIGA;
    assert(rate * (rounds as u128) <= 0xffff_ffff_ffff_ffff * 1_000_000_000 * 0xffff_ffff)
        by (nonlinear_arith)
        requires
            rate <= 0xffff_ffff_ffff_ffff * 1_000_000_000,
            rounds <= 0xffff_ffff,
    ;
    let for_rounds: u128 = rate * (rounds as u128);
    assert(for_rounds == config.billing.observation_payment_gjuels * GIGA * (
    config.latest_aggregator_round_id - transmitter.from_round_id)) by (nonlinear_arith)
        requires
            for_rounds == rate * rounds,
            rate == config.billing.observation_payment_gjuels * GIGA,
            rounds == config.latest_aggregator_round_id - transmitter.from_round_id,
    ;
    match for_rounds.checked_add(transmitter.payment) {
        Some(amount) => Ok(amount),
        None => Err(StdError::Overflow),
    }
}

/// The juels that reimburse the gas of a transmission.
pub fn calculate_reimbursement(config: &Billing, juels_per_luna: u128, signature_count: usize) -> (res:
    Result<u128, ContractError>)
    ensures
        res == match reimbursement(*config, juels_per_luna, signature_count as nat) {
            Some(amount) => Ok::<u128, ContractError>(amount),
            None => Err(ContractError::Overflow),
        },
{
    let gas_per_signature: u64 = match config.gas_per_signature {
        Some(g) => g,
        None => DEFAULT_GAS_PER_SIGNATURE,
    };
    let gas_base: u64 = match config.gas_base {
        Some(g) => g,
        None => DEFAULT_GAS_BASE,
    };
    let adjustment: u8 = match config.gas_adjustment {
        Some(a) => a,
        None => DEFAULT_GAS_ADJUSTMENT,
    };
    assert(gas_per_signature * signature_count <= 0xffff_ffff_ffff_ffff * 0xffff_ffff_ffff_ffff)
        by (nonlinear_arith)
        requires
            gas_per_signature <= 0xffff_ffff_ffff_ffff,
            signature_count <= 0xffff_ffff_ffff_ffff,
    ;
    // total gas spent
    let gas: u128 = (gas_per_signature as u128) * (signature_count as u128) + (gas_base as u128);
    let gas = match gas.checked_mul(DECIMAL_FRACTIONAL) {
        Some(atomics) => Decimal::raw(atomics),
        None => {
            return Err(ContractError::Overflow);
        },
    };
    // gas allocated seems to be about 1.4 of gas used
    let gas = match gas.checked_mul(Decimal::percent(adjustment as u64)) {
        Some(adjusted) => adjusted,
        None => {
            return Err(ContractError::Overflow);
        },
    };
    // gas cost in millionths of the fee coin
    let gas_cost = match config.recommended_gas_price_micro.checked_mul(gas) {
        Some(cost) => cost,
        None => {
            return Err(ContractError::Overflow);
        },
    };
    // total in millionths of a juel
    let total = match gas_cost.checked_mul(Decimal::raw(juels_per_luna)) {
        Some(total) => total,
        None => {
            return Err(ContractError::Overflow);
        },
    };
    Ok(total.atomics() / MICRO)
}

/// The outcome of paying a committee: the transmitters with their new accounts,
/// the transfers, and the sum of the transfers.
pub ghost struct Settlement {
    pub transmitters: Seq<(Seq<char>, Transmitter)>,
    pub messages: Seq<MessageView>,
    pub total: u128,
}

/// Pays each transmitter in turn what it is owed, to its payee, and resets its
/// account. A transmitter that is owed nothing is passed over. One that is owed
/// something and has no payee fails the whole.
pub open spec fn settle(
    transmitters: Seq<(Seq<char>, Transmitter)>,
    payees: Seq<(Seq<char>, Seq<char>)>,
    config: ConfigView,
) -> Result<Settlement, ContractError>
    decreases transmitters.len(),
{
    if transmitters.len() == 0 {
        Ok(Settlement { transmitters: Seq::empty(), messages: Seq::empty(), total: 0 })
    } else {
        let key = transmitters.last().0;
        let state = transmitters.last().1;
        match settle(transmitters.drop_last(), payees, config) {
            Err(e) => Err(e),
            Ok(before) => match owed(config, state) {
                None => Err(ContractError::Std(StdError::Overflow)),
                Some(amount) => if amount == 0 {
                    Ok(
                        Settlement {
                            transmitters: before.transmitters.push((key, state)),
                            ..before
                        },
                    )
                } else if !has_key(payees, key) {
                    Err(ContractError::Std(StdError::NotFound))
                } else if before.total + amount > u128::MAX {
                    Err(ContractError::Overflow)
                } else {
                    Ok(
                        Settlement {
                            transmitters: before.transmitters.push(
                                (
                                    key,
                                    Transmitter {
                                        payment: 0,
                                        from_round_id: config.latest_aggregator_round_id,
                                    },
                                ),
                            ),
                            messages: before.messages.push(
                                MessageView::Transfer {
                                    token: config.link_token,
                                    recipient: value_of(payees, key),
                                    amount,
                                },
                            ),
                            total: (before.total + amount) as u128,
                        },
                    )
                },
            },
        }
    }
}

/// Once paying a committee has failed at one transmitter, it has failed.
pub proof fn lemma_settle_error_stays(
    transmitters: Seq<(Seq<char>, Transmitter)>,
    payees: Seq<(Seq<char>, Seq<char>)>,
    config: ConfigView,
    k: int,
)
    requires
        0 <= k <= transmitters.len(),
        settle(transmitters.subrange(0, k), payees, config) is Err,
    ensures
        settle(transmitters, payees, config) == settle(transmitters.subrange(0, k), payees, config),
    decreases transmitters.len() - k,
{
    if k == transmitters.len() {
        assert(transmitters.subrange(0, k) =~= transmitters);
    } else {
        assert(transmitters.drop_last().subrange(0, k) =~= transmitters.subrange(0, k));
        lemma_settle_error_stays(transmitters.drop_last(), payees, config, k);
    }
}

/// What paying the committee would come to: for each transmitter in turn its
/// account afterwards, then the transfers and their sum. Nothing is changed.
pub fn settlement(transmitters: &Table<Transmitter>, payees: &Table<String>, config: &Config) -> (res:
    Result<(Vec<Transmitter>, Vec<Message>, u128), ContractError>)
    requires
        forall|i: int|
            0 <= i < transmitters@.len() ==> (#[trigger] transmitters@[i]).1.from_round_id
                <= config.latest_aggregator_round_id,
    ensures
        match settle(transmitters@, payees@, config@) {
            Ok(settlement) => res is Ok && res->Ok_0.2 == settlement.total && message_views(
                res->Ok_0.1@,
            ) == settlement.messages && res->Ok_0.0@.len() == transmitters@.len()
                && settlement.transmitters.len() == transmitters@.len() && forall|j: int|
                0 <= j < transmitters@.len() ==> (#[trigger] settlement.transmitters[j]) == (
                    transmitters@[j].0,
                    res->Ok_0.0@[j],
                ),
            Err(e) => res == Err::<(Vec<Transmitter>, Vec<Message>, u128), ContractError>(e),
        },
{
    let ghost all = transmitters@;
    let n = transmitters.len();
    let mut next: Vec<Transmitter> = Vec::new();
    let mut msgs: Vec<Message> = Vec::new();
    let mut total: u128 = 0;
    let mut i: usize = 0;
    assert(all.subrange(0, 0) =~= Seq::empty());
    assert(message_views(msgs@) =~= Seq::empty());
    while i < n
        invariant
            i <= n,
            n == all.len(),
            all == transmitters@,
            forall|j: int|
                0 <= j < all.len() ==> (#[trigger] all[j]).1.from_round_id
                    <= config.latest_aggregator_round_id,
            next@.len() == i,
            settle(all.subrange(0, i as int), payees@, config@) is Ok,
            settle(all.subrange(0, i as int), payees@, config@)->Ok_0.total == total,
            settle(all.subrange(0, i as int), payees@, config@)->Ok_0.messages == message_views(
                msgs@,
            ),
            settle(all.subrange(0, i as int), payees@, config@)->Ok_0.transmitters.len() == i,
            forall|j: int|
                0 <= j < i ==> (#[trigger] settle(
                    all.subrange(0, i as int),
                    payees@,
                    config@,
                )->Ok_0.transmitters[j]) == (all[j].0, next@[j]),
        decreases n - i,
    {
        let ghost prefix = all.subrange(0, i as int);
        let ghost longer = all.subrange(0, i + 1);
        let ghost before = settle(prefix, payees@, config@)->Ok_0;
        proof {
            assert(longer.drop_last() =~= prefix);
            assert(longer.last() == all[i as int]);
        }
        let state: Transmitter = *transmitters.value(i);
        let amount = match owed_payment(config, &state) {
            Ok(amount) => amount,
            Err(e) => {
                proof {
                    lemma_settle_error_stays(all, payees@, config@, i + 1);
                }
                return Err(ContractError::Std(e));
            },
        };
        if amount == 0 {
            next.push(state);
        } else {
            let payee = match payees.get(transmitters.key(i).as_str()) {
                Some(payee) => payee.clone(),
                None => {
                    proof {
                        lemma_settle_error_stays(all, payees@, config@, i + 1);
                    }
                    return Err(ContractError::Std(StdError::NotFound));
                },
            };
            total = match total.checked_add(amount) {
                Some(sum) => sum,
                None => {
                    proof {
                        lemma_settle_error_stays(all, payees@, config@, i + 1);
                    }
                    return Err(ContractError::Overflow);
                },
            };
            // reset reward from round & transmitter gas reimbursement
            next.push(Transmitter { payment: 0, from_round_id: config.latest_aggregator_round_id });
            push_message(
                &mut msgs,
                Message::Transfer { token: config.link_token.clone(), recipient: payee, amount },
            );
        }
        proof {
            let after = settle(longer, payees@, config@)->Ok_0;
            assert forall|j: int| 0 <= j < i + 1 implies (#[trigger] after.transmitters[j]) == (
                all[j].0,
                next@[j],
            ) by {
                if j < i {
                    assert(after.transmitters[j] == before.transmitters[j]);
                }
            }
        }
        i = i + 1;
    }
    assert(all.subrange(0, i as int) =~= all);
    Ok((next, msgs, total))
}

/// Pays the committee: queues the transfers on `response` and resets the
/// accounts. Where it fails, no account has changed.
pub fn pay_oracles(
    transmitters: &mut Table<Transmitter>,
    payees: &Table<String>,
    config: &Config,
    response: Response,
) -> (res: Result<(u128, Response), ContractError>)
    requires
        forall|i: int|
            0 <= i < old(transmitters)@.len() ==> (#[trigger] old(transmitters)@[i]).1.from_round_id
                <= config.latest_aggregator_round_id,
    ensures
        match settle(old(transmitters)@, payees@, config@) {
            Ok(settlement) => res is Ok && res->Ok_0.0 == settlement.total && res->Ok_0.1@
                == response@.with_messages(settlement.messages) && final(transmitters)@
                == settlement.transmitters,
            Err(e) => res == Err::<(u128, Response), ContractError>(e) && final(transmitters)@ == old(
                transmitters,
            )@,
        },
{
    let ghost all = transmitters@;
    let (next, msgs, total) = settlement(transmitters, payees, config)?;
    let ghost settlement = settle(all, payees@, config@)->Ok_0;
    let n = transmitters.len();
    let mut j: usize = 0;
    while j < n
        invariant
            j <= n,
            n == all.len(),
            next@.len() == n,
            transmitters@.len() == n,
            settlement.transmitters.len() == n,
            forall|k: int| 0 <= k < n ==> (#[trigger] settlement.transmitters[k]) == (all[k].0, next@[k]),
            forall|k: int| 0 <= k < j ==> transmitters@[k] == settlement.transmitters[k],
            forall|k: int| j <= k < n ==> transmitters@[k] == all[k],
        decreases n - j,
    {
        transmitters.set_value(j, next[j]);
        j = j + 1;
    }
    assert(transmitters@ =~= settlement.transmitters);
    Ok((total, response.add_messages(msgs)))
}

/// The rounds for which the oracles of `transmitters` are yet to be paid, summed.
pub open spec fn rounds_due(transmitters: Seq<(Seq<char>, Transmitter)>, latest: u32) -> nat
    decreases transmitters.len(),
{
    if transmitters.len() == 0 {
        0
    } else {
        rounds_due(transmitters.drop_last(), latest) + (latest - transmitters.last().1.from_round_id) as nat
    }
}

/// The reimbursements that the oracles of `transmitters` are owed, summed.
pub open spec fn payments_due(transmitters: Seq<(Seq<char>, Transmitter)>) -> nat
    decreases transmitters.len(),
{
    if transmitters.len() == 0 {
        0
    } else {
        payments_due(transmitters.drop_last()) + transmitters.last().1.payment as nat
    }
}

/// The juels that the committee is owed in all. `None` where the sum leaves the
/// range of amounts.
pub open spec fn link_due(transmitters: Seq<(Seq<char>, Transmitter)>, config: ConfigView)
    -> Option<u128> {
    let sum = config.billing.observation_payment_gjuels * GIGA * rounds_due(
        transmitters,
        config.latest_aggregator_round_id,
    ) + payments_due(transmitters);
    if sum <= u128::MAX {
        Some(sum as u128)
    } else {
        None
    }
}

/// The reimbursements of a part of the committee do not exceed those of the whole.
pub proof fn lemma_payments_due_grow(transmitters: Seq<(Seq<char>, Transmitter)>, k: int)
    requires
        0 <= k <= transmitters.len(),
    ensures
        payments_due(transmitters.subrange(0, k)) <= payments_due(transmitters),
    decreases transmitters.len() - k,
{
    if k == transmitters.len() {
        assert(transmitters.subrange(0, k) =~= transmitters);
    } else {
        assert(transmitters.drop_last().subrange(0, k) =~= transmitters.subrange(0, k));
        lemma_payments_due_grow(transmitters.drop_last(), k);
    }
}

/// The juels that the committee is owed in all.
pub fn total_link_due(transmitters: &Table<Transmitter>, config: &Config) -> (res: Result<
    u128,
    StdError,
>)
    requires
        forall|i: int|
            0 <= i < transmitters@.len() ==> (#[trigger] transmitters@[i]).1.from_round_id
                <= config.latest_aggregator_round_id,
    ensures
        res == match link_due(transmitters@, config@) {
            Some(amount) => Ok::<u128, StdError>(amount),
            None => Err(StdError::Overflow),
        },
{
    let ghost all = transmitters@;
    let n = transmitters.len();
    let mut rounds: u128 = 0;
    let mut reimbursements: u128 = 0;
    let mut i: usize = 0;
    assert(all.subrange(0, 0) =~= Seq::empty());
    while i < n
        invariant
            i <= n,
            n == all.len(),
            all == transmitters@,
            forall|j: int|
                0 <= j < all.len() ==> (#[trigger] all[j]).1.from_round_id
                    <= config.latest_aggregator_round_id,
            rounds == rounds_due(all.subrange(0, i as int), config.latest_aggregator_round_id),
            rounds <= i * 0xffff_ffff,
            reimbursements == payments_due(all.subrange(0, i as int)),
        decreases n - i,
    {
        proof {
            assert(all.subrange(0, i + 1).drop_last() =~= all.subrange(0, i as int));
            assert(all.subrange(0, i + 1).last() == all[i as int]);
        }
        let state: Transmitter = *transmitters.value(i);
        rounds = rounds + (config.latest_aggregator_round_id - state.from_round_id) as u128;
        reimbursements = match reimbursements.checked_add(state.payment) {
            Some(sum) => sum,
            None => {
                proof {
                    lemma_payments_due_grow(all, i + 1);
                }
                return Err(StdError::Overflow);
            },
        };
        i = i + 1;
    }
    assert(all.subrange(0, i as int) =~= all);
    let rate: u128 = (config.billing.observation_payment_gjuels as u128) * GIGA;
    let for_rounds = match rate.checked_mul(rounds) {
        Some(product) => product,
        None => {
            return Err(StdError::Overflow);
        },
    };
    assert(for_rounds == config.billing.observation_payment_gjuels * GIGA * rounds_due(
        all,
        config.latest_aggregator_round_id,
    )) by (nonlinear_arith)
        requires
            for_rounds == rate * rounds,
            rate == config.billing.observation_payment_gjuels * GIGA,
            rounds == rounds_due(all, config.latest_aggregator_round_id),
    ;
    match for_rounds.checked_add(reimbursements) {
        Some(amount) => Ok(amount),
        None => Err(StdError::Overflow),
    }
}

} // verus!
