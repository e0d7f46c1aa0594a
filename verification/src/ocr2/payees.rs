//! The payees: the addresses at which oracles receive their payments, and the
//! payment of a single oracle.

use crate::host::{
    came_out, event_views, push_event, Env, Event, EventView, Message, MessageInfo, MessageView,
    Response, ResponseView, StdError,
};
use crate::ocr2::error::ContractError;
use crate::ocr2::payment::{owed, owed_payment};
use crate::ocr2::state::{Storage, StorageView, Transmitter};
use crate::table::{ascending, del, has_key, index_of, lemma_put, put, value_of};
use crate::text::{decimal, u128_to_string};
use vstd::prelude::*;

verus! {

/// The views of a list of transmitters with their payees.
pub open spec fn pair_views(list: Seq<(String, String)>) -> Seq<(Seq<char>, Seq<char>)> {
    list.map_values(|p: (String, String)| (p.0@, p.1@))
}

/// The payees after each transmitter of `list` in turn has been given its payee.
/// It fails at the first transmitter that has a payee already.
pub open spec fn with_payees(
    payees: Seq<(Seq<char>, Seq<char>)>,
    list: Seq<(Seq<char>, Seq<char>)>,
) -> Result<Seq<(Seq<char>, Seq<char>)>, ContractError>
    decreases list.len(),
{
    if list.len() == 0 {
        Ok(payees)
    } else {
        match with_payees(payees, list.drop_last()) {
            Err(e) => Err(e),
            Ok(table) => if has_key(table, list.last().0) {
                Err(ContractError::PayeeAlreadySet)
            } else {
                Ok(put(table, list.last().0, list.last().1))
            },
        }
    }
}

/// One event for each transmitter that was given its payee.
pub open spec fn payee_events(list: Seq<(Seq<char>, Seq<char>)>) -> Seq<EventView> {
    Seq::new(
        list.len(),
        |i: int|
            EventView::new("payeeship_transferred"@).attr("transmitter"@, list[i].0).attr(
                "current"@,
                list[i].1,
            ),
    )
}

/// Once a transmitter of the list has had a payee already, the list has failed.
pub proof fn lemma_with_payees_error_stays(
    payees: Seq<(Seq<char>, Seq<char>)>,
    list: Seq<(Seq<char>, Seq<char>)>,
    k: int,
)
    requires
        0 <= k <= list.len(),
        with_payees(payees, list.subrange(0, k)) is Err,
    ensures
        with_payees(payees, list) == with_payees(payees, list.subrange(0, k)),
    decreases list.len() - k,
{
    if k == list.len() {
        assert(list.subrange(0, k) =~= list);
    } else {
        assert(list.drop_last().subrange(0, k) =~= list.subrange(0, k));
        lemma_with_payees_error_stays(payees, list.drop_last(), k);
    }
}

/// The payees that a list has been added to hold those that were there and
/// those of the list, and are in order.
pub proof fn lemma_with_payees_keys(
    payees: Seq<(Seq<char>, Seq<char>)>,
    list: Seq<(Seq<char>, Seq<char>)>,
)
    requires
        ascending(payees),
        with_payees(payees, list) is Ok,
    ensures
        ascending(with_payees(payees, list)->Ok_0),
        forall|k: Seq<char>|
            has_key(with_payees(payees, list)->Ok_0, k) == (has_key(payees, k) || exists|j: int|
                0 <= j < list.len() && (#[trigger] list[j]).0 == k),
    decreases list.len(),
{
    if list.len() > 0 {
        let shorter = list.drop_last();
        lemma_with_payees_keys(payees, shorter);
        let table = with_payees(payees, shorter)->Ok_0;
        lemma_put(table, list.last().0, list.last().1);
        let after = with_payees(payees, list)->Ok_0;
        assert forall|k: Seq<char>|
            has_key(after, k) == (has_key(payees, k) || exists|j: int|
                0 <= j < list.len() && (#[trigger] list[j]).0 == k) by {
            if k == list.last().0 {
                assert(list[list.len() - 1].0 == k);
            } else {
                if exists|j: int| 0 <= j < shorter.len() && (#[trigger] shorter[j]).0 == k {
                    let j = choose|j: int| 0 <= j < shorter.len() && (#[trigger] shorter[j]).0 == k;
                    assert(list[j].0 == k);
                }
                if exists|j: int| 0 <= j < list.len() && (#[trigger] list[j]).0 == k {
                    let j = choose|j: int| 0 <= j < list.len() && (#[trigger] list[j]).0 == k;
                    assert(shorter[j].0 == k);
                }
            }
        }
    }
}

impl StorageView {
    /// The transmitter's account is paid out to `payee`. A transmitter that is
    /// owed nothing is left as it is.
    pub open spec fn pay_oracle(self, transmitter: Seq<char>, payee: Seq<char>) -> Result<
        (StorageView, ResponseView),
        ContractError,
    > {
        match self.config {
            None => Err(ContractError::Std(StdError::NotFound)),
            Some(c) => if !has_key(self.transmitters, transmitter) {
                Err(ContractError::Std(StdError::NotFound))
            } else {
                match owed(c, value_of(self.transmitters, transmitter)) {
                    None => Err(ContractError::Std(StdError::Overflow)),
                    Some(amount) => if amount == 0 {
                        Ok((self, ResponseView::new()))
                    } else {
                        Ok(
                            (
                                StorageView {
                                    transmitters: put(
                                        self.transmitters,
                                        transmitter,
                                        Transmitter {
                                            payment: 0,
                                            from_round_id: c.latest_aggregator_round_id,
                                        },
                                    ),
                                    ..self
                                },
                                ResponseView::new().message(
                                    MessageView::Transfer {
                                        token: c.link_token,
                                        recipient: payee,
                                        amount,
                                    },
                                ).event(
                                    EventView::new("oracle_paid"@).attr(
                                        "transmitter"@,
                                        transmitter,
                                    ).attr("payee"@, payee).attr(
                                        "amount"@,
                                        decimal(amount as nat),
                                    ).attr("link_token"@, c.link_token),
                                ),
                            ),
                        )
                    },
                }
            },
        }
    }

    /// The payee of `transmitter` takes out what the transmitter is owed.
    pub open spec fn withdraw_payment(self, sender: Seq<char>, transmitter: Seq<char>) -> Result<
        (StorageView, ResponseView),
        ContractError,
    > {
        // validate a payee exists and matches sender
        if !has_key(self.payees, transmitter) || value_of(self.payees, transmitter) != sender {
            Err(ContractError::Unauthorized)
        } else {
            match self.pay_oracle(transmitter, sender) {
                Err(e) => Err(e),
                Ok((state, response)) => Ok((state, response.attr("method"@, "withdraw_payment"@))),
            }
        }
    }

    /// The owner gives transmitters their payees. It cannot change a payee.
    pub open spec fn set_payees(self, sender: Seq<char>, list: Seq<(Seq<char>, Seq<char>)>)
        -> Result<(StorageView, ResponseView), ContractError> {
        match self.owner_only(sender) {
            Err(e) => Err(e),
            Ok(_) => match with_payees(self.payees, list) {
                Err(e) => Err(e),
                Ok(payees) => Ok(
                    (
                        StorageView { payees, ..self },
                        ResponseView::new().with_events(payee_events(list)),
                    ),
                ),
            },
        }
    }

    /// The payee of `transmitter` proposes `proposed` as the next payee.
    pub open spec fn transfer_payeeship(
        self,
        sender: Seq<char>,
        transmitter: Seq<char>,
        proposed: Seq<char>,
    ) -> Result<(StorageView, ResponseView), ContractError> {
        if sender == proposed {
            Err(ContractError::TransferToSelf)
        } else if !has_key(self.payees, transmitter) || value_of(self.payees, transmitter)
            != sender {
            // only current payee can update
            Err(ContractError::Unauthorized)
        } else {
            Ok(
                (
                    StorageView {
                        proposed_payees: put(self.proposed_payees, transmitter, proposed),
                        ..self
                    },
                    if has_key(self.proposed_payees, transmitter) && value_of(
                        self.proposed_payees,
                        transmitter,
                    ) == proposed {
                        ResponseView::new()
                    } else {
                        ResponseView::new().event(
                            EventView::new("payeeship_transfer_requested"@).attr(
                                "transmitter"@,
                                transmitter,
                            ).attr("current"@, sender).attr("proposed"@, proposed),
                        )
                    },
                ),
            )
        }
    }

    /// The proposed payee of `transmitter` becomes its payee.
    pub open spec fn accept_payeeship(self, sender: Seq<char>, transmitter: Seq<char>) -> Result<
        (StorageView, ResponseView),
        ContractError,
    > {
        if !has_key(self.proposed_payees, transmitter) {
            Err(ContractError::Std(StdError::NotFound))
        } else if value_of(self.proposed_payees, transmitter) != sender {
            Err(ContractError::Unauthorized)
        } else {
            Ok(
                (
                    StorageView {
                        payees: put(self.payees, transmitter, sender),
                        proposed_payees: del(self.proposed_payees, transmitter),
                        ..self
                    },
                    ResponseView::new().event(
                        EventView::new("payeeship_transferred"@).attr(
                            "transmitter"@,
                            transmitter,
                        ).attr(
                            "previous"@,
                            if has_key(self.payees, transmitter) {
                                value_of(self.payees, transmitter)
                            } else {
                                ""@
                            },
                        ).attr("current"@, sender),
                    ),
                ),
            )
        }
    }
}

/// Pays the transmitter's account out to `payee`.
pub fn pay_oracle(storage: &mut Storage, transmitter: String, payee: String) -> (res: Result<
    Response,
    ContractError,
>)
    requires
        old(storage)@.wf(),
    ensures
        came_out(
            old(storage)@.pay_oracle(transmitter@, payee@),
            res,
            old(storage)@,
            final(storage)@,
        ),
        final(storage)@.wf(),
{
    let ghost before = storage@;
    let config = match &storage.config {
        Some(config) => config,
        None => {
            return Err(ContractError::Std(StdError::NotFound));
        },
    };
    let state: Transmitter = match storage.transmitters.get(transmitter.as_str()) {
        Some(state) => *state,
        None => {
            return Err(ContractError::Std(StdError::NotFound));
        },
    };
    proof {
        let i = index_of(before.transmitters, transmitter@);
        assert(before.transmitters[i].1 == state);
    }
    let amount = match owed_payment(config, &state) {
        Ok(amount) => amount,
        Err(e) => {
            return Err(ContractError::Std(e));
        },
    };
    let mut response = Response::new();
    if amount == 0 {
        return Ok(response);
    }
    // transmit funds
    let transfer_msg = Message::Transfer {
        token: config.link_token.clone(),
        recipient: payee.clone(),
        amount,
    };
    response = response.add_message(transfer_msg);
    // emit event
    response = response.add_event(
        Event::new("oracle_paid").add_attribute("transmitter", transmitter.clone()).add_attribute(
            "payee",
            payee,
        ).add_attribute("amount", u128_to_string(amount)).add_attribute(
            "link_token",
            config.link_token.clone(),
        ),
    );
    // reset reward from round & transmitter gas reimbursement
    let fresh = Transmitter { payment: 0, from_round_id: config.latest_aggregator_round_id };
    storage.transmitters.insert(transmitter, fresh);
    proof {
        lemma_put(before.transmitters, transmitter@, fresh);
        let after = storage@.transmitters;
        assert forall|i: int| 0 <= i < after.len() implies (#[trigger] after[i]).1.from_round_id
            <= before.config->Some_0.latest_aggregator_round_id by {
            if i != index_of(before.transmitters, transmitter@) {
                assert(after[i] == before.transmitters[i]);
            }
        }
    }
    Ok(response)
}

/// The payee of `transmitter` takes out what the transmitter is owed.
pub fn execute_withdraw_payment(
    storage: &mut Storage,
    _env: Env,
    info: MessageInfo,
    transmitter: String,
) -> (res: Result<Response, ContractError>)
    requires
        old(storage)@.wf(),
    ensures
        came_out(
            old(storage)@.withdraw_payment(info.sender@, transmitter@),
            res,
            old(storage)@,
            final(storage)@,
        ),
        final(storage)@.wf(),
{
    let payee = match storage.payees.get(transmitter.as_str()) {
        // validate a payee exists and matches sender
        Some(payee) => {
            if *payee != info.sender {
                return Err(ContractError::Unauthorized);
            }
            payee.clone()
        },
        None => {
            return Err(ContractError::Unauthorized);
        },
    };
    let response = pay_oracle(storage, transmitter, payee)?;
    Ok(response.add_attribute("method", "withdraw_payment".to_owned()))
}

/// Whether the transmitter `key` stands among the first `upto` of `list`.
fn listed(list: &Vec<(String, String)>, upto: usize, key: &String) -> (res: bool)
    requires
        upto <= list@.len(),
    ensures
        res == exists|j: int| 0 <= j < upto && (#[trigger] pair_views(list@)[j]).0 == key@,
{
    let mut j: usize = 0;
    while j < upto
        invariant
            j <= upto <= list@.len(),
            forall|k: int| 0 <= k < j ==> (#[trigger] pair_views(list@)[k]).0 != key@,
        decreases upto - j,
    {
        if list[j].0 == *key {
            assert(pair_views(list@)[j as int].0 == key@);
            return true;
        }
        j = j + 1;
    }
    false
}

/// The owner gives transmitters their payees. It cannot change a payee, only
/// name the first.
pub fn execute_set_payees(
    storage: &mut Storage,
    _env: Env,
    info: MessageInfo,
    payees: Vec<(String, String)>,
) -> (res: Result<Response, ContractError>)
    requires
        old(storage)@.wf(),
    ensures
        came_out(
            old(storage)@.set_payees(info.sender@, pair_views(payees@)),
            res,
            old(storage)@,
            final(storage)@,
        ),
        final(storage)@.wf(),
{
    crate::ocr2::admin::owner_only(storage, &info)?;
    let ghost before = storage@;
    let ghost list = pair_views(payees@);
    storage.payees.recall_order();
    // Each transmitter must be without a payee, in storage and earlier in the list
    let mut i: usize = 0;
    assert(list.subrange(0, 0) =~= Seq::empty());
    while i < payees.len()
        invariant
            i <= payees@.len(),
            list == pair_views(payees@),
            before == storage@,
            before == old(storage)@,
            before.wf(),
            before.owner_only(info.sender@) is Ok,
            ascending(before.payees),
            with_payees(before.payees, list.subrange(0, i as int)) is Ok,
        decreases payees@.len() - i,
    {
        let ghost shorter = list.subrange(0, i as int);
        proof {
            assert(list.subrange(0, i + 1).drop_last() =~= shorter);
            assert(list.subrange(0, i + 1).last() == list[i as int]);
            lemma_with_payees_keys(before.payees, shorter);
            assert forall|j: int| 0 <= j < i implies #[trigger] shorter[j] == list[j] by {}
        }
        let stored = storage.payees.contains(payees[i].0.as_str());
        let earlier = listed(&payees, i, &payees[i].0);
        proof {
            let k = list[i as int].0;
            if earlier {
                let j = choose|j: int| 0 <= j < i && (#[trigger] list[j]).0 == k;
                assert(shorter[j].0 == k);
            }
            if exists|j: int| 0 <= j < shorter.len() && (#[trigger] shorter[j]).0 == k {
                let j = choose|j: int| 0 <= j < shorter.len() && (#[trigger] shorter[j]).0 == k;
                assert(list[j].0 == k);
            }
        }
        if stored || earlier {
            proof {
                lemma_with_payees_error_stays(before.payees, list, i + 1);
            }
            return Err(ContractError::PayeeAlreadySet);
        }
        i = i + 1;
    }
    assert(list.subrange(0, i as int) =~= list);
    let mut events: Vec<Event> = Vec::new();
    let mut i: usize = 0;
    assert(list.subrange(0, 0) =~= Seq::empty());
    assert(event_views(events@) =~= payee_events(list.subrange(0, 0)));
    while i < payees.len()
        invariant
            i <= payees@.len(),
            list == pair_views(payees@),
            before == old(storage)@,
            before.wf(),
            before.owner_only(info.sender@) is Ok,
            with_payees(before.payees, list) is Ok,
            with_payees(before.payees, list.subrange(0, i as int)) == Ok::<
                Seq<(Seq<char>, Seq<char>)>,
                ContractError,
            >(storage@.payees),
            storage@ == (StorageView { payees: storage@.payees, ..before }),
            event_views(events@) == payee_events(list.subrange(0, i as int)),
        decreases payees@.len() - i,
    {
        proof {
            assert(list.subrange(0, i + 1).drop_last() =~= list.subrange(0, i as int));
            assert(list.subrange(0, i + 1).last() == list[i as int]);
            if with_payees(before.payees, list.subrange(0, i + 1)) is Err {
                lemma_with_payees_error_stays(before.payees, list, i + 1);
            }
        }
        let transmitter = payees[i].0.clone();
        let payee = payees[i].1.clone();
        push_event(
            &mut events,
            Event::new("payeeship_transferred").add_attribute(
                "transmitter",
                transmitter.clone(),
            ).add_attribute("current", payee.clone()),
        );
        // Set the payee unless it's already set
        storage.payees.insert(transmitter, payee);
        assert(event_views(events@) =~= payee_events(list.subrange(0, i + 1)));
        i = i + 1;
    }
    assert(list.subrange(0, i as int) =~= list);
    storage.payees.recall_order();
    Ok(Response::new().add_events(events))
}

/// The payee of `transmitter` proposes `proposed` as the next payee.
pub fn execute_transfer_payeeship(
    storage: &mut Storage,
    _env: Env,
    info: MessageInfo,
    transmitter: String,
    proposed: String,
) -> (res: Result<Response, ContractError>)
    requires
        old(storage)@.wf(),
    ensures
        came_out(
            old(storage)@.transfer_payeeship(info.sender@, transmitter@, proposed@),
            res,
            old(storage)@,
            final(storage)@,
        ),
        final(storage)@.wf(),
{
    if info.sender == proposed {
        return Err(ContractError::TransferToSelf);
    }
    // only current payee can update
    let current = match storage.payees.get(transmitter.as_str()) {
        Some(payee) => *payee == info.sender,
        None => false,
    };
    if !current {
        return Err(ContractError::Unauthorized);
    }
    let repeated = match storage.proposed_payees.get(transmitter.as_str()) {
        Some(previous) => *previous == proposed,
        None => false,
    };
    let mut response = Response::new();
    if !repeated {
        response = response.add_event(
            Event::new("payeeship_transfer_requested").add_attribute(
                "transmitter",
                transmitter.clone(),
            ).add_attribute("current", info.sender).add_attribute("proposed", proposed.clone()),
        );
    }
    storage.proposed_payees.insert(transmitter, proposed);
    storage.proposed_payees.recall_order();
    Ok(response)
}

/// The proposed payee of `transmitter` becomes its payee.
pub fn execute_accept_payeeship(
    storage: &mut Storage,
    _env: Env,
    info: MessageInfo,
    transmitter: String,
) -> (res: Result<Response, ContractError>)
    requires
        old(storage)@.wf(),
    ensures
        came_out(
            old(storage)@.accept_payeeship(info.sender@, transmitter@),
            res,
            old(storage)@,
            final(storage)@,
        ),
        final(storage)@.wf(),
{
    let accepted = match storage.proposed_payees.get(transmitter.as_str()) {
        Some(proposed) => *proposed == info.sender,
        None => {
            return Err(ContractError::Std(StdError::NotFound));
        },
    };
    if !accepted {
        return Err(ContractError::Unauthorized);
    }
    let previous = match storage.payees.get(transmitter.as_str()) {
        Some(payee) => payee.clone(),
        None => String::new(),
    };
    proof {
        reveal_strlit("");
        assert(""@ =~= Seq::<char>::empty());
    }
    let event = Event::new("payeeship_transferred").add_attribute(
        "transmitter",
        transmitter.clone(),
    ).add_attribute("previous", previous).add_attribute("current", info.sender.clone());
    storage.proposed_payees.remove(transmitter.as_str());
    storage.payees.insert(transmitter, info.sender);
    storage.payees.recall_order();
    storage.proposed_payees.recall_order();
    Ok(Response::new().add_event(event))
}

} // verus!
