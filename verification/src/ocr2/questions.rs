//! What the aggregator needs to know of other contracts before it can carry a
//! message out.

use crate::host::{MessageInfo, Querier};
use crate::ocr2::msg::{ExecuteMsg, QueryMsg};
use crate::ocr2::state::{Storage, StorageView};
use vstd::prelude::*;

verus! {

/// The queries to other contracts that a message depends on.
#[derive(Clone, Debug, PartialEq, Eq)]
pub struct Questions {
    /// The access controller to ask whether it grants the sender.
    pub has_access: Option<String>,
    /// The token to ask for this contract's balance: the reward token in use.
    pub balance: Option<String>,
    /// The token to ask for this contract's balance: the one that is to
    /// replace the reward token.
    pub new_token_balance: Option<String>,
}

/// `Questions` as contracts speak of it: each text as its characters.
pub ghost struct QuestionsView {
    pub has_access: Option<Seq<char>>,
    pub balance: Option<Seq<char>>,
    pub new_token_balance: Option<Seq<char>>,
}

impl View for Questions {
    type V = QuestionsView;

    open spec fn view(&self) -> QuestionsView {
        QuestionsView {
            has_access: match self.has_access {
                Some(a) => Some(a@),
                None => None,
            },
            balance: match self.balance {
                Some(a) => Some(a@),
                None => None,
            },
            new_token_balance: match self.new_token_balance {
                Some(a) => Some(a@),
                None => None,
            },
        }
    }
}

impl QuestionsView {
    /// Two sets of answers say the same to these questions.
    pub open spec fn same_answers(self, a: Querier, b: Querier) -> bool {
        &&& self.has_access is Some ==> a.has_access == b.has_access
        &&& self.balance is Some ==> a.balance == b.balance
        &&& self.new_token_balance is Some ==> a.new_token_balance == b.new_token_balance
    }
}

impl StorageView {
    /// What a message from `sender` needs to know of other contracts. The
    /// access controller is asked only about one who is not the owner; a token
    /// is asked only where tokens are to be counted.
    pub open spec fn questions(self, sender: Seq<char>, msg: ExecuteMsg) -> QuestionsView {
        match self.config {
            None => QuestionsView { has_access: None, balance: None, new_token_balance: None },
            Some(c) => QuestionsView {
                has_access: if self.owner.is_owner(sender) == Ok::<bool, crate::host::StdError>(
                    false,
                ) {
                    if msg is RequestNewRound {
                        Some(c.requester_access_controller)
                    } else if msg is SetBilling || msg is WithdrawFunds {
                        Some(c.billing_access_controller)
                    } else {
                        None
                    }
                } else {
                    None
                },
                balance: if msg is WithdrawFunds || (msg matches ExecuteMsg::SetLinkToken {
                    link_token,
                    ..
                } && link_token@ != c.link_token) {
                    Some(c.link_token)
                } else {
                    None
                },
                new_token_balance: match msg {
                    ExecuteMsg::SetLinkToken { link_token, .. } => if link_token@ != c.link_token {
                        Some(link_token@)
                    } else {
                        None
                    },
                    _ => None,
                },
            },
        }
    }

    /// What a query needs to know of other contracts: the balance, where what
    /// is available for payment is asked for.
    pub open spec fn query_questions(self, msg: QueryMsg) -> QuestionsView {
        QuestionsView {
            has_access: None,
            balance: match self.config {
                Some(c) => if msg is LinkAvailableForPayment {
                    Some(c.link_token)
                } else {
                    None
                },
                None => None,
            },
            new_token_balance: None,
        }
    }
}

/// What a message needs to know of other contracts.
pub fn questions(storage: &Storage, info: &MessageInfo, msg: &ExecuteMsg) -> (q: Questions)
    ensures
        q@ == storage@.questions(info.sender@, *msg),
{
    let config = match &storage.config {
        Some(config) => config,
        None => {
            return Questions { has_access: None, balance: None, new_token_balance: None };
        },
    };
    let stranger = match storage.owner.is_owner(&info.sender) {
        Ok(is_owner) => !is_owner,
        Err(_) => false,
    };
    let has_access = if stranger {
        match msg {
            ExecuteMsg::RequestNewRound => Some(config.requester_access_controller.addr()),
            ExecuteMsg::SetBilling { .. } => Some(config.billing_access_controller.addr()),
            ExecuteMsg::WithdrawFunds { .. } => Some(config.billing_access_controller.addr()),
            _ => None,
        }
    } else {
        None
    };
    match msg {
        ExecuteMsg::WithdrawFunds { .. } => Questions {
            has_access,
            balance: Some(config.link_token.clone()),
            new_token_balance: None,
        },
        ExecuteMsg::SetLinkToken { link_token, .. } => {
            if *link_token != config.link_token {
                Questions {
                    has_access,
                    balance: Some(config.link_token.clone()),
                    new_token_balance: Some(link_token.clone()),
                }
            } else {
                Questions { has_access, balance: None, new_token_balance: None }
            }
        },
        _ => Questions { has_access, balance: None, new_token_balance: None },
    }
}

/// What a query needs to know of other contracts.
pub fn query_questions(storage: &Storage, msg: &QueryMsg) -> (q: Questions)
    ensures
        q@ == storage@.query_questions(*msg),
{
    let balance = match (&storage.config, msg) {
        (Some(config), QueryMsg::LinkAvailableForPayment) => Some(config.link_token.clone()),
        _ => None,
    };
    Questions { has_access: None, balance, new_token_balance: None }
}

/// A message comes out the same under any two sets of answers that say the
/// same to its questions: what was not asked does not matter.
pub proof fn lemma_unasked_answers_do_not_matter(
    s: StorageView,
    env: crate::host::EnvView,
    sender: Seq<char>,
    msg: ExecuteMsg,
    a: Querier,
    b: Querier,
    verdict: Option<bool>,
)
    requires
        s.questions(sender, msg).same_answers(a, b),
    ensures
        s.executed(env, sender, msg, a, verdict) == s.executed(env, sender, msg, b, verdict),
{
}

/// A query is answered the same under any two sets of answers that say the
/// same to its questions.
pub proof fn lemma_unasked_answers_do_not_matter_to_queries(
    s: StorageView,
    msg: QueryMsg,
    a: Querier,
    b: Querier,
)
    requires
        s.query_questions(msg).same_answers(a, b),
    ensures
        s.answer(msg, a) == s.answer(msg, b),
{
}

} // verus!
