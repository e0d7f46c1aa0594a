//! What a contract is handed by the chain that runs it, and what it hands back:
//! the block and the sender, the answers of other contracts, and the response
//! with its attributes, events and outbound messages.

use vstd::prelude::*;

verus! {

/// An error of the host's own kind.
#[derive(Clone, Copy, Debug, PartialEq, Eq, Structural)]
pub enum StdError {
    /// A stored value that the call needs is not there.
    NotFound,
    /// A sum or product of token amounts left the range of amounts.
    Overflow,
    /// An amount does not fit the signed type it is reported in.
    ConversionOverflow,
    /// Another contract did not answer a query.
    QueryFailed,
}

impl StdError {
    /// The text of the error.
    pub open spec fn message(self) -> Seq<char> {
        match self {
            StdError::NotFound => "not found"@,
            StdError::Overflow => "overflow"@,
            StdError::ConversionOverflow => "conversion overflow"@,
            StdError::QueryFailed => "query failed"@,
        }
    }

    /// The text of the error.
    pub fn to_string(&self) -> (s: String)
        ensures
            s@ == self.message(),
    {
        match self {
            StdError::NotFound => "not found".to_owned(),
            StdError::Overflow => "overflow".to_owned(),
            StdError::ConversionOverflow => "conversion overflow".to_owned(),
            StdError::QueryFailed => "query failed".to_owned(),
        }
    }
}

/// The block in which a call runs, and the contract's own place.
#[derive(Clone, Debug, PartialEq, Eq)]
pub struct Env {
    pub block_height: u64,
    /// Seconds since the epoch.
    pub block_time: u64,
    pub chain_id: String,
    pub contract_address: String,
}

/// `Env` as contracts speak of it: each text as its characters, each byte string as
/// its bytes.
pub ghost struct EnvView {
    pub block_height: u64,
    pub block_time: u64,
    pub chain_id: Seq<char>,
    pub contract_address: Seq<char>,
}

impl View for Env {
    type V = EnvView;

    open spec fn view(&self) -> EnvView {
        EnvView {
            block_height: self.block_height,
            block_time: self.block_time,
            chain_id: self.chain_id@,
            contract_address: self.contract_address@,
        }
    }
}

/// Who sent a message.
#[derive(Clone, Debug, PartialEq, Eq)]
pub struct MessageInfo {
    pub sender: String,
}

/// What other contracts answered to the queries that a call depends on, asked by
/// the caller beforehand. `None` stands for a query that failed.
#[derive(Clone, Copy, Debug, PartialEq, Eq)]
pub struct Querier {
    /// Whether the access controller that gates the message grants the sender.
    pub has_access: Option<bool>,
    /// This contract's balance of the reward token in use.
    pub balance: Option<u128>,
    /// This contract's balance of the token that is to replace it.
    pub new_token_balance: Option<u128>,
}

/// A key with its value, as a response or an event carries them.
#[derive(Clone, Debug, PartialEq, Eq)]
pub struct Attribute {
    pub key: String,
    pub value: String,
}

/// `Attribute` as contracts speak of it: each text as its characters, each byte string as
/// its bytes.
pub ghost struct AttributeView {
    pub key: Seq<char>,
    pub value: Seq<char>,
}

impl View for Attribute {
    type V = AttributeView;

    open spec fn view(&self) -> AttributeView {
        AttributeView { key: self.key@, value: self.value@ }
    }
}

/// A named event with its attributes.
#[derive(Clone, Debug, PartialEq, Eq)]
pub struct Event {
    pub ty: String,
    pub attributes: Vec<Attribute>,
}

/// `Event` as contracts speak of it: each text as its characters, each byte string as
/// its bytes.
pub ghost struct EventView {
    pub ty: Seq<char>,
    pub attributes: Seq<AttributeView>,
}

impl View for Event {
    type V = EventView;

    open spec fn view(&self) -> EventView {
        EventView { ty: self.ty@, attributes: self.attributes@.map_values(|a: Attribute| a@) }
    }
}

impl EventView {
    /// The event of type `ty` without attributes.
    pub open spec fn new(ty: Seq<char>) -> EventView {
        EventView { ty, attributes: Seq::empty() }
    }

    /// The event with one more attribute.
    pub open spec fn attr(self, key: Seq<char>, value: Seq<char>) -> EventView {
        EventView { attributes: self.attributes.push(AttributeView { key, value }), ..self }
    }

    /// The event with more attributes.
    pub open spec fn attrs(self, more: Seq<AttributeView>) -> EventView {
        EventView { attributes: self.attributes + more, ..self }
    }
}

/// A message to another contract. It runs after the call that queued it, within
/// the same transaction; the contract that sent it does not see its outcome.
#[derive(Clone, Debug, PartialEq, Eq)]
pub enum Message {
    /// To the token contract `token`: move `amount` to `recipient`.
    Transfer { token: String, recipient: String, amount: u128 },
    /// To the validator: judge `answer` against the answer of the round before.
    Validate {
        validator: String,
        gas_limit: u64,
        previous_round_id: u32,
        previous_answer: i128,
        round_id: u32,
        answer: i128,
    },
    /// To the flags registry: raise the flag of `subject`.
    RaiseFlag { flags: String, subject: String },
}

/// `Message` as contracts speak of it: each text as its characters, each byte string as
/// its bytes.
pub ghost enum MessageView {
    Transfer { token: Seq<char>, recipient: Seq<char>, amount: u128 },
    Validate {
        validator: Seq<char>,
        gas_limit: u64,
        previous_round_id: u32,
        previous_answer: i128,
        round_id: u32,
        answer: i128,
    },
    RaiseFlag { flags: Seq<char>, subject: Seq<char> },
}

impl View for Message {
    type V = MessageView;

    open spec fn view(&self) -> MessageView {
        match *self {
            Message::Transfer { token, recipient, amount } => MessageView::Transfer {
                token: token@,
                recipient: recipient@,
                amount,
            },
            Message::Validate {
                validator,
                gas_limit,
                previous_round_id,
                previous_answer,
                round_id,
                answer,
            } => MessageView::Validate {
                validator: validator@,
                gas_limit,
                previous_round_id,
                previous_answer,
                round_id,
                answer,
            },
            Message::RaiseFlag { flags, subject } => MessageView::RaiseFlag {
                flags: flags@,
                subject: subject@,
            },
        }
    }
}

/// What a call hands back when it succeeds.
#[derive(Clone, Debug, PartialEq, Eq)]
pub struct Response {
    pub messages: Vec<Message>,
    pub attributes: Vec<Attribute>,
    pub events: Vec<Event>,
    /// The verdict that a validation reports to a caller who asks for it.
    pub data: Option<bool>,
}

/// `Response` as contracts speak of it: each text as its characters, each byte string as
/// its bytes.
pub ghost struct ResponseView {
    pub messages: Seq<MessageView>,
    pub attributes: Seq<AttributeView>,
    pub events: Seq<EventView>,
    pub data: Option<bool>,
}

impl View for Response {
    type V = ResponseView;

    open spec fn view(&self) -> ResponseView {
        ResponseView {
            messages: self.messages@.map_values(|m: Message| m@),
            attributes: self.attributes@.map_values(|a: Attribute| a@),
            events: self.events@.map_values(|e: Event| e@),
            data: self.data,
        }
    }
}

impl ResponseView {
    /// The response that carries nothing.
    pub open spec fn new() -> ResponseView {
        ResponseView {
            messages: Seq::empty(),
            attributes: Seq::empty(),
            events: Seq::empty(),
            data: None,
        }
    }

    /// The response with one more attribute.
    pub open spec fn attr(self, key: Seq<char>, value: Seq<char>) -> ResponseView {
        ResponseView { attributes: self.attributes.push(AttributeView { key, value }), ..self }
    }

    /// The response with more attributes.
    pub open spec fn attrs(self, more: Seq<AttributeView>) -> ResponseView {
        ResponseView { attributes: self.attributes + more, ..self }
    }

    /// The response with one more event.
    pub open spec fn event(self, event: EventView) -> ResponseView {
        ResponseView { events: self.events.push(event), ..self }
    }

    /// The response with more events.
    pub open spec fn with_events(self, more: Seq<EventView>) -> ResponseView {
        ResponseView { events: self.events + more, ..self }
    }

    /// The response with one more message.
    pub open spec fn message(self, message: MessageView) -> ResponseView {
        ResponseView { messages: self.messages.push(message), ..self }
    }

    /// The response with more messages.
    pub open spec fn with_messages(self, more: Seq<MessageView>) -> ResponseView {
        ResponseView { messages: self.messages + more, ..self }
    }

    /// The response with `data` as its verdict.
    pub open spec fn with_data(self, data: bool) -> ResponseView {
        ResponseView { data: Some(data), ..self }
    }
}

/// The views of a list of attributes.
pub open spec fn attribute_views(list: Seq<Attribute>) -> Seq<AttributeView> {
    list.map_values(|a: Attribute| a@)
}

/// The views of a list of events.
pub open spec fn event_views(list: Seq<Event>) -> Seq<EventView> {
    list.map_values(|e: Event| e@)
}

/// The views of a list of messages.
pub open spec fn message_views(list: Seq<Message>) -> Seq<MessageView> {
    list.map_values(|m: Message| m@)
}

/// The attribute of `key` and `value`.
pub fn attr(key: &str, value: String) -> (a: Attribute)
    ensures
        a@ == (AttributeView { key: key@, value: value@ }),
{
    Attribute { key: key.to_owned(), value }
}

/// Appends an attribute to a list.
pub fn push_attr(list: &mut Vec<Attribute>, key: &str, value: String)
    ensures
        attribute_views(final(list)@) == attribute_views(old(list)@).push(
            AttributeView { key: key@, value: value@ },
        ),
{
    let a = attr(key, value);
    list.push(a);
    assert(attribute_views(list@) =~= attribute_views(old(list)@).push(a@));
}

/// Appends a message to a list.
pub fn push_message(list: &mut Vec<Message>, message: Message)
    ensures
        message_views(final(list)@) == message_views(old(list)@).push(message@),
{
    list.push(message);
    assert(message_views(list@) =~= message_views(old(list)@).push(message@));
}

/// Appends an event to a list.
pub fn push_event(list: &mut Vec<Event>, event: Event)
    ensures
        event_views(final(list)@) == event_views(old(list)@).push(event@),
{
    list.push(event);
    assert(event_views(list@) =~= event_views(old(list)@).push(event@));
}

impl Event {
    /// The event of type `ty` without attributes.
    pub fn new(ty: &str) -> (e: Event)
        ensures
            e@ == EventView::new(ty@),
    {
        let e = Event { ty: ty.to_owned(), attributes: Vec::new() };
        assert(e@.attributes =~= Seq::empty());
        e
    }

    /// The event with one more attribute.
    pub fn add_attribute(self, key: &str, value: String) -> (e: Event)
        ensures
            e@ == self@.attr(key@, value@),
    {
        let mut e = self;
        push_attr(&mut e.attributes, key, value);
        e
    }

    /// The event with more attributes.
    pub fn add_attributes(self, more: Vec<Attribute>) -> (e: Event)
        ensures
            e@ == self@.attrs(attribute_views(more@)),
    {
        let mut e = self;
        let mut tail = more;
        e.attributes.append(&mut tail);
        assert(e@.attributes =~= self@.attributes + attribute_views(more@));
        e
    }
}

impl Response {
    /// The response that carries nothing.
    pub fn new() -> (r: Response)
        ensures
            r@ == ResponseView::new(),
    {
        let r = Response {
            messages: Vec::new(),
            attributes: Vec::new(),
            events: Vec::new(),
            data: None,
        };
        assert(r@.messages =~= Seq::empty());
        assert(r@.attributes =~= Seq::empty());
        assert(r@.events =~= Seq::empty());
        r
    }

    /// The response with one more attribute.
    pub fn add_attribute(self, key: &str, value: String) -> (r: Response)
        ensures
            r@ == self@.attr(key@, value@),
    {
        let mut r = self;
        push_attr(&mut r.attributes, key, value);
        r
    }

    /// The response with more attributes.
    pub fn add_attributes(self, more: Vec<Attribute>) -> (r: Response)
        ensures
            r@ == self@.attrs(attribute_views(more@)),
    {
        let mut r = self;
        let mut tail = more;
        r.attributes.append(&mut tail);
        assert(r@.attributes =~= self@.attributes + attribute_views(more@));
        r
    }

    /// The response with one more event.
    pub fn add_event(self, event: Event) -> (r: Response)
        ensures
            r@ == self@.event(event@),
    {
        let mut r = self;
        push_event(&mut r.events, event);
        r
    }

    /// The response with more events.
    pub fn add_events(self, more: Vec<Event>) -> (r: Response)
        ensures
            r@ == self@.with_events(event_views(more@)),
    {
        let mut r = self;
        let mut tail = more;
        r.events.append(&mut tail);
        assert(r@.events =~= self@.events + event_views(more@));
        r
    }

    /// The response with one more message.
    pub fn add_message(self, message: Message) -> (r: Response)
        ensures
            r@ == self@.message(message@),
    {
        let mut r = self;
        push_message(&mut r.messages, message);
        r
    }

    /// The response with more messages.
    pub fn add_messages(self, more: Vec<Message>) -> (r: Response)
        ensures
            r@ == self@.with_messages(message_views(more@)),
    {
        let mut r = self;
        let mut tail = more;
        r.messages.append(&mut tail);
        assert(r@.messages =~= self@.messages + message_views(more@));
        r
    }

    /// The response with `data` as its verdict.
    pub fn set_data(self, data: bool) -> (r: Response)
        ensures
            r@ == self@.with_data(data),
    {
        let mut r = self;
        r.data = Some(data);
        r
    }
}


/// A call came out as `expected` says: on success with the response and the
/// state given there, on failure with the error given there and the state as it
/// was before.
pub open spec fn came_out<S, E>(
    expected: Result<(S, ResponseView), E>,
    got: Result<Response, E>,
    before: S,
    after: S,
) -> bool {
    match expected {
        Ok((state, response)) => got is Ok && got->Ok_0@ == response && after == state,
        Err(e) => got is Err && got->Err_0 == e && after == before,
    }
}


/// The name and the version of the contract that wrote a storage.
#[derive(Clone, Debug, PartialEq, Eq)]
pub struct ContractVersion {
    pub contract: String,
    pub version: String,
}

impl View for ContractVersion {
    type V = (Seq<char>, Seq<char>);

    open spec fn view(&self) -> (Seq<char>, Seq<char>) {
        (self.contract@, self.version@)
    }
}

/// The record of the contract `name` at `version`.
pub fn contract_version(name: &str, version: &str) -> (v: ContractVersion)
    ensures
        v@ == (name@, version@),
{
    ContractVersion { contract: name.to_owned(), version: version.to_owned() }
}

} // verus!
