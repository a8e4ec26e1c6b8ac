//! Plain-value model of the chain host: addresses, coins, block context,
//! the messages a contract may emit and the replies it may receive.

use vstd::prelude::*;
use crate::text::{decimal, u128_to_string};

verus! {

/// A chain account address that the host has already validated.
#[derive(Debug, PartialEq, Eq)]
pub struct Addr(pub String);

impl View for Addr {
    type V = Seq<char>;

    open spec fn view(&self) -> Seq<char> {
        self.0@
    }
}

impl Clone for Addr {
    fn clone(&self) -> (r: Self)
        ensures
            r == *self,
    {
        Addr(self.0.clone())
    }
}

impl Addr {
    /// Wraps a string as an address without any validation.
    pub fn unchecked(s: &str) -> (r: Addr)
        ensures
            r@ == s@,
    {
        Addr(String::from_str(s))
    }

    pub fn as_str(&self) -> (r: &str)
        ensures
            r@ == self@,
    {
        self.0.as_str()
    }

    /// The address as an owned string.
    pub fn to_string(&self) -> (r: String)
        ensures
            r == self.0,
    {
        self.0.clone()
    }
}

/// An amount of one denomination.
#[derive(Debug, PartialEq, Eq)]
pub struct Coin {
    pub denom: String,
    pub amount: u128,
}

impl Clone for Coin {
    fn clone(&self) -> (r: Self)
        ensures
            r == *self,
    {
        Coin { denom: self.denom.clone(), amount: self.amount }
    }
}

impl Coin {
    /// The coin as text: the amount in decimal notation, then the
    /// denomination.
    pub open spec fn text(&self) -> Seq<char> {
        decimal(self.amount as nat) + self.denom@
    }

    pub fn to_string(&self) -> (s: String)
        ensures
            s@ == self.text(),
    {
        u128_to_string(self.amount).concat(self.denom.as_str())
    }
}

/// Builds a coin from an amount and a denomination.
pub fn coin(amount: u128, denom: &str) -> (r: Coin)
    ensures
        r.amount == amount,
        r.denom@ == denom@,
{
    Coin { denom: String::from_str(denom), amount }
}

/// Copies a list of coins.
pub fn clone_coins(coins: &Vec<Coin>) -> (r: Vec<Coin>)
    ensures
        r@ == coins@,
{
    let mut out: Vec<Coin> = Vec::new();
    let mut i: usize = 0;
    while i < coins.len()
        invariant
            i <= coins.len(),
            out@ == coins@.subrange(0, i as int),
        decreases coins.len() - i,
    {
        out.push(coins[i].clone());
        i = i + 1;
    }
    out
}

/// Copies an optional string.
pub fn clone_opt_string(s: &Option<String>) -> (r: Option<String>)
    ensures
        r == *s,
{
    match s {
        Some(v) => Some(v.clone()),
        None => None,
    }
}

/// Copies an optional address.
pub fn clone_opt_addr(a: &Option<Addr>) -> (r: Option<Addr>)
    ensures
        r == *a,
{
    match a {
        Some(v) => Some(v.clone()),
        None => None,
    }
}

/// Copies an optional coin.
pub fn clone_opt_coin(c: &Option<Coin>) -> (r: Option<Coin>)
    ensures
        r == *c,
{
    match c {
        Some(v) => Some(v.clone()),
        None => None,
    }
}

/// A point in time, in nanoseconds since the epoch.
#[derive(Debug, Clone, Copy, PartialEq, Eq, Structural)]
pub struct Timestamp(pub u64);

impl Timestamp {
    pub fn from_nanos(nanos: u64) -> (r: Timestamp)
        ensures
            r.0 == nanos,
    {
        Timestamp(nanos)
    }

    pub fn nanos(&self) -> (r: u64)
        ensures
            r == self.0,
    {
        self.0
    }
}

/// The block in which the current call executes.
#[derive(Debug, Clone, PartialEq, Eq)]
pub struct BlockInfo {
    pub height: u64,
    pub time: Timestamp,
    pub chain_id: String,
}

/// Position of the current transaction within its block.
#[derive(Debug, Clone, Copy, PartialEq, Eq, Structural)]
pub struct TransactionInfo {
    pub index: u32,
}

/// The contract that is executing.
#[derive(Debug, Clone, PartialEq, Eq)]
pub struct ContractInfo {
    pub address: Addr,
}

/// Execution context handed to every entry point.
#[derive(Debug, Clone, PartialEq, Eq)]
pub struct Env {
    pub block: BlockInfo,
    pub transaction: Option<TransactionInfo>,
    pub contract: ContractInfo,
}

impl Env {
    /// Index of the transaction in its block, zero when the host gives none.
    pub open spec fn spec_tx_index(&self) -> u32 {
        match self.transaction {
            Some(tx) => tx.index,
            None => 0u32,
        }
    }

    #[verifier::when_used_as_spec(spec_tx_index)]
    pub fn tx_index(&self) -> (r: u32)
        ensures
            r == self.spec_tx_index(),
    {
        match &self.transaction {
            Some(tx) => tx.index,
            None => 0,
        }
    }
}

/// Who called, and with which funds.
#[derive(Debug, Clone, PartialEq, Eq)]
pub struct MessageInfo {
    pub sender: Addr,
    pub funds: Vec<Coin>,
}

/// Failure reported by the host or by the storage layer.
#[derive(Debug, Clone, PartialEq, Eq)]
pub enum StdError {
    NotFound { kind: String },
    GenericErr { msg: String },
}

impl StdError {
    pub fn not_found(kind: &str) -> (r: StdError)
        ensures
            r matches StdError::NotFound { kind: k } && k@ == kind@,
    {
        StdError::NotFound { kind: String::from_str(kind) }
    }

    /// The failure in words.
    pub open spec fn message(&self) -> Seq<char> {
        match self {
            StdError::NotFound { kind } => kind@ + " not found"@,
            StdError::GenericErr { msg } => "Generic error: "@ + msg@,
        }
    }

    pub fn to_string(&self) -> (s: String)
        ensures
            s@ == self.message(),
    {
        match self {
            StdError::NotFound { kind } => kind.clone().concat(" not found"),
            StdError::GenericErr { msg } => String::from_str("Generic error: ").concat(
                msg.as_str(),
            ),
        }
    }

    pub fn generic_err(msg: &str) -> (r: StdError)
        ensures
            r matches StdError::GenericErr { msg: m } && m@ == msg@,
    {
        StdError::GenericErr { msg: String::from_str(msg) }
    }
}

/// A key-value pair attached to a response for indexing.
#[derive(Debug, Clone, PartialEq, Eq)]
pub struct Attribute {
    pub key: String,
    pub value: String,
}

impl View for Attribute {
    type V = (Seq<char>, Seq<char>);

    open spec fn view(&self) -> (Seq<char>, Seq<char>) {
        (self.key@, self.value@)
    }
}

/// Initialization message of the companion token contract.
#[derive(Debug, Clone, PartialEq, Eq)]
pub struct TokenInstantiateMsg {
    pub name: String,
    pub symbol: String,
    pub minter: String,
    pub uri: Option<String>,
}

/// Request to the companion token contract to mint one token.
#[derive(Debug, Clone, PartialEq, Eq)]
pub struct MintMsg {
    pub token_id: String,
    pub owner: String,
    pub token_uri: Option<String>,
    pub seller_fee: u16,
    pub payment_address: Option<String>,
}

/// Structured payload of a message to another contract; the caller of
/// this library serializes it for the wire.
#[derive(Debug, Clone, PartialEq, Eq)]
pub enum WasmPayload {
    TokenInstantiate(TokenInstantiateMsg),
    TokenMint(MintMsg),
}

#[derive(Debug, Clone, PartialEq, Eq)]
pub enum BankMsg {
    Send { to_address: String, amount: Vec<Coin> },
}

#[derive(Debug, Clone, PartialEq, Eq)]
pub enum WasmMsg {
    Execute { contract_addr: String, msg: WasmPayload, funds: Vec<Coin> },
    Instantiate {
        admin: Option<String>,
        code_id: u64,
        msg: WasmPayload,
        funds: Vec<Coin>,
        label: String,
    },
}

#[derive(Debug, Clone, PartialEq, Eq)]
pub enum CosmosMsg {
    Bank(BankMsg),
    Wasm(WasmMsg),
}

/// When the host should call back with the outcome of a sub-message.
#[derive(Debug, Clone, Copy, PartialEq, Eq, Structural)]
pub enum ReplyOn {
    Always,
    Error,
    Success,
    Never,
}

/// A message to dispatch, with the continuation tag for its reply.
#[derive(Debug, Clone, PartialEq, Eq)]
pub struct SubMsg {
    pub id: u64,
    pub msg: CosmosMsg,
    pub gas_limit: Option<u64>,
    pub reply_on: ReplyOn,
}

impl SubMsg {
    /// Identifier used when no reply is requested.
    pub open spec fn unused_id() -> u64 {
        0
    }

    /// A fire-and-forget message: no reply is requested.
    pub open spec fn plain(msg: CosmosMsg) -> SubMsg {
        SubMsg { id: Self::unused_id(), msg, gas_limit: None, reply_on: ReplyOn::Never }
    }

    pub fn new(msg: CosmosMsg) -> (r: SubMsg)
        ensures
            r == Self::plain(msg),
    {
        SubMsg { id: 0, msg, gas_limit: None, reply_on: ReplyOn::Never }
    }
}

/// What a successful state transition hands back to the host.
#[derive(Debug, Clone, PartialEq, Eq)]
pub struct Response {
    pub messages: Vec<SubMsg>,
    pub attributes: Vec<Attribute>,
}

impl Response {
    /// The attributes as pairs of character sequences, in emission order.
    pub open spec fn attrs(&self) -> Seq<(Seq<char>, Seq<char>)> {
        self.attributes@.map_values(|a: Attribute| a@)
    }

    pub fn new() -> (r: Response)
        ensures
            r.messages@.len() == 0,
            r.attributes@.len() == 0,
            r.attrs() == Seq::<(Seq<char>, Seq<char>)>::empty(),
    {
        let r = Response { messages: Vec::new(), attributes: Vec::new() };
        assert(r.attrs() =~= Seq::<(Seq<char>, Seq<char>)>::empty());
        r
    }

    /// Appends one attribute.
    pub fn add_attribute(self, key: &str, value: String) -> (r: Response)
        ensures
            r.messages == self.messages,
            r.attrs() == self.attrs().push((key@, value@)),
    {
        let mut out = self;
        let ghost before = out.attrs();
        out.attributes.push(Attribute { key: String::from_str(key), value });
        assert(out.attrs() =~= before.push((key@, value@)));
        out
    }

    /// Appends one fire-and-forget message.
    pub fn add_message(self, msg: CosmosMsg) -> (r: Response)
        ensures
            r.attributes == self.attributes,
            r.messages@ == self.messages@.push(SubMsg::plain(msg)),
    {
        let mut out = self;
        out.messages.push(SubMsg::new(msg));
        out
    }

    /// Appends one message whose outcome is reported back.
    pub fn add_submessage(self, msg: SubMsg) -> (r: Response)
        ensures
            r.attributes == self.attributes,
            r.messages@ == self.messages@.push(msg),
    {
        let mut out = self;
        out.messages.push(msg);
        out
    }
}

/// Result data of a sub-message that succeeded.
#[derive(Debug, Clone, PartialEq, Eq)]
pub struct SubMsgResponse {
    pub data: Option<Vec<u8>>,
}

/// Outcome of a dispatched sub-message.
#[derive(Debug, Clone, PartialEq, Eq)]
pub enum SubMsgResult {
    Success(SubMsgResponse),
    Failure(String),
}

/// The host's acknowledgment of a sub-message, tagged with its identifier.
#[derive(Debug, Clone, PartialEq, Eq)]
pub struct Reply {
    pub id: u64,
    pub result: SubMsgResult,
}

impl Reply {
    /// Whether the reply reports a failure or carries no data, so that no
    /// address can be read from it.
    pub open spec fn carries_nothing(&self) -> bool {
        match self.result {
            SubMsgResult::Success(resp) => resp.data is None,
            SubMsgResult::Failure(_) => true,
        }
    }

    /// The bytes that the reply carries; none where it carries no data.
    pub open spec fn reply_data(&self) -> Seq<u8> {
        match self.result {
            SubMsgResult::Success(resp) => match resp.data {
                Some(data) => data@,
                None => Seq::empty(),
            },
            SubMsgResult::Failure(_) => Seq::empty(),
        }
    }

    /// The address of the created contract that can be read from the
    /// reply, if any.
    pub open spec fn address(&self) -> Option<Seq<char>> {
        if self.carries_nothing() {
            None
        } else {
            instantiate_reply_address(self.reply_data(), usize::BITS)
        }
    }
}

/// The address that the reply to a request to create a contract holds in
/// its bytes, if they can be read, on a machine whose sizes are
/// `size_bits` wide: the reader cuts the lengths that the bytes announce
/// to the width of a size.
pub uninterp spec fn instantiate_reply_address(data: Seq<u8>, size_bits: u32) -> Option<Seq<char>>;

/// Why the reply to a request to create a contract could not be read.
#[verifier::external_type_specification]
#[verifier::external_body]
pub struct ExParseReplyError(cw_utils::ParseReplyError);

/// Trusted: `parse_reply_instantiate_data` of the `cw-utils` crate reads
/// the address of the created contract out of a reply. It fails on a
/// reply that reports a failure and on one that carries no data; what it
/// reads from a reply with data depends on the bytes and, through the
/// lengths that it casts to a size, on the width of a size.
#[verifier::external_body]
pub(crate) fn parse_reply_instantiate_data(msg: Reply) -> (r: Result<
    String,
    cw_utils::ParseReplyError,
>)
    ensures
        msg.carries_nothing() ==> r is Err,
        !msg.carries_nothing() ==> match instantiate_reply_address(msg.reply_data(), usize::BITS) {
            Some(a) => r matches Ok(s) && s@ == a,
            None => r is Err,
        },
{
    let result = match msg.result {
        SubMsgResult::Success(resp) => cosmwasm_std::SubMsgResult::Ok(
            cosmwasm_std::SubMsgResponse {
                events: Vec::new(),
                data: resp.data.map(cosmwasm_std::Binary),
            },
        ),
        SubMsgResult::Failure(e) => cosmwasm_std::SubMsgResult::Err(e),
    };
    cw_utils::parse_reply_instantiate_data(cosmwasm_std::Reply { id: msg.id, result }).map(
        |res| res.contract_address,
    )
}

/// Reads the address of the created contract out of the reply to the
/// request that created it.
pub fn read_reply_address(msg: Reply) -> (r: Option<String>)
    ensures
        match msg.address() {
            Some(a) => r matches Some(s) && s@ == a,
            None => r is None,
        },
{
    match parse_reply_instantiate_data(msg) {
        Ok(address) => Some(address),
        Err(_) => None,
    }
}

} // verus!
