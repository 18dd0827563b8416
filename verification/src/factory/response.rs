//! What comes with a request, and what answers it.

use vstd::prelude::*;
use crate::ibc::ChainIbcExecuteMsg;
use crate::msgs::escrow::ExecuteMsg;
use crate::store::PendingRecord;
use crate::store::PendingRowView;
use crate::store::TxType;
use crate::token::TokenType;

verus! {

/// An amount of a native coin.
#[derive(Debug, PartialEq, Eq)]
pub struct Coin {
    pub denom: String,
    pub amount: u128,
}

/// Who makes a request, and the funds that come with it.
#[derive(Debug, PartialEq, Eq)]
pub struct MessageInfo {
    pub sender: String,
    pub funds: Vec<Coin>,
}

/// Where and when a request is handled.
#[derive(Debug, PartialEq, Eq)]
pub struct Env {
    /// The time of the block, in nanoseconds.
    pub block_time: u64,
    /// The address of the contract that handles the request.
    pub contract_address: String,
}

/// The record that a request was accepted.
#[derive(Debug, PartialEq, Eq)]
pub struct TxEvent {
    pub tx_id: String,
    pub sender: String,
    pub tx_type: TxType,
}

/// The record of what was accepted of a swap.
#[derive(Debug, PartialEq, Eq)]
pub struct SwapEvent {
    pub tx_id: String,
    /// The swap as it is kept while it is in flight: what is swapped after
    /// the partner's fee, the least that must come out, the fee, the route
    /// and the claimants.
    pub swap: PendingRecord,
}

/// What an answer reports of an accepted request.
#[derive(Debug, PartialEq, Eq)]
pub enum Event {
    Tx(TxEvent),
    Swap(SwapEvent),
}

/// A request on its way to the hub.
#[derive(Debug, PartialEq, Eq)]
pub struct IbcPacket {
    pub channel_id: String,
    pub data: ChainIbcExecuteMsg,
    /// The moment, in nanoseconds, at which the request expires.
    pub timeout: u64,
}

/// An order to move tokens that a contract holds.
#[derive(Debug, PartialEq, Eq)]
pub struct TransferMsg {
    pub token_type: TokenType,
    pub amount: u128,
    pub recipient: String,
}

/// What an accepted request asks the chain to do.
#[derive(Debug, PartialEq, Eq)]
pub enum CosmosMsg {
    Ibc(IbcPacket),
    Transfer(TransferMsg),
    Escrow { contract_addr: String, msg: ExecuteMsg },
}

/// The answer to an accepted request.
#[derive(Debug, PartialEq, Eq)]
pub struct Response {
    pub events: Vec<Event>,
    pub attributes: Vec<(String, String)>,
    pub messages: Vec<CosmosMsg>,
}

/// The attributes of an answer, as plain values.
pub open spec fn attribute_rows(attributes: Seq<(String, String)>) -> Seq<(Seq<char>, Seq<char>)> {
    Seq::new(attributes.len(), |i: int| (attributes[i].0@, attributes[i].1@))
}

/// Whether `attributes` is the one attribute that names the method.
pub open spec fn names_method(attributes: Seq<(String, String)>, method: Seq<char>) -> bool {
    attribute_rows(attributes) == seq![("method"@, method)]
}

/// Whether `event` records that a request of this kind, requester and
/// transaction id was accepted.
pub open spec fn is_tx_event(event: Event, kind: TxType, sender: Seq<char>, tx_id: Seq<char>) -> bool {
    event matches Event::Tx(tx) && tx.tx_type == kind && tx.sender@ == sender && tx.tx_id@ == tx_id
}

/// Whether `events` is the one event of an accepted request.
pub open spec fn records_tx(events: Seq<Event>, kind: TxType, sender: Seq<char>, tx_id: Seq<char>) -> bool {
    events.len() == 1 && is_tx_event(events[0], kind, sender, tx_id)
}

/// Whether `events` is the two events of an accepted swap: that the request
/// was accepted, and then the swap as it is kept.
pub open spec fn records_swap(events: Seq<Event>, sender: Seq<char>, tx_id: Seq<char>, swap: PendingRowView) -> bool {
    &&& events.len() == 2
    &&& is_tx_event(events[0], TxType::Swap, sender, tx_id)
    &&& events[1] matches Event::Swap(event)
    &&& event.tx_id@ == tx_id
    &&& event.swap@ == swap
}

} // verus!
