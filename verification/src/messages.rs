//! The messages that arrive on the market and user channels.

use vstd::prelude::*;

use rust_decimal::Decimal;

use crate::interest::MessageInterest;

verus! {

/// Side of an order or a trade.
#[derive(Clone, Copy, Debug, PartialEq, Eq, Structural)]
pub enum Side {
    /// A bid (`BUY` on the wire).
    Buy,
    /// An ask (`SELL` on the wire).
    Sell,
}

/// Whether the user took part in a trade as maker or as taker.
#[derive(Clone, Copy, Debug, PartialEq, Eq, Structural)]
pub enum TraderSide {
    /// The user's resting order was filled (`MAKER` on the wire).
    Maker,
    /// The user's order crossed the book (`TAKER` on the wire).
    Taker,
}

/// Orderbook update message (full snapshot or delta).
///
/// When first subscribing or when trades occur, this message contains the current
/// state of the orderbook with bids and asks arrays.
#[derive(Debug, Clone)]
pub struct BookUpdate {
    /// Asset/token identifier
    pub asset_id: String,
    /// Market identifier
    pub market: String,
    /// Unix timestamp in milliseconds
    pub timestamp: i64,
    /// Current bid levels (price descending)
    pub bids: Vec<OrderBookLevel>,
    /// Current ask levels (price ascending)
    pub asks: Vec<OrderBookLevel>,
    /// Hash for orderbook validation
    pub hash: Option<String>,
}

/// Individual price level in an orderbook.
#[derive(Debug, Clone)]
pub struct OrderBookLevel {
    /// Price at this level
    pub price: Decimal,
    /// Total size available at this price
    pub size: Decimal,
}

/// A `price_change` event: one market, one timestamp, and the price changes of its assets.
#[derive(Debug, Clone)]
pub struct PriceChange {
    /// Market identifier
    pub market: String,
    /// Unix timestamp in milliseconds
    pub timestamp: i64,
    /// The changes, one per asset and side
    pub price_changes: Vec<PriceChangeBatchEntry>,
}

/// One price change within a `price_change` event.
#[derive(Debug, Clone)]
pub struct PriceChangeBatchEntry {
    /// Asset/token identifier
    pub asset_id: String,
    /// New price
    pub price: Decimal,
    /// Total size affected by this price change (if provided)
    pub size: Option<Decimal>,
    /// Side of the price change (BUY or SELL)
    pub side: Side,
    /// Hash for validation (if present)
    pub hash: Option<String>,
    /// Best bid price after this change
    pub best_bid: Option<Decimal>,
    /// Best ask price after this change
    pub best_ask: Option<Decimal>,
}

/// Tick size change event (triggered when price crosses thresholds).
#[derive(Debug, Clone)]
pub struct TickSizeChange {
    /// Asset/token identifier
    pub asset_id: String,
    /// Market identifier
    pub market: String,
    /// Previous tick size
    pub old_tick_size: Decimal,
    /// New tick size
    pub new_tick_size: Decimal,
    /// Unix timestamp in milliseconds
    pub timestamp: i64,
}

/// Last trade price update.
#[derive(Debug, Clone)]
pub struct LastTradePrice {
    /// Asset/token identifier
    pub asset_id: String,
    /// Market identifier
    pub market: String,
    /// Last trade price
    pub price: Decimal,
    /// Side of the last trade
    pub side: Option<Side>,
    /// Unix timestamp in milliseconds
    pub timestamp: i64,
}

/// Maker order details within a trade message.
#[derive(Debug, Clone)]
pub struct MakerOrder {
    /// Asset/token identifier of the maker order
    pub asset_id: String,
    /// Amount of maker order matched in trade
    pub matched_amount: String,
    /// Maker order ID
    pub order_id: String,
    /// Outcome (Yes/No)
    pub outcome: String,
    /// Owner (API key) of maker order
    pub owner: String,
    /// Price of maker order
    pub price: String,
}

/// User trade execution message (authenticated channel only).
#[derive(Debug, Clone)]
pub struct TradeMessage {
    /// Trade identifier
    pub id: String,
    /// Market identifier (condition ID)
    pub market: String,
    /// Asset/token identifier
    pub asset_id: String,
    /// Side of the trade (BUY or SELL)
    pub side: Side,
    /// Size of the trade
    pub size: String,
    /// Execution price
    pub price: String,
    /// Trade status (MATCHED, MINED, CONFIRMED, etc.)
    pub status: String,
    /// Message type (always "TRADE"; `type` on the wire)
    pub msg_type: Option<String>,
    /// Timestamp of last trade modification
    pub last_update: Option<String>,
    /// Time trade was matched
    pub matchtime: Option<String>,
    /// Unix timestamp of event
    pub timestamp: Option<String>,
    /// Outcome (Yes/No)
    pub outcome: Option<String>,
    /// API key of event owner
    pub owner: Option<String>,
    /// API key of trade owner
    pub trade_owner: Option<String>,
    /// ID of taker order
    pub taker_order_id: Option<String>,
    /// Array of maker order details
    pub maker_orders: Vec<MakerOrder>,
    /// Fee rate in basis points (string in API response)
    pub fee_rate_bps: Option<String>,
    /// Transaction hash
    pub transaction_hash: Option<String>,
    /// Whether user was maker or taker
    pub trader_side: Option<TraderSide>,
}

/// User order update message (authenticated channel only).
#[derive(Debug, Clone)]
pub struct OrderMessage {
    /// Order identifier
    pub id: String,
    /// Market identifier (condition ID)
    pub market: String,
    /// Asset/token identifier
    pub asset_id: String,
    /// Side of the order (BUY or SELL)
    pub side: Side,
    /// Order price
    pub price: String,
    /// Message type (PLACEMENT, UPDATE, or CANCELLATION; `type` on the wire)
    pub msg_type: Option<String>,
    /// Outcome (Yes/No)
    pub outcome: Option<String>,
    /// Owner (API key)
    pub owner: Option<String>,
    /// Order owner (API key of order originator)
    pub order_owner: Option<String>,
    /// Original order size
    pub original_size: Option<String>,
    /// Amount matched so far
    pub size_matched: Option<String>,
    /// Unix timestamp of event
    pub timestamp: Option<String>,
    /// Associated trade IDs
    pub associate_trades: Option<Vec<String>>,
}

/// Order status for WebSocket order messages.
#[derive(Debug, Clone, Copy, PartialEq, Eq, Structural)]
pub enum OrderStatus {
    /// Order is open and active
    Open,
    /// Order has been matched with a counterparty
    Matched,
    /// Order has been partially filled
    PartiallyFilled,
    /// Order has been cancelled
    Cancelled,
    /// Order has been placed (initial status)
    Placement,
    /// Order update (partial match)
    Update,
    /// Order cancellation in progress
    Cancellation,
}

/// Calculated midpoint update (derived from orderbook).
#[derive(Debug, Clone)]
pub struct MidpointUpdate {
    /// Asset/token identifier
    pub asset_id: String,
    /// Market identifier
    pub market: String,
    /// Calculated midpoint price
    pub midpoint: Decimal,
    /// Unix timestamp in milliseconds
    pub timestamp: i64,
}

/// A message received on the WebSocket connection; its `event_type` field names the variant.
#[derive(Debug, Clone)]
pub enum WsMessage {
    /// Full or incremental orderbook update
    Book(BookUpdate),
    /// Price change notification
    PriceChange(PriceChange),
    /// Tick size change notification
    TickSizeChange(TickSizeChange),
    /// Last trade price update
    LastTradePrice(LastTradePrice),
    /// User trade execution (authenticated channel)
    Trade(TradeMessage),
    /// User order update (authenticated channel)
    Order(OrderMessage),
}

impl WsMessage {
    /// The message belongs to the authenticated user channel.
    pub open spec fn user_message(self) -> bool {
        self is Trade || self is Order
    }

    /// Check if the message is a user-specific message.
    pub fn is_user(&self) -> (res: bool)
        ensures
            res == self.user_message(),
    {
        match self {
            WsMessage::Trade(_) | WsMessage::Order(_) => true,
            _ => false,
        }
    }

    /// Check if the message is a market data message.
    pub fn is_market(&self) -> (res: bool)
        ensures
            res == !self.user_message(),
    {
        !self.is_user()
    }

    /// The value of the `event_type` field under which this variant travels on the wire.
    pub open spec fn event_type_name(self) -> Seq<char> {
        match self {
            WsMessage::Book(_) => "book"@,
            WsMessage::PriceChange(_) => "price_change"@,
            WsMessage::TickSizeChange(_) => "tick_size_change"@,
            WsMessage::LastTradePrice(_) => "last_trade_price"@,
            WsMessage::Trade(_) => "trade"@,
            WsMessage::Order(_) => "order"@,
        }
    }

    /// The interest flag that selects this variant.
    pub open spec fn flag(self) -> u32 {
        match self {
            WsMessage::Book(_) => 1,
            WsMessage::PriceChange(_) => 2,
            WsMessage::TickSizeChange(_) => 4,
            WsMessage::LastTradePrice(_) => 8,
            WsMessage::Trade(_) => 16,
            WsMessage::Order(_) => 32,
        }
    }
}

/// `interest` asks for messages of the kind of `msg`.
pub open spec fn wanted(msg: WsMessage, interest: MessageInterest) -> bool {
    interest.bits & msg.flag() == msg.flag()
}

/// Check if a message matches the interest filter.
pub fn matches_interest(msg: &WsMessage, interest: MessageInterest) -> (res: bool)
    ensures
        res == wanted(*msg, interest),
{
    match msg {
        WsMessage::Book(_) => interest.contains(MessageInterest::book()),
        WsMessage::PriceChange(_) => interest.contains(MessageInterest::price_change()),
        WsMessage::TickSizeChange(_) => interest.contains(MessageInterest::tick_size()),
        WsMessage::LastTradePrice(_) => interest.contains(MessageInterest::last_trade_price()),
        WsMessage::Trade(_) => interest.contains(MessageInterest::trade()),
        WsMessage::Order(_) => interest.contains(MessageInterest::order()),
    }
}

/// The messages of `msgs` that `interest` asks for, in their order.
pub open spec fn wanted_messages(msgs: Seq<WsMessage>, interest: MessageInterest) -> Seq<WsMessage> {
    msgs.filter(|m: WsMessage| wanted(m, interest))
}

/// Keeps the messages that `interest` asks for, in the order in which they came.
pub fn filter_interested(msgs: Vec<WsMessage>, interest: &MessageInterest) -> (res: Vec<WsMessage>)
    ensures
        res@ == wanted_messages(msgs@, *interest),
{
    let ghost all = msgs@;
    let mut kept: Vec<WsMessage> = Vec::new();
    for m in it: msgs.into_iter()
        invariant
            it.seq() == all,
            kept@ == wanted_messages(all.take(it.index() as int), *interest),
    {
        let ghost i = it.index() as int;
        proof {
            assert(all.take(i + 1).drop_last() =~= all.take(i));
            assert(all.take(i + 1).last() == m);
            reveal(Seq::filter);
        }
        if matches_interest(&m, *interest) {
            kept.push(m);
        }
    }
    proof {
        assert(all.take(all.len() as int) =~= all);
    }
    kept
}

} // verus!
