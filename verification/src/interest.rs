use vstd::prelude::*;

use crate::text::str_equal;

verus! {

/// The kinds of WebSocket events a subscriber wants to receive, as a set of bit flags.
#[derive(Clone, Copy, Debug, PartialEq, Eq, Structural)]
pub struct MessageInterest {
    /// One bit per event kind.
    pub bits: u32,
}

impl MessageInterest {
    /// No event at all.
    pub fn none() -> (res: MessageInterest)
        ensures
            res == Self::nothing(),
    {
        MessageInterest { bits: 0 }
    }

    /// Orderbook snapshots (`book`).
    pub fn book() -> (res: MessageInterest)
        ensures
            res.bits == 1,
    {
        MessageInterest { bits: 1 }
    }

    /// Price changes (`price_change`).
    pub fn price_change() -> (res: MessageInterest)
        ensures
            res.bits == 2,
    {
        MessageInterest { bits: 2 }
    }

    /// Tick size changes (`tick_size_change`).
    pub fn tick_size() -> (res: MessageInterest)
        ensures
            res.bits == 4,
    {
        MessageInterest { bits: 4 }
    }

    /// Last trade prices (`last_trade_price`).
    pub fn last_trade_price() -> (res: MessageInterest)
        ensures
            res.bits == 8,
    {
        MessageInterest { bits: 8 }
    }

    /// User trades (`trade`).
    pub fn trade() -> (res: MessageInterest)
        ensures
            res.bits == 16,
    {
        MessageInterest { bits: 16 }
    }

    /// User orders (`order`).
    pub fn order() -> (res: MessageInterest)
        ensures
            res.bits == 32,
    {
        MessageInterest { bits: 32 }
    }

    /// Every market data event.
    pub fn market() -> (res: MessageInterest)
        ensures
            res == Self::market_data(),
    {
        MessageInterest { bits: 15 }
    }

    /// Every user event.
    pub fn user() -> (res: MessageInterest)
        ensures
            res == Self::user_data(),
    {
        MessageInterest { bits: 48 }
    }

    /// Every event.
    pub fn all() -> (res: MessageInterest)
        ensures
            res == Self::everything(),
    {
        MessageInterest { bits: 63 }
    }

    /// No flag.
    pub open spec fn nothing() -> MessageInterest {
        MessageInterest { bits: 0 }
    }

    /// The flags of the four market data events.
    pub open spec fn market_data() -> MessageInterest {
        MessageInterest { bits: 15 }
    }

    /// The flags of the two user events.
    pub open spec fn user_data() -> MessageInterest {
        MessageInterest { bits: 48 }
    }

    /// The flags of all six events.
    pub open spec fn everything() -> MessageInterest {
        MessageInterest { bits: 63 }
    }

    /// Every flag of `other` is set in `self`.
    pub open spec fn includes(self, other: MessageInterest) -> bool {
        self.bits & other.bits == other.bits
    }

    /// Whether every flag of `other` is set in `self`.
    pub fn contains(&self, other: MessageInterest) -> (res: bool)
        ensures
            res == self.includes(other),
    {
        self.bits & other.bits == other.bits
    }
    /// Whether no flag is set.
    pub fn is_empty(&self) -> (res: bool)
        ensures
            res == (self.bits == 0),
    {
        self.bits == 0
    }

    /// The flags set in `self` or in `other`.
    pub fn union(&self, other: MessageInterest) -> (res: MessageInterest)
        ensures
            res.bits == self.bits | other.bits,
    {
        MessageInterest { bits: self.bits | other.bits }
    }

    /// The flag of the event that the wire names `event_type`; no flag for a name it does
    /// not know.
    pub fn from_event_type(event_type: &str) -> (res: MessageInterest)
        ensures
            res.bits == event_flag(event_type@),
    {
        if str_equal(event_type, "book") {
            Self::book()
        } else if str_equal(event_type, "price_change") {
            Self::price_change()
        } else if str_equal(event_type, "tick_size_change") {
            Self::tick_size()
        } else if str_equal(event_type, "last_trade_price") {
            Self::last_trade_price()
        } else if str_equal(event_type, "trade") {
            Self::trade()
        } else if str_equal(event_type, "order") {
            Self::order()
        } else {
            Self::none()
        }
    }

    /// `event_type` names a known event whose flag is set in `self`.
    pub open spec fn interested_in(self, event_type: Seq<char>) -> bool {
        event_flag(event_type) != 0 && self.bits & event_flag(event_type) == event_flag(event_type)
    }

    /// Whether the event that the wire names `event_type` is one that `self` asks for.
    /// An unknown name is never of interest.
    pub fn is_interested_in_event(&self, event_type: &str) -> (res: bool)
        ensures
            res == self.interested_in(event_type@),
    {
        let flag = Self::from_event_type(event_type);
        !flag.is_empty() && self.contains(flag)
    }
}

/// The interest flag of the event named `event_type` in a message's `event_type` field,
/// or 0 for a name that is no event of these channels.
pub open spec fn event_flag(event_type: Seq<char>) -> u32 {
    if event_type == "book"@ {
        1
    } else if event_type == "price_change"@ {
        2
    } else if event_type == "tick_size_change"@ {
        4
    } else if event_type == "last_trade_price"@ {
        8
    } else if event_type == "trade"@ {
        16
    } else if event_type == "order"@ {
        32
    } else {
        0
    }
}

} // verus!
