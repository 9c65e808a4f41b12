use clob_ws::interest::MessageInterest;
use clob_ws::messages::{
    filter_interested, matches_interest, BookUpdate, LastTradePrice, OrderBookLevel, OrderMessage,
    PriceChange, PriceChangeBatchEntry, Side, TickSizeChange, TradeMessage, TraderSide,
    WsMessage,
};
use clob_ws::shape::{plan_for_shape, select, MessageShape, ParsePlan};
use clob_ws::subscription::{ApiKey, Credentials, SubscriptionRequest};
use clob_ws::text::str_equal;
use rust_decimal::Decimal;

fn book(asset_id: &str, market: &str) -> WsMessage {
    WsMessage::Book(BookUpdate {
        asset_id: asset_id.to_owned(),
        market: market.to_owned(),
        timestamp: 1234567890,
        bids: vec![OrderBookLevel { price: Decimal::new(5, 1), size: Decimal::new(100, 0) }],
        asks: vec![],
        hash: None,
    })
}

fn price_change(market: &str) -> WsMessage {
    WsMessage::PriceChange(PriceChange {
        market: market.to_owned(),
        timestamp: 1234567891,
        price_changes: vec![PriceChangeBatchEntry {
            asset_id: "asset1".to_owned(),
            price: Decimal::new(51, 2),
            size: None,
            side: Side::Buy,
            hash: None,
            best_bid: None,
            best_ask: None,
        }],
    })
}

fn tick_size() -> WsMessage {
    WsMessage::TickSizeChange(TickSizeChange {
        asset_id: "asset1".to_owned(),
        market: "market1".to_owned(),
        old_tick_size: Decimal::new(1, 2),
        new_tick_size: Decimal::new(1, 3),
        timestamp: 1,
    })
}

fn last_trade(asset_id: &str) -> WsMessage {
    WsMessage::LastTradePrice(LastTradePrice {
        asset_id: asset_id.to_owned(),
        market: "market1".to_owned(),
        price: Decimal::new(6, 1),
        side: None,
        timestamp: 1234567892,
    })
}

fn trade(id: &str) -> WsMessage {
    WsMessage::Trade(TradeMessage {
        id: id.to_owned(),
        market: "market1".to_owned(),
        asset_id: "asset1".to_owned(),
        side: Side::Buy,
        size: "10".to_owned(),
        price: "0.5".to_owned(),
        status: "MATCHED".to_owned(),
        msg_type: None,
        last_update: None,
        matchtime: None,
        timestamp: None,
        outcome: None,
        owner: None,
        trade_owner: None,
        taker_order_id: None,
        maker_orders: vec![],
        fee_rate_bps: None,
        transaction_hash: None,
        trader_side: Some(TraderSide::Taker),
    })
}

fn order() -> WsMessage {
    WsMessage::Order(OrderMessage {
        id: "order1".to_owned(),
        market: "market1".to_owned(),
        asset_id: "asset1".to_owned(),
        side: Side::Sell,
        price: "0.5".to_owned(),
        msg_type: Some("PLACEMENT".to_owned()),
        outcome: None,
        owner: None,
        order_owner: None,
        original_size: None,
        size_matched: None,
        timestamp: None,
        associate_trades: None,
    })
}

fn all_kinds() -> Vec<WsMessage> {
    vec![book("a", "m"), price_change("m"), tick_size(), last_trade("a"), trade("t"), order()]
}

#[test]
fn user_and_market_messages() {
    let kinds = all_kinds();
    let user: Vec<bool> = kinds.iter().map(|m| m.is_user()).collect();
    assert_eq!(user, vec![false, false, false, false, true, true]);
    for m in &kinds {
        assert_eq!(m.is_market(), !m.is_user());
    }
}

#[test]
fn interest_flags() {
    assert_eq!(MessageInterest::book().bits, 1);
    assert_eq!(MessageInterest::order().bits, 32);
    assert_eq!(MessageInterest::all().bits, 63);
    assert!(MessageInterest::all().contains(MessageInterest::trade()));
    assert!(!MessageInterest::market().contains(MessageInterest::trade()));
    assert!(MessageInterest::user().contains(MessageInterest::order()));
    assert!(MessageInterest::book().contains(MessageInterest::none()));
    let both = MessageInterest::book().union(MessageInterest::trade());
    assert_eq!(both.bits, 17);
    assert!(both.contains(MessageInterest::book()));
    assert!(!both.contains(MessageInterest::order()));
    assert!(MessageInterest::none().is_empty());
    assert!(!MessageInterest::tick_size().is_empty());
}

#[test]
fn event_names_map_to_flags() {
    let names = ["book", "price_change", "tick_size_change", "last_trade_price", "trade", "order"];
    let bits: Vec<u32> = names.iter().map(|n| MessageInterest::from_event_type(n).bits).collect();
    assert_eq!(bits, vec![1, 2, 4, 8, 16, 32]);
    assert_eq!(MessageInterest::from_event_type("BOOK").bits, 0);
    assert_eq!(MessageInterest::from_event_type("").bits, 0);
    assert_eq!(MessageInterest::from_event_type("tick_size").bits, 0);
}

#[test]
fn interest_in_event_names() {
    assert!(MessageInterest::all().is_interested_in_event("trade"));
    assert!(MessageInterest::book().is_interested_in_event("book"));
    assert!(!MessageInterest::book().is_interested_in_event("trade"));
    assert!(!MessageInterest::all().is_interested_in_event("unknown"));
    assert!(!MessageInterest::none().is_interested_in_event("book"));
    assert!(MessageInterest::market().is_interested_in_event("last_trade_price"));
    assert!(!MessageInterest::market().is_interested_in_event("order"));
}

#[test]
fn messages_match_their_flags() {
    let kinds = all_kinds();
    let book_only: Vec<bool> =
        kinds.iter().map(|m| matches_interest(m, MessageInterest::book())).collect();
    assert_eq!(book_only, vec![true, false, false, false, false, false]);
    let user: Vec<bool> =
        kinds.iter().map(|m| matches_interest(m, MessageInterest::user())).collect();
    assert_eq!(user, vec![false, false, false, false, true, true]);
    for m in &kinds {
        assert!(matches_interest(m, MessageInterest::all()));
        assert!(!matches_interest(m, MessageInterest::none()));
    }
}

#[test]
fn filter_keeps_order_of_wanted_messages() {
    let msgs = vec![book("a1", "m1"), trade("t1"), book("a2", "m1"), order(), trade("t2")];
    let kept = filter_interested(msgs, &MessageInterest::trade());
    assert_eq!(kept.len(), 2);
    assert!(matches!(&kept[0], WsMessage::Trade(t) if t.id == "t1"));
    assert!(matches!(&kept[1], WsMessage::Trade(t) if t.id == "t2"));

    let all = filter_interested(all_kinds(), &MessageInterest::all());
    assert_eq!(all.len(), 6);
    let none = filter_interested(all_kinds(), &MessageInterest::none());
    assert!(none.is_empty());
    let market = filter_interested(all_kinds(), &MessageInterest::market());
    assert_eq!(market.len(), 4);
    assert!(market.iter().all(|m| m.is_market()));
}

#[test]
fn plan_by_shape() {
    let book_shape = MessageShape::Single(Some("book".to_owned()));
    assert_eq!(plan_for_shape(&book_shape, &MessageInterest::book()), ParsePlan::DecodeOne);
    assert_eq!(plan_for_shape(&book_shape, &MessageInterest::trade()), ParsePlan::Skip);
    let unknown = MessageShape::Single(Some("midpoint".to_owned()));
    assert_eq!(plan_for_shape(&unknown, &MessageInterest::all()), ParsePlan::Skip);
    assert_eq!(plan_for_shape(&MessageShape::Single(None), &MessageInterest::all()), ParsePlan::Skip);
    assert_eq!(plan_for_shape(&MessageShape::Array, &MessageInterest::none()), ParsePlan::DecodeBatch);
}

#[test]
fn select_by_plan() {
    let decoded = || vec![book("asset1", "market1"), trade("trade1")];
    assert!(select(ParsePlan::Skip, vec![], &MessageInterest::all()).is_empty());
    assert!(select(ParsePlan::Skip, decoded(), &MessageInterest::all()).is_empty());

    let one = select(ParsePlan::DecodeOne, vec![trade("t1")], &MessageInterest::trade());
    assert_eq!(one.len(), 1);
    assert!(matches!(&one[0], WsMessage::Trade(t) if t.id == "t1"));

    let msgs = select(ParsePlan::DecodeBatch, decoded(), &MessageInterest::book());
    assert_eq!(msgs.len(), 1);
    assert!(matches!(&msgs[0], WsMessage::Book(_)));

    let msgs = select(ParsePlan::DecodeBatch, decoded(), &MessageInterest::trade());
    assert_eq!(msgs.len(), 1);
    assert!(matches!(&msgs[0], WsMessage::Trade(_)));

    let msgs = select(ParsePlan::DecodeBatch, decoded(), &MessageInterest::all());
    assert_eq!(msgs.len(), 2);
}

#[test]
fn narrowing_interest_only_removes() {
    let shape = MessageShape::Single(Some("trade".to_owned()));
    let wide = MessageInterest::user();
    let narrow = MessageInterest::order();
    assert_eq!(plan_for_shape(&shape, &wide), ParsePlan::DecodeOne);
    assert_eq!(plan_for_shape(&shape, &narrow), ParsePlan::Skip);

    let batch = || vec![trade("t1"), order(), book("a", "m"), trade("t2")];
    let wide_msgs = select(ParsePlan::DecodeBatch, batch(), &wide);
    assert_eq!(wide_msgs.len(), 3);
    let narrow_msgs = select(ParsePlan::DecodeBatch, batch(), &narrow);
    assert_eq!(narrow_msgs.len(), 1);
    assert!(matches!(&narrow_msgs[0], WsMessage::Order(_)));
}

#[test]
fn market_subscription_request() {
    let request = SubscriptionRequest::market(vec!["asset1".to_owned(), "asset2".to_owned()]);
    assert_eq!(request.sub_type, "market");
    assert_eq!(request.asset_ids, vec!["asset1".to_owned(), "asset2".to_owned()]);
    assert!(request.markets.is_empty());
    assert_eq!(request.initial_dump, Some(true));
    assert_eq!(request.custom_feature_enabled, Some(true));
    assert!(request.auth.is_none());
}

#[test]
fn user_subscription_request() {
    let credentials =
        Credentials::new(ApiKey::nil(), "test-secret".to_owned(), "test-pass".to_owned());
    let request = SubscriptionRequest::user(vec!["market1".to_owned()], credentials);
    assert_eq!(request.sub_type, "user");
    assert_eq!(request.markets, vec!["market1".to_owned()]);
    assert!(request.asset_ids.is_empty());
    assert_eq!(request.initial_dump, Some(true));
    assert_eq!(request.custom_feature_enabled, None);
    let auth = request.auth.expect("credentials kept");
    assert_eq!(auth.key, ApiKey::nil());
    assert_eq!(auth.key.value, 0);
    assert_eq!(auth.secret, "test-secret");
    assert_eq!(auth.passphrase, "test-pass");
}

#[test]
fn string_equality() {
    assert!(str_equal("book", "book"));
    assert!(!str_equal("book", "books"));
    assert!(!str_equal("book", "bOok"));
    assert!(str_equal("", ""));
    assert!(str_equal("prix·é", "prix·é"));
}
