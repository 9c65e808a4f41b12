//! Properties that hold across the interest flags, the message kinds and the frame plans.

use vstd::prelude::*;

use crate::interest::{event_flag, MessageInterest};
use crate::messages::{
    wanted, wanted_messages, BookUpdate, LastTradePrice, OrderMessage, PriceChange, TickSizeChange,
    TradeMessage, WsMessage,
};
use crate::shape::{plan_for, selected, MessageShape, ParsePlan};

verus! {

/// The `event_type` under which a message travels names exactly the flag that selects it.
pub proof fn lemma_event_type_names_flag(msg: WsMessage)
    ensures
        event_flag(msg.event_type_name()) == msg.flag(),
{
    reveal_strlit("book");
    reveal_strlit("price_change");
    reveal_strlit("tick_size_change");
    reveal_strlit("last_trade_price");
    reveal_strlit("trade");
    reveal_strlit("order");
    assert("book"@.len() == 4 && "trade"@.len() == 5 && "order"@.len() == 5);
    assert("price_change"@.len() == 12);
    assert("tick_size_change"@.len() == 16 && "last_trade_price"@.len() == 16);
    // The names of equal length differ in their first character.
    assert("tick_size_change"@[0] != "last_trade_price"@[0]);
    assert("trade"@[0] != "order"@[0]);
}

/// Asking by event name and asking by message agree: `interest` is interested in the
/// `event_type` of a message exactly when it wants that message.
pub proof fn lemma_interest_by_name_agrees(msg: WsMessage, interest: MessageInterest)
    ensures
        interest.interested_in(msg.event_type_name()) == wanted(msg, interest),
{
    lemma_event_type_names_flag(msg);
}

/// A single-object frame is decoded exactly when the message it carries would survive the
/// filter that a batch goes through.
pub proof fn lemma_single_and_batch_agree(
    msg: WsMessage,
    event_type: String,
    interest: MessageInterest,
)
    requires
        event_type@ == msg.event_type_name(),
    ensures
        (plan_for(MessageShape::Single(Some(event_type)), interest) == ParsePlan::DecodeOne)
            == wanted(msg, interest),
        wanted_messages(seq![msg], interest) == (if wanted(msg, interest) {
            seq![msg]
        } else {
            Seq::<WsMessage>::empty()
        }),
{
    lemma_interest_by_name_agrees(msg, interest);
    reveal_with_fuel(Seq::filter, 2);
    assert(seq![msg].drop_last() =~= Seq::<WsMessage>::empty());
}

/// `ALL` wants every message.
pub proof fn lemma_everything_wants_all(msg: WsMessage)
    ensures
        wanted(msg, MessageInterest::everything()),
{
    assert(63u32 & 1u32 == 1u32 && 63u32 & 2u32 == 2u32 && 63u32 & 4u32 == 4u32 && 63u32 & 8u32
        == 8u32 && 63u32 & 16u32 == 16u32 && 63u32 & 32u32 == 32u32) by (bit_vector);
}

/// `MARKET` wants exactly the market data messages and `USER` exactly the user messages.
pub proof fn lemma_market_and_user_split(msg: WsMessage)
    ensures
        wanted(msg, MessageInterest::market_data()) == !msg.user_message(),
        wanted(msg, MessageInterest::user_data()) == msg.user_message(),
{
    assert(15u32 & 1u32 == 1u32 && 15u32 & 2u32 == 2u32 && 15u32 & 4u32 == 4u32 && 15u32 & 8u32
        == 8u32 && 15u32 & 16u32 != 16u32 && 15u32 & 32u32 != 32u32) by (bit_vector);
    assert(48u32 & 1u32 != 1u32 && 48u32 & 2u32 != 2u32 && 48u32 & 4u32 != 4u32 && 48u32 & 8u32
        != 8u32 && 48u32 & 16u32 == 16u32 && 48u32 & 32u32 == 32u32) by (bit_vector);
}

/// An empty interest wants no message.
pub proof fn lemma_nothing_wants_none(msg: WsMessage)
    ensures
        !wanted(msg, MessageInterest::nothing()),
{
    assert(0u32 & 1u32 != 1u32 && 0u32 & 2u32 != 2u32 && 0u32 & 4u32 != 4u32 && 0u32 & 8u32
        != 8u32 && 0u32 & 16u32 != 16u32 && 0u32 & 32u32 != 32u32) by (bit_vector);
}

/// A union of interests wants a message exactly when one of them does.
pub proof fn lemma_union_wants_either(msg: WsMessage, a: MessageInterest, b: MessageInterest)
    ensures
        wanted(msg, MessageInterest { bits: a.bits | b.bits }) == (wanted(msg, a) || wanted(
            msg,
            b,
        )),
{
    let x = a.bits;
    let y = b.bits;
    assert(((x | y) & 1u32 == 1u32) == ((x & 1u32 == 1u32) || (y & 1u32 == 1u32))) by (bit_vector);
    assert(((x | y) & 2u32 == 2u32) == ((x & 2u32 == 2u32) || (y & 2u32 == 2u32))) by (bit_vector);
    assert(((x | y) & 4u32 == 4u32) == ((x & 4u32 == 4u32) || (y & 4u32 == 4u32))) by (bit_vector);
    assert(((x | y) & 8u32 == 8u32) == ((x & 8u32 == 8u32) || (y & 8u32 == 8u32))) by (bit_vector);
    assert(((x | y) & 16u32 == 16u32) == ((x & 16u32 == 16u32) || (y & 16u32 == 16u32)))
        by (bit_vector);
    assert(((x | y) & 32u32 == 32u32) == ((x & 32u32 == 32u32) || (y & 32u32 == 32u32)))
        by (bit_vector);
}

/// Filtering with `ALL` keeps every message of a batch, in order.
pub proof fn lemma_everything_keeps_batch(msgs: Seq<WsMessage>)
    ensures
        wanted_messages(msgs, MessageInterest::everything()) == msgs,
    decreases msgs.len(),
{
    reveal(Seq::filter);
    if msgs.len() > 0 {
        lemma_everything_keeps_batch(msgs.drop_last());
        lemma_everything_wants_all(msgs.last());
        assert(msgs.drop_last().push(msgs.last()) =~= msgs);
    }
}

/// Filtering with an empty interest keeps nothing.
pub proof fn lemma_nothing_empties_batch(msgs: Seq<WsMessage>)
    ensures
        wanted_messages(msgs, MessageInterest::nothing()) == Seq::<WsMessage>::empty(),
    decreases msgs.len(),
{
    reveal(Seq::filter);
    if msgs.len() > 0 {
        lemma_nothing_empties_batch(msgs.drop_last());
        lemma_nothing_wants_none(msgs.last());
    }
}

/// Filtering a second time with the same interest changes nothing.
pub proof fn lemma_filter_idempotent(msgs: Seq<WsMessage>, interest: MessageInterest)
    ensures
        wanted_messages(wanted_messages(msgs, interest), interest) == wanted_messages(
            msgs,
            interest,
        ),
    decreases msgs.len(),
{
    reveal(Seq::filter);
    if msgs.len() > 0 {
        let rest = msgs.drop_last();
        lemma_filter_idempotent(rest, interest);
        let once = wanted_messages(rest, interest);
        if wanted(msgs.last(), interest) {
            assert(once.push(msgs.last()).drop_last() =~= once);
        }
    }
}

/// A larger interest never drops a message: what `narrow` wants, every interest that
/// includes `narrow` wants too.
pub proof fn lemma_interest_monotone(msg: WsMessage, narrow: MessageInterest, wide: MessageInterest)
    requires
        wide.includes(narrow),
    ensures
        wanted(msg, narrow) ==> wanted(msg, wide),
        narrow.interested_in(msg.event_type_name()) ==> wide.interested_in(msg.event_type_name()),
{
    let x = narrow.bits;
    let y = wide.bits;
    let f = msg.flag();
    assert((y & x == x && x & f == f) ==> y & f == f) by (bit_vector);
    lemma_interest_by_name_agrees(msg, narrow);
    lemma_interest_by_name_agrees(msg, wide);
}

/// Narrowing the interest only removes messages: filtering a batch with `narrow` gives what
/// filtering with `narrow` the batch already filtered with a wider `wide` gives, so the
/// narrow result is an in-order subsequence of the wide one.
pub proof fn lemma_filter_narrowing(msgs: Seq<WsMessage>, narrow: MessageInterest, wide: MessageInterest)
    requires
        wide.includes(narrow),
    ensures
        wanted_messages(msgs, narrow) == wanted_messages(wanted_messages(msgs, wide), narrow),
    decreases msgs.len(),
{
    reveal(Seq::filter);
    if msgs.len() > 0 {
        let rest = msgs.drop_last();
        let last = msgs.last();
        lemma_filter_narrowing(rest, narrow, wide);
        lemma_interest_monotone(last, narrow, wide);
        let wide_rest = wanted_messages(rest, wide);
        if wanted(last, wide) {
            assert(wide_rest.push(last).drop_last() =~= wide_rest);
        }
    }
}

/// Narrowing the interest only removes messages from what a frame yields. For a single
/// object, `decoded` is the one message that its decoding gives, whose `event_type` is the
/// frame's; for a batch, `decoded` is all its messages.
pub proof fn lemma_frame_narrowing(
    shape: MessageShape,
    decoded: Seq<WsMessage>,
    narrow: MessageInterest,
    wide: MessageInterest,
)
    requires
        wide.includes(narrow),
        shape matches MessageShape::Single(Some(event_type)) ==> decoded.len() == 1
            && decoded[0].event_type_name() == event_type@,
    ensures
        selected(plan_for(shape, narrow), decoded, narrow) == wanted_messages(
            selected(plan_for(shape, wide), decoded, wide),
            narrow,
        ),
{
    reveal(Seq::filter);
    match shape {
        MessageShape::Single(None) => {},
        MessageShape::Single(Some(event_type)) => {
            let msg = decoded[0];
            assert(decoded =~= seq![msg]);
            lemma_single_and_batch_agree(msg, event_type, narrow);
            lemma_single_and_batch_agree(msg, event_type, wide);
            lemma_interest_monotone(msg, narrow, wide);
        },
        MessageShape::Array => {
            lemma_filter_narrowing(decoded, narrow, wide);
        },
    }
}

/// Each kind of message is wanted exactly when its own flag is set, whatever the other flags
/// are: `BOOK` is 1, `PRICE_CHANGE` 2, `TICK_SIZE` 4, `LAST_TRADE_PRICE` 8, `TRADE` 16 and
/// `ORDER` 32.
pub proof fn lemma_each_kind_wanted_by_its_own_flag(
    interest: MessageInterest,
    book: BookUpdate,
    price: PriceChange,
    tick: TickSizeChange,
    last: LastTradePrice,
    trade: TradeMessage,
    order: OrderMessage,
)
    ensures
        wanted(WsMessage::Book(book), interest) == (interest.bits & 1u32 == 1u32),
        wanted(WsMessage::PriceChange(price), interest) == (interest.bits & 2u32 == 2u32),
        wanted(WsMessage::TickSizeChange(tick), interest) == (interest.bits & 4u32 == 4u32),
        wanted(WsMessage::LastTradePrice(last), interest) == (interest.bits & 8u32 == 8u32),
        wanted(WsMessage::Trade(trade), interest) == (interest.bits & 16u32 == 16u32),
        wanted(WsMessage::Order(order), interest) == (interest.bits & 32u32 == 32u32),
{
}

/// Each of the six event names carries its own flag, and is of interest exactly when that
/// flag is set, whatever the other flags are.
pub proof fn lemma_each_name_wanted_by_its_own_flag(interest: MessageInterest)
    ensures
        event_flag("book"@) == 1 && event_flag("price_change"@) == 2,
        event_flag("tick_size_change"@) == 4 && event_flag("last_trade_price"@) == 8,
        event_flag("trade"@) == 16 && event_flag("order"@) == 32,
        interest.interested_in("book"@) == (interest.bits & 1u32 == 1u32),
        interest.interested_in("price_change"@) == (interest.bits & 2u32 == 2u32),
        interest.interested_in("tick_size_change"@) == (interest.bits & 4u32 == 4u32),
        interest.interested_in("last_trade_price"@) == (interest.bits & 8u32 == 8u32),
        interest.interested_in("trade"@) == (interest.bits & 16u32 == 16u32),
        interest.interested_in("order"@) == (interest.bits & 32u32 == 32u32),
{
    reveal_strlit("book");
    reveal_strlit("price_change");
    reveal_strlit("tick_size_change");
    reveal_strlit("last_trade_price");
    reveal_strlit("trade");
    reveal_strlit("order");
    assert("book"@.len() == 4 && "trade"@.len() == 5 && "order"@.len() == 5);
    assert("price_change"@.len() == 12);
    assert("tick_size_change"@.len() == 16 && "last_trade_price"@.len() == 16);
    assert("tick_size_change"@[0] != "last_trade_price"@[0]);
    assert("trade"@[0] != "order"@[0]);
}

/// Only the six event names of the channels carry a flag, so no interest is interested in
/// any other name.
pub proof fn lemma_only_known_names_flagged(event_type: Seq<char>, interest: MessageInterest)
    ensures
        event_flag(event_type) != 0 ==> (event_type == "book"@ || event_type == "price_change"@
            || event_type == "tick_size_change"@ || event_type == "last_trade_price"@
            || event_type == "trade"@ || event_type == "order"@),
        interest.interested_in(event_type) ==> (event_type == "book"@ || event_type
            == "price_change"@ || event_type == "tick_size_change"@ || event_type
            == "last_trade_price"@ || event_type == "trade"@ || event_type == "order"@),
{
}

/// A batch frame is always decoded in full; a single-object frame never is decoded as a
/// batch, is skipped when it names no event or one not of interest, and is decoded as one
/// message when its event is of interest.
pub proof fn lemma_plan_by_shape(event_type: String, interest: MessageInterest)
    ensures
        plan_for(MessageShape::Array, interest) == ParsePlan::DecodeBatch,
        plan_for(MessageShape::Single(None), interest) == ParsePlan::Skip,
        plan_for(MessageShape::Single(Some(event_type)), interest) != ParsePlan::DecodeBatch,
        !interest.interested_in(event_type@) ==> plan_for(
            MessageShape::Single(Some(event_type)),
            interest,
        ) == ParsePlan::Skip,
        interest.interested_in(event_type@) ==> plan_for(
            MessageShape::Single(Some(event_type)),
            interest,
        ) == ParsePlan::DecodeOne,
{
}

/// A skipped frame yields nothing and a single decoded message is yielded as it is.
pub proof fn lemma_select_skip_and_one(decoded: Seq<WsMessage>, interest: MessageInterest)
    ensures
        selected(ParsePlan::Skip, decoded, interest) == Seq::<WsMessage>::empty(),
        selected(ParsePlan::DecodeOne, decoded, interest) == decoded,
{
}

/// With `ALL`, a batch yields every decoded message, in the order of the batch.
pub proof fn lemma_select_batch_everything(decoded: Seq<WsMessage>)
    ensures
        selected(ParsePlan::DecodeBatch, decoded, MessageInterest::everything()) == decoded,
{
    lemma_everything_keeps_batch(decoded);
}

/// A batch of one message yields it exactly when it is wanted.
pub proof fn lemma_select_batch_single(msg: WsMessage, interest: MessageInterest)
    ensures
        selected(ParsePlan::DecodeBatch, seq![msg], interest) == (if wanted(msg, interest) {
            seq![msg]
        } else {
            Seq::<WsMessage>::empty()
        }),
{
    reveal_with_fuel(Seq::filter, 2);
    assert(seq![msg].drop_last() =~= Seq::<WsMessage>::empty());
}

/// Selecting from two batches laid end to end yields what each yields, one after the
/// other: the selection keeps the batch's order and loses nothing of interest.
pub proof fn lemma_select_batch_concat(
    first: Seq<WsMessage>,
    second: Seq<WsMessage>,
    interest: MessageInterest,
)
    ensures
        selected(ParsePlan::DecodeBatch, first + second, interest) == selected(
            ParsePlan::DecodeBatch,
            first,
            interest,
        ) + selected(ParsePlan::DecodeBatch, second, interest),
{
    Seq::filter_distributes_over_add(first, second, |m: WsMessage| wanted(m, interest));
}

/// The number of messages a batch yields is the number of its messages that are wanted.
pub proof fn lemma_select_batch_len(decoded: Seq<WsMessage>, interest: MessageInterest)
    ensures
        selected(ParsePlan::DecodeBatch, decoded, interest).len() == decoded.filter(
            |m: WsMessage| interest.bits & m.flag() == m.flag(),
        ).len(),
        decoded.len() > 0 && wanted(decoded.last(), interest) ==> selected(
            ParsePlan::DecodeBatch,
            decoded,
            interest,
        ).last() == decoded.last(),
{
    reveal(Seq::filter);
    assert((|m: WsMessage| wanted(m, interest)) =~= (|m: WsMessage|
        interest.bits & m.flag() == m.flag()));
}

} // verus!
