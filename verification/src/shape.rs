//! What to do with an incoming frame once its shape is known, and which messages it yields.

use vstd::prelude::*;

use crate::interest::MessageInterest;
use crate::messages::{filter_interested, wanted_messages, WsMessage};

verus! {

/// The structure of a frame, learnt without decoding its messages.
#[derive(Debug, Clone)]
pub enum MessageShape {
    /// Single object with the given `event_type` (if present).
    Single(Option<String>),
    /// Array of messages requiring full deserialization.
    Array,
}

/// What remains to be done with a frame once its shape is known.
#[derive(Clone, Copy, Debug, PartialEq, Eq, Structural)]
pub enum ParsePlan {
    /// Nothing of interest: the result is no message.
    Skip,
    /// Decode the frame as one message; that message is the result.
    DecodeOne,
    /// Decode the frame as an array of messages and keep those of interest.
    DecodeBatch,
}

/// The plan for a frame of shape `shape` under `interest`.
pub open spec fn plan_for(shape: MessageShape, interest: MessageInterest) -> ParsePlan {
    match shape {
        MessageShape::Single(None) => ParsePlan::Skip,
        MessageShape::Single(Some(event_type)) => if interest.interested_in(event_type@) {
            ParsePlan::DecodeOne
        } else {
            ParsePlan::Skip
        },
        MessageShape::Array => ParsePlan::DecodeBatch,
    }
}

/// Decides what to do with a frame of shape `shape`: a single object is decoded only when
/// its `event_type` is of interest, and a batch is always decoded and then filtered.
pub fn plan_for_shape(shape: &MessageShape, interest: &MessageInterest) -> (res: ParsePlan)
    ensures
        res == plan_for(*shape, *interest),
{
    match shape {
        MessageShape::Single(None) => ParsePlan::Skip,
        MessageShape::Single(Some(event_type)) => {
            if interest.is_interested_in_event(event_type.as_str()) {
                ParsePlan::DecodeOne
            } else {
                ParsePlan::Skip
            }
        },
        MessageShape::Array => ParsePlan::DecodeBatch,
    }
}

/// The messages that a frame yields under `plan`, given what its decoding gave: nothing when
/// it was skipped, the decoded message of a single object, and the messages of interest of a
/// batch, in their order.
pub open spec fn selected(plan: ParsePlan, decoded: Seq<WsMessage>, interest: MessageInterest) -> Seq<
    WsMessage,
> {
    match plan {
        ParsePlan::Skip => Seq::empty(),
        ParsePlan::DecodeOne => decoded,
        ParsePlan::DecodeBatch => wanted_messages(decoded, interest),
    }
}

/// The last step of reading a frame: the messages it yields under `plan`, from the messages
/// that decoding it gave (none when the plan skipped decoding, the one message of a single
/// object, or all messages of a batch).
pub fn select(plan: ParsePlan, decoded: Vec<WsMessage>, interest: &MessageInterest) -> (res: Vec<
    WsMessage,
>)
    ensures
        res@ == selected(plan, decoded@, *interest),
{
    match plan {
        ParsePlan::Skip => Vec::new(),
        ParsePlan::DecodeOne => decoded,
        ParsePlan::DecodeBatch => filter_interested(decoded, interest),
    }
}

} // verus!
