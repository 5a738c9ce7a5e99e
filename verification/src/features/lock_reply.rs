//! What follows the answer of the door-lock arbiter to a request.

use vstd::prelude::*;

use crate::arbiter::door_lock::FEEDBACK_REQUEST;
use crate::ipc_message::Value;
use crate::signal_bus::{no_outputs, publish_text, Effect, Output};

verus! {

/// The effects of an answer: an accepted request is followed by feedback.
pub open spec fn reply_effects(accepted: bool, kind: Seq<char>) -> Seq<Effect> {
    if accepted {
        seq![Effect::publish(FEEDBACK_REQUEST, Value::Text(kind))]
    } else {
        Seq::empty()
    }
}

/// Takes the answer of the door-lock arbiter to a request that asks for feedback
/// of this kind.
pub fn on_lock_reply(accepted: bool, kind: &str) -> (r: Vec<Output>)
    ensures
        Effect::all(r@) == reply_effects(accepted, kind@),
{
    if accepted {
        let r = vec![publish_text(FEEDBACK_REQUEST, kind)];
        assert(Effect::all(r@) =~= reply_effects(accepted, kind@));
        r
    } else {
        no_outputs()
    }
}

/// An accepted request is followed by exactly one request for feedback, of the kind
/// that was asked for. One that is turned down is followed by nothing.
pub proof fn law_feedback_follows_acceptance(kind: Seq<char>)
    ensures
        reply_effects(true, kind) == seq![
            Effect::Publish {
                signal: "Body.Doors.CentralLock.FeedbackRequest"@,
                value: Value::Text(kind),
            },
        ],
        reply_effects(false, kind) == Seq::<Effect>::empty(),
{
}

} // verus!
