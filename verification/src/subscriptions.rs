//! The subscription manager: the fixed set of per-channel event
//! subscriptions, issued together in one deterministic order.

use vstd::prelude::*;

use crate::message::{CommandArgs, CommandArgsView, CommandName, DispatchEventName,
    OutgoingPayload, PayloadView};

verus! {

/// One subscribe or unsubscribe order: which event, for which channel
/// (`None` scopes the subscription to the session, with an empty args
/// object), and in which direction.
#[derive(Debug)]
pub struct SubscriptionRequest {
    pub event: DispatchEventName,
    pub channel_id: Option<String>,
    pub subscribe: bool,
}

/// The mathematical value of a [`SubscriptionRequest`].
pub struct SubscriptionRequestView {
    pub event: DispatchEventName,
    pub channel_id: Option<Seq<char>>,
    pub subscribe: bool,
}

impl View for SubscriptionRequest {
    type V = SubscriptionRequestView;

    open spec fn view(&self) -> SubscriptionRequestView {
        SubscriptionRequestView {
            event: self.event,
            channel_id: self.channel_id.deep_view(),
            subscribe: self.subscribe,
        }
    }
}

impl DeepView for SubscriptionRequest {
    type V = SubscriptionRequestView;

    open spec fn deep_view(&self) -> SubscriptionRequestView {
        self.view()
    }
}

/// The events that are subscribed per voice channel, as opposed to per
/// session.
pub open spec fn is_channel_event(e: DispatchEventName) -> bool {
    ||| e == DispatchEventName::VoiceStateCreate
    ||| e == DispatchEventName::VoiceStateUpdate
    ||| e == DispatchEventName::VoiceStateDelete
    ||| e == DispatchEventName::SpeakingStart
    ||| e == DispatchEventName::SpeakingStop
}

/// The five per-channel orders for `channel_id`, in the order they are
/// issued.
pub open spec fn channel_event_requests_spec(channel_id: Seq<char>, subscribe: bool) -> Seq<
    SubscriptionRequestView,
> {
    seq![
        SubscriptionRequestView {
            event: DispatchEventName::VoiceStateCreate,
            channel_id: Some(channel_id),
            subscribe,
        },
        SubscriptionRequestView {
            event: DispatchEventName::VoiceStateUpdate,
            channel_id: Some(channel_id),
            subscribe,
        },
        SubscriptionRequestView {
            event: DispatchEventName::VoiceStateDelete,
            channel_id: Some(channel_id),
            subscribe,
        },
        SubscriptionRequestView {
            event: DispatchEventName::SpeakingStart,
            channel_id: Some(channel_id),
            subscribe,
        },
        SubscriptionRequestView {
            event: DispatchEventName::SpeakingStop,
            channel_id: Some(channel_id),
            subscribe,
        },
    ]
}

/// Build the five per-channel orders for `channel_id`.  The caller issues
/// them in order and stops at the first failure; the orders already issued
/// are not rolled back.
pub fn channel_event_requests(channel_id: &String, subscribe: bool) -> (reqs: Vec<
    SubscriptionRequest,
>)
    ensures
        reqs.deep_view() == channel_event_requests_spec(channel_id@, subscribe),
{
    let mut reqs: Vec<SubscriptionRequest> = Vec::new();
    reqs.push(SubscriptionRequest {
        event: DispatchEventName::VoiceStateCreate,
        channel_id: Some(channel_id.clone()),
        subscribe,
    });
    reqs.push(SubscriptionRequest {
        event: DispatchEventName::VoiceStateUpdate,
        channel_id: Some(channel_id.clone()),
        subscribe,
    });
    reqs.push(SubscriptionRequest {
        event: DispatchEventName::VoiceStateDelete,
        channel_id: Some(channel_id.clone()),
        subscribe,
    });
    reqs.push(SubscriptionRequest {
        event: DispatchEventName::SpeakingStart,
        channel_id: Some(channel_id.clone()),
        subscribe,
    });
    reqs.push(SubscriptionRequest {
        event: DispatchEventName::SpeakingStop,
        channel_id: Some(channel_id.clone()),
        subscribe,
    });
    proof {
        assert(reqs.deep_view() =~~= channel_event_requests_spec(channel_id@, subscribe));
    }
    reqs
}

/// The wire message for one subscription order.
pub open spec fn subscription_payload_spec(nonce: Seq<char>, r: SubscriptionRequestView)
    -> PayloadView {
    PayloadView {
        nonce,
        cmd: if r.subscribe {
            CommandName::Subscribe
        } else {
            CommandName::Unsubscribe
        },
        evt: Some(r.event),
        args: match r.channel_id {
            Some(c) => CommandArgsView::Channel { channel_id: Some(c) },
            None => CommandArgsView::EmptyObject,
        },
    }
}

/// Build the `SUBSCRIBE` or `UNSUBSCRIBE` message for one order.
pub fn subscription_payload(nonce: String, request: &SubscriptionRequest) -> (p: OutgoingPayload)
    ensures
        p@ == subscription_payload_spec(nonce@, request@),
{
    let cmd = if request.subscribe {
        CommandName::Subscribe
    } else {
        CommandName::Unsubscribe
    };
    let args = match &request.channel_id {
        Some(c) => CommandArgs::Channel { channel_id: Some(c.clone()) },
        None => CommandArgs::EmptyObject,
    };
    OutgoingPayload { nonce, cmd, evt: Some(request.event), args }
}

/// As [`subscription_payload`], with a fresh random nonce.
pub fn subscription_order_payload(request: &SubscriptionRequest) -> (p: OutgoingPayload)
    ensures
        p@ == subscription_payload_spec(p@.nonce, request@),
{
    subscription_payload(crate::message::fresh_nonce(), request)
}

/// The net number of subscriptions for `event` on `channel_id` after the
/// orders in `msgs` have been issued: each subscribe counts one up, each
/// unsubscribe one down.
pub open spec fn subscription_balance(
    msgs: Seq<SubscriptionRequestView>,
    channel_id: Seq<char>,
    event: DispatchEventName,
) -> int
    decreases msgs.len(),
{
    if msgs.len() == 0 {
        0
    } else {
        subscription_balance(msgs.drop_last(), channel_id, event) + {
            let m = msgs.last();
            if m.channel_id == Some(channel_id) && m.event == event {
                if m.subscribe {
                    1int
                } else {
                    -1int
                }
            } else {
                0int
            }
        }
    }
}

pub proof fn lemma_subscription_balance_concat(
    a: Seq<SubscriptionRequestView>,
    b: Seq<SubscriptionRequestView>,
    channel_id: Seq<char>,
    event: DispatchEventName,
)
    ensures
        subscription_balance(a + b, channel_id, event) == subscription_balance(
            a,
            channel_id,
            event,
        ) + subscription_balance(b, channel_id, event),
    decreases b.len(),
{
    if b.len() == 0 {
        assert(a + b =~= a);
    } else {
        assert((a + b).drop_last() =~= a + b.drop_last());
        assert((a + b).last() == b.last());
        lemma_subscription_balance_concat(a, b.drop_last(), channel_id, event);
    }
}

/// The balance that one full set of per-channel orders contributes: one
/// up or one down for each of the five per-channel events, nothing for
/// any other event, and nothing for any other channel.
pub proof fn lemma_channel_event_requests_balance(
    channel_id: Seq<char>,
    subscribe: bool,
    event: DispatchEventName,
)
    ensures
        subscription_balance(channel_event_requests_spec(channel_id, subscribe), channel_id, event)
            == (if is_channel_event(event) {
            if subscribe {
                1int
            } else {
                -1int
            }
        } else {
            0int
        }),
{
    reveal_with_fuel(subscription_balance, 6);
    let s = channel_event_requests_spec(channel_id, subscribe);
    let s4 = s.drop_last();
    let s3 = s4.drop_last();
    let s2 = s3.drop_last();
    let s1 = s2.drop_last();
    let s0 = s1.drop_last();
    assert(s.len() == 5);
    assert(s0.len() == 0);
    assert(s.last() == s[4] && s4.last() == s[3] && s3.last() == s[2] && s2.last() == s[1]
        && s1.last() == s[0]);
}

/// Law: subscribing the per-channel events of a channel and then
/// unsubscribing them returns the net subscription count of every event
/// on that channel to zero.
pub proof fn lemma_subscribe_then_unsubscribe_balances(
    channel_id: Seq<char>,
    event: DispatchEventName,
)
    ensures
        subscription_balance(
            channel_event_requests_spec(channel_id, true) + channel_event_requests_spec(
                channel_id,
                false,
            ),
            channel_id,
            event,
        ) == 0,
{
    lemma_subscription_balance_concat(
        channel_event_requests_spec(channel_id, true),
        channel_event_requests_spec(channel_id, false),
        channel_id,
        event,
    );
    lemma_channel_event_requests_balance(channel_id, true, event);
    lemma_channel_event_requests_balance(channel_id, false, event);
}

} // verus!
