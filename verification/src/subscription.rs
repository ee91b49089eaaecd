//! What a subscription hands out of the stream of server notifications.
//!
//! Every notification the client receives is broadcast to all subscriptions;
//! each one passes it through [`Subscription::observe`], which decides whether
//! the subscriber gets its parameters, whether it is skipped, or whether the
//! subscription is over.
use serde_json::Value;
use vstd::prelude::*;

use crate::error::PaleError;
use crate::supervisor::require_connected;
use crate::types::NotisResponse;

verus! {

broadcast use crate::types::group_message_views;

/// What a subscription does with one incoming message.
#[derive(Debug)]
pub enum Delivery {
    /// Nothing for this subscriber: the message was lost (the subscriber lagged
    /// behind) or it is for another method.
    Skip,
    /// The subscription is over: the client closed.
    End,
    /// The parameters of a notification for the subscribed method.
    Deliver(Option<Value>),
}

/// A subscription to the notifications of one method.
pub struct Subscription {
    method: String,
    ended: bool,
}

/// What a subscription holds.
pub struct SubscriptionView {
    /// The subscribed method.
    pub method: Seq<char>,
    /// The close signal has been seen.
    pub ended: bool,
}

impl View for Subscription {
    type V = SubscriptionView;

    closed spec fn view(&self) -> SubscriptionView {
        SubscriptionView { method: self.method@, ended: self.ended }
    }
}

/// One message through a subscription; `None` is a message the subscriber
/// missed because it lagged behind.
pub open spec fn step_observe(v: SubscriptionView, msg: Option<NotisResponse>) -> (SubscriptionView, Delivery) {
    if v.ended {
        (v, Delivery::End)
    } else {
        match msg {
            None => (v, Delivery::Skip),
            Some(n) => if n@.closing() {
                (SubscriptionView { ended: true, ..v }, Delivery::End)
            } else if n@.method == v.method {
                (v, Delivery::Deliver(n@.params))
            } else {
                (v, Delivery::Skip)
            },
        }
    }
}

/// A sequence of messages through a subscription, in order: the final state
/// and what each message gave.
pub open spec fn run_observe(v: SubscriptionView, msgs: Seq<Option<NotisResponse>>) -> (SubscriptionView, Seq<Delivery>)
    decreases msgs.len(),
{
    if msgs.len() == 0 {
        (v, Seq::empty())
    } else {
        let (before, given) = run_observe(v, msgs.drop_last());
        let (after, last) = step_observe(before, msgs.last());
        (after, given.push(last))
    }
}

/// The parameters handed to the subscriber, in order.
pub open spec fn delivered(given: Seq<Delivery>) -> Seq<Option<Value>> {
    given.filter_map(|d: Delivery| match d {
        Delivery::Deliver(params) => Some(params),
        _ => None,
    })
}

/// The messages the subscriber actually received (the lost ones dropped).
pub open spec fn received(msgs: Seq<Option<NotisResponse>>) -> Seq<NotisResponse> {
    msgs.filter_map(|m: Option<NotisResponse>| m)
}

/// The position of the first close signal in `s`, or the length of `s` when
/// there is none.
pub open spec fn close_position(s: Seq<NotisResponse>) -> int
    decreases s.len(),
{
    if s.len() == 0 {
        0
    } else {
        let p: int = close_position(s.drop_last());
        if p < s.len() - 1 {
            p
        } else if s.last()@.closing() {
            s.len() - 1
        } else {
            s.len() as int
        }
    }
}

/// The notification stream of the subscription to `method`: of the received
/// messages, those before the first close signal, and of these the
/// parameters of the ones for `method`.
pub open spec fn subscription_stream(method: Seq<char>, msgs: Seq<Option<NotisResponse>>) -> Seq<Option<Value>> {
    let got = received(msgs);
    got.take(close_position(got)).filter_map(
        |n: NotisResponse| if n@.method == method {
            Some(n@.params)
        } else {
            None
        },
    )
}

proof fn lemma_filter_map_push<A, B>(s: Seq<A>, x: A, f: spec_fn(A) -> Option<B>)
    ensures
        s.push(x).filter_map(f) == match f(x) {
            Some(b) => s.filter_map(f).push(b),
            None => s.filter_map(f),
        },
{
    assert(s.push(x).drop_last() =~= s);
}

proof fn lemma_run_observe(method: Seq<char>, msgs: Seq<Option<NotisResponse>>)
    ensures
        run_observe(SubscriptionView { method, ended: false }, msgs).0.method == method,
        run_observe(SubscriptionView { method, ended: false }, msgs).0.ended == (close_position(received(msgs)) < received(msgs).len()),
        0 <= close_position(received(msgs)) <= received(msgs).len(),
        delivered(run_observe(SubscriptionView { method, ended: false }, msgs).1) == subscription_stream(method, msgs),
    decreases msgs.len(),
{
    let v0 = SubscriptionView { method, ended: false };
    if msgs.len() == 0 {
        assert(received(msgs) =~= Seq::<NotisResponse>::empty());
        assert(delivered(Seq::<Delivery>::empty()) =~= Seq::<Option<Value>>::empty());
        assert(subscription_stream(method, msgs) =~= Seq::<Option<Value>>::empty());
    } else {
        let prev = msgs.drop_last();
        let x = msgs.last();
        lemma_run_observe(method, prev);
        assert(prev.push(x) =~= msgs);
        let (before, given) = run_observe(v0, prev);
        let (after, last) = step_observe(before, x);
        let got = received(prev);
        let f = |n: NotisResponse| if n@.method == method {
            Some(n@.params)
        } else {
            None
        };
        let g = |d: Delivery| match d {
            Delivery::Deliver(params) => Some(params),
            _ => None,
        };
        lemma_filter_map_push(prev, x, |m: Option<NotisResponse>| m);
        lemma_filter_map_push(given, last, g);
        let got2 = received(msgs);
        match x {
            None => {
                assert(got2 == got);
            },
            Some(n) => {
                assert(got2 == got.push(n));
                assert(got.push(n).drop_last() =~= got);
                if close_position(got) < got.len() {
                    assert(got2.take(close_position(got2)) =~= got.take(close_position(got)));
                } else if n@.closing() {
                    assert(got2.take(close_position(got2)) =~= got.take(close_position(got)));
                } else {
                    assert(got.take(close_position(got)) =~= got);
                    assert(got2.take(close_position(got2)) =~= got.push(n));
                    lemma_filter_map_push(got, n, f);
                }
            },
        }
    }
}

/// A subscription hands out exactly its stream: fed the messages the
/// subscriber receives, in order, starting fresh, it delivers the parameters
/// of the notifications for its method that arrived before the first close
/// signal, in the order they arrived, and it is over exactly when a close
/// signal has arrived. Lost messages and notifications for other methods are
/// skipped; nothing after the close signal is delivered.
pub proof fn law_subscription_delivers_its_stream(method: Seq<char>, msgs: Seq<Option<NotisResponse>>)
    ensures
        delivered(run_observe(SubscriptionView { method, ended: false }, msgs).1) == subscription_stream(method, msgs),
        run_observe(SubscriptionView { method, ended: false }, msgs).0.ended
            <==> exists|i: int| 0 <= i < received(msgs).len() && (#[trigger] received(msgs)[i])@.closing(),
{
    lemma_run_observe(method, msgs);
    lemma_close_position(received(msgs));
}

proof fn lemma_close_position(s: Seq<NotisResponse>)
    ensures
        0 <= close_position(s) <= s.len(),
        forall|i: int| 0 <= i < close_position(s) ==> !(#[trigger] s[i])@.closing(),
        close_position(s) < s.len() ==> s[close_position(s)]@.closing(),
    decreases s.len(),
{
    if s.len() > 0 {
        let prev = s.drop_last();
        lemma_close_position(prev);
        assert forall|i: int| 0 <= i < close_position(s) implies !(#[trigger] s[i])@.closing() by {
            if i < prev.len() {
                assert(s[i] == prev[i]);
            }
        }
    }
}

/// The close signal ends every subscription, whatever its method, and the
/// subscription is over from then on.
pub proof fn law_close_signal_ends_every_subscription(v: SubscriptionView, n: NotisResponse)
    requires
        n@.close == Some(true),
    ensures
        step_observe(v, Some(n)).1 == Delivery::End,
        step_observe(v, Some(n)).0.ended,
        step_observe(v, Some(n)).0.method == v.method,
{
}

/// A subscription ends only on a close signal: it hands out `End` only when
/// its state is over, and only once a close signal was seen (before, or in
/// this very message). Until then, a lost message and a notification for
/// another method are skipped, and a notification for its method delivers
/// that notification's params. The subscribed method never changes.
pub proof fn law_end_only_after_close_signal(v: SubscriptionView, msg: Option<NotisResponse>)
    ensures
        step_observe(v, msg).0.method == v.method,
        step_observe(v, msg).1 is End ==> step_observe(v, msg).0.ended
            && (v.ended || (msg is Some && msg.unwrap()@.closing())),
        step_observe(v, msg).0.ended ==> v.ended || (msg is Some && msg.unwrap()@.closing()),
        !v.ended && msg is None ==> step_observe(v, msg).1 is Skip && step_observe(v, msg).0 == v,
        forall|n: NotisResponse| !v.ended && msg == Some(n) && !n@.closing() && n@.method != v.method
            ==> #[trigger] step_observe(v, Some(n)).1 is Skip && step_observe(v, Some(n)).0 == v,
        forall|n: NotisResponse| !v.ended && msg == Some(n) && !n@.closing() && n@.method == v.method
            ==> #[trigger] step_observe(v, Some(n)).1 == Delivery::Deliver(n@.params) && step_observe(v, Some(n)).0 == v,
{
}

/// Once over, a subscription stays over: every later message ends it too.
pub proof fn law_end_is_final(v: SubscriptionView, msg: Option<NotisResponse>)
    requires
        v.ended,
    ensures
        step_observe(v, msg).0 == v,
        step_observe(v, msg).1 == Delivery::End,
{
}

impl Subscription {
    /// A fresh subscription to `method`.
    pub fn new(method: String) -> (r: Self)
        ensures
            r@.method == method@,
            !r@.ended,
    {
        Subscription { method, ended: false }
    }

    /// Subscribes to `method` on a client whose connection state is
    /// `connected`: without a connection it fails with `ClientDisconnected`.
    pub fn start(connected: bool, method: String) -> (r: Result<Self, PaleError>)
        ensures
            !connected ==> r == Err::<Subscription, PaleError>(PaleError::ClientDisconnected),
            connected ==> (r matches Ok(s) && s@.method == method@ && !s@.ended),
    {
        match require_connected(connected) {
            Err(e) => Err(e),
            Ok(()) => Ok(Subscription::new(method)),
        }
    }

    /// Whether the subscription is over.
    pub fn is_ended(&self) -> (r: bool)
        ensures
            r == self@.ended,
    {
        self.ended
    }

    /// Passes one message through the subscription; `None` stands for a
    /// message missed because the subscriber lagged behind.
    pub fn observe(&mut self, msg: Option<NotisResponse>) -> (r: Delivery)
        ensures
            (final(self)@, r) == step_observe(old(self)@, msg),
    {
        if self.ended {
            return Delivery::End;
        }
        match msg {
            None => Delivery::Skip,
            Some(n) => {
                if n.is_closing() {
                    self.ended = true;
                    Delivery::End
                } else if n.method == self.method {
                    let NotisResponse { jsonrpc: _, method: _, params, close: _ } = n;
                    Delivery::Deliver(params)
                } else {
                    Delivery::Skip
                }
            },
        }
    }
}

} // verus!
