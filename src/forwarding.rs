//! The forwarding loop: broker deliveries to client text frames.
//!
//! The loop is a state machine. The program that runs it feeds it what
//! happened (a delivery arrived, a send finished, an ack finished) and
//! performs the action it answers with. Every delivery is acknowledged once
//! it has been processed: after its text was sent, or at once when its
//! payload is not UTF-8 and it is dropped. Acknowledging means "processed",
//! not "delivered": a delivery whose send succeeded is acked without waiting
//! for the client to confirm receipt.
use vstd::prelude::*;
use vstd::utf8::{decode_utf8, valid_utf8};

verus! {

/// Relies on `String::from_utf8`: it succeeds exactly when the bytes are
/// valid UTF-8, and then holds the characters they encode.
#[verifier::external_body]
fn utf8_text(bytes: Vec<u8>) -> (r: Option<String>)
    ensures
        r is Some <==> valid_utf8(bytes@),
        r matches Some(s) ==> s@ == decode_utf8(bytes@),
{
    match String::from_utf8(bytes) {
        Ok(s) => Some(s),
        Err(_) => None,
    }
}

/// Decodes a broker payload as UTF-8 text; `None` when it is not valid UTF-8.
pub fn decode_payload(payload: Vec<u8>) -> (r: Option<String>)
    ensures
        r is Some <==> valid_utf8(payload@),
        r matches Some(s) ==> s@ == decode_utf8(payload@),
{
    utf8_text(payload)
}

/// Where the forwarding loop stands.
#[derive(Clone, Copy, Debug, PartialEq, Eq, Structural)]
pub enum ForwardPhase {
    /// Waiting for the next delivery from the broker consumer.
    AwaitDelivery,
    /// A text frame was handed out for sending; waiting for the outcome.
    AwaitSend,
    /// The current delivery is being acknowledged.
    AwaitAck,
    /// The loop has ended; nothing more is consumed or sent.
    Stopped,
}

/// What happened, as reported to the forwarding loop.
#[derive(Debug)]
pub enum ForwardEvent {
    /// The consumer produced a delivery with this payload.
    Delivered(Vec<u8>),
    /// The text frame was written to the client.
    Sent,
    /// Writing the text frame failed: the connection is gone.
    SendFailed,
    /// The delivery was acknowledged.
    Acked,
    /// Acknowledging the delivery failed.
    AckFailed,
    /// The consumer reported an error instead of a delivery.
    ConsumerFailed,
    /// The consumer stream ended: the broker closed it.
    StreamEnded,
    /// The session asked the loop to stop.
    Cancelled,
}

/// What the forwarding loop asks its runner to do next.
#[derive(Debug)]
pub enum ForwardAction {
    /// Send this text as one frame to the client, then report the outcome.
    SendText(String),
    /// Acknowledge the current delivery, then report the outcome.
    Ack,
    /// Wait for the next delivery.
    Next,
    /// Leave the loop.
    Finish,
    /// Leave the loop and ask the session to tear down.
    FinishAndTeardown,
    /// The event does not apply in this phase; nothing to do.
    Ignore,
}

/// The mathematical value of a [`ForwardAction`].
pub enum ForwardReply {
    SendText(Seq<char>),
    Ack,
    Next,
    Finish,
    FinishAndTeardown,
    Ignore,
}

impl View for ForwardAction {
    type V = ForwardReply;

    open spec fn view(&self) -> ForwardReply {
        match self {
            ForwardAction::SendText(t) => ForwardReply::SendText(t@),
            ForwardAction::Ack => ForwardReply::Ack,
            ForwardAction::Next => ForwardReply::Next,
            ForwardAction::Finish => ForwardReply::Finish,
            ForwardAction::FinishAndTeardown => ForwardReply::FinishAndTeardown,
            ForwardAction::Ignore => ForwardReply::Ignore,
        }
    }
}

/// One transition of the forwarding loop: the next phase and the reply.
pub open spec fn forward_next(phase: ForwardPhase, event: ForwardEvent) -> (ForwardPhase, ForwardReply) {
    if phase is Stopped {
        (ForwardPhase::Stopped, ForwardReply::Ignore)
    } else {
        match event {
            ForwardEvent::Cancelled => (ForwardPhase::Stopped, ForwardReply::Finish),
            ForwardEvent::StreamEnded => (ForwardPhase::Stopped, ForwardReply::Finish),
            ForwardEvent::Delivered(p) => if phase is AwaitDelivery {
                if valid_utf8(p@) {
                    (ForwardPhase::AwaitSend, ForwardReply::SendText(decode_utf8(p@)))
                } else {
                    (ForwardPhase::AwaitAck, ForwardReply::Ack)
                }
            } else {
                (phase, ForwardReply::Ignore)
            },
            ForwardEvent::ConsumerFailed => if phase is AwaitDelivery {
                (ForwardPhase::AwaitDelivery, ForwardReply::Next)
            } else {
                (phase, ForwardReply::Ignore)
            },
            ForwardEvent::Sent => if phase is AwaitSend {
                (ForwardPhase::AwaitAck, ForwardReply::Ack)
            } else {
                (phase, ForwardReply::Ignore)
            },
            ForwardEvent::SendFailed => if phase is AwaitSend {
                (ForwardPhase::Stopped, ForwardReply::FinishAndTeardown)
            } else {
                (phase, ForwardReply::Ignore)
            },
            ForwardEvent::Acked => if phase is AwaitAck {
                (ForwardPhase::AwaitDelivery, ForwardReply::Next)
            } else {
                (phase, ForwardReply::Ignore)
            },
            ForwardEvent::AckFailed => if phase is AwaitAck {
                (ForwardPhase::AwaitDelivery, ForwardReply::Next)
            } else {
                (phase, ForwardReply::Ignore)
            },
        }
    }
}

/// The phase and the replies after feeding `events` one by one from `phase`.
pub open spec fn run_forward(phase: ForwardPhase, events: Seq<ForwardEvent>) -> (ForwardPhase, Seq<ForwardReply>)
    decreases events.len(),
{
    if events.len() == 0 {
        (phase, seq![])
    } else {
        let (mid, replies) = run_forward(phase, events.drop_last());
        let (next, reply) = forward_next(mid, events.last());
        (next, replies.push(reply))
    }
}

/// The events that one delivery brings about while the client connection
/// works: the delivery, the send when its payload is text, and the ack.
pub open spec fn delivery_events(payload: Vec<u8>) -> Seq<ForwardEvent> {
    if valid_utf8(payload@) {
        seq![ForwardEvent::Delivered(payload), ForwardEvent::Sent, ForwardEvent::Acked]
    } else {
        seq![ForwardEvent::Delivered(payload), ForwardEvent::Acked]
    }
}

/// The events of a sequence of deliveries, in order, while the client
/// connection works.
pub open spec fn deliveries_events(payloads: Seq<Vec<u8>>) -> Seq<ForwardEvent>
    decreases payloads.len(),
{
    if payloads.len() == 0 {
        seq![]
    } else {
        deliveries_events(payloads.drop_last()) + delivery_events(payloads.last())
    }
}

/// The replies to the events of one delivery while the client connection
/// works: its text when the payload is text, one ack, then the wait for the
/// next delivery.
pub open spec fn delivery_replies(payload: Vec<u8>) -> Seq<ForwardReply> {
    if valid_utf8(payload@) {
        seq![ForwardReply::SendText(decode_utf8(payload@)), ForwardReply::Ack, ForwardReply::Next]
    } else {
        seq![ForwardReply::Ack, ForwardReply::Next]
    }
}

/// The replies to the events of a sequence of deliveries, block by block.
pub open spec fn deliveries_replies(payloads: Seq<Vec<u8>>) -> Seq<ForwardReply>
    decreases payloads.len(),
{
    if payloads.len() == 0 {
        seq![]
    } else {
        deliveries_replies(payloads.drop_last()) + delivery_replies(payloads.last())
    }
}

/// The texts that a sequence of replies sends to the client, in order.
pub open spec fn sent_texts(replies: Seq<ForwardReply>) -> Seq<Seq<char>>
    decreases replies.len(),
{
    if replies.len() == 0 {
        seq![]
    } else {
        let rest = sent_texts(replies.drop_last());
        match replies.last() {
            ForwardReply::SendText(t) => rest.push(t),
            _ => rest,
        }
    }
}

/// How many acknowledgements a sequence of replies asks for.
pub open spec fn ack_count(replies: Seq<ForwardReply>) -> nat
    decreases replies.len(),
{
    if replies.len() == 0 {
        0
    } else {
        ack_count(replies.drop_last()) + if replies.last() is Ack { 1nat } else { 0nat }
    }
}

/// The texts of the payloads that are valid UTF-8, in order.
pub open spec fn text_payloads(payloads: Seq<Vec<u8>>) -> Seq<Seq<char>>
    decreases payloads.len(),
{
    if payloads.len() == 0 {
        seq![]
    } else {
        let rest = text_payloads(payloads.drop_last());
        if valid_utf8(payloads.last()@) {
            rest.push(decode_utf8(payloads.last()@))
        } else {
            rest
        }
    }
}

proof fn lemma_run_forward_push(phase: ForwardPhase, events: Seq<ForwardEvent>, event: ForwardEvent)
    ensures
        run_forward(phase, events.push(event)) == ({
            let (mid, replies) = run_forward(phase, events);
            let (next, reply) = forward_next(mid, event);
            (next, replies.push(reply))
        }),
{
    assert(events.push(event).drop_last() =~= events);
}

proof fn lemma_run_forward_concat(phase: ForwardPhase, a: Seq<ForwardEvent>, b: Seq<ForwardEvent>)
    ensures
        run_forward(phase, a + b) == ({
            let (mid, ra) = run_forward(phase, a);
            let (next, rb) = run_forward(mid, b);
            (next, ra + rb)
        }),
    decreases b.len(),
{
    if b.len() == 0 {
        assert(a + b =~= a);
        let (mid, ra) = run_forward(phase, a);
        assert(ra + seq![] =~= ra);
    } else {
        lemma_run_forward_concat(phase, a, b.drop_last());
        assert((a + b).drop_last() =~= a + b.drop_last());
        assert((a + b).last() == b.last());
        let (mid, ra) = run_forward(phase, a);
        let (m2, rb) = run_forward(mid, b.drop_last());
        let (next, r) = forward_next(m2, b.last());
        assert((ra + rb).push(r) =~= ra + rb.push(r));
    }
}

proof fn lemma_sent_texts_concat(a: Seq<ForwardReply>, b: Seq<ForwardReply>)
    ensures
        sent_texts(a + b) == sent_texts(a) + sent_texts(b),
        ack_count(a + b) == ack_count(a) + ack_count(b),
    decreases b.len(),
{
    if b.len() == 0 {
        assert(a + b =~= a);
        assert(sent_texts(a) + seq![] =~= sent_texts(a));
    } else {
        lemma_sent_texts_concat(a, b.drop_last());
        assert((a + b).drop_last() =~= a + b.drop_last());
        assert((a + b).last() == b.last());
        match b.last() {
            ForwardReply::SendText(t) => {
                assert((sent_texts(a) + sent_texts(b.drop_last())).push(t)
                    =~= sent_texts(a) + sent_texts(b.drop_last()).push(t));
            },
            _ => {},
        }
    }
}

/// While the client connection works, a run of deliveries sends the client
/// exactly the payloads that are valid UTF-8, as text and in delivery order,
/// and asks for exactly one acknowledgement per delivery, right after that
/// delivery's send; the loop is then ready for the next delivery.
pub proof fn lemma_forwarding_order_and_acks(payloads: Seq<Vec<u8>>)
    ensures
        run_forward(ForwardPhase::AwaitDelivery, deliveries_events(payloads)).0 is AwaitDelivery,
        run_forward(ForwardPhase::AwaitDelivery, deliveries_events(payloads)).1
            == deliveries_replies(payloads),
        sent_texts(run_forward(ForwardPhase::AwaitDelivery, deliveries_events(payloads)).1)
            == text_payloads(payloads),
        ack_count(run_forward(ForwardPhase::AwaitDelivery, deliveries_events(payloads)).1)
            == payloads.len(),
    decreases payloads.len(),
{
    if payloads.len() > 0 {
        let init = payloads.drop_last();
        let p = payloads.last();
        lemma_forwarding_order_and_acks(init);
        lemma_run_forward_concat(ForwardPhase::AwaitDelivery, deliveries_events(init), delivery_events(p));
        let (mid, ra) = run_forward(ForwardPhase::AwaitDelivery, deliveries_events(init));
        let evs = delivery_events(p);
        let (next, rb) = run_forward(mid, evs);
        let e0: Seq<ForwardEvent> = seq![];
        let e1 = e0.push(ForwardEvent::Delivered(p));
        lemma_run_forward_push(mid, e0, ForwardEvent::Delivered(p));
        if valid_utf8(p@) {
            let e2 = e1.push(ForwardEvent::Sent);
            assert(evs =~= e2.push(ForwardEvent::Acked));
            lemma_run_forward_push(mid, e1, ForwardEvent::Sent);
            lemma_run_forward_push(mid, e2, ForwardEvent::Acked);
            let r0: Seq<ForwardReply> = seq![];
            let r1 = r0.push(ForwardReply::SendText(decode_utf8(p@)));
            let r2 = r1.push(ForwardReply::Ack);
            assert(rb =~= r2.push(ForwardReply::Next));
            assert(r1.drop_last() =~= r0);
            assert(sent_texts(r0) =~= seq![]);
            assert(ack_count(r0) == 0);
            assert(r2.drop_last() =~= r1);
            assert(rb.drop_last() =~= r2);
            assert(sent_texts(r1) =~= seq![decode_utf8(p@)]);
            assert(ack_count(r1) == 0);
            assert(sent_texts(r2) == sent_texts(r1));
            assert(ack_count(r2) == 1);
            assert(sent_texts(rb) == sent_texts(r2));
            assert(ack_count(rb) == 1);
        } else {
            assert(evs =~= e1.push(ForwardEvent::Acked));
            lemma_run_forward_push(mid, e1, ForwardEvent::Acked);
            let r0: Seq<ForwardReply> = seq![];
            let r1 = r0.push(ForwardReply::Ack);
            assert(rb =~= r1.push(ForwardReply::Next));
            assert(r1.drop_last() =~= r0);
            assert(sent_texts(r0) =~= seq![]);
            assert(ack_count(r0) == 0);
            assert(rb.drop_last() =~= r1);
            assert(sent_texts(r1) =~= seq![]);
            assert(ack_count(r1) == 1);
            assert(sent_texts(rb) == sent_texts(r1));
            assert(ack_count(rb) == 1);
        }
        assert(rb =~= delivery_replies(p));
        lemma_sent_texts_concat(ra, rb);
        assert(sent_texts(ra) + sent_texts(rb) =~= text_payloads(payloads));
    } else {
        assert(deliveries_events(payloads) =~= seq![]);
        assert(deliveries_replies(payloads) =~= seq![]);
    }
}

/// Once the loop has stopped it stays stopped: whatever is reported after
/// that is ignored, so nothing more is sent, acknowledged or consumed.
pub proof fn lemma_stopped_stays_stopped(events: Seq<ForwardEvent>)
    ensures
        run_forward(ForwardPhase::Stopped, events).0 is Stopped,
        forall|i: int| 0 <= i < events.len()
            ==> #[trigger] run_forward(ForwardPhase::Stopped, events).1[i] is Ignore,
        run_forward(ForwardPhase::Stopped, events).1.len() == events.len(),
    decreases events.len(),
{
    if events.len() > 0 {
        lemma_stopped_stays_stopped(events.drop_last());
    }
}

/// The forwarding loop of one session.
pub struct Forwarder {
    phase: ForwardPhase,
}

impl Forwarder {
    pub closed spec fn spec_phase(&self) -> ForwardPhase {
        self.phase
    }

    /// A loop that waits for its first delivery.
    pub fn new() -> (r: Forwarder)
        ensures
            r.spec_phase() is AwaitDelivery,
    {
        Forwarder { phase: ForwardPhase::AwaitDelivery }
    }

    /// The current phase.
    pub fn phase(&self) -> (r: ForwardPhase)
        ensures
            r == self.spec_phase(),
    {
        self.phase
    }

    /// Whether the loop has ended.
    pub fn is_stopped(&self) -> (r: bool)
        ensures
            r == (self.spec_phase() is Stopped),
    {
        match self.phase {
            ForwardPhase::Stopped => true,
            _ => false,
        }
    }

    /// Takes in what happened and answers with what to do next.
    pub fn step(&mut self, event: ForwardEvent) -> (action: ForwardAction)
        ensures
            (final(self).spec_phase(), action@) == forward_next(old(self).spec_phase(), event),
    {
        let phase = self.phase;
        let (next, action) = match phase {
            ForwardPhase::Stopped => (ForwardPhase::Stopped, ForwardAction::Ignore),
            _ => match event {
                ForwardEvent::Cancelled => (ForwardPhase::Stopped, ForwardAction::Finish),
                ForwardEvent::StreamEnded => (ForwardPhase::Stopped, ForwardAction::Finish),
                ForwardEvent::Delivered(payload) => match phase {
                    ForwardPhase::AwaitDelivery => match decode_payload(payload) {
                        Some(text) => (ForwardPhase::AwaitSend, ForwardAction::SendText(text)),
                        None => (ForwardPhase::AwaitAck, ForwardAction::Ack),
                    },
                    _ => (phase, ForwardAction::Ignore),
                },
                ForwardEvent::ConsumerFailed => match phase {
                    ForwardPhase::AwaitDelivery => (ForwardPhase::AwaitDelivery, ForwardAction::Next),
                    _ => (phase, ForwardAction::Ignore),
                },
                ForwardEvent::Sent => match phase {
                    ForwardPhase::AwaitSend => (ForwardPhase::AwaitAck, ForwardAction::Ack),
                    _ => (phase, ForwardAction::Ignore),
                },
                ForwardEvent::SendFailed => match phase {
                    ForwardPhase::AwaitSend => (ForwardPhase::Stopped, ForwardAction::FinishAndTeardown),
                    _ => (phase, ForwardAction::Ignore),
                },
                ForwardEvent::Acked | ForwardEvent::AckFailed => match phase {
                    ForwardPhase::AwaitAck => (ForwardPhase::AwaitDelivery, ForwardAction::Next),
                    _ => (phase, ForwardAction::Ignore),
                },
            },
        };
        self.phase = next;
        action
    }
}

} // verus!
