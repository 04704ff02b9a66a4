//! The lifecycle of one client session.
//!
//! A session is created with an id, provisions its queue, runs while both
//! loops run, and is torn down exactly once. Teardown may be requested by
//! the inbound loop, the forwarding loop or a shutdown; only the first
//! request yields the destructive steps, later ones yield nothing.
use vstd::prelude::*;
use crate::naming::{is_v4_uuid_text, new_session_id, queue_name, queue_name_of};

verus! {

/// The close code of a normal closure.
pub const CLOSE_NORMAL: u16 = 1000;

/// Where a session stands.
#[derive(Clone, Copy, Debug, PartialEq, Eq, Structural)]
pub enum SessionState {
    /// Created; its queue is not declared yet.
    Provisioning,
    /// The queue is declared and both loops run.
    Open,
    /// Teardown has been handed out and is being carried out.
    Closing,
    /// Nothing is left of the session.
    Closed,
}

/// A message read from the client connection.
#[derive(Clone, Debug)]
pub enum InboundMessage {
    Text(String),
    Binary(Vec<u8>),
    Ping(Vec<u8>),
    Pong(Vec<u8>),
    /// The peer sent a close frame.
    Close,
}

/// The close frame that ends a session.
#[derive(Clone, Debug)]
pub struct CloseFrame {
    pub code: u16,
    pub reason: String,
}

/// What the session asks its runner to do.
#[derive(Clone, Debug)]
pub enum SessionAction {
    /// Start consuming the session's queue and run both loops.
    StartConsumer(String),
    /// Hand this text to the message handler, then read on.
    Dispatch(String),
    /// Read the next message.
    Continue,
    /// Stop the forwarding loop, delete the queue when one is named (errors
    /// there are only logged), send the close frame (errors there are only
    /// logged), then report the teardown done.
    Teardown { delete_queue: Option<String>, close: CloseFrame },
    /// Nothing to do.
    Nothing,
}

/// The outcome of a teardown request: the next state, whether the queue is
/// deleted and whether a close frame is sent.
pub open spec fn teardown_next(state: SessionState) -> (SessionState, bool, bool) {
    match state {
        SessionState::Provisioning => (SessionState::Closing, false, true),
        SessionState::Open => (SessionState::Closing, true, true),
        _ => (state, false, false),
    }
}

/// The state after the runner reports that teardown was carried out.
pub open spec fn finished_next(state: SessionState) -> SessionState {
    if state is Closing {
        SessionState::Closed
    } else {
        state
    }
}

/// The close frame that a session sends when it ends.
pub open spec fn is_session_close(close: CloseFrame) -> bool {
    &&& close.code == CLOSE_NORMAL
    &&& close.reason@ == seq!['S', 'e', 's', 's', 'i', 'o', 'n', ' ', 'c', 'l', 'o', 's', 'e', 'd']
}

/// The action that answers a teardown request in `state` for the queue
/// `queue`.
pub open spec fn is_teardown_action(state: SessionState, queue: Seq<char>, action: SessionAction) -> bool {
    let (_, delete, close) = teardown_next(state);
    if close {
        &&& action matches SessionAction::Teardown { delete_queue, close }
        &&& is_session_close(close)
        &&& (delete_queue is Some <==> delete)
        &&& (delete_queue matches Some(q) ==> q@ == queue)
    } else {
        action is Nothing
    }
}

/// Builds the close frame that ends a session.
pub fn session_close_frame() -> (r: CloseFrame)
    ensures
        is_session_close(r),
{
    let reason = String::from_str("Session closed");
    proof {
        reveal_strlit("Session closed");
        assert("Session closed"@ =~= seq!['S', 'e', 's', 's', 'i', 'o', 'n', ' ', 'c', 'l', 'o', 's', 'e', 'd']);
    }
    CloseFrame { code: CLOSE_NORMAL, reason }
}

/// One session: its id, its queue name and where it stands.
pub struct WebsocketClientSession {
    uid: String,
    queue: String,
    state: SessionState,
}

impl WebsocketClientSession {
    pub closed spec fn spec_uid(&self) -> Seq<char> {
        self.uid@
    }

    pub closed spec fn spec_state(&self) -> SessionState {
        self.state
    }

    /// The queue name is always the one derived from the id.
    pub closed spec fn wf(&self) -> bool {
        self.queue@ == queue_name_of(self.uid@)
    }

    /// A session with a fresh random id, before its queue is declared.
    pub fn new() -> (r: Self)
        ensures
            r.wf(),
            is_v4_uuid_text(r.spec_uid()),
            r.spec_state() is Provisioning,
    {
        Self::with_id(new_session_id())
    }

    /// A session with the given id, before its queue is declared.
    pub fn with_id(uid: String) -> (r: Self)
        ensures
            r.wf(),
            r.spec_uid() == uid@,
            r.spec_state() is Provisioning,
    {
        let queue = queue_name(uid.as_str());
        WebsocketClientSession { uid, queue, state: SessionState::Provisioning }
    }

    /// The session id.
    pub fn uid(&self) -> (r: String)
        ensures
            r@ == self.spec_uid(),
    {
        self.uid.clone()
    }

    /// The name of the session's queue.
    pub fn queue_name(&self) -> (r: String)
        requires
            self.wf(),
        ensures
            r@ == queue_name_of(self.spec_uid()),
    {
        self.queue.clone()
    }

    /// Where the session stands.
    pub fn state(&self) -> (r: SessionState)
        ensures
            r == self.spec_state(),
    {
        self.state
    }

    /// Takes in whether declaring the queue succeeded. On success the session
    /// opens and asks for the consumer; on failure it is torn down at once
    /// with no queue to delete.
    pub fn on_open(&mut self, declared: bool) -> (action: SessionAction)
        requires
            old(self).wf(),
        ensures
            final(self).wf(),
            final(self).spec_uid() == old(self).spec_uid(),
            old(self).spec_state() is Provisioning && declared ==> {
                &&& final(self).spec_state() is Open
                &&& action matches SessionAction::StartConsumer(q)
                &&& q@ == queue_name_of(old(self).spec_uid())
            },
            old(self).spec_state() is Provisioning && !declared ==> {
                &&& final(self).spec_state() == teardown_next(SessionState::Provisioning).0
                &&& is_teardown_action(SessionState::Provisioning, queue_name_of(old(self).spec_uid()), action)
            },
            !(old(self).spec_state() is Provisioning) ==> {
                &&& final(self).spec_state() == old(self).spec_state()
                &&& action is Nothing
            },
    {
        match self.state {
            SessionState::Provisioning => {
                if declared {
                    self.state = SessionState::Open;
                    SessionAction::StartConsumer(self.queue.clone())
                } else {
                    self.close_session()
                }
            },
            _ => SessionAction::Nothing,
        }
    }

    /// Takes in a message read from the client. While the session is open a
    /// text message goes to the handler, a close frame tears the session
    /// down, and other frames are passed over.
    pub fn on_message(&mut self, message: InboundMessage) -> (action: SessionAction)
        requires
            old(self).wf(),
        ensures
            final(self).wf(),
            final(self).spec_uid() == old(self).spec_uid(),
            old(self).spec_state() is Open ==> match message {
                InboundMessage::Text(t) => {
                    &&& final(self).spec_state() is Open
                    &&& action matches SessionAction::Dispatch(d)
                    &&& d@ == t@
                },
                InboundMessage::Close => {
                    &&& final(self).spec_state() == teardown_next(SessionState::Open).0
                    &&& is_teardown_action(SessionState::Open, queue_name_of(old(self).spec_uid()), action)
                },
                _ => final(self).spec_state() is Open && action is Continue,
            },
            !(old(self).spec_state() is Open) ==> {
                &&& final(self).spec_state() == old(self).spec_state()
                &&& action is Nothing
            },
    {
        match self.state {
            SessionState::Open => match message {
                InboundMessage::Text(text) => SessionAction::Dispatch(text),
                InboundMessage::Close => self.close_session(),
                _ => SessionAction::Continue,
            },
            _ => SessionAction::Nothing,
        }
    }

    /// Requests teardown: on a read error or end of stream, on a failed send
    /// of the forwarding loop, or on shutdown. The first request hands out
    /// the teardown; any later one yields nothing.
    pub fn close_session(&mut self) -> (action: SessionAction)
        requires
            old(self).wf(),
        ensures
            final(self).wf(),
            final(self).spec_uid() == old(self).spec_uid(),
            final(self).spec_state() == teardown_next(old(self).spec_state()).0,
            is_teardown_action(old(self).spec_state(), queue_name_of(old(self).spec_uid()), action),
    {
        match self.state {
            SessionState::Provisioning => {
                self.state = SessionState::Closing;
                SessionAction::Teardown { delete_queue: None, close: session_close_frame() }
            },
            SessionState::Open => {
                self.state = SessionState::Closing;
                SessionAction::Teardown {
                    delete_queue: Some(self.queue.clone()),
                    close: session_close_frame(),
                }
            },
            _ => SessionAction::Nothing,
        }
    }

    /// Takes in that the runner carried out the teardown.
    pub fn teardown_finished(&mut self)
        requires
            old(self).wf(),
        ensures
            final(self).wf(),
            final(self).spec_uid() == old(self).spec_uid(),
            final(self).spec_state() == finished_next(old(self).spec_state()),
    {
        match self.state {
            SessionState::Closing => {
                self.state = SessionState::Closed;
            },
            _ => {},
        }
    }
}

/// Teardown is idempotent: a second request, before or after the first one
/// was carried out, deletes no queue, sends no close frame and changes
/// nothing; and over both requests the queue is deleted at most once.
pub proof fn lemma_teardown_idempotent(state: SessionState)
    ensures
        ({
            let (s1, d1, c1) = teardown_next(state);
            let (s2, d2, c2) = teardown_next(s1);
            &&& !d2 && !c2 && s2 == s1
        }),
        ({
            let (s1, d1, c1) = teardown_next(state);
            let (s2, d2, c2) = teardown_next(finished_next(s1));
            &&& !d2 && !c2 && s2 == finished_next(s1)
        }),
{
}

/// A session whose queue could not be declared is torn down without any
/// queue deletion, and is closed once the close frame is out.
pub proof fn lemma_failed_provisioning_leaks_nothing()
    ensures
        teardown_next(SessionState::Provisioning) == (SessionState::Closing, false, true),
        finished_next(teardown_next(SessionState::Provisioning).0) is Closed,
{
}

} // verus!
