//! The consumer's configuration and the handshake that opens a connection.

use vstd::prelude::*;
use crate::error::ConsumeError;
use crate::heartbeat::{Heartbeat, Wire};
use crate::pipe::Pipe;
use crate::receive::ReceiveLoop;

verus! {

/// Seconds between two keep-alive messages, unless configured otherwise.
pub const DEFAULT_HEARTBEAT_INTERVAL: u64 = 30;

/// Where to connect, what to subscribe with and what to keep alive with.
#[derive(Debug)]
pub struct WebsocketConsumer {
    pub url: String,
    pub heartbeat_msg: String,
    pub subscription_message: String,
    /// Seconds between two keep-alive messages.
    pub heartbeat_interval: u64,
}

impl WebsocketConsumer {
    pub fn new(url: String, heartbeat_msg: String, subscription_message: String) -> (r: Self)
        ensures
            r.url@ == url@,
            r.heartbeat_msg@ == heartbeat_msg@,
            r.subscription_message@ == subscription_message@,
            r.heartbeat_interval == DEFAULT_HEARTBEAT_INTERVAL,
    {
        Self { url, heartbeat_msg, subscription_message, heartbeat_interval: DEFAULT_HEARTBEAT_INTERVAL }
    }

    /// The same configuration, with keep-alive messages `secs` seconds apart.
    pub fn with_heartbeat_interval(self, secs: u64) -> (r: Self)
        ensures
            r.url@ == self.url@,
            r.heartbeat_msg@ == self.heartbeat_msg@,
            r.subscription_message@ == self.subscription_message@,
            r.heartbeat_interval == secs,
    {
        Self { heartbeat_interval: secs, ..self }
    }

    /// A new connection attempt with this configuration.
    pub fn session(&self) -> (r: Session)
        ensures
            r.url() == self.url@,
            r.subscription() == self.subscription_message@,
            r.heartbeat_msg() == self.heartbeat_msg@,
            r.interval() == self.heartbeat_interval,
            r.phase() is Connecting,
            r.wire() == Seq::<(Wire, Seq<char>)>::empty(),
            r.wf(),
    {
        Session {
            url: self.url.clone(),
            subscription: self.subscription_message.clone(),
            heartbeat_msg: self.heartbeat_msg.clone(),
            interval: self.heartbeat_interval,
            phase: SessionPhase::Connecting,
            wire: Ghost(Seq::empty()),
        }
    }
}

/// Where a connection attempt stands.
pub enum SessionPhase {
    Connecting,
    Subscribing,
    Running,
    Failed(ConsumeError),
}

/// One connection attempt: connect, subscribe once, then hand the two halves
/// to the receive loop and the heartbeat loop.
pub struct Session {
    url: String,
    subscription: String,
    heartbeat_msg: String,
    interval: u64,
    phase: SessionPhase,
    wire: Ghost<Seq<(Wire, Seq<char>)>>,
}

impl Session {
    pub closed spec fn url(&self) -> Seq<char> {
        self.url@
    }

    pub closed spec fn subscription(&self) -> Seq<char> {
        self.subscription@
    }

    pub closed spec fn heartbeat_msg(&self) -> Seq<char> {
        self.heartbeat_msg@
    }

    pub closed spec fn interval(&self) -> u64 {
        self.interval
    }

    pub closed spec fn phase(&self) -> SessionPhase {
        self.phase
    }

    /// Every message handed out for the sender half, in order.
    pub closed spec fn wire(&self) -> Seq<(Wire, Seq<char>)> {
        self.wire@
    }

    /// Nothing is written before the connection is up; from then on the
    /// subscription is the one message handed out.
    pub open spec fn wf(&self) -> bool {
        match self.phase() {
            SessionPhase::Connecting => self.wire().len() == 0,
            SessionPhase::Failed(ConsumeError::Connect) => self.wire().len() == 0,
            _ => self.wire() == seq![(Wire::Subscribe, self.subscription())],
        }
    }

    /// The address to connect to.
    pub fn target(&self) -> (r: String)
        ensures
            r@ == self.url(),
    {
        self.url.clone()
    }

    pub fn is_connecting(&self) -> (r: bool)
        ensures
            r == self.phase() is Connecting,
    {
        matches!(self.phase, SessionPhase::Connecting)
    }

    pub fn is_subscribing(&self) -> (r: bool)
        ensures
            r == self.phase() is Subscribing,
    {
        matches!(self.phase, SessionPhase::Subscribing)
    }

    /// Takes the outcome of connecting: on success the subscription is the
    /// one message to write, before anything else.
    pub fn on_connected(&mut self, ok: bool) -> (r: Result<String, ConsumeError>)
        requires
            old(self).wf(),
            old(self).phase() is Connecting,
        ensures
            final(self).wf(),
            final(self).url() == old(self).url(),
            final(self).subscription() == old(self).subscription(),
            final(self).heartbeat_msg() == old(self).heartbeat_msg(),
            final(self).interval() == old(self).interval(),
            ok ==> {
                &&& r matches Ok(m) && m@ == old(self).subscription()
                &&& final(self).phase() is Subscribing
                &&& final(self).wire() == seq![(Wire::Subscribe, old(self).subscription())]
            },
            !ok ==> {
                &&& r == Err::<String, ConsumeError>(ConsumeError::Connect)
                &&& final(self).phase() == SessionPhase::Failed(ConsumeError::Connect)
                &&& final(self).wire() == old(self).wire()
            },
    {
        if ok {
            self.phase = SessionPhase::Subscribing;
            proof {
                self.wire = Ghost(seq![(Wire::Subscribe, self.subscription@)]);
            }
            Ok(self.subscription.clone())
        } else {
            self.phase = SessionPhase::Failed(ConsumeError::Connect);
            Err(ConsumeError::Connect)
        }
    }

    /// Takes the outcome of writing the subscription: on success the two
    /// loops start, the receive loop with the policy, and the heartbeat loop
    /// on a sender half that has carried the subscription alone.
    pub fn on_subscribed<P: Pipe>(&mut self, ok: bool, ops: P) -> (r: Result<
        (ReceiveLoop<P>, Heartbeat),
        ConsumeError,
    >)
        requires
            old(self).wf(),
            old(self).phase() is Subscribing,
        ensures
            final(self).wf(),
            final(self).wire() == old(self).wire(),
            ok ==> {
                &&& final(self).phase() is Running
                &&& r matches Ok((rl, hb)) && {
                    &&& rl.wf()
                    &&& rl.ops() == ops
                    &&& rl.phase() is Reading
                    &&& rl.frames().len() == 0
                    &&& rl.forwarded().len() == 0
                    &&& hb.wf()
                    &&& !hb.stopped()
                    &&& hb.due()
                    &&& hb.clock() == 0
                    &&& hb.message() == old(self).heartbeat_msg()
                    &&& hb.interval() == old(self).interval()
                    &&& hb.subscription() == old(self).subscription()
                    &&& hb.wire() == old(self).wire()
                }
            },
            !ok ==> {
                &&& r matches Err(e) && e == ConsumeError::Send
                &&& final(self).phase() == SessionPhase::Failed(ConsumeError::Send)
            },
    {
        if ok {
            self.phase = SessionPhase::Running;
            let rl = ReceiveLoop::new(ops);
            let hb = Heartbeat::start(
                self.heartbeat_msg.clone(),
                self.interval,
                Ghost(self.subscription@),
            );
            Ok((rl, hb))
        } else {
            self.phase = SessionPhase::Failed(ConsumeError::Send);
            Err(ConsumeError::Send)
        }
    }
}

} // verus!
