//! The heartbeat loop: the keep-alive message goes out at once and then once
//! per interval, for as long as sending succeeds.

use vstd::prelude::*;
use crate::error::ConsumeError;

verus! {

/// The kind of a message written on the sender half.
#[derive(Debug, Clone, Copy, PartialEq, Eq, Structural)]
pub enum Wire {
    Subscribe,
    KeepAlive,
}

/// What the caller is to do next for the heartbeat loop.
#[derive(Debug)]
pub enum HeartbeatAction {
    /// Write this keep-alive text on the sender half, then report the outcome.
    Send(String),
    /// Wait this many seconds.
    Sleep(u64),
}

/// The heartbeat loop of one connection. It owns the sender half after the
/// subscription; it records every message written on that half, the
/// subscription included, and the time in seconds that its sleeps took.
pub struct Heartbeat {
    message: String,
    interval: u64,
    due: bool,
    stopped: bool,
    subscription: Ghost<Seq<char>>,
    clock: Ghost<nat>,
    wire: Ghost<Seq<(Wire, Seq<char>)>>,
}

impl Heartbeat {
    pub closed spec fn message(&self) -> Seq<char> {
        self.message@
    }

    pub closed spec fn interval(&self) -> u64 {
        self.interval
    }

    /// Whether the keep-alive message is the next thing to do.
    pub closed spec fn due(&self) -> bool {
        self.due
    }

    /// Whether a send failed and the loop is over.
    pub closed spec fn stopped(&self) -> bool {
        self.stopped
    }

    pub closed spec fn subscription(&self) -> Seq<char> {
        self.subscription@
    }

    /// Seconds slept since the loop started.
    pub closed spec fn clock(&self) -> nat {
        self.clock@
    }

    /// Every message written on the sender half, in order.
    pub closed spec fn wire(&self) -> Seq<(Wire, Seq<char>)> {
        self.wire@
    }

    /// How many keep-alive messages were handed out.
    pub open spec fn sends(&self) -> nat {
        (self.wire().len() - 1) as nat
    }

    pub open spec fn wf(&self) -> bool {
        &&& self.wire().len() >= 1
        &&& self.wire()[0] == (Wire::Subscribe, self.subscription())
        &&& forall|i: int| 1 <= i < self.wire().len() ==> #[trigger] self.wire()[i] == (
            Wire::KeepAlive,
            self.message(),
        )
        &&& self.due() ==> self.clock() == self.sends() * self.interval()
        &&& !self.due() ==> self.sends() >= 1 && self.clock() == (self.sends() - 1)
            * self.interval()
    }

    /// Starts the loop on a sender half that has carried the subscription,
    /// and nothing else.
    pub(crate) fn start(message: String, interval: u64, subscription: Ghost<Seq<char>>) -> (r: Self)
        ensures
            r.wf(),
            r.message() == message@,
            r.interval() == interval,
            r.due(),
            !r.stopped(),
            r.clock() == 0,
            r.subscription() == subscription@,
            r.wire() == seq![(Wire::Subscribe, subscription@)],
    {
        let ghost w = Seq::empty().push((Wire::Subscribe, subscription@));
        assert(w.len() == 1);
        assert(0 * interval == 0);
        Heartbeat {
            message,
            interval,
            due: true,
            stopped: false,
            subscription,
            clock: Ghost(0),
            wire: Ghost(w),
        }
    }

    pub fn is_stopped(&self) -> (r: bool)
        ensures
            r == self.stopped(),
    {
        self.stopped
    }

    /// The next thing to do: send when due, otherwise sleep one interval.
    /// The keep-alive that is handed out as the k-th (from 0) goes out after
    /// k intervals of sleep.
    pub fn next(&mut self) -> (r: HeartbeatAction)
        requires
            old(self).wf(),
            !old(self).stopped(),
        ensures
            final(self).wf(),
            !final(self).stopped(),
            final(self).message() == old(self).message(),
            final(self).interval() == old(self).interval(),
            final(self).subscription() == old(self).subscription(),
            final(self).due() == !old(self).due(),
            old(self).due() ==> {
                &&& r matches HeartbeatAction::Send(m) && m@ == old(self).message()
                &&& final(self).wire() == old(self).wire().push((Wire::KeepAlive, old(self).message()))
                &&& final(self).clock() == old(self).clock()
                &&& final(self).clock() == old(self).sends() * old(self).interval()
            },
            !old(self).due() ==> {
                &&& r == HeartbeatAction::Sleep(old(self).interval())
                &&& final(self).wire() == old(self).wire()
                &&& final(self).clock() == old(self).clock() + old(self).interval()
            },
    {
        if self.due {
            let m = self.message.clone();
            proof {
                let w = self.wire@.push((Wire::KeepAlive, self.message@));
                assert forall|i: int| 1 <= i < w.len() implies #[trigger] w[i] == (
                    Wire::KeepAlive,
                    self.message@,
                ) by {
                    if i < self.wire@.len() {
                        assert(w[i] == self.wire@[i]);
                    }
                }
                assert(w[0] == self.wire@[0]);
                self.wire = Ghost(w);
            }
            self.due = false;
            HeartbeatAction::Send(m)
        } else {
            proof {
                self.clock = Ghost((self.clock@ + self.interval) as nat);
                assert(self.clock@ == self.sends() * self.interval) by (nonlinear_arith)
                    requires
                        self.clock@ == (self.sends() - 1) * self.interval + self.interval,
                        self.sends() >= 1,
                ;
            }
            self.due = true;
            HeartbeatAction::Sleep(self.interval)
        }
    }

    /// Takes the outcome of a keep-alive send: a failed send ends the loop.
    pub fn on_sent(&mut self, ok: bool) -> (r: Option<ConsumeError>)
        requires
            old(self).wf(),
            !old(self).stopped(),
        ensures
            final(self).wf(),
            final(self).message() == old(self).message(),
            final(self).interval() == old(self).interval(),
            final(self).due() == old(self).due(),
            final(self).subscription() == old(self).subscription(),
            final(self).clock() == old(self).clock(),
            final(self).wire() == old(self).wire(),
            final(self).stopped() == !ok,
            ok ==> r is None,
            !ok ==> r == Some(ConsumeError::Send),
    {
        if ok {
            None
        } else {
            self.stopped = true;
            Some(ConsumeError::Send)
        }
    }
}

/// The subscription is the first message on the sender half and the only
/// one of its kind; every later message is the keep-alive text.
pub proof fn lemma_subscription_first_and_once(hb: Heartbeat)
    requires
        hb.wf(),
    ensures
        hb.wire()[0] == (Wire::Subscribe, hb.subscription()),
        forall|i: int| 0 <= i < hb.wire().len() ==> ((#[trigger] hb.wire()[i]).0 == Wire::Subscribe
            <==> i == 0),
{
    assert forall|i: int| 0 <= i < hb.wire().len() implies ((#[trigger] hb.wire()[i]).0
        == Wire::Subscribe <==> i == 0) by {
        if i > 0 {
            assert(hb.wire()[i] == (Wire::KeepAlive, hb.message()));
        }
    }
}

/// With sends at 0, `interval`, `2 * interval`, ..., the k-th keep-alive
/// (from 0) falls within the first `window` seconds exactly when
/// `k < window / interval + 1`.
pub proof fn lemma_keepalives_in_window(interval: nat, window: nat, k: nat)
    requires
        interval > 0,
    ensures
        (k * interval <= window) <==> (k < window / interval + 1),
{
    let q = window / interval;
    assert(window == q * interval + window % interval) by (nonlinear_arith)
        requires
            interval > 0,
            q == window / interval,
    ;
    assert(0 <= window % interval < interval) by (nonlinear_arith)
        requires
            interval > 0,
    ;
    if k <= q {
        assert(k * interval <= window) by (nonlinear_arith)
            requires
                k <= q,
                window == q * interval + window % interval,
                0 <= window % interval,
                interval > 0,
        ;
    } else {
        assert(k * interval > window) by (nonlinear_arith)
            requires
                k >= q + 1,
                window == q * interval + window % interval,
                window % interval < interval,
                interval > 0,
        ;
    }
}

/// How many keep-alive messages go out within the first `window` seconds
/// of the loop, the first one at once.
pub fn keepalives_within(interval: u64, window: u64) -> (r: u128)
    requires
        interval > 0,
    ensures
        r == window / interval + 1,
{
    (window / interval) as u128 + 1
}

} // verus!
