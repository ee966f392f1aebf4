//! The receive loop: decodes each inbound frame, applies the policy and
//! hands accepted documents to the outbound queue, in arrival order.

use vstd::prelude::*;
use crate::error::ConsumeError;
use crate::json::{decode, json_decode};
use crate::pipe::Pipe;

verus! {

/// What the receiver half produced.
pub enum Inbound {
    /// A frame and its text.
    Text(String),
    /// A frame whose payload is not UTF-8 text.
    Unreadable,
    /// Reading failed.
    Failed,
    /// The peer closed the stream.
    Ended,
}

/// What the caller is to do after a step of the receive loop.
#[derive(Debug)]
pub enum ReceiveStep {
    /// Push this document onto the outbound queue, then report the delivery.
    Forward(serde_json::Value),
    /// Read the next frame.
    Skip,
    /// The loop is over, with this outcome.
    Done(Result<(), ConsumeError>),
}

/// Where the receive loop stands.
pub enum ReceivePhase {
    Reading,
    Delivering,
    Finished(Result<(), ConsumeError>),
}

/// What one decoded frame asks for: `Ok(Some(d))` forwards `d`, `Ok(None)`
/// drops the document, and a frame that did not decode fails the loop.
pub open spec fn route<P: Pipe>(ops: P, decoded: Option<serde_json::Value>) -> Result<
    Option<serde_json::Value>,
    ConsumeError,
> {
    match decoded {
        Some(doc) => if ops.accepts(doc) {
            Ok(Some(ops.mapped(doc)))
        } else {
            Ok(None)
        },
        None => Err(ConsumeError::Decode),
    }
}

/// What one frame adds to the outbound queue.
pub open spec fn frame_output<P: Pipe>(ops: P, frame: Seq<char>) -> Seq<serde_json::Value> {
    match route(ops, json_decode(frame)) {
        Ok(Some(doc)) => seq![doc],
        _ => seq![],
    }
}

/// What a sequence of frames adds to the outbound queue, in order.
pub open spec fn routed<P: Pipe>(ops: P, frames: Seq<Seq<char>>) -> Seq<serde_json::Value>
    decreases frames.len(),
{
    if frames.len() == 0 {
        seq![]
    } else {
        routed(ops, frames.drop_last()) + frame_output(ops, frames.last())
    }
}

/// Frames are forwarded in the order in which they were read: what a run of
/// frames forwards is what its first part forwards, followed by what the rest
/// forwards.
pub proof fn lemma_routed_concat<P: Pipe>(ops: P, a: Seq<Seq<char>>, b: Seq<Seq<char>>)
    ensures
        routed(ops, a + b) == routed(ops, a) + routed(ops, b),
    decreases b.len(),
{
    if b.len() == 0 {
        assert(a + b =~= a);
        assert(routed(ops, a) + routed(ops, b) =~= routed(ops, a));
    } else {
        let c = a + b;
        assert(c.drop_last() =~= a + b.drop_last());
        assert(c.last() == b.last());
        lemma_routed_concat(ops, a, b.drop_last());
        assert(routed(ops, a) + routed(ops, b.drop_last()) + frame_output(ops, b.last()) =~= routed(
            ops,
            a,
        ) + (routed(ops, b.drop_last()) + frame_output(ops, b.last())));
    }
}

/// A document reaches the queue exactly when it decodes and the policy
/// accepts it, and then as the policy maps it; otherwise the frame adds
/// nothing.
pub proof fn lemma_routed_single<P: Pipe>(ops: P, frame: Seq<char>)
    ensures
        routed(ops, seq![frame]) == match json_decode(frame) {
            Some(doc) => if ops.accepts(doc) {
                seq![ops.mapped(doc)]
            } else {
                Seq::<serde_json::Value>::empty()
            },
            None => Seq::<serde_json::Value>::empty(),
        },
{
    let s = seq![frame];
    assert(s.drop_last() =~= Seq::<Seq<char>>::empty());
    assert(s.last() == frame);
    assert(routed(ops, Seq::<Seq<char>>::empty()) + frame_output(ops, frame) =~= frame_output(
        ops,
        frame,
    ));
}

/// Applies the policy to a decoding result.
pub fn route_decoded<P: Pipe>(
    decoded: Result<serde_json::Value, serde_json::Error>,
    ops: &P,
) -> (r: Result<Option<serde_json::Value>, ConsumeError>)
    ensures
        r == route(*ops, decoded.ok()),
{
    match decoded {
        Ok(doc) => {
            if ops.filter(&doc) {
                Ok(Some(ops.map(doc)))
            } else {
                Ok(None)
            }
        },
        Err(_) => Err(ConsumeError::Decode),
    }
}

/// Decodes one text frame and applies the policy to it.
pub fn route_frame<P: Pipe>(text: &str, ops: &P) -> (r: Result<
    Option<serde_json::Value>,
    ConsumeError,
>)
    ensures
        r == route(*ops, json_decode(text@)),
{
    route_decoded(decode(text), ops)
}

/// The receive loop of one connection. It owns the policy; it records the
/// texts of the frames it read and the documents it handed to the queue.
pub struct ReceiveLoop<P> {
    ops: P,
    phase: ReceivePhase,
    frames: Ghost<Seq<Seq<char>>>,
    forwarded: Ghost<Seq<serde_json::Value>>,
}

impl<P: Pipe> ReceiveLoop<P> {
    pub closed spec fn ops(&self) -> P {
        self.ops
    }

    pub closed spec fn phase(&self) -> ReceivePhase {
        self.phase
    }

    /// The texts of the frames read so far, in arrival order.
    pub closed spec fn frames(&self) -> Seq<Seq<char>> {
        self.frames@
    }

    /// The documents handed to the outbound queue so far, in order.
    pub closed spec fn forwarded(&self) -> Seq<serde_json::Value> {
        self.forwarded@
    }

    pub open spec fn wf(&self) -> bool {
        self.forwarded() == routed(self.ops(), self.frames())
    }

    pub fn new(ops: P) -> (r: Self)
        ensures
            r.wf(),
            r.ops() == ops,
            r.phase() is Reading,
            r.frames() == Seq::<Seq<char>>::empty(),
            r.forwarded() == Seq::<serde_json::Value>::empty(),
    {
        ReceiveLoop { ops, phase: ReceivePhase::Reading, frames: Ghost(Seq::empty()), forwarded: Ghost(Seq::empty()) }
    }

    pub fn is_reading(&self) -> (r: bool)
        ensures
            r == self.phase() is Reading,
    {
        matches!(self.phase, ReceivePhase::Reading)
    }

    pub fn is_delivering(&self) -> (r: bool)
        ensures
            r == self.phase() is Delivering,
    {
        matches!(self.phase, ReceivePhase::Delivering)
    }

    /// Takes what the receiver half produced next.
    pub fn on_inbound(&mut self, ev: Inbound) -> (r: ReceiveStep)
        requires
            old(self).wf(),
            old(self).phase() is Reading,
        ensures
            final(self).wf(),
            final(self).ops() == old(self).ops(),
            match ev {
                Inbound::Text(t) => {
                    &&& final(self).frames() == old(self).frames().push(t@)
                    &&& match route(old(self).ops(), json_decode(t@)) {
                        Ok(Some(doc)) => {
                            &&& r == ReceiveStep::Forward(doc)
                            &&& final(self).phase() is Delivering
                            &&& final(self).forwarded() == old(self).forwarded().push(doc)
                        },
                        Ok(None) => {
                            &&& r is Skip
                            &&& final(self).phase() is Reading
                            &&& final(self).forwarded() == old(self).forwarded()
                        },
                        Err(e) => {
                            &&& r == ReceiveStep::Done(Err(e))
                            &&& final(self).phase() == ReceivePhase::Finished(Err(e))
                            &&& final(self).forwarded() == old(self).forwarded()
                        },
                    }
                },
                _ => {
                    let out = match ev {
                        Inbound::Ended => Ok(()),
                        Inbound::Unreadable => Err(ConsumeError::Decode),
                        _ => Err(ConsumeError::Receive),
                    };
                    &&& r == ReceiveStep::Done(out)
                    &&& final(self).phase() == ReceivePhase::Finished(out)
                    &&& final(self).frames() == old(self).frames()
                    &&& final(self).forwarded() == old(self).forwarded()
                },
            },
    {
        match ev {
            Inbound::Text(t) => {
                let routed_doc = route_frame(t.as_str(), &self.ops);
                proof {
                    let fr = self.frames@.push(t@);
                    assert(fr.drop_last() =~= self.frames@);
                    assert(routed(self.ops, fr) == routed(self.ops, self.frames@) + frame_output(
                        self.ops,
                        t@,
                    ));
                    self.frames = Ghost(fr);
                }
                match routed_doc {
                    Ok(Some(doc)) => {
                        assert(self.forwarded@.push(doc) =~= self.forwarded@ + seq![doc]);
                        self.forwarded = Ghost(self.forwarded@.push(doc));
                        self.phase = ReceivePhase::Delivering;
                        ReceiveStep::Forward(doc)
                    },
                    Ok(None) => {
                        assert(self.forwarded@ + seq![] =~= self.forwarded@);
                        ReceiveStep::Skip
                    },
                    Err(e) => {
                        assert(self.forwarded@ + seq![] =~= self.forwarded@);
                        self.phase = ReceivePhase::Finished(Err(e));
                        ReceiveStep::Done(Err(e))
                    },
                }
            },
            Inbound::Unreadable => {
                self.phase = ReceivePhase::Finished(Err(ConsumeError::Decode));
                ReceiveStep::Done(Err(ConsumeError::Decode))
            },
            Inbound::Failed => {
                self.phase = ReceivePhase::Finished(Err(ConsumeError::Receive));
                ReceiveStep::Done(Err(ConsumeError::Receive))
            },
            Inbound::Ended => {
                self.phase = ReceivePhase::Finished(Ok(()));
                ReceiveStep::Done(Ok(()))
            },
        }
    }

    /// Takes the outcome of pushing the forwarded document onto the queue:
    /// a closed queue ends the loop with an error.
    pub fn on_delivery(&mut self, delivered: bool) -> (r: Option<ConsumeError>)
        requires
            old(self).wf(),
            old(self).phase() is Delivering,
        ensures
            final(self).wf(),
            final(self).ops() == old(self).ops(),
            final(self).frames() == old(self).frames(),
            final(self).forwarded() == old(self).forwarded(),
            delivered ==> r is None && final(self).phase() is Reading,
            !delivered ==> r == Some(ConsumeError::DownstreamClosed) && final(self).phase()
                == ReceivePhase::Finished(Err(ConsumeError::DownstreamClosed)),
    {
        if delivered {
            self.phase = ReceivePhase::Reading;
            None
        } else {
            self.phase = ReceivePhase::Finished(Err(ConsumeError::DownstreamClosed));
            Some(ConsumeError::DownstreamClosed)
        }
    }
}

} // verus!
