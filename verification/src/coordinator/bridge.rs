//! Audio that is recorded before the engine is ready.
use vstd::prelude::*;

verus! {

/// Keeps audio until a consumer is attached, and lets it through from then on. While a consumer is
/// being attached, what waits goes to it first.
#[derive(Debug)]
pub struct DeferredAsrBridge {
    pub attached: bool,
    pub pending_audio: Vec<u8>,
    pub attaching: bool,
}

/// The state of a bridge and all that has gone through it.
pub ghost struct BridgeTrace {
    pub attached: bool,
    pub attaching: bool,
    pub pending: Seq<u8>,
    pub delivered: Seq<u8>,
    pub received: Seq<u8>,
}

/// Something that happens at a bridge.
pub ghost enum BridgeInput {
    Chunk(Seq<u8>),
    BeginAttach,
    /// What waits goes to the consumer, or the consumer is attached where nothing waits.
    Flush,
}

/// Whether a chunk goes straight through.
pub open spec fn goes_through(attached: bool, attaching: bool) -> bool {
    attached && !attaching
}

/// A bridge after something happened at it.
pub open spec fn trace_after(t: BridgeTrace, input: BridgeInput) -> BridgeTrace {
    match input {
        BridgeInput::Chunk(pcm) => if goes_through(t.attached, t.attaching) {
            BridgeTrace { delivered: t.delivered + pcm, received: t.received + pcm, ..t }
        } else {
            BridgeTrace { pending: t.pending + pcm, received: t.received + pcm, ..t }
        },
        BridgeInput::BeginAttach => BridgeTrace { attaching: true, ..t },
        BridgeInput::Flush => if t.pending.len() == 0 {
            BridgeTrace { attached: true, attaching: false, ..t }
        } else {
            BridgeTrace { delivered: t.delivered + t.pending, pending: seq![], ..t }
        },
    }
}

impl DeferredAsrBridge {
    /// The bridge together with what has gone through it.
    pub open spec fn trace(self, delivered: Seq<u8>, received: Seq<u8>) -> BridgeTrace {
        BridgeTrace {
            attached: self.attached,
            attaching: self.attaching,
            pending: self.pending_audio@,
            delivered,
            received,
        }
    }

    /// A bridge without a consumer.
    pub fn new() -> (r: DeferredAsrBridge)
        ensures
            !r.attached,
            !r.attaching,
            r.pending_audio@ == Seq::<u8>::empty(),
    {
        DeferredAsrBridge { attached: false, pending_audio: Vec::new(), attaching: false }
    }

    /// A consumer is about to be attached.
    pub fn begin_attach(&mut self)
        ensures
            *final(self) == (DeferredAsrBridge { attaching: true, ..*old(self) }),
            forall|delivered: Seq<u8>, received: Seq<u8>| #[trigger]
                trace_after(old(self).trace(delivered, received), BridgeInput::BeginAttach)
                    == final(self).trace(delivered, received),
    {
        self.attaching = true;
    }

    /// What waits, and must go to the consumer before this is asked again. Where nothing waits, the
    /// consumer is attached.
    pub fn flush(&mut self) -> (r: Option<Vec<u8>>)
        ensures
            old(self).pending_audio@.len() == 0 ==> {
                &&& r is None
                &&& *final(self) == (DeferredAsrBridge {
                    attached: true,
                    attaching: false,
                    ..*old(self)
                })
            },
            old(self).pending_audio@.len() > 0 ==> {
                &&& r == Some(old(self).pending_audio)
                &&& final(self).pending_audio@ == Seq::<u8>::empty()
                &&& final(self).attached == old(self).attached
                &&& final(self).attaching == old(self).attaching
            },
            forall|delivered: Seq<u8>, received: Seq<u8>| #[trigger]
                trace_after(old(self).trace(delivered, received), BridgeInput::Flush) == final(
                    self
                ).trace(delivered + old(self).pending_audio@, received),
    {
        assert forall|delivered: Seq<u8>| self.pending_audio@.len() == 0 implies delivered
            + self.pending_audio@ == delivered by {
            assert(delivered + self.pending_audio@ =~= delivered);
        }
        if self.pending_audio.len() == 0 {
            self.attached = true;
            self.attaching = false;
            return None;
        }
        let mut waiting: Vec<u8> = Vec::new();
        std::mem::swap(&mut waiting, &mut self.pending_audio);
        Some(waiting)
    }

    /// A chunk was recorded. The result tells whether it goes to the consumer now; else it waits.
    pub fn consume_pcm_chunk(&mut self, pcm: &[u8]) -> (r: bool)
        ensures
            r == goes_through(old(self).attached, old(self).attaching),
            final(self).attached == old(self).attached,
            final(self).attaching == old(self).attaching,
            final(self).pending_audio@ == if r {
                old(self).pending_audio@
            } else {
                old(self).pending_audio@ + pcm@
            },
            forall|delivered: Seq<u8>, received: Seq<u8>| #[trigger]
                trace_after(old(self).trace(delivered, received), BridgeInput::Chunk(pcm@))
                    == final(self).trace(
                    if r {
                        delivered + pcm@
                    } else {
                        delivered
                    },
                    received + pcm@,
                ),
    {
        if self.attaching || !self.attached {
            self.pending_audio.extend_from_slice(pcm);
            assert(self.pending_audio@ =~= old(self).pending_audio@ + pcm@);
            return false;
        }
        true
    }
}

/// A bridge after a number of things happened at it.
pub open spec fn bridge_run(inputs: Seq<BridgeInput>) -> BridgeTrace
    decreases inputs.len(),
{
    if inputs.len() == 0 {
        BridgeTrace {
            attached: false,
            attaching: false,
            pending: seq![],
            delivered: seq![],
            received: seq![],
        }
    } else {
        trace_after(bridge_run(inputs.drop_last()), inputs.last())
    }
}

/// Whenever a consumer is attached, it gets all the audio, in the order in which it was recorded:
/// what was delivered and what waits is always just what was received.
pub proof fn law_audio_keeps_its_order(inputs: Seq<BridgeInput>)
    ensures
        bridge_run(inputs).delivered + bridge_run(inputs).pending == bridge_run(inputs).received,
        goes_through(bridge_run(inputs).attached, bridge_run(inputs).attaching) ==> bridge_run(
            inputs,
        ).pending.len() == 0,
    decreases inputs.len(),
{
    if inputs.len() > 0 {
        law_audio_keeps_its_order(inputs.drop_last());
        let before = bridge_run(inputs.drop_last());
        let after = bridge_run(inputs);
        match inputs.last() {
            BridgeInput::Chunk(pcm) => {
                if goes_through(before.attached, before.attaching) {
                    assert(before.pending =~= seq![]);
                    assert(before.delivered =~= before.received);
                    assert(after.delivered + after.pending =~= after.received);
                } else {
                    assert(after.delivered + after.pending =~= after.received);
                }
            },
            BridgeInput::BeginAttach => {},
            BridgeInput::Flush => {
                assert(after.delivered + after.pending =~= after.received);
            },
        }
    }
}

/// Audio waits until a consumer is attached, and none of it is lost meanwhile: attaching hands over
/// all that waits, and from then on a chunk goes through at once.
pub proof fn law_attached_consumer_gets_all(t: BridgeTrace, pcm: Seq<u8>)
    ensures
        ({
            let handed = trace_after(trace_after(t, BridgeInput::BeginAttach), BridgeInput::Flush);
            let through = trace_after(handed, BridgeInput::Flush);
            &&& t.pending.len() > 0 ==> handed.delivered == t.delivered + t.pending
            &&& handed.pending.len() == 0
            &&& goes_through(through.attached, through.attaching)
            &&& trace_after(through, BridgeInput::Chunk(pcm)).delivered == through.delivered + pcm
            &&& !t.attached || t.attaching ==> trace_after(t, BridgeInput::Chunk(pcm)).pending
                == t.pending + pcm
            &&& trace_after(trace_after(t, BridgeInput::BeginAttach), BridgeInput::Chunk(pcm)).pending
                == t.pending + pcm
        }),
{
}

} // verus!
