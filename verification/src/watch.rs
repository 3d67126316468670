use vstd::prelude::*;

use crate::committee::{wire_of, to_wire, Committee, WireCommittee};
use crate::status::BackendError;

verus! {

/// An inbound streaming request. A watch carries no filtering parameters;
/// any fields a caller sends are ignored, so nothing is stored here.
pub struct WatchRequest {}

/// One stream item: exactly one committee change notification, translated to
/// its wire representation. A point-in-time change, not a snapshot.
pub struct CommitteeUpdate {
    /// The wire translation of the changed committee.
    pub committee: WireCommittee,
}

impl View for CommitteeUpdate {
    type V = Seq<u8>;

    open spec fn view(&self) -> Seq<u8> {
        self.committee@
    }
}

/// One event observed by a streaming call while it forwards the backend's
/// change feed.
pub enum WatchEvent {
    /// The backend emitted a committee change.
    Update(Committee),
    /// The backend's sequence ended.
    End,
    /// The backend stream or the transport forwarding failed. The description
    /// is kept for the host's own bookkeeping; it is never surfaced to the
    /// caller.
    Failed(BackendError),
}

/// What the adapter does in answer to one watch event: hand one translated
/// item to the transport, or resolve the call to a completed state. There is
/// deliberately no failing action — a streaming caller only ever observes a
/// closed stream, never an explicit error status.
pub enum WatchAction {
    /// Forward this item to the caller.
    Emit(CommitteeUpdate),
    /// Close the stream cleanly.
    Close,
}

/// The whole lifecycle of one streaming call.
#[derive(Clone, Copy, Debug, PartialEq, Eq, Structural)]
pub enum WatchPhase {
    /// The call exists but no event has been processed yet.
    NotStarted,
    /// Items are being forwarded.
    Forwarding,
    /// The call is resolved; nothing more is ever emitted.
    Closed,
}

/// The committee payload carried by an update event (empty for the others,
/// which carry none).
pub open spec fn payload_of(ev: WatchEvent) -> Seq<u8> {
    match ev {
        WatchEvent::Update(c) => c@,
        WatchEvent::End => Seq::empty(),
        WatchEvent::Failed(_) => Seq::empty(),
    }
}

/// The phase a streaming call is in after processing one event: updates keep
/// it forwarding, everything else closes it, and a closed call stays closed.
pub open spec fn phase_after(p: WatchPhase, ev: WatchEvent) -> WatchPhase {
    if p is Closed {
        WatchPhase::Closed
    } else if ev is Update {
        WatchPhase::Forwarding
    } else {
        WatchPhase::Closed
    }
}

/// What one event makes the call hand to the transport: the wire translation
/// of an update, and nothing for an end, a failure, or any event after the
/// call closed.
pub open spec fn emission_of(p: WatchPhase, ev: WatchEvent) -> Option<Seq<u8>> {
    if p is Closed {
        None
    } else {
        match ev {
            WatchEvent::Update(c) => Some(wire_of(c@)),
            WatchEvent::End => None,
            WatchEvent::Failed(_) => None,
        }
    }
}

/// The emission of one event as a sequence: one item or none.
pub open spec fn emitted_items(p: WatchPhase, ev: WatchEvent) -> Seq<Seq<u8>> {
    match emission_of(p, ev) {
        Some(w) => seq![w],
        None => Seq::empty(),
    }
}

/// Everything a call starting in phase `p` forwards to the caller over the
/// events `evs`, in order.
pub open spec fn forwarded(p: WatchPhase, evs: Seq<WatchEvent>) -> Seq<Seq<u8>>
    decreases evs.len(),
{
    if evs.len() == 0 {
        Seq::empty()
    } else {
        emitted_items(p, evs[0]) + forwarded(phase_after(p, evs[0]), evs.drop_first())
    }
}

/// The phase a call starting in `p` is in after processing all of `evs`.
pub open spec fn phase_after_all(p: WatchPhase, evs: Seq<WatchEvent>) -> WatchPhase
    decreases evs.len(),
{
    if evs.len() == 0 {
        p
    } else {
        phase_after_all(phase_after(p, evs[0]), evs.drop_first())
    }
}

/// Whether every event in the sequence is a committee change.
pub open spec fn all_updates(evs: Seq<WatchEvent>) -> bool {
    forall|i: int| 0 <= i < evs.len() ==> evs[i] is Update
}

/// The wire translations of the committee changes carried by a sequence of
/// events, in order.
pub open spec fn wire_translations(evs: Seq<WatchEvent>) -> Seq<Seq<u8>> {
    evs.map_values(|ev: WatchEvent| wire_of(payload_of(ev)))
}

/// Law: a call that is not yet closed and sees a finite run of committee
/// changes followed by one closing event (the end of the backend's sequence,
/// or a failure) forwards exactly the wire translations of those changes, in
/// order, and is then closed. With the closing event being the clean end,
/// this is the clean-close guarantee; with it being a failure, it says the
/// failure is absorbed: the caller still sees every item forwarded so far and
/// then only a closed stream.
pub proof fn lemma_updates_then_close(p: WatchPhase, updates: Seq<WatchEvent>, last: WatchEvent)
    requires
        p !is Closed,
        all_updates(updates),
        last !is Update,
    ensures
        forwarded(p, updates.push(last)) == wire_translations(updates),
        phase_after_all(p, updates.push(last)) is Closed,
    decreases updates.len(),
{
    let evs = updates.push(last);
    if updates.len() == 0 {
        assert(evs[0] == last);
        assert(evs.drop_first() =~= Seq::<WatchEvent>::empty());
        assert(emitted_items(p, last) =~= Seq::<Seq<u8>>::empty());
        assert(forwarded(phase_after(p, last), evs.drop_first()) =~= Seq::<Seq<u8>>::empty());
        assert(phase_after_all(phase_after(p, last), evs.drop_first()) == phase_after(p, last));
        assert(wire_translations(updates) =~= Seq::<Seq<u8>>::empty());
        assert(forwarded(p, evs) =~= wire_translations(updates));
    } else {
        let head = updates[0];
        assert(head is Update);
        assert(evs[0] == head);
        let tail = updates.drop_first();
        assert(evs.drop_first() =~= tail.push(last));
        assert(all_updates(tail)) by {
            assert(forall|i: int|
                0 <= i < tail.len() ==> tail[i] == updates[i + 1] && #[trigger] (tail[i])
                    is Update);
        }
        lemma_updates_then_close(WatchPhase::Forwarding, tail, last);
        assert(phase_after(p, head) == WatchPhase::Forwarding);
        assert(forwarded(p, evs) == emitted_items(p, head) + wire_translations(tail));
        assert(wire_translations(updates) =~= emitted_items(p, head) + wire_translations(tail));
    }
}

/// Law: a feed of committee changes that then ends is forwarded whole — the
/// caller observes exactly the wire translations of the changes, in order,
/// followed by a clean close.
pub proof fn lemma_finite_feed_forwards_all_then_closes(updates: Seq<WatchEvent>)
    requires
        all_updates(updates),
    ensures
        forwarded(WatchPhase::NotStarted, updates.push(WatchEvent::End)) == wire_translations(
            updates,
        ),
        phase_after_all(WatchPhase::NotStarted, updates.push(WatchEvent::End)) is Closed,
{
    lemma_updates_then_close(WatchPhase::NotStarted, updates, WatchEvent::End);
}

/// Law: a feed that fails partway through is absorbed — the caller still
/// observes every change forwarded before the failure, in order, and then a
/// clean close, never an explicit error.
pub proof fn lemma_feed_failure_absorbed(updates: Seq<WatchEvent>, failure: BackendError)
    requires
        all_updates(updates),
    ensures
        forwarded(WatchPhase::NotStarted, updates.push(WatchEvent::Failed(failure)))
            == wire_translations(updates),
        phase_after_all(WatchPhase::NotStarted, updates.push(WatchEvent::Failed(failure)))
            is Closed,
{
    lemma_updates_then_close(WatchPhase::NotStarted, updates, WatchEvent::Failed(failure));
}

/// Law: a closed call is resolved for good — whatever still arrives, nothing
/// is ever emitted again and the call stays closed.
pub proof fn lemma_closed_call_emits_nothing(evs: Seq<WatchEvent>)
    ensures
        forwarded(WatchPhase::Closed, evs) == Seq::<Seq<u8>>::empty(),
        phase_after_all(WatchPhase::Closed, evs) is Closed,
    decreases evs.len(),
{
    if evs.len() > 0 {
        lemma_closed_call_emits_nothing(evs.drop_first());
        assert(forwarded(WatchPhase::Closed, evs) =~= Seq::<Seq<u8>>::empty());
    }
}

/// The events of an interleaved two-call log that were routed to one of the
/// calls, in log order. Each entry names its call by the flag in front of
/// the event.
pub open spec fn routed(evs: Seq<(bool, WatchEvent)>, sel: bool) -> Seq<WatchEvent>
    decreases evs.len(),
{
    if evs.len() == 0 {
        Seq::empty()
    } else if evs[0].0 == sel {
        seq![evs[0].1] + routed(evs.drop_first(), sel)
    } else {
        routed(evs.drop_first(), sel)
    }
}

/// What the call selected by `sel` forwards while two independent streaming
/// calls process one interleaved log of events: its own events step its own
/// phase `own` and may emit; the other call's events step only the other
/// phase `other`.
pub open spec fn observed(
    own: WatchPhase,
    other: WatchPhase,
    evs: Seq<(bool, WatchEvent)>,
    sel: bool,
) -> Seq<Seq<u8>>
    decreases evs.len(),
{
    if evs.len() == 0 {
        Seq::empty()
    } else if evs[0].0 == sel {
        emitted_items(own, evs[0].1) + observed(
            phase_after(own, evs[0].1),
            other,
            evs.drop_first(),
            sel,
        )
    } else {
        observed(own, phase_after(other, evs[0].1), evs.drop_first(), sel)
    }
}

/// Law: concurrent streaming calls are independent. However the events of
/// two calls interleave, what one call forwards is exactly what it would
/// forward alone over the events routed to it — in particular, the other
/// call ending, failing or being cancelled never changes it.
pub proof fn lemma_watch_calls_independent(
    own: WatchPhase,
    other: WatchPhase,
    evs: Seq<(bool, WatchEvent)>,
    sel: bool,
)
    ensures
        observed(own, other, evs, sel) == forwarded(own, routed(evs, sel)),
    decreases evs.len(),
{
    if evs.len() == 0 {
    } else if evs[0].0 == sel {
        let ev = evs[0].1;
        let rest = evs.drop_first();
        lemma_watch_calls_independent(phase_after(own, ev), other, rest, sel);
        let r = routed(rest, sel);
        let s = seq![ev] + r;
        assert(s[0] == ev);
        assert(s.drop_first() =~= r);
        assert(forwarded(own, s) == emitted_items(own, ev) + forwarded(phase_after(own, ev), r));
    } else {
        lemma_watch_calls_independent(own, phase_after(other, evs[0].1), evs.drop_first(), sel);
    }
}

/// The per-call forwarding state of one streaming call: its lifecycle phase,
/// and (as specification-only bookkeeping) everything it has handed to the
/// transport so far, in order.
pub struct WatchCall {
    /// Where in its lifecycle the call is.
    pub phase: WatchPhase,
    /// The wire payloads handed to the transport so far, in emission order.
    pub emitted: Ghost<Seq<Seq<u8>>>,
}

impl WatchCall {
    /// Begin a streaming call: nothing processed, nothing emitted.
    pub fn new() -> (c: WatchCall)
        ensures
            c.phase is NotStarted,
            c.emitted@ == Seq::<Seq<u8>>::empty(),
    {
        WatchCall { phase: WatchPhase::NotStarted, emitted: Ghost(Seq::empty()) }
    }

    /// Process one event of the backend feed: emit the wire translation of an
    /// update, and resolve the call to a completed state on the end of the
    /// sequence or on any failure — a failure is absorbed, the caller sees
    /// only a closed stream. A closed call emits nothing more, whatever
    /// arrives.
    pub fn on_event(&mut self, ev: WatchEvent) -> (a: WatchAction)
        ensures
            final(self).phase == phase_after(old(self).phase, ev),
            final(self).emitted@ == old(self).emitted@ + emitted_items(old(self).phase, ev),
            (match emission_of(old(self).phase, ev) {
                Some(w) => a matches WatchAction::Emit(u) && u@ == w,
                None => a is Close,
            }),
    {
        match ev {
            WatchEvent::Update(c) => {
                if self.phase == WatchPhase::Closed {
                    proof {
                        assert(self.emitted@ =~= self.emitted@ + Seq::<Seq<u8>>::empty());
                    }
                    WatchAction::Close
                } else {
                    self.phase = WatchPhase::Forwarding;
                    let update = CommitteeUpdate { committee: to_wire(&c) };
                    self.emitted = Ghost(self.emitted@ + seq![update@]);
                    WatchAction::Emit(update)
                }
            },
            WatchEvent::End => {
                self.phase = WatchPhase::Closed;
                proof {
                    assert(self.emitted@ =~= self.emitted@ + Seq::<Seq<u8>>::empty());
                }
                WatchAction::Close
            },
            WatchEvent::Failed(_) => {
                self.phase = WatchPhase::Closed;
                proof {
                    assert(self.emitted@ =~= self.emitted@ + Seq::<Seq<u8>>::empty());
                }
                WatchAction::Close
            },
        }
    }
}

} // verus!
