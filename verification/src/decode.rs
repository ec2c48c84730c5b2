//! Decisions of the decode loop.
//!
//! The loop pulls elements from the container, submits the packet of each
//! block to the codec and polls the codec for a picture. Pulling, submitting
//! and polling are done by the caller; what to do next is decided here, one
//! step at a time. Nothing but the end of the input ends the loop: a
//! malformed element, a block without a payload and a packet that the codec
//! rejects are passed over.

use crate::demux::{
    extract_packet, lemma_packets_of_concat, packet_of, packet_of_item, packets_of,
    ContainerElement, ParseError,
};
use crate::failure::{policy_of, FailureKind};
use vstd::prelude::*;

verus! {

/// The two block-like kinds of element.
#[derive(Clone, Copy, Debug, PartialEq, Eq, Structural)]
pub enum BlockKind {
    /// A block that stands alone. When the codec rejects its packet, the
    /// codec is not polled.
    Simple,
    /// A block inside a group. The codec is polled even when it rejected the
    /// packet.
    Grouped,
}

/// What the decode loop waits for.
#[derive(Clone, Copy, Debug, PartialEq, Eq, Structural)]
pub enum DecodeState {
    /// The next element of the container.
    AwaitElement,
    /// The codec's answer to the packet of a block of the given kind.
    AwaitVerdict(BlockKind),
    /// The codec's answer to a poll for a picture.
    AwaitPicture,
    /// Nothing: the input has ended.
    Ended,
}

/// What happened since the last step.
#[derive(Debug)]
pub enum DecodeEvent {
    /// The parser read an element.
    Element(ContainerElement),
    /// The parser met an element that it could not read.
    Malformed,
    /// The input has no more elements.
    EndOfInput,
    /// The codec took the packet.
    PacketAccepted,
    /// The codec rejected the packet.
    PacketRejected,
    /// The codec handed out a picture.
    PictureReady,
    /// The codec has no picture yet.
    NoPicture,
}

/// What the caller is to do next.
#[derive(Debug)]
pub enum DecodeAction {
    /// Pull the next element from the container.
    PullElement,
    /// Submit this packet to the codec.
    SubmitPacket(Vec<u8>),
    /// Poll the codec for a picture.
    PollPicture,
    /// Hand the picture that the codec gave to the consumer.
    EmitPicture,
    /// Stop: the stream has ended.
    Stop,
    /// Do nothing: the event was no answer to what the loop waits for.
    Ignore,
}

/// A `DecodeAction` with the packet as a sequence of bytes.
pub enum DecodeActionView {
    PullElement,
    SubmitPacket(Seq<u8>),
    PollPicture,
    EmitPicture,
    Stop,
    Ignore,
}

impl View for DecodeAction {
    type V = DecodeActionView;

    open spec fn view(&self) -> DecodeActionView {
        match self {
            DecodeAction::PullElement => DecodeActionView::PullElement,
            DecodeAction::SubmitPacket(packet) => DecodeActionView::SubmitPacket(packet@),
            DecodeAction::PollPicture => DecodeActionView::PollPicture,
            DecodeAction::EmitPicture => DecodeActionView::EmitPicture,
            DecodeAction::Stop => DecodeActionView::Stop,
            DecodeAction::Ignore => DecodeActionView::Ignore,
        }
    }
}

/// The kind of a block-like element.
pub open spec fn kind_of(element: ContainerElement) -> BlockKind {
    match element {
        ContainerElement::Block(_) => BlockKind::Grouped,
        _ => BlockKind::Simple,
    }
}

/// The event answers what the state waits for.
pub open spec fn answers(state: DecodeState, event: DecodeEvent) -> bool {
    match state {
        DecodeState::AwaitElement => event is Element || event is Malformed || event is EndOfInput,
        DecodeState::AwaitVerdict(_) => event is PacketAccepted || event is PacketRejected,
        DecodeState::AwaitPicture => event is PictureReady || event is NoPicture,
        DecodeState::Ended => false,
    }
}

/// The state after a step.
pub open spec fn next_state(state: DecodeState, event: DecodeEvent) -> DecodeState {
    match (state, event) {
        (DecodeState::AwaitElement, DecodeEvent::Element(element)) => {
            if packet_of(element).is_some() {
                DecodeState::AwaitVerdict(kind_of(element))
            } else {
                DecodeState::AwaitElement
            }
        },
        (DecodeState::AwaitElement, DecodeEvent::EndOfInput) => DecodeState::Ended,
        (DecodeState::AwaitVerdict(_), DecodeEvent::PacketAccepted) => DecodeState::AwaitPicture,
        (DecodeState::AwaitVerdict(BlockKind::Grouped), DecodeEvent::PacketRejected) => {
            DecodeState::AwaitPicture
        },
        (DecodeState::AwaitVerdict(BlockKind::Simple), DecodeEvent::PacketRejected) => {
            DecodeState::AwaitElement
        },
        (DecodeState::AwaitPicture, DecodeEvent::PictureReady) => DecodeState::AwaitElement,
        (DecodeState::AwaitPicture, DecodeEvent::NoPicture) => DecodeState::AwaitElement,
        _ => state,
    }
}

/// The action that a step asks for.
pub open spec fn next_action(state: DecodeState, event: DecodeEvent) -> DecodeActionView {
    match (state, event) {
        (DecodeState::AwaitElement, DecodeEvent::Element(element)) => {
            match packet_of(element) {
                Some(packet) => DecodeActionView::SubmitPacket(packet),
                None => DecodeActionView::PullElement,
            }
        },
        (DecodeState::AwaitElement, DecodeEvent::Malformed) => DecodeActionView::PullElement,
        (DecodeState::AwaitElement, DecodeEvent::EndOfInput) => DecodeActionView::Stop,
        (DecodeState::AwaitVerdict(_), DecodeEvent::PacketAccepted) => {
            DecodeActionView::PollPicture
        },
        (DecodeState::AwaitVerdict(BlockKind::Grouped), DecodeEvent::PacketRejected) => {
            DecodeActionView::PollPicture
        },
        (DecodeState::AwaitVerdict(BlockKind::Simple), DecodeEvent::PacketRejected) => {
            DecodeActionView::PullElement
        },
        (DecodeState::AwaitPicture, DecodeEvent::PictureReady) => DecodeActionView::EmitPicture,
        (DecodeState::AwaitPicture, DecodeEvent::NoPicture) => DecodeActionView::PullElement,
        _ => DecodeActionView::Ignore,
    }
}

/// Starts a decode loop, and starts it again after a picture was emitted:
/// the loop waits for an element, and the first thing to do is to pull one.
pub fn start() -> (first: (DecodeState, DecodeAction))
    ensures
        first.0 == DecodeState::AwaitElement,
        first.1@ == DecodeActionView::PullElement,
{
    (DecodeState::AwaitElement, DecodeAction::PullElement)
}

/// Decides what the decode loop does next.
pub fn decode_step(state: DecodeState, event: &DecodeEvent) -> (next: (DecodeState, DecodeAction))
    ensures
        next.0 == next_state(state, *event),
        next.1@ == next_action(state, *event),
{
    match state {
        DecodeState::AwaitElement => match event {
            DecodeEvent::Element(element) => {
                let kind = match element {
                    ContainerElement::Block(_) => BlockKind::Grouped,
                    _ => BlockKind::Simple,
                };
                match extract_packet(element) {
                    Some(packet) => (
                        DecodeState::AwaitVerdict(kind),
                        DecodeAction::SubmitPacket(packet),
                    ),
                    None => (DecodeState::AwaitElement, DecodeAction::PullElement),
                }
            },
            DecodeEvent::Malformed => (DecodeState::AwaitElement, DecodeAction::PullElement),
            DecodeEvent::EndOfInput => (DecodeState::Ended, DecodeAction::Stop),
            _ => (state, DecodeAction::Ignore),
        },
        DecodeState::AwaitVerdict(kind) => match event {
            DecodeEvent::PacketAccepted => (DecodeState::AwaitPicture, DecodeAction::PollPicture),
            DecodeEvent::PacketRejected => match kind {
                BlockKind::Grouped => (DecodeState::AwaitPicture, DecodeAction::PollPicture),
                BlockKind::Simple => (DecodeState::AwaitElement, DecodeAction::PullElement),
            },
            _ => (state, DecodeAction::Ignore),
        },
        DecodeState::AwaitPicture => match event {
            DecodeEvent::PictureReady => (DecodeState::AwaitElement, DecodeAction::EmitPicture),
            DecodeEvent::NoPicture => (DecodeState::AwaitElement, DecodeAction::PullElement),
            _ => (state, DecodeAction::Ignore),
        },
        DecodeState::Ended => (state, DecodeAction::Ignore),
    }
}

/// Failures are recovered from on the spot: the loop stops on the end of the
/// input and on nothing else, and then it stays stopped.
pub proof fn lemma_only_end_of_input_stops(state: DecodeState, event: DecodeEvent)
    ensures
        next_action(state, event) is Stop <==> state is AwaitElement && event is EndOfInput,
        next_state(state, event) is Ended <==> state is Ended || (state is AwaitElement && event
            is EndOfInput),
{
}

/// An event that is no answer to what the loop waits for changes nothing.
pub proof fn lemma_stray_event_is_ignored(state: DecodeState, event: DecodeEvent)
    ensures
        next_action(state, event) is Ignore <==> !answers(state, event),
        !answers(state, event) ==> next_state(state, event) == state,
{
}

/// The failure that an event reports, if it reports one.
pub open spec fn failure_of(event: DecodeEvent) -> Option<FailureKind> {
    match event {
        DecodeEvent::Malformed => Some(FailureKind::Parse),
        DecodeEvent::PacketRejected => Some(FailureKind::Decode),
        _ => None,
    }
}

/// The failures that the loop meets are passed over: after a malformed
/// element and after a rejected packet the loop is neither stopped nor
/// stuck, it pulls the next element, or, for a block inside a group, polls
/// the codec first.
pub proof fn lemma_failures_are_skipped(state: DecodeState, event: DecodeEvent)
    requires
        failure_of(event).is_some(),
        answers(state, event),
    ensures
        policy_of(failure_of(event).unwrap()) is Skip,
        !(next_state(state, event) is Ended),
        next_action(state, event) is PullElement || (state == DecodeState::AwaitVerdict(
            BlockKind::Grouped,
        ) && next_action(state, event) is PollPicture),
{
}

/// A packet is submitted exactly for an element that carries one, and it is
/// that packet, whole.
pub proof fn lemma_packets_are_submitted_whole(state: DecodeState, event: DecodeEvent)
    ensures
        next_action(state, event) is SubmitPacket <==> state is AwaitElement && (
        event matches DecodeEvent::Element(element) && packet_of(element).is_some()),
        next_action(state, event) matches DecodeActionView::SubmitPacket(packet) ==> (
        event matches DecodeEvent::Element(element) && packet_of(element) == Some(packet)),
{
}

/// At most one picture comes out for each packet submitted: a picture is
/// emitted only in answer to a poll, and a poll is made only after a packet
/// was submitted.
pub proof fn lemma_one_picture_per_packet(state: DecodeState, event: DecodeEvent)
    ensures
        next_action(state, event) is EmitPicture ==> state is AwaitPicture,
        next_state(state, event) is AwaitPicture ==> state is AwaitVerdict || state
            is AwaitPicture,
        next_state(state, event) is AwaitVerdict ==> state is AwaitElement || state
            is AwaitVerdict,
        state is AwaitPicture && answers(state, event) ==> next_state(state, event)
            is AwaitElement,
{
}

/// The parsing step that an event reports, if it reports one.
pub open spec fn item_of(event: DecodeEvent) -> Option<Result<ContainerElement, ParseError>> {
    match event {
        DecodeEvent::Element(element) => Some(Ok(element)),
        DecodeEvent::Malformed => Some(Err(ParseError)),
        _ => None,
    }
}

/// The parsing steps that a run of the loop takes in: those that arrive while
/// the loop waits for an element.
pub open spec fn items_taken(state: DecodeState, events: Seq<DecodeEvent>) -> Seq<
    Result<ContainerElement, ParseError>,
>
    decreases events.len(),
{
    if events.len() == 0 {
        Seq::empty()
    } else {
        let later = items_taken(next_state(state, events[0]), events.skip(1));
        match item_of(events[0]) {
            Some(item) if state is AwaitElement => seq![item] + later,
            _ => later,
        }
    }
}

/// The packets that a run of the loop asks to submit, in the order of asking.
pub open spec fn packets_submitted(state: DecodeState, events: Seq<DecodeEvent>) -> Seq<Seq<u8>>
    decreases events.len(),
{
    if events.len() == 0 {
        Seq::empty()
    } else {
        let later = packets_submitted(next_state(state, events[0]), events.skip(1));
        match next_action(state, events[0]) {
            DecodeActionView::SubmitPacket(packet) => seq![packet] + later,
            _ => later,
        }
    }
}

/// Packet order is kept from the container to the codec: whatever happens in
/// between, a run of the loop submits exactly the packets of the elements it
/// took in, each once and in their order.
pub proof fn lemma_run_submits_packets_in_order(state: DecodeState, events: Seq<DecodeEvent>)
    ensures
        packets_submitted(state, events) == packets_of(items_taken(state, events)),
    decreases events.len(),
{
    if events.len() == 0 {
        assert(packets_of(items_taken(state, events)) =~= Seq::empty());
    } else {
        let later = items_taken(next_state(state, events[0]), events.skip(1));
        lemma_run_submits_packets_in_order(next_state(state, events[0]), events.skip(1));
        match item_of(events[0]) {
            Some(item) if state is AwaitElement => {
                let one = seq![item];
                lemma_packets_of_concat(one, later);
                assert(one.drop_last() =~= Seq::empty());
                assert(packets_of(one.drop_last()) =~= Seq::empty());
                match packet_of_item(item) {
                    Some(packet) => {
                        assert(packets_of(one) =~= seq![packet]);
                    },
                    None => {
                        assert(packets_of(one) =~= Seq::empty());
                        assert(packets_of(one) + packets_of(later) =~= packets_of(later));
                    },
                }
            },
            _ => {},
        }
    }
}

/// The pictures that a run of the loop emits.
pub open spec fn pictures_emitted(state: DecodeState, events: Seq<DecodeEvent>) -> nat
    decreases events.len(),
{
    if events.len() == 0 {
        0
    } else {
        let later = pictures_emitted(next_state(state, events[0]), events.skip(1));
        if next_action(state, events[0]) is EmitPicture {
            1 + later
        } else {
            later
        }
    }
}

/// Packets that the codec holds and may still answer with a picture: the one
/// that was submitted last, until the codec has been polled for it.
pub open spec fn packets_pending(state: DecodeState) -> nat {
    if state is AwaitVerdict || state is AwaitPicture {
        1
    } else {
        0
    }
}

/// The codec is asked for at most one picture per packet: a run of the loop
/// emits no more pictures than it submits packets, counting a packet that
/// was pending when the run began.
pub proof fn lemma_at_most_one_picture_per_packet(state: DecodeState, events: Seq<DecodeEvent>)
    ensures
        pictures_emitted(state, events) <= packets_submitted(state, events).len()
            + packets_pending(state),
    decreases events.len(),
{
    if events.len() > 0 {
        lemma_at_most_one_picture_per_packet(next_state(state, events[0]), events.skip(1));
    }
}

} // verus!
