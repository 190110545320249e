//! The mathematical model of the frame buffer.

use vstd::prelude::*;
use crate::protocol::{Frame, ParseHeaderError, Protocol};

verus! {

/// What a frame buffer holds.
pub struct FrameState<P: Protocol> {
    /// The command and the payload length of the message being assembled.
    pub pending_header: Option<(P::Commands, usize)>,
    /// The header bytes from which `pending_header` was read; empty when there
    /// is none.
    pub pending_wire: Seq<u8>,
    /// The payload bytes collected so far for the message being assembled.
    pub assembled_payload: Seq<u8>,
    /// The bytes that have arrived and are not consumed yet.
    pub staging: Seq<u8>,
    /// The busy state that the application reported last.
    pub busy_state: P::BusyStates,
}

impl<P: Protocol> FrameState<P> {
    /// The state of a buffer that has seen no byte.
    pub open spec fn initial() -> Self {
        FrameState {
            pending_header: None,
            pending_wire: Seq::empty(),
            assembled_payload: Seq::empty(),
            staging: Seq::empty(),
            busy_state: P::spec_idle(),
        }
    }

    /// What holds of every buffer between two calls: while a header is
    /// pending, the payload collected for it is shorter than announced, no
    /// byte is staged, and the recorded header bytes are those it was read
    /// from; while none is pending, nothing is collected.
    pub open spec fn wf(self) -> bool {
        match self.pending_header {
            Some(announced) => {
                &&& self.assembled_payload.len() < announced.1
                &&& self.staging.len() == 0
                &&& self.pending_wire.len() == P::header_len()
                &&& P::spec_parse_header(self.pending_wire) == Ok::<
                    (P::Commands, usize),
                    ParseHeaderError,
                >(announced)
            },
            None => self.assembled_payload.len() == 0 && self.pending_wire.len() == 0,
        }
    }

    /// The bytes that arrived and are not yet part of an emitted message, in
    /// the order of their arrival: the pending header, the payload collected
    /// for it, and the staged bytes. Each byte of the stream that was not
    /// emitted stands in exactly one of the three.
    pub open spec fn unconsumed(self) -> Seq<u8> {
        self.pending_wire + self.assembled_payload + self.staging
    }

    /// The same buffer with another busy state.
    pub open spec fn with_busy_state(self, busy_state: P::BusyStates) -> Self {
        FrameState { busy_state, ..self }
    }

    /// The same buffer with `incoming` appended to the staged bytes.
    pub open spec fn stage(self, incoming: Seq<u8>) -> Self {
        FrameState { staging: self.staging + incoming, ..self }
    }

    /// Moves staged bytes toward the payload of the header `announced`, read
    /// from `wire`: all of them if the payload stays incomplete, else as many
    /// as complete it, and the message is emitted.
    pub open spec fn fill(
        self,
        announced: (P::Commands, usize),
        wire: Seq<u8>,
        assembled: Seq<u8>,
        staged: Seq<u8>,
    ) -> (Self, Option<Frame<P>>) {
        let need = announced.1 - assembled.len();
        if staged.len() < need {
            (
                FrameState {
                    pending_header: Some(announced),
                    pending_wire: wire,
                    assembled_payload: assembled + staged,
                    staging: Seq::empty(),
                    busy_state: self.busy_state,
                },
                None,
            )
        } else {
            (
                FrameState {
                    pending_header: None,
                    pending_wire: Seq::empty(),
                    assembled_payload: Seq::empty(),
                    staging: staged.skip(need),
                    busy_state: self.busy_state,
                },
                Some((announced.0, assembled + staged.take(need))),
            )
        }
    }

    /// One call of the framer on `incoming`: the next state and the message it
    /// emits, or the reason for which the header that is due is rejected.
    pub open spec fn step(self, incoming: Seq<u8>) -> Result<
        (Self, Option<Frame<P>>),
        ParseHeaderError,
    > {
        let staged = self.staging + incoming;
        let header_len = P::header_len() as int;
        match self.pending_header {
            Some(announced) => Ok(
                self.fill(announced, self.pending_wire, self.assembled_payload, staged),
            ),
            None => if staged.len() < header_len {
                Ok((self.stage(incoming), None))
            } else {
                match P::spec_parse_header(staged.take(header_len)) {
                    Ok(announced) => Ok(
                        self.fill(
                            announced,
                            staged.take(header_len),
                            Seq::empty(),
                            staged.skip(header_len),
                        ),
                    ),
                    Err(reason) => Err(reason),
                }
            },
        }
    }

    /// The state of a buffer that holds `bytes`, all of them staged.
    pub open spec fn resting(bytes: Seq<u8>, busy_state: P::BusyStates) -> Self {
        FrameState {
            pending_header: None,
            pending_wire: Seq::empty(),
            assembled_payload: Seq::empty(),
            staging: bytes,
            busy_state,
        }
    }

    /// The state of a buffer that holds `bytes`, none of which completes a
    /// message, after a call that emitted nothing: a header that is complete
    /// and accepted is pending, with what follows it collected as payload.
    pub open spec fn settled(bytes: Seq<u8>, busy_state: P::BusyStates) -> Self {
        let header_len = P::header_len() as int;
        if bytes.len() >= header_len && P::spec_parse_header(bytes.take(header_len)) is Ok {
            FrameState {
                pending_header: Some(P::spec_parse_header(bytes.take(header_len))->Ok_0),
                pending_wire: bytes.take(header_len),
                assembled_payload: bytes.skip(header_len),
                staging: Seq::empty(),
                busy_state,
            }
        } else {
            Self::resting(bytes, busy_state)
        }
    }

    /// A call with `incoming`, followed by calls with an empty slice until no
    /// message comes: the state it ends in and the messages emitted, in order.
    pub open spec fn feed(self, incoming: Seq<u8>) -> (Self, Seq<Frame<P>>)
        decreases self.unconsumed().len() + incoming.len(),
        when self.wf()
    {
        match self.step(incoming) {
            Ok((next, Some(frame))) => {
                proof {
                    P::lemma_header_len_positive();
                }
                let (last, more) = next.feed(Seq::empty());
                (last, seq![frame] + more)
            },
            Ok((next, None)) => (next, Seq::empty()),
            Err(_) => (self.stage(incoming), Seq::empty()),
        }
    }

    /// `feed` for each chunk in turn: the state it ends in and all messages
    /// emitted on the way, in order.
    pub open spec fn feed_all(self, chunks: Seq<Seq<u8>>) -> (Self, Seq<Frame<P>>)
        decreases chunks.len(),
    {
        if chunks.len() == 0 {
            (self, Seq::empty())
        } else {
            let (middle, before) = self.feed_all(chunks.drop_last());
            let (last, now) = middle.feed(chunks.last());
            (last, before + now)
        }
    }

    /// A call of the framer, told over the bytes alone. Let the stream be the
    /// unconsumed bytes followed by `incoming`. If the stream starts with a
    /// complete message, exactly that message is emitted and all that follows
    /// it stays, staged. Otherwise nothing is emitted and no byte is lost: the
    /// call fails if the stream starts with a rejected header, and else ends
    /// in the settled state of the stream.
    pub proof fn lemma_step_takes_first_frame(self, incoming: Seq<u8>)
        requires
            self.wf(),
        ensures
            match first_frame::<P>(self.unconsumed() + incoming) {
                Some((frame, used)) => self.step(incoming) == Ok::<
                    (Self, Option<Frame<P>>),
                    ParseHeaderError,
                >(
                    (
                        Self::resting(
                            (self.unconsumed() + incoming).skip(used),
                            self.busy_state,
                        ),
                        Some(frame),
                    ),
                ),
                None => if starts_with_rejected_header::<P>(self.unconsumed() + incoming) {
                    &&& self.step(incoming) is Err
                    &&& self.step(incoming)->Err_0 == P::spec_parse_header(
                        (self.unconsumed() + incoming).take(P::header_len() as int),
                    )->Err_0
                    &&& self.stage(incoming) == Self::resting(
                        self.unconsumed() + incoming,
                        self.busy_state,
                    )
                } else {
                    self.step(incoming) == Ok::<(Self, Option<Frame<P>>), ParseHeaderError>(
                        (Self::settled(self.unconsumed() + incoming, self.busy_state), None),
                    )
                },
            },
    {
        let stream = self.unconsumed() + incoming;
        let staged = self.staging + incoming;
        let header_len = P::header_len() as int;
        match self.pending_header {
            Some(announced) => {
                let need = announced.1 - self.assembled_payload.len();
                assert(stream.take(header_len) =~= self.pending_wire);
                if staged.len() < need {
                    assert(stream.skip(header_len) =~= self.assembled_payload + staged);
                } else {
                    assert(stream.subrange(header_len, header_len + announced.1)
                        =~= self.assembled_payload + staged.take(need));
                    assert(stream.skip(header_len + announced.1) =~= staged.skip(need));
                }
            },
            None => {
                assert(self.pending_wire =~= Seq::empty());
                assert(self.assembled_payload =~= Seq::empty());
                assert(stream =~= staged);
                if staged.len() >= header_len {
                    match P::spec_parse_header(staged.take(header_len)) {
                        Ok(announced) => {
                            let body = staged.skip(header_len);
                            if body.len() < announced.1 {
                                assert(Seq::<u8>::empty() + body =~= body);
                            } else {
                                assert(Seq::<u8>::empty() + body.take(announced.1 as int)
                                    =~= stream.subrange(header_len, header_len + announced.1));
                                assert(body.skip(announced.1 as int) =~= stream.skip(
                                    header_len + announced.1,
                                ));
                            }
                        },
                        Err(_) => {},
                    }
                }
            },
        }
    }

    /// Feeding, told over the bytes alone: the messages emitted are the
    /// complete messages of the stream, in order, and the buffer ends in the
    /// settled state of what the stream holds behind them.
    pub proof fn lemma_feed_is_frames(self, incoming: Seq<u8>)
        requires
            self.wf(),
        ensures
            self.feed(incoming).1 == frames::<P>(self.unconsumed() + incoming),
            self.feed(incoming).0 == Self::settled(
                remainder::<P>(self.unconsumed() + incoming),
                self.busy_state,
            ),
            self.feed(incoming).0.wf(),
            self.feed(incoming).0.unconsumed() == remainder::<P>(self.unconsumed() + incoming),
            first_frame::<P>(self.feed(incoming).0.unconsumed()) is None,
        decreases self.unconsumed().len() + incoming.len(),
    {
        let stream = self.unconsumed() + incoming;
        P::lemma_header_len_positive();
        self.lemma_step_takes_first_frame(incoming);
        match first_frame::<P>(stream) {
            Some((frame, used)) => {
                let next = Self::resting(stream.skip(used), self.busy_state);
                assert(next.unconsumed() =~= stream.skip(used));
                assert(next.unconsumed() + Seq::<u8>::empty() =~= stream.skip(used));
                next.lemma_feed_is_frames(Seq::empty());
            },
            None => {
                Self::lemma_settled_holds(stream, self.busy_state);
            },
        }
    }

    /// The settled state of bytes that start with no complete message is
    /// well-formed and holds exactly those bytes.
    pub proof fn lemma_settled_holds(bytes: Seq<u8>, busy_state: P::BusyStates)
        requires
            first_frame::<P>(bytes) is None,
        ensures
            Self::settled(bytes, busy_state).wf(),
            Self::settled(bytes, busy_state).unconsumed() == bytes,
            Self::resting(bytes, busy_state).wf(),
            Self::resting(bytes, busy_state).unconsumed() == bytes,
    {
        let header_len = P::header_len() as int;
        assert(Self::resting(bytes, busy_state).unconsumed() =~= bytes);
        if bytes.len() >= header_len {
            assert(bytes.take(header_len) + bytes.skip(header_len) =~= bytes);
            assert(Self::settled(bytes, busy_state).unconsumed() =~= bytes);
        }
    }

    /// Whether the buffer is in a state that a call which emitted nothing
    /// leaves it in: well-formed, and with every complete and accepted header
    /// taken off the staged bytes.
    pub open spec fn is_settled(self) -> bool {
        self.wf() && self == Self::settled(self.unconsumed(), self.busy_state)
    }

    /// A settled buffer holds no complete message.
    pub proof fn lemma_settled_is_drained(self)
        requires
            self.is_settled(),
        ensures
            first_frame::<P>(self.unconsumed()) is None,
            frames::<P>(self.unconsumed()) == Seq::<Frame<P>>::empty(),
            remainder::<P>(self.unconsumed()) == self.unconsumed(),
    {
        let bytes = self.unconsumed();
        let header_len = P::header_len() as int;
        if self.pending_header is Some {
            assert(bytes.take(header_len) =~= self.pending_wire);
        } else {
            assert(bytes =~= self.staging);
        }
    }

    /// Feeding chunk after chunk, told over the bytes alone: from a settled
    /// buffer, the messages emitted are the complete messages of the stream
    /// that the unconsumed bytes and the chunks make up, in order, and the
    /// buffer ends in the settled state of what the stream holds behind them.
    pub proof fn lemma_feed_all_is_frames(self, chunks: Seq<Seq<u8>>)
        requires
            self.is_settled(),
        ensures
            self.feed_all(chunks).1 == frames::<P>(self.unconsumed() + concat(chunks)),
            self.feed_all(chunks).0 == Self::settled(
                remainder::<P>(self.unconsumed() + concat(chunks)),
                self.busy_state,
            ),
            self.feed_all(chunks).0.is_settled(),
            self.feed_all(chunks).0.unconsumed() == remainder::<P>(
                self.unconsumed() + concat(chunks),
            ),
        decreases chunks.len(),
    {
        if chunks.len() == 0 {
            assert(self.unconsumed() + concat(chunks) =~= self.unconsumed());
            self.lemma_settled_is_drained();
        } else {
            let earlier = chunks.drop_last();
            self.lemma_feed_all_is_frames(earlier);
            let (middle, before) = self.feed_all(earlier);
            middle.lemma_feed_is_frames(chunks.last());
            lemma_frames_of_extended_stream::<P>(
                self.unconsumed() + concat(earlier),
                chunks.last(),
            );
            assert((self.unconsumed() + concat(earlier)) + chunks.last() =~= self.unconsumed()
                + concat(chunks));
        }
    }

    /// What a buffer emits and where it ends depends on the bytes it is fed,
    /// not on how they are cut into chunks.
    pub proof fn lemma_chunking_is_irrelevant(self, one: Seq<Seq<u8>>, other: Seq<Seq<u8>>)
        requires
            self.is_settled(),
            concat(one) == concat(other),
        ensures
            self.feed_all(one) == self.feed_all(other),
    {
        self.lemma_feed_all_is_frames(one);
        self.lemma_feed_all_is_frames(other);
    }

    /// Whatever was constructed comes out again: when the chunks fed to a
    /// fresh buffer make up the wire images of `messages`, one after the
    /// other, the buffer emits exactly `messages`, in order, and ends as it
    /// began.
    pub proof fn lemma_framer_is_complete(messages: Seq<Frame<P>>, chunks: Seq<Seq<u8>>)
        requires
            constructible::<P>(messages),
            concat(chunks) == wire_image::<P>(messages),
        ensures
            Self::initial().feed_all(chunks) == (Self::initial(), messages),
    {
        let start = Self::initial();
        P::lemma_header_len_positive();
        assert(start.unconsumed() =~= Seq::<u8>::empty());
        assert(start == Self::settled(Seq::empty(), start.busy_state));
        start.lemma_feed_all_is_frames(chunks);
        lemma_frames_of_wire_image::<P>(messages);
        assert(start.unconsumed() + concat(chunks) =~= wire_image::<P>(messages));
    }

    /// A call of the framer keeps a well-formed buffer well-formed.
    pub proof fn lemma_step_preserves_wf(self, incoming: Seq<u8>)
        requires
            self.wf(),
            self.step(incoming) is Ok,
        ensures
            self.step(incoming).unwrap().0.wf(),
    {
    }
}

/// The message that `stream` starts with and the number of bytes it takes
/// on the wire, if `stream` starts with a complete message.
pub open spec fn first_frame<P: Protocol>(stream: Seq<u8>) -> Option<(Frame<P>, int)> {
    let header_len = P::header_len() as int;
    if stream.len() < header_len {
        None
    } else {
        match P::spec_parse_header(stream.take(header_len)) {
            Ok(announced) => if stream.len() < header_len + announced.1 {
                None
            } else {
                Some(
                    (
                        (announced.0, stream.subrange(header_len, header_len + announced.1)),
                        header_len + announced.1,
                    ),
                )
            },
            Err(_) => None,
        }
    }
}

/// The complete messages that `stream` holds, in order: up to its end, or up
/// to the first header that the protocol rejects.
pub open spec fn frames<P: Protocol>(stream: Seq<u8>) -> Seq<Frame<P>>
    decreases stream.len(),
{
    match first_frame::<P>(stream) {
        Some((frame, used)) => {
            proof {
                P::lemma_header_len_positive();
            }
            seq![frame] + frames::<P>(stream.skip(used))
        },
        None => Seq::empty(),
    }
}

/// What is left of `stream` behind its complete messages.
pub open spec fn remainder<P: Protocol>(stream: Seq<u8>) -> Seq<u8>
    decreases stream.len(),
{
    match first_frame::<P>(stream) {
        Some((frame, used)) => {
            proof {
                P::lemma_header_len_positive();
            }
            remainder::<P>(stream.skip(used))
        },
        None => stream,
    }
}

/// Whether `stream` starts with a header that the protocol rejects.
pub open spec fn starts_with_rejected_header<P: Protocol>(stream: Seq<u8>) -> bool {
    stream.len() >= P::header_len() && P::spec_parse_header(stream.take(P::header_len() as int))
        is Err
}

/// The bytes that chunks make up, one after the other.
pub open spec fn concat(chunks: Seq<Seq<u8>>) -> Seq<u8>
    decreases chunks.len(),
{
    if chunks.len() == 0 {
        Seq::empty()
    } else {
        concat(chunks.drop_last()) + chunks.last()
    }
}

/// Whether the protocol can construct each of `messages`.
pub open spec fn constructible<P: Protocol>(messages: Seq<Frame<P>>) -> bool {
    forall|i: int|
        0 <= i < messages.len() ==> P::spec_construct_message(
            (#[trigger] messages[i]).0,
            messages[i].1,
        ) is Some
}

/// The bytes that a peer writes who constructs each of `messages` and sends
/// them in order.
pub open spec fn wire_image<P: Protocol>(messages: Seq<Frame<P>>) -> Seq<u8>
    decreases messages.len(),
{
    if messages.len() == 0 {
        Seq::empty()
    } else {
        wire_image::<P>(messages.drop_last()) + P::spec_construct_message(
            messages.last().0,
            messages.last().1,
        ).unwrap()
    }
}

/// Bytes that follow a complete message do not change it.
pub proof fn lemma_first_frame_of_extended_stream<P: Protocol>(stream: Seq<u8>, more: Seq<u8>)
    requires
        first_frame::<P>(stream) is Some,
    ensures
        first_frame::<P>(stream + more) == first_frame::<P>(stream),
        (stream + more).skip(first_frame::<P>(stream).unwrap().1) == stream.skip(
            first_frame::<P>(stream).unwrap().1,
        ) + more,
{
    let header_len = P::header_len() as int;
    let used = first_frame::<P>(stream).unwrap().1;
    assert((stream + more).take(header_len) =~= stream.take(header_len));
    assert((stream + more).subrange(header_len, used) =~= stream.subrange(header_len, used));
    assert((stream + more).skip(used) =~= stream.skip(used) + more);
}

/// Framing a stream that grows: the messages of the longer stream are those
/// of the shorter one, followed by those that the new bytes complete.
pub proof fn lemma_frames_of_extended_stream<P: Protocol>(stream: Seq<u8>, more: Seq<u8>)
    ensures
        frames::<P>(stream + more) == frames::<P>(stream) + frames::<P>(
            remainder::<P>(stream) + more,
        ),
        remainder::<P>(stream + more) == remainder::<P>(remainder::<P>(stream) + more),
    decreases stream.len(),
{
    P::lemma_header_len_positive();
    match first_frame::<P>(stream) {
        Some((frame, used)) => {
            lemma_first_frame_of_extended_stream::<P>(stream, more);
            lemma_frames_of_extended_stream::<P>(stream.skip(used), more);
            let tail = stream.skip(used);
            assert(seq![frame] + (frames::<P>(tail) + frames::<P>(remainder::<P>(tail) + more))
                =~= (seq![frame] + frames::<P>(tail)) + frames::<P>(
                remainder::<P>(tail) + more,
            ));
        },
        None => {
            assert(Seq::<Frame<P>>::empty() + frames::<P>(stream + more) =~= frames::<P>(
                stream + more,
            ));
        },
    }
}

/// The wire image of one constructed message frames to that message, with
/// nothing left over.
pub proof fn lemma_frames_of_constructed_message<P: Protocol>(
    command: P::Commands,
    payload: Seq<u8>,
)
    requires
        P::spec_construct_message(command, payload) is Some,
    ensures
        frames::<P>(P::spec_construct_message(command, payload).unwrap()) == seq![
            (command, payload),
        ],
        remainder::<P>(P::spec_construct_message(command, payload).unwrap()) == Seq::<
            u8,
        >::empty(),
{
    let wire = P::spec_construct_message(command, payload).unwrap();
    let header_len = P::header_len() as int;
    P::lemma_header_len_positive();
    P::lemma_construct_then_parse(command, payload);
    assert(wire.subrange(header_len, header_len + payload.len()) =~= wire.skip(header_len));
    assert(wire.skip(header_len + payload.len()) =~= Seq::<u8>::empty());
    assert(first_frame::<P>(wire) == Some(((command, payload), header_len + payload.len())));
    let tail = wire.skip(header_len + payload.len());
    assert(first_frame::<P>(tail) is None);
    assert(frames::<P>(tail) == Seq::<Frame<P>>::empty());
    assert(remainder::<P>(tail) == tail);
    assert(seq![(command, payload)] + Seq::<Frame<P>>::empty() =~= seq![(command, payload)]);
}

/// The wire images of constructed messages, one after the other, frame to
/// those messages, in order, with nothing left over.
pub proof fn lemma_frames_of_wire_image<P: Protocol>(messages: Seq<Frame<P>>)
    requires
        constructible::<P>(messages),
    ensures
        frames::<P>(wire_image::<P>(messages)) == messages,
        remainder::<P>(wire_image::<P>(messages)) == Seq::<u8>::empty(),
    decreases messages.len(),
{
    P::lemma_header_len_positive();
    if messages.len() == 0 {
        assert(first_frame::<P>(Seq::<u8>::empty()) is None);
        assert(messages =~= Seq::<Frame<P>>::empty());
    } else {
        let earlier = messages.drop_last();
        let last = messages.last();
        assert forall|i: int| 0 <= i < earlier.len() implies P::spec_construct_message(
            (#[trigger] earlier[i]).0,
            earlier[i].1,
        ) is Some by {
            assert(earlier[i] == messages[i]);
        }
        lemma_frames_of_wire_image::<P>(earlier);
        let wire = P::spec_construct_message(last.0, last.1).unwrap();
        lemma_frames_of_constructed_message::<P>(last.0, last.1);
        lemma_frames_of_extended_stream::<P>(wire_image::<P>(earlier), wire);
        assert(Seq::<u8>::empty() + wire =~= wire);
        assert(earlier + seq![last] =~= messages);
    }
}

} // verus!
