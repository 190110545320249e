//! The frame buffer: bytes in, messages out.

use vstd::prelude::*;
use vstd::slice::slice_to_vec;
use crate::framing::{first_frame, FrameState};
use crate::protocol::{message_view, optional_message_view, Message, ParseHeaderError, Protocol};

verus! {

/// The incremental framer of one connection. It collects the bytes that
/// arrive, in chunks of any size, and hands out the messages they hold, one
/// per call.
pub struct ProtocolBuffer<P: Protocol> {
    pending_header: Option<(P::Commands, usize)>,
    pending_wire: Ghost<Seq<u8>>,
    assembled_payload: Vec<u8>,
    staging: Vec<u8>,
    busy_state: P::BusyStates,
}

impl<P: Protocol> View for ProtocolBuffer<P> {
    type V = FrameState<P>;

    closed spec fn view(&self) -> FrameState<P> {
        FrameState {
            pending_header: self.pending_header,
            pending_wire: self.pending_wire@,
            assembled_payload: self.assembled_payload@,
            staging: self.staging@,
            busy_state: self.busy_state,
        }
    }
}

impl<P: Protocol> ProtocolBuffer<P> {
    /// Whether the buffer is in a state that its operations leave it in.
    pub open spec fn wf(&self) -> bool {
        self@.wf()
    }

    /// A buffer that has seen no byte, in the protocol's idle busy state.
    pub fn new() -> (buffer: Self)
        ensures
            buffer@ == FrameState::<P>::initial(),
            buffer.wf(),
    {
        ProtocolBuffer {
            pending_header: None,
            pending_wire: Ghost(Seq::empty()),
            assembled_payload: Vec::new(),
            staging: Vec::new(),
            busy_state: P::idle(),
        }
    }

    /// Records the busy state that the application reports. The bytes held
    /// are not touched.
    pub fn update_busy_state(&mut self, busy_state: P::BusyStates)
        ensures
            final(self)@ == old(self)@.with_busy_state(busy_state),
    {
        self.busy_state = busy_state;
    }

    /// The busy state that was reported last.
    pub fn get_busy_state(&self) -> (busy_state: &P::BusyStates)
        ensures
            *busy_state == self@.busy_state,
    {
        &self.busy_state
    }

    /// The command and the payload length of the message being assembled.
    pub fn pending_header(&self) -> (pending: Option<(P::Commands, usize)>)
        ensures
            pending == self@.pending_header,
    {
        self.pending_header
    }

    /// The payload bytes collected so far for the message being assembled.
    pub fn assembled_payload(&self) -> (bytes: &[u8])
        ensures
            bytes@ == self@.assembled_payload,
    {
        self.assembled_payload.as_slice()
    }

    /// The bytes that have arrived and are not consumed yet.
    pub fn staging(&self) -> (bytes: &[u8])
        ensures
            bytes@ == self@.staging,
    {
        self.staging.as_slice()
    }

    /// Takes in `incoming` and hands out the next complete message, if the
    /// bytes held now contain one. At most one message leaves per call; what
    /// follows it stays staged, and a call with an empty slice fetches the
    /// next. A header that the protocol rejects is handed back with the
    /// reason; the buffer then holds `incoming` staged and is otherwise
    /// unchanged, so that every later call meets the same header.
    ///
    /// The first clause tells the call step by step. The second tells it over
    /// the bytes alone: the message that leaves is the first of the stream
    /// and no other byte is lost, doubled or reordered. The last two say in
    /// what shape a call that emits nothing leaves the buffer.
    pub fn try_process_new_buffer(&mut self, incoming: &[u8]) -> (result: Result<
        Option<Message<P>>,
        (ParseHeaderError, P::HeaderArray),
    >)
        requires
            old(self).wf(),
        ensures
            final(self).wf(),
            match old(self)@.step(incoming@) {
                Ok((next, emitted)) => {
                    &&& result matches Ok(message)
                    &&& optional_message_view::<P>(message) == emitted
                    &&& final(self)@ == next
                },
                Err(reason) => {
                    &&& result matches Err(rejected)
                    &&& rejected.0 == reason
                    &&& P::header_bytes(rejected.1) == (old(self)@.staging + incoming@).take(
                        P::header_len() as int,
                    )
                    &&& final(self)@ == old(self)@.stage(incoming@)
                },
            },
            match first_frame::<P>(old(self)@.unconsumed() + incoming@) {
                Some((frame, used)) => {
                    &&& result matches Ok(Some(message))
                    &&& message_view::<P>(message) == frame
                    &&& final(self)@.unconsumed() == (old(self)@.unconsumed() + incoming@).skip(
                        used,
                    )
                },
                None => {
                    &&& !(result matches Ok(Some(_)))
                    &&& final(self)@.unconsumed() == old(self)@.unconsumed() + incoming@
                },
            },
            result matches Ok(None) ==> final(self)@.is_settled(),
            result matches Ok(None) && final(self)@.pending_header is None
                ==> final(self)@.staging.len() < P::header_len(),
    {
        let ghost before = self@;
        proof {
            before.lemma_step_takes_first_frame(incoming@);
            if before.step(incoming@) is Ok {
                before.lemma_step_preserves_wf(incoming@);
            }
            if first_frame::<P>(before.unconsumed() + incoming@) is None {
                FrameState::<P>::lemma_settled_holds(
                    before.unconsumed() + incoming@,
                    before.busy_state,
                );
            } else {
                let used = first_frame::<P>(before.unconsumed() + incoming@).unwrap().1;
                assert(FrameState::<P>::resting(
                    (before.unconsumed() + incoming@).skip(used),
                    before.busy_state,
                ).unconsumed() =~= (before.unconsumed() + incoming@).skip(used));
            }
        }
        self.staging.extend_from_slice(incoming);
        assert(self.staging@ == before.staging + incoming@);
        if self.pending_header.is_none() {
            match P::message_slice_to_header_array(self.staging.as_slice()) {
                None => {
                    return Ok(None);
                },
                Some((header, remainder)) => {
                    let rest = slice_to_vec(remainder);
                    let ghost wire = P::header_bytes(header);
                    match P::parse_header(header) {
                        Ok(announced) => {
                            self.pending_header = Some(announced);
                            self.pending_wire = Ghost(wire);
                            self.staging = rest;
                        },
                        Err(rejected) => {
                            return Err(rejected);
                        },
                    }
                },
            }
        }
        let (command, length) = self.pending_header.unwrap();
        let need = length - self.assembled_payload.len();
        if self.staging.len() < need {
            self.assembled_payload.append(&mut self.staging);
            Ok(None)
        } else {
            let mut leftover = self.staging.split_off(need);
            let mut payload = Vec::new();
            payload.append(&mut self.assembled_payload);
            payload.append(&mut self.staging);
            self.staging.append(&mut leftover);
            self.pending_header = None;
            self.pending_wire = Ghost(Seq::empty());
            Ok(Some((command, payload)))
        }
    }

    /// Takes in `incoming` and hands out the next complete message, if the
    /// bytes held now contain one: `try_process_new_buffer` for a caller who
    /// knows that the header which is due, if any, is one the protocol accepts.
    pub fn process_new_buffer(&mut self, incoming: &[u8]) -> (emitted: Option<Message<P>>)
        requires
            old(self).wf(),
            old(self)@.step(incoming@) is Ok,
        ensures
            final(self).wf(),
            final(self)@ == old(self)@.step(incoming@)->Ok_0.0,
            optional_message_view::<P>(emitted) == old(self)@.step(incoming@)->Ok_0.1,
            match first_frame::<P>(old(self)@.unconsumed() + incoming@) {
                Some((frame, used)) => {
                    &&& emitted matches Some(message)
                    &&& message_view::<P>(message) == frame
                    &&& final(self)@.unconsumed() == (old(self)@.unconsumed() + incoming@).skip(
                        used,
                    )
                },
                None => {
                    &&& emitted is None
                    &&& final(self)@.unconsumed() == old(self)@.unconsumed() + incoming@
                },
            },
            emitted is None ==> final(self)@.is_settled(),
            emitted is None && final(self)@.pending_header is None ==> final(self)@.staging.len()
                < P::header_len(),
    {
        match self.try_process_new_buffer(incoming) {
            Ok(emitted) => emitted,
            Err(_) => None,
        }
    }
}

} // verus!
