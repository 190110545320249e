//! The reader of an endpoint: the decisions of the background worker that
//! owns one handle of the socket, drives the frame buffer and serves the
//! control channels. The worker itself touches neither socket nor channel: it
//! names the next thing to do, and is told how that went.

use vstd::prelude::*;
use crate::framing::{first_frame, frames, FrameState};
use crate::protocol::{message_view, Frame, Message, Protocol};
use crate::protocol_buffer::ProtocolBuffer;
use crate::tcp_ipc::{Polled, ReadThreadErrorsInternal, TcpIpcConfig};

verus! {

/// What the worker waits to be told.
#[derive(Debug, Clone, Copy, PartialEq, Eq)]
pub enum Phase {
    /// That it was started.
    Created,
    /// What the shutdown channel held.
    PollingShutdown,
    /// What the channel of busy state queries held.
    PollingBusyStateQuery,
    /// Whether its answer to a busy state query was taken.
    AnsweringBusyStateQuery,
    /// What the channel of busy state updates held.
    PollingBusyStateUpdate,
    /// What the socket gave.
    Reading,
    /// Whether the socket took an immediate reply.
    Writing,
    /// Whether the handle's channel took a message, or a report made while
    /// messages are being handed out.
    Posting,
    /// Whether the handle's channel took the report of a failed read.
    PostingReadError,
    /// That the pause at the end of an iteration is over.
    Sleeping,
    /// Nothing: the worker has ended.
    Finished,
}

/// How a read of the socket went.
#[derive(Debug)]
pub enum ReadOutcome<'a> {
    /// These bytes were read; none, if the socket had none to give.
    Data(&'a [u8]),
    /// The socket had nothing ready.
    WouldBlock,
    /// The read failed.
    Failed(std::io::Error),
}

/// How the thing went that the worker named last.
#[derive(Debug)]
pub enum WorkerEvent<'a, P: Protocol> {
    /// The worker was started.
    Started,
    /// The shutdown channel was looked at.
    ShutdownPolled(Polled<()>),
    /// The channel of busy state queries was looked at.
    BusyStateQueryPolled(Polled<()>),
    /// The answer to a busy state query was sent; `true` if it was taken.
    BusyStateQueryAnswered(bool),
    /// The channel of busy state updates was looked at.
    BusyStateUpdatePolled(Polled<P::BusyStates>),
    /// The socket was read.
    ReadCompleted(ReadOutcome<'a>),
    /// The socket was written; `None` if it took the bytes.
    WriteCompleted(Option<std::io::Error>),
    /// A message or a report was sent to the handle; `true` if it was taken.
    Posted(bool),
    /// The pause is over.
    Slept,
}

/// The next thing to do.
#[derive(Debug)]
pub enum WorkerAction<P: Protocol> {
    /// Look at the shutdown channel, without waiting.
    PollShutdown,
    /// Look at the channel of busy state queries, without waiting.
    PollBusyStateQuery,
    /// Send this busy state in answer to a query.
    AnswerBusyStateQuery(P::BusyStates),
    /// Look at the channel of busy state updates, without waiting.
    PollBusyStateUpdate,
    /// Read the socket, without waiting.
    Read,
    /// Write this immediate reply to the socket.
    Write(Vec<u8>),
    /// Send this message to the handle.
    Deliver(Message<P>),
    /// Send this report to the handle.
    Report(ReadThreadErrorsInternal<P>),
    /// Pause for this long.
    Sleep(std::time::Duration),
    /// Stop: the worker has ended.
    Finish,
}

/// The next thing to do, as a mathematical value. The busy state of an
/// answer is left out: the answer is a clone.
pub enum ActionView<P: Protocol> {
    PollShutdown,
    PollBusyStateQuery,
    AnswerBusyStateQuery,
    PollBusyStateUpdate,
    Read,
    Write(Seq<u8>),
    Deliver(Frame<P>),
    ReportWriteError(std::io::Error),
    ReportReadError(std::io::Error),
    ReportConstructError(Frame<P>),
    Sleep(std::time::Duration),
    Finish,
}

impl<P: Protocol> View for WorkerAction<P> {
    type V = ActionView<P>;

    open spec fn view(&self) -> ActionView<P> {
        match *self {
            WorkerAction::PollShutdown => ActionView::PollShutdown,
            WorkerAction::PollBusyStateQuery => ActionView::PollBusyStateQuery,
            WorkerAction::AnswerBusyStateQuery(_) => ActionView::AnswerBusyStateQuery,
            WorkerAction::PollBusyStateUpdate => ActionView::PollBusyStateUpdate,
            WorkerAction::Read => ActionView::Read,
            WorkerAction::Write(bytes) => ActionView::Write(bytes@),
            WorkerAction::Deliver(message) => ActionView::Deliver(message_view::<P>(message)),
            WorkerAction::Report(ReadThreadErrorsInternal::WriteError(error)) => {
                ActionView::ReportWriteError(error)
            },
            WorkerAction::Report(ReadThreadErrorsInternal::ReadError(error)) => {
                ActionView::ReportReadError(error)
            },
            WorkerAction::Report(
                ReadThreadErrorsInternal::ImmediateMessageConstructError(reply),
            ) => ActionView::ReportConstructError(message_view::<P>(reply)),
            WorkerAction::Sleep(duration) => ActionView::Sleep(duration),
            WorkerAction::Finish => ActionView::Finish,
        }
    }
}

/// What a worker holds.
pub struct WorkerState<P: Protocol> {
    /// What the worker waits to be told.
    pub phase: Phase,
    /// The iterations begun since the control channels were last looked at.
    pub counter: u32,
    /// The time settings.
    pub config: TcpIpcConfig,
    /// The frame buffer.
    pub buffer: FrameState<P>,
}

impl<P: Protocol> WorkerState<P> {
    /// A worker that has not been started.
    pub open spec fn initial(config: TcpIpcConfig) -> Self {
        WorkerState { phase: Phase::Created, counter: 0, config, buffer: FrameState::initial() }
    }

    /// The same worker, ended.
    pub open spec fn finished(self) -> Self {
        WorkerState { phase: Phase::Finished, ..self }
    }

    /// The iterations that the worker will begin before the one in which it
    /// looks at its control channels.
    pub open spec fn iterations_before_service(self) -> nat {
        if self.counter + 1 >= self.config.check_count {
            0
        } else {
            (self.config.check_count - 1 - self.counter) as nat
        }
    }

    /// The beginning of an iteration: the control channels are due in every
    /// `check_count`-th, the shutdown channel first; in the others the socket
    /// is read at once.
    pub open spec fn begin_iteration(self) -> (Self, ActionView<P>) {
        if self.counter + 1 >= self.config.check_count {
            (
                WorkerState { phase: Phase::PollingShutdown, counter: 0, ..self },
                ActionView::PollShutdown,
            )
        } else {
            (
                WorkerState { phase: Phase::Reading, counter: (self.counter + 1) as u32, ..self },
                ActionView::Read,
            )
        }
    }

    /// The end of an iteration: the pause, if one is set, else the next
    /// iteration at once.
    pub open spec fn end_iteration(self) -> (Self, ActionView<P>) {
        match self.config.read_iteration_wait_time {
            Some(duration) => (
                WorkerState { phase: Phase::Sleeping, ..self },
                ActionView::Sleep(duration),
            ),
            None => self.begin_iteration(),
        }
    }

    /// What is done with a message that the frame buffer emitted: if the
    /// protocol answers it at once in the given busy state, the reply is
    /// written to the socket, or reported if it cannot be constructed; else
    /// the message goes to the handle.
    pub open spec fn verdict(busy_state: P::BusyStates, frame: Frame<P>) -> ActionView<P> {
        match P::spec_immediate_route(frame.0, frame.1, busy_state) {
            Some(reply) => match P::spec_construct_message(reply.0, reply.1) {
                Some(wire) => ActionView::Write(wire),
                None => ActionView::ReportConstructError(reply),
            },
            None => ActionView::Deliver(frame),
        }
    }

    /// The worker names what is to be done with a message, and waits to be
    /// told how it went.
    pub open spec fn route(self, frame: Frame<P>) -> (Self, ActionView<P>) {
        let action = Self::verdict(self.buffer.busy_state, frame);
        (
            WorkerState {
                phase: if action is Write {
                    Phase::Writing
                } else {
                    Phase::Posting
                },
                ..self
            },
            action,
        )
    }

    /// One call of the frame buffer on `incoming` and what follows from it:
    /// a message is routed, no message ends the iteration, and a rejected
    /// header ends the worker.
    pub open spec fn drain(self, incoming: Seq<u8>) -> (Self, ActionView<P>) {
        match self.buffer.step(incoming) {
            Ok((buffer, Some(frame))) => WorkerState { buffer, ..self }.route(frame),
            Ok((buffer, None)) => WorkerState { buffer, ..self }.end_iteration(),
            Err(_) => (
                WorkerState { buffer: self.buffer.stage(incoming), ..self }.finished(),
                ActionView::Finish,
            ),
        }
    }

    /// The worker's next state and the next thing to do, when `event` tells
    /// how the last went. An event that does not answer the last thing named
    /// ends the worker.
    pub open spec fn next(self, event: WorkerEvent<P>) -> (Self, ActionView<P>) {
        match (self.phase, event) {
            (Phase::Created, WorkerEvent::Started) => self.begin_iteration(),
            (Phase::Sleeping, WorkerEvent::Slept) => self.begin_iteration(),
            (Phase::PollingShutdown, WorkerEvent::ShutdownPolled(Polled::Empty)) => (
                WorkerState { phase: Phase::PollingBusyStateQuery, ..self },
                ActionView::PollBusyStateQuery,
            ),
            (
                Phase::PollingBusyStateQuery,
                WorkerEvent::BusyStateQueryPolled(Polled::Received(_)),
            ) => (
                WorkerState { phase: Phase::AnsweringBusyStateQuery, ..self },
                ActionView::AnswerBusyStateQuery,
            ),
            (Phase::PollingBusyStateQuery, WorkerEvent::BusyStateQueryPolled(Polled::Empty)) => (
                WorkerState { phase: Phase::PollingBusyStateUpdate, ..self },
                ActionView::PollBusyStateUpdate,
            ),
            (Phase::AnsweringBusyStateQuery, WorkerEvent::BusyStateQueryAnswered(true)) => (
                WorkerState { phase: Phase::PollingBusyStateUpdate, ..self },
                ActionView::PollBusyStateUpdate,
            ),
            (
                Phase::PollingBusyStateUpdate,
                WorkerEvent::BusyStateUpdatePolled(Polled::Received(busy_state)),
            ) => (
                WorkerState { buffer: self.buffer.with_busy_state(busy_state), ..self },
                ActionView::PollBusyStateUpdate,
            ),
            (
                Phase::PollingBusyStateUpdate,
                WorkerEvent::BusyStateUpdatePolled(Polled::Empty),
            ) => (WorkerState { phase: Phase::Reading, ..self }, ActionView::Read),
            (Phase::Reading, WorkerEvent::ReadCompleted(ReadOutcome::Data(bytes))) => {
                if bytes@.len() == 0 {
                    self.end_iteration()
                } else {
                    self.drain(bytes@)
                }
            },
            (Phase::Reading, WorkerEvent::ReadCompleted(ReadOutcome::WouldBlock)) => {
                self.end_iteration()
            },
            (Phase::Reading, WorkerEvent::ReadCompleted(ReadOutcome::Failed(error))) => (
                WorkerState { phase: Phase::PostingReadError, ..self },
                ActionView::ReportReadError(error),
            ),
            (Phase::Writing, WorkerEvent::WriteCompleted(None)) => self.drain(Seq::empty()),
            (Phase::Writing, WorkerEvent::WriteCompleted(Some(error))) => (
                WorkerState { phase: Phase::Posting, ..self },
                ActionView::ReportWriteError(error),
            ),
            (Phase::Posting, WorkerEvent::Posted(true)) => self.drain(Seq::empty()),
            (Phase::PostingReadError, WorkerEvent::Posted(true)) => self.end_iteration(),
            _ => (self.finished(), ActionView::Finish),
        }
    }
}

impl<P: Protocol> WorkerState<P> {
    /// The bytes that an event makes the worker hand to the frame buffer, if
    /// it makes it call the frame buffer: those read, if any were read, and
    /// none after a write or a post that went well.
    pub open spec fn framer_input(self, event: WorkerEvent<P>) -> Option<Seq<u8>> {
        match (self.phase, event) {
            (Phase::Reading, WorkerEvent::ReadCompleted(ReadOutcome::Data(bytes))) => {
                if bytes@.len() == 0 {
                    None
                } else {
                    Some(bytes@)
                }
            },
            (Phase::Writing, WorkerEvent::WriteCompleted(None)) => Some(Seq::empty()),
            (Phase::Posting, WorkerEvent::Posted(true)) => Some(Seq::empty()),
            _ => None,
        }
    }

    /// What the worker names, one after the other, while it hands out the
    /// messages that the frame buffer holds once `incoming` is taken in, as
    /// long as every write and every post goes well.
    pub open spec fn handing_out(self, incoming: Seq<u8>) -> Seq<ActionView<P>>
        decreases self.buffer.unconsumed().len() + incoming.len(),
        when self.buffer.wf()
    {
        match self.buffer.step(incoming) {
            Ok((buffer, Some(frame))) => {
                proof {
                    P::lemma_header_len_positive();
                }
                let (next, action) = WorkerState { buffer, ..self }.route(frame);
                seq![action] + next.handing_out(Seq::empty())
            },
            _ => Seq::empty(),
        }
    }

    /// Whenever the worker calls the frame buffer, it goes on as `drain`
    /// says.
    pub proof fn lemma_next_drains(self, event: WorkerEvent<P>)
        requires
            self.framer_input(event) is Some,
        ensures
            self.next(event) == self.drain(self.framer_input(event).unwrap()),
    {
    }

    /// An immediate reply is sent by the worker and kept from the
    /// application. Whenever the bytes held and those coming in start with a
    /// complete message for which the protocol names a reply in the present
    /// busy state, the worker names the write of the constructed reply, or
    /// the report that it cannot be constructed, and keeps the rest of the
    /// stream; it does not name the delivery of the message. A message for
    /// which the protocol names no reply is delivered as it is.
    pub proof fn lemma_immediate_reply(self, incoming: Seq<u8>)
        requires
            self.buffer.wf(),
            first_frame::<P>(self.buffer.unconsumed() + incoming) is Some,
        ensures
            ({
                let (frame, used) = first_frame::<P>(self.buffer.unconsumed() + incoming).unwrap();
                let (next, action) = self.drain(incoming);
                &&& next.buffer.unconsumed() == (self.buffer.unconsumed() + incoming).skip(used)
                &&& next.buffer.busy_state == self.buffer.busy_state
                &&& match P::spec_immediate_route(frame.0, frame.1, self.buffer.busy_state) {
                    Some(reply) => match P::spec_construct_message(reply.0, reply.1) {
                        Some(wire) => action == ActionView::<P>::Write(wire),
                        None => action == ActionView::<P>::ReportConstructError(reply),
                    },
                    None => action == ActionView::<P>::Deliver(frame),
                }
            }),
    {
        let stream = self.buffer.unconsumed() + incoming;
        let used = first_frame::<P>(stream).unwrap().1;
        self.buffer.lemma_step_takes_first_frame(incoming);
        assert(FrameState::<P>::resting(stream.skip(used), self.buffer.busy_state).unconsumed()
            =~= stream.skip(used));
    }

    /// Messages are handled in the order of the stream. While the worker
    /// hands out the messages of one read, the things it names are the
    /// verdicts on the complete messages of the stream, one for each, in
    /// their order on the wire.
    pub proof fn lemma_handing_out_follows_stream(self, incoming: Seq<u8>)
        requires
            self.buffer.wf(),
        ensures
            self.handing_out(incoming) == frames::<P>(
                self.buffer.unconsumed() + incoming,
            ).map_values(|frame: Frame<P>| Self::verdict(self.buffer.busy_state, frame)),
        decreases self.buffer.unconsumed().len() + incoming.len(),
    {
        let stream = self.buffer.unconsumed() + incoming;
        let verdict = |frame: Frame<P>| Self::verdict(self.buffer.busy_state, frame);
        P::lemma_header_len_positive();
        self.buffer.lemma_step_takes_first_frame(incoming);
        match first_frame::<P>(stream) {
            Some((frame, used)) => {
                let buffer = FrameState::<P>::resting(stream.skip(used), self.buffer.busy_state);
                let (next, action) = WorkerState { buffer, ..self }.route(frame);
                assert(buffer.unconsumed() + Seq::<u8>::empty() =~= stream.skip(used));
                next.lemma_handing_out_follows_stream(Seq::empty());
                assert(frames::<P>(stream) == seq![frame] + frames::<P>(stream.skip(used)));
                assert(frames::<P>(stream).map_values(verdict) =~= seq![action] + frames::<P>(
                    stream.skip(used),
                ).map_values(verdict));
            },
            None => {
                assert(frames::<P>(stream).map_values(verdict) =~= Seq::<ActionView<P>>::empty());
            },
        }
    }

    /// The control channels are looked at in time. An iteration begins with
    /// the shutdown channel when no iteration is left before the service,
    /// and else with the socket, leaving one iteration less; never more than
    /// `check_count - 1` iterations are left.
    pub proof fn lemma_service_comes_due(self)
        ensures
            self.iterations_before_service() == 0 ==> self.begin_iteration().1
                == ActionView::<P>::PollShutdown,
            self.iterations_before_service() > 0 ==> self.begin_iteration().1
                == ActionView::<P>::Read && self.begin_iteration().0.iterations_before_service()
                == self.iterations_before_service() - 1,
            self.iterations_before_service() == 0 || self.iterations_before_service()
                < self.config.check_count,
    {
    }

    /// A worker that finds the shutdown signal, or finds any of its control
    /// channels deserted, ends at once.
    pub proof fn lemma_shutdown_ends_worker(self, event: WorkerEvent<P>)
        requires
            ({
                ||| self.phase == Phase::PollingShutdown && (event
                    == WorkerEvent::<P>::ShutdownPolled(Polled::Received(()))
                    || event == WorkerEvent::<P>::ShutdownPolled(Polled::Disconnected))
                ||| self.phase == Phase::PollingBusyStateQuery && event == WorkerEvent::<
                    P,
                >::BusyStateQueryPolled(Polled::Disconnected)
                ||| self.phase == Phase::PollingBusyStateUpdate && event == WorkerEvent::<
                    P,
                >::BusyStateUpdatePolled(Polled::Disconnected)
                ||| self.phase == Phase::AnsweringBusyStateQuery && event == WorkerEvent::<
                    P,
                >::BusyStateQueryAnswered(false)
                ||| (self.phase == Phase::Posting || self.phase == Phase::PostingReadError)
                    && event == WorkerEvent::<P>::Posted(false)
            }),
        ensures
            self.next(event) == (self.finished(), ActionView::<P>::Finish),
    {
    }
}

/// The reader of one endpoint.
pub struct ReadWorker<P: Protocol> {
    buffer: ProtocolBuffer<P>,
    config: TcpIpcConfig,
    counter: u32,
    phase: Phase,
}

impl<P: Protocol> View for ReadWorker<P> {
    type V = WorkerState<P>;

    closed spec fn view(&self) -> WorkerState<P> {
        WorkerState {
            phase: self.phase,
            counter: self.counter,
            config: self.config,
            buffer: self.buffer@,
        }
    }
}

impl<P: Protocol> ReadWorker<P> {
    /// Whether the worker is in a state that its operations leave it in.
    pub open spec fn wf(&self) -> bool {
        self@.buffer.wf()
    }

    /// A worker that has not been started, with a fresh frame buffer.
    pub fn new(config: TcpIpcConfig) -> (worker: Self)
        ensures
            worker@ == WorkerState::<P>::initial(config),
            worker.wf(),
    {
        ReadWorker { buffer: ProtocolBuffer::new(), config, counter: 0, phase: Phase::Created }
    }

    /// Whether the worker has ended.
    pub fn is_finished(&self) -> (finished: bool)
        ensures
            finished == (self@.phase == Phase::Finished),
    {
        match self.phase {
            Phase::Finished => true,
            _ => false,
        }
    }

    /// The busy state that the worker goes by.
    pub fn get_busy_state(&self) -> (busy_state: &P::BusyStates)
        ensures
            *busy_state == self@.buffer.busy_state,
    {
        self.buffer.get_busy_state()
    }

    fn finish(&mut self) -> (action: WorkerAction<P>)
        ensures
            final(self)@ == old(self)@.finished(),
            action@ == ActionView::<P>::Finish,
    {
        self.phase = Phase::Finished;
        WorkerAction::Finish
    }

    fn begin_iteration(&mut self) -> (action: WorkerAction<P>)
        ensures
            final(self)@ == old(self)@.begin_iteration().0,
            action@ == old(self)@.begin_iteration().1,
    {
        if self.config.check_count <= 1 || self.counter >= self.config.check_count - 1 {
            self.counter = 0;
            self.phase = Phase::PollingShutdown;
            WorkerAction::PollShutdown
        } else {
            self.counter = self.counter + 1;
            self.phase = Phase::Reading;
            WorkerAction::Read
        }
    }

    fn end_iteration(&mut self) -> (action: WorkerAction<P>)
        ensures
            final(self)@ == old(self)@.end_iteration().0,
            action@ == old(self)@.end_iteration().1,
    {
        match self.config.read_iteration_wait_time {
            Some(duration) => {
                self.phase = Phase::Sleeping;
                WorkerAction::Sleep(duration)
            },
            None => self.begin_iteration(),
        }
    }

    fn drain(&mut self, incoming: &[u8]) -> (action: WorkerAction<P>)
        requires
            old(self).wf(),
        ensures
            final(self).wf(),
            final(self)@ == old(self)@.drain(incoming@).0,
            action@ == old(self)@.drain(incoming@).1,
    {
        match self.buffer.try_process_new_buffer(incoming) {
            Ok(Some((command, payload))) => {
                match P::message_is_answered_via_immediate_route(
                    &command,
                    payload.as_slice(),
                    self.buffer.get_busy_state(),
                ) {
                    Some((reply_command, reply_payload)) => {
                        match P::construct_message(reply_command, reply_payload.as_slice()) {
                            Some(wire) => {
                                self.phase = Phase::Writing;
                                WorkerAction::Write(wire)
                            },
                            None => {
                                self.phase = Phase::Posting;
                                WorkerAction::Report(
                                    ReadThreadErrorsInternal::ImmediateMessageConstructError(
                                        (reply_command, reply_payload),
                                    ),
                                )
                            },
                        }
                    },
                    None => {
                        self.phase = Phase::Posting;
                        WorkerAction::Deliver((command, payload))
                    },
                }
            },
            Ok(None) => self.end_iteration(),
            Err(_) => self.finish(),
        }
    }

    /// Tells the worker how the thing went that it named last, and asks for
    /// the next. A worker that is told `Started` names its first; one that
    /// has ended names `Finish` for ever.
    pub fn step(&mut self, event: WorkerEvent<P>) -> (action: WorkerAction<P>)
        requires
            old(self).wf(),
        ensures
            final(self).wf(),
            final(self)@ == old(self)@.next(event).0,
            action@ == old(self)@.next(event).1,
            action matches WorkerAction::AnswerBusyStateQuery(busy_state) ==> cloned::<
                P::BusyStates,
            >(old(self)@.buffer.busy_state, busy_state),
    {
        match (self.phase, event) {
            (Phase::Created, WorkerEvent::Started) => self.begin_iteration(),
            (Phase::Sleeping, WorkerEvent::Slept) => self.begin_iteration(),
            (Phase::PollingShutdown, WorkerEvent::ShutdownPolled(Polled::Empty)) => {
                self.phase = Phase::PollingBusyStateQuery;
                WorkerAction::PollBusyStateQuery
            },
            (
                Phase::PollingBusyStateQuery,
                WorkerEvent::BusyStateQueryPolled(Polled::Received(_)),
            ) => {
                self.phase = Phase::AnsweringBusyStateQuery;
                WorkerAction::AnswerBusyStateQuery(self.buffer.get_busy_state().clone())
            },
            (Phase::PollingBusyStateQuery, WorkerEvent::BusyStateQueryPolled(Polled::Empty)) => {
                self.phase = Phase::PollingBusyStateUpdate;
                WorkerAction::PollBusyStateUpdate
            },
            (Phase::AnsweringBusyStateQuery, WorkerEvent::BusyStateQueryAnswered(true)) => {
                self.phase = Phase::PollingBusyStateUpdate;
                WorkerAction::PollBusyStateUpdate
            },
            (
                Phase::PollingBusyStateUpdate,
                WorkerEvent::BusyStateUpdatePolled(Polled::Received(busy_state)),
            ) => {
                self.buffer.update_busy_state(busy_state);
                WorkerAction::PollBusyStateUpdate
            },
            (
                Phase::PollingBusyStateUpdate,
                WorkerEvent::BusyStateUpdatePolled(Polled::Empty),
            ) => {
                self.phase = Phase::Reading;
                WorkerAction::Read
            },
            (Phase::Reading, WorkerEvent::ReadCompleted(ReadOutcome::Data(bytes))) => {
                if bytes.len() == 0 {
                    self.end_iteration()
                } else {
                    self.drain(bytes)
                }
            },
            (Phase::Reading, WorkerEvent::ReadCompleted(ReadOutcome::WouldBlock)) => {
                self.end_iteration()
            },
            (Phase::Reading, WorkerEvent::ReadCompleted(ReadOutcome::Failed(error))) => {
                self.phase = Phase::PostingReadError;
                WorkerAction::Report(ReadThreadErrorsInternal::ReadError(error))
            },
            (Phase::Writing, WorkerEvent::WriteCompleted(None)) => {
                let nothing: Vec<u8> = Vec::new();
                self.drain(nothing.as_slice())
            },
            (Phase::Writing, WorkerEvent::WriteCompleted(Some(error))) => {
                self.phase = Phase::Posting;
                WorkerAction::Report(ReadThreadErrorsInternal::WriteError(error))
            },
            (Phase::Posting, WorkerEvent::Posted(true)) => {
                let nothing: Vec<u8> = Vec::new();
                self.drain(nothing.as_slice())
            },
            (Phase::PostingReadError, WorkerEvent::Posted(true)) => self.end_iteration(),
            _ => self.finish(),
        }
    }
}

} // verus!
