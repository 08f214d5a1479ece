//! One exchange with the device: a command goes out, then one reply is
//! awaited, or, after `Listen`, one reply after another without end.
//!
//! The exchange itself touches no socket. It tells its driver what to do next
//! (an [`Action`]) and is told what came of it (an [`Event`]).

use crate::error::{DecodeError, ReceiveError, SessionError};
use crate::message::AkariMessage;
use crate::response::AkariResponse;
use vstd::prelude::*;

verus! {

/// The number of bytes of a datagram that count. It leaves ample room for
/// the longest reply.
pub const MAX_FRAME_SIZE: usize = 256;

/// Where an exchange stands.
#[derive(Debug, Clone, Copy, PartialEq, Eq, Structural)]
pub enum Phase {
    /// The command is on its way out.
    Sending,
    /// A datagram is awaited.
    Awaiting,
    /// A reply is being reported.
    Reporting,
    /// The exchange is over.
    Closed,
}

/// What the driver tells the exchange.
#[derive(Debug, PartialEq, Eq)]
pub enum Event {
    /// The datagram was handed to the network.
    Sent,
    /// The datagram could not be transmitted.
    SendFailed,
    /// A datagram arrived, with these bytes.
    Datagram(Vec<u8>),
    /// Receiving failed.
    ReceiveFailed,
    /// The reply was reported.
    Reported,
}

/// What the exchange asks of its driver.
#[derive(Debug, PartialEq, Eq)]
pub enum Action {
    /// Transmit these bytes as one datagram, then tell `Sent` or
    /// `SendFailed`.
    Send(Vec<u8>),
    /// Wait, however long it takes, for one datagram of which at most this
    /// many bytes count, then tell `Datagram` or `ReceiveFailed`.
    Receive(usize),
    /// Report this reply, then tell `Reported`.
    Report(AkariResponse),
    /// Stop: the exchange is over, with this outcome.
    Finish(Result<(), SessionError>),
}

/// An [`Event`] as contracts see it.
pub ghost enum EventView {
    Sent,
    SendFailed,
    Datagram(Seq<u8>),
    ReceiveFailed,
    Reported,
}

/// An [`Action`] as contracts see it.
pub ghost enum ActionView {
    Send(Seq<u8>),
    Receive(usize),
    Report(AkariResponse),
    Finish(Result<(), SessionError>),
}

impl View for Event {
    type V = EventView;

    open spec fn view(&self) -> EventView {
        match self {
            Event::Sent => EventView::Sent,
            Event::SendFailed => EventView::SendFailed,
            Event::Datagram(bytes) => EventView::Datagram(bytes@),
            Event::ReceiveFailed => EventView::ReceiveFailed,
            Event::Reported => EventView::Reported,
        }
    }
}

impl View for Action {
    type V = ActionView;

    open spec fn view(&self) -> ActionView {
        match self {
            Action::Send(bytes) => ActionView::Send(bytes@),
            Action::Receive(max_frame_size) => ActionView::Receive(*max_frame_size),
            Action::Report(response) => ActionView::Report(*response),
            Action::Finish(outcome) => ActionView::Finish(*outcome),
        }
    }
}

/// The state of one exchange.
#[derive(Debug, Clone, Copy, PartialEq, Eq, Structural)]
pub struct Session {
    /// Whether the command was `Listen`, so that replies keep coming.
    pub listening: bool,
    /// Where the exchange stands.
    pub phase: Phase,
}

impl Session {
    /// The session in another phase.
    pub open spec fn at(self, phase: Phase) -> Session {
        Session { listening: self.listening, phase }
    }

    /// The exchange as it begins: the state, and the datagram to send.
    pub open spec fn spec_begin(command: AkariMessage) -> (Session, ActionView) {
        (
            Session { listening: command is Listen, phase: Phase::Sending },
            ActionView::Send(command.wire()),
        )
    }

    /// The rule of the exchange: the state after `event`, and what to do
    /// next.
    ///
    /// Once the command is sent, a datagram is awaited. The datagram is
    /// decoded, and the reply is reported.
    /// After the report a listening exchange awaits the next datagram; any
    /// other is over, with success. A failure to send or to receive, and a
    /// datagram that is no reply, end the exchange with the matching error,
    /// listening or not. An event that the phase does not wait for ends it
    /// with `OutOfTurn`.
    pub open spec fn spec_step(self, event: EventView) -> (Session, ActionView) {
        match (self.phase, event) {
            (Phase::Sending, EventView::Sent) => (
                self.at(Phase::Awaiting),
                ActionView::Receive(MAX_FRAME_SIZE),
            ),
            (Phase::Sending, EventView::SendFailed) => (
                self.at(Phase::Closed),
                ActionView::Finish(Err(SessionError::Send)),
            ),
            (Phase::Awaiting, EventView::Datagram(bytes)) => match AkariResponse::spec_decode(bytes) {
                Ok(response) => (self.at(Phase::Reporting), ActionView::Report(response)),
                Err(e) => (
                    self.at(Phase::Closed),
                    ActionView::Finish(Err(SessionError::Receive(ReceiveError::Decode(e)))),
                ),
            },
            (Phase::Awaiting, EventView::ReceiveFailed) => (
                self.at(Phase::Closed),
                ActionView::Finish(Err(SessionError::Receive(ReceiveError::Io))),
            ),
            (Phase::Reporting, EventView::Reported) => if self.listening {
                (self.at(Phase::Awaiting), ActionView::Receive(MAX_FRAME_SIZE))
            } else {
                (self.at(Phase::Closed), ActionView::Finish(Ok(())))
            },
            _ => (self.at(Phase::Closed), ActionView::Finish(Err(SessionError::OutOfTurn))),
        }
    }

    /// Begins the exchange that carries `command`: encodes it and asks for
    /// the datagram to be sent.
    pub fn begin(command: AkariMessage) -> (r: (Session, Action))
        ensures
            (r.0, r.1@) == Self::spec_begin(command),
    {
        let listening = match command {
            AkariMessage::Listen => true,
            _ => false,
        };
        (Session { listening, phase: Phase::Sending }, Action::Send(command.message()))
    }

    /// Takes the exchange one step on: from what the driver tells to what it
    /// is to do next.
    pub fn step(self, event: Event) -> (r: (Session, Action))
        ensures
            (r.0, r.1@) == self.spec_step(event@),
            r.0.listening == self.listening,
            r.1 is Finish <==> r.0.phase is Closed,
            !(r.1 is Send),
    {
        match (self.phase, event) {
            (Phase::Sending, Event::Sent) => (
                Session { listening: self.listening, phase: Phase::Awaiting },
                Action::Receive(MAX_FRAME_SIZE),
            ),
            (Phase::Sending, Event::SendFailed) => (
                Session { listening: self.listening, phase: Phase::Closed },
                Action::Finish(Err(SessionError::Send)),
            ),
            (Phase::Awaiting, Event::Datagram(bytes)) => {
                match AkariResponse::decode_frame(bytes.as_slice(), MAX_FRAME_SIZE) {
                    Ok(response) => (
                        Session { listening: self.listening, phase: Phase::Reporting },
                        Action::Report(response),
                    ),
                    Err(e) => (
                        Session { listening: self.listening, phase: Phase::Closed },
                        Action::Finish(Err(SessionError::Receive(ReceiveError::Decode(e)))),
                    ),
                }
            },
            (Phase::Awaiting, Event::ReceiveFailed) => (
                Session { listening: self.listening, phase: Phase::Closed },
                Action::Finish(Err(SessionError::Receive(ReceiveError::Io))),
            ),
            (Phase::Reporting, Event::Reported) => {
                if self.listening {
                    (
                        Session { listening: self.listening, phase: Phase::Awaiting },
                        Action::Receive(MAX_FRAME_SIZE),
                    )
                } else {
                    (
                        Session { listening: self.listening, phase: Phase::Closed },
                        Action::Finish(Ok(())),
                    )
                }
            },
            _ => (
                Session { listening: self.listening, phase: Phase::Closed },
                Action::Finish(Err(SessionError::OutOfTurn)),
            ),
        }
    }
}

impl Session {
    /// The state after one datagram after another has arrived and its reply
    /// has been reported.
    pub open spec fn after_replies(self, datagrams: Seq<Seq<u8>>) -> Session
        decreases datagrams.len(),
    {
        if datagrams.len() == 0 {
            self
        } else {
            self.spec_step(EventView::Datagram(datagrams[0])).0.spec_step(
                EventView::Reported,
            ).0.after_replies(datagrams.skip(1))
        }
    }
}

/// An exchange that does not listen is one command and one reply: the
/// encoded command is sent, one datagram is awaited, its reply is reported,
/// and the exchange is over, with success.
pub proof fn lemma_single_exchange(command: AkariMessage, datagram: Seq<u8>, reply: AkariResponse)
    requires
        !(command is Listen),
        AkariResponse::spec_decode(datagram) == Ok::<AkariResponse, DecodeError>(reply),
    ensures
        ({
            let (s0, a0) = Session::spec_begin(command);
            let (s1, a1) = s0.spec_step(EventView::Sent);
            let (s2, a2) = s1.spec_step(EventView::Datagram(datagram));
            let (s3, a3) = s2.spec_step(EventView::Reported);
            &&& a0 == ActionView::Send(command.wire())
            &&& a1 == ActionView::Receive(MAX_FRAME_SIZE)
            &&& a2 == ActionView::Report(reply)
            &&& a3 == ActionView::Finish(Ok(()))
            &&& s3.phase == Phase::Closed
        }),
{
}

/// A datagram that is no reply ends the exchange with the decoding error,
/// whether it listens or not.
pub proof fn lemma_malformed_reply_is_fatal(session: Session, datagram: Seq<u8>, e: DecodeError)
    requires
        session.phase == Phase::Awaiting,
        AkariResponse::spec_decode(datagram) == Err::<AkariResponse, DecodeError>(e),
    ensures
        session.spec_step(EventView::Datagram(datagram)) == (
            session.at(Phase::Closed),
            ActionView::Finish(Err(SessionError::Receive(ReceiveError::Decode(e)))),
        ),
{
}

/// One round of listening: the reply in the datagram is reported, and then
/// the exchange awaits the next datagram, in the state it was in before.
pub proof fn lemma_listening_round(session: Session, datagram: Seq<u8>, reply: AkariResponse)
    requires
        session.listening,
        session.phase == Phase::Awaiting,
        AkariResponse::spec_decode(datagram) == Ok::<AkariResponse, DecodeError>(reply),
    ensures
        ({
            let (s1, a1) = session.spec_step(EventView::Datagram(datagram));
            let (s2, a2) = s1.spec_step(EventView::Reported);
            &&& a1 == ActionView::Report(reply)
            &&& a2 == ActionView::Receive(MAX_FRAME_SIZE)
            &&& s2 == session
        }),
{
}

/// A listening exchange does not end by itself: as long as the datagrams
/// are replies, it reports each and awaits the next.
pub proof fn lemma_listening_goes_on(session: Session, datagrams: Seq<Seq<u8>>)
    requires
        session.listening,
        session.phase == Phase::Awaiting,
        forall|i: int|
            0 <= i < datagrams.len() ==> (#[trigger] AkariResponse::spec_decode(
                datagrams[i],
            )) is Ok,
    ensures
        session.after_replies(datagrams) == session,
    decreases datagrams.len(),
{
    if datagrams.len() > 0 {
        assert(AkariResponse::spec_decode(datagrams[0]) is Ok);
        let rest = datagrams.skip(1);
        assert forall|i: int| 0 <= i < rest.len() implies (#[trigger] AkariResponse::spec_decode(
            rest[i],
        )) is Ok by {
            assert(rest[i] == datagrams[i + 1]);
        }
        lemma_listening_goes_on(session, rest);
    }
}

/// Once over, an exchange stays over, whatever it is told.
pub proof fn lemma_closed_stays_closed(session: Session, event: EventView)
    requires
        session.phase == Phase::Closed,
    ensures
        session.spec_step(event) == (
            session,
            ActionView::Finish(Err(SessionError::OutOfTurn)),
        ),
{
}

} // verus!
