//! Processes: commands that run on a channel of their own, with the pump that
//! carries their traffic.
//!
//! A process has a queue of outbound messages. Callers put signals and
//! input on it; the pump, which the caller of this crate runs as a task,
//! takes them off and is told by [`Proc::pump`] what to do with each, as it is
//! with each event that arrives on the channel.

use tokio::sync::mpsc::UnboundedSender;
use vstd::prelude::*;
use vstd::slice::slice_to_vec;
use crate::error::{Error, ErrorKind};

verus! {

/// The sending half of tokio's unbounded channel. Nothing is known of what
/// is inside.
#[verifier::external_type_specification]
#[verifier::external_body]
#[verifier::reject_recursive_types(T)]
pub struct ExUnboundedSender<T>(UnboundedSender<T>);

/// The stream on which a process's primary output arrives.
pub const PRIMARY_STREAM: u32 = 0;

/// A signal for a remote process, by its name in the SSH protocol.
#[derive(Debug, PartialEq, Eq)]
pub enum Signal {
    ABRT,
    ALRM,
    FPE,
    HUP,
    ILL,
    INT,
    KILL,
    PIPE,
    QUIT,
    SEGV,
    TERM,
    USR1,
    /// A signal that the protocol does not name.
    Custom(String),
}

/// A message on the way to the peer.
#[derive(Debug, PartialEq, Eq)]
pub enum Outbound {
    /// Deliver a signal to the remote process.
    Signal(Signal),
    /// Nothing more will be sent.
    Eof,
    /// Bytes for the remote process's input.
    Data(Vec<u8>),
}

/// An event on the channel.
#[derive(Debug, PartialEq, Eq)]
pub enum Inbound {
    /// Bytes of the primary output.
    Data(Vec<u8>),
    /// Bytes of the auxiliary stream `ext`, such as error output.
    ExtendedData { ext: u32, data: Vec<u8> },
    /// The peer will send nothing more.
    Eof,
    /// The peer has closed the channel.
    Close,
    /// The peer accepted the request that asked for a reply.
    Success,
    /// The peer rejected the request that asked for a reply.
    Failure,
    /// Any other event.
    Other,
}

impl Inbound {
    /// The peer's reply to a request, if this event is one: `true` where the
    /// peer accepted.
    pub open spec fn spec_reply(&self) -> Option<bool> {
        match self {
            Inbound::Success => Some(true),
            Inbound::Failure => Some(false),
            _ => None,
        }
    }

    /// The peer's reply to a request, if this event is one. Whoever waits
    /// for a reply passes over the events that are none.
    #[verifier::when_used_as_spec(spec_reply)]
    pub fn reply(&self) -> (reply: Option<bool>)
        ensures
            reply == self.spec_reply(),
    {
        match self {
            Inbound::Success => Some(true),
            Inbound::Failure => Some(false),
            _ => None,
        }
    }
}

/// A request that is made of the channel itself.
#[derive(Debug, PartialEq, Eq)]
pub enum ChannelOp {
    Signal(Signal),
    Eof,
}

/// What the pump has to deal with next.
#[derive(Debug, PartialEq, Eq)]
pub enum PumpEvent {
    /// A message was taken off the outbound queue.
    Outbound(Outbound),
    /// An event arrived on the channel.
    Inbound(Inbound),
}

/// What the pump does about an event.
#[derive(Debug, PartialEq, Eq)]
pub enum PumpAction {
    /// Make this request of the channel.
    Send(ChannelOp),
    /// Write these bytes to the channel.
    Write(Vec<u8>),
    /// Hand these bytes, which arrived on stream `ext`, to whoever listens.
    Deliver { ext: u32, data: Vec<u8> },
    /// Nothing.
    Continue,
    /// The channel is gone: end the pump.
    Stop,
}

/// How far a process has been started.
#[derive(Debug, PartialEq, Eq)]
pub enum Start {
    /// Ask the channel to run `command`, and for a reply if `want_reply`.
    Request { want_reply: bool, command: String },
    /// Starting is over, with this result.
    Done(Result<(), Error>),
}

/// Whether `e` is the error of a channel on which nothing can be sent.
pub open spec fn is_disconnected(e: Error) -> bool {
    e.kind == ErrorKind::Disconnected && e.message@ == "Disconnected"@
}

/// Whether `e` is the error of a request that the peer rejected.
pub open spec fn is_negative_reply(e: Error) -> bool {
    e.kind == ErrorKind::NegativeReply && e.message@ == "Negative reply"@
}

/// The request of the channel that the message `msg` stands for.
pub open spec fn channel_op(msg: Outbound) -> ChannelOp
    recommends
        !(msg is Data),
{
    match msg {
        Outbound::Signal(signal) => ChannelOp::Signal(signal),
        _ => ChannelOp::Eof,
    }
}

/// What the pump does about `event` while the channel is there.
pub open spec fn pump_action(event: PumpEvent) -> PumpAction {
    match event {
        PumpEvent::Outbound(Outbound::Data(data)) => PumpAction::Write(data),
        PumpEvent::Outbound(msg) => PumpAction::Send(channel_op(msg)),
        PumpEvent::Inbound(Inbound::Data(data)) => PumpAction::Deliver { ext: PRIMARY_STREAM, data },
        PumpEvent::Inbound(Inbound::ExtendedData { ext, data }) => PumpAction::Deliver { ext, data },
        PumpEvent::Inbound(Inbound::Eof) => PumpAction::Stop,
        PumpEvent::Inbound(Inbound::Close) => PumpAction::Stop,
        PumpEvent::Inbound(_) => PumpAction::Continue,
    }
}

/// Puts `message` on the queue behind `sender` with
/// `tokio::sync::mpsc::UnboundedSender::send`, and says whether the queue
/// took it.
///
/// Trusted: whether the queue takes a message depends on whether its
/// receiving half is still there, which is not for this crate to know, so
/// nothing is claimed of the result.
#[verifier::external_body]
fn enqueue(sender: &UnboundedSender<Outbound>, message: Outbound) -> (taken: bool) {
    match sender.send(message) {
        Ok(()) => true,
        Err(_) => false,
    }
}

/// The messages that a signal puts on the queue: the signal, and the end of
/// input right behind it.
pub open spec fn signal_messages(signal: Signal) -> Seq<Outbound> {
    seq![Outbound::Signal(signal), Outbound::Eof]
}

/// A command on a channel of its own.
pub struct Proc {
    command: String,
    channel: bool,
    sender: Option<UnboundedSender<Outbound>>,
    queued: Ghost<Seq<Outbound>>,
}

impl Proc {
    /// The command that the process runs.
    pub closed spec fn spec_command(&self) -> String {
        self.command
    }

    /// Whether the process still has its channel.
    pub closed spec fn spec_has_channel(&self) -> bool {
        self.channel
    }

    /// Whether the process has the sending half of its outbound queue: the
    /// pump has started and has not stopped.
    pub closed spec fn spec_is_ready(&self) -> bool {
        self.sender is Some
    }

    /// The messages that the process has put on its outbound queue so far,
    /// in the order in which the queue took them.
    pub closed spec fn queued(&self) -> Seq<Outbound> {
        self.queued@
    }

    /// Whether `self` differs from `before` at most in what it has queued.
    pub open spec fn same_process(&self, before: Proc) -> bool {
        &&& self.spec_command() == before.spec_command()
        &&& self.spec_has_channel() == before.spec_has_channel()
        &&& self.spec_is_ready() == before.spec_is_ready()
    }

    /// A process for `command` on a channel that was just opened. Its pump
    /// has not started.
    pub fn new(command: String) -> (process: Proc)
        ensures
            process.spec_command() == command,
            process.spec_has_channel(),
            !process.spec_is_ready(),
            process.queued() == Seq::<Outbound>::empty(),
    {
        Proc { command, channel: true, sender: None, queued: Ghost(Seq::empty()) }
    }

    /// The command that the process runs.
    pub fn command(&self) -> (command: &String)
        ensures
            *command == self.spec_command(),
    {
        &self.command
    }

    /// Whether the process still has its channel.
    #[verifier::when_used_as_spec(spec_has_channel)]
    pub fn has_channel(&self) -> (b: bool)
        ensures
            b == self.spec_has_channel(),
    {
        self.channel
    }

    /// Whether the pump has started and has not stopped.
    #[verifier::when_used_as_spec(spec_is_ready)]
    pub fn is_ready(&self) -> (b: bool)
        ensures
            b == self.spec_is_ready(),
    {
        self.sender.is_some()
    }

    /// How starting goes on when the peer's reply to the request, if one was
    /// made yet, is `reply`.
    ///
    /// Without a channel there is nothing to start. With one, the command is
    /// requested first, with a reply wanted; the peer's `Ok(false)` is a
    /// rejection, and a failure to get a reply is handed on.
    pub open spec fn start_step(&self, reply: Option<Result<bool, Error>>, step: Start) -> bool {
        if !self.has_channel() {
            step == Start::Done(Ok(()))
        } else {
            match reply {
                None => step == (Start::Request { want_reply: true, command: self.spec_command() }),
                Some(Ok(true)) => step == Start::Done(Ok(())),
                Some(Ok(false)) => step matches Start::Done(Err(e)) && is_negative_reply(e),
                Some(Err(e)) => step == Start::Done(Err(e)),
            }
        }
    }

    /// Decides how starting goes on: [`Proc::start_step`]. Call it with
    /// `None` first, and again with the reply once the request is made.
    pub fn start(&self, reply: Option<Result<bool, Error>>) -> (step: Start)
        ensures
            self.start_step(reply, step),
    {
        if !self.channel {
            return Start::Done(Ok(()));
        }
        match reply {
            None => Start::Request { want_reply: true, command: self.command.clone() },
            Some(Ok(true)) => Start::Done(Ok(())),
            Some(Ok(false)) => Start::Done(Err(Error::new(ErrorKind::NegativeReply, "Negative reply"))),
            Some(Err(e)) => Start::Done(Err(e)),
        }
    }

    /// The result of sending when the queue has taken the message, or has
    /// not: a queue that takes nothing has lost its pump.
    pub fn sent(taken: bool) -> (result: Result<(), Error>)
        ensures
            taken ==> result is Ok,
            !taken ==> (result matches Err(e) && is_disconnected(e)),
    {
        if taken {
            Ok(())
        } else {
            Err(Error::new(ErrorKind::Disconnected, "Disconnected"))
        }
    }

    /// Puts `message` on the outbound queue if there is one: where the
    /// queue takes it, it is the last of what the process has queued.
    fn send(&mut self, message: Outbound) -> (result: Result<(), Error>)
        ensures
            final(self).same_process(*old(self)),
            !old(self).is_ready() ==> result is Err,
            result is Ok ==> final(self).queued() == old(self).queued().push(message),
            result matches Err(e) ==> is_disconnected(e) && final(self).queued() == old(
                self,
            ).queued(),
    {
        let ghost last = message;
        let taken = match &self.sender {
            Some(sender) => enqueue(sender, message),
            None => false,
        };
        if taken {
            self.queued = Ghost(self.queued@.push(last));
        }
        Proc::sent(taken)
    }

    /// Queues `signal` for the remote process, and the end of input right
    /// behind it. Never waits.
    ///
    /// Without a pump nothing is queued and the error is `Disconnected`. So
    /// is the error when the queue takes no more; the signal may have been
    /// queued then, if it was only the end of input that the queue refused.
    pub fn signal(&mut self, signal: Signal) -> (result: Result<(), Error>)
        ensures
            final(self).same_process(*old(self)),
            !old(self).is_ready() ==> result is Err && final(self).queued() == old(self).queued(),
            result is Ok ==> final(self).queued() == old(self).queued() + signal_messages(signal),
            result matches Err(e) ==> is_disconnected(e) && (final(self).queued() == old(
                self,
            ).queued() || final(self).queued() == old(self).queued().push(
                Outbound::Signal(signal),
            )),
    {
        match self.send(Outbound::Signal(signal)) {
            Ok(()) => {
                let result = self.send(Outbound::Eof);
                assert(old(self).queued().push(Outbound::Signal(signal)).push(Outbound::Eof)
                    =~= old(self).queued() + signal_messages(signal));
                result
            },
            Err(e) => Err(e),
        }
    }

    /// Queues `data` for the remote process's input. Never waits.
    ///
    /// Without a pump nothing is queued and the error is `Disconnected`; so
    /// it is when the queue takes no more.
    pub fn data(&mut self, data: &[u8]) -> (result: Result<(), Error>)
        ensures
            final(self).same_process(*old(self)),
            !old(self).is_ready() ==> result is Err,
            result is Ok ==> final(self).queued().len() == old(self).queued().len() + 1
                && final(self).queued().drop_last() == old(self).queued()
                && (final(self).queued().last() matches Outbound::Data(bytes) && bytes@ == data@),
            result matches Err(e) ==> is_disconnected(e) && final(self).queued() == old(
                self,
            ).queued(),
    {
        let result = self.send(Outbound::Data(slice_to_vec(data)));
        proof {
            if result is Ok {
                assert(self.queued().drop_last() =~= old(self).queued());
            }
        }
        result
    }

    /// Takes the sending half of the outbound queue: the pump has started.
    pub fn tx_ready(&mut self, sender: UnboundedSender<Outbound>)
        ensures
            final(self).is_ready(),
            final(self).spec_command() == old(self).spec_command(),
            final(self).has_channel() == old(self).has_channel(),
            final(self).queued() == old(self).queued(),
    {
        self.sender = Some(sender);
    }

    /// Turns a queued message into the request of the channel that it stands
    /// for: [`channel_op`]. Data is no request: the pump writes it itself.
    pub fn send_msg(msg: Outbound) -> (op: ChannelOp)
        requires
            !(msg is Data),
        ensures
            op == channel_op(msg),
    {
        match msg {
            Outbound::Signal(signal) => ChannelOp::Signal(signal),
            _ => ChannelOp::Eof,
        }
    }

    /// Decides what the pump does about `event`.
    ///
    /// While the process has its channel, the action is [`pump_action`].
    /// When the peer ends or closes the channel, the process gives up its
    /// channel and its queue, and the pump stops. Without a channel the pump
    /// stops whatever the event.
    pub fn pump(&mut self, event: PumpEvent) -> (action: PumpAction)
        ensures
            final(self).spec_command() == old(self).spec_command(),
            final(self).queued() == old(self).queued(),
            action == if old(self).has_channel() {
                pump_action(event)
            } else {
                PumpAction::Stop
            },
            action is Stop ==> !final(self).has_channel() && !final(self).is_ready(),
            !(action is Stop) ==> final(self).has_channel() && final(self).is_ready()
                == old(self).is_ready(),
    {
        if !self.channel {
            self.sender = None;
            return PumpAction::Stop;
        }
        match event {
            PumpEvent::Outbound(Outbound::Data(data)) => PumpAction::Write(data),
            PumpEvent::Outbound(msg) => PumpAction::Send(Proc::send_msg(msg)),
            PumpEvent::Inbound(Inbound::Data(data)) => PumpAction::Deliver { ext: PRIMARY_STREAM, data },
            PumpEvent::Inbound(Inbound::ExtendedData { ext, data }) => PumpAction::Deliver {
                ext,
                data,
            },
            PumpEvent::Inbound(Inbound::Eof) | PumpEvent::Inbound(Inbound::Close) => {
                self.channel = false;
                self.sender = None;
                PumpAction::Stop
            },
            PumpEvent::Inbound(_) => PumpAction::Continue,
        }
    }
}

} // verus!
